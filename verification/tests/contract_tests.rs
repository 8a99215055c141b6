use redirection::contract::{execute, instantiate};
use redirection::error::ContractError;
use redirection::host::{coins, Env, MessageInfo};
use redirection::msg::{ExecuteMsg, InstantiateMsg};
use redirection::state::Store;

fn mock_env() -> Env {
    Env { contract_address: String::from("cosmos2contract") }
}

fn mock_info(sender: &str, funds: Vec<redirection::host::Coin>) -> MessageInfo {
    MessageInfo { sender: String::from(sender), funds }
}

#[test]
fn proper_initialization() {
    let mut store = Store::new();
    let sample_addr = String::from("terra1757tkx08n0cqrw7p86ny9lnxsqeth0wgp0em95");
    let instantiate_msg = InstantiateMsg {
        admin: sample_addr.clone(),
        charity_address: sample_addr.clone(),
        anchor_market_address: String::from("terra15dwd5mj8v59wpj0wvt233mf5efdff808c5tkal"),
        aust_token_address: String::from("terra1ajt556dpzvjwl0kl5tzku3fc3p3knkg9mkv8jl"),
        theta: 1000,
    };
    let info = mock_info(sample_addr.as_ref(), vec![]);
    let result = instantiate(&mut store, mock_env(), info, instantiate_msg.clone()).unwrap();
    assert_eq!(0, result.messages.len());
}

#[test]
fn deposit_new_pool() {
    let mut store = Store::new();
    let sample_addr = String::from("terra1757tkx08n0cqrw7p86ny9lnxsqeth0wgp0em95");
    let info = mock_info(sample_addr.as_ref(), coins(10000000, "uusd"));

    let msg = ExecuteMsg::DepositPool { percentage: 2 };
    let res = execute(&mut store, mock_env(), info, msg);

    assert_eq!(ContractError::WrongPercentageInput {}, res.unwrap_err());

    let info = mock_info(sample_addr.as_ref(), coins(100, "uusd"));
    let msg = ExecuteMsg::DepositPool { percentage: 50 };
    let res = execute(&mut store, mock_env(), info, msg);

    assert_eq!(ContractError::MakeNewPoolError {}, res.unwrap_err());
}
