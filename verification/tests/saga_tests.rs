use redirection::contract::{execute, instantiate, reply};
use redirection::error::{ContractError, PaymentError, StdError};
use redirection::events::{attr, Attribute, ContractResult, Event, Reply, SubMsgExecutionResponse};
use redirection::host::{coin, coins, Coin, Env, MessageInfo};
use redirection::msg::{AnchorExecuteMsg, Cw20ExecuteMsg, Cw20HookMsg, ExecuteMsg, InstantiateMsg};
use redirection::query::{get_deposit_info, query};
use redirection::msg::QueryMsg;
use redirection::response::{
    BankMsg, CosmosMsg, Payload, ReplyOn, Response, SubMsg, WasmMsg,
};
use redirection::state::{Config, Pool, Store};

const CONTRACT: &str = "terra1contract";
const ADMIN: &str = "terra1admin";
const CHARITY: &str = "terra1charity";
const MARKET: &str = "terra1market";
const TOKEN: &str = "terra1token";
const ALICE: &str = "terra1alice";
const BOB: &str = "terra1bob";
const THETA: u64 = 1_000;

fn env() -> Env {
    Env { contract_address: String::from(CONTRACT) }
}

fn info(sender: &str, funds: Vec<Coin>) -> MessageInfo {
    MessageInfo { sender: String::from(sender), funds }
}

fn config() -> Config {
    Config {
        admin: String::from(ADMIN),
        charity_address: String::from(CHARITY),
        anchor_market_address: String::from(MARKET),
        aust_token_address: String::from(TOKEN),
        theta: THETA,
    }
}

fn fresh_store() -> Store {
    let mut store = Store::new();
    let msg = InstantiateMsg {
        admin: String::from(ADMIN),
        charity_address: String::from(CHARITY),
        anchor_market_address: String::from(MARKET),
        aust_token_address: String::from(TOKEN),
        theta: THETA,
    };
    instantiate(&mut store, env(), info(ADMIN, vec![]), msg).unwrap();
    store
}

fn store_with(depositor: &str, pool: Pool) -> Store {
    let mut store = fresh_store();
    store.save(depositor, pool);
    store
}

fn self_call(id: u64, msg: ExecuteMsg, funds: Vec<Coin>) -> SubMsg {
    SubMsg {
        id,
        msg: CosmosMsg::Wasm(WasmMsg::Execute {
            contract_addr: String::from(CONTRACT),
            msg: Payload::Contract(msg),
            funds,
        }),
        gas_limit: None,
        reply_on: ReplyOn::Success,
    }
}

fn plain(msg: CosmosMsg) -> SubMsg {
    SubMsg { id: 0, msg, gas_limit: None, reply_on: ReplyOn::Never }
}

fn anchor_deposit(amount: u128) -> CosmosMsg {
    CosmosMsg::Wasm(WasmMsg::Execute {
        contract_addr: String::from(MARKET),
        msg: Payload::Anchor(AnchorExecuteMsg::DepositStable {}),
        funds: coins(amount, "uusd"),
    })
}

fn redeem(aust: u128) -> CosmosMsg {
    CosmosMsg::Wasm(WasmMsg::Execute {
        contract_addr: String::from(TOKEN),
        msg: Payload::Token(Cw20ExecuteMsg::Send {
            contract: String::from(MARKET),
            amount: aust,
            msg: Cw20HookMsg::RedeemStable {},
        }),
        funds: vec![],
    })
}

fn bank_send(to: &str, amount: u128) -> CosmosMsg {
    CosmosMsg::Bank(BankMsg::Send { to_address: String::from(to), amount: coins(amount, "uusd") })
}

/// Carries out the one call to itself that `response` asks for, as the chain
/// would, and hands the outcome back as a reply: the attributes that the
/// call reported, then those that the lending venue reports.
fn continue_saga(
    store: &mut Store,
    response: Response,
    venue: Vec<Attribute>,
) -> (Response, Result<Response, ContractError>) {
    assert_eq!(response.messages.len(), 1);
    let sub = response.messages[0].clone();
    assert_eq!(sub.reply_on, ReplyOn::Success);
    let (msg, funds) = match sub.msg {
        CosmosMsg::Wasm(WasmMsg::Execute { contract_addr, msg: Payload::Contract(msg), funds }) => {
            assert_eq!(contract_addr, CONTRACT);
            (msg, funds)
        }
        other => panic!("not a call to the contract itself: {:?}", other),
    };
    let carried = execute(store, env(), info(CONTRACT, funds), msg).unwrap();
    let mut reported = vec![attr("_contract_address", CONTRACT)];
    reported.extend(carried.attributes.iter().cloned());
    let events = vec![
        Event { ty: String::from("wasm"), attributes: reported },
        Event { ty: String::from("from_contract"), attributes: venue },
    ];
    let outcome = reply(
        store,
        env(),
        Reply { id: sub.id, result: ContractResult::Success(SubMsgExecutionResponse { events }) },
    );
    (carried, outcome)
}

fn success(events: Vec<Event>) -> ContractResult<SubMsgExecutionResponse> {
    ContractResult::Success(SubMsgExecutionResponse { events })
}

fn one_event(attributes: Vec<Attribute>) -> Vec<Event> {
    vec![Event { ty: String::from("wasm"), attributes }]
}

#[test]
fn instantiate_writes_the_config_and_sends_nothing() {
    let mut store = Store::new();
    assert_eq!(store.load_config(), None);
    let msg = InstantiateMsg {
        admin: String::from(ADMIN),
        charity_address: String::from(CHARITY),
        anchor_market_address: String::from(MARKET),
        aust_token_address: String::from(TOKEN),
        theta: THETA,
    };
    let response = instantiate(&mut store, env(), info(BOB, vec![]), msg).unwrap();
    assert_eq!(response.messages, vec![]);
    assert_eq!(response.attributes, vec![attr("method", "instantiate")]);
    assert_eq!(store.load_config(), Some(config()));
    assert!(!store.has(ALICE));
}

#[test]
fn first_deposit_creates_the_pool_from_the_reported_amounts() {
    let mut store = fresh_store();
    let started = execute(
        &mut store,
        env(),
        info(ALICE, coins(10_000, "uusd")),
        ExecuteMsg::DepositPool { percentage: 50 },
    )
    .unwrap();
    assert_eq!(started.attributes, vec![]);
    assert_eq!(
        started.messages,
        vec![self_call(
            0,
            ExecuteMsg::InternalDepositInitial {
                ust_sent: 10_000,
                percentage: 50,
                depositor: String::from(ALICE),
            },
            vec![],
        )]
    );
    assert!(!store.has(ALICE));

    let venue = vec![attr("deposit_amount", "10000"), attr("mint_amount", "9950")];
    let (carried, outcome) = continue_saga(&mut store, started, venue);
    assert_eq!(
        carried.attributes,
        vec![attr("percentage", "50"), attr("ust_depositor", ALICE)]
    );
    assert_eq!(carried.messages, vec![plain(anchor_deposit(10_000))]);
    let written = outcome.unwrap();
    assert_eq!(written.messages, vec![]);
    assert_eq!(
        written.attributes,
        vec![
            attr("give_percentage", "50"),
            attr("ust_amount", "10000"),
            attr("aust_amount", "9950"),
        ]
    );
    assert_eq!(
        store.load(ALICE),
        Some(Pool { give_percentage: 50, ust_amount: 10_000, aust_amount: 9_950, total_donated: 0 })
    );
    assert_eq!(store.load(BOB), None);
}

#[test]
fn top_up_with_nothing_new_splits_the_yield() {
    let pool = Pool { give_percentage: 50, ust_amount: 10_000, aust_amount: 9_950, total_donated: 0 };
    let store = store_with(ALICE, pool);
    let events = one_event(vec![
        attr("ust_sent", "0"),
        attr("percentage", "50"),
        attr("ust_depositor", ALICE),
        attr("redeem_amount", "10300"),
    ]);
    let mut store = store;
    let response = reply(&mut store, env(), Reply { id: 1, result: success(events) }).unwrap();
    assert_eq!(
        response.messages,
        vec![self_call(
            2,
            ExecuteMsg::InternalSwapBackUpdate {
                to_angel: 150,
                charity_address: String::from(CHARITY),
                ust_amount: 10_150,
                new_percentage: 50,
                depositor: String::from(ALICE),
            },
            coins(0, "uusd"),
        )]
    );
    assert_eq!(store.load(ALICE), Some(pool));
}

#[test]
fn top_up_runs_from_deposit_to_pool() {
    let pool =
        Pool { give_percentage: 50, ust_amount: 10_000, aust_amount: 9_950, total_donated: 7 };
    let mut store = store_with(ALICE, pool);
    let started = execute(
        &mut store,
        env(),
        info(ALICE, coins(10_000, "uusd")),
        ExecuteMsg::DepositPool { percentage: 100 },
    )
    .unwrap();
    assert_eq!(
        started.messages,
        vec![self_call(
            1,
            ExecuteMsg::InternalDepositMore {
                ust_sent: 10_000,
                aust_amount: 9_950,
                percentage: 100,
                depositor: String::from(ALICE),
            },
            vec![],
        )]
    );

    let (carried, outcome) =
        continue_saga(&mut store, started, vec![attr("redeem_amount", "10300")]);
    assert_eq!(
        carried.attributes,
        vec![attr("ust_sent", "10000"), attr("percentage", "100"), attr("ust_depositor", ALICE)]
    );
    assert_eq!(carried.messages, vec![plain(redeem(9_950))]);
    let split = outcome.unwrap();
    assert_eq!(
        split.messages,
        vec![self_call(
            2,
            ExecuteMsg::InternalSwapBackUpdate {
                to_angel: 150,
                charity_address: String::from(CHARITY),
                ust_amount: 20_150,
                new_percentage: 75,
                depositor: String::from(ALICE),
            },
            coins(10_000, "uusd"),
        )]
    );
    assert_eq!(store.load(ALICE), Some(pool));

    let venue = vec![attr("deposit_amount", "20150"), attr("mint_amount", "19800")];
    let (carried, outcome) = continue_saga(&mut store, split, venue);
    assert_eq!(
        carried.attributes,
        vec![attr("to_angel", "150"), attr("new_percentage", "75"), attr("ust_depositor", ALICE)]
    );
    assert_eq!(
        carried.messages,
        vec![plain(bank_send(CHARITY, 150)), plain(anchor_deposit(20_150))]
    );
    assert_eq!(outcome.unwrap(), Response::default());
    assert_eq!(
        store.load(ALICE),
        Some(Pool {
            give_percentage: 75,
            ust_amount: 20_150,
            aust_amount: 19_800,
            total_donated: 157,
        })
    );
}

#[test]
fn top_up_without_yield_pays_the_charity_nothing() {
    let pool = Pool { give_percentage: 50, ust_amount: 10_000, aust_amount: 9_950, total_donated: 0 };
    let mut store = store_with(ALICE, pool);
    let started = execute(
        &mut store,
        env(),
        info(ALICE, coins(5_000, "uusd")),
        ExecuteMsg::DepositPool { percentage: 5 },
    )
    .unwrap();
    let (_, outcome) = continue_saga(&mut store, started, vec![attr("redeem_amount", "9999")]);
    let split = outcome.unwrap();
    assert_eq!(
        split.messages,
        vec![self_call(
            2,
            ExecuteMsg::InternalSwapBackUpdate {
                to_angel: 0,
                charity_address: String::from(CHARITY),
                ust_amount: 14_999,
                new_percentage: 35,
                depositor: String::from(ALICE),
            },
            coins(5_000, "uusd"),
        )]
    );
    let venue = vec![attr("deposit_amount", "14999"), attr("mint_amount", "14000")];
    let (carried, outcome) = continue_saga(&mut store, split, venue);
    assert_eq!(carried.messages, vec![plain(anchor_deposit(14_999))]);
    outcome.unwrap();
    assert_eq!(
        store.load(ALICE),
        Some(Pool { give_percentage: 35, ust_amount: 14_999, aust_amount: 14_000, total_donated: 0 })
    );
}

#[test]
fn withdraw_of_more_than_there_is_pays_the_cap() {
    let pool = Pool { give_percentage: 50, ust_amount: 10_000, aust_amount: 9_950, total_donated: 0 };
    let mut store = store_with(ALICE, pool);
    let events = one_event(vec![
        attr("withdraw_amount", "1000000"),
        attr("percentage", "50"),
        attr("ust_depositor", ALICE),
        attr("ust_amount", "10000"),
        attr("aust_amount", "9950"),
        attr("redeem_amount", "10300"),
    ]);
    let response = reply(&mut store, env(), Reply { id: 3, result: success(events) }).unwrap();
    assert_eq!(
        response.messages,
        vec![self_call(
            4,
            ExecuteMsg::InternalWithdrawSend {
                withdraw_amount: 10_150,
                new_ust_amount: 0,
                to_angel_amount: 150,
                ust_depositor: String::from(ALICE),
                charity_address: String::from(CHARITY),
            },
            vec![],
        )]
    );
    assert_eq!(store.load(ALICE), Some(pool));
}

#[test]
fn withdraw_of_any_amount_above_the_cap_is_answered_alike() {
    let pool = Pool { give_percentage: 50, ust_amount: 10_000, aust_amount: 9_950, total_donated: 0 };
    let requests =
        ["10150", "10151", "1000000", "18446744073709551616", "340282366920938463463374607431768211455"];
    let mut answers = vec![];
    for request in requests {
        let mut store = store_with(ALICE, pool);
        let events = one_event(vec![
            attr("withdraw_amount", request),
            attr("ust_depositor", ALICE),
            attr("ust_amount", "10000"),
            attr("redeem_amount", "10300"),
        ]);
        answers.push(reply(&mut store, env(), Reply { id: 3, result: success(events) }).unwrap());
    }
    for answer in &answers {
        assert_eq!(answer, &answers[0]);
    }
}

#[test]
fn full_withdraw_runs_from_request_to_empty_pool() {
    let pool =
        Pool { give_percentage: 50, ust_amount: 10_000, aust_amount: 9_950, total_donated: 3 };
    let mut store = store_with(ALICE, pool);
    let started = execute(
        &mut store,
        env(),
        info(ALICE, vec![]),
        ExecuteMsg::WithdrawPool { withdraw_amount: 1_000_000 },
    )
    .unwrap();
    assert_eq!(
        started.messages,
        vec![self_call(
            3,
            ExecuteMsg::InternalWithdrawInitial {
                withdraw_amount: 1_000_000,
                aust_amount: 9_950,
                ust_amount: 10_000,
                percentage: 50,
                depositor: String::from(ALICE),
            },
            vec![],
        )]
    );
    let (carried, outcome) =
        continue_saga(&mut store, started, vec![attr("redeem_amount", "10300")]);
    assert_eq!(
        carried.attributes,
        vec![
            attr("withdraw_amount", "1000000"),
            attr("percentage", "50"),
            attr("ust_depositor", ALICE),
            attr("ust_amount", "10000"),
            attr("aust_amount", "9950"),
        ]
    );
    assert_eq!(carried.messages, vec![plain(redeem(9_950))]);
    let split = outcome.unwrap();

    let (carried, outcome) = continue_saga(&mut store, split, vec![]);
    assert_eq!(carried.attributes, vec![attr("to_angel", "150"), attr("ust_depositor", ALICE)]);
    assert_eq!(
        carried.messages,
        vec![plain(bank_send(ALICE, 10_150)), plain(bank_send(CHARITY, 150))]
    );
    assert_eq!(outcome.unwrap(), Response::default());
    assert_eq!(
        store.load(ALICE),
        Some(Pool { give_percentage: 0, ust_amount: 0, aust_amount: 0, total_donated: 153 })
    );
}

#[test]
fn partial_withdraw_deposits_the_rest_again() {
    let pool =
        Pool { give_percentage: 50, ust_amount: 10_000, aust_amount: 9_950, total_donated: 0 };
    let mut store = store_with(ALICE, pool);
    let started = execute(
        &mut store,
        env(),
        info(ALICE, vec![]),
        ExecuteMsg::WithdrawPool { withdraw_amount: 4_000 },
    )
    .unwrap();
    let (_, outcome) = continue_saga(&mut store, started, vec![attr("redeem_amount", "10300")]);
    let split = outcome.unwrap();
    assert_eq!(
        split.messages,
        vec![self_call(
            4,
            ExecuteMsg::InternalWithdrawSend {
                withdraw_amount: 4_000,
                new_ust_amount: 6_150,
                to_angel_amount: 150,
                ust_depositor: String::from(ALICE),
                charity_address: String::from(CHARITY),
            },
            vec![],
        )]
    );
    let venue = vec![attr("deposit_amount", "6150"), attr("mint_amount", "5900")];
    let (carried, outcome) = continue_saga(&mut store, split, venue);
    assert_eq!(
        carried.messages,
        vec![
            plain(bank_send(ALICE, 4_000)),
            plain(bank_send(CHARITY, 150)),
            plain(anchor_deposit(6_150)),
        ]
    );
    outcome.unwrap();
    assert_eq!(
        store.load(ALICE),
        Some(Pool { give_percentage: 50, ust_amount: 6_150, aust_amount: 5_900, total_donated: 150 })
    );
}

#[test]
fn withdraw_without_yield_pays_only_the_depositor() {
    let pool =
        Pool { give_percentage: 100, ust_amount: 10_000, aust_amount: 9_950, total_donated: 0 };
    let mut store = store_with(ALICE, pool);
    let started = execute(
        &mut store,
        env(),
        info(ALICE, vec![]),
        ExecuteMsg::WithdrawPool { withdraw_amount: 0 },
    )
    .unwrap();
    let (_, outcome) = continue_saga(&mut store, started, vec![attr("redeem_amount", "9000")]);
    let split = outcome.unwrap();
    let venue = vec![attr("deposit_amount", "9000"), attr("mint_amount", "8800")];
    let (carried, outcome) = continue_saga(&mut store, split, venue);
    assert_eq!(carried.attributes, vec![attr("to_angel", "0"), attr("ust_depositor", ALICE)]);
    assert_eq!(
        carried.messages,
        vec![plain(bank_send(ALICE, 0)), plain(anchor_deposit(9_000))]
    );
    outcome.unwrap();
    assert_eq!(
        store.load(ALICE),
        Some(Pool { give_percentage: 100, ust_amount: 9_000, aust_amount: 8_800, total_donated: 0 })
    );
}

#[test]
fn balance_of_exactly_theta_forces_the_percentage_to_zero() {
    let pool =
        Pool { give_percentage: 50, ust_amount: 10_000, aust_amount: 9_950, total_donated: 0 };
    let after_withdraw = vec![
        attr("to_angel", "150"),
        attr("ust_depositor", ALICE),
        attr("deposit_amount", "1020"),
        attr("mint_amount", "1000"),
    ];
    let mut store = store_with(ALICE, pool);
    reply(&mut store, env(), Reply { id: 4, result: success(one_event(after_withdraw)) }).unwrap();
    assert_eq!(
        store.load(ALICE),
        Some(Pool { give_percentage: 0, ust_amount: 1_020, aust_amount: 1_000, total_donated: 150 })
    );

    let after_top_up = vec![
        attr("to_angel", "150"),
        attr("new_percentage", "75"),
        attr("ust_depositor", ALICE),
        attr("deposit_amount", "1020"),
        attr("mint_amount", "1000"),
    ];
    let mut store = store_with(ALICE, pool);
    reply(&mut store, env(), Reply { id: 2, result: success(one_event(after_top_up)) }).unwrap();
    assert_eq!(
        store.load(ALICE),
        Some(Pool { give_percentage: 0, ust_amount: 1_020, aust_amount: 1_000, total_donated: 150 })
    );
}

#[test]
fn balance_around_theta_decides_the_percentage() {
    let pool =
        Pool { give_percentage: 50, ust_amount: 10_000, aust_amount: 9_950, total_donated: 0 };
    let cases: [(&str, u16, u16); 4] = [("0", 0, 0), ("999", 0, 0), ("1000", 0, 0), ("1001", 50, 75)];
    for (minted, kept, blended) in cases {
        let mut store = store_with(ALICE, pool);
        let events = one_event(vec![
            attr("to_angel", "0"),
            attr("ust_depositor", ALICE),
            attr("deposit_amount", "1020"),
            attr("mint_amount", minted),
        ]);
        reply(&mut store, env(), Reply { id: 4, result: success(events) }).unwrap();
        assert_eq!(store.load(ALICE).unwrap().give_percentage, kept);

        let mut store = store_with(ALICE, pool);
        let events = one_event(vec![
            attr("to_angel", "0"),
            attr("new_percentage", "75"),
            attr("ust_depositor", ALICE),
            attr("deposit_amount", "1020"),
            attr("mint_amount", minted),
        ]);
        reply(&mut store, env(), Reply { id: 2, result: success(events) }).unwrap();
        assert_eq!(store.load(ALICE).unwrap().give_percentage, blended);
    }
}

#[test]
fn deposit_into_dust_sweeps_it_to_the_charity_first() {
    let pool = Pool { give_percentage: 0, ust_amount: 1_020, aust_amount: 1_000, total_donated: 150 };
    let mut store = store_with(ALICE, pool);
    let started = execute(
        &mut store,
        env(),
        info(ALICE, coins(5_000, "uusd")),
        ExecuteMsg::DepositPool { percentage: 20 },
    )
    .unwrap();
    assert_eq!(
        started.messages,
        vec![
            plain(CosmosMsg::Wasm(WasmMsg::Execute {
                contract_addr: String::from(TOKEN),
                msg: Payload::Token(Cw20ExecuteMsg::Transfer {
                    recipient: String::from(CHARITY),
                    amount: 1_000,
                }),
                funds: vec![],
            })),
            self_call(
                0,
                ExecuteMsg::InternalDepositInitial {
                    ust_sent: 5_000,
                    percentage: 20,
                    depositor: String::from(ALICE),
                },
                vec![],
            ),
        ]
    );
    assert_eq!(
        store.load(ALICE),
        Some(Pool { give_percentage: 0, ust_amount: 0, aust_amount: 0, total_donated: 150 })
    );
}

#[test]
fn deposit_into_an_empty_pool_starts_anew_and_keeps_what_was_given() {
    let pool = Pool { give_percentage: 0, ust_amount: 0, aust_amount: 0, total_donated: 153 };
    let mut store = store_with(ALICE, pool);
    let started = execute(
        &mut store,
        env(),
        info(ALICE, coins(5_000, "uusd")),
        ExecuteMsg::DepositPool { percentage: 20 },
    )
    .unwrap();
    let venue = vec![attr("deposit_amount", "5000"), attr("mint_amount", "4900")];
    let (_, outcome) = continue_saga(&mut store, started, venue);
    outcome.unwrap();
    assert_eq!(
        store.load(ALICE),
        Some(Pool { give_percentage: 20, ust_amount: 5_000, aust_amount: 4_900, total_donated: 153 })
    );
}

#[test]
fn deposit_just_above_theta_is_a_top_up() {
    let pool = Pool { give_percentage: 10, ust_amount: 1_020, aust_amount: 1_001, total_donated: 0 };
    let mut store = store_with(ALICE, pool);
    let started = execute(
        &mut store,
        env(),
        info(ALICE, coins(5_000, "uusd")),
        ExecuteMsg::DepositPool { percentage: 20 },
    )
    .unwrap();
    assert_eq!(started.messages.len(), 1);
    assert_eq!(started.messages[0].id, 1);
    assert_eq!(store.load(ALICE), Some(pool));
}

#[test]
fn deposit_percentage_must_be_between_5_and_100() {
    for percentage in [0u16, 1, 4, 101, 500, u16::MAX] {
        let mut store = fresh_store();
        let res = execute(
            &mut store,
            env(),
            info(ALICE, coins(10_000, "uusd")),
            ExecuteMsg::DepositPool { percentage },
        );
        assert_eq!(res, Err(ContractError::WrongPercentageInput {}));
    }
    for percentage in [5u16, 6, 99, 100] {
        let mut store = fresh_store();
        let res = execute(
            &mut store,
            env(),
            info(ALICE, coins(10_000, "uusd")),
            ExecuteMsg::DepositPool { percentage },
        );
        assert!(res.is_ok());
    }
}

#[test]
fn deposit_must_come_with_one_uusd_coin() {
    let mut store = fresh_store();
    let deposit = ExecuteMsg::DepositPool { percentage: 50 };
    assert_eq!(
        execute(&mut store, env(), info(ALICE, vec![]), deposit.clone()),
        Err(ContractError::Payment(PaymentError::NoFunds {}))
    );
    assert_eq!(
        execute(&mut store, env(), info(ALICE, coins(0, "uusd")), deposit.clone()),
        Err(ContractError::Payment(PaymentError::NoFunds {}))
    );
    assert_eq!(
        execute(&mut store, env(), info(ALICE, coins(10_000, "uluna")), deposit.clone()),
        Err(ContractError::Payment(PaymentError::MissingDenom(String::from("uluna"))))
    );
    assert_eq!(
        execute(
            &mut store,
            env(),
            info(ALICE, vec![coin(10_000, "uusd"), coin(1, "uluna")]),
            deposit.clone()
        ),
        Err(ContractError::Payment(PaymentError::MultipleDenoms {}))
    );
    assert_eq!(
        execute(
            &mut store,
            env(),
            info(ALICE, vec![]),
            ExecuteMsg::DepositPool { percentage: 4 }
        ),
        Err(ContractError::WrongPercentageInput {})
    );
}

#[test]
fn deposit_must_be_at_least_the_minimum() {
    let mut store = fresh_store();
    let deposit = ExecuteMsg::DepositPool { percentage: 50 };
    assert_eq!(
        execute(&mut store, env(), info(ALICE, coins(999, "uusd")), deposit.clone()),
        Err(ContractError::MakeNewPoolError {})
    );
    assert_eq!(
        execute(&mut store, env(), info(ALICE, coins(1, "uusd")), deposit.clone()),
        Err(ContractError::MakeNewPoolError {})
    );
    assert!(execute(&mut store, env(), info(ALICE, coins(1_000, "uusd")), deposit).is_ok());
}

#[test]
fn deposit_before_instantiation_finds_no_config() {
    let mut store = Store::new();
    let res = execute(
        &mut store,
        env(),
        info(ALICE, coins(10_000, "uusd")),
        ExecuteMsg::DepositPool { percentage: 50 },
    );
    assert_eq!(
        res,
        Err(ContractError::Std(StdError::NotFound {
            kind: String::from("redirection::state::Config")
        }))
    );
}

#[test]
fn withdraw_without_a_pool_is_rejected() {
    let mut store = fresh_store();
    let res = execute(
        &mut store,
        env(),
        info(ALICE, vec![]),
        ExecuteMsg::WithdrawPool { withdraw_amount: 1 },
    );
    assert_eq!(res, Err(ContractError::NoDeposit {}));
    let mut store = store_with(BOB, Pool {
        give_percentage: 50,
        ust_amount: 1,
        aust_amount: 1,
        total_donated: 0,
    });
    let res = execute(
        &mut store,
        env(),
        info(ALICE, vec![]),
        ExecuteMsg::WithdrawPool { withdraw_amount: 1 },
    );
    assert_eq!(res, Err(ContractError::NoDeposit {}));
}

#[test]
fn only_the_admin_replaces_the_config() {
    let mut store = fresh_store();
    let mut replacement = config();
    replacement.theta = 5;
    replacement.admin = String::from(BOB);
    let res = execute(
        &mut store,
        env(),
        info(ALICE, vec![]),
        ExecuteMsg::UpdateConfig(replacement.clone()),
    );
    assert_eq!(res, Err(ContractError::Unauthorized {}));
    assert_eq!(store.load_config(), Some(config()));
    let res = execute(
        &mut store,
        env(),
        info(CONTRACT, vec![]),
        ExecuteMsg::UpdateConfig(replacement.clone()),
    );
    assert_eq!(res, Err(ContractError::Unauthorized {}));

    let res = execute(
        &mut store,
        env(),
        info(ADMIN, vec![]),
        ExecuteMsg::UpdateConfig(replacement.clone()),
    );
    assert_eq!(res, Ok(Response::default()));
    assert_eq!(store.load_config(), Some(replacement.clone()));

    let res =
        execute(&mut store, env(), info(ADMIN, vec![]), ExecuteMsg::UpdateConfig(config()));
    assert_eq!(res, Err(ContractError::Unauthorized {}));
    let res = execute(&mut store, env(), info(BOB, vec![]), ExecuteMsg::UpdateConfig(config()));
    assert_eq!(res, Ok(Response::default()));
    assert_eq!(store.load_config(), Some(config()));
}

#[test]
fn update_config_before_instantiation_finds_no_config() {
    let mut store = Store::new();
    let res =
        execute(&mut store, env(), info(ADMIN, vec![]), ExecuteMsg::UpdateConfig(config()));
    assert_eq!(
        res,
        Err(ContractError::Std(StdError::NotFound {
            kind: String::from("redirection::state::Config")
        }))
    );
}

#[test]
fn internal_messages_serve_the_contract_only() {
    let internal = vec![
        ExecuteMsg::InternalDepositInitial {
            ust_sent: 10_000,
            percentage: 50,
            depositor: String::from(ALICE),
        },
        ExecuteMsg::InternalDepositMore {
            ust_sent: 10_000,
            aust_amount: 9_950,
            percentage: 50,
            depositor: String::from(ALICE),
        },
        ExecuteMsg::InternalSwapBackUpdate {
            to_angel: 150,
            charity_address: String::from(ALICE),
            ust_amount: 10_150,
            new_percentage: 50,
            depositor: String::from(ALICE),
        },
        ExecuteMsg::InternalWithdrawInitial {
            withdraw_amount: 1,
            aust_amount: 9_950,
            ust_amount: 10_000,
            percentage: 50,
            depositor: String::from(ALICE),
        },
        ExecuteMsg::InternalWithdrawSend {
            withdraw_amount: 10_150,
            new_ust_amount: 0,
            to_angel_amount: 150,
            ust_depositor: String::from(ALICE),
            charity_address: String::from(ALICE),
        },
    ];
    for msg in internal {
        for sender in [ALICE, ADMIN, CHARITY, MARKET, TOKEN, "", "terra1contrac", "terra1contract "] {
            let mut store = fresh_store();
            let res = execute(&mut store, env(), info(sender, vec![]), msg.clone());
            assert_eq!(res, Err(ContractError::Unauthorized {}));
        }
        let mut store = fresh_store();
        assert!(execute(&mut store, env(), info(CONTRACT, vec![]), msg.clone()).is_ok());
        let mut store = Store::new();
        assert_eq!(
            execute(&mut store, env(), info(CONTRACT, vec![]), msg.clone()),
            Err(ContractError::Std(StdError::NotFound {
                kind: String::from("redirection::state::Config")
            }))
        );
        let mut store = Store::new();
        assert_eq!(
            execute(&mut store, env(), info(ALICE, vec![]), msg),
            Err(ContractError::Unauthorized {})
        );
    }
}

#[test]
fn reply_under_an_unknown_tag_is_rejected() {
    for id in [5u64, 6, 100, u64::MAX] {
        let mut store = fresh_store();
        let res = reply(&mut store, env(), Reply { id, result: success(vec![]) });
        assert_eq!(res, Err(ContractError::Unauthorized {}));
    }
}

#[test]
fn reply_to_a_failed_call_is_rejected() {
    let pool = Pool { give_percentage: 50, ust_amount: 10_000, aust_amount: 9_950, total_donated: 0 };
    for id in 0..5u64 {
        let mut store = store_with(ALICE, pool);
        let res = reply(
            &mut store,
            env(),
            Reply { id, result: ContractResult::Failure(String::from("out of gas")) },
        );
        assert_eq!(res, Err(ContractError::Unauthorized {}));
        assert_eq!(store.load(ALICE), Some(pool));
    }
}

fn full_report() -> Vec<Attribute> {
    vec![
        attr("ust_depositor", ALICE),
        attr("percentage", "50"),
        attr("new_percentage", "50"),
        attr("ust_sent", "1000"),
        attr("withdraw_amount", "1000"),
        attr("ust_amount", "10000"),
        attr("to_angel", "150"),
        attr("deposit_amount", "10000"),
        attr("mint_amount", "9950"),
        attr("redeem_amount", "10300"),
    ]
}

fn without(key: &str) -> Vec<Event> {
    one_event(full_report().into_iter().filter(|a| a.key != key).collect())
}

fn with_value(key: &str, value: &str) -> Vec<Event> {
    let mut report = full_report();
    report.push(attr(key, value));
    one_event(report)
}

#[test]
fn full_report_is_accepted_under_every_tag() {
    let pool = Pool { give_percentage: 50, ust_amount: 10_000, aust_amount: 9_950, total_donated: 0 };
    for id in 0..5u64 {
        let mut store = store_with(ALICE, pool);
        let res = reply(&mut store, env(), Reply { id, result: success(one_event(full_report())) });
        assert!(res.is_ok());
    }
}

#[test]
fn reply_without_a_value_it_needs_is_rejected() {
    let pool = Pool { give_percentage: 50, ust_amount: 10_000, aust_amount: 9_950, total_donated: 0 };
    let needed: [(u64, &[&str]); 5] = [
        (0, &["ust_depositor", "percentage", "deposit_amount", "mint_amount"]),
        (1, &["ust_depositor", "percentage", "ust_sent", "redeem_amount"]),
        (2, &["ust_depositor", "new_percentage", "deposit_amount", "mint_amount", "to_angel"]),
        (3, &["ust_depositor", "redeem_amount", "withdraw_amount", "ust_amount"]),
        (4, &["ust_depositor", "to_angel"]),
    ];
    for (id, keys) in needed {
        for key in keys {
            let mut store = store_with(ALICE, pool);
            let res = reply(&mut store, env(), Reply { id, result: success(without(key)) });
            assert_eq!(res, Err(ContractError::Unauthorized {}));
            assert_eq!(store.load(ALICE), Some(pool));
        }
    }
}

#[test]
fn reply_with_a_malformed_value_is_rejected() {
    let pool = Pool { give_percentage: 50, ust_amount: 10_000, aust_amount: 9_950, total_donated: 0 };
    let read: [(u64, &[&str]); 5] = [
        (0, &["percentage", "deposit_amount", "mint_amount"]),
        (1, &["percentage", "ust_sent", "redeem_amount"]),
        (2, &["new_percentage", "deposit_amount", "mint_amount", "to_angel"]),
        (3, &["redeem_amount", "withdraw_amount", "ust_amount"]),
        (4, &["to_angel", "deposit_amount", "mint_amount"]),
    ];
    for (id, keys) in read {
        for key in keys {
            for value in ["", "abc", "-1", "1.5", "340282366920938463463374607431768211456"] {
                let mut store = store_with(ALICE, pool);
                let res =
                    reply(&mut store, env(), Reply { id, result: success(with_value(key, value)) });
                assert_eq!(res, Err(ContractError::Unauthorized {}));
                assert_eq!(store.load(ALICE), Some(pool));
            }
        }
    }
}

#[test]
fn reply_with_a_percentage_above_100_is_rejected() {
    let pool = Pool { give_percentage: 50, ust_amount: 10_000, aust_amount: 9_950, total_donated: 0 };
    for (id, key) in [(0u64, "percentage"), (1, "percentage"), (2, "new_percentage")] {
        let mut store = store_with(ALICE, pool);
        let res = reply(&mut store, env(), Reply { id, result: success(with_value(key, "101")) });
        assert_eq!(res, Err(ContractError::Unauthorized {}));
        let mut store = store_with(ALICE, pool);
        let res = reply(&mut store, env(), Reply { id, result: success(with_value(key, "100")) });
        assert!(res.is_ok());
    }
}

#[test]
fn amounts_of_the_last_stage_of_a_withdrawal_may_be_missing() {
    let pool = Pool { give_percentage: 50, ust_amount: 10_000, aust_amount: 9_950, total_donated: 0 };
    let mut store = store_with(ALICE, pool);
    let events = one_event(vec![attr("to_angel", "150"), attr("ust_depositor", ALICE)]);
    let res = reply(&mut store, env(), Reply { id: 4, result: success(events) });
    assert_eq!(res, Ok(Response::default()));
    assert_eq!(
        store.load(ALICE),
        Some(Pool { give_percentage: 0, ust_amount: 0, aust_amount: 0, total_donated: 150 })
    );
}

#[test]
fn reply_for_a_depositor_without_a_pool_finds_none() {
    let not_found =
        ContractError::Std(StdError::NotFound { kind: String::from("redirection::state::Pool") });
    for id in 1..5u64 {
        let mut store = fresh_store();
        let res = reply(&mut store, env(), Reply { id, result: success(one_event(full_report())) });
        assert_eq!(res, Err(not_found.clone()));
        assert!(!store.has(ALICE));
    }
    let mut store = fresh_store();
    let res = reply(&mut store, env(), Reply { id: 0, result: success(one_event(full_report())) });
    assert!(res.is_ok());
    assert!(store.has(ALICE));
}

#[test]
fn reply_before_instantiation_finds_no_config() {
    let pool = Pool { give_percentage: 50, ust_amount: 10_000, aust_amount: 9_950, total_donated: 0 };
    let not_found =
        ContractError::Std(StdError::NotFound { kind: String::from("redirection::state::Config") });
    for id in 1..5u64 {
        let mut store = Store::new();
        store.save(ALICE, pool);
        let res = reply(&mut store, env(), Reply { id, result: success(one_event(full_report())) });
        assert_eq!(res, Err(not_found.clone()));
        assert_eq!(store.load(ALICE), Some(pool));
    }
}

#[test]
fn amounts_that_cannot_be_held_end_the_saga() {
    let pool = Pool {
        give_percentage: 50,
        ust_amount: 10_000,
        aust_amount: 9_950,
        total_donated: u64::MAX - 100,
    };
    let mut store = store_with(ALICE, pool);
    let events = with_value("to_angel", "101");
    let res = reply(&mut store, env(), Reply { id: 4, result: success(events.clone()) });
    assert_eq!(res, Err(ContractError::Unauthorized {}));
    let res = reply(&mut store, env(), Reply { id: 2, result: success(events) });
    assert_eq!(res, Err(ContractError::Unauthorized {}));
    assert_eq!(store.load(ALICE), Some(pool));
    let res = reply(&mut store, env(), Reply { id: 4, result: success(with_value("to_angel", "100")) });
    assert!(res.is_ok());
    assert_eq!(store.load(ALICE).unwrap().total_donated, u64::MAX);

    let mut store = store_with(ALICE, pool);
    let mut report = full_report();
    report.push(attr("redeem_amount", "18446744073709551615"));
    report.push(attr("ust_sent", "18446744073709551615"));
    let res = reply(&mut store, env(), Reply { id: 1, result: success(one_event(report)) });
    assert_eq!(res, Err(ContractError::Unauthorized {}));
}

#[test]
fn top_up_of_nothing_into_nothing_is_rejected() {
    let pool = Pool { give_percentage: 50, ust_amount: 0, aust_amount: 9_950, total_donated: 0 };
    let mut store = store_with(ALICE, pool);
    let res = reply(&mut store, env(), Reply { id: 1, result: success(with_value("ust_sent", "0")) });
    assert_eq!(res, Err(ContractError::Unauthorized {}));
    let res = reply(&mut store, env(), Reply { id: 1, result: success(with_value("ust_sent", "1")) });
    assert!(res.is_ok());
}

#[test]
fn a_reply_writes_no_pool_but_the_depositors() {
    let alice = Pool { give_percentage: 50, ust_amount: 10_000, aust_amount: 9_950, total_donated: 0 };
    let bob = Pool { give_percentage: 5, ust_amount: 77, aust_amount: 70, total_donated: 9 };
    for id in 0..5u64 {
        let mut store = store_with(ALICE, alice);
        store.save(BOB, bob);
        reply(&mut store, env(), Reply { id, result: success(one_event(full_report())) }).unwrap();
        assert_eq!(store.load(BOB), Some(bob));
        assert_eq!(store.load_config(), Some(config()));
        assert!(store.has(ALICE));
    }
}

#[test]
fn query_gives_the_pool() {
    let pool = Pool { give_percentage: 50, ust_amount: 10_000, aust_amount: 9_950, total_donated: 0 };
    let store = store_with(ALICE, pool);
    assert_eq!(get_deposit_info(&store, String::from(ALICE)), Ok(pool));
    assert_eq!(
        query(&store, env(), QueryMsg::DepositInfo { address: String::from(ALICE) }),
        Ok(pool)
    );
    assert_eq!(
        query(&store, env(), QueryMsg::DepositInfo { address: String::from(BOB) }),
        Err(StdError::NotFound { kind: String::from("redirection::state::Pool") })
    );
}

#[test]
fn store_keeps_one_pool_for_each_depositor() {
    let mut store = Store::new();
    assert!(!store.has(ALICE));
    assert_eq!(store.load(ALICE), None);
    let first = Pool { give_percentage: 50, ust_amount: 1, aust_amount: 2, total_donated: 3 };
    let second = Pool { give_percentage: 100, ust_amount: 4, aust_amount: 5, total_donated: 6 };
    store.save(ALICE, first);
    store.save(BOB, second);
    assert_eq!(store.load(ALICE), Some(first));
    assert_eq!(store.load(BOB), Some(second));
    store.save(ALICE, second);
    assert_eq!(store.load(ALICE), Some(second));
    assert_eq!(store.load(BOB), Some(second));
    assert!(store.has(ALICE) && store.has(BOB) && !store.has(""));
    assert!(first.is_valid());
    assert!(!Pool { give_percentage: 101, ..first }.is_valid());
    store.check_valid();
}
