//! The execution proxy: the only handlers that talk to the lending venue and
//! to the wrapper token, and that move coins. Each one serves the
//! orchestrator and nobody else, builds the messages of its stage, and
//! reports the values it was given as attributes, for the next reply to read.
//!
//! The proxy lives in the orchestrator's own contract, so the one identity
//! that it serves is the contract's own: the address that the chain gave the
//! contract when it was set up, which every call brings along.

use vstd::prelude::*;
use vstd::string::*;
use crate::decimal::{decimal_text, u128_to_string, u16_to_string, u64_to_string};
use crate::error::{result_view, ContractError, ContractErrorView, StdError};
use crate::execute::{no_config, Answer};
use crate::helpers::{get_convert_to_ust, get_convert_to_ust_spec};
use crate::host::{coins, CoinView, Env, EnvView, MessageInfo, MessageInfoView, UUSD};
use crate::keys::{
    AUST_AMOUNT,
    NEW_PERCENTAGE,
    PERCENTAGE,
    TO_ANGEL,
    UST_AMOUNT,
    UST_DEPOSITOR,
    UST_SENT,
    WITHDRAW_AMOUNT,
};
use crate::msg::AnchorExecuteMsg;
use crate::response::{
    BankMsg,
    BankMsgView,
    CosmosMsg,
    CosmosMsgView,
    Payload,
    PayloadView,
    Response,
    ResponseView,
    WasmMsg,
    WasmMsgView,
};
use crate::state::{Config, ConfigView, Store, StoreView, CONFIG_KIND};
use crate::text::same_text;

verus! {

/// Whether a call comes from the contract itself.
pub open spec fn from_self(env: EnvView, info: MessageInfoView) -> bool {
    info.sender == env.contract_address
}

/// The message that pays `amount` stable coins into the lending venue.
pub open spec fn anchor_deposit_spec(config: ConfigView, amount: u128) -> CosmosMsgView {
    CosmosMsgView::Wasm(
        WasmMsgView::Execute {
            contract_addr: config.anchor_market_address,
            msg: PayloadView::Anchor(AnchorExecuteMsg::DepositStable {  }),
            funds: seq![CoinView { denom: UUSD@, amount }],
        },
    )
}

/// The message that pays `amount` stable coins to `to`.
pub open spec fn bank_send_spec(to: Seq<char>, amount: u128) -> CosmosMsgView {
    CosmosMsgView::Bank(
        BankMsgView::Send { to_address: to, amount: seq![CoinView { denom: UUSD@, amount }] },
    )
}

/// Builds the message that pays `amount` stable coins into the lending venue.
fn anchor_deposit(config: &Config, amount: u128) -> (msg: CosmosMsg)
    ensures
        msg.deep_view() == anchor_deposit_spec(config.deep_view(), amount),
{
    CosmosMsg::Wasm(
        WasmMsg::Execute {
            contract_addr: config.anchor_market_address.clone(),
            msg: Payload::Anchor(AnchorExecuteMsg::DepositStable {  }),
            funds: coins(amount, UUSD),
        },
    )
}

/// Builds the message that pays `amount` stable coins to `to`.
fn bank_send(to: String, amount: u128) -> (msg: CosmosMsg)
    ensures
        msg.deep_view() == bank_send_spec(to@, amount),
{
    CosmosMsg::Bank(BankMsg::Send { to_address: to, amount: coins(amount, UUSD) })
}

/// The settings, for a call of the contract to itself; else the rejection.
fn authorize(store: &Store, env: &Env, info: &MessageInfo) -> (res: Result<Config, ContractError>)
    ensures
        result_view(res) == if !from_self(env.deep_view(), info.deep_view()) {
            Err(ContractErrorView::Unauthorized)
        } else {
            match store@.config {
                None => Err(no_config()),
                Some(config) => Ok(config),
            }
        },
{
    if !same_text(info.sender.as_str(), env.contract_address.as_str()) {
        return Err(ContractError::Unauthorized {  });
    }
    match store.load_config() {
        Some(config) => Ok(config),
        None => Err(ContractError::Std(StdError::NotFound { kind: CONFIG_KIND.to_owned() })),
    }
}

/// What a proxy handler answers before its stage's own work: a rejection for
/// a caller other than the contract itself, then one for missing settings.
pub open spec fn guarded(
    store: StoreView,
    env: EnvView,
    info: MessageInfoView,
    answer: spec_fn(ConfigView) -> ResponseView,
) -> Answer {
    if !from_self(env, info) {
        Err(ContractErrorView::Unauthorized)
    } else {
        match store.config {
            None => Err(no_config()),
            Some(config) => Ok(answer(config)),
        }
    }
}

/// The first deposit of a saga: all of `ust_sent` goes into the lending venue.
pub open spec fn deposit_initial_spec(
    store: StoreView,
    env: EnvView,
    info: MessageInfoView,
    ust_sent: u128,
    percentage: u16,
    depositor: Seq<char>,
) -> Answer {
    guarded(
        store,
        env,
        info,
        |config: ConfigView|
            ResponseView::empty().add_attribute(
                PERCENTAGE@,
                decimal_text(percentage as nat),
            ).add_attribute(UST_DEPOSITOR@, depositor).add_message(
                anchor_deposit_spec(config, ust_sent),
            ),
    )
}

/// Pays a new deposit into the lending venue.
pub fn deposit_initial(
    store: &Store,
    env: Env,
    info: MessageInfo,
    ust_sent: u128,
    percentage: u16,
    depositor: String,
) -> (res: Result<Response, ContractError>)
    ensures
        result_view(res) == deposit_initial_spec(
            store@,
            env.deep_view(),
            info.deep_view(),
            ust_sent,
            percentage,
            depositor@,
        ),
{
    let config = match authorize(store, &env, &info) {
        Ok(config) => config,
        Err(e) => {
            return Err(e);
        },
    };
    Ok(
        Response::new().add_attribute(PERCENTAGE, u16_to_string(percentage)).add_attribute(
            UST_DEPOSITOR,
            depositor,
        ).add_message(anchor_deposit(&config, ust_sent)),
    )
}

/// The first step of a top-up: the pool's wrapper tokens are redeemed.
pub open spec fn deposit_more_spec(
    store: StoreView,
    env: EnvView,
    info: MessageInfoView,
    ust_sent: u128,
    aust_amount: u64,
    percentage: u16,
    depositor: Seq<char>,
) -> Answer {
    guarded(
        store,
        env,
        info,
        |config: ConfigView|
            ResponseView::empty().add_attribute(
                UST_SENT@,
                decimal_text(ust_sent as nat),
            ).add_attribute(PERCENTAGE@, decimal_text(percentage as nat)).add_attribute(
                UST_DEPOSITOR@,
                depositor,
            ).add_message(
                CosmosMsgView::Wasm(
                    get_convert_to_ust_spec(
                        config.anchor_market_address,
                        config.aust_token_address,
                        aust_amount,
                    ),
                ),
            ),
    )
}

/// Redeems a pool's wrapper tokens for a top-up.
pub fn deposit_more(
    store: &Store,
    env: Env,
    info: MessageInfo,
    ust_sent: u128,
    aust_amount: u64,
    percentage: u16,
    depositor: String,
) -> (res: Result<Response, ContractError>)
    ensures
        result_view(res) == deposit_more_spec(
            store@,
            env.deep_view(),
            info.deep_view(),
            ust_sent,
            aust_amount,
            percentage,
            depositor@,
        ),
{
    let config = match authorize(store, &env, &info) {
        Ok(config) => config,
        Err(e) => {
            return Err(e);
        },
    };
    let convert_to_ust = get_convert_to_ust(
        config.anchor_market_address,
        config.aust_token_address,
        aust_amount,
    );
    Ok(
        Response::new().add_attribute(UST_SENT, u128_to_string(ust_sent)).add_attribute(
            PERCENTAGE,
            u16_to_string(percentage),
        ).add_attribute(UST_DEPOSITOR, depositor).add_message(CosmosMsg::Wasm(convert_to_ust)),
    )
}

/// The answer with the payment to the charity, if there is anything to pay.
pub open spec fn with_charity(
    answer: ResponseView,
    charity_address: Seq<char>,
    to_angel: u64,
) -> ResponseView {
    if to_angel != 0 {
        answer.add_message(bank_send_spec(charity_address, to_angel as u128))
    } else {
        answer
    }
}

/// The last step of a top-up: the charity gets its cut, if there is one, and
/// `ust_amount` goes back into the lending venue, in this order.
pub open spec fn swap_back_aust_spec(
    store: StoreView,
    env: EnvView,
    info: MessageInfoView,
    to_angel: u64,
    charity_address: Seq<char>,
    ust_amount: u64,
    new_percentage: u16,
    depositor: Seq<char>,
) -> Answer {
    guarded(
        store,
        env,
        info,
        |config: ConfigView|
            with_charity(
                ResponseView::empty().add_attribute(
                    TO_ANGEL@,
                    decimal_text(to_angel as nat),
                ).add_attribute(NEW_PERCENTAGE@, decimal_text(new_percentage as nat)).add_attribute(
                    UST_DEPOSITOR@,
                    depositor,
                ),
                charity_address,
                to_angel,
            ).add_message(anchor_deposit_spec(config, ust_amount as u128)),
    )
}

/// Pays the charity its cut of a top-up and deposits the rest again.
pub fn swap_back_aust(
    store: &Store,
    env: Env,
    info: MessageInfo,
    to_angel: u64,
    charity_address: String,
    ust_amount: u64,
    new_percentage: u16,
    depositor: String,
) -> (res: Result<Response, ContractError>)
    ensures
        result_view(res) == swap_back_aust_spec(
            store@,
            env.deep_view(),
            info.deep_view(),
            to_angel,
            charity_address@,
            ust_amount,
            new_percentage,
            depositor@,
        ),
{
    let config = match authorize(store, &env, &info) {
        Ok(config) => config,
        Err(e) => {
            return Err(e);
        },
    };
    let mut res = Response::new().add_attribute(TO_ANGEL, u64_to_string(to_angel)).add_attribute(
        NEW_PERCENTAGE,
        u16_to_string(new_percentage),
    ).add_attribute(UST_DEPOSITOR, depositor);
    if to_angel != 0 {
        res = res.add_message(bank_send(charity_address, to_angel as u128));
    }
    res = res.add_message(anchor_deposit(&config, ust_amount as u128));
    Ok(res)
}

/// The first step of a withdrawal: the pool's wrapper tokens are redeemed.
pub open spec fn swap_aust_ust_spec(
    store: StoreView,
    env: EnvView,
    info: MessageInfoView,
    withdraw_amount: u128,
    aust_amount: u64,
    ust_amount: u64,
    percentage: u16,
    depositor: Seq<char>,
) -> Answer {
    guarded(
        store,
        env,
        info,
        |config: ConfigView|
            ResponseView::empty().add_attribute(
                WITHDRAW_AMOUNT@,
                decimal_text(withdraw_amount as nat),
            ).add_attribute(PERCENTAGE@, decimal_text(percentage as nat)).add_attribute(
                UST_DEPOSITOR@,
                depositor,
            ).add_attribute(UST_AMOUNT@, decimal_text(ust_amount as nat)).add_attribute(
                AUST_AMOUNT@,
                decimal_text(aust_amount as nat),
            ).add_message(
                CosmosMsgView::Wasm(
                    get_convert_to_ust_spec(
                        config.anchor_market_address,
                        config.aust_token_address,
                        aust_amount,
                    ),
                ),
            ),
    )
}

/// Redeems a pool's wrapper tokens for a withdrawal.
pub fn swap_aust_ust(
    store: &Store,
    env: Env,
    info: MessageInfo,
    withdraw_amount: u128,
    aust_amount: u64,
    ust_amount: u64,
    percentage: u16,
    depositor: String,
) -> (res: Result<Response, ContractError>)
    ensures
        result_view(res) == swap_aust_ust_spec(
            store@,
            env.deep_view(),
            info.deep_view(),
            withdraw_amount,
            aust_amount,
            ust_amount,
            percentage,
            depositor@,
        ),
{
    let config = match authorize(store, &env, &info) {
        Ok(config) => config,
        Err(e) => {
            return Err(e);
        },
    };
    let convert_to_ust = get_convert_to_ust(
        config.anchor_market_address,
        config.aust_token_address,
        aust_amount,
    );
    Ok(
        Response::new().add_attribute(WITHDRAW_AMOUNT, u128_to_string(withdraw_amount)).add_attribute(
            PERCENTAGE,
            u16_to_string(percentage),
        ).add_attribute(UST_DEPOSITOR, depositor).add_attribute(
            UST_AMOUNT,
            u64_to_string(ust_amount),
        ).add_attribute(AUST_AMOUNT, u64_to_string(aust_amount)).add_message(
            CosmosMsg::Wasm(convert_to_ust),
        ),
    )
}

/// The answer with the deposit into the lending venue, if there is anything to deposit.
pub open spec fn with_reinvest(answer: ResponseView, config: ConfigView, amount: u64) -> ResponseView {
    if amount != 0 {
        answer.add_message(anchor_deposit_spec(config, amount as u128))
    } else {
        answer
    }
}

/// The last step of a withdrawal: the depositor is paid, then the charity if
/// it has a cut, then what is left goes back into the lending venue if
/// anything is left.
pub open spec fn withdraw_send_spec(
    store: StoreView,
    env: EnvView,
    info: MessageInfoView,
    withdraw_amount: u64,
    new_ust_amount: u64,
    to_angel_amount: u64,
    ust_depositor: Seq<char>,
    charity_address: Seq<char>,
) -> Answer {
    guarded(
        store,
        env,
        info,
        |config: ConfigView|
            with_reinvest(
                with_charity(
                    ResponseView::empty().add_attribute(
                        TO_ANGEL@,
                        decimal_text(to_angel_amount as nat),
                    ).add_attribute(UST_DEPOSITOR@, ust_depositor).add_message(
                        bank_send_spec(ust_depositor, withdraw_amount as u128),
                    ),
                    charity_address,
                    to_angel_amount,
                ),
                config,
                new_ust_amount,
            ),
    )
}

/// Pays out a withdrawal: to the depositor, to the charity, and back into the lending venue.
pub fn withdraw_send(
    store: &Store,
    env: Env,
    info: MessageInfo,
    withdraw_amount: u64,
    new_ust_amount: u64,
    to_angel_amount: u64,
    ust_depositor: String,
    charity_address: String,
) -> (res: Result<Response, ContractError>)
    ensures
        result_view(res) == withdraw_send_spec(
            store@,
            env.deep_view(),
            info.deep_view(),
            withdraw_amount,
            new_ust_amount,
            to_angel_amount,
            ust_depositor@,
            charity_address@,
        ),
{
    let config = match authorize(store, &env, &info) {
        Ok(config) => config,
        Err(e) => {
            return Err(e);
        },
    };
    let withdraw_to_user = bank_send(ust_depositor.clone(), withdraw_amount as u128);
    let mut res = Response::new().add_attribute(
        TO_ANGEL,
        u64_to_string(to_angel_amount),
    ).add_attribute(UST_DEPOSITOR, ust_depositor).add_message(withdraw_to_user);
    if to_angel_amount != 0 {
        res = res.add_message(bank_send(charity_address, to_angel_amount as u128));
    }
    if new_ust_amount != 0 {
        res = res.add_message(anchor_deposit(&config, new_ust_amount as u128));
    }
    Ok(res)
}

} // verus!
