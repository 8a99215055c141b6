//! The three calls that are open to everyone: replacing the settings,
//! depositing and withdrawing. A deposit or a withdrawal only decides which
//! saga starts; the amounts are settled when the lending venue has answered.

use vstd::prelude::*;
use vstd::string::*;
use crate::calc::{MAX_PERCENTAGE, MIN_DEPOSIT, MIN_DEPOSIT_PERCENTAGE};
use crate::error::{result_view, ContractError, ContractErrorView, StdError, StdErrorView};
use crate::helpers::{check_funds, check_funds_spec};
use crate::host::{no_coins, Env, EnvView, MessageInfo, MessageInfoView};
use crate::msg::{Cw20ExecuteMsg, Cw20ExecuteMsgView, ExecuteMsg, ExecuteMsgView};
use crate::response::{
    CosmosMsg,
    CosmosMsgView,
    Payload,
    PayloadView,
    Response,
    ResponseView,
    SubMsg,
    SubMsgView,
    WasmMsg,
    WasmMsgView,
};
use crate::state::{Config, ConfigView, Pool, Store, StoreView, CONFIG_KIND, POOL_KIND};
use crate::text::same_text;

verus! {

/// The tag of the reply that ends a new deposit.
pub const REPLY_NEW_DEPOSIT: u64 = 0;

/// The tag of the reply that brings the redeemed balance of a top-up.
pub const REPLY_TOP_UP: u64 = 1;

/// The tag of the reply that ends a top-up.
pub const REPLY_TOP_UP_SETTLED: u64 = 2;

/// The tag of the reply that brings the redeemed balance of a withdrawal.
pub const REPLY_WITHDRAW: u64 = 3;

/// The tag of the reply that ends a withdrawal.
pub const REPLY_WITHDRAW_SETTLED: u64 = 4;

/// The answer or the rejection.
pub type Answer = Result<ResponseView, ContractErrorView>;

/// A store as it is left, and the answer or the rejection.
pub type Outcome = (StoreView, Answer);

/// The rejection that leaves the store as it is.
pub open spec fn rejected(store: StoreView, error: ContractErrorView) -> Outcome {
    (store, Err(error))
}

/// The rejection for settings that were never written.
pub open spec fn no_config() -> ContractErrorView {
    ContractErrorView::Std(StdErrorView::NotFound { kind: CONFIG_KIND@ })
}

/// The rejection for a depositor without a pool.
pub open spec fn no_pool() -> ContractErrorView {
    ContractErrorView::Std(StdErrorView::NotFound { kind: POOL_KIND@ })
}

/// Replacing the settings: only the admin may, and all of them are replaced.
pub open spec fn update_config_spec(
    store: StoreView,
    info: MessageInfoView,
    msg: ConfigView,
) -> Outcome {
    match store.config {
        None => rejected(store, no_config()),
        Some(config) => if info.sender != config.admin {
            rejected(store, ContractErrorView::Unauthorized)
        } else {
            (store.with_config(msg), Ok(ResponseView::empty()))
        },
    }
}

/// Replaces the settings with `msg`, for the admin and for nobody else.
pub fn update_config(store: &mut Store, info: MessageInfo, msg: Config) -> (res: Result<
    Response,
    ContractError,
>)
    ensures
        (final(store)@, result_view(res)) == update_config_spec(
            old(store)@,
            info.deep_view(),
            msg.deep_view(),
        ),
{
    let config = match store.load_config() {
        Some(config) => config,
        None => {
            return Err(ContractError::Std(StdError::NotFound { kind: CONFIG_KIND.to_owned() }));
        },
    };
    if !same_text(info.sender.as_str(), config.admin.as_str()) {
        return Err(ContractError::Unauthorized {  });
    }
    store.save_config(msg);
    Ok(Response::default())
}

/// The start of a new deposit: the contract calls itself to pay `ust_sent`
/// into the lending venue, and hears of the outcome under tag 0.
pub open spec fn make_new_deposit_spec(
    env: EnvView,
    depositor: Seq<char>,
    percentage: u16,
    ust_sent: u128,
) -> ResponseView {
    ResponseView::empty().add_submessage(
        SubMsgView::to_self(
            REPLY_NEW_DEPOSIT,
            env.contract_address,
            ExecuteMsgView::InternalDepositInitial { ust_sent, percentage, depositor },
            Seq::empty(),
        ),
    )
}

/// Starts a new deposit.
pub fn make_new_deposit(env: Env, depositor: String, percentage: u16, ust_sent: u128) -> (res:
    Result<Response, ContractError>)
    ensures
        result_view(res) == Ok::<ResponseView, ContractErrorView>(
            make_new_deposit_spec(env.deep_view(), depositor@, percentage, ust_sent),
        ),
{
    Ok(
        Response::new().add_submessage(
            SubMsg::to_self(
                REPLY_NEW_DEPOSIT,
                env.contract_address,
                ExecuteMsg::InternalDepositInitial { ust_sent, percentage, depositor },
                no_coins(),
            ),
        ),
    )
}

/// The message that moves `amount` wrapper tokens to the charity.
pub open spec fn dust_transfer_spec(config: ConfigView, amount: u64) -> CosmosMsgView {
    CosmosMsgView::Wasm(
        WasmMsgView::Execute {
            contract_addr: config.aust_token_address,
            msg: PayloadView::Token(
                Cw20ExecuteMsgView::Transfer {
                    recipient: config.charity_address,
                    amount: amount as u128,
                },
            ),
            funds: Seq::empty(),
        },
    )
}

/// A pool with its balances swept.
pub open spec fn swept(pool: Pool) -> Pool {
    Pool { ust_amount: 0, aust_amount: 0, ..pool }
}

/// A deposit into a pool that holds only dust: the whole stale balance goes
/// to the charity, the pool's balances are zeroed, and a new deposit starts,
/// all in one answer.
pub open spec fn send_dust_to_angel_then_make_new_deposit_spec(
    store: StoreView,
    env: EnvView,
    depositor: Seq<char>,
    percentage: u16,
    ust_sent: u128,
    user_info: Pool,
) -> Outcome {
    match store.config {
        None => rejected(store, no_config()),
        Some(config) => (
            store.with_pool(depositor, swept(user_info)),
            Ok(
                ResponseView::empty().add_message(
                    dust_transfer_spec(config, user_info.aust_amount),
                ).add_submessage(
                    SubMsgView::to_self(
                        REPLY_NEW_DEPOSIT,
                        env.contract_address,
                        ExecuteMsgView::InternalDepositInitial { ust_sent, percentage, depositor },
                        Seq::empty(),
                    ),
                ),
            ),
        ),
    }
}

/// Sweeps the dust of `user_info` to the charity and starts a new deposit.
pub fn send_dust_to_angel_then_make_new_deposit(
    store: &mut Store,
    env: Env,
    depositor: String,
    percentage: u16,
    ust_sent: u128,
    user_info: Pool,
) -> (res: Result<Response, ContractError>)
    requires
        user_info.valid(),
    ensures
        (final(store)@, result_view(res)) == send_dust_to_angel_then_make_new_deposit_spec(
            old(store)@,
            env.deep_view(),
            depositor@,
            percentage,
            ust_sent,
            user_info,
        ),
{
    let config = match store.load_config() {
        Some(config) => config,
        None => {
            return Err(ContractError::Std(StdError::NotFound { kind: CONFIG_KIND.to_owned() }));
        },
    };
    let escrow_execute = SubMsg::to_self(
        REPLY_NEW_DEPOSIT,
        env.contract_address,
        ExecuteMsg::InternalDepositInitial { ust_sent, percentage, depositor: depositor.clone() },
        no_coins(),
    );
    let new_user_info = Pool {
        give_percentage: user_info.give_percentage,
        ust_amount: 0,
        aust_amount: 0,
        total_donated: user_info.total_donated,
    };
    store.save(depositor.as_str(), new_user_info);
    let transfer = CosmosMsg::Wasm(
        WasmMsg::Execute {
            contract_addr: config.aust_token_address,
            msg: Payload::Token(
                Cw20ExecuteMsg::Transfer {
                    recipient: config.charity_address,
                    amount: user_info.aust_amount as u128,
                },
            ),
            funds: no_coins(),
        },
    );
    Ok(Response::new().add_message(transfer).add_submessage(escrow_execute))
}

/// The start of a top-up: the contract calls itself to redeem the pool's
/// whole wrapper balance, and hears of the outcome under tag 1.
pub open spec fn update_deposit_spec(
    env: EnvView,
    ust_sent: u128,
    depositor: Seq<char>,
    percentage: u16,
    aust_amount: u64,
) -> ResponseView {
    ResponseView::empty().add_submessage(
        SubMsgView::to_self(
            REPLY_TOP_UP,
            env.contract_address,
            ExecuteMsgView::InternalDepositMore { ust_sent, aust_amount, percentage, depositor },
            Seq::empty(),
        ),
    )
}

/// Starts a top-up.
pub fn update_deposit(
    env: Env,
    ust_sent: u128,
    depositor: String,
    percentage: u16,
    aust_amount: u64,
) -> (res: Result<Response, ContractError>)
    ensures
        result_view(res) == Ok::<ResponseView, ContractErrorView>(
            update_deposit_spec(env.deep_view(), ust_sent, depositor@, percentage, aust_amount),
        ),
{
    Ok(
        Response::new().add_submessage(
            SubMsg::to_self(
                REPLY_TOP_UP,
                env.contract_address,
                ExecuteMsg::InternalDepositMore { ust_sent, aust_amount, percentage, depositor },
                no_coins(),
            ),
        ),
    )
}

/// Which saga a deposit starts, in a store that holds `config`.
pub open spec fn deposit_saga_spec(
    store: StoreView,
    config: ConfigView,
    env: EnvView,
    depositor: Seq<char>,
    percentage: u16,
    ust_sent: u128,
) -> Outcome {
    if !store.pools.dom().contains(depositor) || store.pools[depositor].aust_amount == 0 {
        (store, Ok(make_new_deposit_spec(env, depositor, percentage, ust_sent)))
    } else if store.pools[depositor].aust_amount <= config.theta {
        send_dust_to_angel_then_make_new_deposit_spec(
            store,
            env,
            depositor,
            percentage,
            ust_sent,
            store.pools[depositor],
        )
    } else {
        (
            store,
            Ok(
                update_deposit_spec(
                    env,
                    ust_sent,
                    depositor,
                    percentage,
                    store.pools[depositor].aust_amount,
                ),
            ),
        )
    }
}

/// A deposit. It is rejected for a percentage outside 5 to 100, for coins
/// other than one coin of the accepted denomination, and for an amount below
/// the smallest deposit, in this order. Else the depositor's pool decides:
/// none, or one without wrapper tokens, starts a new deposit; one with dust
/// has the dust swept first; any other is topped up.
pub open spec fn deposit_pool_spec(
    store: StoreView,
    env: EnvView,
    info: MessageInfoView,
    percentage: u16,
) -> Outcome {
    if percentage < MIN_DEPOSIT_PERCENTAGE || percentage > MAX_PERCENTAGE {
        rejected(store, ContractErrorView::WrongPercentageInput)
    } else {
        match check_funds_spec(info.funds) {
            Err(e) => rejected(store, ContractErrorView::Payment(e)),
            Ok(ust_sent) => if ust_sent < MIN_DEPOSIT {
                rejected(store, ContractErrorView::MakeNewPoolError)
            } else {
                match store.config {
                    None => rejected(store, no_config()),
                    Some(config) => deposit_saga_spec(
                        store,
                        config,
                        env,
                        info.sender,
                        percentage,
                        ust_sent,
                    ),
                }
            },
        }
    }
}

/// Takes a deposit of the coins in `info`, of which `percentage` percent of
/// the yield are to go to the charity.
pub fn deposit_pool(store: &mut Store, env: Env, info: MessageInfo, percentage: u16) -> (res:
    Result<Response, ContractError>)
    ensures
        (final(store)@, result_view(res)) == deposit_pool_spec(
            old(store)@,
            env.deep_view(),
            info.deep_view(),
            percentage,
        ),
{
    if percentage < MIN_DEPOSIT_PERCENTAGE || percentage > MAX_PERCENTAGE {
        return Err(ContractError::WrongPercentageInput {  });
    }
    let ust_sent: u128 = match check_funds(&info) {
        Ok(amount) => amount,
        Err(e) => {
            return Err(ContractError::Payment(e));
        },
    };
    if ust_sent < MIN_DEPOSIT {
        return Err(ContractError::MakeNewPoolError {  });
    }
    let config = match store.load_config() {
        Some(config) => config,
        None => {
            return Err(ContractError::Std(StdError::NotFound { kind: CONFIG_KIND.to_owned() }));
        },
    };
    match store.load(info.sender.as_str()) {
        None => make_new_deposit(env, info.sender, percentage, ust_sent),
        Some(user_info) => {
            let aust_amount: u64 = user_info.aust_amount;
            if aust_amount == 0 {
                make_new_deposit(env, info.sender, percentage, ust_sent)
            } else if aust_amount <= config.theta {
                send_dust_to_angel_then_make_new_deposit(
                    store,
                    env,
                    info.sender,
                    percentage,
                    ust_sent,
                    user_info,
                )
            } else {
                update_deposit(env, ust_sent, info.sender, percentage, aust_amount)
            }
        },
    }
}

/// The start of a withdrawal: the contract calls itself to redeem the pool's
/// whole wrapper balance, and hears of the outcome under tag 3.
pub open spec fn withdraw_deposit_spec(
    store: StoreView,
    env: EnvView,
    withdraw_amount: u128,
    depositor: Seq<char>,
) -> Answer {
    if !store.pools.dom().contains(depositor) {
        Err(no_pool())
    } else {
        Ok(
            ResponseView::empty().add_submessage(
                SubMsgView::to_self(
                    REPLY_WITHDRAW,
                    env.contract_address,
                    ExecuteMsgView::InternalWithdrawInitial {
                        withdraw_amount,
                        aust_amount: store.pools[depositor].aust_amount,
                        ust_amount: store.pools[depositor].ust_amount,
                        percentage: store.pools[depositor].give_percentage,
                        depositor,
                    },
                    Seq::empty(),
                ),
            ),
        )
    }
}

/// Starts a withdrawal from the pool of `depositor`, with the pool's last known balances.
pub fn withdraw_deposit(store: &Store, env: Env, withdraw_amount: u128, depositor: String) -> (res:
    Result<Response, ContractError>)
    ensures
        result_view(res) == withdraw_deposit_spec(
            store@,
            env.deep_view(),
            withdraw_amount,
            depositor@,
        ),
{
    let user_info = match store.load(depositor.as_str()) {
        Some(pool) => pool,
        None => {
            return Err(ContractError::Std(StdError::NotFound { kind: POOL_KIND.to_owned() }));
        },
    };
    Ok(
        Response::new().add_submessage(
            SubMsg::to_self(
                REPLY_WITHDRAW,
                env.contract_address,
                ExecuteMsg::InternalWithdrawInitial {
                    withdraw_amount,
                    aust_amount: user_info.aust_amount,
                    ust_amount: user_info.ust_amount,
                    percentage: user_info.give_percentage,
                    depositor,
                },
                no_coins(),
            ),
        ),
    )
}

/// A withdrawal. It is rejected where the caller has no pool; else the
/// withdraw saga starts, whatever amount is asked for.
pub open spec fn withdraw_pool_spec(
    store: StoreView,
    env: EnvView,
    info: MessageInfoView,
    amount: u128,
) -> Answer {
    if !store.pools.dom().contains(info.sender) {
        Err(ContractErrorView::NoDeposit)
    } else {
        withdraw_deposit_spec(store, env, amount, info.sender)
    }
}

/// Takes a request to withdraw `amount` from the caller's pool.
pub fn withdraw_pool(store: &Store, env: Env, info: MessageInfo, amount: u128) -> (res: Result<
    Response,
    ContractError,
>)
    ensures
        result_view(res) == withdraw_pool_spec(store@, env.deep_view(), info.deep_view(), amount),
{
    if !store.has(info.sender.as_str()) {
        return Err(ContractError::NoDeposit {  });
    }
    withdraw_deposit(store, env, amount, info.sender)
}

} // verus!
