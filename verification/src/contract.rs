//! The entry points: setting the contract up, serving a call, and taking the
//! reply to a deferred call.

use vstd::prelude::*;
use vstd::string::*;
use crate::error::{result_view, ContractError, ContractErrorView};
use crate::events::{reported, EventView, Reply};
use crate::execute::{
    deposit_pool,
    deposit_pool_spec,
    rejected,
    update_config,
    update_config_spec,
    withdraw_pool,
    withdraw_pool_spec,
    Answer,
    Outcome,
    REPLY_NEW_DEPOSIT,
    REPLY_TOP_UP,
    REPLY_TOP_UP_SETTLED,
    REPLY_WITHDRAW,
    REPLY_WITHDRAW_SETTLED,
};
use crate::host::{Env, EnvView, MessageInfo, MessageInfoView};
use crate::internal_calls::{
    deposit_initial,
    deposit_initial_spec,
    deposit_more,
    deposit_more_spec,
    swap_aust_ust,
    swap_aust_ust_spec,
    swap_back_aust,
    swap_back_aust_spec,
    withdraw_send,
    withdraw_send_spec,
};
use crate::keys::{INSTANTIATE, METHOD};
use crate::msg::{ExecuteMsg, ExecuteMsgView, InstantiateMsg, InstantiateMsgView};
use crate::replies::{
    deposit_then_update_user,
    deposit_then_update_user_spec,
    get_new_user_state_dep,
    get_new_user_state_dep_spec,
    get_new_user_state_wit,
    get_new_user_state_wit_spec,
    make_new_user_struct,
    make_new_user_struct_spec,
    withdraw_then_update_user,
    withdraw_then_update_user_spec,
};
use crate::response::{Response, ResponseView};
use crate::state::{Config, ConfigView, Store, StoreView};

verus! {

/// The settings that the contract starts with.
pub open spec fn initial_config(msg: InstantiateMsgView) -> ConfigView {
    ConfigView {
        admin: msg.admin,
        charity_address: msg.charity_address,
        anchor_market_address: msg.anchor_market_address,
        aust_token_address: msg.aust_token_address,
        theta: msg.theta,
    }
}

/// Setting the contract up: the settings are written, and nothing is sent.
pub open spec fn instantiate_spec(store: StoreView, msg: InstantiateMsgView) -> Outcome {
    (
        store.with_config(initial_config(msg)),
        Ok(ResponseView::empty().add_attribute(METHOD@, INSTANTIATE@)),
    )
}

/// Sets the contract up with the settings in `msg`.
pub fn instantiate(store: &mut Store, _env: Env, _info: MessageInfo, msg: InstantiateMsg) -> (res:
    Result<Response, ContractError>)
    ensures
        (final(store)@, result_view(res)) == instantiate_spec(old(store)@, msg.deep_view()),
{
    store.save_config(
        Config {
            admin: msg.admin,
            charity_address: msg.charity_address,
            anchor_market_address: msg.anchor_market_address,
            aust_token_address: msg.aust_token_address,
            theta: msg.theta,
        },
    );
    Ok(Response::new().add_attribute(METHOD, INSTANTIATE.to_owned()))
}

/// An answer that leaves the store as it is.
pub open spec fn unchanged(store: StoreView, answer: Answer) -> Outcome {
    (store, answer)
}

/// Taking a reply: the tag picks the stage that goes on, and a tag that no
/// stage has is rejected.
pub open spec fn reply_spec(
    store: StoreView,
    env: EnvView,
    id: u64,
    result: Option<Seq<EventView>>,
) -> Outcome {
    if id == REPLY_NEW_DEPOSIT {
        make_new_user_struct_spec(store, result)
    } else if id == REPLY_TOP_UP {
        unchanged(store, get_new_user_state_dep_spec(store, env, result))
    } else if id == REPLY_TOP_UP_SETTLED {
        deposit_then_update_user_spec(store, result)
    } else if id == REPLY_WITHDRAW {
        unchanged(store, get_new_user_state_wit_spec(store, env, result))
    } else if id == REPLY_WITHDRAW_SETTLED {
        withdraw_then_update_user_spec(store, result)
    } else {
        rejected(store, ContractErrorView::Unauthorized)
    }
}

/// Takes the reply to a deferred call and goes on with the saga that the call belongs to.
pub fn reply(store: &mut Store, env: Env, msg: Reply) -> (res: Result<Response, ContractError>)
    ensures
        (final(store)@, result_view(res)) == reply_spec(
            old(store)@,
            env.deep_view(),
            msg.id,
            reported(msg.result),
        ),
{
    if msg.id == REPLY_NEW_DEPOSIT {
        make_new_user_struct(store, env, msg.result)
    } else if msg.id == REPLY_TOP_UP {
        get_new_user_state_dep(store, env, msg.result)
    } else if msg.id == REPLY_TOP_UP_SETTLED {
        deposit_then_update_user(store, env, msg.result)
    } else if msg.id == REPLY_WITHDRAW {
        get_new_user_state_wit(store, env, msg.result)
    } else if msg.id == REPLY_WITHDRAW_SETTLED {
        withdraw_then_update_user(store, env, msg.result)
    } else {
        Err(ContractError::Unauthorized {  })
    }
}

/// Serving a call: each message goes to its handler.
pub open spec fn execute_spec(
    store: StoreView,
    env: EnvView,
    info: MessageInfoView,
    msg: ExecuteMsgView,
) -> Outcome {
    match msg {
        ExecuteMsgView::UpdateConfig(config) => update_config_spec(store, info, config),
        ExecuteMsgView::DepositPool { percentage } => deposit_pool_spec(
            store,
            env,
            info,
            percentage,
        ),
        ExecuteMsgView::WithdrawPool { withdraw_amount } => unchanged(
            store,
            withdraw_pool_spec(store, env, info, withdraw_amount),
        ),
        ExecuteMsgView::InternalDepositInitial { ust_sent, percentage, depositor } => unchanged(
            store,
            deposit_initial_spec(store, env, info, ust_sent, percentage, depositor),
        ),
        ExecuteMsgView::InternalDepositMore {
            ust_sent,
            aust_amount,
            percentage,
            depositor,
        } => unchanged(
            store,
            deposit_more_spec(store, env, info, ust_sent, aust_amount, percentage, depositor),
        ),
        ExecuteMsgView::InternalSwapBackUpdate {
            to_angel,
            charity_address,
            ust_amount,
            new_percentage,
            depositor,
        } => unchanged(
            store,
            swap_back_aust_spec(
                store,
                env,
                info,
                to_angel,
                charity_address,
                ust_amount,
                new_percentage,
                depositor,
            ),
        ),
        ExecuteMsgView::InternalWithdrawInitial {
            withdraw_amount,
            aust_amount,
            ust_amount,
            percentage,
            depositor,
        } => unchanged(
            store,
            swap_aust_ust_spec(
                store,
                env,
                info,
                withdraw_amount,
                aust_amount,
                ust_amount,
                percentage,
                depositor,
            ),
        ),
        ExecuteMsgView::InternalWithdrawSend {
            withdraw_amount,
            new_ust_amount,
            to_angel_amount,
            ust_depositor,
            charity_address,
        } => unchanged(
            store,
            withdraw_send_spec(
                store,
                env,
                info,
                withdraw_amount,
                new_ust_amount,
                to_angel_amount,
                ust_depositor,
                charity_address,
            ),
        ),
    }
}

/// Serves a call to the contract.
pub fn execute(store: &mut Store, env: Env, info: MessageInfo, msg: ExecuteMsg) -> (res: Result<
    Response,
    ContractError,
>)
    ensures
        (final(store)@, result_view(res)) == execute_spec(
            old(store)@,
            env.deep_view(),
            info.deep_view(),
            msg.deep_view(),
        ),
{
    match msg {
        ExecuteMsg::UpdateConfig(msg) => update_config(store, info, msg),
        ExecuteMsg::DepositPool { percentage } => deposit_pool(store, env, info, percentage),
        ExecuteMsg::WithdrawPool { withdraw_amount } => withdraw_pool(
            store,
            env,
            info,
            withdraw_amount,
        ),
        ExecuteMsg::InternalDepositInitial { ust_sent, percentage, depositor } => deposit_initial(
            store,
            env,
            info,
            ust_sent,
            percentage,
            depositor,
        ),
        ExecuteMsg::InternalDepositMore {
            ust_sent,
            aust_amount,
            percentage,
            depositor,
        } => deposit_more(store, env, info, ust_sent, aust_amount, percentage, depositor),
        ExecuteMsg::InternalSwapBackUpdate {
            to_angel,
            charity_address,
            ust_amount,
            new_percentage,
            depositor,
        } => swap_back_aust(
            store,
            env,
            info,
            to_angel,
            charity_address,
            ust_amount,
            new_percentage,
            depositor,
        ),
        ExecuteMsg::InternalWithdrawInitial {
            withdraw_amount,
            aust_amount,
            ust_amount,
            percentage,
            depositor,
        } => swap_aust_ust(
            store,
            env,
            info,
            withdraw_amount,
            aust_amount,
            ust_amount,
            percentage,
            depositor,
        ),
        ExecuteMsg::InternalWithdrawSend {
            withdraw_amount,
            new_ust_amount,
            to_angel_amount,
            ust_depositor,
            charity_address,
        } => withdraw_send(
            store,
            env,
            info,
            withdraw_amount,
            new_ust_amount,
            to_angel_amount,
            ust_depositor,
            charity_address,
        ),
    }
}

} // verus!
