//! The read-only question: what a depositor's pool holds.

use vstd::prelude::*;
use vstd::string::*;
use crate::error::{result_view, StdError, StdErrorView};
use crate::host::Env;
use crate::msg::{QueryMsg, QueryMsgView};
use crate::state::{Pool, Store, StoreView, POOL_KIND};

verus! {

/// The pool of `address`, as last written.
pub open spec fn get_deposit_info_spec(store: StoreView, address: Seq<char>) -> Result<
    Pool,
    StdErrorView,
> {
    if store.pools.dom().contains(address) {
        Ok(store.pools[address])
    } else {
        Err(StdErrorView::NotFound { kind: POOL_KIND@ })
    }
}

/// Gives the pool of `address`.
pub fn get_deposit_info(store: &Store, address: String) -> (res: Result<Pool, StdError>)
    ensures
        result_view(res) == get_deposit_info_spec(store@, address@),
{
    match store.load(address.as_str()) {
        Some(pool) => Ok(pool),
        None => Err(StdError::NotFound { kind: POOL_KIND.to_owned() }),
    }
}

/// The answer to a question.
pub open spec fn query_spec(store: StoreView, msg: QueryMsgView) -> Result<Pool, StdErrorView> {
    match msg {
        QueryMsgView::DepositInfo { address } => get_deposit_info_spec(store, address),
    }
}

/// Answers a question to the contract.
pub fn query(store: &Store, _env: Env, msg: QueryMsg) -> (res: Result<Pool, StdError>)
    ensures
        result_view(res) == query_spec(store@, msg.deep_view()),
{
    match msg {
        QueryMsg::DepositInfo { address } => get_deposit_info(store, address),
    }
}

} // verus!
