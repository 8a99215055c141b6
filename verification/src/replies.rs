//! The saga engine: one handler for each tag under which a deferred call
//! reports back. A handler reads its inputs out of the attributes that the
//! call reported, settles the amounts, and either starts the next call or
//! writes the depositor's pool.
//!
//! A failed call, a missing or malformed attribute, and an amount that cannot
//! be held all end the saga with the same rejection; the store is then left
//! as it was.

use vstd::prelude::*;
use vstd::string::*;
use crate::calc::{
    accrued_yield,
    accrued_yield_spec,
    lemma_blended_percentage_bounds,
    lemma_charity_never_skims_principal,
    MAX_PERCENTAGE,
    blended_percentage,
    blended_percentage_spec,
    capped_withdraw,
    capped_withdraw_spec,
    charity_share,
    deposit_charity_spec,
    reinvest_amount,
    reinvest_spec,
    settled_percentage,
    settled_percentage_spec,
    withdraw_charity,
    withdraw_charity_spec,
};
use crate::decimal::{decimal_text, u16_to_string, u64_to_string};
use crate::error::{result_view, ContractError, ContractErrorView, StdError};
use crate::events::{
    all_attributes,
    last_text,
    last_value,
    optional_spec,
    optional_u64,
    reported,
    required_percentage,
    required_spec,
    required_u128,
    required_u64,
    AttributeView,
    ContractResult,
    EventView,
    SubMsgExecutionResponse,
};
use crate::execute::{
    no_config,
    no_pool,
    rejected,
    Answer,
    Outcome,
    REPLY_TOP_UP_SETTLED,
    REPLY_WITHDRAW_SETTLED,
};
use crate::host::{coins, no_coins, CoinView, Env, EnvView, UUSD};
use crate::keys::{
    AUST_AMOUNT,
    DEPOSIT_AMOUNT,
    GIVE_PERCENTAGE,
    MINT_AMOUNT,
    NEW_PERCENTAGE,
    PERCENTAGE,
    REDEEM_AMOUNT,
    TO_ANGEL,
    UST_AMOUNT,
    UST_DEPOSITOR,
    UST_SENT,
    WITHDRAW_AMOUNT,
};
use crate::msg::{ExecuteMsg, ExecuteMsgView};
use crate::response::{Response, ResponseView, SubMsg, SubMsgView};
use crate::state::{ConfigView, Pool, Store, StoreView, CONFIG_KIND, POOL_KIND};

verus! {

/// What the reply to a new deposit reports.
pub ghost struct NewDepositReport {
    pub depositor: Seq<char>,
    /// The percentage that the deposit asked for.
    pub percentage: u16,
    /// The stable coins that the lending venue took in.
    pub deposit_amount: u64,
    /// The wrapper tokens that it minted for them.
    pub mint_amount: u64,
}

/// Reads the report of a new deposit. Each of the four values must be there.
pub open spec fn new_deposit_report(attrs: Seq<AttributeView>) -> Option<NewDepositReport> {
    match (
        last_value(attrs, UST_DEPOSITOR@),
        required_spec(attrs, PERCENTAGE@, 100),
        required_spec(attrs, DEPOSIT_AMOUNT@, u64::MAX as nat),
        required_spec(attrs, MINT_AMOUNT@, u64::MAX as nat),
    ) {
        (Some(depositor), Some(p), Some(d), Some(m)) => Some(
            NewDepositReport {
                depositor,
                percentage: p as u16,
                deposit_amount: d as u64,
                mint_amount: m as u64,
            },
        ),
        _ => None,
    }
}

/// What the depositor has given so far.
pub open spec fn donated_so_far(store: StoreView, depositor: Seq<char>) -> u64 {
    if store.pools.dom().contains(depositor) {
        store.pools[depositor].total_donated
    } else {
        0
    }
}

/// The pool that a new deposit leaves: the percentage that was asked for and
/// the amounts that the lending venue reported, exactly; what the depositor
/// gave before stays counted.
pub open spec fn new_deposit_pool(store: StoreView, report: NewDepositReport) -> Pool {
    Pool {
        give_percentage: report.percentage,
        ust_amount: report.deposit_amount,
        aust_amount: report.mint_amount,
        total_donated: donated_so_far(store, report.depositor),
    }
}

/// The end of a new deposit: the depositor's pool is written.
pub open spec fn make_new_user_struct_spec(store: StoreView, result: Option<Seq<EventView>>) -> Outcome {
    match result {
        None => rejected(store, ContractErrorView::Unauthorized),
        Some(events) => match new_deposit_report(all_attributes(events)) {
            None => rejected(store, ContractErrorView::Unauthorized),
            Some(report) => (
                store.with_pool(report.depositor, new_deposit_pool(store, report)),
                Ok(
                    ResponseView::empty().add_attribute(
                        GIVE_PERCENTAGE@,
                        decimal_text(report.percentage as nat),
                    ).add_attribute(
                        UST_AMOUNT@,
                        decimal_text(report.deposit_amount as nat),
                    ).add_attribute(AUST_AMOUNT@, decimal_text(report.mint_amount as nat)),
                ),
            ),
        },
    }
}

/// Ends a new deposit: writes the depositor's pool from what the lending venue reported.
pub fn make_new_user_struct(
    store: &mut Store,
    _env: Env,
    msg: ContractResult<SubMsgExecutionResponse>,
) -> (res: Result<Response, ContractError>)
    ensures
        (final(store)@, result_view(res)) == make_new_user_struct_spec(old(store)@, reported(msg)),
{
    let subcall = match msg {
        ContractResult::Success(subcall) => subcall,
        ContractResult::Failure(_) => {
            return Err(ContractError::Unauthorized {  });
        },
    };
    let events = &subcall.events;
    let ust_depositor = match last_text(events, UST_DEPOSITOR) {
        Some(text) => text,
        None => {
            return Err(ContractError::Unauthorized {  });
        },
    };
    let percentage: u16 = match required_percentage(events, PERCENTAGE) {
        Some(p) => p,
        None => {
            return Err(ContractError::Unauthorized {  });
        },
    };
    let deposit_amount: u64 = match required_u64(events, DEPOSIT_AMOUNT) {
        Some(a) => a,
        None => {
            return Err(ContractError::Unauthorized {  });
        },
    };
    let mint_amount: u64 = match required_u64(events, MINT_AMOUNT) {
        Some(a) => a,
        None => {
            return Err(ContractError::Unauthorized {  });
        },
    };
    let total_donated: u64 = match store.load(ust_depositor.as_str()) {
        Some(pool) => pool.total_donated,
        None => 0,
    };
    let depositor_info = Pool {
        give_percentage: percentage,
        ust_amount: deposit_amount,
        aust_amount: mint_amount,
        total_donated,
    };
    store.save(ust_depositor.as_str(), depositor_info);
    Ok(
        Response::new().add_attribute(GIVE_PERCENTAGE, u16_to_string(percentage)).add_attribute(
            UST_AMOUNT,
            u64_to_string(deposit_amount),
        ).add_attribute(AUST_AMOUNT, u64_to_string(mint_amount)),
    )
}

/// What the reply to the redemption of a top-up reports.
pub ghost struct TopUpReport {
    pub depositor: Seq<char>,
    /// The percentage that the top-up asks for.
    pub percentage: u16,
    /// The stable coins that came with the top-up.
    pub deposit_amount: u64,
    /// The stable coins that the pool's wrapper tokens were redeemed for.
    pub redeem_amount: u64,
}

/// Reads the report of a top-up's redemption. Each of the four values must be there.
pub open spec fn top_up_report(attrs: Seq<AttributeView>) -> Option<TopUpReport> {
    match (
        last_value(attrs, UST_DEPOSITOR@),
        required_spec(attrs, PERCENTAGE@, 100),
        required_spec(attrs, UST_SENT@, u64::MAX as nat),
        required_spec(attrs, REDEEM_AMOUNT@, u64::MAX as nat),
    ) {
        (Some(depositor), Some(p), Some(d), Some(r)) => Some(
            TopUpReport {
                depositor,
                percentage: p as u16,
                deposit_amount: d as u64,
                redeem_amount: r as u64,
            },
        ),
        _ => None,
    }
}

/// How a top-up settles.
pub ghost struct TopUpSplit {
    /// The charity's cut of the yield.
    pub to_angel: nat,
    /// What goes back into the lending venue.
    pub reinvest: int,
    /// The percentage that the pool carries from now on.
    pub new_percentage: nat,
}

/// Settles a top-up: the charity's cut is taken off the yield at the pool's
/// percentage, all the rest and the new coins are deposited again, and the
/// pool's percentage and the new one are blended by value.
pub open spec fn top_up_split(pool: Pool, report: TopUpReport) -> TopUpSplit {
    let to_angel = deposit_charity_spec(
        report.redeem_amount as nat,
        pool.ust_amount as nat,
        pool.give_percentage as nat,
    );
    TopUpSplit {
        to_angel,
        reinvest: reinvest_spec(report.redeem_amount as nat, report.deposit_amount as nat, to_angel),
        new_percentage: blended_percentage_spec(
            pool.ust_amount as nat,
            pool.give_percentage as nat,
            report.deposit_amount as nat,
            report.percentage as nat,
        ),
    }
}

/// A top-up keeps the principal whole and blends fairly: for a pool with a
/// percentage of at most 100, the charity's cut is at most the yield and at
/// most what was redeemed, and the cut and what is deposited again make up
/// all that was redeemed and all that was sent; the new percentage lies
/// between the pool's and the requested one, and is the pool's where nothing
/// was sent.
pub proof fn lemma_top_up_split(pool: Pool, report: TopUpReport)
    requires
        pool.valid(),
    ensures
        ({
            let split = top_up_split(pool, report);
            &&& split.to_angel <= accrued_yield_spec(
                report.redeem_amount as nat,
                pool.ust_amount as nat,
            )
            &&& split.to_angel <= report.redeem_amount
            &&& split.to_angel + split.reinvest == report.redeem_amount + report.deposit_amount
            &&& pool.ust_amount as nat + report.deposit_amount as nat > 0 ==> {
                &&& pool.give_percentage <= report.percentage ==> pool.give_percentage
                    <= split.new_percentage <= report.percentage
                &&& report.percentage <= pool.give_percentage ==> report.percentage
                    <= split.new_percentage <= pool.give_percentage
                &&& report.deposit_amount == 0 ==> split.new_percentage == pool.give_percentage
            }
        }),
{
    lemma_charity_never_skims_principal(
        report.redeem_amount as nat,
        pool.ust_amount as nat,
        pool.give_percentage as nat,
    );
    if pool.ust_amount as nat + report.deposit_amount as nat > 0 {
        lemma_blended_percentage_bounds(
            pool.ust_amount as nat,
            pool.give_percentage as nat,
            report.deposit_amount as nat,
            report.percentage as nat,
        );
    }
}

/// The settling of a top-up, for the pool and the settings that the store
/// holds. It is rejected where what is to be deposited again cannot be held
/// in 64 bits, and where the pool and the top-up are both empty.
pub open spec fn top_up_answer(
    pool: Pool,
    config: ConfigView,
    env: EnvView,
    report: TopUpReport,
) -> Answer {
    let split = top_up_split(pool, report);
    if split.reinvest < 0 || split.reinvest > u64::MAX || pool.ust_amount as nat
        + report.deposit_amount as nat == 0 {
        Err(ContractErrorView::Unauthorized)
    } else {
        Ok(
            ResponseView::empty().add_submessage(
                SubMsgView::to_self(
                    REPLY_TOP_UP_SETTLED,
                    env.contract_address,
                    ExecuteMsgView::InternalSwapBackUpdate {
                        to_angel: split.to_angel as u64,
                        charity_address: config.charity_address,
                        ust_amount: split.reinvest as u64,
                        new_percentage: split.new_percentage as u16,
                        depositor: report.depositor,
                    },
                    seq![CoinView { denom: UUSD@, amount: report.deposit_amount as u128 }],
                ),
            ),
        )
    }
}

/// The middle of a top-up: the redeemed balance is split, and the contract
/// calls itself to carry the split out.
pub open spec fn get_new_user_state_dep_spec(
    store: StoreView,
    env: EnvView,
    result: Option<Seq<EventView>>,
) -> Answer {
    match result {
        None => Err(ContractErrorView::Unauthorized),
        Some(events) => match top_up_report(all_attributes(events)) {
            None => Err(ContractErrorView::Unauthorized),
            Some(report) => if !store.pools.dom().contains(report.depositor) {
                Err(no_pool())
            } else {
                match store.config {
                    None => Err(no_config()),
                    Some(config) => top_up_answer(
                        store.pools[report.depositor],
                        config,
                        env,
                        report,
                    ),
                }
            },
        },
    }
}

/// Settles a top-up once the pool's wrapper tokens are redeemed.
pub fn get_new_user_state_dep(
    store: &Store,
    env: Env,
    msg: ContractResult<SubMsgExecutionResponse>,
) -> (res: Result<Response, ContractError>)
    ensures
        result_view(res) == get_new_user_state_dep_spec(store@, env.deep_view(), reported(msg)),
{
    let subcall = match msg {
        ContractResult::Success(subcall) => subcall,
        ContractResult::Failure(_) => {
            return Err(ContractError::Unauthorized {  });
        },
    };
    let events = &subcall.events;
    let ust_depositor = match last_text(events, UST_DEPOSITOR) {
        Some(text) => text,
        None => {
            return Err(ContractError::Unauthorized {  });
        },
    };
    let percentage: u16 = match required_percentage(events, PERCENTAGE) {
        Some(p) => p,
        None => {
            return Err(ContractError::Unauthorized {  });
        },
    };
    let deposit_amount: u64 = match required_u64(events, UST_SENT) {
        Some(a) => a,
        None => {
            return Err(ContractError::Unauthorized {  });
        },
    };
    let redeem_amount: u64 = match required_u64(events, REDEEM_AMOUNT) {
        Some(a) => a,
        None => {
            return Err(ContractError::Unauthorized {  });
        },
    };
    let user_info = match store.load(ust_depositor.as_str()) {
        Some(pool) => pool,
        None => {
            return Err(ContractError::Std(StdError::NotFound { kind: POOL_KIND.to_owned() }));
        },
    };
    let config = match store.load_config() {
        Some(config) => config,
        None => {
            return Err(ContractError::Std(StdError::NotFound { kind: CONFIG_KIND.to_owned() }));
        },
    };
    let ust_amount: u64 = user_info.ust_amount;
    let prev_percentage: u16 = user_info.give_percentage;
    let diff: u64 = accrued_yield(redeem_amount, ust_amount);
    let to_angel: u64 = charity_share(diff, prev_percentage);
    let new_ust_amount: u64 = match reinvest_amount(redeem_amount, deposit_amount, to_angel) {
        Some(a) => a,
        None => {
            return Err(ContractError::Unauthorized {  });
        },
    };
    if ust_amount == 0 && deposit_amount == 0 {
        return Err(ContractError::Unauthorized {  });
    }
    let new_percentage: u16 = blended_percentage(
        ust_amount,
        prev_percentage,
        deposit_amount,
        percentage,
    );
    Ok(
        Response::new().add_submessage(
            SubMsg::to_self(
                REPLY_TOP_UP_SETTLED,
                env.contract_address,
                ExecuteMsg::InternalSwapBackUpdate {
                    to_angel,
                    charity_address: config.charity_address,
                    ust_amount: new_ust_amount,
                    new_percentage,
                    depositor: ust_depositor,
                },
                coins(deposit_amount as u128, UUSD),
            ),
        ),
    )
}

/// What the reply that ends a top-up reports.
pub ghost struct TopUpSettledReport {
    pub depositor: Seq<char>,
    /// The blended percentage.
    pub new_percentage: u16,
    /// The stable coins that the lending venue took in.
    pub deposit_amount: u64,
    /// The wrapper tokens that it minted for them.
    pub mint_amount: u64,
    /// What went to the charity.
    pub to_angel: u64,
}

/// Reads the report that ends a top-up. Each of the five values must be there.
pub open spec fn top_up_settled_report(attrs: Seq<AttributeView>) -> Option<TopUpSettledReport> {
    match (
        last_value(attrs, UST_DEPOSITOR@),
        required_spec(attrs, NEW_PERCENTAGE@, 100),
        required_spec(attrs, DEPOSIT_AMOUNT@, u64::MAX as nat),
        required_spec(attrs, MINT_AMOUNT@, u64::MAX as nat),
        required_spec(attrs, TO_ANGEL@, u64::MAX as nat),
    ) {
        (Some(depositor), Some(p), Some(d), Some(m), Some(t)) => Some(
            TopUpSettledReport {
                depositor,
                new_percentage: p as u16,
                deposit_amount: d as u64,
                mint_amount: m as u64,
                to_angel: t as u64,
            },
        ),
        _ => None,
    }
}

/// The pool once a stage has settled: the balances are those that the
/// lending venue reported, what went to the charity is added to what the pool
/// has given, and a balance of dust costs the pool its percentage.
pub open spec fn settled_pool(
    pool: Pool,
    theta: u64,
    percentage: u16,
    deposit_amount: u64,
    mint_amount: u64,
    to_angel: u64,
) -> Pool {
    Pool {
        give_percentage: settled_percentage_spec(percentage, mint_amount as nat, theta as nat),
        ust_amount: deposit_amount,
        aust_amount: mint_amount,
        total_donated: (pool.total_donated + to_angel) as u64,
    }
}

/// Writing the pool of `depositor` once a stage has settled. What the pool
/// has given must still fit in 64 bits.
pub open spec fn settle_spec(
    store: StoreView,
    depositor: Seq<char>,
    percentage: Option<u16>,
    deposit_amount: u64,
    mint_amount: u64,
    to_angel: u64,
) -> Outcome {
    if !store.pools.dom().contains(depositor) {
        rejected(store, no_pool())
    } else {
        match store.config {
            None => rejected(store, no_config()),
            Some(config) => {
                let pool = store.pools[depositor];
                if pool.total_donated + to_angel > u64::MAX {
                    rejected(store, ContractErrorView::Unauthorized)
                } else {
                    (
                        store.with_pool(
                            depositor,
                            settled_pool(
                                pool,
                                config.theta,
                                match percentage {
                                    Some(p) => p,
                                    None => pool.give_percentage,
                                },
                                deposit_amount,
                                mint_amount,
                                to_angel,
                            ),
                        ),
                        Ok(ResponseView::empty()),
                    )
                }
            },
        }
    }
}

/// Dust costs a pool its percentage: whenever a stage settles with a wrapper
/// balance at or below the threshold, the pool that is written has the
/// percentage zero, whatever it had before and whatever the stage gives it.
/// Above the threshold the pool has the stage's percentage, or keeps its own
/// where the stage gives none.
pub proof fn lemma_settle_dust(
    store: StoreView,
    depositor: Seq<char>,
    percentage: Option<u16>,
    deposit_amount: u64,
    mint_amount: u64,
    to_angel: u64,
)
    requires
        settle_spec(store, depositor, percentage, deposit_amount, mint_amount, to_angel).1 is Ok,
    ensures
        ({
            let after = settle_spec(
                store,
                depositor,
                percentage,
                deposit_amount,
                mint_amount,
                to_angel,
            ).0;
            let theta = store.config.unwrap().theta;
            &&& after.pools.dom().contains(depositor)
            &&& after.pools[depositor].aust_amount == mint_amount
            &&& after.pools[depositor].ust_amount == deposit_amount
            &&& after.pools[depositor].total_donated == store.pools[depositor].total_donated
                + to_angel
            &&& mint_amount <= theta ==> after.pools[depositor].give_percentage == 0
            &&& mint_amount > theta ==> after.pools[depositor].give_percentage == match percentage {
                Some(p) => p,
                None => store.pools[depositor].give_percentage,
            }
        }),
{
}

/// Writes the pool of `depositor` once a stage has settled; `percentage` is
/// the pool's new percentage, where the stage gives it one.
fn settle(
    store: &mut Store,
    depositor: &str,
    percentage: Option<u16>,
    deposit_amount: u64,
    mint_amount: u64,
    to_angel: u64,
) -> (res: Result<Response, ContractError>)
    requires
        percentage matches Some(p) ==> p <= 100,
    ensures
        (final(store)@, result_view(res)) == settle_spec(
            old(store)@,
            depositor@,
            percentage,
            deposit_amount,
            mint_amount,
            to_angel,
        ),
{
    let tokens = match store.load(depositor) {
        Some(pool) => pool,
        None => {
            return Err(ContractError::Std(StdError::NotFound { kind: POOL_KIND.to_owned() }));
        },
    };
    let config = match store.load_config() {
        Some(config) => config,
        None => {
            return Err(ContractError::Std(StdError::NotFound { kind: CONFIG_KIND.to_owned() }));
        },
    };
    let total_donated: u64 = match tokens.total_donated.checked_add(to_angel) {
        Some(total) => total,
        None => {
            return Err(ContractError::Unauthorized {  });
        },
    };
    let carried: u16 = match percentage {
        Some(p) => p,
        None => tokens.give_percentage,
    };
    let settled = Pool {
        give_percentage: settled_percentage(carried, mint_amount, config.theta),
        ust_amount: deposit_amount,
        aust_amount: mint_amount,
        total_donated,
    };
    store.save(depositor, settled);
    Ok(Response::default())
}

/// The end of a top-up: the depositor's pool is written.
pub open spec fn deposit_then_update_user_spec(
    store: StoreView,
    result: Option<Seq<EventView>>,
) -> Outcome {
    match result {
        None => rejected(store, ContractErrorView::Unauthorized),
        Some(events) => match top_up_settled_report(all_attributes(events)) {
            None => rejected(store, ContractErrorView::Unauthorized),
            Some(report) => settle_spec(
                store,
                report.depositor,
                Some(report.new_percentage),
                report.deposit_amount,
                report.mint_amount,
                report.to_angel,
            ),
        },
    }
}

/// Ends a top-up: writes the depositor's pool from what the lending venue reported.
pub fn deposit_then_update_user(
    store: &mut Store,
    _env: Env,
    msg: ContractResult<SubMsgExecutionResponse>,
) -> (res: Result<Response, ContractError>)
    ensures
        (final(store)@, result_view(res)) == deposit_then_update_user_spec(
            old(store)@,
            reported(msg),
        ),
{
    let subcall = match msg {
        ContractResult::Success(subcall) => subcall,
        ContractResult::Failure(_) => {
            return Err(ContractError::Unauthorized {  });
        },
    };
    let events = &subcall.events;
    let ust_depositor = match last_text(events, UST_DEPOSITOR) {
        Some(text) => text,
        None => {
            return Err(ContractError::Unauthorized {  });
        },
    };
    let new_percentage: u16 = match required_percentage(events, NEW_PERCENTAGE) {
        Some(p) => p,
        None => {
            return Err(ContractError::Unauthorized {  });
        },
    };
    let deposit_amount: u64 = match required_u64(events, DEPOSIT_AMOUNT) {
        Some(a) => a,
        None => {
            return Err(ContractError::Unauthorized {  });
        },
    };
    let mint_amount: u64 = match required_u64(events, MINT_AMOUNT) {
        Some(a) => a,
        None => {
            return Err(ContractError::Unauthorized {  });
        },
    };
    let to_angel: u64 = match required_u64(events, TO_ANGEL) {
        Some(a) => a,
        None => {
            return Err(ContractError::Unauthorized {  });
        },
    };
    settle(
        store,
        ust_depositor.as_str(),
        Some(new_percentage),
        deposit_amount,
        mint_amount,
        to_angel,
    )
}

/// What the reply to the redemption of a withdrawal reports.
pub ghost struct WithdrawReport {
    pub depositor: Seq<char>,
    /// The stable coins that the pool's wrapper tokens were redeemed for.
    pub redeem_amount: u64,
    /// The amount that the depositor asked for.
    pub withdraw_amount: u128,
    /// The pool's principal when the withdrawal started.
    pub ust_amount: u64,
}

/// Reads the report of a withdrawal's redemption. Each of the four values must be there.
pub open spec fn withdraw_report(attrs: Seq<AttributeView>) -> Option<WithdrawReport> {
    match (
        last_value(attrs, UST_DEPOSITOR@),
        required_spec(attrs, REDEEM_AMOUNT@, u64::MAX as nat),
        required_spec(attrs, WITHDRAW_AMOUNT@, u128::MAX as nat),
        required_spec(attrs, UST_AMOUNT@, u64::MAX as nat),
    ) {
        (Some(depositor), Some(r), Some(w), Some(u)) => Some(
            WithdrawReport {
                depositor,
                redeem_amount: r as u64,
                withdraw_amount: w as u128,
                ust_amount: u as u64,
            },
        ),
        _ => None,
    }
}

/// How a withdrawal settles.
pub ghost struct WithdrawSplit {
    /// The charity's cut of the yield.
    pub to_angel: nat,
    /// What the depositor gets.
    pub withdraw: nat,
    /// What goes back into the lending venue.
    pub reinvest: int,
}

/// Settles a withdrawal: the charity's cut is taken off the yield at
/// `percentage`, the depositor gets what was asked for but no more than the
/// rest, and what is then left is deposited again.
pub open spec fn withdraw_split(percentage: u16, report: WithdrawReport) -> WithdrawSplit {
    let to_angel = withdraw_charity_spec(
        report.redeem_amount as nat,
        report.ust_amount as nat,
        percentage as nat,
    );
    let withdraw = capped_withdraw_spec(
        report.withdraw_amount as nat,
        report.redeem_amount as nat,
        to_angel,
    );
    WithdrawSplit { to_angel, withdraw, reinvest: report.redeem_amount - to_angel - withdraw }
}

/// The settling of a withdrawal, for the pool's percentage and the settings
/// that the store holds. Whatever amount was asked for, there is an answer.
pub open spec fn withdraw_answer(
    percentage: u16,
    config: ConfigView,
    env: EnvView,
    report: WithdrawReport,
) -> ResponseView {
    let split = withdraw_split(percentage, report);
    ResponseView::empty().add_submessage(
        SubMsgView::to_self(
            REPLY_WITHDRAW_SETTLED,
            env.contract_address,
            ExecuteMsgView::InternalWithdrawSend {
                withdraw_amount: split.withdraw as u64,
                new_ust_amount: split.reinvest as u64,
                to_angel_amount: split.to_angel as u64,
                ust_depositor: report.depositor,
                charity_address: config.charity_address,
            },
            Seq::empty(),
        ),
    )
}

/// The middle of a withdrawal: the redeemed balance is split, and the
/// contract calls itself to carry the split out.
pub open spec fn get_new_user_state_wit_spec(
    store: StoreView,
    env: EnvView,
    result: Option<Seq<EventView>>,
) -> Answer {
    match result {
        None => Err(ContractErrorView::Unauthorized),
        Some(events) => match withdraw_report(all_attributes(events)) {
            None => Err(ContractErrorView::Unauthorized),
            Some(report) => if !store.pools.dom().contains(report.depositor) {
                Err(no_pool())
            } else {
                match store.config {
                    None => Err(no_config()),
                    Some(config) => Ok(
                        withdraw_answer(
                            store.pools[report.depositor].give_percentage,
                            config,
                            env,
                            report,
                        ),
                    ),
                }
            },
        },
    }
}

/// A withdrawal pays out all that was redeemed and no more: the charity's
/// cut is at most what was redeemed, and at most the yield where the
/// percentage is at most 100; the depositor gets what was asked for or, where
/// that is more than the cut leaves, exactly what the cut leaves; and what
/// neither gets is deposited again.
pub proof fn lemma_withdraw_split(percentage: u16, report: WithdrawReport)
    ensures
        ({
            let split = withdraw_split(percentage, report);
            let cap = report.redeem_amount - split.to_angel;
            &&& split.to_angel <= report.redeem_amount
            &&& percentage <= MAX_PERCENTAGE ==> split.to_angel <= accrued_yield_spec(
                report.redeem_amount as nat,
                report.ust_amount as nat,
            )
            &&& split.withdraw <= report.withdraw_amount
            &&& split.withdraw <= cap
            &&& report.withdraw_amount <= cap ==> split.withdraw == report.withdraw_amount
            &&& report.withdraw_amount >= cap ==> split.withdraw == cap && split.reinvest == 0
            &&& split.reinvest >= 0
            &&& split.to_angel + split.withdraw + split.reinvest == report.redeem_amount
        }),
{
    if percentage <= MAX_PERCENTAGE {
        lemma_charity_never_skims_principal(
            report.redeem_amount as nat,
            report.ust_amount as nat,
            percentage as nat,
        );
    }
}

/// Asking for more than can be had is asking for all of it: two requests
/// that differ only in the amount, both at or above what the charity's cut
/// leaves, get the same answer.
pub proof fn lemma_withdraw_request_capped(
    percentage: u16,
    config: ConfigView,
    env: EnvView,
    report: WithdrawReport,
    other_amount: u128,
)
    requires
        report.withdraw_amount >= report.redeem_amount - withdraw_split(
            percentage,
            report,
        ).to_angel,
        other_amount >= report.redeem_amount - withdraw_split(percentage, report).to_angel,
    ensures
        withdraw_answer(
            percentage,
            config,
            env,
            WithdrawReport { withdraw_amount: other_amount, ..report },
        ) == withdraw_answer(percentage, config, env, report),
{
    lemma_withdraw_split(percentage, report);
    lemma_withdraw_split(percentage, WithdrawReport { withdraw_amount: other_amount, ..report });
}

/// Settles a withdrawal once the pool's wrapper tokens are redeemed.
pub fn get_new_user_state_wit(
    store: &Store,
    env: Env,
    msg: ContractResult<SubMsgExecutionResponse>,
) -> (res: Result<Response, ContractError>)
    ensures
        result_view(res) == get_new_user_state_wit_spec(store@, env.deep_view(), reported(msg)),
{
    let subcall = match msg {
        ContractResult::Success(subcall) => subcall,
        ContractResult::Failure(_) => {
            return Err(ContractError::Unauthorized {  });
        },
    };
    let events = &subcall.events;
    let ust_depositor = match last_text(events, UST_DEPOSITOR) {
        Some(text) => text,
        None => {
            return Err(ContractError::Unauthorized {  });
        },
    };
    let redeem_amount: u64 = match required_u64(events, REDEEM_AMOUNT) {
        Some(a) => a,
        None => {
            return Err(ContractError::Unauthorized {  });
        },
    };
    let withdraw_amount: u128 = match required_u128(events, WITHDRAW_AMOUNT) {
        Some(a) => a,
        None => {
            return Err(ContractError::Unauthorized {  });
        },
    };
    let ust_amount: u64 = match required_u64(events, UST_AMOUNT) {
        Some(a) => a,
        None => {
            return Err(ContractError::Unauthorized {  });
        },
    };
    let percentage: u16 = match store.load(ust_depositor.as_str()) {
        Some(pool) => pool.give_percentage,
        None => {
            return Err(ContractError::Std(StdError::NotFound { kind: POOL_KIND.to_owned() }));
        },
    };
    let to_angel_amount: u64 = withdraw_charity(redeem_amount, ust_amount, percentage);
    let withdraw_amount: u64 = capped_withdraw(withdraw_amount, redeem_amount, to_angel_amount);
    let new_ust_amount: u64 = redeem_amount - to_angel_amount - withdraw_amount;
    let config = match store.load_config() {
        Some(config) => config,
        None => {
            return Err(ContractError::Std(StdError::NotFound { kind: CONFIG_KIND.to_owned() }));
        },
    };
    Ok(
        Response::new().add_submessage(
            SubMsg::to_self(
                REPLY_WITHDRAW_SETTLED,
                env.contract_address,
                ExecuteMsg::InternalWithdrawSend {
                    withdraw_amount,
                    new_ust_amount,
                    to_angel_amount,
                    ust_depositor,
                    charity_address: config.charity_address,
                },
                no_coins(),
            ),
        ),
    )
}

/// What the reply that ends a withdrawal reports.
pub ghost struct WithdrawSettledReport {
    pub depositor: Seq<char>,
    /// The stable coins that the lending venue took in again; zero where nothing was left.
    pub deposit_amount: u64,
    /// The wrapper tokens that it minted for them; zero where nothing was left.
    pub mint_amount: u64,
    /// What went to the charity.
    pub to_angel: u64,
}

/// Reads the report that ends a withdrawal. The depositor and the charity's
/// cut must be there; the lending venue reports amounts only where something
/// was deposited again, so missing amounts are zero.
pub open spec fn withdraw_settled_report(attrs: Seq<AttributeView>) -> Option<
    WithdrawSettledReport,
> {
    match (
        last_value(attrs, UST_DEPOSITOR@),
        optional_spec(attrs, DEPOSIT_AMOUNT@, u64::MAX as nat),
        optional_spec(attrs, MINT_AMOUNT@, u64::MAX as nat),
        required_spec(attrs, TO_ANGEL@, u64::MAX as nat),
    ) {
        (Some(depositor), Some(d), Some(m), Some(t)) => Some(
            WithdrawSettledReport {
                depositor,
                deposit_amount: d as u64,
                mint_amount: m as u64,
                to_angel: t as u64,
            },
        ),
        _ => None,
    }
}

/// The end of a withdrawal: the depositor's pool is written.
pub open spec fn withdraw_then_update_user_spec(
    store: StoreView,
    result: Option<Seq<EventView>>,
) -> Outcome {
    match result {
        None => rejected(store, ContractErrorView::Unauthorized),
        Some(events) => match withdraw_settled_report(all_attributes(events)) {
            None => rejected(store, ContractErrorView::Unauthorized),
            Some(report) => settle_spec(
                store,
                report.depositor,
                None,
                report.deposit_amount,
                report.mint_amount,
                report.to_angel,
            ),
        },
    }
}

/// Ends a withdrawal: writes the depositor's pool from what the lending venue reported.
pub fn withdraw_then_update_user(
    store: &mut Store,
    _env: Env,
    msg: ContractResult<SubMsgExecutionResponse>,
) -> (res: Result<Response, ContractError>)
    ensures
        (final(store)@, result_view(res)) == withdraw_then_update_user_spec(
            old(store)@,
            reported(msg),
        ),
{
    let subcall = match msg {
        ContractResult::Success(subcall) => subcall,
        ContractResult::Failure(_) => {
            return Err(ContractError::Unauthorized {  });
        },
    };
    let events = &subcall.events;
    let ust_depositor = match last_text(events, UST_DEPOSITOR) {
        Some(text) => text,
        None => {
            return Err(ContractError::Unauthorized {  });
        },
    };
    let deposit_amount: u64 = match optional_u64(events, DEPOSIT_AMOUNT) {
        Some(a) => a,
        None => {
            return Err(ContractError::Unauthorized {  });
        },
    };
    let mint_amount: u64 = match optional_u64(events, MINT_AMOUNT) {
        Some(a) => a,
        None => {
            return Err(ContractError::Unauthorized {  });
        },
    };
    let to_angel: u64 = match required_u64(events, TO_ANGEL) {
        Some(a) => a,
        None => {
            return Err(ContractError::Unauthorized {  });
        },
    };
    settle(store, ust_depositor.as_str(), None, deposit_amount, mint_amount, to_angel)
}

} // verus!
