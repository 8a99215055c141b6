//! What holds of a saga across its stages: what one stage reports, the
//! reply that follows reads back, and the pool that is written in the end
//! holds what the lending venue reported. And what holds of the store
//! whatever call or reply is served.

use vstd::prelude::*;
use crate::calc::{withdraw_cap_spec, MAX_PERCENTAGE, MIN_DEPOSIT, MIN_DEPOSIT_PERCENTAGE};
use crate::contract::{execute_spec, reply_spec};
use crate::decimal::lemma_parse_decimal_text;
use crate::error::ContractErrorView;
use crate::events::{
    all_attributes,
    last_value,
    lemma_last_value_concat,
    lemma_scan_bounded,
    lemma_scan_concat,
    lemma_scan_silent,
    lemma_scan_single,
    optional_spec,
    required_spec,
    scan_spec,
    silent,
    AttributeView,
    EventView,
};
use crate::execute::{
    deposit_pool_spec,
    make_new_deposit_spec,
    update_deposit_spec,
    withdraw_deposit_spec,
    Answer,
    REPLY_NEW_DEPOSIT,
    REPLY_TOP_UP,
    REPLY_TOP_UP_SETTLED,
    REPLY_WITHDRAW,
    REPLY_WITHDRAW_SETTLED,
};
use crate::host::{CoinView, EnvView, MessageInfoView, UUSD};
use crate::internal_calls::{
    anchor_deposit_spec,
    bank_send_spec,
    deposit_initial_spec,
    deposit_more_spec,
    from_self,
    swap_aust_ust_spec,
    swap_back_aust_spec,
    withdraw_send_spec,
};
use crate::keys::{
    is_saga_key,
    lemma_keys_differ,
    DEPOSIT_AMOUNT,
    MINT_AMOUNT,
    NEW_PERCENTAGE,
    PERCENTAGE,
    REDEEM_AMOUNT,
    TO_ANGEL,
    UST_AMOUNT,
    UST_DEPOSITOR,
    UST_SENT,
    WITHDRAW_AMOUNT,
};
use crate::msg::ExecuteMsgView;
use crate::replies::{
    lemma_top_up_split,
    lemma_withdraw_split,
    new_deposit_report,
    top_up_answer,
    top_up_report,
    top_up_settled_report,
    top_up_split,
    withdraw_answer,
    withdraw_report,
    withdraw_settled_report,
    withdraw_split,
    NewDepositReport,
    TopUpReport,
    TopUpSettledReport,
    WithdrawReport,
    WithdrawSettledReport,
};
use crate::response::{ResponseView, SubMsgView};
use crate::state::{Pool, StoreView};

verus! {

/// Whether none of `attrs` has a key under which a reply handler reads.
pub open spec fn quiet(attrs: Seq<AttributeView>) -> bool {
    forall|i: int| 0 <= i < attrs.len() ==> !is_saga_key((#[trigger] attrs[i]).key)
}

/// One hop of a saga, as the chain carries it out: the call of the contract
/// to itself, and the reply to it.
pub ghost struct Hop {
    /// Who makes the call and with which coins, as the proxy sees it.
    pub call: MessageInfoView,
    /// The events that the reply holds.
    pub events: Seq<EventView>,
    /// What the chain itself reports, ahead of what the proxy reported.
    pub before: Seq<AttributeView>,
    /// What the lending venue reported, after what the proxy reported.
    pub venue: Seq<AttributeView>,
}

impl Hop {
    /// Whether the proxy served the call with `answer` and the reply holds,
    /// in this order, what the chain reports under keys that no handler
    /// reads, what the proxy reported, and what the lending venue reported.
    pub open spec fn carries(self, answer: Answer) -> bool {
        &&& answer matches Ok(reported)
        &&& quiet(self.before)
        &&& all_attributes(self.events) == self.before + reported.attributes + self.venue
    }

    /// Whether the lending venue reported the number `n` under `key`.
    pub open spec fn venue_reports(self, key: Seq<char>, n: u64) -> bool {
        required_spec(self.venue, key, u64::MAX as nat) == Some(n as nat)
    }

    /// Whether the lending venue reported the number `n` under `key`, or
    /// nothing under it where `n` is zero.
    pub open spec fn venue_may_report(self, key: Seq<char>, n: u64) -> bool {
        optional_spec(self.venue, key, u64::MAX as nat) == Some(n as nat)
    }

    /// Whether the lending venue reported nothing under `key`.
    pub open spec fn venue_silent(self, key: Seq<char>) -> bool {
        silent(self.venue, key)
    }
}

/// What a reply holds under a key on which the lending venue is silent is
/// what the proxy reported under it.
pub proof fn lemma_read_from_proxy(hop: Hop, answer: Answer, key: Seq<char>, max: nat)
    requires
        hop.carries(answer),
        is_saga_key(key),
        hop.venue_silent(key),
    ensures
        scan_spec(all_attributes(hop.events), key, max) == scan_spec(
            answer->Ok_0.attributes,
            key,
            max,
        ),
        last_value(all_attributes(hop.events), key) == last_value(answer->Ok_0.attributes, key),
{
    let proxy = answer->Ok_0.attributes;
    assert(hop.before + proxy + hop.venue =~= hop.before + (proxy + hop.venue));
    assert(silent(hop.before, key));
    lemma_scan_silent(hop.before, key, max);
    lemma_scan_silent(hop.venue, key, max);
    lemma_scan_concat(hop.before, proxy + hop.venue, key, max);
    lemma_last_value_concat(hop.before, proxy + hop.venue, key);
    lemma_scan_concat(proxy, hop.venue, key, max);
    lemma_last_value_concat(proxy, hop.venue, key);
}

/// What a reply holds under a key on which the proxy is silent is what the
/// lending venue reported under it.
pub proof fn lemma_read_from_venue(hop: Hop, answer: Answer, key: Seq<char>, max: nat)
    requires
        hop.carries(answer),
        is_saga_key(key),
        silent(answer->Ok_0.attributes, key),
    ensures
        scan_spec(all_attributes(hop.events), key, max) == scan_spec(hop.venue, key, max),
{
    let proxy = answer->Ok_0.attributes;
    assert(hop.before + proxy + hop.venue =~= hop.before + (proxy + hop.venue));
    assert(silent(hop.before, key));
    lemma_scan_silent(hop.before, key, max);
    lemma_scan_silent(proxy, key, max);
    lemma_scan_concat(hop.before, proxy + hop.venue, key, max);
    lemma_scan_concat(proxy, hop.venue, key, max);
}

/// The reply to a new deposit reads back what the proxy reported of it and
/// the amounts that the lending venue reports.
pub proof fn lemma_new_deposit_reported(
    store: StoreView,
    env: EnvView,
    ust_sent: u128,
    percentage: u16,
    depositor: Seq<char>,
    hop: Hop,
    deposited: u64,
    minted: u64,
)
    requires
        percentage <= MAX_PERCENTAGE,
        hop.carries(deposit_initial_spec(store, env, hop.call, ust_sent, percentage, depositor)),
        hop.venue_silent(PERCENTAGE@),
        hop.venue_silent(UST_DEPOSITOR@),
        hop.venue_reports(DEPOSIT_AMOUNT@, deposited),
        hop.venue_reports(MINT_AMOUNT@, minted),
    ensures
        new_deposit_report(all_attributes(hop.events)) == Some(
            NewDepositReport {
                depositor,
                percentage,
                deposit_amount: deposited,
                mint_amount: minted,
            },
        ),
{
    lemma_keys_differ();
    let answer = deposit_initial_spec(store, env, hop.call, ust_sent, percentage, depositor);
    let proxy = answer->Ok_0.attributes;
    let wide = u64::MAX as nat;
    assert(proxy.len() == 2);
    lemma_parse_decimal_text(percentage as nat);
    lemma_read_from_proxy(hop, answer, UST_DEPOSITOR@, wide);
    lemma_scan_single(proxy, 1, UST_DEPOSITOR@, wide);
    lemma_read_from_proxy(hop, answer, PERCENTAGE@, 100);
    lemma_scan_single(proxy, 0, PERCENTAGE@, 100);
    assert(silent(proxy, DEPOSIT_AMOUNT@));
    lemma_read_from_venue(hop, answer, DEPOSIT_AMOUNT@, wide);
    assert(silent(proxy, MINT_AMOUNT@));
    lemma_read_from_venue(hop, answer, MINT_AMOUNT@, wide);
}

/// The reply to the redemption of a top-up reads back what the proxy
/// reported of the top-up and the amount that the lending venue paid out.
pub proof fn lemma_top_up_reported(
    store: StoreView,
    env: EnvView,
    ust_sent: u128,
    aust_amount: u64,
    percentage: u16,
    depositor: Seq<char>,
    hop: Hop,
    redeemed: u64,
)
    requires
        percentage <= MAX_PERCENTAGE,
        ust_sent <= u64::MAX,
        hop.carries(
            deposit_more_spec(store, env, hop.call, ust_sent, aust_amount, percentage, depositor),
        ),
        hop.venue_silent(UST_SENT@),
        hop.venue_silent(PERCENTAGE@),
        hop.venue_silent(UST_DEPOSITOR@),
        hop.venue_reports(REDEEM_AMOUNT@, redeemed),
    ensures
        top_up_report(all_attributes(hop.events)) == Some(
            TopUpReport {
                depositor,
                percentage,
                deposit_amount: ust_sent as u64,
                redeem_amount: redeemed,
            },
        ),
{
    lemma_keys_differ();
    let answer = deposit_more_spec(
        store,
        env,
        hop.call,
        ust_sent,
        aust_amount,
        percentage,
        depositor,
    );
    let proxy = answer->Ok_0.attributes;
    let wide = u64::MAX as nat;
    assert(proxy.len() == 3);
    lemma_parse_decimal_text(percentage as nat);
    lemma_parse_decimal_text(ust_sent as nat);
    lemma_read_from_proxy(hop, answer, UST_DEPOSITOR@, wide);
    lemma_scan_single(proxy, 2, UST_DEPOSITOR@, wide);
    lemma_read_from_proxy(hop, answer, PERCENTAGE@, 100);
    lemma_scan_single(proxy, 1, PERCENTAGE@, 100);
    lemma_read_from_proxy(hop, answer, UST_SENT@, wide);
    lemma_scan_single(proxy, 0, UST_SENT@, wide);
    assert(silent(proxy, REDEEM_AMOUNT@));
    lemma_read_from_venue(hop, answer, REDEEM_AMOUNT@, wide);
}

/// The reply that ends a top-up reads back the split that the proxy carried
/// out and the amounts that the lending venue reports.
pub proof fn lemma_top_up_settled(
    store: StoreView,
    env: EnvView,
    to_angel: u64,
    charity_address: Seq<char>,
    ust_amount: u64,
    new_percentage: u16,
    depositor: Seq<char>,
    hop: Hop,
    deposited: u64,
    minted: u64,
)
    requires
        new_percentage <= MAX_PERCENTAGE,
        hop.carries(
            swap_back_aust_spec(
                store,
                env,
                hop.call,
                to_angel,
                charity_address,
                ust_amount,
                new_percentage,
                depositor,
            ),
        ),
        hop.venue_silent(TO_ANGEL@),
        hop.venue_silent(NEW_PERCENTAGE@),
        hop.venue_silent(UST_DEPOSITOR@),
        hop.venue_reports(DEPOSIT_AMOUNT@, deposited),
        hop.venue_reports(MINT_AMOUNT@, minted),
    ensures
        top_up_settled_report(all_attributes(hop.events)) == Some(
            TopUpSettledReport {
                depositor,
                new_percentage,
                deposit_amount: deposited,
                mint_amount: minted,
                to_angel,
            },
        ),
{
    lemma_keys_differ();
    let answer = swap_back_aust_spec(
        store,
        env,
        hop.call,
        to_angel,
        charity_address,
        ust_amount,
        new_percentage,
        depositor,
    );
    let proxy = answer->Ok_0.attributes;
    let wide = u64::MAX as nat;
    assert(proxy.len() == 3);
    lemma_parse_decimal_text(new_percentage as nat);
    lemma_parse_decimal_text(to_angel as nat);
    lemma_read_from_proxy(hop, answer, UST_DEPOSITOR@, wide);
    lemma_scan_single(proxy, 2, UST_DEPOSITOR@, wide);
    lemma_read_from_proxy(hop, answer, NEW_PERCENTAGE@, 100);
    lemma_scan_single(proxy, 1, NEW_PERCENTAGE@, 100);
    lemma_read_from_proxy(hop, answer, TO_ANGEL@, wide);
    lemma_scan_single(proxy, 0, TO_ANGEL@, wide);
    assert(silent(proxy, DEPOSIT_AMOUNT@));
    lemma_read_from_venue(hop, answer, DEPOSIT_AMOUNT@, wide);
    assert(silent(proxy, MINT_AMOUNT@));
    lemma_read_from_venue(hop, answer, MINT_AMOUNT@, wide);
}

/// The reply to the redemption of a withdrawal reads back what the proxy
/// reported of the withdrawal and the amount that the lending venue paid out.
pub proof fn lemma_withdraw_reported(
    store: StoreView,
    env: EnvView,
    withdraw_amount: u128,
    aust_amount: u64,
    ust_amount: u64,
    percentage: u16,
    depositor: Seq<char>,
    hop: Hop,
    redeemed: u64,
)
    requires
        hop.carries(
            swap_aust_ust_spec(
                store,
                env,
                hop.call,
                withdraw_amount,
                aust_amount,
                ust_amount,
                percentage,
                depositor,
            ),
        ),
        hop.venue_silent(WITHDRAW_AMOUNT@),
        hop.venue_silent(UST_AMOUNT@),
        hop.venue_silent(UST_DEPOSITOR@),
        hop.venue_reports(REDEEM_AMOUNT@, redeemed),
    ensures
        withdraw_report(all_attributes(hop.events)) == Some(
            WithdrawReport { depositor, redeem_amount: redeemed, withdraw_amount, ust_amount },
        ),
{
    lemma_keys_differ();
    let answer = swap_aust_ust_spec(
        store,
        env,
        hop.call,
        withdraw_amount,
        aust_amount,
        ust_amount,
        percentage,
        depositor,
    );
    let proxy = answer->Ok_0.attributes;
    let wide = u64::MAX as nat;
    let wider = u128::MAX as nat;
    assert(proxy.len() == 5);
    lemma_parse_decimal_text(withdraw_amount as nat);
    lemma_parse_decimal_text(ust_amount as nat);
    lemma_read_from_proxy(hop, answer, UST_DEPOSITOR@, wide);
    lemma_scan_single(proxy, 2, UST_DEPOSITOR@, wide);
    lemma_read_from_proxy(hop, answer, WITHDRAW_AMOUNT@, wider);
    lemma_scan_single(proxy, 0, WITHDRAW_AMOUNT@, wider);
    lemma_read_from_proxy(hop, answer, UST_AMOUNT@, wide);
    lemma_scan_single(proxy, 3, UST_AMOUNT@, wide);
    assert(silent(proxy, REDEEM_AMOUNT@));
    lemma_read_from_venue(hop, answer, REDEEM_AMOUNT@, wide);
}

/// The reply that ends a withdrawal reads back the charity's cut that the
/// proxy paid out and the amounts that the lending venue reports, which are
/// zero where nothing was deposited again.
pub proof fn lemma_withdraw_settled(
    store: StoreView,
    env: EnvView,
    withdraw_amount: u64,
    new_ust_amount: u64,
    to_angel_amount: u64,
    ust_depositor: Seq<char>,
    charity_address: Seq<char>,
    hop: Hop,
    deposited: u64,
    minted: u64,
)
    requires
        hop.carries(
            withdraw_send_spec(
                store,
                env,
                hop.call,
                withdraw_amount,
                new_ust_amount,
                to_angel_amount,
                ust_depositor,
                charity_address,
            ),
        ),
        hop.venue_silent(TO_ANGEL@),
        hop.venue_silent(UST_DEPOSITOR@),
        hop.venue_may_report(DEPOSIT_AMOUNT@, deposited),
        hop.venue_may_report(MINT_AMOUNT@, minted),
    ensures
        withdraw_settled_report(all_attributes(hop.events)) == Some(
            WithdrawSettledReport {
                depositor: ust_depositor,
                deposit_amount: deposited,
                mint_amount: minted,
                to_angel: to_angel_amount,
            },
        ),
{
    lemma_keys_differ();
    let answer = withdraw_send_spec(
        store,
        env,
        hop.call,
        withdraw_amount,
        new_ust_amount,
        to_angel_amount,
        ust_depositor,
        charity_address,
    );
    let proxy = answer->Ok_0.attributes;
    let wide = u64::MAX as nat;
    assert(proxy.len() == 2);
    lemma_parse_decimal_text(to_angel_amount as nat);
    lemma_read_from_proxy(hop, answer, UST_DEPOSITOR@, wide);
    lemma_scan_single(proxy, 1, UST_DEPOSITOR@, wide);
    lemma_read_from_proxy(hop, answer, TO_ANGEL@, wide);
    lemma_scan_single(proxy, 0, TO_ANGEL@, wide);
    assert(silent(proxy, DEPOSIT_AMOUNT@));
    lemma_read_from_venue(hop, answer, DEPOSIT_AMOUNT@, wide);
    assert(silent(proxy, MINT_AMOUNT@));
    lemma_read_from_venue(hop, answer, MINT_AMOUNT@, wide);
}

/// A first deposit ends with the pool that was asked for: when a depositor
/// without a pool sends a valid deposit, the contract starts a new deposit;
/// and when the reply carries what the proxy reported of that deposit and
/// the amounts that the lending venue reports, the pool that is written has
/// the requested percentage and exactly the reported amounts.
pub proof fn lemma_first_deposit(
    store: StoreView,
    env: EnvView,
    info: MessageInfoView,
    percentage: u16,
    ust_sent: u128,
    hop: Hop,
    deposited: u64,
    minted: u64,
)
    requires
        store.config is Some,
        !store.pools.dom().contains(info.sender),
        MIN_DEPOSIT_PERCENTAGE <= percentage <= MAX_PERCENTAGE,
        info.funds == seq![CoinView { denom: UUSD@, amount: ust_sent }],
        ust_sent >= MIN_DEPOSIT,
        hop.carries(deposit_initial_spec(store, env, hop.call, ust_sent, percentage, info.sender)),
        hop.venue_silent(PERCENTAGE@),
        hop.venue_silent(UST_DEPOSITOR@),
        hop.venue_reports(DEPOSIT_AMOUNT@, deposited),
        hop.venue_reports(MINT_AMOUNT@, minted),
    ensures
        deposit_pool_spec(store, env, info, percentage) == (
            store,
            Ok::<ResponseView, ContractErrorView>(
                make_new_deposit_spec(env, info.sender, percentage, ust_sent),
            ),
        ),
        reply_spec(store, env, REPLY_NEW_DEPOSIT, Some(hop.events)).1 is Ok,
        reply_spec(store, env, REPLY_NEW_DEPOSIT, Some(hop.events)).0 == store.with_pool(
            info.sender,
            Pool {
                give_percentage: percentage,
                ust_amount: deposited,
                aust_amount: minted,
                total_donated: 0,
            },
        ),
{
    lemma_new_deposit_reported(
        store,
        env,
        ust_sent,
        percentage,
        info.sender,
        hop,
        deposited,
        minted,
    );
}

/// What the reply to the redemption of a top-up reads when `info` sent
/// `ust_sent` coins with a request for `percentage` and the lending venue
/// paid out `redeemed`.
pub open spec fn top_up_of(
    info: MessageInfoView,
    percentage: u16,
    ust_sent: u128,
    redeemed: u64,
) -> TopUpReport {
    TopUpReport {
        depositor: info.sender,
        percentage,
        deposit_amount: ust_sent as u64,
        redeem_amount: redeemed,
    }
}

/// A top-up runs from the deposit to the pool: a valid deposit into a pool
/// above the dust threshold starts a top-up; the reply to the redemption
/// splits what was redeemed and calls the proxy with the split; and the reply
/// to that call writes the pool with the amounts that the lending venue
/// reports, the blended percentage, or zero for a balance of dust, and what
/// went to the charity added to what the pool has given.
pub proof fn lemma_top_up_saga(
    store: StoreView,
    env: EnvView,
    info: MessageInfoView,
    percentage: u16,
    ust_sent: u128,
    redeemed: u64,
    deposited: u64,
    minted: u64,
    first: Hop,
    second: Hop,
)
    requires
        store.valid(),
        store.config is Some,
        store.pools.dom().contains(info.sender),
        store.pools[info.sender].aust_amount > store.config.unwrap().theta,
        MIN_DEPOSIT_PERCENTAGE <= percentage <= MAX_PERCENTAGE,
        info.funds == seq![CoinView { denom: UUSD@, amount: ust_sent }],
        MIN_DEPOSIT <= ust_sent <= u64::MAX,
        first.carries(
            deposit_more_spec(
                store,
                env,
                first.call,
                ust_sent,
                store.pools[info.sender].aust_amount,
                percentage,
                info.sender,
            ),
        ),
        first.venue_silent(UST_SENT@),
        first.venue_silent(PERCENTAGE@),
        first.venue_silent(UST_DEPOSITOR@),
        first.venue_reports(REDEEM_AMOUNT@, redeemed),
        ({
            let pool = store.pools[info.sender];
            let split = top_up_split(pool, top_up_of(info, percentage, ust_sent, redeemed));
            &&& split.reinvest <= u64::MAX
            &&& pool.total_donated + split.to_angel <= u64::MAX
            &&& second.carries(
                swap_back_aust_spec(
                    store,
                    env,
                    second.call,
                    split.to_angel as u64,
                    store.config.unwrap().charity_address,
                    split.reinvest as u64,
                    split.new_percentage as u16,
                    info.sender,
                ),
            )
        }),
        second.venue_silent(TO_ANGEL@),
        second.venue_silent(NEW_PERCENTAGE@),
        second.venue_silent(UST_DEPOSITOR@),
        second.venue_reports(DEPOSIT_AMOUNT@, deposited),
        second.venue_reports(MINT_AMOUNT@, minted),
    ensures
        ({
            let pool = store.pools[info.sender];
            let config = store.config.unwrap();
            let report = top_up_of(info, percentage, ust_sent, redeemed);
            let split = top_up_split(pool, report);
            &&& deposit_pool_spec(store, env, info, percentage) == (
                store,
                Ok::<ResponseView, ContractErrorView>(
                    update_deposit_spec(env, ust_sent, info.sender, percentage, pool.aust_amount),
                ),
            )
            &&& reply_spec(store, env, REPLY_TOP_UP, Some(first.events)) == (
                store,
                top_up_answer(pool, config, env, report),
            )
            &&& top_up_answer(pool, config, env, report) is Ok
            &&& reply_spec(store, env, REPLY_TOP_UP_SETTLED, Some(second.events)) == (
                store.with_pool(
                    info.sender,
                    Pool {
                        give_percentage: if minted <= config.theta {
                            0
                        } else {
                            split.new_percentage as u16
                        },
                        ust_amount: deposited,
                        aust_amount: minted,
                        total_donated: (pool.total_donated + split.to_angel) as u64,
                    },
                ),
                Ok::<ResponseView, ContractErrorView>(ResponseView::empty()),
            )
        }),
{
    let pool = store.pools[info.sender];
    let report = top_up_of(info, percentage, ust_sent, redeemed);
    let split = top_up_split(pool, report);
    assert(pool.valid());
    lemma_top_up_split(pool, report);
    lemma_top_up_reported(
        store,
        env,
        ust_sent,
        pool.aust_amount,
        percentage,
        info.sender,
        first,
        redeemed,
    );
    lemma_top_up_settled(
        store,
        env,
        split.to_angel as u64,
        store.config.unwrap().charity_address,
        split.reinvest as u64,
        split.new_percentage as u16,
        info.sender,
        second,
        deposited,
        minted,
    );
}

/// What the reply to the redemption of a withdrawal reads when `info` asked
/// for `amount` and the lending venue paid out `redeemed`.
pub open spec fn withdrawal_of(
    store: StoreView,
    info: MessageInfoView,
    amount: u128,
    redeemed: u64,
) -> WithdrawReport {
    WithdrawReport {
        depositor: info.sender,
        redeem_amount: redeemed,
        withdraw_amount: amount,
        ust_amount: store.pools[info.sender].ust_amount,
    }
}

/// A withdrawal runs from the request to the pool: a request from a
/// depositor with a pool starts a withdrawal, whatever amount it asks for;
/// the reply to the redemption splits what was redeemed and calls the proxy
/// with the split; and the reply to that call writes the pool with the
/// amounts that the lending venue reports, zero where nothing was deposited
/// again, the pool's percentage, or zero for a balance of dust, and what went
/// to the charity added to what the pool has given.
pub proof fn lemma_withdraw_saga(
    store: StoreView,
    env: EnvView,
    info: MessageInfoView,
    amount: u128,
    redeemed: u64,
    deposited: u64,
    minted: u64,
    first: Hop,
    second: Hop,
)
    requires
        store.config is Some,
        store.pools.dom().contains(info.sender),
        first.carries(
            swap_aust_ust_spec(
                store,
                env,
                first.call,
                amount,
                store.pools[info.sender].aust_amount,
                store.pools[info.sender].ust_amount,
                store.pools[info.sender].give_percentage,
                info.sender,
            ),
        ),
        first.venue_silent(WITHDRAW_AMOUNT@),
        first.venue_silent(UST_AMOUNT@),
        first.venue_silent(UST_DEPOSITOR@),
        first.venue_reports(REDEEM_AMOUNT@, redeemed),
        ({
            let pool = store.pools[info.sender];
            let split = withdraw_split(
                pool.give_percentage,
                withdrawal_of(store, info, amount, redeemed),
            );
            &&& pool.total_donated + split.to_angel <= u64::MAX
            &&& second.carries(
                withdraw_send_spec(
                    store,
                    env,
                    second.call,
                    split.withdraw as u64,
                    split.reinvest as u64,
                    split.to_angel as u64,
                    info.sender,
                    store.config.unwrap().charity_address,
                ),
            )
        }),
        second.venue_silent(TO_ANGEL@),
        second.venue_silent(UST_DEPOSITOR@),
        second.venue_may_report(DEPOSIT_AMOUNT@, deposited),
        second.venue_may_report(MINT_AMOUNT@, minted),
    ensures
        ({
            let pool = store.pools[info.sender];
            let config = store.config.unwrap();
            let report = withdrawal_of(store, info, amount, redeemed);
            let split = withdraw_split(pool.give_percentage, report);
            &&& execute_spec(
                store,
                env,
                info,
                ExecuteMsgView::WithdrawPool { withdraw_amount: amount },
            ) == (store, withdraw_deposit_spec(store, env, amount, info.sender))
            &&& withdraw_deposit_spec(store, env, amount, info.sender) is Ok
            &&& reply_spec(store, env, REPLY_WITHDRAW, Some(first.events)) == (
                store,
                Ok::<ResponseView, ContractErrorView>(
                    withdraw_answer(pool.give_percentage, config, env, report),
                ),
            )
            &&& reply_spec(store, env, REPLY_WITHDRAW_SETTLED, Some(second.events)) == (
                store.with_pool(
                    info.sender,
                    Pool {
                        give_percentage: if minted <= config.theta {
                            0
                        } else {
                            pool.give_percentage
                        },
                        ust_amount: deposited,
                        aust_amount: minted,
                        total_donated: (pool.total_donated + split.to_angel) as u64,
                    },
                ),
                Ok::<ResponseView, ContractErrorView>(ResponseView::empty()),
            )
        }),
{
    let pool = store.pools[info.sender];
    let report = withdrawal_of(store, info, amount, redeemed);
    let split = withdraw_split(pool.give_percentage, report);
    lemma_withdraw_split(pool.give_percentage, report);
    lemma_withdraw_reported(
        store,
        env,
        amount,
        pool.aust_amount,
        pool.ust_amount,
        pool.give_percentage,
        info.sender,
        first,
        redeemed,
    );
    lemma_withdraw_settled(
        store,
        env,
        split.withdraw as u64,
        split.reinvest as u64,
        split.to_angel as u64,
        info.sender,
        store.config.unwrap().charity_address,
        second,
        deposited,
        minted,
    );
}

/// A withdrawal is always paid out, and never more than there is: whatever
/// amount was asked for, the proxy pays the depositor first, and at most
/// what the charity's cut leaves of the redeemed balance; then the charity,
/// if it has a cut; then the lending venue, if anything is left. The three
/// amounts make up exactly what was redeemed.
pub proof fn lemma_withdraw_paid_out(
    store: StoreView,
    env: EnvView,
    call: MessageInfoView,
    percentage: u16,
    report: WithdrawReport,
)
    requires
        store.config is Some,
        from_self(env, call),
    ensures
        ({
            let config = store.config.unwrap();
            let split = withdraw_split(percentage, report);
            let paid = withdraw_send_spec(
                store,
                env,
                call,
                split.withdraw as u64,
                split.reinvest as u64,
                split.to_angel as u64,
                report.depositor,
                config.charity_address,
            );
            let to_depositor = seq![
                SubMsgView::plain(bank_send_spec(report.depositor, split.withdraw as u128)),
            ];
            let to_charity = if split.to_angel != 0 {
                seq![
                    SubMsgView::plain(
                        bank_send_spec(config.charity_address, split.to_angel as u128),
                    ),
                ]
            } else {
                Seq::empty()
            };
            let to_venue = if split.reinvest != 0 {
                seq![SubMsgView::plain(anchor_deposit_spec(config, split.reinvest as u128))]
            } else {
                Seq::empty()
            };
            &&& paid is Ok
            &&& paid->Ok_0.messages == to_depositor + to_charity + to_venue
            &&& split.withdraw <= withdraw_cap_spec(report.redeem_amount as nat, split.to_angel)
            &&& split.withdraw <= report.withdraw_amount
            &&& split.withdraw + split.to_angel + split.reinvest == report.redeem_amount
        }),
{
    lemma_withdraw_split(percentage, report);
    let config = store.config.unwrap();
    let split = withdraw_split(percentage, report);
    let paid = withdraw_send_spec(
        store,
        env,
        call,
        split.withdraw as u64,
        split.reinvest as u64,
        split.to_angel as u64,
        report.depositor,
        config.charity_address,
    );
    let to_depositor = seq![
        SubMsgView::plain(bank_send_spec(report.depositor, split.withdraw as u128)),
    ];
    let to_charity = if split.to_angel != 0 {
        seq![SubMsgView::plain(bank_send_spec(config.charity_address, split.to_angel as u128))]
    } else {
        Seq::empty()
    };
    let to_venue = if split.reinvest != 0 {
        seq![SubMsgView::plain(anchor_deposit_spec(config, split.reinvest as u128))]
    } else {
        Seq::empty()
    };
    assert(paid->Ok_0.messages =~= to_depositor + to_charity + to_venue);
}

/// Whether `after` is what a call may leave of `before`: no pool is gone,
/// no pool has given less than it had, every percentage is at most 100, and
/// settings once written stay written.
pub open spec fn follows(before: StoreView, after: StoreView) -> bool {
    &&& after.valid()
    &&& before.config is Some ==> after.config is Some
    &&& forall|k: Seq<char>| #[trigger]
        before.pools.dom().contains(k) ==> after.pools.dom().contains(k)
            && after.pools[k].total_donated >= before.pools[k].total_donated
}

/// A call that is served leaves a store that follows the one it found, and
/// a call that is rejected leaves the store untouched.
pub proof fn lemma_execute_keeps_store(
    store: StoreView,
    env: EnvView,
    info: MessageInfoView,
    msg: ExecuteMsgView,
)
    requires
        store.valid(),
    ensures
        follows(store, execute_spec(store, env, info, msg).0),
        execute_spec(store, env, info, msg).1 is Err ==> execute_spec(store, env, info, msg).0
            == store,
{
    let after = execute_spec(store, env, info, msg).0;
    assert forall|k: Seq<char>| after.pools.dom().contains(k) implies (
    #[trigger] after.pools[k]).valid() by {
        if store.pools.dom().contains(k) {
            assert(store.pools[k].valid());
        }
    }
}

/// A reply that is taken leaves a store that follows the one it found, and
/// a reply that is rejected leaves the store untouched.
pub proof fn lemma_reply_keeps_store(
    store: StoreView,
    env: EnvView,
    id: u64,
    result: Option<Seq<EventView>>,
)
    requires
        store.valid(),
    ensures
        follows(store, reply_spec(store, env, id, result).0),
        reply_spec(store, env, id, result).1 is Err ==> reply_spec(store, env, id, result).0
            == store,
{
    let after = reply_spec(store, env, id, result).0;
    if result is Some {
        let attrs = all_attributes(result.unwrap());
        if scan_spec(attrs, PERCENTAGE@, 100) is Value {
            lemma_scan_bounded(attrs, PERCENTAGE@, 100);
        }
        if scan_spec(attrs, NEW_PERCENTAGE@, 100) is Value {
            lemma_scan_bounded(attrs, NEW_PERCENTAGE@, 100);
        }
    }
    assert forall|k: Seq<char>| after.pools.dom().contains(k) implies (
    #[trigger] after.pools[k]).valid() by {
        if store.pools.dom().contains(k) {
            assert(store.pools[k].valid());
        }
    }
}

/// Whether `msg` continues a saga: the messages that the contract sends to itself.
pub open spec fn is_internal(msg: ExecuteMsgView) -> bool {
    !(msg is UpdateConfig || msg is DepositPool || msg is WithdrawPool)
}

/// The messages that continue a saga serve the contract itself and nobody
/// else: from any other caller they are rejected, and where they are served
/// they leave the store as it was.
pub proof fn lemma_internal_calls_guarded(
    store: StoreView,
    env: EnvView,
    info: MessageInfoView,
    msg: ExecuteMsgView,
)
    requires
        is_internal(msg),
    ensures
        execute_spec(store, env, info, msg).0 == store,
        !from_self(env, info) ==> execute_spec(store, env, info, msg).1 == Err::<
            ResponseView,
            ContractErrorView,
        >(ContractErrorView::Unauthorized),
        from_self(env, info) && store.config is Some ==> execute_spec(store, env, info, msg).1 is Ok,
{
}

/// A pool's percentage changes only where a saga ends: no call changes it,
/// nor what the pool has given; the replies in the middle of a saga write
/// nothing; and the reply that ends a withdrawal leaves the percentage as it
/// was or, for a balance of dust, at zero.
pub proof fn lemma_percentage_changes_at_the_end(
    store: StoreView,
    env: EnvView,
    info: MessageInfoView,
    msg: ExecuteMsgView,
    id: u64,
    result: Option<Seq<EventView>>,
    depositor: Seq<char>,
)
    requires
        store.pools.dom().contains(depositor),
    ensures
        execute_spec(store, env, info, msg).0.pools[depositor].give_percentage
            == store.pools[depositor].give_percentage,
        execute_spec(store, env, info, msg).0.pools[depositor].total_donated
            == store.pools[depositor].total_donated,
        id == REPLY_TOP_UP || id == REPLY_WITHDRAW ==> reply_spec(store, env, id, result).0 == store,
        id == REPLY_WITHDRAW_SETTLED ==> reply_spec(
            store,
            env,
            id,
            result,
        ).0.pools[depositor].give_percentage == store.pools[depositor].give_percentage
            || reply_spec(store, env, id, result).0.pools[depositor].give_percentage == 0,
        id == REPLY_NEW_DEPOSIT ==> reply_spec(store, env, id, result).0.pools[depositor].total_donated
            == store.pools[depositor].total_donated,
{
}

/// Only the caller's own pool is written by a call: every other depositor's
/// pool is as it was.
pub proof fn lemma_execute_writes_one_pool(
    store: StoreView,
    env: EnvView,
    info: MessageInfoView,
    msg: ExecuteMsgView,
    other: Seq<char>,
)
    requires
        other != info.sender,
    ensures
        execute_spec(store, env, info, msg).0.pools.dom().contains(other)
            == store.pools.dom().contains(other),
        execute_spec(store, env, info, msg).0.pools[other] == store.pools[other],
{
}

/// Only the pool of the depositor that a reply names is written: every
/// other depositor's pool is as it was, and so are the settings.
pub proof fn lemma_reply_writes_one_pool(
    store: StoreView,
    env: EnvView,
    id: u64,
    events: Seq<EventView>,
    other: Seq<char>,
)
    requires
        last_value(all_attributes(events), UST_DEPOSITOR@) != Some(other),
    ensures
        reply_spec(store, env, id, Some(events)).0.pools.dom().contains(other)
            == store.pools.dom().contains(other),
        reply_spec(store, env, id, Some(events)).0.pools[other] == store.pools[other],
        reply_spec(store, env, id, Some(events)).0.config == store.config,
{
}

/// Dust costs a pool its percentage at the end of a top-up and at the end of
/// a withdrawal alike: where the stage settles, the pool of the depositor it
/// names holds the wrapper balance that the lending venue reported, and the
/// percentage zero where that balance is at or below the threshold.
pub proof fn lemma_dust_after_settling(store: StoreView, env: EnvView, id: u64, events: Seq<EventView>)
    requires
        id == REPLY_TOP_UP_SETTLED || id == REPLY_WITHDRAW_SETTLED,
        reply_spec(store, env, id, Some(events)).1 is Ok,
    ensures
        ({
            let after = reply_spec(store, env, id, Some(events)).0;
            let depositor = last_value(all_attributes(events), UST_DEPOSITOR@).unwrap();
            &&& after.pools.dom().contains(depositor)
            &&& after.pools[depositor].aust_amount <= store.config.unwrap().theta
                ==> after.pools[depositor].give_percentage == 0
        }),
{
}

} // verus!
