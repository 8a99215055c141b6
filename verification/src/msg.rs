//! The messages that the contract takes, and those it sends to the lending
//! venue and to the wrapper token.

use vstd::prelude::*;
use vstd::string::*;
use crate::state::{Config, ConfigView};

verus! {

/// What the contract is set up with.
#[derive(Debug, Clone, PartialEq, Eq)]
pub struct InstantiateMsg {
    pub admin: String,
    pub charity_address: String,
    pub anchor_market_address: String,
    pub aust_token_address: String,
    pub theta: u64,
}

/// An [`InstantiateMsg`] with its identities as sequences of characters.
pub ghost struct InstantiateMsgView {
    pub admin: Seq<char>,
    pub charity_address: Seq<char>,
    pub anchor_market_address: Seq<char>,
    pub aust_token_address: Seq<char>,
    pub theta: u64,
}

impl DeepView for InstantiateMsg {
    type V = InstantiateMsgView;

    open spec fn deep_view(&self) -> InstantiateMsgView {
        InstantiateMsgView {
            admin: self.admin@,
            charity_address: self.charity_address@,
            anchor_market_address: self.anchor_market_address@,
            aust_token_address: self.aust_token_address@,
            theta: self.theta,
        }
    }
}

/// A call to the contract. The first three are open to everyone; the
/// `Internal` ones continue a saga and are for the contract itself only.
#[derive(Debug, Clone, PartialEq, Eq)]
#[allow(inconsistent_fields)]
pub enum ExecuteMsg {
    UpdateConfig(Config),
    DepositPool { percentage: u16 },
    WithdrawPool { withdraw_amount: u128 },
    InternalDepositInitial { ust_sent: u128, percentage: u16, depositor: String },
    InternalDepositMore { ust_sent: u128, aust_amount: u64, percentage: u16, depositor: String },
    InternalSwapBackUpdate {
        to_angel: u64,
        charity_address: String,
        ust_amount: u64,
        new_percentage: u16,
        depositor: String,
    },
    InternalWithdrawInitial {
        withdraw_amount: u128,
        aust_amount: u64,
        ust_amount: u64,
        percentage: u16,
        depositor: String,
    },
    InternalWithdrawSend {
        withdraw_amount: u64,
        new_ust_amount: u64,
        to_angel_amount: u64,
        ust_depositor: String,
        charity_address: String,
    },
}

/// An [`ExecuteMsg`] with its identities as sequences of characters.
#[allow(inconsistent_fields)]
pub ghost enum ExecuteMsgView {
    UpdateConfig(ConfigView),
    DepositPool { percentage: u16 },
    WithdrawPool { withdraw_amount: u128 },
    InternalDepositInitial { ust_sent: u128, percentage: u16, depositor: Seq<char> },
    InternalDepositMore { ust_sent: u128, aust_amount: u64, percentage: u16, depositor: Seq<char> },
    InternalSwapBackUpdate {
        to_angel: u64,
        charity_address: Seq<char>,
        ust_amount: u64,
        new_percentage: u16,
        depositor: Seq<char>,
    },
    InternalWithdrawInitial {
        withdraw_amount: u128,
        aust_amount: u64,
        ust_amount: u64,
        percentage: u16,
        depositor: Seq<char>,
    },
    InternalWithdrawSend {
        withdraw_amount: u64,
        new_ust_amount: u64,
        to_angel_amount: u64,
        ust_depositor: Seq<char>,
        charity_address: Seq<char>,
    },
}

impl DeepView for ExecuteMsg {
    type V = ExecuteMsgView;

    open spec fn deep_view(&self) -> ExecuteMsgView {
        match self {
            ExecuteMsg::UpdateConfig(config) => ExecuteMsgView::UpdateConfig(config.deep_view()),
            ExecuteMsg::DepositPool { percentage } => ExecuteMsgView::DepositPool {
                percentage: *percentage,
            },
            ExecuteMsg::WithdrawPool { withdraw_amount } => ExecuteMsgView::WithdrawPool {
                withdraw_amount: *withdraw_amount,
            },
            ExecuteMsg::InternalDepositInitial {
                ust_sent,
                percentage,
                depositor,
            } => ExecuteMsgView::InternalDepositInitial {
                ust_sent: *ust_sent,
                percentage: *percentage,
                depositor: depositor@,
            },
            ExecuteMsg::InternalDepositMore {
                ust_sent,
                aust_amount,
                percentage,
                depositor,
            } => ExecuteMsgView::InternalDepositMore {
                ust_sent: *ust_sent,
                aust_amount: *aust_amount,
                percentage: *percentage,
                depositor: depositor@,
            },
            ExecuteMsg::InternalSwapBackUpdate {
                to_angel,
                charity_address,
                ust_amount,
                new_percentage,
                depositor,
            } => ExecuteMsgView::InternalSwapBackUpdate {
                to_angel: *to_angel,
                charity_address: charity_address@,
                ust_amount: *ust_amount,
                new_percentage: *new_percentage,
                depositor: depositor@,
            },
            ExecuteMsg::InternalWithdrawInitial {
                withdraw_amount,
                aust_amount,
                ust_amount,
                percentage,
                depositor,
            } => ExecuteMsgView::InternalWithdrawInitial {
                withdraw_amount: *withdraw_amount,
                aust_amount: *aust_amount,
                ust_amount: *ust_amount,
                percentage: *percentage,
                depositor: depositor@,
            },
            ExecuteMsg::InternalWithdrawSend {
                withdraw_amount,
                new_ust_amount,
                to_angel_amount,
                ust_depositor,
                charity_address,
            } => ExecuteMsgView::InternalWithdrawSend {
                withdraw_amount: *withdraw_amount,
                new_ust_amount: *new_ust_amount,
                to_angel_amount: *to_angel_amount,
                ust_depositor: ust_depositor@,
                charity_address: charity_address@,
            },
        }
    }
}

/// A call to the lending venue.
#[derive(Debug, Clone, Copy, PartialEq, Eq)]
pub enum AnchorExecuteMsg {
    /// Deposit the stable coins sent along; the venue mints wrapper tokens for them.
    DepositStable {  },
}

/// What the lending venue does with wrapper tokens that are sent to it.
#[derive(Debug, Clone, Copy, PartialEq, Eq)]
pub enum Cw20HookMsg {
    /// Redeem them for stable coins, at the current exchange rate.
    RedeemStable {  },
}

/// A call to the wrapper token.
#[derive(Debug, Clone, PartialEq, Eq)]
pub enum Cw20ExecuteMsg {
    /// Move `amount` tokens to `recipient`.
    Transfer { recipient: String, amount: u128 },
    /// Move `amount` tokens to `contract` and have it act on `msg`.
    Send { contract: String, amount: u128, msg: Cw20HookMsg },
}

/// A [`Cw20ExecuteMsg`] with its identities as sequences of characters.
pub ghost enum Cw20ExecuteMsgView {
    Transfer { recipient: Seq<char>, amount: u128 },
    Send { contract: Seq<char>, amount: u128, msg: Cw20HookMsg },
}

impl DeepView for Cw20ExecuteMsg {
    type V = Cw20ExecuteMsgView;

    open spec fn deep_view(&self) -> Cw20ExecuteMsgView {
        match self {
            Cw20ExecuteMsg::Transfer { recipient, amount } => Cw20ExecuteMsgView::Transfer {
                recipient: recipient@,
                amount: *amount,
            },
            Cw20ExecuteMsg::Send { contract, amount, msg } => Cw20ExecuteMsgView::Send {
                contract: contract@,
                amount: *amount,
                msg: *msg,
            },
        }
    }
}

/// A question to the contract.
#[derive(Debug, Clone, PartialEq, Eq)]
pub enum QueryMsg {
    /// The pool of `address`.
    DepositInfo { address: String },
}

/// A [`QueryMsg`] with its identity as a sequence of characters.
pub ghost enum QueryMsgView {
    DepositInfo { address: Seq<char> },
}

impl DeepView for QueryMsg {
    type V = QueryMsgView;

    open spec fn deep_view(&self) -> QueryMsgView {
        match self {
            QueryMsg::DepositInfo { address } => QueryMsgView::DepositInfo { address: address@ },
        }
    }
}

} // verus!
