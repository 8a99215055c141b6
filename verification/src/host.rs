//! What the chain hands to an entry point: the coins sent, who sent them, and
//! the contract's own identity.

use vstd::prelude::*;
use vstd::string::*;

verus! {

/// The one denomination that deposits are made in.
pub const UUSD: &'static str = "uusd";

/// An amount of one denomination.
#[derive(Debug, PartialEq, Eq)]
pub struct Coin {
    pub denom: String,
    pub amount: u128,
}

/// A [`Coin`] with its denomination as a sequence of characters.
pub ghost struct CoinView {
    pub denom: Seq<char>,
    pub amount: u128,
}

impl DeepView for Coin {
    type V = CoinView;

    open spec fn deep_view(&self) -> CoinView {
        CoinView { denom: self.denom@, amount: self.amount }
    }
}

impl Clone for Coin {
    fn clone(&self) -> (copy: Self)
        ensures
            copy.deep_view() == self.deep_view(),
    {
        Coin { denom: self.denom.clone(), amount: self.amount }
    }
}

/// The coin of `amount` units of `denom`.
pub fn coin(amount: u128, denom: &str) -> (c: Coin)
    ensures
        c.deep_view() == (CoinView { denom: denom@, amount }),
{
    Coin { denom: denom.to_owned(), amount }
}

/// The list that holds the one coin of `amount` units of `denom`.
pub fn coins(amount: u128, denom: &str) -> (list: Vec<Coin>)
    ensures
        list.deep_view() == seq![CoinView { denom: denom@, amount }],
{
    let list = vec![coin(amount, denom)];
    assert(list.deep_view() =~= seq![CoinView { denom: denom@, amount }]);
    list
}

/// The empty list of coins.
pub fn no_coins() -> (list: Vec<Coin>)
    ensures
        list.deep_view() == Seq::<CoinView>::empty(),
{
    let list: Vec<Coin> = Vec::new();
    assert(list.deep_view() =~= Seq::<CoinView>::empty());
    list
}

/// Who makes a call, and the coins sent with it.
#[derive(Debug, Clone, PartialEq, Eq)]
pub struct MessageInfo {
    pub sender: String,
    pub funds: Vec<Coin>,
}

/// A [`MessageInfo`] with its texts as sequences of characters.
pub ghost struct MessageInfoView {
    pub sender: Seq<char>,
    pub funds: Seq<CoinView>,
}

impl DeepView for MessageInfo {
    type V = MessageInfoView;

    open spec fn deep_view(&self) -> MessageInfoView {
        MessageInfoView { sender: self.sender@, funds: self.funds.deep_view() }
    }
}

/// The call that is being served: the identity of the contract that serves it.
#[derive(Debug, Clone, PartialEq, Eq)]
pub struct Env {
    pub contract_address: String,
}

/// An [`Env`] with its text as a sequence of characters.
pub ghost struct EnvView {
    pub contract_address: Seq<char>,
}

impl DeepView for Env {
    type V = EnvView;

    open spec fn deep_view(&self) -> EnvView {
        EnvView { contract_address: self.contract_address@ }
    }
}

} // verus!
