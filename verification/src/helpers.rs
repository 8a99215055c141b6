//! Checks on the coins sent with a call, the message that redeems wrapper
//! tokens, and the reading of an exchange rate.

use vstd::prelude::*;
use vstd::string::*;
use crate::error::{result_view, PaymentError, PaymentErrorView};
use crate::host::{no_coins, Coin, CoinView, MessageInfo, UUSD};
use crate::msg::{Cw20ExecuteMsg, Cw20ExecuteMsgView, Cw20HookMsg};
use crate::response::{Payload, PayloadView, WasmMsg, WasmMsgView};
use crate::text::same_text;

verus! {

/// The message that has the wrapper token send `aust_amount` tokens to the
/// lending venue, to be redeemed for stable coins.
pub open spec fn get_convert_to_ust_spec(
    anchor_market_address: Seq<char>,
    aust_token_address: Seq<char>,
    aust_amount: u64,
) -> WasmMsgView {
    WasmMsgView::Execute {
        contract_addr: aust_token_address,
        msg: PayloadView::Token(
            Cw20ExecuteMsgView::Send {
                contract: anchor_market_address,
                amount: aust_amount as u128,
                msg: Cw20HookMsg::RedeemStable {  },
            },
        ),
        funds: Seq::empty(),
    }
}

/// Builds the message that redeems `aust_amount` wrapper tokens.
pub fn get_convert_to_ust(
    anchor_market_address: String,
    aust_token_address: String,
    aust_amount: u64,
) -> (msg: WasmMsg)
    ensures
        msg.deep_view() == get_convert_to_ust_spec(
            anchor_market_address@,
            aust_token_address@,
            aust_amount,
        ),
{
    WasmMsg::Execute {
        contract_addr: aust_token_address,
        msg: Payload::Token(
            Cw20ExecuteMsg::Send {
                contract: anchor_market_address,
                amount: aust_amount as u128,
                msg: Cw20HookMsg::RedeemStable {  },
            },
        ),
        funds: no_coins(),
    }
}

/// What a deposit's coins amount to: exactly one coin, of the accepted
/// denomination, of an amount above zero.
pub open spec fn check_funds_spec(funds: Seq<CoinView>) -> Result<u128, PaymentErrorView> {
    if funds.len() == 0 {
        Err(PaymentErrorView::NoFunds)
    } else if funds.len() == 1 {
        if funds[0].denom != UUSD@ {
            Err(PaymentErrorView::MissingDenom(funds[0].denom))
        } else if funds[0].amount == 0 {
            Err(PaymentErrorView::NoFunds)
        } else {
            Ok(funds[0].amount)
        }
    } else {
        Err(PaymentErrorView::MultipleDenoms)
    }
}

/// Checks the coins sent with a deposit and gives their amount.
pub fn check_funds(info: &MessageInfo) -> (res: Result<u128, PaymentError>)
    ensures
        result_view(res) == check_funds_spec(info.deep_view().funds),
{
    let ghost funds = info.funds.deep_view();
    if info.funds.len() == 0 {
        Err(PaymentError::NoFunds {  })
    } else if info.funds.len() == 1 {
        let coin = &info.funds[0];
        assert(funds[0] == coin.deep_view());
        if !same_text(coin.denom.as_str(), UUSD) {
            Err(PaymentError::MissingDenom(coin.denom.clone()))
        } else if coin.amount == 0 {
            Err(PaymentError::NoFunds {  })
        } else {
            Ok(coin.amount)
        }
    } else {
        Err(PaymentError::MultipleDenoms {  })
    }
}

/// The one coin that was sent, whatever its denomination, if its amount is above zero.
pub open spec fn one_coin_spec(funds: Seq<CoinView>) -> Result<CoinView, PaymentErrorView> {
    if funds.len() == 0 {
        Err(PaymentErrorView::NoFunds)
    } else if funds.len() == 1 {
        if funds[0].amount == 0 {
            Err(PaymentErrorView::NoFunds)
        } else {
            Ok(funds[0])
        }
    } else {
        Err(PaymentErrorView::MultipleDenoms)
    }
}

/// Gives the one coin that was sent, whatever its denomination.
pub fn one_coin(info: &MessageInfo) -> (res: Result<Coin, PaymentError>)
    ensures
        result_view(res) == one_coin_spec(info.deep_view().funds),
{
    let ghost funds = info.funds.deep_view();
    if info.funds.len() == 0 {
        Err(PaymentError::NoFunds {  })
    } else if info.funds.len() == 1 {
        let coin = &info.funds[0];
        assert(funds[0] == coin.deep_view());
        if coin.amount == 0 {
            Err(PaymentError::NoFunds {  })
        } else {
            Ok(coin.clone())
        }
    } else {
        Err(PaymentError::MultipleDenoms {  })
    }
}

/// The amount of the one coin that was sent, if it is of `denom`.
pub open spec fn must_pay_spec(funds: Seq<CoinView>, denom: Seq<char>) -> Result<
    u128,
    PaymentErrorView,
> {
    match one_coin_spec(funds) {
        Err(e) => Err(e),
        Ok(coin) => if coin.denom != denom {
            Err(PaymentErrorView::MissingDenom(denom))
        } else {
            Ok(coin.amount)
        },
    }
}

/// Checks that exactly one coin was sent and that it is of `denom`, and gives its amount.
pub fn must_pay(info: &MessageInfo, denom: &str) -> (res: Result<u128, PaymentError>)
    ensures
        result_view(res) == must_pay_spec(info.deep_view().funds, denom@),
{
    match one_coin(info) {
        Err(e) => Err(e),
        Ok(coin) => {
            if !same_text(coin.denom.as_str(), denom) {
                Err(PaymentError::MissingDenom(denom.to_owned()))
            } else {
                Ok(coin.amount)
            }
        },
    }
}

/// How far the reading of a decimal number has come.
pub ghost struct RateReading {
    /// The digits taken so far, as one number.
    pub value: nat,
    /// Whether a separator was seen.
    pub dot: bool,
    /// How many digits were taken after the first separator.
    pub below: nat,
}

/// Reading one more byte: a byte below `'0'` is a separator; any other byte
/// is taken as a digit, unless six were already taken after a separator.
pub open spec fn rate_step(state: RateReading, byte: u8) -> RateReading {
    if byte < 48 {
        RateReading { dot: true, ..state }
    } else if state.below < 6 {
        RateReading {
            value: state.value * 10 + (byte - 48) as nat,
            dot: state.dot,
            below: if state.dot {
                state.below + 1
            } else {
                state.below
            },
        }
    } else {
        state
    }
}

/// Reading all of `bytes`, first to last.
pub open spec fn rate_reading(bytes: Seq<u8>) -> RateReading
    decreases bytes.len(),
{
    if bytes.len() == 0 {
        RateReading { value: 0, dot: false, below: 0 }
    } else {
        rate_step(rate_reading(bytes.drop_last()), bytes.last())
    }
}

/// A decimal text as a whole number of millionths: its digits up to the
/// sixth behind the separator, read as one number. A text with fewer than six
/// digits behind the separator is not scaled up.
pub open spec fn convert_str_int_spec(bytes: Seq<u8>) -> nat {
    rate_reading(bytes).value
}

/// What was read of a prefix is at most what is read of the whole.
proof fn lemma_rate_reading_grows(bytes: Seq<u8>, k: int)
    requires
        0 <= k <= bytes.len(),
    ensures
        rate_reading(bytes.subrange(0, k)).value <= rate_reading(bytes).value,
    decreases bytes.len(),
{
    if k == bytes.len() {
        assert(bytes.subrange(0, k) =~= bytes);
    } else {
        lemma_rate_reading_grows(bytes.drop_last(), k);
        assert(bytes.drop_last().subrange(0, k) =~= bytes.subrange(0, k));
    }
}

/// Reads a decimal text as a whole number of millionths. The number must fit in 128 bits.
pub fn convert_str_int(str: String) -> (res: u128)
    requires
        convert_str_int_spec(vstd::utf8::encode_utf8(str@)) <= u128::MAX,
    ensures
        res == convert_str_int_spec(vstd::utf8::encode_utf8(str@)),
{
    let bytes = str.as_str().as_bytes();
    let mut res: u128 = 0;
    let mut dot = false;
    let mut dotbelow: u8 = 0;
    let mut i: usize = 0;
    assert(bytes@.subrange(0, 0) =~= Seq::<u8>::empty());
    while i < bytes.len()
        invariant
            i <= bytes.len(),
            rate_reading(bytes@).value <= u128::MAX,
            dotbelow <= 6,
            rate_reading(bytes@.subrange(0, i as int)) == (RateReading {
                value: res as nat,
                dot,
                below: dotbelow as nat,
            }),
        decreases bytes.len() - i,
    {
        let b: u8 = bytes[i];
        proof {
            assert(bytes@.subrange(0, i + 1).drop_last() =~= bytes@.subrange(0, i as int));
            lemma_rate_reading_grows(bytes@, i + 1);
        }
        if b < 48 {
            dot = true;
        } else if dotbelow < 6 {
            res = res * 10 + (b - 48) as u128;
            if dot {
                dotbelow = dotbelow + 1;
            }
        }
        i = i + 1;
    }
    assert(bytes@.subrange(0, i as int) =~= bytes@);
    res
}

} // verus!
