//! The keys of the attributes through which the stages of a saga hand
//! values on.

use vstd::prelude::*;

verus! {

/// The depositor whose saga it is.
pub const UST_DEPOSITOR: &'static str = "ust_depositor";

/// The donation percentage that a deposit asks for.
pub const PERCENTAGE: &'static str = "percentage";

/// The stable coins that came with a top-up.
pub const UST_SENT: &'static str = "ust_sent";

/// The charity's cut.
pub const TO_ANGEL: &'static str = "to_angel";

/// The percentage that a topped-up pool carries.
pub const NEW_PERCENTAGE: &'static str = "new_percentage";

/// The amount that a withdrawal asks for.
pub const WITHDRAW_AMOUNT: &'static str = "withdraw_amount";

/// A pool's principal.
pub const UST_AMOUNT: &'static str = "ust_amount";

/// A pool's balance of wrapper tokens.
pub const AUST_AMOUNT: &'static str = "aust_amount";

/// A pool's donation percentage.
pub const GIVE_PERCENTAGE: &'static str = "give_percentage";

/// The stable coins that the lending venue took in; the venue reports it.
pub const DEPOSIT_AMOUNT: &'static str = "deposit_amount";

/// The wrapper tokens that the lending venue minted; the venue reports it.
pub const MINT_AMOUNT: &'static str = "mint_amount";

/// The stable coins that the lending venue paid out; the venue reports it.
pub const REDEEM_AMOUNT: &'static str = "redeem_amount";

/// The entry point that answered.
pub const METHOD: &'static str = "method";

/// The value under [`METHOD`] when the contract was set up.
pub const INSTANTIATE: &'static str = "instantiate";

/// Whether `key` is one of the keys under which a reply handler reads.
pub open spec fn is_saga_key(key: Seq<char>) -> bool {
    ||| key == UST_DEPOSITOR@
    ||| key == PERCENTAGE@
    ||| key == UST_SENT@
    ||| key == TO_ANGEL@
    ||| key == NEW_PERCENTAGE@
    ||| key == WITHDRAW_AMOUNT@
    ||| key == UST_AMOUNT@
    ||| key == DEPOSIT_AMOUNT@
    ||| key == MINT_AMOUNT@
    ||| key == REDEEM_AMOUNT@
}

/// The keys under which the proxy reports and those under which the lending
/// venue reports are different texts, each from each.
pub proof fn lemma_keys_differ()
    ensures
        UST_DEPOSITOR@ != PERCENTAGE@,
        UST_DEPOSITOR@ != UST_SENT@,
        UST_DEPOSITOR@ != TO_ANGEL@,
        UST_DEPOSITOR@ != NEW_PERCENTAGE@,
        UST_DEPOSITOR@ != WITHDRAW_AMOUNT@,
        UST_DEPOSITOR@ != UST_AMOUNT@,
        UST_DEPOSITOR@ != AUST_AMOUNT@,
        UST_DEPOSITOR@ != DEPOSIT_AMOUNT@,
        UST_DEPOSITOR@ != MINT_AMOUNT@,
        UST_DEPOSITOR@ != REDEEM_AMOUNT@,
        PERCENTAGE@ != UST_SENT@,
        PERCENTAGE@ != TO_ANGEL@,
        PERCENTAGE@ != NEW_PERCENTAGE@,
        PERCENTAGE@ != WITHDRAW_AMOUNT@,
        PERCENTAGE@ != UST_AMOUNT@,
        PERCENTAGE@ != AUST_AMOUNT@,
        PERCENTAGE@ != DEPOSIT_AMOUNT@,
        PERCENTAGE@ != MINT_AMOUNT@,
        PERCENTAGE@ != REDEEM_AMOUNT@,
        UST_SENT@ != TO_ANGEL@,
        UST_SENT@ != NEW_PERCENTAGE@,
        UST_SENT@ != WITHDRAW_AMOUNT@,
        UST_SENT@ != UST_AMOUNT@,
        UST_SENT@ != AUST_AMOUNT@,
        UST_SENT@ != DEPOSIT_AMOUNT@,
        UST_SENT@ != MINT_AMOUNT@,
        UST_SENT@ != REDEEM_AMOUNT@,
        TO_ANGEL@ != NEW_PERCENTAGE@,
        TO_ANGEL@ != WITHDRAW_AMOUNT@,
        TO_ANGEL@ != UST_AMOUNT@,
        TO_ANGEL@ != AUST_AMOUNT@,
        TO_ANGEL@ != DEPOSIT_AMOUNT@,
        TO_ANGEL@ != MINT_AMOUNT@,
        TO_ANGEL@ != REDEEM_AMOUNT@,
        NEW_PERCENTAGE@ != WITHDRAW_AMOUNT@,
        NEW_PERCENTAGE@ != UST_AMOUNT@,
        NEW_PERCENTAGE@ != AUST_AMOUNT@,
        NEW_PERCENTAGE@ != DEPOSIT_AMOUNT@,
        NEW_PERCENTAGE@ != MINT_AMOUNT@,
        NEW_PERCENTAGE@ != REDEEM_AMOUNT@,
        WITHDRAW_AMOUNT@ != UST_AMOUNT@,
        WITHDRAW_AMOUNT@ != AUST_AMOUNT@,
        WITHDRAW_AMOUNT@ != DEPOSIT_AMOUNT@,
        WITHDRAW_AMOUNT@ != MINT_AMOUNT@,
        WITHDRAW_AMOUNT@ != REDEEM_AMOUNT@,
        UST_AMOUNT@ != AUST_AMOUNT@,
        UST_AMOUNT@ != DEPOSIT_AMOUNT@,
        UST_AMOUNT@ != MINT_AMOUNT@,
        UST_AMOUNT@ != REDEEM_AMOUNT@,
        AUST_AMOUNT@ != DEPOSIT_AMOUNT@,
        AUST_AMOUNT@ != MINT_AMOUNT@,
        AUST_AMOUNT@ != REDEEM_AMOUNT@,
        DEPOSIT_AMOUNT@ != MINT_AMOUNT@,
        DEPOSIT_AMOUNT@ != REDEEM_AMOUNT@,
        MINT_AMOUNT@ != REDEEM_AMOUNT@,
{
    reveal_strlit("ust_depositor");
    reveal_strlit("percentage");
    reveal_strlit("ust_sent");
    reveal_strlit("to_angel");
    reveal_strlit("new_percentage");
    reveal_strlit("withdraw_amount");
    reveal_strlit("ust_amount");
    reveal_strlit("aust_amount");
    reveal_strlit("deposit_amount");
    reveal_strlit("mint_amount");
    reveal_strlit("redeem_amount");
    assert(UST_DEPOSITOR@.len() == 13 && UST_DEPOSITOR@[0] == 'u');
    assert(PERCENTAGE@.len() == 10 && PERCENTAGE@[0] == 'p');
    assert(UST_SENT@.len() == 8 && UST_SENT@[0] == 'u');
    assert(TO_ANGEL@.len() == 8 && TO_ANGEL@[0] == 't');
    assert(NEW_PERCENTAGE@.len() == 14 && NEW_PERCENTAGE@[0] == 'n');
    assert(WITHDRAW_AMOUNT@.len() == 15);
    assert(UST_AMOUNT@.len() == 10 && UST_AMOUNT@[0] == 'u');
    assert(AUST_AMOUNT@.len() == 11 && AUST_AMOUNT@[0] == 'a');
    assert(DEPOSIT_AMOUNT@.len() == 14 && DEPOSIT_AMOUNT@[0] == 'd');
    assert(MINT_AMOUNT@.len() == 11 && MINT_AMOUNT@[0] == 'm');
    assert(REDEEM_AMOUNT@.len() == 13 && REDEEM_AMOUNT@[0] == 'r');
}

} // verus!
