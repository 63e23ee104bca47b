//! The three cards that a public mint hands out.

use vstd::prelude::*;

verus! {

/// The metadata pointer of the dragon card.
pub const DRAGON_URI: &'static str = "ipfs://QmUYrFddXf4SpEXWAp6RpSm6XZmwxiDRKLNixt58nuhwAo";

/// The metadata pointer of the mage card.
pub const MAGE_URI: &'static str = "ipfs://QmbZEqRXpz35zfXkyhAoPAfZLZLZmr1rDSXKbtuS5UhNPm";

/// The metadata pointer of the warrior card.
pub const WARRIOR_URI: &'static str = "ipfs://QmdwASjP4qiyhvn6vJrDr2P3sudJ45KLtiariQmdqQAG9g";

/// The text of the metadata pointer that a public mint gives to token
/// `token_id`: the three cards in turn, dragon, mage, warrior, by the
/// remainder of the token's number modulo three.
pub open spec fn card_text(token_id: u64) -> Seq<char> {
    if token_id % 3 == 0 {
        DRAGON_URI@
    } else if token_id % 3 == 1 {
        MAGE_URI@
    } else {
        WARRIOR_URI@
    }
}

/// The metadata pointer that a public mint gives to token `token_id`.
pub fn card_uri(token_id: u64) -> (r: &'static str)
    ensures
        r@ == card_text(token_id),
        token_id % 3 == 0 ==> r@ == DRAGON_URI@,
        token_id % 3 == 1 ==> r@ == MAGE_URI@,
        token_id % 3 == 2 ==> r@ == WARRIOR_URI@,
{
    let remainder: u64 = token_id % 3;
    if remainder == 0 {
        DRAGON_URI
    } else if remainder == 1 {
        MAGE_URI
    } else {
        WARRIOR_URI
    }
}

/// The cards come round: a token has the card of the token three numbers
/// before it.
pub proof fn lemma_cards_come_round(token_id: u64)
    requires
        token_id + 3 <= u64::MAX,
    ensures
        card_text((token_id + 3) as u64) == card_text(token_id),
{
}

} // verus!
