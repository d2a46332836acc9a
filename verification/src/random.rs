//! Fresh random bytes.

use crate::bytes::{is_all_zero, read_be};
use vstd::prelude::*;

verus! {

/// Draws 32 bytes with `rand::random`.
///
/// Nothing is claimed of the bytes: they differ from call to call.
#[verifier::external_body]
pub(crate) fn random_32() -> (bytes: [u8; 32])
{
    rand::random::<[u8; 32]>()
}

/// The epoch that 32 drawn bytes give: their first eight as a number, and one in place of zero.
pub open spec fn epoch_of(drawn: Seq<u8>) -> nat {
    let value = crate::bytes::be_value(drawn.subrange(0, 8));
    if value == 0 {
        1
    } else {
        value
    }
}

/// Turns drawn bytes into a connection epoch, which is never zero.
pub fn epoch_from(drawn: &[u8; 32]) -> (epoch: u64)
    ensures
        epoch == epoch_of(drawn@),
        epoch > 0,
{
    let value: u64 = read_be(drawn, 0, 8);
    if value == 0 {
        1
    } else {
        value
    }
}

/// Draws a connection epoch.
pub fn fresh_epoch() -> (epoch: u64)
    ensures
        epoch > 0,
{
    let drawn = random_32();
    epoch_from(&drawn)
}

/// Turns drawn bytes into a challenge: themselves, with the first byte set to one if all are zero.
pub fn challenge_from(drawn: [u8; 32]) -> (challenge: [u8; 32])
    ensures
        !crate::bytes::all_zero(drawn@) ==> challenge == drawn,
        crate::bytes::all_zero(drawn@) ==> challenge@ == drawn@.update(0, 1),
        !crate::bytes::all_zero(challenge@),
{
    let mut challenge = drawn;
    if is_all_zero(&challenge) {
        challenge[0] = 1;
        assert(challenge@[0] == 1);
    }
    challenge
}

/// Draws a challenge.
pub fn fresh_challenge() -> (challenge: [u8; 32])
    ensures
        !crate::bytes::all_zero(challenge@),
{
    challenge_from(random_32())
}

/// An epoch is never zero, and it is the number of the first eight bytes unless that is zero. The
/// other bytes have no part in it.
pub proof fn law_epochs_are_the_first_bytes(drawn: Seq<u8>, other: Seq<u8>)
    requires
        drawn.len() == 32,
        other.len() == 32,
        drawn.subrange(0, 8) == other.subrange(0, 8),
    ensures
        epoch_of(drawn) > 0,
        epoch_of(drawn) == epoch_of(other),
        !crate::bytes::all_zero(drawn.subrange(0, 8)) ==> epoch_of(drawn)
            == crate::bytes::be_value(drawn.subrange(0, 8)),
        crate::bytes::all_zero(drawn.subrange(0, 8)) ==> epoch_of(drawn) == 1,
{
    let first = drawn.subrange(0, 8);
    if crate::bytes::all_zero(first) {
        lemma_zero_value(first);
    } else if crate::bytes::be_value(first) == 0 {
        crate::bytes::lemma_be_bytes_of_value(first);
        let zero = Seq::new(8, |i: int| 0u8);
        lemma_zero_value(zero);
        crate::bytes::lemma_be_bytes_of_value(zero);
        assert(first == zero);
    }
}

/// Bytes that are all zero give zero.
proof fn lemma_zero_value(bytes: Seq<u8>)
    requires
        crate::bytes::all_zero(bytes),
    ensures
        crate::bytes::be_value(bytes) == 0,
    decreases bytes.len(),
{
    if bytes.len() > 0 {
        assert(crate::bytes::all_zero(bytes.drop_last()));
        lemma_zero_value(bytes.drop_last());
    }
}

} // verus!
