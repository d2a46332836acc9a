//! Big-endian numbers and byte comparison.

use vstd::prelude::*;

verus! {

/// 256 raised to `n`.
pub open spec fn radix_pow(n: nat) -> nat
    decreases n,
{
    if n == 0 {
        1
    } else {
        256 * radix_pow((n - 1) as nat)
    }
}

/// The number that `bytes` denote, most significant byte first.
pub open spec fn be_value(bytes: Seq<u8>) -> nat
    decreases bytes.len(),
{
    if bytes.len() == 0 {
        0
    } else {
        256 * be_value(bytes.drop_last()) + bytes.last() as nat
    }
}

/// The last `width` base-256 digits of `value`, most significant first.
pub open spec fn be_bytes(value: nat, width: nat) -> Seq<u8>
    decreases width,
{
    if width == 0 {
        Seq::empty()
    } else {
        be_bytes(value / 256, (width - 1) as nat).push((value % 256) as u8)
    }
}

pub proof fn lemma_be_bytes_len(value: nat, width: nat)
    ensures
        be_bytes(value, width).len() == width,
    decreases width,
{
    if width > 0 {
        lemma_be_bytes_len(value / 256, (width - 1) as nat);
    }
}

pub proof fn lemma_be_value_bound(bytes: Seq<u8>)
    ensures
        be_value(bytes) < radix_pow(bytes.len()),
    decreases bytes.len(),
{
    if bytes.len() > 0 {
        lemma_be_value_bound(bytes.drop_last());
    }
}

/// Writing a number and reading it back gives the number.
pub proof fn lemma_be_value_of_bytes(value: nat, width: nat)
    requires
        value < radix_pow(width),
    ensures
        be_value(be_bytes(value, width)) == value,
    decreases width,
{
    if width > 0 {
        let rest = (width - 1) as nat;
        lemma_be_value_of_bytes(value / 256, rest);
        assert(be_bytes(value, width).drop_last() =~= be_bytes(value / 256, rest));
    }
}

/// Reading bytes and writing the number back gives the bytes.
pub proof fn lemma_be_bytes_of_value(bytes: Seq<u8>)
    ensures
        be_bytes(be_value(bytes), bytes.len()) == bytes,
    decreases bytes.len(),
{
    if bytes.len() > 0 {
        lemma_be_bytes_of_value(bytes.drop_last());
        assert(bytes.drop_last().push(bytes.last()) =~= bytes);
    } else {
        assert(bytes =~= Seq::empty());
    }
}

/// Reads the big-endian number of `width` bytes that starts at `start`.
pub fn read_be(bytes: &[u8], start: usize, width: usize) -> (value: u64)
    requires
        start + width <= bytes@.len(),
        width <= 8,
    ensures
        value == be_value(bytes@.subrange(start as int, start + width)),
{
    let mut value: u64 = 0;
    let mut i: usize = 0;
    proof {
        reveal_with_fuel(radix_pow, 9);
        assert(bytes@.subrange(start as int, start as int) =~= Seq::empty());
    }
    while i < width
        invariant
            i <= width <= 8,
            start + width <= bytes@.len(),
            value == be_value(bytes@.subrange(start as int, start + i)),
        decreases width - i,
    {
        proof {
            let next = bytes@.subrange(start as int, start + i + 1);
            assert(next.drop_last() =~= bytes@.subrange(start as int, start + i));
            lemma_be_value_bound(next);
            reveal_with_fuel(radix_pow, 9);
        }
        assert(bytes.len() == bytes@.len());
        value = value * 256 + bytes[start + i] as u64;
        i = i + 1;
    }
    value
}

/// Appends the low `width` bytes of `value`, most significant first.
pub fn push_be(out: &mut Vec<u8>, value: u64, width: usize)
    ensures
        final(out)@ == old(out)@ + be_bytes(value as nat, width as nat),
    decreases width,
{
    if width > 0 {
        push_be(out, value / 256, width - 1);
        out.push((value % 256) as u8);
        assert(out@ =~= old(out)@ + be_bytes(value as nat, width as nat));
    } else {
        assert(out@ =~= old(out)@ + be_bytes(value as nat, width as nat));
    }
}

/// Tells whether two byte strings are equal.
pub fn same_bytes(left: &[u8], right: &[u8]) -> (same: bool)
    ensures
        same == (left@ == right@),
{
    if left.len() != right.len() {
        return false;
    }
    let mut i: usize = 0;
    while i < left.len()
        invariant
            i <= left@.len(),
            left@.len() == right@.len(),
            forall|j: int| 0 <= j < i ==> left@[j] == right@[j],
        decreases left@.len() - i,
    {
        if left[i] != right[i] {
            return false;
        }
        i = i + 1;
    }
    assert(left@ =~= right@);
    true
}

/// Tells whether two byte strings are equal, in a time that does not depend on where they differ:
/// every difference is gathered before the answer.
pub fn same_secret(left: &[u8], right: &[u8]) -> (same: bool)
    ensures
        same == (left@ == right@),
{
    if left.len() != right.len() {
        return false;
    }
    let mut difference: u8 = 0;
    let mut i: usize = 0;
    while i < left.len()
        invariant
            i <= left@.len(),
            left@.len() == right@.len(),
            difference == 0 <==> forall|j: int| 0 <= j < i ==> left@[j] == right@[j],
        decreases left@.len() - i,
    {
        let one: u8 = left[i];
        let other: u8 = right[i];
        assert((difference | (one ^ other)) == 0 <==> (difference == 0 && one == other))
            by (bit_vector);
        difference = difference | (one ^ other);
        i = i + 1;
    }
    proof {
        if difference == 0 {
            assert(left@ =~= right@);
        }
    }
    difference == 0
}

/// Every byte is zero.
pub open spec fn all_zero(bytes: Seq<u8>) -> bool {
    forall|i: int| 0 <= i < bytes.len() ==> bytes[i] == 0
}

/// Tells whether every byte is zero.
pub fn is_all_zero(bytes: &[u8]) -> (zero: bool)
    ensures
        zero == all_zero(bytes@),
{
    let mut i: usize = 0;
    while i < bytes.len()
        invariant
            i <= bytes@.len(),
            forall|j: int| 0 <= j < i ==> bytes@[j] == 0,
        decreases bytes@.len() - i,
    {
        if bytes[i] != 0 {
            return false;
        }
        i = i + 1;
    }
    true
}

/// Copies the 32 bytes that start at `start`.
pub fn copy_32(bytes: &[u8], start: usize) -> (out: [u8; 32])
    requires
        start + 32 <= bytes@.len(),
    ensures
        out@ == bytes@.subrange(start as int, start + 32),
{
    let mut out: [u8; 32] = [0; 32];
    let mut i: usize = 0;
    while i < 32
        invariant
            i <= 32,
            start + 32 <= bytes@.len(),
            out@.len() == 32,
            forall|j: int| 0 <= j < i ==> out@[j] == bytes@[start + j],
        decreases 32 - i,
    {
        assert(bytes.len() == bytes@.len());
        out[i] = bytes[start + i];
        i = i + 1;
    }
    assert(out@ =~= bytes@.subrange(start as int, start + 32));
    out
}

/// Copies the 16 bytes that start at `start`.
pub fn copy_16(bytes: &[u8], start: usize) -> (out: [u8; 16])
    requires
        start + 16 <= bytes@.len(),
    ensures
        out@ == bytes@.subrange(start as int, start + 16),
{
    let mut out: [u8; 16] = [0; 16];
    let mut i: usize = 0;
    while i < 16
        invariant
            i <= 16,
            start + 16 <= bytes@.len(),
            out@.len() == 16,
            forall|j: int| 0 <= j < i ==> out@[j] == bytes@[start + j],
        decreases 16 - i,
    {
        assert(bytes.len() == bytes@.len());
        out[i] = bytes[start + i];
        i = i + 1;
    }
    assert(out@ =~= bytes@.subrange(start as int, start + 16));
    out
}

/// The bytes of a number stand most significant first: what stands before the last `right.len()`
/// bytes counts as many times 256, and one byte counts for itself.
pub proof fn law_first_bytes_weigh_most(left: Seq<u8>, right: Seq<u8>, byte: u8)
    ensures
        be_value(left + right) == be_value(left) * radix_pow(right.len()) + be_value(right),
        be_value(seq![byte]) == byte,
        be_value(Seq::empty()) == 0,
        radix_pow(0) == 1,
        radix_pow(right.len() + 1) == 256 * radix_pow(right.len()),
    decreases right.len(),
{
    reveal_with_fuel(be_value, 2);
    assert(seq![byte].drop_last() =~= Seq::<u8>::empty());
    if right.len() == 0 {
        assert(left + right =~= left);
        assert(be_value(left) * 1 == be_value(left)) by (nonlinear_arith);
    } else {
        let rest = right.drop_last();
        law_first_bytes_weigh_most(left, rest, byte);
        assert((left + right).drop_last() =~= left + rest);
        let weight = radix_pow(rest.len());
        let head = be_value(left);
        assert(256 * (head * weight) == head * (256 * weight)) by (nonlinear_arith);
    }
}

/// A number that fits is written with exactly its width and read back as itself, and no other
/// bytes of that width give it.
pub proof fn law_numbers_are_read_back(value: nat, width: nat, other: Seq<u8>)
    requires
        value < radix_pow(width),
    ensures
        be_bytes(value, width).len() == width,
        be_value(be_bytes(value, width)) == value,
        other.len() == width && be_value(other) == value ==> other == be_bytes(value, width),
{
    lemma_be_bytes_len(value, width);
    lemma_be_value_of_bytes(value, width);
    lemma_be_bytes_of_value(other);
}

} // verus!
