//! Characters, hexadecimal digits and session names.

use vstd::prelude::*;
use vstd::string::*;

verus! {

/// Calls `String::push`.
///
/// Claimed: the character is appended.
#[verifier::external_body]
pub(crate) fn push_char(text: &mut String, character: char)
    ensures
        final(text)@ == old(text)@.push(character),
{
    text.push(character)
}

/// The value of a lowercase hexadecimal digit.
pub open spec fn lower_nibble(digit: u8) -> Option<u8> {
    if 48 <= digit <= 57 {
        Some((digit - 48) as u8)
    } else if 97 <= digit <= 102 {
        Some((digit - 87) as u8)
    } else {
        None
    }
}

/// The value of a hexadecimal digit of either case.
pub open spec fn any_nibble(digit: u8) -> Option<u8> {
    if 65 <= digit <= 70 {
        Some((digit - 55) as u8)
    } else {
        lower_nibble(digit)
    }
}

/// Reads a lowercase hexadecimal digit.
pub fn read_lower_nibble(digit: u8) -> (value: Option<u8>)
    ensures
        value == lower_nibble(digit),
{
    if 48 <= digit && digit <= 57 {
        Some(digit - 48)
    } else if 97 <= digit && digit <= 102 {
        Some(digit - 87)
    } else {
        None
    }
}

/// Reads a hexadecimal digit of either case.
pub fn read_any_nibble(digit: u8) -> (value: Option<u8>)
    ensures
        value == any_nibble(digit),
{
    if 65 <= digit && digit <= 70 {
        Some(digit - 55)
    } else {
        read_lower_nibble(digit)
    }
}

/// Every digit is hexadecimal.
pub open spec fn all_hex(digits: Seq<u8>, lower_only: bool) -> bool {
    forall|i: int|
        0 <= i < digits.len() ==> nibble(#[trigger] digits[i], lower_only) is Some
}

/// The value of a digit, lowercase only or of either case.
pub open spec fn nibble(digit: u8, lower_only: bool) -> Option<u8> {
    if lower_only {
        lower_nibble(digit)
    } else {
        any_nibble(digit)
    }
}

/// The bytes that pairs of digits denote.
pub open spec fn hex_bytes(digits: Seq<u8>, lower_only: bool) -> Seq<u8> {
    Seq::new(
        digits.len() / 2,
        |i: int|
            (16 * nibble(digits[2 * i], lower_only)->Some_0 + nibble(
                digits[2 * i + 1],
                lower_only,
            )->Some_0) as u8,
    )
}

/// Reads 64 hexadecimal digits.
pub fn read_hex_32(digits: &[u8], lower_only: bool) -> (bytes: Option<[u8; 32]>)
    ensures
        match bytes {
            Some(value) => digits@.len() == 64 && all_hex(digits@, lower_only) && value@
                == hex_bytes(digits@, lower_only),
            None => digits@.len() != 64 || !all_hex(digits@, lower_only),
        },
{
    if digits.len() != 64 {
        return None;
    }
    let mut bytes: [u8; 32] = [0; 32];
    let mut i: usize = 0;
    while i < 32
        invariant
            i <= 32,
            digits@.len() == 64,
            bytes@.len() == 32,
            forall|j: int|
                0 <= j < 2 * i ==> nibble(#[trigger] digits@[j], lower_only) is Some,
            forall|j: int| 0 <= j < i ==> bytes@[j] == hex_bytes(digits@, lower_only)[j],
        decreases 32 - i,
    {
        let high = if lower_only {
            read_lower_nibble(digits[2 * i])
        } else {
            read_any_nibble(digits[2 * i])
        };
        let low = if lower_only {
            read_lower_nibble(digits[2 * i + 1])
        } else {
            read_any_nibble(digits[2 * i + 1])
        };
        let (Some(upper), Some(lower)) = (high, low) else {
            return None;
        };
        bytes[i] = upper * 16 + lower;
        i = i + 1;
    }
    assert(bytes@ =~= hex_bytes(digits@, lower_only));
    Some(bytes)
}

/// The lowercase digit of a value below sixteen.
pub open spec fn hex_digit(value: u8) -> char {
    if value < 10 {
        (48 + value) as char
    } else {
        (87 + value) as char
    }
}

/// The lowercase digits of `bytes`, two for each byte.
pub open spec fn hex_text(bytes: Seq<u8>) -> Seq<char> {
    Seq::new(
        2 * bytes.len(),
        |i: int|
            if i % 2 == 0 {
                hex_digit(bytes[i / 2] / 16)
            } else {
                hex_digit(bytes[i / 2] % 16)
            },
    )
}

fn write_digit(value: u8) -> (digit: char)
    requires
        value < 16,
    ensures
        digit == hex_digit(value),
{
    if value < 10 {
        (48 + value) as char
    } else {
        (87 + value) as char
    }
}

/// Writes bytes as lowercase hexadecimal digits.
pub fn write_hex(bytes: &[u8]) -> (text: String)
    ensures
        text@ == hex_text(bytes@),
{
    let mut text = String::new();
    let mut i: usize = 0;
    while i < bytes.len()
        invariant
            i <= bytes@.len(),
            text@.len() == 2 * i,
            forall|j: int| 0 <= j < 2 * i ==> text@[j] == hex_text(bytes@)[j],
        decreases bytes@.len() - i,
    {
        push_char(&mut text, write_digit(bytes[i] / 16));
        push_char(&mut text, write_digit(bytes[i] % 16));
        i = i + 1;
    }
    assert(text@ =~= hex_text(bytes@));
    text
}

/// Digits that were written are read back, whichever cases are read.
pub proof fn law_hex_round_trip(bytes: Seq<u8>, lower_only: bool)
    ensures
        all_hex(vstd::utf8::encode_utf8(hex_text(bytes)), lower_only),
        vstd::utf8::encode_utf8(hex_text(bytes)).len() == 2 * bytes.len(),
        hex_bytes(vstd::utf8::encode_utf8(hex_text(bytes)), lower_only) == bytes,
{
    let text = hex_text(bytes);
    let digits = vstd::utf8::encode_utf8(text);
    assert(vstd::utf8::is_ascii_chars(text));
    vstd::utf8::is_ascii_chars_encode_utf8(text);
    assert(digits =~= Seq::new(text.len(), |i: int| text[i] as u8));
    assert forall|i: int| 0 <= i < digits.len() implies nibble(
        #[trigger] digits[i],
        lower_only,
    ) == Some(
        if i % 2 == 0 {
            (bytes[i / 2] / 16) as u8
        } else {
            (bytes[i / 2] % 16) as u8
        },
    ) by {}
    assert(hex_bytes(digits, lower_only) =~= bytes) by {
        assert forall|i: int| 0 <= i < bytes.len() implies hex_bytes(digits, lower_only)[i]
            == bytes[i] by {
            assert(nibble(digits[2 * i], lower_only) == Some((bytes[i] / 16) as u8));
            assert(nibble(digits[2 * i + 1], lower_only) == Some((bytes[i] % 16) as u8));
        }
    }
}

/// A character of a session name: an ASCII letter or digit, a dot, an underscore or a hyphen.
pub open spec fn session_char(c: char) -> bool {
    ||| 'a' <= c <= 'z'
    ||| 'A' <= c <= 'Z'
    ||| '0' <= c <= '9'
    ||| c == '.'
    ||| c == '_'
    ||| c == '-'
}

/// A session name: 1 to 64 session characters, and neither one dot nor two.
pub open spec fn session_text(name: Seq<char>) -> bool {
    &&& 1 <= name.len() <= 64
    &&& forall|i: int| 0 <= i < name.len() ==> session_char(#[trigger] name[i])
    &&& name != seq!['.']
    &&& name != seq!['.', '.']
}

/// Tells whether a text is a session name.
pub fn is_session_text(value: &str) -> (valid: bool)
    ensures
        valid == session_text(value@),
{
    let len: usize = value.unicode_len();
    if len == 0 || len > 64 {
        return false;
    }
    let mut all_dots = true;
    let mut i: usize = 0;
    while i < len
        invariant
            i <= len,
            len == value@.len(),
            forall|j: int| 0 <= j < i ==> session_char(#[trigger] value@[j]),
            all_dots == (forall|j: int| 0 <= j < i ==> (#[trigger] value@[j]) == '.'),
        decreases len - i,
    {
        let c = value.get_char(i);
        let valid = ('a' <= c && c <= 'z') || ('A' <= c && c <= 'Z') || ('0' <= c && c <= '9') || c
            == '.' || c == '_' || c == '-';
        if !valid {
            assert(!session_char(value@[i as int]));
            return false;
        }
        if c != '.' {
            assert(value@[i as int] != '.');
            all_dots = false;
        }
        i = i + 1;
    }
    if all_dots && len <= 2 {
        assert(len == 1 ==> value@ =~= seq!['.']);
        assert(len == 2 ==> value@ =~= seq!['.', '.']);
        return false;
    }
    assert(value@ != seq!['.']) by {
        if value@ == seq!['.'] {
            assert(value@.len() == 1);
            assert forall|j: int| 0 <= j < len implies (#[trigger] value@[j]) == '.' by {}
        }
    }
    assert(value@ != seq!['.', '.']) by {
        if value@ == seq!['.', '.'] {
            assert(value@.len() == 2);
            assert forall|j: int| 0 <= j < len implies (#[trigger] value@[j]) == '.' by {}
        }
    }
    true
}

/// The first text comes before the second in the order of a dictionary.
pub open spec fn precedes(left: Seq<char>, right: Seq<char>) -> bool
    decreases left.len(),
{
    if right.len() == 0 {
        false
    } else if left.len() == 0 {
        true
    } else if left[0] != right[0] {
        left[0] < right[0]
    } else {
        precedes(left.drop_first(), right.drop_first())
    }
}

/// No text comes before itself, of two different texts one comes before the other, and the order
/// carries over a third.
pub proof fn lemma_precedes(a: Seq<char>, b: Seq<char>, c: Seq<char>)
    ensures
        !precedes(a, a),
        a != b ==> precedes(a, b) || precedes(b, a),
        precedes(a, b) && precedes(b, c) ==> precedes(a, c),
        !(precedes(a, b) && precedes(b, a)),
    decreases a.len(),
{
    if a.len() > 0 {
        lemma_precedes(a.drop_first(), b.drop_first(), c.drop_first());
        if b.len() > 0 && a[0] == b[0] && a.drop_first() == b.drop_first() {
            assert(a =~= b) by {
                assert forall|i: int| 0 <= i < a.len() && a.len() == b.len() implies a[i]
                    == b[i] by {
                    if i > 0 {
                        assert(a.drop_first()[i - 1] == b.drop_first()[i - 1]);
                    }
                }
                assert(a.drop_first().len() == b.drop_first().len());
            }
        }
    } else if b.len() == 0 {
        assert(a =~= b);
    }
}

/// Tells whether a text comes before another in the order of a dictionary.
pub fn comes_before(left: &str, right: &str) -> (before: bool)
    ensures
        before == precedes(left@, right@),
{
    let left_len: usize = left.unicode_len();
    let right_len: usize = right.unicode_len();
    let mut i: usize = 0;
    proof {
        assert(left@.subrange(0, left@.len() as int) =~= left@);
        assert(right@.subrange(0, right@.len() as int) =~= right@);
    }
    while i < left_len && i < right_len
        invariant
            i <= left_len == left@.len(),
            i <= right_len == right@.len(),
            precedes(left@, right@) == precedes(
                left@.subrange(i as int, left_len as int),
                right@.subrange(i as int, right_len as int),
            ),
        decreases left_len - i,
    {
        let a = left.get_char(i);
        let b = right.get_char(i);
        let ghost left_rest = left@.subrange(i as int, left_len as int);
        let ghost right_rest = right@.subrange(i as int, right_len as int);
        if a != b {
            return a < b;
        }
        assert(left_rest.drop_first() =~= left@.subrange(i + 1, left_len as int));
        assert(right_rest.drop_first() =~= right@.subrange(i + 1, right_len as int));
        i = i + 1;
    }
    i < right_len
}

/// The decimal digits of a number.
pub open spec fn decimal_text(value: nat) -> Seq<char>
    decreases value,
{
    if value < 10 {
        seq![(48 + value) as char]
    } else {
        decimal_text(value / 10).push((48 + value % 10) as char)
    }
}

/// Writes a number in decimal digits.
pub fn write_decimal(value: u64) -> (text: String)
    ensures
        text@ == decimal_text(value as nat),
    decreases value,
{
    let digit: u8 = (value % 10) as u8;
    let mut text = if value < 10 {
        String::new()
    } else {
        write_decimal(value / 10)
    };
    push_char(&mut text, (48 + digit) as char);
    assert(text@ =~= decimal_text(value as nat));
    text
}

/// A decimal text holds digits alone, reads back as its number, and starts with a zero only if it is
/// the zero.
pub proof fn law_decimal_text_reads_back(value: nat)
    ensures
        decimal_text(value).len() > 0,
        forall|i: int| 0 <= i < decimal_text(value).len() ==> '0' <= #[trigger] decimal_text(
            value,
        )[i] <= '9',
        crate::material::decimal_value(decimal_text(value)) == value,
        decimal_text(value)[0] == '0' <==> value == 0,
        value == 0 ==> decimal_text(value).len() == 1,
    decreases value,
{
    if value >= 10 {
        law_decimal_text_reads_back(value / 10);
        let head = decimal_text(value / 10);
        assert(decimal_text(value).drop_last() =~= head);
        assert(decimal_text(value)[0] == head[0]);
    } else {
        reveal_with_fuel(crate::material::decimal_value, 2);
        assert(decimal_text(value).drop_last() =~= Seq::<char>::empty());
    }
}

/// The order of texts is strict and total, and a text stands before every longer one that starts
/// with it.
pub proof fn law_texts_are_ordered(a: Seq<char>, b: Seq<char>, c: Seq<char>)
    ensures
        !precedes(a, a),
        precedes(a, b) ==> !precedes(b, a),
        precedes(a, b) && precedes(b, c) ==> precedes(a, c),
        precedes(a, b) || precedes(b, a) || a == b,
        b.len() > 0 ==> precedes(a, a + b),
{
    lemma_precedes(a, b, c);
    lemma_prefix_precedes(a, b);
}

/// A text stands before every longer one that starts with it.
proof fn lemma_prefix_precedes(a: Seq<char>, b: Seq<char>)
    ensures
        b.len() > 0 ==> precedes(a, a + b),
    decreases a.len(),
{
    if b.len() > 0 && a.len() > 0 {
        lemma_prefix_precedes(a.drop_first(), b);
        assert((a + b).drop_first() =~= a.drop_first() + b);
    }
}

/// Texts that agree up to a place are ordered by the characters there.
pub proof fn law_first_difference_orders_texts(a: Seq<char>, b: Seq<char>, at: int)
    requires
        0 <= at < a.len(),
        at < b.len(),
        forall|i: int| 0 <= i < at ==> (#[trigger] a[i]) == b[i],
        a[at] != b[at],
    ensures
        precedes(a, b) <==> a[at] < b[at],
    decreases at,
{
    if at > 0 {
        let left = a.drop_first();
        let right = b.drop_first();
        assert(a[0] == b[0]);
        assert forall|i: int| 0 <= i < at - 1 implies (#[trigger] left[i]) == right[i] by {
            assert(left[i] == a[i + 1]);
        }
        law_first_difference_orders_texts(left, right, at - 1);
    }
}

/// A digit is read if and only if it is one of the ten digits or of the six letters, large letters
/// only where they are allowed, and each has its own value.
pub proof fn law_hex_digits_have_their_value(digit: u8, lower_only: bool)
    ensures
        nibble(digit, lower_only) is Some <==> ('0' as u8 <= digit <= '9' as u8 || 'a' as u8
            <= digit <= 'f' as u8 || (!lower_only && 'A' as u8 <= digit <= 'F' as u8)),
        '0' as u8 <= digit <= '9' as u8 ==> nibble(digit, lower_only) == Some(
            (digit - '0' as u8) as u8,
        ),
        'a' as u8 <= digit <= 'f' as u8 ==> nibble(digit, lower_only) == Some(
            (digit - 'a' as u8 + 10) as u8,
        ),
        !lower_only && 'A' as u8 <= digit <= 'F' as u8 ==> nibble(digit, lower_only) == Some(
            (digit - 'A' as u8 + 10) as u8,
        ),
{
}

/// Each byte is written as two digits, the high half first, in small letters.
pub proof fn law_bytes_are_two_digits(bytes: Seq<u8>, at: int)
    requires
        0 <= at < bytes.len(),
    ensures
        hex_text(bytes).len() == 2 * bytes.len(),
        ({
            let high = hex_text(bytes)[2 * at];
            let low = hex_text(bytes)[2 * at + 1];
            &&& nibble(high as u8, true) == Some((bytes[at] / 16) as u8)
            &&& nibble(low as u8, true) == Some((bytes[at] % 16) as u8)
            &&& high as int <= 127 && low as int <= 127
        }),
{
}

/// A session name has one to 64 characters, each a letter, a digit, a dot, an underscore or a dash,
/// and is not one of the two names of directories.
pub proof fn law_session_names_are_plain(name: Seq<char>)
    ensures
        session_text(name) <==> 1 <= name.len() <= 64 && name != "."@ && name != ".."@ && forall|
            i: int,
        |
            0 <= i < name.len() ==> {
                let c = #[trigger] name[i];
                ('a' <= c <= 'z') || ('A' <= c <= 'Z') || ('0' <= c <= '9') || c == '.' || c == '_'
                    || c == '-'
            },
        session_text(name) ==> forall|i: int| 0 <= i < name.len() ==> #[trigger] name[i] != '/',
{
    reveal_strlit(".");
    reveal_strlit("..");
    assert("."@ =~= seq!['.']);
    assert(".."@ =~= seq!['.', '.']);
    if session_text(name) {
        assert forall|i: int| 0 <= i < name.len() implies {
            let c = #[trigger] name[i];
            ('a' <= c <= 'z') || ('A' <= c <= 'Z') || ('0' <= c <= '9') || c == '.' || c == '_' || c
                == '-'
        } by {
            assert(session_char(name[i]));
        }
    }
}

} // verus!
