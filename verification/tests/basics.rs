use herdogrelay::address::ListenAddress;
use herdogrelay::bytes::{copy_16, copy_32, is_all_zero, push_be, read_be, same_bytes, same_secret};
use herdogrelay::clock::{epoch_reading, seconds_of};
use herdogrelay::is_valid_hdb1_session;
use herdogrelay::paths::{is_absolute, join, same_text, validate_absolute_path};
use herdogrelay::table::KeyTable;
use herdogrelay::text::{
    comes_before, is_session_text, read_any_nibble, read_hex_32, read_lower_nibble, write_decimal,
    write_hex,
};

#[test]
fn numbers_are_big_endian() {
    let mut bytes = vec![9];
    push_be(&mut bytes, 0x0102_0304, 4);
    assert_eq!(bytes, vec![9, 1, 2, 3, 4]);
    assert_eq!(read_be(&bytes, 1, 4), 0x0102_0304);
    assert_eq!(read_be(&bytes, 1, 0), 0);
    push_be(&mut bytes, u64::MAX, 8);
    assert_eq!(read_be(&bytes, 5, 8), u64::MAX);
}

#[test]
fn bytes_are_compared_and_copied() {
    assert!(same_bytes(b"abc", b"abc"));
    assert!(!same_bytes(b"abc", b"abd"));
    assert!(!same_bytes(b"abc", b"ab"));
    assert!(is_all_zero(&[0, 0]));
    assert!(!is_all_zero(&[0, 1]));
    assert!(is_all_zero(&[]));
    let source: Vec<u8> = (0..64).collect();
    assert_eq!(copy_32(&source, 3)[..], source[3..35]);
    assert_eq!(copy_16(&source, 48)[..], source[48..]);
}

#[test]
fn hexadecimal_digits_round_trip() {
    let bytes: [u8; 32] = copy_32(&(0..32).map(|n| n * 7).collect::<Vec<u8>>(), 0);
    let text = write_hex(&bytes);
    assert_eq!(&text[..8], "00070e15");
    assert_eq!(read_hex_32(text.as_bytes(), true), Some(bytes));
    assert_eq!(read_hex_32(text.to_uppercase().as_bytes(), true), None);
    assert_eq!(read_hex_32(text.to_uppercase().as_bytes(), false), Some(bytes));
    assert_eq!(read_lower_nibble(b'f'), Some(15));
    assert_eq!(read_lower_nibble(b'F'), None);
    assert_eq!(read_any_nibble(b'F'), Some(15));
    assert_eq!(read_any_nibble(b'g'), None);
}

#[test]
fn decimals_are_written() {
    assert_eq!(write_decimal(0), "0");
    assert_eq!(write_decimal(18753), "18753");
    assert_eq!(write_decimal(u64::MAX), u64::MAX.to_string());
}

#[test]
fn session_texts_are_restricted() {
    assert!(is_session_text("work_1.a-B"));
    assert!(!is_session_text(""));
    assert!(!is_session_text("."));
    assert!(!is_session_text(".."));
    assert!(!is_session_text("a/b"));
    assert!(!is_session_text("a b"));
    assert!(!is_session_text(&"a".repeat(65)));
    assert!(is_valid_hdb1_session("default"));
    assert!(!is_valid_hdb1_session("中文"));
}

#[test]
fn texts_are_ordered_by_their_characters() {
    assert!(comes_before("a", "b"));
    assert!(comes_before("a", "ab"));
    assert!(!comes_before("ab", "a"));
    assert!(!comes_before("a", "a"));
    assert!(comes_before("Z", "a"));
}

#[test]
fn paths_are_joined() {
    assert_eq!(join("/a", "b"), "/a/b");
    assert_eq!(join("/a/", "b"), "/a/b");
    assert_eq!(join("", "b"), "b");
    assert_eq!(join("/a", "/b"), "/b");
    assert!(is_absolute("/"));
    assert!(!is_absolute("a"));
    assert!(!is_absolute(""));
    assert!(same_text("é", "é"));
    assert!(validate_absolute_path("field", "/a").is_ok());
    assert!(validate_absolute_path("field", "a").is_err());
}

#[test]
fn tables_keep_one_value_per_key() {
    let mut table: KeyTable<u64> = KeyTable::new();
    table.set([2; 32], 20);
    table.set([1; 32], 10);
    table.set([2; 32], 21);
    assert_eq!(table.len(), 2);
    assert_eq!(table.get(&[2; 32]), Some(&21));
    assert_eq!(table.get(&[3; 32]), None);
    assert!(table.contains(&[1; 32]));
    let mut seen = vec![];
    for place in 0..table.len() {
        seen.push((table.key_at(place), *table.value_at(place)));
    }
    seen.sort();
    assert_eq!(seen, vec![([1; 32], 10), ([2; 32], 21)]);
    table.remove(&[2; 32]);
    table.remove(&[2; 32]);
    assert_eq!(table.len(), 1);
}

#[test]
fn addresses_are_compared_by_value() {
    let address = ListenAddress { host: "::1".to_owned(), port: 7 };
    assert!(address.same(&address.copy()));
    assert!(!address.same(&ListenAddress { host: "::1".to_owned(), port: 8 }));
    assert!(!address.same(&ListenAddress { host: "::2".to_owned(), port: 7 }));
}

#[test]
fn clock_spans_give_their_whole_seconds() {
    assert_eq!(seconds_of(Some((17, 999_999_999))), Some(17));
    assert_eq!(seconds_of(Some((u64::MAX, 0))), Some(u64::MAX));
    assert_eq!(seconds_of(None), None);
    assert!(epoch_reading().expect("clock") > 1_577_836_800);
}

#[test]
fn secrets_are_compared_as_a_whole() {
    assert!(same_secret(b"123456", b"123456"));
    assert!(!same_secret(b"123456", b"023456"));
    assert!(!same_secret(b"123456", b"123457"));
    assert!(!same_secret(b"12345", b"123456"));
    assert!(same_secret(b"", b""));
}
