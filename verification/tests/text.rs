use std::cmp::Ordering;
use valu3::decimal::{parse_signed, parse_unsigned, signed_to_string, unsigned_to_string};
use valu3::prelude::{StringB, ValueKey, ValueKeyBehavior};
use valu3::types::stringb::compare_text;
use valu3::types::stringb::text_equal;

const TEXTS: [&str; 28] = [
    "", "0", "-0", "+0", "7", "+7", "-7", "007", "127", "128", "-128", "-129", "255", "256", "+",
    "-", "--1", "+-1", "1 ", " 1", "1_0", "1.0", "1e3", "0x10", "١٢٣", "12a", "99999999999999",
    "340282366920938463463374607431768211455",
];

#[test]
fn signed_text_is_read_as_the_standard_library_reads_it() {
    for text in TEXTS {
        assert_eq!(parse_signed(text, -128, 127), text.parse::<i8>().ok().map(i128::from), "{text}");
        assert_eq!(
            parse_signed(text, i32::MIN as i128, i32::MAX as i128),
            text.parse::<i32>().ok().map(i128::from),
            "{text}"
        );
        assert_eq!(parse_signed(text, i128::MIN, i128::MAX), text.parse::<i128>().ok(), "{text}");
    }
    let most = "170141183460469231731687303715884105727";
    let least = "-170141183460469231731687303715884105728";
    assert_eq!(parse_signed(most, i128::MIN, i128::MAX), Some(i128::MAX));
    assert_eq!(parse_signed(least, i128::MIN, i128::MAX), Some(i128::MIN));
    assert_eq!(parse_signed("170141183460469231731687303715884105728", i128::MIN, i128::MAX), None);
    assert_eq!(parse_signed("-170141183460469231731687303715884105729", i128::MIN, i128::MAX), None);
    assert_eq!(parse_signed("-5", 0, 10), None);
}

#[test]
fn unsigned_text_is_read_as_the_standard_library_reads_it() {
    for text in TEXTS {
        assert_eq!(parse_unsigned(text, 255), text.parse::<u8>().ok().map(u128::from), "{text}");
        assert_eq!(
            parse_unsigned(text, u64::MAX as u128),
            text.parse::<u64>().ok().map(u128::from),
            "{text}"
        );
        assert_eq!(parse_unsigned(text, u128::MAX), text.parse::<u128>().ok(), "{text}");
    }
    assert_eq!(parse_unsigned("340282366920938463463374607431768211456", u128::MAX), None);
    assert_eq!(parse_unsigned("3402823669209384634633746074317682114550", u128::MAX), None);
}

#[test]
fn integers_are_written_in_decimal() {
    for n in [0u128, 1, 9, 10, 99, 100, 12345678901234567890, u64::MAX as u128, u128::MAX] {
        assert_eq!(unsigned_to_string(n), n.to_string());
    }
    for v in [0i128, 1, -1, 10, -10, i64::MIN as i128, i128::MAX, i128::MIN] {
        assert_eq!(signed_to_string(v), v.to_string());
    }
}

#[test]
fn what_is_written_reads_back() {
    for v in [0i128, 5, -5, 1234567890123456789, i128::MAX, i128::MIN] {
        assert_eq!(parse_signed(&signed_to_string(v), i128::MIN, i128::MAX), Some(v));
    }
    for n in [0u128, 5, u128::MAX] {
        assert_eq!(parse_unsigned(&unsigned_to_string(n), u128::MAX), Some(n));
    }
}

#[test]
fn texts_are_ordered_as_the_standard_library_orders_them() {
    let texts = ["", "a", "A", "ab", "abc", "b", "é", "e", "z", "日本", "日", "\u{10ffff}", "~"];
    for a in texts {
        for b in texts {
            assert_eq!(compare_text(a, b), a.cmp(b), "{a} {b}");
            assert_eq!(text_equal(a, b), a == b);
            let x = StringB::from_str(a);
            let y = StringB::from(b.to_string());
            assert_eq!(x == y, a == b);
            assert_eq!(x.partial_cmp(&y), Some(a.cmp(b)));
        }
    }
    assert_eq!(compare_text("abc", "abd"), Ordering::Less);
}

#[test]
fn a_text_keeps_its_characters() {
    let text = StringB::from_str("hello");
    assert_eq!(text.as_string(), "hello");
    assert_eq!(text.as_str(), "hello");
    assert_eq!(text.clone().extract(), "hello".to_string());
}

#[test]
fn keys_say_what_they_are() {
    assert_eq!("name".to_value_key(), ValueKey::String(StringB::from_str("name")));
    assert_eq!("name".to_string().to_value_key(), ValueKey::String(StringB::from_str("name")));
    assert_eq!(3usize.to_value_key(), ValueKey::Number(3));
    assert_eq!("name".as_usize(), 0);
    assert_eq!("7".to_string().as_usize(), 0);
    assert_eq!(7usize.as_usize(), 7);
    assert!(!<&str>::is_usize());
    assert!(!String::is_usize());
    assert!(usize::is_usize());
    assert_eq!(ValueKey::Number(12).to_string(), "12");
    assert_eq!(ValueKey::Number(12).as_string_b().as_string(), "12");
    assert_eq!(ValueKey::String(StringB::from_str("k")).to_string(), "k");
    assert!(ValueKey::String(StringB::from_str("z")) < ValueKey::Number(0));
    assert!(ValueKey::Number(1) < ValueKey::Number(2));
    assert!(ValueKey::Number(1) != ValueKey::String(StringB::from_str("1")));
}
