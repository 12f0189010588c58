use display_more::decimal::{append_unsigned, signed_to_string, unsigned_to_string};
use display_more::text::{DebugStyle, DebugText, DisplayStyle, DisplayText, Style};

#[test]
fn decimal_of_small_numbers() {
    assert_eq!(unsigned_to_string(0), "0");
    assert_eq!(unsigned_to_string(7), "7");
    assert_eq!(unsigned_to_string(9), "9");
    assert_eq!(unsigned_to_string(10), "10");
    assert_eq!(unsigned_to_string(99), "99");
    assert_eq!(unsigned_to_string(100), "100");
    assert_eq!(unsigned_to_string(1_234_567_890), "1234567890");
}

#[test]
fn decimal_of_the_largest_number() {
    assert_eq!(unsigned_to_string(u128::MAX), "340282366920938463463374607431768211455");
    assert_eq!(unsigned_to_string(u128::MAX), format!("{}", u128::MAX));
}

#[test]
fn decimal_with_sign() {
    assert_eq!(signed_to_string(0), "0");
    assert_eq!(signed_to_string(-1), "-1");
    assert_eq!(signed_to_string(1), "1");
    assert_eq!(signed_to_string(-10), "-10");
    assert_eq!(signed_to_string(i128::MAX), "170141183460469231731687303715884105727");
    assert_eq!(signed_to_string(i128::MIN), "-170141183460469231731687303715884105728");
}

#[test]
fn decimal_is_appended_to_what_is_there() {
    let mut out = String::from("n=");
    append_unsigned(&mut out, 405);
    assert_eq!(out, "n=405");
    append_unsigned(&mut out, 0);
    assert_eq!(out, "n=4050");
}

#[test]
fn decimal_agrees_with_std() {
    let mut n: u128 = 1;
    for _ in 0..39 {
        for m in [n - 1, n, n + 1] {
            assert_eq!(unsigned_to_string(m), format!("{}", m));
            if m <= i128::MAX as u128 {
                assert_eq!(signed_to_string(m as i128), format!("{}", m));
                assert_eq!(signed_to_string(-(m as i128)), format!("{}", -(m as i128)));
            }
        }
        n = n.saturating_mul(10);
    }
}

#[test]
fn display_text_of_each_integer_type() {
    assert_eq!(u8::MAX.display_string(), "255");
    assert_eq!(u16::MAX.display_string(), "65535");
    assert_eq!(u32::MAX.display_string(), "4294967295");
    assert_eq!(u64::MAX.display_string(), "18446744073709551615");
    assert_eq!(u128::MAX.display_string(), "340282366920938463463374607431768211455");
    assert_eq!(usize::MAX.display_string(), format!("{}", usize::MAX));
    assert_eq!(i8::MIN.display_string(), "-128");
    assert_eq!(i16::MIN.display_string(), "-32768");
    assert_eq!(i32::MIN.display_string(), "-2147483648");
    assert_eq!(i64::MIN.display_string(), "-9223372036854775808");
    assert_eq!(i128::MIN.display_string(), "-170141183460469231731687303715884105728");
    assert_eq!(isize::MIN.display_string(), format!("{}", isize::MIN));
}

#[test]
fn debug_text_of_each_integer_type() {
    assert_eq!(u8::MAX.debug_string(), "255");
    assert_eq!(u16::MAX.debug_string(), "65535");
    assert_eq!(u32::MAX.debug_string(), "4294967295");
    assert_eq!(u64::MAX.debug_string(), "18446744073709551615");
    assert_eq!(u128::MAX.debug_string(), "340282366920938463463374607431768211455");
    assert_eq!(usize::MAX.debug_string(), format!("{:?}", usize::MAX));
    assert_eq!(i8::MIN.debug_string(), "-128");
    assert_eq!(i16::MIN.debug_string(), "-32768");
    assert_eq!(i32::MIN.debug_string(), "-2147483648");
    assert_eq!(i64::MIN.debug_string(), "-9223372036854775808");
    assert_eq!(i128::MIN.debug_string(), "-170141183460469231731687303715884105728");
    assert_eq!(isize::MIN.debug_string(), format!("{:?}", isize::MIN));
}

#[test]
fn texts_of_booleans_and_strings() {
    assert_eq!(true.display_string(), "true");
    assert_eq!(false.display_string(), "false");
    assert_eq!(true.debug_string(), "true");
    assert_eq!(false.debug_string(), "false");
    assert_eq!("plain".display_string(), "plain");
    assert_eq!(String::from("owned").display_string(), "owned");
    assert_eq!("plain".debug_string(), "\"plain\"");
    assert_eq!(String::from("owned").debug_string(), "\"owned\"");
    assert_eq!("a\"b".debug_string(), "\"a\\\"b\"");
}

#[test]
fn texts_of_references_are_those_of_the_values() {
    let n = -12i32;
    assert_eq!((&n).display_string(), "-12");
    assert_eq!((&&n).debug_string(), "-12");
    let s = String::from("s");
    assert_eq!((&s).display_string(), "s");
    assert_eq!((&s).debug_string(), "\"s\"");
}

#[test]
fn debug_text_of_lists() {
    let empty: [u8; 0] = [];
    assert_eq!(empty[..].debug_string(), "[]");
    assert_eq!([1u8][..].debug_string(), "[1]");
    assert_eq!([1u8, 2, 3][..].debug_string(), "[1, 2, 3]");
    assert_eq!(vec![-1i64, 0, 1].debug_string(), "[-1, 0, 1]");
    assert_eq!(vec!["a", "b,c"].debug_string(), "[\"a\", \"b,c\"]");
    assert_eq!(vec![vec![1u8], vec![]].debug_string(), "[[1], []]");
}

#[test]
fn styles_write_the_matching_text() {
    assert_eq!(DisplayStyle.write(&"q"), "q");
    assert_eq!(DebugStyle.write(&"q"), "\"q\"");
    assert_eq!(DisplayStyle.write(&5u8), "5");
    assert_eq!(DebugStyle.write(&vec![5u8, 6]), "[5, 6]");
}
