use koutendb::text::{chars_of, contains, first_zero, parse_unsigned, push_i32, push_u64, string_of, to_ascii_lowercase, IntErrorKind};

fn cs(s: &str) -> Vec<char> {
    s.chars().collect()
}

#[test]
fn decimal_text_matches_std() {
    for n in [0u64, 7, 10, 99, 100, 1234567890, u64::MAX] {
        let mut s = String::new();
        push_u64(&mut s, n);
        assert_eq!(s, n.to_string());
    }
    for i in [0i32, -1, 9, -10, i32::MAX, i32::MIN] {
        let mut s = String::from("x");
        push_i32(&mut s, i);
        assert_eq!(s, format!("x{}", i));
    }
}

#[test]
fn unsigned_parsing_follows_std() {
    let cases = ["", "+", "-", "0", "+12", "-1", "12a", "a12", "007", "18446744073709551615", "18446744073709551616", "99999999999999999999a", "1 ", "٣"];
    for c in cases {
        let ours = parse_unsigned(&cs(c), u64::MAX);
        let theirs = c.parse::<u64>();
        match (ours, theirs) {
            (Ok(a), Ok(b)) => assert_eq!(a, b),
            (Err(k), Err(e)) => {
                let expected = match k {
                    IntErrorKind::Empty => "cannot parse integer from empty string",
                    IntErrorKind::InvalidDigit => "invalid digit found in string",
                    IntErrorKind::PosOverflow => "number too large to fit in target type",
                };
                assert_eq!(e.to_string(), expected, "case {:?}", c);
            }
            (a, b) => panic!("case {:?}: {:?} vs {:?}", c, a, b),
        }
    }
    assert_eq!(parse_unsigned(&cs("4294967295"), u32::MAX as u64), Ok(4294967295));
    assert_eq!(parse_unsigned(&cs("4294967296"), u32::MAX as u64), Err(IntErrorKind::PosOverflow));
}

#[test]
fn substring_search() {
    assert!(contains(&cs("key not found"), &cs("not found")));
    assert!(contains(&cs("abc"), &cs("")));
    assert!(contains(&cs(""), &cs("")));
    assert!(!contains(&cs("not foun"), &cs("not found")));
    assert!(contains(&cs("aab"), &cs("ab")));
    assert!(!contains(&cs("Not Found"), &cs("not found")));
}

#[test]
fn ascii_lowercase_leaves_other_chars() {
    assert_eq!(to_ascii_lowercase(&cs("Key NOT Found É")), cs(&"Key NOT Found É".to_ascii_lowercase()));
    assert_eq!(string_of(&chars_of("héllo")), "héllo");
}

#[test]
fn first_zero_byte() {
    assert_eq!(first_zero(b"ab\0c\0"), Some(2));
    assert_eq!(first_zero(b"abc"), None);
    assert_eq!(first_zero(b""), None);
}
