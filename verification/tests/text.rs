use deltachat_core::text::{parse_i32, parse_u16, trim_str};

#[test]
fn integer_parsing_follows_str_parse() {
    for s in ["", "+", "-", "0", "+7", "-0", "65535", "65536", "1a", " 1", "007", "-12"] {
        assert_eq!(parse_u16(s), s.parse::<u16>().ok(), "u16 {s:?}");
    }
    for s in ["", "+", "-", "0", "-2147483648", "2147483647", "2147483648", "-2147483649", "+12", "x"] {
        assert_eq!(parse_i32(s), s.parse::<i32>().ok(), "i32 {s:?}");
    }
}

#[test]
fn trimming_white_space() {
    let t: String = trim_str("  a b \n\t").into_iter().collect();
    assert_eq!(t, "a b");
}
