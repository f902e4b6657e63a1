use pluginx::decimal::{parse_unsigned_chars, push_decimal, scan_decimal_chars, NumberError};
use pluginx::handshake::address::SocketAddress;
use pluginx::handshake::hex::{parse_hex_group, push_hex};
use pluginx::handshake::ipv4::{parse_ipv4_chars, push_ipv4};
use pluginx::handshake::ipv6::{parse_ipv6_chars, push_ipv6};
use pluginx::text::{
    char_is_whitespace, chars_equal, chars_of, split_bounds, string_of, trim_chars,
};

fn chars(s: &str) -> Vec<char> {
    s.chars().collect()
}

fn pieces(s: &str, sep: char) -> Vec<String> {
    let all = chars(s);
    split_bounds(&all, sep)
        .into_iter()
        .map(|(from, to)| all[from..to].iter().collect())
        .collect()
}

#[test]
fn chars_and_strings_convert_both_ways() {
    assert_eq!(chars_of("a|ß|水"), vec!['a', '|', 'ß', '|', '水']);
    assert_eq!(string_of(&chars("a|ß|水")), "a|ß|水");
    assert_eq!(chars_of(""), vec![]);
    assert!(chars_equal(&chars("grpc"), "grpc"));
    assert!(!chars_equal(&chars("grpc"), "grpC"));
    assert!(!chars_equal(&chars("grp"), "grpc"));
    assert!(chars_equal(&[], ""));
}

#[test]
fn whitespace_is_what_std_calls_whitespace() {
    for code in 0..=0x3100u32 {
        if let Some(c) = char::from_u32(code) {
            assert_eq!(char_is_whitespace(c), c.is_whitespace(), "U+{code:04X}");
        }
    }
    assert!(!char_is_whitespace('\u{FEFF}'));
    assert!(!char_is_whitespace('\u{200B}'));
}

#[test]
fn trims_as_std_trims() {
    for text in ["", " ", "a", " a", "a ", "\t a b \r\n", "\u{3000}x\u{85}", "  ", "a  b", "\n"] {
        let all = chars(text);
        let trimmed: String = trim_chars(&all).iter().collect();
        assert_eq!(trimmed, text.trim(), "{text:?}");
    }
}

#[test]
fn splits_as_std_splits() {
    for text in ["", "|", "a", "a|b", "|a", "a|", "||", "a||b|", "1|2|tcp|x:1|grpc|t|m"] {
        let expected: Vec<String> = text.split('|').map(str::to_string).collect();
        assert_eq!(pieces(text, '|'), expected, "{text:?}");
    }
}

#[test]
fn numbers_are_read_as_std_reads_them() {
    let texts = [
        "", "0", "00", "1", "+1", "+", "-", "-1", "+-1", "++1", "65535", "65536", "065535",
        "4294967295", "4294967296", "99999999999999999999", "12a", "a12", "1 ", " 1", "１", "1_0",
        "+0", "6553x", "65536x", "655350", "x99999999",
    ];
    for text in texts {
        let ours = parse_unsigned_chars(&chars(text), 65535);
        match text.parse::<u16>() {
            Ok(n) => assert_eq!(ours, Ok(n as u32), "{text:?}"),
            Err(e) => assert_eq!(ours.unwrap_err().to_string(), e.to_string(), "{text:?}"),
        }
        let ours = parse_unsigned_chars(&chars(text), u32::MAX);
        match text.parse::<u32>() {
            Ok(n) => assert_eq!(ours, Ok(n), "{text:?}"),
            Err(e) => assert_eq!(ours.unwrap_err().to_string(), e.to_string(), "{text:?}"),
        }
    }
}

#[test]
fn a_scan_takes_digits_only() {
    assert_eq!(scan_decimal_chars(&chars("0255"), 255), Ok(255));
    assert_eq!(scan_decimal_chars(&chars("256"), 255), Err(NumberError::PosOverflow));
    assert_eq!(scan_decimal_chars(&chars("+1"), 255), Err(NumberError::InvalidDigit));
    assert_eq!(scan_decimal_chars(&chars(""), 255), Ok(0));
    assert_eq!(scan_decimal_chars(&chars("0"), 0), Ok(0));
    assert_eq!(scan_decimal_chars(&chars("1"), 0), Err(NumberError::PosOverflow));
}

#[test]
fn numbers_are_written_without_leading_zeros() {
    for n in [0u64, 1, 9, 10, 99, 100, 255, 65535, 4294967295, u64::MAX] {
        let mut out = String::from(">");
        push_decimal(&mut out, n);
        assert_eq!(out, format!(">{n}"));
    }
}

#[test]
fn hex_groups_are_read_and_written() {
    assert_eq!(parse_hex_group(&chars("0")), Some(0));
    assert_eq!(parse_hex_group(&chars("ffff")), Some(0xffff));
    assert_eq!(parse_hex_group(&chars("FfFf")), Some(0xffff));
    assert_eq!(parse_hex_group(&chars("0001")), Some(1));
    assert_eq!(parse_hex_group(&chars("aB9")), Some(0xab9));
    assert_eq!(parse_hex_group(&chars("")), None);
    assert_eq!(parse_hex_group(&chars("00001")), None);
    assert_eq!(parse_hex_group(&chars("g")), None);
    assert_eq!(parse_hex_group(&chars("+1")), None);
    for n in [0u16, 1, 9, 10, 15, 16, 255, 256, 0xabc, 0x1000, 0xffff] {
        let mut out = String::new();
        push_hex(&mut out, n);
        assert_eq!(out, format!("{n:x}"));
        assert_eq!(parse_hex_group(&chars(&out)), Some(n));
    }
}

#[test]
fn ip_addresses_are_read_and_written() {
    assert_eq!(parse_ipv4_chars(&chars("127.0.0.1")), Some([127, 0, 0, 1]));
    assert_eq!(parse_ipv4_chars(&chars("127.0.0.01")), None);
    assert_eq!(parse_ipv4_chars(&chars("127.0.0")), None);
    let mut out = String::new();
    push_ipv4(&mut out, &[10, 0, 255, 1]);
    assert_eq!(out, "10.0.255.1");
    assert_eq!(parse_ipv6_chars(&chars("::")), Some([0; 8]));
    assert_eq!(parse_ipv6_chars(&chars("1::2")), Some([1, 0, 0, 0, 0, 0, 0, 2]));
    assert_eq!(parse_ipv6_chars(&chars("")), None);
    assert_eq!(parse_ipv6_chars(&chars(":")), None);
    assert_eq!(parse_ipv6_chars(&chars("1")), None);
    let mut out = String::new();
    push_ipv6(&mut out, &[0, 0, 0, 0, 0, 0, 0, 0]);
    assert_eq!(out, "::");
}

#[test]
fn every_run_of_zero_groups_comes_back() {
    // All addresses whose groups are zero or one: every place and length of
    // a run of zeros.
    for bits in 0u32..256 {
        let mut ip = [0u16; 8];
        for (i, group) in ip.iter_mut().enumerate() {
            *group = ((bits >> i) & 1) as u16;
        }
        let address = SocketAddress::V6 { ip, port: 1, scope_id: 0 };
        let text = address.to_string();
        assert_eq!(SocketAddress::parse(&chars(&text)), Some(address), "{text}");
        let body = &text[1..text.len() - 3];
        assert!(body.matches("::").count() <= 1, "{text}");
    }
}
