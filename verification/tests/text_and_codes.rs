use sigrok_rs::text::{
    bool_to_text, i32_to_text, join_texts, parse_i32, parse_u64, text_eq, u64_to_text,
};
use sigrok_rs::types::{check_status, DeviceType, LogLevel, PacketType, SrError};

#[test]
fn parse_u64_accepts_digits_and_plus() {
    assert_eq!(parse_u64("50"), Some(50));
    assert_eq!(parse_u64("+7"), Some(7));
    assert_eq!(parse_u64("0007"), Some(7));
    assert_eq!(parse_u64("18446744073709551615"), Some(u64::MAX));
    assert_eq!(parse_u64("500000000"), Some(500000000));
}

#[test]
fn parse_u64_refuses_bad_text() {
    assert_eq!(parse_u64(""), None);
    assert_eq!(parse_u64("+"), None);
    assert_eq!(parse_u64("-1"), None);
    assert_eq!(parse_u64("1a"), None);
    assert_eq!(parse_u64("not_a_valid_value"), None);
    assert_eq!(parse_u64("18446744073709551616"), None);
    assert_eq!(parse_u64(" 1"), None);
}

#[test]
fn parse_u64_agrees_with_std() {
    for t in ["0", "1", "+", "-", "++1", "99999999999999999999", "12x", "4294967296", "٣"] {
        assert_eq!(parse_u64(t), t.parse::<u64>().ok(), "input {:?}", t);
    }
}

#[test]
fn parse_i32_reads_signs_and_bounds() {
    assert_eq!(parse_i32("-2147483648"), Some(i32::MIN));
    assert_eq!(parse_i32("2147483647"), Some(i32::MAX));
    assert_eq!(parse_i32("+12"), Some(12));
    assert_eq!(parse_i32("-0"), Some(0));
    assert_eq!(parse_i32("2147483648"), None);
    assert_eq!(parse_i32("-2147483649"), None);
    assert_eq!(parse_i32("-"), None);
    assert_eq!(parse_i32("-+1"), None);
    for t in ["5", "-5", "+-5", "", "1.5", "0x10"] {
        assert_eq!(parse_i32(t), t.parse::<i32>().ok(), "input {:?}", t);
    }
}

#[test]
fn decimal_text_matches_to_string() {
    for n in [0u64, 9, 10, 99, 100, 12345, u64::MAX] {
        assert_eq!(u64_to_text(n), n.to_string());
    }
    for n in [0i32, -1, 7, -42, i32::MIN, i32::MAX] {
        assert_eq!(i32_to_text(n), n.to_string());
    }
    assert_eq!(bool_to_text(true), "true");
    assert_eq!(bool_to_text(false), "false");
}

#[test]
fn text_round_trips_through_parse() {
    for n in [0u64, 1, 500000000, u64::MAX] {
        assert_eq!(parse_u64(&u64_to_text(n)), Some(n));
    }
    for n in [0i32, -3, i32::MIN, i32::MAX] {
        assert_eq!(parse_i32(&i32_to_text(n)), Some(n));
    }
}

#[test]
fn text_eq_and_join() {
    assert!(text_eq("abc", "abc"));
    assert!(!text_eq("abc", "abd"));
    assert!(!text_eq("abc", "ab"));
    assert!(text_eq("", ""));
    let items = vec![String::from("1"), String::from("2"), String::from("3")];
    assert_eq!(join_texts(&items, " "), "1 2 3");
    assert_eq!(join_texts(&Vec::new(), " "), "");
    assert_eq!(join_texts(&vec![String::from("only")], ", "), "only");
}

#[test]
fn error_codes_round_trip() {
    for code in -16..=0 {
        assert_eq!(SrError::from(code).code(), code);
    }
    assert_eq!(SrError::from(-17), SrError::SrErrNA);
    assert_eq!(SrError::from(5), SrError::SrErrNA);
    assert_eq!(SrError::from(-3), SrError::SrErrArg);
    assert_eq!(SrError::SrChannelNotFound.code(), -16);
    assert_eq!(SrError::SrOk.code(), 0);
}

#[test]
fn status_codes_become_results() {
    assert_eq!(check_status(0), Ok(()));
    assert_eq!(check_status(-3), Err(SrError::SrErrArg));
    assert_eq!(check_status(-1), Err(SrError::SrErr));
    assert_eq!(check_status(42), Err(SrError::SrErrNA));
}

#[test]
fn packet_and_device_type_codes() {
    assert!(matches!(PacketType::try_from(10000u16), Ok(PacketType::Header)));
    assert!(matches!(PacketType::try_from(10004u16), Ok(PacketType::Logic)));
    assert!(matches!(PacketType::try_from(10007u16), Ok(PacketType::Analog)));
    assert!(matches!(PacketType::try_from(10008u16), Err(SrError::SrErrNA)));
    assert!(matches!(PacketType::try_from(0u16), Err(SrError::SrErrNA)));
    assert_eq!(PacketType::FrameEnd.code(), 10006);
    assert_eq!(DeviceType::LogicAnalyzer.code(), 10000);
    assert_eq!(DeviceType::PowerMeter.code(), 10014);
    assert_eq!(LogLevel::LogNone.code(), 0);
    assert_eq!(LogLevel::LogSpew.code(), 5);
}
