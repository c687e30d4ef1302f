use vardy::decimal::{format_u64, parse_unsigned_up_to};
use vardy::ip::{parse_client_ip, ClientIp};
use vardy::rate_limit::{FlyClientIpKeyExtractor, KeyError};

#[test]
fn decimal_round_trip() {
    for n in [0u64, 7, 9, 10, 99, 100, 12345, u32::MAX as u64, u64::MAX] {
        let text = format_u64(n);
        assert_eq!(text, n.to_string());
        assert_eq!(parse_unsigned_up_to(&text, u64::MAX), Some(n));
    }
}

#[test]
fn parse_matches_std_rules() {
    assert_eq!(parse_unsigned_up_to("007", u64::MAX), Some(7));
    assert_eq!(parse_unsigned_up_to("+", u64::MAX), None);
    assert_eq!(parse_unsigned_up_to("", u64::MAX), None);
    assert_eq!(parse_unsigned_up_to("++1", u64::MAX), None);
    assert_eq!(parse_unsigned_up_to("18446744073709551616", u64::MAX), None);
    assert_eq!(parse_unsigned_up_to("1_000", u64::MAX), None);
    assert_eq!(parse_unsigned_up_to("256", 255), None);
    assert_eq!(parse_unsigned_up_to("255", 255), Some(255));
}

#[test]
fn ipv4_addresses() {
    assert_eq!(parse_client_ip("1.2.3.4"), Some(ClientIp::V4([1, 2, 3, 4])));
    assert_eq!(parse_client_ip("255.255.255.255"), Some(ClientIp::V4([255, 255, 255, 255])));
    assert_eq!(parse_client_ip("0.0.0.0"), Some(ClientIp::V4([0, 0, 0, 0])));
    assert_eq!(parse_client_ip("01.2.3.4"), None);
    assert_eq!(parse_client_ip("1.2.3.256"), None);
    assert_eq!(parse_client_ip("1.2.3"), None);
    assert_eq!(parse_client_ip("1.2.3.4.5"), None);
    assert_eq!(parse_client_ip("1.2.3.4 "), None);
    assert_eq!(parse_client_ip(""), None);
}

#[test]
fn ipv6_addresses() {
    assert_eq!(parse_client_ip("::1"), Some(ClientIp::V6([0, 0, 0, 0, 0, 0, 0, 1])));
    assert_eq!(parse_client_ip("::"), Some(ClientIp::V6([0; 8])));
    assert_eq!(parse_client_ip("2001:db8::ff00:42:8329"), Some(ClientIp::V6([0x2001, 0xdb8, 0, 0, 0, 0xff00, 0x42, 0x8329])));
    assert_eq!(parse_client_ip("1:2:3:4:5:6:7:8"), Some(ClientIp::V6([1, 2, 3, 4, 5, 6, 7, 8])));
    assert_eq!(parse_client_ip("::ffff:1.2.3.4"), Some(ClientIp::V6([0, 0, 0, 0, 0, 0xffff, 0x0102, 0x0304])));
    assert_eq!(parse_client_ip("1:2:3:4:5:6:1.2.3.4"), Some(ClientIp::V6([1, 2, 3, 4, 5, 6, 0x0102, 0x0304])));
    assert_eq!(parse_client_ip("1:2:3:4:5:6:7::"), Some(ClientIp::V6([1, 2, 3, 4, 5, 6, 7, 0])));
    assert_eq!(parse_client_ip("ABCD::ef"), Some(ClientIp::V6([0xabcd, 0, 0, 0, 0, 0, 0, 0xef])));
    assert_eq!(parse_client_ip("1:2:3:4:5:6:7:8::"), None);
    assert_eq!(parse_client_ip("1::2::3"), None);
    assert_eq!(parse_client_ip(":::"), None);
    assert_eq!(parse_client_ip(":1::"), None);
    assert_eq!(parse_client_ip("12345::"), None);
    assert_eq!(parse_client_ip("1:2:3:4:5:6:7"), None);
    assert_eq!(parse_client_ip("1:1.2.3.4::"), None);
    assert_eq!(parse_client_ip("::1:2:3:4:5:6:7:8"), None);
    assert_eq!(parse_client_ip("g::1"), None);
}

#[test]
fn extracts_fly_client_ip() {
    let ip = FlyClientIpKeyExtractor.extract(Some("1.2.3.4"), None).unwrap();
    assert_eq!(ip, ClientIp::V4([1, 2, 3, 4]));
}

#[test]
fn ignores_x_forwarded_for() {
    // A request whose only address header is X-Forwarded-For offers no
    // Fly-Client-IP value and, here, no peer address.
    assert!(FlyClientIpKeyExtractor.extract(None, None).is_err());
}

#[test]
fn prefers_fly_client_ip_over_xff() {
    let ip = FlyClientIpKeyExtractor.extract(Some("9.9.9.9"), None).unwrap();
    assert_eq!(ip, ClientIp::V4([9, 9, 9, 9]));
}

#[test]
fn falls_back_to_connect_info() {
    let ip = FlyClientIpKeyExtractor.extract(None, Some(ClientIp::V4([127, 0, 0, 1]))).unwrap();
    assert_eq!(ip, ClientIp::V4([127, 0, 0, 1]));
}

#[test]
fn errors_when_no_key_available() {
    match FlyClientIpKeyExtractor.extract(None, None) {
        Err(KeyError::UnableToExtractKey) => {}
        other => panic!("expected UnableToExtractKey, got {other:?}"),
    }
}

#[test]
fn unparseable_header_falls_back_to_peer() {
    let peer = ClientIp::V4([10, 0, 0, 1]);
    assert_eq!(FlyClientIpKeyExtractor.extract(Some("not an ip"), Some(peer)), Ok(peer));
    assert_eq!(FlyClientIpKeyExtractor.extract(Some("2.2.2.2"), Some(peer)), Ok(ClientIp::V4([2, 2, 2, 2])));
}
