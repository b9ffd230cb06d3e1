use ipdata::IpAddr;

#[test]
fn dotted_quad_formatting() {
    assert_eq!(IpAddr::V4(1, 1, 1, 1).to_text().as_str(), "1.1.1.1");
    assert_eq!(IpAddr::V4(0, 0, 0, 0).to_text().as_str(), "0.0.0.0");
    assert_eq!(
        IpAddr::V4(255, 254, 10, 9).to_text().as_str(),
        "255.254.10.9"
    );
}

#[test]
fn ipv6_loopback_and_unspecified() {
    assert_eq!(IpAddr::V6(0, 0, 0, 0, 0, 0, 0, 1).to_text().as_str(), "::1");
    assert_eq!(IpAddr::V6(0, 0, 0, 0, 0, 0, 0, 0).to_text().as_str(), "::");
}

#[test]
fn ipv6_trailing_zero_run_collapses() {
    assert_eq!(
        IpAddr::V6(0x2001, 0xdb8, 0, 0, 0, 0, 0, 0).to_text().as_str(),
        "2001:db8::"
    );
}

#[test]
fn ipv6_middle_zero_run_collapses() {
    assert_eq!(
        IpAddr::V6(1, 0, 0, 0, 0, 0, 0, 1).to_text().as_str(),
        "1::1"
    );
}

#[test]
fn ipv6_single_zero_group_stays() {
    assert_eq!(
        IpAddr::V6(1, 0, 1, 1, 1, 1, 1, 1).to_text().as_str(),
        "1:0:1:1:1:1:1:1"
    );
}

#[test]
fn ipv6_leftmost_longest_run_wins_ties() {
    assert_eq!(
        IpAddr::V6(1, 0, 0, 1, 0, 0, 1, 1).to_text().as_str(),
        "1::1:0:0:1:1"
    );
}

#[test]
fn ipv6_lowercase_hex_groups() {
    assert_eq!(
        IpAddr::V6(0x2001, 0xdb8, 0x85a3, 0x8d3, 0x1319, 0x8a2e, 0x370, 0x7348)
            .to_text()
            .as_str(),
        "2001:db8:85a3:8d3:1319:8a2e:370:7348"
    );
}

#[test]
fn ipv4_mapped_address_keeps_dotted_quad() {
    assert_eq!(
        IpAddr::V6(0, 0, 0, 0, 0, 0xffff, 0x0102, 0x0304)
            .to_text()
            .as_str(),
        "::ffff:1.2.3.4"
    );
}

#[test]
fn parse_dotted_quad() {
    assert_eq!(
        ipdata::parse_ip("1.1.1.1").unwrap(),
        IpAddr::V4(1, 1, 1, 1)
    );
    assert_eq!(
        ipdata::parse_ip("255.0.10.9").unwrap(),
        IpAddr::V4(255, 0, 10, 9)
    );
}

#[test]
fn parse_rejects_bad_dotted_quads() {
    assert!(ipdata::parse_ip("1.1.1.256").is_none());
    assert!(ipdata::parse_ip("01.1.1.1").is_none());
    assert!(ipdata::parse_ip("1.2.3").is_none());
    assert!(ipdata::parse_ip("1.2.3.4.5").is_none());
    assert!(ipdata::parse_ip("").is_none());
    assert!(ipdata::parse_ip("hello").is_none());
}

#[test]
fn parse_ipv6_forms() {
    assert_eq!(
        ipdata::parse_ip("::1").unwrap(),
        IpAddr::V6(0, 0, 0, 0, 0, 0, 0, 1)
    );
    assert_eq!(
        ipdata::parse_ip("::").unwrap(),
        IpAddr::V6(0, 0, 0, 0, 0, 0, 0, 0)
    );
    assert_eq!(
        ipdata::parse_ip("2001:db8::1").unwrap(),
        IpAddr::V6(0x2001, 0xdb8, 0, 0, 0, 0, 0, 1)
    );
    assert_eq!(
        ipdata::parse_ip("1:2:3:4:5:6:7:8").unwrap(),
        IpAddr::V6(1, 2, 3, 4, 5, 6, 7, 8)
    );
    assert_eq!(
        ipdata::parse_ip("::ffff:1.2.3.4").unwrap(),
        IpAddr::V6(0, 0, 0, 0, 0, 0xffff, 0x0102, 0x0304)
    );
    assert_eq!(
        ipdata::parse_ip("1:2:3:4:5:6:1.2.3.4").unwrap(),
        IpAddr::V6(1, 2, 3, 4, 5, 6, 0x0102, 0x0304)
    );
    assert_eq!(
        ipdata::parse_ip("A:B:C:D:E:F:10:11").unwrap(),
        IpAddr::V6(0xa, 0xb, 0xc, 0xd, 0xe, 0xf, 0x10, 0x11)
    );
}

#[test]
fn parse_rejects_bad_ipv6_forms() {
    assert!(ipdata::parse_ip("1::2::3").is_none());
    assert!(ipdata::parse_ip(":::").is_none());
    assert!(ipdata::parse_ip("12345::").is_none());
    assert!(ipdata::parse_ip("1:2:3:4:5:6:7").is_none());
    assert!(ipdata::parse_ip("1:2:3:4:5:6:7:8:9").is_none());
    assert!(ipdata::parse_ip("1:2:3:4:5:6:7:8::").is_none());
    assert!(ipdata::parse_ip("1.2.3.4::").is_none());
    assert!(ipdata::parse_ip("1:").is_none());
    assert!(ipdata::parse_ip(":1").is_none());
}

#[test]
fn parse_and_format_round_trip() {
    let texts = ["1.1.1.1", "2001:db8::1", "::ffff:1.2.3.4", "::", "1:0:1:1:1:1:1:1"];
    for text in texts {
        let addr = ipdata::parse_ip(text).unwrap();
        assert_eq!(addr.to_text().as_str(), text);
    }
}
