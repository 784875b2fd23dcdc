use fariba_ddns::ip::{parse_ip, parse_ipv4, parse_ipv6, IpAddress, IpVersion};

#[test]
fn dotted_quad_parses_to_its_value() {
    assert_eq!(parse_ipv4(b"203.0.113.5"), Some(0xCB007105));
    assert_eq!(parse_ipv4(b"0.0.0.0"), Some(0));
    assert_eq!(parse_ipv4(b"255.255.255.255"), Some(u32::MAX));
    assert_eq!(parse_ipv4(b"1.2.3.4"), Some(0x01020304));
}

#[test]
fn dotted_quad_rejects_malformed_input() {
    assert_eq!(parse_ipv4(b""), None);
    assert_eq!(parse_ipv4(b"1.2.3"), None);
    assert_eq!(parse_ipv4(b"1.2.3.4.5"), None);
    assert_eq!(parse_ipv4(b"256.0.0.1"), None);
    assert_eq!(parse_ipv4(b"01.2.3.4"), None);
    assert_eq!(parse_ipv4(b"1.2.3.x"), None);
    assert_eq!(parse_ipv4(b"1..3.4"), None);
    assert_eq!(parse_ipv4(b" 1.2.3.4"), None);
}

#[test]
fn colon_groups_parse_to_their_value() {
    assert_eq!(
        parse_ipv6(b"2001:db8:0:0:0:0:0:1"),
        Some(0x2001_0db8_0000_0000_0000_0000_0000_0001)
    );
    assert_eq!(parse_ipv6(b"2001:db8::1"), Some(0x2001_0db8_0000_0000_0000_0000_0000_0001));
    assert_eq!(parse_ipv6(b"::1"), Some(1));
    assert_eq!(parse_ipv6(b"::"), Some(0));
    assert_eq!(parse_ipv6(b"fe80::"), Some(0xfe80_0000_0000_0000_0000_0000_0000_0000));
    assert_eq!(
        parse_ipv6(b"ABCD:ef01:2345:6789:abcd:EF01:2345:6789"),
        Some(0xabcd_ef01_2345_6789_abcd_ef01_2345_6789)
    );
}

#[test]
fn colon_groups_accept_an_embedded_dotted_quad() {
    assert_eq!(parse_ipv6(b"::ffff:192.0.2.1"), Some(0x0000_0000_0000_0000_0000_ffff_c000_0201));
    assert_eq!(
        parse_ipv6(b"64:ff9b::203.0.113.5"),
        Some(0x0064_ff9b_0000_0000_0000_0000_cb00_7105)
    );
    assert_eq!(
        parse_ipv6(b"0:0:0:0:0:0:13.1.68.3"),
        Some(0x0000_0000_0000_0000_0000_0000_0d01_4403)
    );
}

#[test]
fn colon_groups_reject_malformed_input() {
    assert_eq!(parse_ipv6(b""), None);
    assert_eq!(parse_ipv6(b"1:2:3:4:5:6:7"), None);
    assert_eq!(parse_ipv6(b"1:2:3:4:5:6:7:8:9"), None);
    assert_eq!(parse_ipv6(b"1:2:3:4:5:6:7::8"), None);
    assert_eq!(parse_ipv6(b"1:::2"), None);
    assert_eq!(parse_ipv6(b"::1::2"), None);
    assert_eq!(parse_ipv6(b"12345::"), None);
    assert_eq!(parse_ipv6(b"g::1"), None);
    assert_eq!(parse_ipv6(b":1:2:3:4:5:6:7"), None);
    assert_eq!(parse_ipv6(b"1.2.3.4::"), None);
}

#[test]
fn either_family_is_recognized() {
    assert_eq!(parse_ip(b"203.0.113.9"), Some(IpAddress::V4(0xCB007109)));
    assert_eq!(parse_ip(b"::1"), Some(IpAddress::V6(1)));
    assert_eq!(parse_ip(b"not an address"), None);
}

#[test]
fn family_follows_the_variant() {
    assert_eq!(IpAddress::V4(1).family(), IpVersion::V4);
    assert_eq!(IpAddress::V6(1).family(), IpVersion::V6);
}
