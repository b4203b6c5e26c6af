use conncore::addr::HostIp;
use conncore::ip::parse_ip_literal;
use conncore::ip::parse_ipv4;
use conncore::ip::parse_ipv6;

#[test]
fn parses_plain_dotted_quad() {
    let v = (192u32 << 24) | (2 << 8) | 1;
    assert_eq!(parse_ipv4(b"192.0.2.1".as_slice()), Some(v));
    assert_eq!(parse_ip_literal(b"192.0.2.1".as_slice()), Some(HostIp::V4(v)));
}

#[test]
fn parses_extremes() {
    assert_eq!(parse_ipv4(b"0.0.0.0".as_slice()), Some(0));
    assert_eq!(parse_ipv4(b"255.255.255.255".as_slice()), Some(u32::MAX));
    assert_eq!(parse_ipv4(b"127.0.0.1".as_slice()), Some((127u32 << 24) | 1));
}

#[test]
fn rejects_leading_zeros() {
    assert_eq!(parse_ipv4(b"01.2.3.4".as_slice()), None);
    assert_eq!(parse_ipv4(b"1.2.3.04".as_slice()), None);
    assert_eq!(parse_ipv4(b"00.0.0.0".as_slice()), None);
}

#[test]
fn rejects_out_of_range_octets() {
    assert_eq!(parse_ipv4(b"256.1.1.1".as_slice()), None);
    assert_eq!(parse_ipv4(b"1.1.1.999".as_slice()), None);
    assert_eq!(parse_ipv4(b"1234.1.1.1".as_slice()), None);
}

#[test]
fn rejects_malformed_shapes() {
    assert_eq!(parse_ipv4(b"".as_slice()), None);
    assert_eq!(parse_ipv4(b"1.2.3".as_slice()), None);
    assert_eq!(parse_ipv4(b"1.2.3.4.5".as_slice()), None);
    assert_eq!(parse_ipv4(b"1..3.4".as_slice()), None);
    assert_eq!(parse_ipv4(b"1.2.3.".as_slice()), None);
    assert_eq!(parse_ipv4(b".1.2.3".as_slice()), None);
    assert_eq!(parse_ipv4(b"1.2.3.4 ".as_slice()), None);
    assert_eq!(parse_ipv4(b"a.b.c.d".as_slice()), None);
    assert_eq!(parse_ipv4(b"example.com".as_slice()), None);
}

#[test]
fn hostnames_are_not_literals() {
    assert_eq!(parse_ip_literal(b"localhost".as_slice()), None);
    assert_eq!(parse_ip_literal(b"example.domain".as_slice()), None);
}

#[test]
fn parses_full_ipv6() {
    assert_eq!(
        parse_ipv6(b"2001:db8:0:0:0:0:2:1".as_slice()),
        Some(0x2001_0db8_0000_0000_0000_0000_0002_0001),
    );
    assert_eq!(
        parse_ipv6(b"0:0:0:0:0:0:0:1".as_slice()),
        Some(1),
    );
}

#[test]
fn parses_compressed_ipv6() {
    assert_eq!(parse_ipv6(b"::1".as_slice()), Some(1));
    assert_eq!(parse_ipv6(b"::".as_slice()), Some(0));
    assert_eq!(
        parse_ipv6(b"2001:db8::2:1".as_slice()),
        Some(0x2001_0db8_0000_0000_0000_0000_0002_0001),
    );
    assert_eq!(parse_ipv6(b"fe80::".as_slice()), Some(0xfe80 << 112));
    assert_eq!(parse_ipv6(b"ff::ee".as_slice()), Some((0xff << 112) | 0xee));
}

#[test]
fn parses_ipv6_with_embedded_ipv4() {
    assert_eq!(
        parse_ipv6(b"::ffff:192.0.2.1".as_slice()),
        Some((0xffffu128 << 32) | ((192u128 << 24) | (2 << 8) | 1)),
    );
    assert_eq!(
        parse_ipv6(b"64:ff9b::0.0.0.1".as_slice()),
        Some((0x64u128 << 112) | (0xff9bu128 << 96) | 1),
    );
}

#[test]
fn rejects_malformed_ipv6() {
    assert_eq!(parse_ipv6(b"".as_slice()), None);
    assert_eq!(parse_ipv6(b":".as_slice()), None);
    assert_eq!(parse_ipv6(b":::".as_slice()), None);
    assert_eq!(parse_ipv6(b"1:2:3:4:5:6:7".as_slice()), None);
    assert_eq!(parse_ipv6(b"1:2:3:4:5:6:7:8:9".as_slice()), None);
    assert_eq!(parse_ipv6(b"1:2:3:4:5:6:7:8::".as_slice()), None);
    assert_eq!(parse_ipv6(b"::1:2:3:4:5:6:7:8".as_slice()), None);
    assert_eq!(parse_ipv6(b"12345::".as_slice()), None);
    assert_eq!(parse_ipv6(b"g::1".as_slice()), None);
    assert_eq!(parse_ipv6(b"1::2::3".as_slice()), None);
    assert_eq!(parse_ipv6(b"1.2.3.4::".as_slice()), None);
    assert_eq!(parse_ipv6(b"::1.2.3.4:5".as_slice()), None);
}

#[test]
fn bracketed_ipv6_hosts_are_literals() {
    assert_eq!(parse_ip_literal(b"[::1]".as_slice()), Some(HostIp::V6(1)));
    assert_eq!(
        parse_ip_literal(b"2001:db8::2:1".as_slice()),
        Some(HostIp::V6(0x2001_0db8_0000_0000_0000_0000_0002_0001)),
    );
    assert_eq!(parse_ip_literal(b"[::zz]".as_slice()), None);
    assert_eq!(parse_ip_literal(b"[".as_slice()), None);
}
