use conncore::addr::HostIp;
use conncore::addr::SockAddr;
use conncore::connect::Destination;
use conncore::connect::EstabDirective;
use conncore::connect::EstabEvent;
use conncore::connect::HttpConnector;
use conncore::connect::UriScheme;
use conncore::dialer::DialOutcome;
use conncore::error::ConnectError;
use conncore::error::InvalidUrl;
use conncore::error::IoError;
use conncore::eyeballs::Branch;

fn http_dst(host: &[u8], port: Option<u16>) -> Destination {
    Destination { scheme: Some(UriScheme::Http), host: Some(host.to_vec()), port }
}

fn connector() -> HttpConnector<()> {
    HttpConnector::new_with_resolver(())
}

#[test]
fn literal_ip_short_circuits_and_connects() {
    // "192.0.2.1", port 80, enforce_http on, scheme http: the first
    // poll never asks for resolution; a dial capability that always
    // succeeds produces a transport with remote_addr 192.0.2.1:80.
    let c = connector();
    let mut conn = c.connect(http_dst(b"192.0.2.1", Some(80)));
    let expected = SockAddr { ip: HostIp::V4((192u32 << 24) | (2 << 8) | 1), port: 80 };
    let d = conn.advance(EstabEvent::Poll);
    assert_eq!(d, EstabDirective::Dial(Branch::Preferred, expected));
    let d = conn.advance(EstabEvent::Dial(DialOutcome::Succeeded));
    assert_eq!(d, EstabDirective::ApplyOptions(expected));
    match conn.advance(EstabEvent::OptionsApplied) {
        EstabDirective::Ready(info) => assert_eq!(info.remote_addr(), expected),
        other => panic!("expected readiness, got {:?}", other),
    }
}

#[test]
fn https_with_enforcement_is_not_http() {
    // scheme https with enforce_http on: an immediate invalid-input
    // error, no dial attempted.
    let c = connector();
    let mut conn = c.connect(Destination {
        scheme: Some(UriScheme::Https),
        host: Some(b"example.com".to_vec()),
        port: None,
    });
    let d = conn.advance(EstabEvent::Poll);
    assert_eq!(d, EstabDirective::Fail(ConnectError::Invalid(InvalidUrl::NotHttp)));
}

#[test]
fn missing_scheme_without_enforcement() {
    let mut c = connector();
    c.enforce_http(false);
    let mut conn = c.connect(Destination {
        scheme: None,
        host: Some(b"example.com".to_vec()),
        port: None,
    });
    assert_eq!(
        conn.advance(EstabEvent::Poll),
        EstabDirective::Fail(ConnectError::Invalid(InvalidUrl::MissingScheme)),
    );
}

#[test]
fn missing_host_is_rejected() {
    let c = connector();
    let mut conn = c.connect(Destination {
        scheme: Some(UriScheme::Http),
        host: None,
        port: None,
    });
    assert_eq!(
        conn.advance(EstabEvent::Poll),
        EstabDirective::Fail(ConnectError::Invalid(InvalidUrl::MissingAuthority)),
    );
}

#[test]
fn default_ports_follow_scheme() {
    let mut c = connector();
    c.enforce_http(false);
    let conn = c.connect(Destination {
        scheme: Some(UriScheme::Https),
        host: Some(b"192.0.2.7".to_vec()),
        port: None,
    });
    assert_eq!(conn.port, 443);
    let conn = c.connect(http_dst(b"192.0.2.7", None));
    assert_eq!(conn.port, 80);
    let conn = c.connect(http_dst(b"192.0.2.7", Some(8080)));
    assert_eq!(conn.port, 8080);
}

#[test]
fn hostname_goes_through_resolution() {
    let c = connector();
    let mut conn = c.connect(http_dst(b"example.com", Some(80)));
    assert_eq!(conn.advance(EstabEvent::Poll), EstabDirective::Resolve);
    let d = conn.advance(EstabEvent::Resolved(vec![HostIp::V4(0x7F000001)]));
    assert_eq!(
        d,
        EstabDirective::Dial(Branch::Preferred, SockAddr { ip: HostIp::V4(0x7F000001), port: 80 }),
    );
}

#[test]
fn resolver_failure_is_terminal() {
    let c = connector();
    let mut conn = c.connect(http_dst(b"example.com", Some(80)));
    assert_eq!(conn.advance(EstabEvent::Poll), EstabDirective::Resolve);
    assert_eq!(
        conn.advance(EstabEvent::ResolveFailed(IoError { code: 11 })),
        EstabDirective::Fail(ConnectError::Resolve(IoError { code: 11 })),
    );
}

#[test]
fn empty_resolution_has_no_addresses() {
    let c = connector();
    let mut conn = c.connect(http_dst(b"example.com", Some(80)));
    assert_eq!(conn.advance(EstabEvent::Poll), EstabDirective::Resolve);
    assert_eq!(
        conn.advance(EstabEvent::Resolved(Vec::new())),
        EstabDirective::Fail(ConnectError::NoAddresses),
    );
}

#[test]
fn socket_option_failure_aborts_establishment() {
    let c = connector();
    let mut conn = c.connect(http_dst(b"192.0.2.1", Some(80)));
    let _ = conn.advance(EstabEvent::Poll);
    let _ = conn.advance(EstabEvent::Dial(DialOutcome::Succeeded));
    assert_eq!(
        conn.advance(EstabEvent::OptionsFailed(IoError { code: 22 })),
        EstabDirective::Fail(ConnectError::SocketOption(IoError { code: 22 })),
    );
}

#[test]
fn dial_failures_exhaust_to_last_error() {
    let c = connector();
    let mut conn = c.connect(http_dst(b"example.com", Some(80)));
    assert_eq!(conn.advance(EstabEvent::Poll), EstabDirective::Resolve);
    let ips = vec![HostIp::V4(1), HostIp::V4(2)];
    let d = conn.advance(EstabEvent::Resolved(ips));
    assert_eq!(
        d,
        EstabDirective::Dial(Branch::Preferred, SockAddr { ip: HostIp::V4(1), port: 80 }),
    );
    let d = conn.advance(EstabEvent::Dial(DialOutcome::Failed(IoError { code: 101 })));
    assert_eq!(
        d,
        EstabDirective::Dial(Branch::Preferred, SockAddr { ip: HostIp::V4(2), port: 80 }),
    );
    assert_eq!(
        conn.advance(EstabEvent::Dial(DialOutcome::Failed(IoError { code: 102 }))),
        EstabDirective::Fail(ConnectError::Dial(IoError { code: 102 })),
    );
}

#[test]
fn connector_defaults_and_setters() {
    let mut c = connector();
    assert_eq!(c.enforce_http, true);
    assert_eq!(c.happy_eyeballs_timeout_ms, Some(300));
    assert_eq!(c.keep_alive_ms, None);
    assert_eq!(c.local_address, None);
    assert_eq!(c.nodelay, false);
    assert_eq!(c.reuse_address, false);
    assert_eq!(c.send_buffer_size, None);
    assert_eq!(c.recv_buffer_size, None);
    c.set_keepalive(Some(7000));
    c.set_nodelay(true);
    c.set_send_buffer_size(Some(4096));
    c.set_recv_buffer_size(Some(8192));
    c.set_local_address(Some(HostIp::V4(0x7F000001)));
    c.set_happy_eyeballs_timeout(None);
    c.set_reuse_address(true);
    assert_eq!(c.keep_alive_ms, Some(7000));
    assert_eq!(c.nodelay, true);
    assert_eq!(c.send_buffer_size, Some(4096));
    assert_eq!(c.recv_buffer_size, Some(8192));
    assert_eq!(c.local_address, Some(HostIp::V4(0x7F000001)));
    assert_eq!(c.happy_eyeballs_timeout_ms, None);
    assert_eq!(c.reuse_address, true);
}

#[test]
fn configuration_reaches_the_machine() {
    let mut c = connector();
    c.set_keepalive(Some(7000));
    c.set_nodelay(true);
    let conn = c.connect(http_dst(b"192.0.2.1", Some(80)));
    assert_eq!(conn.keep_alive_ms, Some(7000));
    assert_eq!(conn.nodelay, true);
    assert_eq!(conn.happy_eyeballs_timeout_ms, Some(300));
    assert_eq!(conn.host, b"192.0.2.1".to_vec());
}

#[test]
fn invalid_url_descriptions() {
    assert_eq!(InvalidUrl::MissingScheme.description(), "invalid URL, missing scheme");
    assert_eq!(InvalidUrl::NotHttp.description(), "invalid URL, scheme must be http");
    assert_eq!(InvalidUrl::MissingAuthority.description(), "invalid URL, missing domain");
}
