use arta::addr::{IpAddr, Ipv4Addr, Ipv6Addr, SocketAddr, SocketAddrV4, SocketAddrV6};
use arta::error::{ErrorKind, IoError};
use arta::resolve::{send_target, AddrRetry, RetryAction, ToSocketAddrs};
use arta::runtime::{AsyncStdGlobalRuntime, TokioGlobalRuntime};

fn v4(a: u8, b: u8, c: u8, d: u8, port: u16) -> SocketAddr {
    SocketAddr::new(IpAddr::V4(Ipv4Addr::new(a, b, c, d)), port)
}

fn refused() -> IoError {
    IoError::new(ErrorKind::ConnectionRefused, "connection refused")
}

#[test]
fn ipv4_octets_make_big_endian_bits() {
    assert_eq!(Ipv4Addr::new(127, 0, 0, 1).bits, 0x7f00_0001);
    assert_eq!(Ipv4Addr::new(192, 168, 1, 20).bits, 0xc0a8_0114);
    assert_eq!(Ipv4Addr::new(255, 255, 255, 255).bits, u32::MAX);
}

#[test]
fn socket_addr_new_and_accessors() {
    let a = v4(10, 0, 0, 1, 8080);
    assert_eq!(a.port(), 8080);
    assert_eq!(a.ip(), IpAddr::V4(Ipv4Addr::new(10, 0, 0, 1)));
    let six = SocketAddr::new(IpAddr::V6(Ipv6Addr { bits: 1 }), 443);
    assert_eq!(
        six,
        SocketAddr::V6(SocketAddrV6 { ip: Ipv6Addr { bits: 1 }, port: 443, flowinfo: 0, scope_id: 0 })
    );
    assert_eq!(six.port(), 443);
}

#[test]
fn literal_specifications_resolve_to_one_address() {
    let a = v4(127, 0, 0, 1, 80);
    let got = <SocketAddr as ToSocketAddrs<TokioGlobalRuntime>>::to_socket_addrs(&a, &TokioGlobalRuntime).unwrap();
    assert_eq!(got, vec![a]);

    let sv4 = SocketAddrV4 { ip: Ipv4Addr::new(127, 0, 0, 1), port: 80 };
    let got = <SocketAddrV4 as ToSocketAddrs<TokioGlobalRuntime>>::to_socket_addrs(&sv4, &TokioGlobalRuntime).unwrap();
    assert_eq!(got, vec![a]);

    let sv6 = SocketAddrV6 { ip: Ipv6Addr { bits: 1 }, port: 9, flowinfo: 3, scope_id: 4 };
    let got = <SocketAddrV6 as ToSocketAddrs<AsyncStdGlobalRuntime>>::to_socket_addrs(&sv6, &AsyncStdGlobalRuntime).unwrap();
    assert_eq!(got, vec![SocketAddr::V6(sv6)]);

    let pair = (Ipv4Addr::new(127, 0, 0, 1), 80u16);
    let got = <(Ipv4Addr, u16) as ToSocketAddrs<TokioGlobalRuntime>>::to_socket_addrs(&pair, &TokioGlobalRuntime).unwrap();
    assert_eq!(got, vec![a]);

    let pair = (Ipv6Addr { bits: 1 }, 9u16);
    let got = <(Ipv6Addr, u16) as ToSocketAddrs<TokioGlobalRuntime>>::to_socket_addrs(&pair, &TokioGlobalRuntime).unwrap();
    assert_eq!(got, vec![SocketAddr::V6(SocketAddrV6 { ip: Ipv6Addr { bits: 1 }, port: 9, flowinfo: 0, scope_id: 0 })]);

    let pair = (IpAddr::V4(Ipv4Addr::new(127, 0, 0, 1)), 80u16);
    let got = <(IpAddr, u16) as ToSocketAddrs<TokioGlobalRuntime>>::to_socket_addrs(&pair, &TokioGlobalRuntime).unwrap();
    assert_eq!(got, vec![a]);
}

#[test]
fn slice_specification_keeps_order() {
    let list = [v4(10, 0, 0, 3, 1), v4(10, 0, 0, 1, 2), v4(10, 0, 0, 2, 3)];
    let spec: &[SocketAddr] = &list;
    let got = <&[SocketAddr] as ToSocketAddrs<TokioGlobalRuntime>>::to_socket_addrs(&spec, &TokioGlobalRuntime).unwrap();
    assert_eq!(got, list.to_vec());
}

#[test]
fn first_success_stops_the_fallback() {
    let addrs = vec![v4(10, 0, 0, 1, 80), v4(10, 0, 0, 2, 80), v4(10, 0, 0, 3, 80), v4(10, 0, 0, 4, 80)];
    let mut retry = AddrRetry::new(addrs.clone());
    let mut tried = Vec::new();
    loop {
        match retry.next_action() {
            RetryAction::Attempt(a) => {
                tried.push(a);
                if a == addrs[2] {
                    retry.record_success();
                } else {
                    retry.record_failure(refused());
                }
            }
            RetryAction::Finish(i) => {
                assert_eq!(i, 2);
                break;
            }
            RetryAction::Fail(e) => panic!("unexpected failure {:?}", e),
        }
    }
    assert_eq!(tried, addrs[..3].to_vec());
}

#[test]
fn success_on_the_first_address_tries_nothing_else() {
    let addrs = vec![v4(10, 0, 0, 1, 80), v4(10, 0, 0, 2, 80)];
    let mut retry = AddrRetry::new(addrs.clone());
    match retry.next_action() {
        RetryAction::Attempt(a) => assert_eq!(a, addrs[0]),
        _ => panic!("an attempt was expected"),
    }
    retry.record_success();
    assert!(matches!(retry.next_action(), RetryAction::Finish(0)));
    // Further reports change nothing once the fallback has finished.
    retry.record_failure(refused());
    assert!(matches!(retry.next_action(), RetryAction::Finish(0)));
}

#[test]
fn all_failures_report_the_last_error() {
    let addrs = vec![v4(10, 0, 0, 1, 80), v4(10, 0, 0, 2, 80), v4(10, 0, 0, 3, 80)];
    let errors = [
        IoError::new(ErrorKind::ConnectionRefused, "first"),
        IoError::new(ErrorKind::TimedOut, "second"),
        IoError::new(ErrorKind::AddrNotAvailable, "third"),
    ];
    let mut retry = AddrRetry::new(addrs.clone());
    let mut tried = Vec::new();
    let mut n = 0;
    let failure = loop {
        match retry.next_action() {
            RetryAction::Attempt(a) => {
                tried.push(a);
                retry.record_failure(errors[n].clone());
                n += 1;
            }
            RetryAction::Finish(_) => panic!("no attempt succeeded"),
            RetryAction::Fail(e) => break e,
        }
    };
    assert_eq!(tried, addrs);
    assert_eq!(failure.kind(), ErrorKind::AddrNotAvailable);
    assert_eq!(failure.message(), "third");
}

#[test]
fn no_address_fails_with_input_error() {
    let retry = AddrRetry::new(Vec::new());
    match retry.next_action() {
        RetryAction::Fail(e) => {
            assert_eq!(e.kind(), ErrorKind::InvalidInput);
            assert_eq!(e.message(), "no address was resolved");
        }
        _ => panic!("an empty address list must fail"),
    }
}

#[test]
fn udp_bind_to_empty_list_fails_with_input_error() {
    let empty: &[SocketAddr] = &[];
    let retry = AddrRetry::resolve(&empty, &TokioGlobalRuntime).unwrap();
    match retry.next_action() {
        RetryAction::Fail(e) => {
            assert_eq!(e.kind(), ErrorKind::InvalidInput);
            assert_ne!(e.kind(), ErrorKind::ConnectionRefused);
        }
        _ => panic!("binding to no address must fail at once"),
    }
}

#[test]
fn send_target_is_the_first_address() {
    let addrs = vec![v4(10, 0, 0, 9, 53), v4(10, 0, 0, 8, 53)];
    assert_eq!(send_target(&addrs).unwrap(), addrs[0]);
    let e = send_target(&Vec::new()).unwrap_err();
    assert_eq!(e.kind(), ErrorKind::InvalidInput);
    assert_eq!(e.message(), "no address was resolved");
}

#[test]
fn io_error_clone_keeps_kind_and_message() {
    let e = IoError::new(ErrorKind::NotFound, "missing");
    let c = e.clone();
    assert_eq!(c.kind, ErrorKind::NotFound);
    assert_eq!(c.message, "missing");
}
