//! Byte-level tests of the wire enumerations and frame codecs.

use socks::addr::SocksAddr;
use socks::error::SocksError;
use socks::socks4::command::Socks4Command;
use socks::socks4::reply::Socks4Reply;
use socks::socks4::request::Socks4Request;
use socks::socks5::addr_type::Socks5AddrType;
use socks::socks5::command::Socks5Command;
use socks::socks5::method::Method;
use socks::socks5::reply::Socks5Reply;
use socks::socks5::request::Socks5Request;
use socks::wire::DecodeResult;

#[test]
fn method_round_trips_every_byte() {
    for b in 0..=255u8 {
        assert_eq!(Method::from_u8(b).to_u8(), b);
    }
}

#[test]
fn method_variants_by_code() {
    assert_eq!(Method::from_u8(0x00), Method::NoAuth);
    assert_eq!(Method::from_u8(0x01), Method::GssApi);
    assert_eq!(Method::from_u8(0x02), Method::UserPass);
    assert_eq!(Method::from_u8(0x10), Method::IanaAssigned(0x10));
    assert_eq!(Method::from_u8(0x7f), Method::IanaAssigned(0x7f));
    assert_eq!(Method::from_u8(0x80), Method::Private(0x80));
    assert_eq!(Method::from_u8(0xfe), Method::Private(0xfe));
    assert_eq!(Method::from_u8(0xff), Method::Unacceptable);
}

#[test]
fn socks4_command_codec() {
    assert_eq!(Socks4Command::try_from_u8(0x01), Ok(Socks4Command::Connect));
    assert_eq!(Socks4Command::try_from_u8(0x02), Ok(Socks4Command::Bind));
    assert_eq!(
        Socks4Command::try_from_u8(0x03),
        Err(SocksError::InvalidCommand(0x03))
    );
    assert_eq!(Socks4Command::Connect.to_u8(), 0x01);
    assert_eq!(Socks4Command::Bind.to_u8(), 0x02);
}

#[test]
fn socks5_command_codec() {
    assert_eq!(Socks5Command::try_from_u8(0x01), Ok(Socks5Command::Connect));
    assert_eq!(Socks5Command::try_from_u8(0x02), Ok(Socks5Command::Bind));
    assert_eq!(
        Socks5Command::try_from_u8(0x03),
        Ok(Socks5Command::Associate)
    );
    assert_eq!(
        Socks5Command::try_from_u8(0x09),
        Err(SocksError::InvalidCommand(0x09))
    );
}

#[test]
fn socks5_addr_type_codec() {
    assert_eq!(Socks5AddrType::try_from_u8(0x01), Ok(Socks5AddrType::IPV4));
    assert_eq!(
        Socks5AddrType::try_from_u8(0x03),
        Ok(Socks5AddrType::Domain)
    );
    assert_eq!(Socks5AddrType::try_from_u8(0x04), Ok(Socks5AddrType::IPV6));
    assert_eq!(
        Socks5AddrType::try_from_u8(0x02),
        Err(SocksError::InvalidAddressType(0x02))
    );
    assert_eq!(Socks5AddrType::Domain.to_u8(), 0x03);
}

#[test]
fn socks5_reply_round_trips_every_byte() {
    for b in 0..=255u8 {
        assert_eq!(Socks5Reply::from_u8(b).to_u8(), b);
    }
    assert_eq!(Socks5Reply::from_u8(0x00), Socks5Reply::Succeeded);
    assert_eq!(Socks5Reply::from_u8(0x07), Socks5Reply::UnsupportedCommand);
    assert_eq!(Socks5Reply::from_u8(0x09), Socks5Reply::Unassigned(0x09));
}

#[test]
fn socks4_reply_codes() {
    assert_eq!(Socks4Reply::Granted.to_u8(), 0x5a);
    assert_eq!(Socks4Reply::Rejected.to_u8(), 0x5b);
    assert_eq!(Socks4Reply::RejectedByCannotConnectIdentd.to_u8(), 0x5c);
    assert_eq!(
        Socks4Reply::RejectedByIdentdReportDifferentUserIds.to_u8(),
        0x5d
    );
    assert_eq!(Socks4Reply::from_u8(0x5a), Socks4Reply::Granted);
    assert_eq!(Socks4Reply::from_u8(0x99), Socks4Reply::Rejected);
}

#[test]
fn v4_request_round_trip_ipv4() {
    let req = Socks4Request::new(
        Socks4Command::Connect,
        SocksAddr::IPV4 {
            ip: [93, 184, 216, 34],
            port: 80,
        },
        String::from("x"),
    );
    let bytes = req.encode();
    assert_eq!(
        bytes,
        vec![0x01, 0x00, 0x50, 0x5d, 0xb8, 0xd8, 0x22, 0x78, 0x00]
    );
    match Socks4Request::decode(&bytes) {
        DecodeResult::Done(back, used) => {
            assert_eq!(back, req);
            assert_eq!(used, bytes.len());
        }
        other => panic!("expected a complete parse, got {:?}", other),
    }
}

#[test]
fn v4_request_round_trip_domain() {
    let req = Socks4Request::new(
        Socks4Command::Connect,
        SocksAddr::Domain(String::from("example.com"), 80),
        String::from("x"),
    );
    let bytes = req.encode();
    let mut expected = vec![0x01, 0x00, 0x50, 0x00, 0x00, 0x00, 0x01, 0x78, 0x00];
    expected.extend_from_slice(b"example.com");
    expected.push(0x00);
    assert_eq!(bytes, expected);
    match Socks4Request::decode(&bytes) {
        DecodeResult::Done(back, used) => {
            assert_eq!(back, req);
            assert_eq!(used, bytes.len());
        }
        other => panic!("expected a complete parse, got {:?}", other),
    }
}

#[test]
fn v4a_marker_is_read_as_domain() {
    let bytes = vec![
        0x01, 0x00, 0x50, 0x00, 0x00, 0x00, 0x07, 0x78, 0x00, 0x65, 0x78, 0x61, 0x6d, 0x70, 0x6c,
        0x65, 0x2e, 0x63, 0x6f, 0x6d, 0x00,
    ];
    match Socks4Request::decode(&bytes) {
        DecodeResult::Done(req, used) => {
            assert_eq!(used, bytes.len());
            assert_eq!(req.command, Socks4Command::Connect);
            assert_eq!(req.user_id, "x");
            assert_eq!(req.addr, SocksAddr::Domain(String::from("example.com"), 80));
        }
        other => panic!("expected a complete parse, got {:?}", other),
    }
}

#[test]
fn v4_request_errors_and_needs() {
    // A bad command byte is rejected as soon as it is present.
    assert_eq!(
        Socks4Request::decode(&vec![0x03]),
        DecodeResult::Fail(SocksError::InvalidCommand(0x03))
    );
    // An empty buffer and a missing user terminator ask for more bytes.
    assert_eq!(Socks4Request::decode(&vec![]), DecodeResult::Need(1));
    assert_eq!(Socks4Request::decode(&vec![0x01, 0x00]), DecodeResult::Need(5));
    assert_eq!(
        Socks4Request::decode(&vec![0x01, 0x00, 0x50, 127, 0, 0, 1, 0x78]),
        DecodeResult::Need(1)
    );
    // A user id that is not UTF-8 is rejected.
    assert_eq!(
        Socks4Request::decode(&vec![0x01, 0x00, 0x50, 127, 0, 0, 1, 0xff, 0x00]),
        DecodeResult::Fail(SocksError::Utf8BytesToStringError)
    );
    // An empty SOCKS4a hostname is rejected.
    assert_eq!(
        Socks4Request::decode(&vec![0x01, 0x00, 0x50, 0, 0, 0, 7, 0x78, 0x00, 0x00]),
        DecodeResult::Fail(SocksError::UnsupportedAddressType(Socks5AddrType::Domain))
    );
}

#[test]
fn v5_request_round_trip_ipv4() {
    let bytes = vec![0x05, 0x01, 0x00, 0x01, 0x7f, 0x00, 0x00, 0x01, 0x00, 0x50];
    match Socks5Request::decode(&bytes) {
        DecodeResult::Done(req, used) => {
            assert_eq!(used, 10);
            assert_eq!(req.command, Socks5Command::Connect);
            assert_eq!(
                req.addr,
                SocksAddr::IPV4 {
                    ip: [127, 0, 0, 1],
                    port: 80
                }
            );
            // Re-encoding yields the identical byte sequence.
            assert_eq!(req.encode(), bytes);
        }
        other => panic!("expected a complete parse, got {:?}", other),
    }
}

#[test]
fn v5_request_round_trip_domain() {
    let req = Socks5Request::new(
        Socks5Command::Connect,
        SocksAddr::Domain(String::from("example.com"), 443),
    );
    let bytes = req.encode();
    let mut expected = vec![0x05, 0x01, 0x00, 0x03, 11];
    expected.extend_from_slice(b"example.com");
    expected.extend_from_slice(&[0x01, 0xbb]);
    assert_eq!(bytes, expected);
    match Socks5Request::decode(&bytes) {
        DecodeResult::Done(back, used) => {
            assert_eq!(back, req);
            assert_eq!(used, bytes.len());
            assert_eq!(back.encode(), bytes);
        }
        other => panic!("expected a complete parse, got {:?}", other),
    }
}

#[test]
fn v5_request_round_trip_ipv6() {
    let req = Socks5Request::new(
        Socks5Command::Bind,
        SocksAddr::IPV6 {
            ip: [0, 1, 2, 3, 4, 5, 6, 7, 8, 9, 10, 11, 12, 13, 14, 15],
            port: 8443,
        },
    );
    let bytes = req.encode();
    assert_eq!(bytes.len(), 22);
    assert_eq!(bytes[0..4], [0x05, 0x02, 0x00, 0x04]);
    match Socks5Request::decode(&bytes) {
        DecodeResult::Done(back, used) => {
            assert_eq!(back, req);
            assert_eq!(used, 22);
            assert_eq!(back.encode(), bytes);
        }
        other => panic!("expected a complete parse, got {:?}", other),
    }
}

#[test]
fn v5_request_errors_and_needs() {
    // Wrong version octet.
    assert_eq!(
        Socks5Request::decode(&vec![0x04, 0x01]),
        DecodeResult::Fail(SocksError::UnsupportedVersion(0x04))
    );
    // Unknown command octet.
    assert_eq!(
        Socks5Request::decode(&vec![0x05, 0x09]),
        DecodeResult::Fail(SocksError::InvalidCommand(0x09))
    );
    // Unknown address type octet.
    assert_eq!(
        Socks5Request::decode(&vec![0x05, 0x01, 0x00, 0x02]),
        DecodeResult::Fail(SocksError::InvalidAddressType(0x02))
    );
    // A zero-length domain.
    assert_eq!(
        Socks5Request::decode(&vec![0x05, 0x01, 0x00, 0x03, 0x00]),
        DecodeResult::Fail(SocksError::UnsupportedAddressType(Socks5AddrType::Domain))
    );
    // A domain that is not UTF-8.
    assert_eq!(
        Socks5Request::decode(&vec![0x05, 0x01, 0x00, 0x03, 0x01, 0xff, 0x00, 0x50]),
        DecodeResult::Fail(SocksError::Utf8BytesToStringError)
    );
    // Short buffers ask for the bytes the next field needs.
    assert_eq!(Socks5Request::decode(&vec![]), DecodeResult::Need(1));
    assert_eq!(Socks5Request::decode(&vec![0x05]), DecodeResult::Need(1));
    assert_eq!(
        Socks5Request::decode(&vec![0x05, 0x01, 0x00, 0x01, 0x7f]),
        DecodeResult::Need(5)
    );
}

#[test]
fn v5_reply_frames() {
    let bound = SocksAddr::IPV4 {
        ip: [127, 0, 0, 1],
        port: 80,
    };
    assert_eq!(
        Socks5Reply::Succeeded.reply(&bound),
        vec![0x05, 0x00, 0x00, 0x01, 0x7f, 0x00, 0x00, 0x01, 0x00, 0x50]
    );
    assert_eq!(
        Socks5Reply::UnsupportedCommand.reply(&SocksAddr::unspecified()),
        vec![0x05, 0x07, 0x00, 0x01, 0x00, 0x00, 0x00, 0x00, 0x00, 0x00]
    );
    let v6 = SocksAddr::IPV6 {
        ip: [0; 16],
        port: 443,
    };
    let frame = Socks5Reply::HostUnreachable.reply(&v6);
    assert_eq!(frame.len(), 22);
    assert_eq!(frame[0..4], [0x05, 0x04, 0x00, 0x04]);
    assert_eq!(frame[20..22], [0x01, 0xbb]);
}

#[test]
fn v4_reply_frames() {
    let bound = SocksAddr::IPV4 {
        ip: [93, 184, 216, 34],
        port: 80,
    };
    assert_eq!(
        Socks4Reply::Granted.reply(&bound),
        vec![0x00, 0x5a, 0x00, 0x50, 0x5d, 0xb8, 0xd8, 0x22]
    );
    // An IPv6 bound address cannot be carried in a v4 reply: all zeros.
    let v6 = SocksAddr::IPV6 {
        ip: [1; 16],
        port: 80,
    };
    assert_eq!(
        Socks4Reply::Granted.reply(&v6),
        vec![0x00, 0x5a, 0x00, 0x50, 0x00, 0x00, 0x00, 0x00]
    );
    assert_eq!(
        Socks4Reply::Rejected.reply(&SocksAddr::unspecified()),
        vec![0x00, 0x5b, 0x00, 0x00, 0x00, 0x00, 0x00, 0x00]
    );
}

#[test]
fn addr_text_and_port() {
    let v4 = SocksAddr::IPV4 {
        ip: [127, 0, 0, 1],
        port: 80,
    };
    assert_eq!(v4.domain(), "127.0.0.1");
    assert_eq!(v4.port(), 80);
    let dom = SocksAddr::Domain(String::from("example.com"), 443);
    assert_eq!(dom.domain(), "example.com");
    assert_eq!(dom.port(), 443);
    let v6 = SocksAddr::IPV6 {
        ip: [
            0x20, 0x01, 0x0d, 0xb8, 0x00, 0x00, 0x00, 0x00, 0x00, 0x00, 0x00, 0x00, 0x00, 0x00,
            0x00, 0x01,
        ],
        port: 8080,
    };
    assert_eq!(v6.domain(), "2001:0db8:0000:0000:0000:0000:0000:0001");
    assert_eq!(v6.port(), 8080);
    assert_eq!(SocksAddr::IPV4 { ip: [255, 200, 30, 5], port: 0 }.domain(), "255.200.30.5");
}

#[test]
fn addr_well_formedness() {
    assert!(SocksAddr::unspecified().wf_check());
    assert!(SocksAddr::Domain(String::from("a"), 1).wf_check());
    assert!(!SocksAddr::Domain(String::new(), 1).wf_check());
    let long = "a".repeat(256);
    assert!(!SocksAddr::Domain(long, 1).wf_check());
    let edge = "a".repeat(255);
    assert!(SocksAddr::Domain(edge, 1).wf_check());
}
