//! End-to-end scenarios of the SOCKS5 state machine, driven with the
//! literal byte sequences a client would send.

use socks::addr::SocksAddr;
use socks::error::ExecError;
use socks::error::SocksError;
use socks::socks5::command::Socks5Command;
use socks::socks5::method::default_negotiate_method;
use socks::socks5::method::Method;
use socks::socks5::Socks5;
use socks::socks5::Socks5Effect;
use socks::socks5::Socks5Event;
use socks::socks5::reply::Socks5Reply;
use socks::socks5::HandshakeError;
use socks::socks5::Socks5Phase;

fn peer() -> SocksAddr {
    SocksAddr::IPV4 {
        ip: [10, 0, 0, 2],
        port: 40000,
    }
}

fn local() -> SocksAddr {
    SocksAddr::IPV4 {
        ip: [10, 0, 0, 1],
        port: 1080,
    }
}

fn machine() -> Socks5 {
    Socks5::new(peer(), local())
}

#[test]
fn no_auth_connect_scenario() {
    let mut m = machine();
    // Greeting `05 01 00`: the dispatcher consumed the version octet.
    let out = m.step(Socks5Event::Data(vec![0x01, 0x00]));
    assert_eq!(out.write, None);
    assert_eq!(
        out.effect,
        Some(Socks5Effect::AskMethod(vec![Method::NoAuth]))
    );
    assert_eq!(m.phase, Socks5Phase::SelectingMethod);

    let out = m.step(Socks5Event::MethodChosen(Method::NoAuth));
    assert_eq!(out.write, Some(vec![0x05, 0x00]));
    assert_eq!(out.effect, None);
    assert_eq!(m.phase, Socks5Phase::Request);

    // Request `05 01 00 01 7F 00 00 01 00 50`: CONNECT 127.0.0.1:80.
    let out = m.step(Socks5Event::Data(vec![
        0x05, 0x01, 0x00, 0x01, 0x7f, 0x00, 0x00, 0x01, 0x00, 0x50,
    ]));
    assert_eq!(out.write, None);
    assert_eq!(
        out.effect,
        Some(Socks5Effect::AskCommand(Socks5Command::Connect))
    );

    let dest = SocksAddr::IPV4 {
        ip: [127, 0, 0, 1],
        port: 80,
    };
    let out = m.step(Socks5Event::CommandAllowed(true));
    assert_eq!(out.effect, Some(Socks5Effect::AskAddress(dest.clone())));

    let out = m.step(Socks5Event::AddressAllowed(true));
    assert_eq!(out.effect, Some(Socks5Effect::Connect(dest)));
    assert_eq!(m.phase, Socks5Phase::Executing);

    let bound = SocksAddr::IPV4 {
        ip: [10, 0, 0, 1],
        port: 4321,
    };
    let out = m.step(Socks5Event::ConnectOk(bound));
    assert_eq!(
        out.write,
        Some(vec![0x05, 0x00, 0x00, 0x01, 0x0a, 0x00, 0x00, 0x01, 0x10, 0xe1])
    );
    assert_eq!(out.effect, Some(Socks5Effect::StartRelay));
    assert_eq!(m.phase, Socks5Phase::Relaying);
}

#[test]
fn user_pass_success_scenario() {
    let mut m = machine();
    // Greeting `05 01 02`.
    let out = m.step(Socks5Event::Data(vec![0x01, 0x02]));
    assert_eq!(
        out.effect,
        Some(Socks5Effect::AskMethod(vec![Method::UserPass]))
    );

    let out = m.step(Socks5Event::MethodChosen(Method::UserPass));
    assert_eq!(out.write, Some(vec![0x05, 0x02]));
    assert_eq!(m.phase, Socks5Phase::AuthUserPass);

    // Sub-negotiation `01 01 75 02 70 77`: credentials `u` / `pw`.
    let out = m.step(Socks5Event::Data(vec![0x01, 0x01, 0x75, 0x02, 0x70, 0x77]));
    assert_eq!(out.write, None);
    assert_eq!(
        out.effect,
        Some(Socks5Effect::AskUserPass(
            String::from("u"),
            String::from("pw")
        ))
    );

    let out = m.step(Socks5Event::AuthResult(true));
    assert_eq!(out.write, Some(vec![0x01, 0x00]));
    assert_eq!(out.effect, None);
    assert_eq!(m.phase, Socks5Phase::Request);
}

#[test]
fn user_pass_failure_scenario() {
    let mut m = machine();
    m.step(Socks5Event::Data(vec![0x01, 0x02]));
    let out = m.step(Socks5Event::MethodChosen(Method::UserPass));
    assert_eq!(out.write, Some(vec![0x05, 0x02]));
    m.step(Socks5Event::Data(vec![0x01, 0x01, 0x75, 0x02, 0x70, 0x77]));
    let out = m.step(Socks5Event::AuthResult(false));
    assert_eq!(out.write, Some(vec![0x01, 0x01]));
    assert_eq!(out.effect, Some(Socks5Effect::Shutdown));
    assert_eq!(m.phase, Socks5Phase::Failed);
    assert_eq!(m.error, Some(SocksError::AuthFailed));
}

#[test]
fn unsupported_command_scenario() {
    let mut m = machine();
    m.step(Socks5Event::Data(vec![0x01, 0x00]));
    let out = m.step(Socks5Event::MethodChosen(Method::NoAuth));
    assert_eq!(out.write, Some(vec![0x05, 0x00]));
    // Request with command `0x09`.
    let out = m.step(Socks5Event::Data(vec![
        0x05, 0x09, 0x00, 0x01, 0x00, 0x00, 0x00, 0x00, 0x00, 0x00,
    ]));
    assert_eq!(
        out.write,
        Some(vec![0x05, 0x07, 0x00, 0x01, 0x00, 0x00, 0x00, 0x00, 0x00, 0x00])
    );
    assert_eq!(out.effect, Some(Socks5Effect::Shutdown));
    assert_eq!(m.phase, Socks5Phase::Failed);
    assert_eq!(m.error, Some(SocksError::InvalidCommand(0x09)));
}

#[test]
fn bad_request_version_writes_no_reply() {
    let mut m = machine();
    m.step(Socks5Event::Data(vec![0x01, 0x00]));
    m.step(Socks5Event::MethodChosen(Method::NoAuth));
    let out = m.step(Socks5Event::Data(vec![
        0x04, 0x01, 0x00, 0x01, 0x7f, 0x00, 0x00, 0x01, 0x00, 0x50,
    ]));
    assert_eq!(out.write, None);
    assert_eq!(out.effect, Some(Socks5Effect::Shutdown));
    assert_eq!(m.phase, Socks5Phase::Failed);
    assert_eq!(m.error, Some(SocksError::UnsupportedVersion(0x04)));
}

#[test]
fn no_acceptable_method_closes_gracefully() {
    let mut m = machine();
    m.step(Socks5Event::Data(vec![0x01, 0x00]));
    // The handler picks a method the client never offered: coerced to
    // no-acceptable, reported, and the connection ends without error.
    let out = m.step(Socks5Event::MethodChosen(Method::UserPass));
    assert_eq!(out.write, Some(vec![0x05, 0xff]));
    assert_eq!(out.effect, Some(Socks5Effect::Shutdown));
    assert_eq!(m.phase, Socks5Phase::Done);
    assert_eq!(m.error, None);
}

#[test]
fn gssapi_selection_is_not_implemented() {
    let mut m = machine();
    m.step(Socks5Event::Data(vec![0x02, 0x00, 0x01]));
    let out = m.step(Socks5Event::MethodChosen(Method::GssApi));
    assert_eq!(out.write, Some(vec![0x05, 0x01]));
    assert_eq!(out.effect, Some(Socks5Effect::Shutdown));
    assert_eq!(m.phase, Socks5Phase::Failed);
    assert_eq!(m.error, Some(SocksError::NotImplemented));
}

#[test]
fn bad_subnegotiation_version_fails_auth() {
    let mut m = machine();
    m.step(Socks5Event::Data(vec![0x01, 0x02]));
    m.step(Socks5Event::MethodChosen(Method::UserPass));
    // The sub-negotiation version octet must be 0x01, not the SOCKS
    // version.
    let out = m.step(Socks5Event::Data(vec![0x05, 0x01, 0x75]));
    assert_eq!(out.write, Some(vec![0x01, 0x01]));
    assert_eq!(out.effect, Some(Socks5Effect::Shutdown));
    assert_eq!(m.error, Some(SocksError::UnsupportedVersion(0x05)));
}

#[test]
fn pipelined_bytes_are_kept_for_the_next_frame() {
    let mut m = machine();
    // Greeting and request arrive in one chunk.
    let out = m.step(Socks5Event::Data(vec![
        0x01, 0x00, 0x05, 0x01, 0x00, 0x01, 0x7f, 0x00, 0x00, 0x01, 0x00, 0x50,
    ]));
    assert_eq!(
        out.effect,
        Some(Socks5Effect::AskMethod(vec![Method::NoAuth]))
    );
    let out = m.step(Socks5Event::MethodChosen(Method::NoAuth));
    assert_eq!(out.write, Some(vec![0x05, 0x00]));
    assert!(m.wants_data());
    // An empty chunk re-examines the buffered request bytes.
    let out = m.step(Socks5Event::Data(vec![]));
    assert_eq!(
        out.effect,
        Some(Socks5Effect::AskCommand(Socks5Command::Connect))
    );
}

#[test]
fn request_split_across_reads() {
    let mut m = machine();
    m.step(Socks5Event::Data(vec![0x01, 0x00]));
    m.step(Socks5Event::MethodChosen(Method::NoAuth));
    let out = m.step(Socks5Event::Data(vec![0x05, 0x01, 0x00]));
    assert_eq!(out.write, None);
    assert_eq!(out.effect, None);
    let out = m.step(Socks5Event::Data(vec![0x01, 0x7f, 0x00, 0x00]));
    assert_eq!(out.effect, None);
    let out = m.step(Socks5Event::Data(vec![0x01, 0x00, 0x50]));
    assert_eq!(
        out.effect,
        Some(Socks5Effect::AskCommand(Socks5Command::Connect))
    );
}

#[test]
fn associate_gets_command_not_supported() {
    let mut m = machine();
    m.step(Socks5Event::Data(vec![0x01, 0x00]));
    m.step(Socks5Event::MethodChosen(Method::NoAuth));
    let out = m.step(Socks5Event::Data(vec![
        0x05, 0x03, 0x00, 0x01, 0x7f, 0x00, 0x00, 0x01, 0x00, 0x50,
    ]));
    assert_eq!(
        out.effect,
        Some(Socks5Effect::AskCommand(Socks5Command::Associate))
    );
    m.step(Socks5Event::CommandAllowed(true));
    let out = m.step(Socks5Event::AddressAllowed(true));
    assert_eq!(
        out.write,
        Some(vec![0x05, 0x07, 0x00, 0x01, 0x00, 0x00, 0x00, 0x00, 0x00, 0x00])
    );
    assert_eq!(m.error, Some(SocksError::NotImplemented));
}

#[test]
fn command_gate_rejection_replies_07() {
    let mut m = machine();
    m.step(Socks5Event::Data(vec![0x01, 0x00]));
    m.step(Socks5Event::MethodChosen(Method::NoAuth));
    m.step(Socks5Event::Data(vec![
        0x05, 0x02, 0x00, 0x01, 0x7f, 0x00, 0x00, 0x01, 0x00, 0x50,
    ]));
    let out = m.step(Socks5Event::CommandAllowed(false));
    assert_eq!(
        out.write,
        Some(vec![0x05, 0x07, 0x00, 0x01, 0x00, 0x00, 0x00, 0x00, 0x00, 0x00])
    );
    assert_eq!(m.error, Some(SocksError::UnsupportedCommand(0x02)));
}

#[test]
fn address_gate_rejection_replies_08() {
    let mut m = machine();
    m.step(Socks5Event::Data(vec![0x01, 0x00]));
    m.step(Socks5Event::MethodChosen(Method::NoAuth));
    m.step(Socks5Event::Data(vec![
        0x05, 0x01, 0x00, 0x01, 0x7f, 0x00, 0x00, 0x01, 0x00, 0x50,
    ]));
    m.step(Socks5Event::CommandAllowed(true));
    let out = m.step(Socks5Event::AddressAllowed(false));
    assert_eq!(
        out.write,
        Some(vec![0x05, 0x08, 0x00, 0x01, 0x00, 0x00, 0x00, 0x00, 0x00, 0x00])
    );
    let dest = SocksAddr::IPV4 {
        ip: [127, 0, 0, 1],
        port: 80,
    };
    assert_eq!(m.error, Some(SocksError::UnsupportedAddress(dest)));
}

#[test]
fn connect_refused_replies_05() {
    let mut m = machine();
    m.step(Socks5Event::Data(vec![0x01, 0x00]));
    m.step(Socks5Event::MethodChosen(Method::NoAuth));
    m.step(Socks5Event::Data(vec![
        0x05, 0x01, 0x00, 0x01, 0x7f, 0x00, 0x00, 0x01, 0x00, 0x50,
    ]));
    m.step(Socks5Event::CommandAllowed(true));
    m.step(Socks5Event::AddressAllowed(true));
    let out = m.step(Socks5Event::ExecFailed(ExecError::ConnectionRefused));
    assert_eq!(
        out.write,
        Some(vec![0x05, 0x05, 0x00, 0x01, 0x00, 0x00, 0x00, 0x00, 0x00, 0x00])
    );
    assert_eq!(out.effect, Some(Socks5Effect::Shutdown));
    assert_eq!(m.error, Some(SocksError::StdIoError));
}

#[test]
fn bind_flow_ends_without_error() {
    let mut m = machine();
    m.step(Socks5Event::Data(vec![0x01, 0x00]));
    m.step(Socks5Event::MethodChosen(Method::NoAuth));
    let out = m.step(Socks5Event::Data(vec![
        0x05, 0x02, 0x00, 0x01, 0x7f, 0x00, 0x00, 0x01, 0x00, 0x50,
    ]));
    assert_eq!(
        out.effect,
        Some(Socks5Effect::AskCommand(Socks5Command::Bind))
    );
    m.step(Socks5Event::CommandAllowed(true));
    let dest = SocksAddr::IPV4 {
        ip: [127, 0, 0, 1],
        port: 80,
    };
    let out = m.step(Socks5Event::AddressAllowed(true));
    assert_eq!(out.effect, Some(Socks5Effect::Bind(dest)));
    let out = m.step(Socks5Event::BindOk);
    assert_eq!(out.write, None);
    assert_eq!(out.effect, None);
    assert_eq!(m.phase, Socks5Phase::Done);
    assert_eq!(m.error, None);
}

#[test]
fn unexpected_event_is_an_internal_error() {
    let mut m = machine();
    // An authentication verdict while still reading the greeting makes no
    // sense; the connection fails internally.
    let out = m.step(Socks5Event::AuthResult(true));
    assert_eq!(out.write, None);
    assert_eq!(out.effect, Some(Socks5Effect::Shutdown));
    assert_eq!(m.phase, Socks5Phase::Failed);
    assert_eq!(m.error, Some(SocksError::InternalError));
    // Once failed, further events are ignored.
    let out = m.step(Socks5Event::Data(vec![0x01, 0x00]));
    assert_eq!(out.write, None);
    assert_eq!(out.effect, None);
    assert_eq!(m.phase, Socks5Phase::Failed);
}

#[test]
fn handshake_error_pairs_error_with_reply() {
    let h = HandshakeError::new(SocksError::AuthFailed, Socks5Reply::NotAllowed);
    assert_eq!(h.err, SocksError::AuthFailed);
    assert_eq!(h.reply, Socks5Reply::NotAllowed);
    let h = HandshakeError::for_error(SocksError::InvalidCommand(0x09));
    assert_eq!(h.reply, Socks5Reply::UnsupportedCommand);
    let h = HandshakeError::for_error(SocksError::InvalidAddressType(0x02));
    assert_eq!(h.reply, Socks5Reply::UnsupportedAddressType);
    let h = HandshakeError::for_error(SocksError::Utf8BytesToStringError);
    assert_eq!(h.reply, Socks5Reply::Failure);
}

#[test]
fn default_method_selection() {
    assert_eq!(
        default_negotiate_method(&vec![Method::NoAuth, Method::UserPass]),
        Method::NoAuth
    );
    assert_eq!(
        default_negotiate_method(&vec![Method::UserPass, Method::GssApi]),
        Method::Unacceptable
    );
    assert_eq!(default_negotiate_method(&vec![]), Method::Unacceptable);
}

#[test]
fn empty_greeting_method_list_is_parsed() {
    let mut m = machine();
    let out = m.step(Socks5Event::Data(vec![0x00]));
    assert_eq!(out.effect, Some(Socks5Effect::AskMethod(vec![])));
    let out = m.step(Socks5Event::MethodChosen(Method::NoAuth));
    assert_eq!(out.write, Some(vec![0x05, 0xff]));
    assert_eq!(m.phase, Socks5Phase::Done);
}
