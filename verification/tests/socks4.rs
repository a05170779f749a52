//! End-to-end scenarios of the SOCKS4/4a state machine, plus the version
//! dispatcher.

use socks::addr::SocksAddr;
use socks::error::ExecError;
use socks::error::SocksError;
use socks::socks4::command::Socks4Command;
use socks::socks4::Socks4Effect;
use socks::socks4::Socks4Event;
use socks::socks4::Socks4Phase;
use socks::Socks;

fn peer() -> SocksAddr {
    SocksAddr::IPV4 {
        ip: [10, 0, 0, 2],
        port: 40000,
    }
}

fn local() -> SocksAddr {
    SocksAddr::IPV4 {
        ip: [10, 0, 0, 1],
        port: 1080,
    }
}

fn machine() -> socks::socks4::Socks4 {
    socks::socks4::Socks4::new(peer(), local())
}

#[test]
fn connect_scenario_with_user_x() {
    let mut m = machine();
    // Request `04 01 00 50 5D B8 D8 22 78 00` after the version octet.
    let out = m.step(Socks4Event::Data(vec![
        0x01, 0x00, 0x50, 0x5d, 0xb8, 0xd8, 0x22, 0x78, 0x00,
    ]));
    assert_eq!(out.write, None);
    assert_eq!(
        out.effect,
        Some(Socks4Effect::AskCommand(Socks4Command::Connect))
    );

    let out = m.step(Socks4Event::CommandAllowed(true));
    assert_eq!(out.effect, Some(Socks4Effect::AskIdentd(String::from("x"))));

    let dest = SocksAddr::IPV4 {
        ip: [93, 184, 216, 34],
        port: 80,
    };
    let out = m.step(Socks4Event::Authorized(true));
    assert_eq!(out.effect, Some(Socks4Effect::Connect(dest.clone())));

    let out = m.step(Socks4Event::ConnectOk(dest));
    assert_eq!(
        out.write,
        Some(vec![0x00, 0x5a, 0x00, 0x50, 0x5d, 0xb8, 0xd8, 0x22])
    );
    assert_eq!(out.effect, Some(Socks4Effect::StartRelay));
    assert_eq!(m.phase, Socks4Phase::Relaying);
}

#[test]
fn socks4a_scenario_with_marker() {
    let mut m = machine();
    // `04 01 00 50 00 00 00 07 78 00 example.com 00`: the marker 0.0.0.7
    // announces the hostname after the user id.
    let out = m.step(Socks4Event::Data(vec![
        0x01, 0x00, 0x50, 0x00, 0x00, 0x00, 0x07, 0x78, 0x00, 0x65, 0x78, 0x61, 0x6d, 0x70, 0x6c,
        0x65, 0x2e, 0x63, 0x6f, 0x6d, 0x00,
    ]));
    assert_eq!(
        out.effect,
        Some(Socks4Effect::AskCommand(Socks4Command::Connect))
    );
    m.step(Socks4Event::CommandAllowed(true));
    let out = m.step(Socks4Event::Authorized(true));
    assert_eq!(
        out.effect,
        Some(Socks4Effect::Connect(SocksAddr::Domain(
            String::from("example.com"),
            80
        )))
    );
    // No address is meaningful for the bound side here: all zeros, port 80.
    let out = m.step(Socks4Event::ConnectOk(SocksAddr::IPV4 {
        ip: [0, 0, 0, 0],
        port: 80,
    }));
    assert_eq!(
        out.write,
        Some(vec![0x00, 0x5a, 0x00, 0x50, 0x00, 0x00, 0x00, 0x00])
    );
    assert_eq!(m.phase, Socks4Phase::Relaying);
}

#[test]
fn invalid_command_is_rejected() {
    let mut m = machine();
    let out = m.step(Socks4Event::Data(vec![0x03]));
    assert_eq!(
        out.write,
        Some(vec![0x00, 0x5b, 0x00, 0x00, 0x00, 0x00, 0x00, 0x00])
    );
    assert_eq!(out.effect, Some(Socks4Effect::Shutdown));
    assert_eq!(m.phase, Socks4Phase::Failed);
    assert_eq!(m.error, Some(SocksError::InvalidCommand(0x03)));
}

#[test]
fn identd_denial_is_rejected() {
    let mut m = machine();
    m.step(Socks4Event::Data(vec![
        0x01, 0x00, 0x50, 0x5d, 0xb8, 0xd8, 0x22, 0x78, 0x00,
    ]));
    m.step(Socks4Event::CommandAllowed(true));
    let out = m.step(Socks4Event::Authorized(false));
    assert_eq!(
        out.write,
        Some(vec![0x00, 0x5b, 0x00, 0x00, 0x00, 0x00, 0x00, 0x00])
    );
    assert_eq!(m.error, Some(SocksError::AuthFailed));
}

#[test]
fn command_gate_denial_is_rejected() {
    let mut m = machine();
    m.step(Socks4Event::Data(vec![
        0x02, 0x00, 0x50, 0x5d, 0xb8, 0xd8, 0x22, 0x78, 0x00,
    ]));
    let out = m.step(Socks4Event::CommandAllowed(false));
    assert_eq!(
        out.write,
        Some(vec![0x00, 0x5b, 0x00, 0x00, 0x00, 0x00, 0x00, 0x00])
    );
    assert_eq!(m.error, Some(SocksError::UnsupportedCommand(0x02)));
}

#[test]
fn connect_failure_is_rejected() {
    let mut m = machine();
    m.step(Socks4Event::Data(vec![
        0x01, 0x00, 0x50, 0x5d, 0xb8, 0xd8, 0x22, 0x78, 0x00,
    ]));
    m.step(Socks4Event::CommandAllowed(true));
    m.step(Socks4Event::Authorized(true));
    let out = m.step(Socks4Event::ExecFailed(ExecError::HostUnreachable));
    assert_eq!(
        out.write,
        Some(vec![0x00, 0x5b, 0x00, 0x00, 0x00, 0x00, 0x00, 0x00])
    );
    assert_eq!(m.error, Some(SocksError::StdIoError));
}

#[test]
fn v4_bind_flow_ends_without_error() {
    let mut m = machine();
    m.step(Socks4Event::Data(vec![
        0x02, 0x00, 0x50, 0x5d, 0xb8, 0xd8, 0x22, 0x78, 0x00,
    ]));
    m.step(Socks4Event::CommandAllowed(true));
    let out = m.step(Socks4Event::Authorized(true));
    assert_eq!(
        out.effect,
        Some(Socks4Effect::Bind(SocksAddr::IPV4 {
            ip: [93, 184, 216, 34],
            port: 80,
        }))
    );
    let out = m.step(Socks4Event::BindOk);
    assert_eq!(out.write, None);
    assert_eq!(m.phase, Socks4Phase::Done);
    assert_eq!(m.error, None);
}

#[test]
fn v4_request_split_across_reads() {
    let mut m = machine();
    let out = m.step(Socks4Event::Data(vec![0x01, 0x00, 0x50]));
    assert_eq!(out.effect, None);
    let out = m.step(Socks4Event::Data(vec![0x5d, 0xb8, 0xd8, 0x22, 0x78]));
    assert_eq!(out.effect, None);
    let out = m.step(Socks4Event::Data(vec![0x00]));
    assert_eq!(
        out.effect,
        Some(Socks4Effect::AskCommand(Socks4Command::Connect))
    );
}

#[test]
fn bad_user_id_utf8_is_rejected() {
    let mut m = machine();
    let out = m.step(Socks4Event::Data(vec![
        0x01, 0x00, 0x50, 0x7f, 0x00, 0x00, 0x01, 0xff, 0x00,
    ]));
    assert_eq!(
        out.write,
        Some(vec![0x00, 0x5b, 0x00, 0x00, 0x00, 0x00, 0x00, 0x00])
    );
    assert_eq!(m.error, Some(SocksError::Utf8BytesToStringError));
}

#[test]
fn dispatcher_selects_by_version_octet() {
    assert!(matches!(
        Socks::from_version(0x04, peer(), local()),
        Ok(Socks::V4(_))
    ));
    assert!(matches!(
        Socks::from_version(0x05, peer(), local()),
        Ok(Socks::V5(_))
    ));
    assert_eq!(
        match Socks::from_version(0x06, peer(), local()) {
            Err(e) => e,
            Ok(_) => panic!("version 6 must be rejected"),
        },
        SocksError::UnsupportedVersion(0x06)
    );
}
