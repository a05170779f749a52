//! The SOCKS5 per-connection state machine. It consumes bytes read from
//! the client and verdicts from the policy handler, and yields bytes to
//! send back plus at most one effect to perform; the embedder runs the
//! loop and does the I/O.

use vstd::prelude::*;

use crate::addr::zero_addr;
use crate::addr::SocksAddr;
use crate::error::ExecError;
use crate::error::SocksError;
use crate::socks5::command::Socks5Command;
use crate::socks5::method::copy_methods;
use crate::socks5::method::method_in;
use crate::socks5::method::Method;
use crate::socks5::reply::reply_for_error;
use crate::socks5::reply::reply_for_exec_error;
use crate::socks5::reply::spec_reply_for_error;
use crate::socks5::reply::spec_reply_for_exec_error;
use crate::socks5::reply::spec_v5_reply_bytes;
use crate::socks5::reply::Socks5Reply;
use crate::socks5::request::spec_parse_v5_request;
use crate::socks5::request::Socks5Request;
use crate::socks5::request::V5RequestParse;
use crate::socks5::subneg::decode_greeting;
use crate::socks5::subneg::decode_userpass;
use crate::socks5::subneg::spec_parse_greeting;
use crate::socks5::subneg::spec_parse_userpass;
use crate::socks5::subneg::GreetingParse;
use crate::socks5::subneg::UserPassParse;
use crate::wire::append_vec;
use crate::wire::tail;
use crate::wire::DecodeResult;

verus! {

/// Where a v5 connection stands.
#[derive(Clone, Copy, Debug, PartialEq, Eq, Structural)]
pub enum Socks5Phase {
    /// Reading the client greeting.
    Greeting,
    /// Waiting for the policy handler to choose a method.
    SelectingMethod,
    /// Reading the username/password sub-negotiation frame.
    AuthUserPass,
    /// Waiting for the policy handler to check the credentials.
    CheckingCredentials,
    /// Reading the request frame.
    Request,
    /// Waiting for the policy handler to gate the command.
    GateCommand,
    /// Waiting for the policy handler to gate the destination address.
    GateAddress,
    /// Waiting for the outcome of the requested CONNECT or BIND.
    Executing,
    /// Success: bytes now flow both ways until either side closes.
    Relaying,
    /// The connection ended without error.
    Done,
    /// The connection ended with the recorded error.
    Failed,
}

/// What the embedder reports to the machine.
#[derive(Debug)]
pub enum Socks5Event {
    /// Bytes read from the client (empty to re-examine buffered bytes).
    Data(Vec<u8>),
    /// The policy handler's method choice.
    MethodChosen(Method),
    /// The policy handler's verdict on the credentials.
    AuthResult(bool),
    /// The policy handler's verdict on the command.
    CommandAllowed(bool),
    /// The policy handler's verdict on the destination address.
    AddressAllowed(bool),
    /// CONNECT succeeded; carries the bound address of the outbound stream.
    ConnectOk(SocksAddr),
    /// BIND succeeded: the handler has sent its two replies and relayed.
    BindOk,
    /// The CONNECT or BIND attempt failed.
    ExecFailed(ExecError),
}

/// What the embedder must do next.
#[derive(Clone, Debug, PartialEq, Eq)]
pub enum Socks5Effect {
    /// Ask the policy handler to choose among the offered methods.
    AskMethod(Vec<Method>),
    /// Ask the policy handler to check these credentials.
    AskUserPass(String, String),
    /// Ask the policy handler to gate this command.
    AskCommand(Socks5Command),
    /// Ask the policy handler to gate this destination address.
    AskAddress(SocksAddr),
    /// Open the outbound connection.
    Connect(SocksAddr),
    /// Run the two-reply BIND flow.
    Bind(SocksAddr),
    /// Start pumping bytes both ways.
    StartRelay,
    /// Close the client stream.
    Shutdown,
}

/// One step's output: bytes to send to the client first, then at most one
/// effect to perform.
#[derive(Debug)]
pub struct Socks5Output {
    pub write: Option<Vec<u8>>,
    pub effect: Option<Socks5Effect>,
}

/// An error paired with the reply code that reports it on the wire.
#[derive(Debug)]
pub struct HandshakeError {
    pub err: SocksError,
    pub reply: Socks5Reply,
}

impl HandshakeError {
    /// Pair an error with a reply code.
    pub fn new(err: SocksError, reply: Socks5Reply) -> (r: HandshakeError)
        ensures
            r.err == err,
            r.reply == reply,
    {
        HandshakeError { err, reply }
    }

    /// Pair an error with the reply code that reports it.
    pub fn for_error(err: SocksError) -> (r: HandshakeError)
        ensures
            r.err == err,
            r.reply == spec_reply_for_error(err),
    {
        let reply = reply_for_error(&err);
        HandshakeError { err, reply }
    }
}

/// Wire bytes of the method selection reply.
pub open spec fn spec_method_reply_bytes(m: Method) -> Seq<u8> {
    seq![0x05u8, m.code()]
}

/// Wire bytes of the sub-negotiation status reply: zero reports success,
/// one reports failure.
pub open spec fn spec_auth_reply_bytes(ok: bool) -> Seq<u8> {
    seq![0x01u8, if ok { 0u8 } else { 1u8 }]
}

/// Phases in which the machine is reading a frame.
pub open spec fn reading(p: Socks5Phase) -> bool {
    p == Socks5Phase::Greeting || p == Socks5Phase::AuthUserPass || p == Socks5Phase::Request
}

/// Phases in which the machine takes no further part.
pub open spec fn terminal(p: Socks5Phase) -> bool {
    p == Socks5Phase::Relaying || p == Socks5Phase::Done || p == Socks5Phase::Failed
}

/// The SOCKS5 state machine for one connection.
pub struct Socks5 {
    /// Where the connection stands.
    pub phase: Socks5Phase,
    /// Bytes received from the client and not yet consumed by a frame.
    pub buf: Vec<u8>,
    /// The methods the client offered in its greeting.
    pub offered: Vec<Method>,
    /// The parsed request, once one has been read.
    pub request: Option<Socks5Request>,
    /// The error the connection failed with, exactly in phase `Failed`.
    pub error: Option<SocksError>,
    /// The client's address, for the embedder's policy hooks.
    pub peer_addr: SocksAddr,
    /// The server-side address of the client stream.
    pub local_addr: SocksAddr,
}

impl Socks5 {
    /// What must hold of the machine between steps.
    pub open spec fn inv(self) -> bool {
        &&& ((self.phase == Socks5Phase::GateCommand || self.phase == Socks5Phase::GateAddress
            || self.phase == Socks5Phase::Executing) ==> self.request is Some)
        &&& (self.phase == Socks5Phase::Failed <==> self.error is Some)
    }

    /// Which events the machine can make sense of where it stands.
    pub open spec fn expects(self, e: Socks5Event) -> bool {
        match e {
            Socks5Event::Data(_) => reading(self.phase),
            Socks5Event::MethodChosen(_) => self.phase == Socks5Phase::SelectingMethod,
            Socks5Event::AuthResult(_) => self.phase == Socks5Phase::CheckingCredentials,
            Socks5Event::CommandAllowed(_) => self.phase == Socks5Phase::GateCommand,
            Socks5Event::AddressAllowed(_) => self.phase == Socks5Phase::GateAddress,
            Socks5Event::ConnectOk(_) => self.phase == Socks5Phase::Executing && (self.request
                matches Some(q) && q.command == Socks5Command::Connect),
            Socks5Event::BindOk => self.phase == Socks5Phase::Executing && (self.request
                matches Some(q) && q.command == Socks5Command::Bind),
            Socks5Event::ExecFailed(_) => self.phase == Socks5Phase::Executing,
        }
    }

    /// A fresh machine, ready to read the greeting (the version octet has
    /// already been consumed by the dispatcher).
    pub fn new(peer_addr: SocksAddr, local_addr: SocksAddr) -> (r: Socks5)
        ensures
            r.phase == Socks5Phase::Greeting,
            r.buf@ == Seq::<u8>::empty(),
            r.offered@ == Seq::<Method>::empty(),
            r.request is None,
            r.error is None,
            r.peer_addr == peer_addr,
            r.local_addr == local_addr,
            r.inv(),
    {
        Socks5 {
            phase: Socks5Phase::Greeting,
            buf: Vec::new(),
            offered: Vec::new(),
            request: None,
            error: None,
            peer_addr,
            local_addr,
        }
    }

    /// Whether the machine is waiting for more bytes from the client.
    pub fn wants_data(&self) -> (r: bool)
        ensures
            r == reading(self.phase),
    {
        self.phase == Socks5Phase::Greeting || self.phase == Socks5Phase::AuthUserPass
            || self.phase == Socks5Phase::Request
    }

    /// Record an internal error: an event arrived that the machine cannot
    /// make sense of where it stands.
    fn fail_internal(&mut self) -> (r: Socks5Output)
        ensures
            final(self).phase == Socks5Phase::Failed,
            final(self).error == Some(SocksError::InternalError),
            final(self).buf == old(self).buf,
            final(self).offered == old(self).offered,
            final(self).request == old(self).request,
            final(self).peer_addr == old(self).peer_addr,
            final(self).local_addr == old(self).local_addr,
            r.write is None,
            r.effect == Some(Socks5Effect::Shutdown),
    {
        self.phase = Socks5Phase::Failed;
        self.error = Some(SocksError::InternalError);
        Socks5Output { write: None, effect: Some(Socks5Effect::Shutdown) }
    }

    /// Advance the machine by one event.
    ///
    /// Stray events in a terminal phase are ignored; an event the machine
    /// does not expect in a live phase fails the connection with
    /// `InternalError`. Everything else follows the negotiation order of
    /// RFC 1928: greeting, method selection, optional username/password
    /// sub-negotiation, request, the two policy gates, then execution.
    pub fn step(&mut self, event: Socks5Event) -> (r: Socks5Output)
        requires
            old(self).inv(),
        ensures
            final(self).inv(),
            final(self).peer_addr == old(self).peer_addr,
            final(self).local_addr == old(self).local_addr,
            terminal(old(self).phase) ==> *final(self) == *old(self) && r.write is None
                && r.effect is None,
            !terminal(old(self).phase) && !old(self).expects(event) ==> final(self).phase
                == Socks5Phase::Failed && final(self).error == Some(SocksError::InternalError)
                && r.write is None && r.effect == Some(Socks5Effect::Shutdown),
            old(self).phase == Socks5Phase::Greeting ==> (event matches Socks5Event::Data(d)
                ==> ({
                let nb = old(self).buf@ + d@;
                match spec_parse_greeting(nb) {
                    GreetingParse::Incomplete { .. } => {
                        &&& final(self).phase == Socks5Phase::Greeting
                        &&& final(self).buf@ == nb
                        &&& r.write is None
                        &&& r.effect is None
                    },
                    GreetingParse::Parsed { methods, used } => {
                        &&& final(self).phase == Socks5Phase::SelectingMethod
                        &&& final(self).buf@ == nb.skip(used)
                        &&& final(self).offered@ == methods
                        &&& r.write is None
                        &&& (r.effect matches Some(Socks5Effect::AskMethod(v)) && v@ == methods)
                    },
                }
            })),
            old(self).phase == Socks5Phase::SelectingMethod ==> (event
                matches Socks5Event::MethodChosen(m) ==> ({
                let chosen = if old(self).offered@.contains(m) {
                    m
                } else {
                    Method::Unacceptable
                };
                &&& (r.write matches Some(w) && w@ == spec_method_reply_bytes(chosen))
                &&& final(self).buf == old(self).buf
                &&& (chosen == Method::Unacceptable ==> final(self).phase == Socks5Phase::Done
                    && final(self).error is None && r.effect == Some(Socks5Effect::Shutdown))
                &&& (chosen == Method::NoAuth ==> final(self).phase == Socks5Phase::Request
                    && r.effect is None)
                &&& (chosen == Method::UserPass ==> final(self).phase == Socks5Phase::AuthUserPass
                    && r.effect is None)
                &&& (chosen != Method::Unacceptable && chosen != Method::NoAuth && chosen
                    != Method::UserPass ==> final(self).phase == Socks5Phase::Failed
                    && final(self).error == Some(SocksError::NotImplemented) && r.effect == Some(
                    Socks5Effect::Shutdown,
                ))
            })),
            old(self).phase == Socks5Phase::AuthUserPass ==> (event matches Socks5Event::Data(d)
                ==> ({
                let nb = old(self).buf@ + d@;
                match spec_parse_userpass(nb) {
                    UserPassParse::Incomplete { .. } => {
                        &&& final(self).phase == Socks5Phase::AuthUserPass
                        &&& final(self).buf@ == nb
                        &&& r.write is None
                        &&& r.effect is None
                    },
                    UserPassParse::Malformed { err } => {
                        &&& final(self).phase == Socks5Phase::Failed
                        &&& final(self).error == Some(err)
                        &&& (r.write matches Some(w) && w@ == spec_auth_reply_bytes(false))
                        &&& r.effect == Some(Socks5Effect::Shutdown)
                    },
                    UserPassParse::Parsed { user, pass, used } => {
                        &&& final(self).phase == Socks5Phase::CheckingCredentials
                        &&& final(self).buf@ == nb.skip(used)
                        &&& r.write is None
                        &&& (r.effect matches Some(Socks5Effect::AskUserPass(u, p)) && u@ == user
                            && p@ == pass)
                    },
                }
            })),
            old(self).phase == Socks5Phase::CheckingCredentials ==> (event
                matches Socks5Event::AuthResult(ok) ==> ({
                &&& (r.write matches Some(w) && w@ == spec_auth_reply_bytes(ok))
                &&& final(self).buf == old(self).buf
                &&& (ok ==> final(self).phase == Socks5Phase::Request && r.effect is None)
                &&& (!ok ==> final(self).phase == Socks5Phase::Failed && final(self).error == Some(
                    SocksError::AuthFailed,
                ) && r.effect == Some(Socks5Effect::Shutdown))
            })),
            old(self).phase == Socks5Phase::Request ==> (event matches Socks5Event::Data(d) ==> ({
                let nb = old(self).buf@ + d@;
                match spec_parse_v5_request(nb) {
                    V5RequestParse::Incomplete { .. } => {
                        &&& final(self).phase == Socks5Phase::Request
                        &&& final(self).buf@ == nb
                        &&& r.write is None
                        &&& r.effect is None
                    },
                    V5RequestParse::Malformed { err } => {
                        &&& final(self).phase == Socks5Phase::Failed
                        &&& final(self).error == Some(err)
                        &&& r.effect == Some(Socks5Effect::Shutdown)
                        &&& ((err matches SocksError::UnsupportedVersion(_)) ==> r.write is None)
                        &&& (!(err matches SocksError::UnsupportedVersion(_)) ==> (r.write
                            matches Some(w) && w@ == spec_v5_reply_bytes(
                            spec_reply_for_error(err),
                            zero_addr(),
                        )))
                    },
                    V5RequestParse::Parsed { command, addr, used } => {
                        &&& final(self).phase == Socks5Phase::GateCommand
                        &&& final(self).buf@ == nb.skip(used)
                        &&& (final(self).request matches Some(q) && q@.command == command && q@.addr
                            == addr)
                        &&& r.write is None
                        &&& r.effect == Some(Socks5Effect::AskCommand(command))
                    },
                }
            })),
            old(self).phase == Socks5Phase::GateCommand ==> (event
                matches Socks5Event::CommandAllowed(ok) ==> (old(self).request matches Some(q)
                ==> ({
                &&& final(self).request == old(self).request
                &&& (ok ==> final(self).phase == Socks5Phase::GateAddress && r.write is None && (
                r.effect matches Some(Socks5Effect::AskAddress(a)) && a@ == q@.addr))
                &&& (!ok ==> final(self).phase == Socks5Phase::Failed && final(self).error == Some(
                    SocksError::UnsupportedCommand(q.command.code()),
                ) && (r.write matches Some(w) && w@ == spec_v5_reply_bytes(
                    Socks5Reply::UnsupportedCommand,
                    zero_addr(),
                )) && r.effect == Some(Socks5Effect::Shutdown))
            }))),
            old(self).phase == Socks5Phase::GateAddress ==> (event
                matches Socks5Event::AddressAllowed(ok) ==> (old(self).request matches Some(q)
                ==> ({
                &&& (!ok ==> final(self).phase == Socks5Phase::Failed && (final(self).error
                    matches Some(SocksError::UnsupportedAddress(a)) && a@ == q@.addr) && (r.write
                    matches Some(w) && w@ == spec_v5_reply_bytes(
                    Socks5Reply::UnsupportedAddressType,
                    zero_addr(),
                )) && r.effect == Some(Socks5Effect::Shutdown))
                &&& (ok && q.command == Socks5Command::Connect ==> final(self).phase
                    == Socks5Phase::Executing && r.write is None && (r.effect matches Some(
                    Socks5Effect::Connect(a),
                ) && a@ == q@.addr) && final(self).request == old(self).request)
                &&& (ok && q.command == Socks5Command::Bind ==> final(self).phase
                    == Socks5Phase::Executing && r.write is None && (r.effect matches Some(
                    Socks5Effect::Bind(a),
                ) && a@ == q@.addr) && final(self).request == old(self).request)
                &&& (ok && q.command == Socks5Command::Associate ==> final(self).phase
                    == Socks5Phase::Failed && final(self).error == Some(SocksError::NotImplemented)
                    && (r.write matches Some(w) && w@ == spec_v5_reply_bytes(
                    Socks5Reply::UnsupportedCommand,
                    zero_addr(),
                )) && r.effect == Some(Socks5Effect::Shutdown))
            }))),
            old(self).phase == Socks5Phase::Executing && old(self).expects(event) ==> (event
                matches Socks5Event::ConnectOk(bound) ==> ({
                &&& (bound@.wf() ==> final(self).phase == Socks5Phase::Relaying && (r.write
                    matches Some(w) && w@ == spec_v5_reply_bytes(Socks5Reply::Succeeded, bound@))
                    && r.effect == Some(Socks5Effect::StartRelay))
                &&& (!bound@.wf() ==> final(self).phase == Socks5Phase::Failed && final(self).error
                    == Some(SocksError::InternalError) && r.write is None && r.effect == Some(
                    Socks5Effect::Shutdown,
                ))
            })),
            old(self).phase == Socks5Phase::Executing && old(self).expects(event) ==> (event
                matches Socks5Event::BindOk ==> final(self).phase == Socks5Phase::Done
                && final(self).error is None && r.write is None && r.effect is None),
            old(self).phase == Socks5Phase::Executing ==> (event matches Socks5Event::ExecFailed(k)
                ==> final(self).phase == Socks5Phase::Failed && final(self).error == Some(
                k.to_socks_error(),
            ) && (r.write matches Some(w) && w@ == spec_v5_reply_bytes(
                spec_reply_for_exec_error(k),
                zero_addr(),
            )) && r.effect == Some(Socks5Effect::Shutdown)),
    {
        let ph = self.phase;
        if ph == Socks5Phase::Relaying || ph == Socks5Phase::Done || ph == Socks5Phase::Failed {
            return Socks5Output { write: None, effect: None };
        }
        match event {
            Socks5Event::Data(d) => {
                if ph == Socks5Phase::Greeting {
                    self.on_greeting_data(d)
                } else if ph == Socks5Phase::AuthUserPass {
                    self.on_auth_data(d)
                } else if ph == Socks5Phase::Request {
                    self.on_request_data(d)
                } else {
                    self.fail_internal()
                }
            },
            Socks5Event::MethodChosen(m) => {
                if ph == Socks5Phase::SelectingMethod {
                    self.on_method_chosen(m)
                } else {
                    self.fail_internal()
                }
            },
            Socks5Event::AuthResult(ok) => {
                if ph == Socks5Phase::CheckingCredentials {
                    self.on_auth_result(ok)
                } else {
                    self.fail_internal()
                }
            },
            Socks5Event::CommandAllowed(ok) => {
                if ph == Socks5Phase::GateCommand {
                    self.on_command_allowed(ok)
                } else {
                    self.fail_internal()
                }
            },
            Socks5Event::AddressAllowed(ok) => {
                if ph == Socks5Phase::GateAddress {
                    self.on_address_allowed(ok)
                } else {
                    self.fail_internal()
                }
            },
            Socks5Event::ConnectOk(bound) => {
                if ph == Socks5Phase::Executing && self.request_is(Socks5Command::Connect) {
                    self.on_connect_ok(bound)
                } else {
                    self.fail_internal()
                }
            },
            Socks5Event::BindOk => {
                if ph == Socks5Phase::Executing && self.request_is(Socks5Command::Bind) {
                    self.phase = Socks5Phase::Done;
                    Socks5Output { write: None, effect: None }
                } else {
                    self.fail_internal()
                }
            },
            Socks5Event::ExecFailed(k) => {
                if ph == Socks5Phase::Executing {
                    self.on_exec_failed(k)
                } else {
                    self.fail_internal()
                }
            },
        }
    }

    /// Whether a request was parsed and carries this command.
    fn request_is(&self, c: Socks5Command) -> (r: bool)
        ensures
            r == (self.request matches Some(q) && q.command == c),
    {
        match &self.request {
            Some(q) => q.command == c,
            None => false,
        }
    }

    fn on_greeting_data(&mut self, d: Vec<u8>) -> (r: Socks5Output)
        requires
            old(self).phase == Socks5Phase::Greeting,
            old(self).inv(),
        ensures
            final(self).inv(),
            final(self).peer_addr == old(self).peer_addr,
            final(self).local_addr == old(self).local_addr,
            ({
                let nb = old(self).buf@ + d@;
                match spec_parse_greeting(nb) {
                    GreetingParse::Incomplete { .. } => {
                        &&& final(self).phase == Socks5Phase::Greeting
                        &&& final(self).buf@ == nb
                        &&& r.write is None
                        &&& r.effect is None
                    },
                    GreetingParse::Parsed { methods, used } => {
                        &&& final(self).phase == Socks5Phase::SelectingMethod
                        &&& final(self).buf@ == nb.skip(used)
                        &&& final(self).offered@ == methods
                        &&& r.write is None
                        &&& (r.effect matches Some(Socks5Effect::AskMethod(v)) && v@ == methods)
                    },
                }
            }),
    {
        append_vec(&mut self.buf, &d);
        match decode_greeting(&self.buf) {
            DecodeResult::Done(ms, used) => {
                let rest = tail(&self.buf, used);
                self.buf = rest;
                let v = copy_methods(&ms);
                self.offered = ms;
                self.phase = Socks5Phase::SelectingMethod;
                Socks5Output { write: None, effect: Some(Socks5Effect::AskMethod(v)) }
            },
            DecodeResult::Need(_) => Socks5Output { write: None, effect: None },
            DecodeResult::Fail(_) => {
                proof {
                    assert(false);
                }
                Socks5Output { write: None, effect: None }
            },
        }
    }

    fn on_method_chosen(&mut self, m: Method) -> (r: Socks5Output)
        requires
            old(self).phase == Socks5Phase::SelectingMethod,
            old(self).inv(),
        ensures
            final(self).inv(),
            final(self).peer_addr == old(self).peer_addr,
            final(self).local_addr == old(self).local_addr,
            ({
                let chosen = if old(self).offered@.contains(m) {
                    m
                } else {
                    Method::Unacceptable
                };
                &&& (r.write matches Some(w) && w@ == spec_method_reply_bytes(chosen))
                &&& final(self).buf == old(self).buf
                &&& (chosen == Method::Unacceptable ==> final(self).phase == Socks5Phase::Done
                    && final(self).error is None && r.effect == Some(Socks5Effect::Shutdown))
                &&& (chosen == Method::NoAuth ==> final(self).phase == Socks5Phase::Request
                    && r.effect is None)
                &&& (chosen == Method::UserPass ==> final(self).phase == Socks5Phase::AuthUserPass
                    && r.effect is None)
                &&& (chosen != Method::Unacceptable && chosen != Method::NoAuth && chosen
                    != Method::UserPass ==> final(self).phase == Socks5Phase::Failed
                    && final(self).error == Some(SocksError::NotImplemented) && r.effect == Some(
                    Socks5Effect::Shutdown,
                ))
            }),
    {
        let chosen = if method_in(&self.offered, m) {
            m
        } else {
            Method::Unacceptable
        };
        let mut w: Vec<u8> = Vec::new();
        w.push(0x05);
        w.push(chosen.to_u8());
        proof {
            assert(w@ =~= spec_method_reply_bytes(chosen));
        }
        match chosen {
            Method::Unacceptable => {
                self.phase = Socks5Phase::Done;
                Socks5Output { write: Some(w), effect: Some(Socks5Effect::Shutdown) }
            },
            Method::NoAuth => {
                self.phase = Socks5Phase::Request;
                Socks5Output { write: Some(w), effect: None }
            },
            Method::UserPass => {
                self.phase = Socks5Phase::AuthUserPass;
                Socks5Output { write: Some(w), effect: None }
            },
            _ => {
                self.phase = Socks5Phase::Failed;
                self.error = Some(SocksError::NotImplemented);
                Socks5Output { write: Some(w), effect: Some(Socks5Effect::Shutdown) }
            },
        }
    }

    fn on_auth_data(&mut self, d: Vec<u8>) -> (r: Socks5Output)
        requires
            old(self).phase == Socks5Phase::AuthUserPass,
            old(self).inv(),
        ensures
            final(self).inv(),
            final(self).peer_addr == old(self).peer_addr,
            final(self).local_addr == old(self).local_addr,
            ({
                let nb = old(self).buf@ + d@;
                match spec_parse_userpass(nb) {
                    UserPassParse::Incomplete { .. } => {
                        &&& final(self).phase == Socks5Phase::AuthUserPass
                        &&& final(self).buf@ == nb
                        &&& r.write is None
                        &&& r.effect is None
                    },
                    UserPassParse::Malformed { err } => {
                        &&& final(self).phase == Socks5Phase::Failed
                        &&& final(self).error == Some(err)
                        &&& (r.write matches Some(w) && w@ == spec_auth_reply_bytes(false))
                        &&& r.effect == Some(Socks5Effect::Shutdown)
                    },
                    UserPassParse::Parsed { user, pass, used } => {
                        &&& final(self).phase == Socks5Phase::CheckingCredentials
                        &&& final(self).buf@ == nb.skip(used)
                        &&& r.write is None
                        &&& (r.effect matches Some(Socks5Effect::AskUserPass(u, p)) && u@ == user
                            && p@ == pass)
                    },
                }
            }),
    {
        append_vec(&mut self.buf, &d);
        match decode_userpass(&self.buf) {
            DecodeResult::Done(up, used) => {
                let rest = tail(&self.buf, used);
                self.buf = rest;
                self.phase = Socks5Phase::CheckingCredentials;
                Socks5Output {
                    write: None,
                    effect: Some(Socks5Effect::AskUserPass(up.0, up.1)),
                }
            },
            DecodeResult::Need(_) => Socks5Output { write: None, effect: None },
            DecodeResult::Fail(e) => {
                let mut w: Vec<u8> = Vec::new();
                w.push(0x01);
                w.push(0x01);
                proof {
                    assert(w@ =~= spec_auth_reply_bytes(false));
                }
                self.phase = Socks5Phase::Failed;
                self.error = Some(e);
                Socks5Output { write: Some(w), effect: Some(Socks5Effect::Shutdown) }
            },
        }
    }

    fn on_auth_result(&mut self, ok: bool) -> (r: Socks5Output)
        requires
            old(self).phase == Socks5Phase::CheckingCredentials,
            old(self).inv(),
        ensures
            final(self).inv(),
            final(self).peer_addr == old(self).peer_addr,
            final(self).local_addr == old(self).local_addr,
            (r.write matches Some(w) && w@ == spec_auth_reply_bytes(ok)),
            final(self).buf == old(self).buf,
            ok ==> final(self).phase == Socks5Phase::Request && r.effect is None,
            !ok ==> final(self).phase == Socks5Phase::Failed && final(self).error == Some(
                SocksError::AuthFailed,
            ) && r.effect == Some(Socks5Effect::Shutdown),
    {
        let mut w: Vec<u8> = Vec::new();
        w.push(0x01);
        w.push(if ok {
            0x00
        } else {
            0x01
        });
        proof {
            assert(w@ =~= spec_auth_reply_bytes(ok));
        }
        if ok {
            self.phase = Socks5Phase::Request;
            Socks5Output { write: Some(w), effect: None }
        } else {
            self.phase = Socks5Phase::Failed;
            self.error = Some(SocksError::AuthFailed);
            Socks5Output { write: Some(w), effect: Some(Socks5Effect::Shutdown) }
        }
    }

    fn on_request_data(&mut self, d: Vec<u8>) -> (r: Socks5Output)
        requires
            old(self).phase == Socks5Phase::Request,
            old(self).inv(),
        ensures
            final(self).inv(),
            final(self).peer_addr == old(self).peer_addr,
            final(self).local_addr == old(self).local_addr,
            ({
                let nb = old(self).buf@ + d@;
                match spec_parse_v5_request(nb) {
                    V5RequestParse::Incomplete { .. } => {
                        &&& final(self).phase == Socks5Phase::Request
                        &&& final(self).buf@ == nb
                        &&& r.write is None
                        &&& r.effect is None
                    },
                    V5RequestParse::Malformed { err } => {
                        &&& final(self).phase == Socks5Phase::Failed
                        &&& final(self).error == Some(err)
                        &&& r.effect == Some(Socks5Effect::Shutdown)
                        &&& ((err matches SocksError::UnsupportedVersion(_)) ==> r.write is None)
                        &&& (!(err matches SocksError::UnsupportedVersion(_)) ==> (r.write
                            matches Some(w) && w@ == spec_v5_reply_bytes(
                            spec_reply_for_error(err),
                            zero_addr(),
                        )))
                    },
                    V5RequestParse::Parsed { command, addr, used } => {
                        &&& final(self).phase == Socks5Phase::GateCommand
                        &&& final(self).buf@ == nb.skip(used)
                        &&& (final(self).request matches Some(q) && q@.command == command && q@.addr
                            == addr)
                        &&& r.write is None
                        &&& r.effect == Some(Socks5Effect::AskCommand(command))
                    },
                }
            }),
    {
        append_vec(&mut self.buf, &d);
        match Socks5Request::decode(&self.buf) {
            DecodeResult::Done(req, used) => {
                let rest = tail(&self.buf, used);
                self.buf = rest;
                let command = req.command;
                self.request = Some(req);
                self.phase = Socks5Phase::GateCommand;
                Socks5Output { write: None, effect: Some(Socks5Effect::AskCommand(command)) }
            },
            DecodeResult::Need(_) => Socks5Output { write: None, effect: None },
            DecodeResult::Fail(e) => {
                self.phase = Socks5Phase::Failed;
                if matches!(e, SocksError::UnsupportedVersion(_)) {
                    self.error = Some(e);
                    Socks5Output { write: None, effect: Some(Socks5Effect::Shutdown) }
                } else {
                    let h = HandshakeError::for_error(e);
                    let w = h.reply.reply(&SocksAddr::unspecified());
                    self.error = Some(h.err);
                    Socks5Output { write: Some(w), effect: Some(Socks5Effect::Shutdown) }
                }
            },
        }
    }

    fn on_command_allowed(&mut self, ok: bool) -> (r: Socks5Output)
        requires
            old(self).phase == Socks5Phase::GateCommand,
            old(self).inv(),
        ensures
            final(self).inv(),
            final(self).peer_addr == old(self).peer_addr,
            final(self).local_addr == old(self).local_addr,
            final(self).request == old(self).request,
            (old(self).request matches Some(q) ==> {
                &&& (ok ==> final(self).phase == Socks5Phase::GateAddress && r.write is None && (
                r.effect matches Some(Socks5Effect::AskAddress(a)) && a@ == q@.addr))
                &&& (!ok ==> final(self).phase == Socks5Phase::Failed && final(self).error == Some(
                    SocksError::UnsupportedCommand(q.command.code()),
                ) && (r.write matches Some(w) && w@ == spec_v5_reply_bytes(
                    Socks5Reply::UnsupportedCommand,
                    zero_addr(),
                )) && r.effect == Some(Socks5Effect::Shutdown))
            }),
    {
        if ok {
            let a = match &self.request {
                Some(q) => q.addr.clone(),
                None => SocksAddr::unspecified(),
            };
            self.phase = Socks5Phase::GateAddress;
            Socks5Output { write: None, effect: Some(Socks5Effect::AskAddress(a)) }
        } else {
            let code = match &self.request {
                Some(q) => q.command.to_u8(),
                None => 0,
            };
            let w = Socks5Reply::UnsupportedCommand.reply(&SocksAddr::unspecified());
            self.phase = Socks5Phase::Failed;
            self.error = Some(SocksError::UnsupportedCommand(code));
            Socks5Output { write: Some(w), effect: Some(Socks5Effect::Shutdown) }
        }
    }

    fn on_address_allowed(&mut self, ok: bool) -> (r: Socks5Output)
        requires
            old(self).phase == Socks5Phase::GateAddress,
            old(self).inv(),
        ensures
            final(self).inv(),
            final(self).peer_addr == old(self).peer_addr,
            final(self).local_addr == old(self).local_addr,
            (old(self).request matches Some(q) ==> {
                &&& (!ok ==> final(self).phase == Socks5Phase::Failed && (final(self).error
                    matches Some(SocksError::UnsupportedAddress(a)) && a@ == q@.addr) && (r.write
                    matches Some(w) && w@ == spec_v5_reply_bytes(
                    Socks5Reply::UnsupportedAddressType,
                    zero_addr(),
                )) && r.effect == Some(Socks5Effect::Shutdown))
                &&& (ok && q.command == Socks5Command::Connect ==> final(self).phase
                    == Socks5Phase::Executing && r.write is None && (r.effect matches Some(
                    Socks5Effect::Connect(a),
                ) && a@ == q@.addr) && final(self).request == old(self).request)
                &&& (ok && q.command == Socks5Command::Bind ==> final(self).phase
                    == Socks5Phase::Executing && r.write is None && (r.effect matches Some(
                    Socks5Effect::Bind(a),
                ) && a@ == q@.addr) && final(self).request == old(self).request)
                &&& (ok && q.command == Socks5Command::Associate ==> final(self).phase
                    == Socks5Phase::Failed && final(self).error == Some(SocksError::NotImplemented)
                    && (r.write matches Some(w) && w@ == spec_v5_reply_bytes(
                    Socks5Reply::UnsupportedCommand,
                    zero_addr(),
                )) && r.effect == Some(Socks5Effect::Shutdown))
            }),
    {
        let a = match &self.request {
            Some(q) => q.addr.clone(),
            None => SocksAddr::unspecified(),
        };
        if !ok {
            let w = Socks5Reply::UnsupportedAddressType.reply(&SocksAddr::unspecified());
            self.phase = Socks5Phase::Failed;
            self.error = Some(SocksError::UnsupportedAddress(a));
            return Socks5Output { write: Some(w), effect: Some(Socks5Effect::Shutdown) };
        }
        let command = match &self.request {
            Some(q) => q.command,
            None => Socks5Command::Connect,
        };
        match command {
            Socks5Command::Connect => {
                self.phase = Socks5Phase::Executing;
                Socks5Output { write: None, effect: Some(Socks5Effect::Connect(a)) }
            },
            Socks5Command::Bind => {
                self.phase = Socks5Phase::Executing;
                Socks5Output { write: None, effect: Some(Socks5Effect::Bind(a)) }
            },
            Socks5Command::Associate => {
                let w = Socks5Reply::UnsupportedCommand.reply(&SocksAddr::unspecified());
                self.phase = Socks5Phase::Failed;
                self.error = Some(SocksError::NotImplemented);
                Socks5Output { write: Some(w), effect: Some(Socks5Effect::Shutdown) }
            },
        }
    }

    fn on_connect_ok(&mut self, bound: SocksAddr) -> (r: Socks5Output)
        requires
            old(self).phase == Socks5Phase::Executing,
            old(self).inv(),
        ensures
            final(self).inv(),
            final(self).peer_addr == old(self).peer_addr,
            final(self).local_addr == old(self).local_addr,
            bound@.wf() ==> final(self).phase == Socks5Phase::Relaying && (r.write matches Some(w)
                && w@ == spec_v5_reply_bytes(Socks5Reply::Succeeded, bound@)) && r.effect == Some(
                Socks5Effect::StartRelay,
            ),
            !bound@.wf() ==> final(self).phase == Socks5Phase::Failed && final(self).error == Some(
                SocksError::InternalError,
            ) && r.write is None && r.effect == Some(Socks5Effect::Shutdown),
    {
        if bound.wf_check() {
            let w = Socks5Reply::Succeeded.reply(&bound);
            self.phase = Socks5Phase::Relaying;
            Socks5Output { write: Some(w), effect: Some(Socks5Effect::StartRelay) }
        } else {
            self.fail_internal()
        }
    }

    fn on_exec_failed(&mut self, k: ExecError) -> (r: Socks5Output)
        requires
            old(self).phase == Socks5Phase::Executing,
            old(self).inv(),
        ensures
            final(self).inv(),
            final(self).peer_addr == old(self).peer_addr,
            final(self).local_addr == old(self).local_addr,
            final(self).phase == Socks5Phase::Failed,
            final(self).error == Some(k.to_socks_error()),
            (r.write matches Some(w) && w@ == spec_v5_reply_bytes(
                spec_reply_for_exec_error(k),
                zero_addr(),
            )),
            r.effect == Some(Socks5Effect::Shutdown),
    {
        let rep = reply_for_exec_error(k);
        let w = rep.reply(&SocksAddr::unspecified());
        self.phase = Socks5Phase::Failed;
        self.error = Some(k.as_socks_error());
        Socks5Output { write: Some(w), effect: Some(Socks5Effect::Shutdown) }
    }
}

} // verus!
