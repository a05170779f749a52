//! The SOCKS4/4a per-connection state machine. It consumes bytes read from
//! the client and verdicts from the policy handler, and yields bytes to
//! send back plus at most one effect to perform; the embedder runs the
//! loop and does the I/O.

use vstd::prelude::*;

use crate::addr::zero_addr;
use crate::addr::SocksAddr;
use crate::error::ExecError;
use crate::error::SocksError;
use crate::socks4::command::Socks4Command;
use crate::socks4::reply::spec_v4_reply_bytes;
use crate::socks4::reply::Socks4Reply;
use crate::socks4::request::spec_parse_v4_request;
use crate::socks4::request::Socks4Request;
use crate::socks4::request::V4RequestParse;
use crate::wire::append_vec;
use crate::wire::tail;
use crate::wire::DecodeResult;

verus! {

/// Where a v4 connection stands.
#[derive(Clone, Copy, Debug, PartialEq, Eq, Structural)]
pub enum Socks4Phase {
    /// Reading the request frame.
    Request,
    /// Waiting for the policy handler to gate the command.
    GateCommand,
    /// Waiting for the policy handler's identd-style user check.
    Authorize,
    /// Waiting for the outcome of the requested CONNECT or BIND.
    Executing,
    /// Success: bytes now flow both ways until either side closes.
    Relaying,
    /// The connection ended without error.
    Done,
    /// The connection ended with the recorded error.
    Failed,
}

/// What the embedder reports to the machine.
#[derive(Debug)]
pub enum Socks4Event {
    /// Bytes read from the client (empty to re-examine buffered bytes).
    Data(Vec<u8>),
    /// The policy handler's verdict on the command.
    CommandAllowed(bool),
    /// The policy handler's verdict on the user id.
    Authorized(bool),
    /// CONNECT succeeded; carries the bound address of the outbound stream.
    ConnectOk(SocksAddr),
    /// BIND succeeded: the handler has sent its two replies and relayed.
    BindOk,
    /// The CONNECT or BIND attempt failed.
    ExecFailed(ExecError),
}

/// What the embedder must do next.
#[derive(Clone, Debug, PartialEq, Eq)]
pub enum Socks4Effect {
    /// Ask the policy handler to gate this command.
    AskCommand(Socks4Command),
    /// Ask the policy handler to authorize this user id.
    AskIdentd(String),
    /// Open the outbound connection.
    Connect(SocksAddr),
    /// Run the two-reply BIND flow.
    Bind(SocksAddr),
    /// Start pumping bytes both ways.
    StartRelay,
    /// Close the client stream.
    Shutdown,
}

/// One step's output: bytes to send to the client first, then at most one
/// effect to perform.
#[derive(Debug)]
pub struct Socks4Output {
    pub write: Option<Vec<u8>>,
    pub effect: Option<Socks4Effect>,
}

/// Phases in which the machine takes no further part.
pub open spec fn terminal4(p: Socks4Phase) -> bool {
    p == Socks4Phase::Relaying || p == Socks4Phase::Done || p == Socks4Phase::Failed
}

/// The SOCKS4 state machine for one connection.
pub struct Socks4 {
    /// Where the connection stands.
    pub phase: Socks4Phase,
    /// Bytes received from the client and not yet consumed by a frame.
    pub buf: Vec<u8>,
    /// The parsed request, once one has been read.
    pub request: Option<Socks4Request>,
    /// The error the connection failed with, exactly in phase `Failed`.
    pub error: Option<SocksError>,
    /// The client's address, for the embedder's identd-style check.
    pub peer_addr: SocksAddr,
    /// The server-side address of the client stream.
    pub local_addr: SocksAddr,
}

impl Socks4 {
    /// What must hold of the machine between steps.
    pub open spec fn inv(self) -> bool {
        &&& ((self.phase == Socks4Phase::GateCommand || self.phase == Socks4Phase::Authorize
            || self.phase == Socks4Phase::Executing) ==> self.request is Some)
        &&& (self.phase == Socks4Phase::Failed <==> self.error is Some)
    }

    /// Which events the machine can make sense of where it stands.
    pub open spec fn expects(self, e: Socks4Event) -> bool {
        match e {
            Socks4Event::Data(_) => self.phase == Socks4Phase::Request,
            Socks4Event::CommandAllowed(_) => self.phase == Socks4Phase::GateCommand,
            Socks4Event::Authorized(_) => self.phase == Socks4Phase::Authorize,
            Socks4Event::ConnectOk(_) => self.phase == Socks4Phase::Executing && (self.request
                matches Some(q) && q.command == Socks4Command::Connect),
            Socks4Event::BindOk => self.phase == Socks4Phase::Executing && (self.request
                matches Some(q) && q.command == Socks4Command::Bind),
            Socks4Event::ExecFailed(_) => self.phase == Socks4Phase::Executing,
        }
    }

    /// A fresh machine, ready to read the request (the version octet has
    /// already been consumed by the dispatcher).
    pub fn new(peer_addr: SocksAddr, local_addr: SocksAddr) -> (r: Socks4)
        ensures
            r.phase == Socks4Phase::Request,
            r.buf@ == Seq::<u8>::empty(),
            r.request is None,
            r.error is None,
            r.peer_addr == peer_addr,
            r.local_addr == local_addr,
            r.inv(),
    {
        Socks4 {
            phase: Socks4Phase::Request,
            buf: Vec::new(),
            request: None,
            error: None,
            peer_addr,
            local_addr,
        }
    }

    /// Whether the machine is waiting for more bytes from the client.
    pub fn wants_data(&self) -> (r: bool)
        ensures
            r == (self.phase == Socks4Phase::Request),
    {
        self.phase == Socks4Phase::Request
    }

    /// Record an internal error: an event arrived that the machine cannot
    /// make sense of where it stands.
    fn fail_internal(&mut self) -> (r: Socks4Output)
        ensures
            final(self).phase == Socks4Phase::Failed,
            final(self).error == Some(SocksError::InternalError),
            final(self).buf == old(self).buf,
            final(self).request == old(self).request,
            final(self).peer_addr == old(self).peer_addr,
            final(self).local_addr == old(self).local_addr,
            r.write is None,
            r.effect == Some(Socks4Effect::Shutdown),
    {
        self.phase = Socks4Phase::Failed;
        self.error = Some(SocksError::InternalError);
        Socks4Output { write: None, effect: Some(Socks4Effect::Shutdown) }
    }

    /// Record a failure that is reported to the client with a `Rejected`
    /// reply carrying an all-zero address.
    fn fail_rejected(&mut self, e: SocksError) -> (r: Socks4Output)
        ensures
            final(self).phase == Socks4Phase::Failed,
            final(self).error == Some(e),
            final(self).buf == old(self).buf,
            final(self).request == old(self).request,
            final(self).peer_addr == old(self).peer_addr,
            final(self).local_addr == old(self).local_addr,
            (r.write matches Some(w) && w@ == spec_v4_reply_bytes(
                Socks4Reply::Rejected,
                zero_addr(),
            )),
            r.effect == Some(Socks4Effect::Shutdown),
    {
        let w = Socks4Reply::Rejected.reply(&SocksAddr::unspecified());
        self.phase = Socks4Phase::Failed;
        self.error = Some(e);
        Socks4Output { write: Some(w), effect: Some(Socks4Effect::Shutdown) }
    }

    /// Advance the machine by one event.
    ///
    /// Stray events in a terminal phase are ignored; an event the machine
    /// does not expect in a live phase fails the connection with
    /// `InternalError`. Everything else follows the SOCKS4 order: request,
    /// command gate, identd-style authorization, then execution. Every
    /// failure after a complete request is answered with a `Rejected`
    /// reply before the stream closes.
    pub fn step(&mut self, event: Socks4Event) -> (r: Socks4Output)
        requires
            old(self).inv(),
        ensures
            final(self).inv(),
            final(self).peer_addr == old(self).peer_addr,
            final(self).local_addr == old(self).local_addr,
            terminal4(old(self).phase) ==> *final(self) == *old(self) && r.write is None
                && r.effect is None,
            !terminal4(old(self).phase) && !old(self).expects(event) ==> final(self).phase
                == Socks4Phase::Failed && final(self).error == Some(SocksError::InternalError)
                && r.write is None && r.effect == Some(Socks4Effect::Shutdown),
            old(self).phase == Socks4Phase::Request ==> (event matches Socks4Event::Data(d) ==> ({
                let nb = old(self).buf@ + d@;
                match spec_parse_v4_request(nb) {
                    V4RequestParse::Incomplete { .. } => {
                        &&& final(self).phase == Socks4Phase::Request
                        &&& final(self).buf@ == nb
                        &&& r.write is None
                        &&& r.effect is None
                    },
                    V4RequestParse::Malformed { err } => {
                        &&& final(self).phase == Socks4Phase::Failed
                        &&& final(self).error == Some(err)
                        &&& (r.write matches Some(w) && w@ == spec_v4_reply_bytes(
                            Socks4Reply::Rejected,
                            zero_addr(),
                        ))
                        &&& r.effect == Some(Socks4Effect::Shutdown)
                    },
                    V4RequestParse::Parsed { command, addr, user, used } => {
                        &&& final(self).phase == Socks4Phase::GateCommand
                        &&& final(self).buf@ == nb.skip(used)
                        &&& (final(self).request matches Some(q) && q@.command == command && q@.addr
                            == addr && q@.user_id == user)
                        &&& r.write is None
                        &&& r.effect == Some(Socks4Effect::AskCommand(command))
                    },
                }
            })),
            old(self).phase == Socks4Phase::GateCommand ==> (event
                matches Socks4Event::CommandAllowed(ok) ==> (old(self).request matches Some(q)
                ==> ({
                &&& final(self).request == old(self).request
                &&& (ok ==> final(self).phase == Socks4Phase::Authorize && r.write is None && (
                r.effect matches Some(Socks4Effect::AskIdentd(u)) && u@ == q@.user_id))
                &&& (!ok ==> final(self).phase == Socks4Phase::Failed && final(self).error == Some(
                    SocksError::UnsupportedCommand(q.command.code()),
                ) && (r.write matches Some(w) && w@ == spec_v4_reply_bytes(
                    Socks4Reply::Rejected,
                    zero_addr(),
                )) && r.effect == Some(Socks4Effect::Shutdown))
            }))),
            old(self).phase == Socks4Phase::Authorize ==> (event matches Socks4Event::Authorized(
                ok,
            ) ==> (old(self).request matches Some(q) ==> ({
                &&& (ok && q.command == Socks4Command::Connect ==> final(self).phase
                    == Socks4Phase::Executing && r.write is None && (r.effect matches Some(
                    Socks4Effect::Connect(a),
                ) && a@ == q@.addr) && final(self).request == old(self).request)
                &&& (ok && q.command == Socks4Command::Bind ==> final(self).phase
                    == Socks4Phase::Executing && r.write is None && (r.effect matches Some(
                    Socks4Effect::Bind(a),
                ) && a@ == q@.addr) && final(self).request == old(self).request)
                &&& (!ok ==> final(self).phase == Socks4Phase::Failed && final(self).error == Some(
                    SocksError::AuthFailed,
                ) && (r.write matches Some(w) && w@ == spec_v4_reply_bytes(
                    Socks4Reply::Rejected,
                    zero_addr(),
                )) && r.effect == Some(Socks4Effect::Shutdown))
            }))),
            old(self).phase == Socks4Phase::Executing && old(self).expects(event) ==> (event
                matches Socks4Event::ConnectOk(bound) ==> ({
                &&& (bound@.wf() ==> final(self).phase == Socks4Phase::Relaying && (r.write
                    matches Some(w) && w@ == spec_v4_reply_bytes(Socks4Reply::Granted, bound@))
                    && r.effect == Some(Socks4Effect::StartRelay))
                &&& (!bound@.wf() ==> final(self).phase == Socks4Phase::Failed && final(self).error
                    == Some(SocksError::InternalError) && r.write is None && r.effect == Some(
                    Socks4Effect::Shutdown,
                ))
            })),
            old(self).phase == Socks4Phase::Executing && old(self).expects(event) ==> (event
                matches Socks4Event::BindOk ==> final(self).phase == Socks4Phase::Done
                && final(self).error is None && r.write is None && r.effect is None),
            old(self).phase == Socks4Phase::Executing ==> (event matches Socks4Event::ExecFailed(k)
                ==> final(self).phase == Socks4Phase::Failed && final(self).error == Some(
                k.to_socks_error(),
            ) && (r.write matches Some(w) && w@ == spec_v4_reply_bytes(
                Socks4Reply::Rejected,
                zero_addr(),
            )) && r.effect == Some(Socks4Effect::Shutdown)),
    {
        let ph = self.phase;
        if ph == Socks4Phase::Relaying || ph == Socks4Phase::Done || ph == Socks4Phase::Failed {
            return Socks4Output { write: None, effect: None };
        }
        match event {
            Socks4Event::Data(d) => {
                if ph == Socks4Phase::Request {
                    self.on_request_data(d)
                } else {
                    self.fail_internal()
                }
            },
            Socks4Event::CommandAllowed(ok) => {
                if ph == Socks4Phase::GateCommand {
                    self.on_command_allowed(ok)
                } else {
                    self.fail_internal()
                }
            },
            Socks4Event::Authorized(ok) => {
                if ph == Socks4Phase::Authorize {
                    self.on_authorized(ok)
                } else {
                    self.fail_internal()
                }
            },
            Socks4Event::ConnectOk(bound) => {
                if ph == Socks4Phase::Executing && self.request_is(Socks4Command::Connect) {
                    self.on_connect_ok(bound)
                } else {
                    self.fail_internal()
                }
            },
            Socks4Event::BindOk => {
                if ph == Socks4Phase::Executing && self.request_is(Socks4Command::Bind) {
                    self.phase = Socks4Phase::Done;
                    Socks4Output { write: None, effect: None }
                } else {
                    self.fail_internal()
                }
            },
            Socks4Event::ExecFailed(k) => {
                if ph == Socks4Phase::Executing {
                    self.fail_rejected(k.as_socks_error())
                } else {
                    self.fail_internal()
                }
            },
        }
    }

    /// Whether a request was parsed and carries this command.
    fn request_is(&self, c: Socks4Command) -> (r: bool)
        ensures
            r == (self.request matches Some(q) && q.command == c),
    {
        match &self.request {
            Some(q) => q.command == c,
            None => false,
        }
    }

    fn on_request_data(&mut self, d: Vec<u8>) -> (r: Socks4Output)
        requires
            old(self).phase == Socks4Phase::Request,
            old(self).inv(),
        ensures
            final(self).inv(),
            final(self).peer_addr == old(self).peer_addr,
            final(self).local_addr == old(self).local_addr,
            ({
                let nb = old(self).buf@ + d@;
                match spec_parse_v4_request(nb) {
                    V4RequestParse::Incomplete { .. } => {
                        &&& final(self).phase == Socks4Phase::Request
                        &&& final(self).buf@ == nb
                        &&& r.write is None
                        &&& r.effect is None
                    },
                    V4RequestParse::Malformed { err } => {
                        &&& final(self).phase == Socks4Phase::Failed
                        &&& final(self).error == Some(err)
                        &&& (r.write matches Some(w) && w@ == spec_v4_reply_bytes(
                            Socks4Reply::Rejected,
                            zero_addr(),
                        ))
                        &&& r.effect == Some(Socks4Effect::Shutdown)
                    },
                    V4RequestParse::Parsed { command, addr, user, used } => {
                        &&& final(self).phase == Socks4Phase::GateCommand
                        &&& final(self).buf@ == nb.skip(used)
                        &&& (final(self).request matches Some(q) && q@.command == command && q@.addr
                            == addr && q@.user_id == user)
                        &&& r.write is None
                        &&& r.effect == Some(Socks4Effect::AskCommand(command))
                    },
                }
            }),
    {
        append_vec(&mut self.buf, &d);
        match Socks4Request::decode(&self.buf) {
            DecodeResult::Done(req, used) => {
                let rest = tail(&self.buf, used);
                self.buf = rest;
                let command = req.command;
                self.request = Some(req);
                self.phase = Socks4Phase::GateCommand;
                Socks4Output { write: None, effect: Some(Socks4Effect::AskCommand(command)) }
            },
            DecodeResult::Need(_) => Socks4Output { write: None, effect: None },
            DecodeResult::Fail(e) => self.fail_rejected(e),
        }
    }

    fn on_command_allowed(&mut self, ok: bool) -> (r: Socks4Output)
        requires
            old(self).phase == Socks4Phase::GateCommand,
            old(self).inv(),
        ensures
            final(self).inv(),
            final(self).peer_addr == old(self).peer_addr,
            final(self).local_addr == old(self).local_addr,
            final(self).request == old(self).request,
            (old(self).request matches Some(q) ==> {
                &&& (ok ==> final(self).phase == Socks4Phase::Authorize && r.write is None && (
                r.effect matches Some(Socks4Effect::AskIdentd(u)) && u@ == q@.user_id))
                &&& (!ok ==> final(self).phase == Socks4Phase::Failed && final(self).error == Some(
                    SocksError::UnsupportedCommand(q.command.code()),
                ) && (r.write matches Some(w) && w@ == spec_v4_reply_bytes(
                    Socks4Reply::Rejected,
                    zero_addr(),
                )) && r.effect == Some(Socks4Effect::Shutdown))
            }),
    {
        if ok {
            let u = match &self.request {
                Some(q) => q.user_id.clone(),
                None => String::new(),
            };
            self.phase = Socks4Phase::Authorize;
            Socks4Output { write: None, effect: Some(Socks4Effect::AskIdentd(u)) }
        } else {
            let code = match &self.request {
                Some(q) => q.command.to_u8(),
                None => 0,
            };
            self.fail_rejected(SocksError::UnsupportedCommand(code))
        }
    }

    fn on_authorized(&mut self, ok: bool) -> (r: Socks4Output)
        requires
            old(self).phase == Socks4Phase::Authorize,
            old(self).inv(),
        ensures
            final(self).inv(),
            final(self).peer_addr == old(self).peer_addr,
            final(self).local_addr == old(self).local_addr,
            (old(self).request matches Some(q) ==> {
                &&& (ok && q.command == Socks4Command::Connect ==> final(self).phase
                    == Socks4Phase::Executing && r.write is None && (r.effect matches Some(
                    Socks4Effect::Connect(a),
                ) && a@ == q@.addr) && final(self).request == old(self).request)
                &&& (ok && q.command == Socks4Command::Bind ==> final(self).phase
                    == Socks4Phase::Executing && r.write is None && (r.effect matches Some(
                    Socks4Effect::Bind(a),
                ) && a@ == q@.addr) && final(self).request == old(self).request)
                &&& (!ok ==> final(self).phase == Socks4Phase::Failed && final(self).error == Some(
                    SocksError::AuthFailed,
                ) && (r.write matches Some(w) && w@ == spec_v4_reply_bytes(
                    Socks4Reply::Rejected,
                    zero_addr(),
                )) && r.effect == Some(Socks4Effect::Shutdown))
            }),
    {
        if !ok {
            return self.fail_rejected(SocksError::AuthFailed);
        }
        let a = match &self.request {
            Some(q) => q.addr.clone(),
            None => SocksAddr::unspecified(),
        };
        let command = match &self.request {
            Some(q) => q.command,
            None => Socks4Command::Connect,
        };
        self.phase = Socks4Phase::Executing;
        match command {
            Socks4Command::Connect => Socks4Output {
                write: None,
                effect: Some(Socks4Effect::Connect(a)),
            },
            Socks4Command::Bind => Socks4Output {
                write: None,
                effect: Some(Socks4Effect::Bind(a)),
            },
        }
    }

    fn on_connect_ok(&mut self, bound: SocksAddr) -> (r: Socks4Output)
        requires
            old(self).phase == Socks4Phase::Executing,
            old(self).inv(),
        ensures
            final(self).inv(),
            final(self).peer_addr == old(self).peer_addr,
            final(self).local_addr == old(self).local_addr,
            bound@.wf() ==> final(self).phase == Socks4Phase::Relaying && (r.write matches Some(w)
                && w@ == spec_v4_reply_bytes(Socks4Reply::Granted, bound@)) && r.effect == Some(
                Socks4Effect::StartRelay,
            ),
            !bound@.wf() ==> final(self).phase == Socks4Phase::Failed && final(self).error == Some(
                SocksError::InternalError,
            ) && r.write is None && r.effect == Some(Socks4Effect::Shutdown),
    {
        if bound.wf_check() {
            let w = Socks4Reply::Granted.reply(&bound);
            self.phase = Socks4Phase::Relaying;
            Socks4Output { write: Some(w), effect: Some(Socks4Effect::StartRelay) }
        } else {
            self.fail_internal()
        }
    }
}

} // verus!
