//! The SOCKS5 request frame:
//! `VER | CMD | RSV | ATYP | DST.ADDR | DST.PORT`.

use vstd::prelude::*;

use crate::addr::SocksAddr;
use crate::addr::SocksAddrView;
use crate::error::SocksError;
use crate::socks5::command::Socks5Command;
use crate::socks5::frame::decode_addr;
use crate::socks5::frame::encode_addr;
use crate::socks5::frame::lemma_addr_reencode;
use crate::socks5::frame::lemma_addr_roundtrip;
use crate::socks5::frame::spec_addr_bytes;
use crate::socks5::frame::spec_parse_addr;
use crate::socks5::frame::AddrParse;
use crate::wire::DecodeResult;

verus! {

/// A parsed v5 request: the command and the destination address.
#[derive(Clone, Debug, PartialEq, Eq)]
pub struct Socks5Request {
    pub command: Socks5Command,
    pub addr: SocksAddr,
}

/// The mathematical shape of a `Socks5Request`.
pub struct Socks5RequestView {
    pub command: Socks5Command,
    pub addr: SocksAddrView,
}

impl View for Socks5Request {
    type V = Socks5RequestView;

    open spec fn view(&self) -> Socks5RequestView {
        Socks5RequestView { command: self.command, addr: self.addr@ }
    }
}

impl Socks5RequestView {
    /// Structural validity of the request: its address is well formed.
    pub open spec fn wf(self) -> bool {
        self.addr.wf()
    }
}

/// The command denoted by a byte in `0x01..=0x03`.
pub open spec fn spec_command_of(v: u8) -> Socks5Command
    recommends
        0x01 <= v <= 0x03,
{
    if v == 0x01 {
        Socks5Command::Connect
    } else if v == 0x02 {
        Socks5Command::Bind
    } else {
        Socks5Command::Associate
    }
}

/// Wire bytes of a v5 request frame.
pub open spec fn spec_v5_request_bytes(cmd: Socks5Command, a: SocksAddrView) -> Seq<u8> {
    seq![0x05u8, cmd.code(), 0x00u8] + spec_addr_bytes(a)
}

/// What parsing a v5 request from the front of a byte sequence yields.
pub enum V5RequestParse {
    Parsed { command: Socks5Command, addr: SocksAddrView, used: int },
    Incomplete { more: int },
    Malformed { err: SocksError },
}

/// Parse a v5 request from the front of `b`: version and command octets
/// are checked as soon as they are present, the reserved octet is ignored,
/// and the address field follows `spec_parse_addr`.
pub open spec fn spec_parse_v5_request(b: Seq<u8>) -> V5RequestParse {
    if b.len() < 1 {
        V5RequestParse::Incomplete { more: 1 }
    } else if b[0] != 0x05 {
        V5RequestParse::Malformed { err: SocksError::UnsupportedVersion(b[0]) }
    } else if b.len() < 2 {
        V5RequestParse::Incomplete { more: 1 }
    } else if !(0x01 <= b[1] <= 0x03) {
        V5RequestParse::Malformed { err: SocksError::InvalidCommand(b[1]) }
    } else if b.len() < 3 {
        V5RequestParse::Incomplete { more: 1 }
    } else {
        match spec_parse_addr(b.skip(3)) {
            AddrParse::Parsed { addr, used } => V5RequestParse::Parsed {
                command: spec_command_of(b[1]),
                addr,
                used: 3 + used,
            },
            AddrParse::Incomplete { more } => V5RequestParse::Incomplete { more },
            AddrParse::Malformed { err } => V5RequestParse::Malformed { err },
        }
    }
}

impl Socks5Request {
    /// Pair a command with a destination address.
    pub fn new(command: Socks5Command, addr: SocksAddr) -> (r: Socks5Request)
        ensures
            r@.command == command,
            r@.addr == addr@,
    {
        Socks5Request { command, addr }
    }

    /// Decode one request frame from the front of `buf`, mirroring
    /// `spec_parse_v5_request`.
    pub fn decode(buf: &Vec<u8>) -> (r: DecodeResult<Socks5Request>)
        ensures
            match r {
                DecodeResult::Done(req, used) => spec_parse_v5_request(buf@)
                    matches V5RequestParse::Parsed { command, addr, used: u } && req@.command
                    == command && req@.addr == addr && used == u && req@.wf() && used <= buf@.len(),
                DecodeResult::Need(m) => spec_parse_v5_request(buf@)
                    matches V5RequestParse::Incomplete { more } && m == more,
                DecodeResult::Fail(e) => spec_parse_v5_request(buf@)
                    matches V5RequestParse::Malformed { err } && e == err,
            },
    {
        let n = buf.len();
        if n < 1 {
            return DecodeResult::Need(1);
        }
        if buf[0] != 0x05 {
            return DecodeResult::Fail(SocksError::UnsupportedVersion(buf[0]));
        }
        if n < 2 {
            return DecodeResult::Need(1);
        }
        let cmd = match Socks5Command::try_from_u8(buf[1]) {
            Ok(c) => c,
            Err(e) => {
                return DecodeResult::Fail(e);
            },
        };
        if n < 3 {
            return DecodeResult::Need(1);
        }
        match decode_addr(buf, 3) {
            DecodeResult::Done(addr, used) => DecodeResult::Done(
                Socks5Request { command: cmd, addr },
                3 + used,
            ),
            DecodeResult::Need(m) => DecodeResult::Need(m),
            DecodeResult::Fail(e) => DecodeResult::Fail(e),
        }
    }

    /// Build the wire bytes of this request.
    pub fn encode(&self) -> (r: Vec<u8>)
        requires
            self@.wf(),
        ensures
            r@ == spec_v5_request_bytes(self@.command, self@.addr),
    {
        let mut out: Vec<u8> = Vec::new();
        out.push(0x05);
        out.push(self.command.to_u8());
        out.push(0x00);
        encode_addr(&mut out, &self.addr);
        proof {
            assert(out@ =~= spec_v5_request_bytes(self@.command, self@.addr));
        }
        out
    }
}

/// Law: a v5 request frame re-parses to the command and address it was
/// encoded from, consuming the whole frame.
pub proof fn lemma_v5_request_roundtrip(cmd: Socks5Command, a: SocksAddrView)
    requires
        a.wf(),
    ensures
        spec_parse_v5_request(spec_v5_request_bytes(cmd, a)) == (V5RequestParse::Parsed {
            command: cmd,
            addr: a,
            used: spec_v5_request_bytes(cmd, a).len() as int,
        }),
{
    let b = spec_v5_request_bytes(cmd, a);
    assert(b.skip(3) =~= spec_addr_bytes(a));
    lemma_addr_roundtrip(a);
}

/// Law: a v5 request frame that parses, and whose reserved octet is zero
/// as the grammar demands, re-encodes to exactly the bytes it was parsed
/// from.
pub proof fn lemma_v5_request_reencode(b: Seq<u8>)
    ensures
        spec_parse_v5_request(b) matches V5RequestParse::Parsed { command, addr, used } ==> (b[2]
            == 0 ==> spec_v5_request_bytes(command, addr) =~= b.subrange(0, used)),
{
    if b.len() >= 3 && b[0] == 0x05 && 0x01 <= b[1] <= 0x03 && b[2] == 0 {
        lemma_addr_reencode(b.skip(3));
        if let V5RequestParse::Parsed { command, addr, used } = spec_parse_v5_request(b) {
            assert(b.skip(3).subrange(0, used - 3) =~= b.subrange(3, used));
            assert(spec_v5_request_bytes(command, addr) =~= b.subrange(0, used));
        }
    }
}

} // verus!
