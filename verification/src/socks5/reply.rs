//! The SOCKS5 reply frame: the reply code octet and the
//! `VER | REP | RSV | ATYP | BND.ADDR | BND.PORT` encoding.

use vstd::prelude::*;

use crate::addr::SocksAddr;
use crate::addr::SocksAddrView;
use crate::error::SocksError;
use crate::socks5::frame::encode_addr;
use crate::socks5::frame::spec_addr_bytes;

verus! {

/// A SOCKS5 reply code. The nine assigned codes `0x00..=0x08` have their
/// own variants; every other byte is preserved in `Unassigned`.
#[derive(Clone, Copy, Debug, PartialEq, Eq, Structural)]
pub enum Socks5Reply {
    Succeeded,
    Failure,
    NotAllowed,
    NetworkUnreachable,
    HostUnreachable,
    ConnectionRefused,
    TTLExpired,
    UnsupportedCommand,
    UnsupportedAddressType,
    Unassigned(u8),
}

/// The reply denoted by a byte; total on all 256 byte values.
pub open spec fn reply_of(b: u8) -> Socks5Reply {
    if b == 0x00 {
        Socks5Reply::Succeeded
    } else if b == 0x01 {
        Socks5Reply::Failure
    } else if b == 0x02 {
        Socks5Reply::NotAllowed
    } else if b == 0x03 {
        Socks5Reply::NetworkUnreachable
    } else if b == 0x04 {
        Socks5Reply::HostUnreachable
    } else if b == 0x05 {
        Socks5Reply::ConnectionRefused
    } else if b == 0x06 {
        Socks5Reply::TTLExpired
    } else if b == 0x07 {
        Socks5Reply::UnsupportedCommand
    } else if b == 0x08 {
        Socks5Reply::UnsupportedAddressType
    } else {
        Socks5Reply::Unassigned(b)
    }
}

impl Socks5Reply {
    /// The byte that encodes this reply.
    pub open spec fn code(self) -> u8 {
        match self {
            Socks5Reply::Succeeded => 0x00,
            Socks5Reply::Failure => 0x01,
            Socks5Reply::NotAllowed => 0x02,
            Socks5Reply::NetworkUnreachable => 0x03,
            Socks5Reply::HostUnreachable => 0x04,
            Socks5Reply::ConnectionRefused => 0x05,
            Socks5Reply::TTLExpired => 0x06,
            Socks5Reply::UnsupportedCommand => 0x07,
            Socks5Reply::UnsupportedAddressType => 0x08,
            Socks5Reply::Unassigned(v) => v,
        }
    }

    /// A reply whose `Unassigned` payload, if any, lies outside the nine
    /// assigned codes. Decoding only ever produces well-formed replies.
    pub open spec fn wf(self) -> bool {
        match self {
            Socks5Reply::Unassigned(v) => v > 0x08,
            _ => true,
        }
    }

    /// Decode one reply octet. Every byte denotes a reply.
    pub fn from_u8(value: u8) -> (r: Socks5Reply)
        ensures
            r == reply_of(value),
            r.wf(),
    {
        match value {
            0x00 => Socks5Reply::Succeeded,
            0x01 => Socks5Reply::Failure,
            0x02 => Socks5Reply::NotAllowed,
            0x03 => Socks5Reply::NetworkUnreachable,
            0x04 => Socks5Reply::HostUnreachable,
            0x05 => Socks5Reply::ConnectionRefused,
            0x06 => Socks5Reply::TTLExpired,
            0x07 => Socks5Reply::UnsupportedCommand,
            0x08 => Socks5Reply::UnsupportedAddressType,
            val => Socks5Reply::Unassigned(val),
        }
    }

    /// Encode this reply as its single-byte code.
    pub fn to_u8(self) -> (r: u8)
        ensures
            r == self.code(),
    {
        match self {
            Socks5Reply::Succeeded => 0x00,
            Socks5Reply::Failure => 0x01,
            Socks5Reply::NotAllowed => 0x02,
            Socks5Reply::NetworkUnreachable => 0x03,
            Socks5Reply::HostUnreachable => 0x04,
            Socks5Reply::ConnectionRefused => 0x05,
            Socks5Reply::TTLExpired => 0x06,
            Socks5Reply::UnsupportedCommand => 0x07,
            Socks5Reply::UnsupportedAddressType => 0x08,
            Socks5Reply::Unassigned(v) => v,
        }
    }

    /// Build the reply frame announcing `bind_addr` with this reply code.
    pub fn reply(&self, bind_addr: &SocksAddr) -> (r: Vec<u8>)
        requires
            bind_addr@.wf(),
        ensures
            r@ == spec_v5_reply_bytes(*self, bind_addr@),
    {
        let mut out: Vec<u8> = Vec::new();
        out.push(0x05);
        out.push(self.to_u8());
        out.push(0x00);
        encode_addr(&mut out, bind_addr);
        proof {
            assert(out@ =~= spec_v5_reply_bytes(*self, bind_addr@));
        }
        out
    }
}

/// Wire bytes of a v5 reply frame.
pub open spec fn spec_v5_reply_bytes(rep: Socks5Reply, a: SocksAddrView) -> Seq<u8> {
    seq![0x05u8, rep.code(), 0x00u8] + spec_addr_bytes(a)
}

/// Law: decoding any byte and re-encoding the reply yields the same byte.
pub proof fn lemma_reply_byte_roundtrip(b: u8)
    ensures
        reply_of(b).code() == b,
{
}

/// Law: encoding a well-formed reply and decoding the byte yields the same
/// reply.
pub proof fn lemma_reply_roundtrip(rep: Socks5Reply)
    requires
        rep.wf(),
    ensures
        reply_of(rep.code()) == rep,
{
}

/// The reply code a v5 connection answers with when it fails with `e`
/// during or after request parsing: command problems are `0x07`, address
/// problems `0x08`, everything else the general failure `0x01`.
pub open spec fn spec_reply_for_error(e: SocksError) -> Socks5Reply {
    match e {
        SocksError::InvalidCommand(_) => Socks5Reply::UnsupportedCommand,
        SocksError::UnsupportedCommand(_) => Socks5Reply::UnsupportedCommand,
        SocksError::NotImplemented => Socks5Reply::UnsupportedCommand,
        SocksError::InvalidAddressType(_) => Socks5Reply::UnsupportedAddressType,
        SocksError::UnsupportedAddressType(_) => Socks5Reply::UnsupportedAddressType,
        SocksError::UnsupportedAddress(_) => Socks5Reply::UnsupportedAddressType,
        _ => Socks5Reply::Failure,
    }
}

/// Map an error to the v5 reply code that reports it.
pub fn reply_for_error(e: &SocksError) -> (r: Socks5Reply)
    ensures
        r == spec_reply_for_error(*e),
{
    match e {
        SocksError::InvalidCommand(_) => Socks5Reply::UnsupportedCommand,
        SocksError::UnsupportedCommand(_) => Socks5Reply::UnsupportedCommand,
        SocksError::NotImplemented => Socks5Reply::UnsupportedCommand,
        SocksError::InvalidAddressType(_) => Socks5Reply::UnsupportedAddressType,
        SocksError::UnsupportedAddressType(_) => Socks5Reply::UnsupportedAddressType,
        SocksError::UnsupportedAddress(_) => Socks5Reply::UnsupportedAddressType,
        _ => Socks5Reply::Failure,
    }
}

/// The reply code a v5 connection answers with when the embedder's connect
/// or bind attempt fails.
pub open spec fn spec_reply_for_exec_error(k: crate::error::ExecError) -> Socks5Reply {
    match k {
        crate::error::ExecError::NetworkUnreachable => Socks5Reply::NetworkUnreachable,
        crate::error::ExecError::HostUnreachable => Socks5Reply::HostUnreachable,
        crate::error::ExecError::ConnectionRefused => Socks5Reply::ConnectionRefused,
        crate::error::ExecError::NotImplemented => Socks5Reply::UnsupportedCommand,
        crate::error::ExecError::Io => Socks5Reply::Failure,
        crate::error::ExecError::Internal => Socks5Reply::Failure,
    }
}

/// Map an execution failure to the v5 reply code that reports it.
pub fn reply_for_exec_error(k: crate::error::ExecError) -> (r: Socks5Reply)
    ensures
        r == spec_reply_for_exec_error(k),
{
    match k {
        crate::error::ExecError::NetworkUnreachable => Socks5Reply::NetworkUnreachable,
        crate::error::ExecError::HostUnreachable => Socks5Reply::HostUnreachable,
        crate::error::ExecError::ConnectionRefused => Socks5Reply::ConnectionRefused,
        crate::error::ExecError::NotImplemented => Socks5Reply::UnsupportedCommand,
        crate::error::ExecError::Io => Socks5Reply::Failure,
        crate::error::ExecError::Internal => Socks5Reply::Failure,
    }
}

} // verus!
