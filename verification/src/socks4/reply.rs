//! The SOCKS4 reply frame: `VN | CD | DSTPORT | DSTIP`, eight bytes, with
//! `VN` always zero.

use vstd::prelude::*;

use crate::addr::SocksAddr;
use crate::addr::SocksAddrView;
use crate::wire::push_be16;
use crate::wire::spec_be16;

verus! {

/// A SOCKS4 reply code: request granted `0x5a`, rejected or failed `0x5b`,
/// rejected because the server cannot reach the client's identd `0x5c`,
/// rejected because identd reports a different user id `0x5d`.
#[derive(Clone, Copy, Debug, PartialEq, Eq, Structural)]
pub enum Socks4Reply {
    Granted,
    Rejected,
    RejectedByCannotConnectIdentd,
    RejectedByIdentdReportDifferentUserIds,
}

/// The reply denoted by a byte; bytes outside the four assigned codes read
/// as a plain rejection.
pub open spec fn reply4_of(b: u8) -> Socks4Reply {
    if b == 0x5a {
        Socks4Reply::Granted
    } else if b == 0x5c {
        Socks4Reply::RejectedByCannotConnectIdentd
    } else if b == 0x5d {
        Socks4Reply::RejectedByIdentdReportDifferentUserIds
    } else {
        Socks4Reply::Rejected
    }
}

impl Socks4Reply {
    /// The byte that encodes this reply.
    pub open spec fn code(self) -> u8 {
        match self {
            Socks4Reply::Granted => 0x5a,
            Socks4Reply::Rejected => 0x5b,
            Socks4Reply::RejectedByCannotConnectIdentd => 0x5c,
            Socks4Reply::RejectedByIdentdReportDifferentUserIds => 0x5d,
        }
    }

    /// Decode one reply octet.
    pub fn from_u8(value: u8) -> (r: Socks4Reply)
        ensures
            r == reply4_of(value),
    {
        match value {
            0x5a => Socks4Reply::Granted,
            0x5c => Socks4Reply::RejectedByCannotConnectIdentd,
            0x5d => Socks4Reply::RejectedByIdentdReportDifferentUserIds,
            _ => Socks4Reply::Rejected,
        }
    }

    /// Encode this reply as its single-byte code.
    pub fn to_u8(self) -> (r: u8)
        ensures
            r == self.code(),
    {
        match self {
            Socks4Reply::Granted => 0x5a,
            Socks4Reply::Rejected => 0x5b,
            Socks4Reply::RejectedByCannotConnectIdentd => 0x5c,
            Socks4Reply::RejectedByIdentdReportDifferentUserIds => 0x5d,
        }
    }

    /// Build the eight-byte reply frame announcing `bind_addr` with this
    /// reply code. A v4 reply can only carry an IPv4 address: for a domain
    /// or IPv6 bound address the IP field is written as `0.0.0.0`.
    pub fn reply(&self, bind_addr: &SocksAddr) -> (r: Vec<u8>)
        requires
            bind_addr@.wf(),
        ensures
            r@ == spec_v4_reply_bytes(*self, bind_addr@),
            r@.len() == 8,
    {
        let mut out: Vec<u8> = Vec::new();
        out.push(0x00);
        out.push(self.to_u8());
        push_be16(&mut out, bind_addr.port());
        match bind_addr {
            SocksAddr::IPV4 { ip, .. } => {
                crate::wire::push_bytes(&mut out, ip.as_slice());
            },
            _ => {
                crate::wire::push_bytes(&mut out, &[0, 0, 0, 0]);
            },
        }
        proof {
            assert(out@ =~= spec_v4_reply_bytes(*self, bind_addr@));
        }
        out
    }
}

/// The four IP octets a v4 reply reports for a bound address: the address
/// itself when IPv4, all zeros otherwise.
pub open spec fn spec_reply_ip4(a: SocksAddrView) -> Seq<u8> {
    match a {
        SocksAddrView::IPV4 { ip, .. } => ip,
        _ => seq![0u8, 0u8, 0u8, 0u8],
    }
}

/// Wire bytes of a v4 reply frame.
pub open spec fn spec_v4_reply_bytes(rep: Socks4Reply, a: SocksAddrView) -> Seq<u8> {
    seq![0x00u8, rep.code()] + spec_be16(a.port()) + spec_reply_ip4(a)
}

/// Law: encoding any reply and decoding the byte yields the same reply.
pub proof fn lemma_reply4_roundtrip(rep: Socks4Reply)
    ensures
        reply4_of(rep.code()) == rep,
{
}

} // verus!
