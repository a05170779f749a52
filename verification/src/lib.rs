//! Server-side core of the SOCKS4/4a and SOCKS5 proxy protocols.
//!
//! The crate contains the byte-exact wire codecs and the per-connection
//! negotiation state machines, written transport-free: the machines consume
//! bytes and protocol events and emit bytes to send plus requests for the
//! embedder (connect, bind, authenticate). All I/O stays with the embedder.

pub mod addr;
pub mod error;
pub mod relay;
pub mod socks4;
pub mod socks5;
pub mod text;
pub mod wire;

use vstd::prelude::*;

use crate::addr::SocksAddr;
use crate::error::SocksError;
use crate::socks4::Socks4;
use crate::socks4::Socks4Phase;
use crate::socks5::Socks5;
use crate::socks5::Socks5Phase;

verus! {

/// A freshly dispatched connection: the version octet has been read and
/// the matching state machine instantiated.
pub enum Socks {
    V4(Socks4),
    V5(Socks5),
}

impl Socks {
    /// Dispatch on the version octet read from a new client stream: `0x04`
    /// starts a SOCKS4 machine, `0x05` a SOCKS5 machine, and any other
    /// value is rejected, upon which the caller must close the stream.
    pub fn from_version(version: u8, peer_addr: SocksAddr, local_addr: SocksAddr) -> (r: Result<
        Socks,
        SocksError,
    >)
        ensures
            version == 0x04 ==> (r matches Ok(Socks::V4(m)) && m.inv() && m.phase
                == Socks4Phase::Request && m.peer_addr == peer_addr && m.local_addr == local_addr),
            version == 0x05 ==> (r matches Ok(Socks::V5(m)) && m.inv() && m.phase
                == Socks5Phase::Greeting && m.peer_addr == peer_addr && m.local_addr == local_addr),
            version != 0x04 && version != 0x05 ==> r == Err::<Socks, SocksError>(
                SocksError::UnsupportedVersion(version),
            ),
    {
        match version {
            0x04 => Ok(Socks::V4(Socks4::new(peer_addr, local_addr))),
            0x05 => Ok(Socks::V5(Socks5::new(peer_addr, local_addr))),
            v => Err(SocksError::UnsupportedVersion(v)),
        }
    }
}

} // verus!
