//! The closed set of error kinds the protocol core can report. Every
//! non-transport kind has a fixed wire-reply mapping, stated where the
//! reply codecs live.

use vstd::prelude::*;

use crate::addr::SocksAddr;
use crate::socks5::addr_type::Socks5AddrType;
use crate::socks5::method::Method;

verus! {

/// Why a connection failed. `StdIoError` stands for a transport failure
/// reported by the embedder; the core itself never constructs it.
#[derive(Clone, Debug, PartialEq, Eq)]
pub enum SocksError {
    StdIoError,
    UnsupportedVersion(u8),
    UnsupportedMethods(Vec<Method>),
    AuthFailed,
    InvalidCommand(u8),
    UnsupportedCommand(u8),
    InvalidAddressType(u8),
    UnsupportedAddressType(Socks5AddrType),
    UnsupportedAddress(SocksAddr),
    Utf8BytesToStringError,
    NotImplemented,
    InternalError,
}

/// Why the embedder's connect or bind attempt failed: the network error
/// kinds that select distinct reply codes, plus the non-network kinds.
#[derive(Clone, Copy, Debug, PartialEq, Eq, Structural)]
pub enum ExecError {
    NetworkUnreachable,
    HostUnreachable,
    ConnectionRefused,
    NotImplemented,
    Io,
    Internal,
}

impl ExecError {
    /// The error kind a connection that failed this way reports.
    pub open spec fn to_socks_error(self) -> SocksError {
        match self {
            ExecError::NotImplemented => SocksError::NotImplemented,
            ExecError::Internal => SocksError::InternalError,
            _ => SocksError::StdIoError,
        }
    }

    /// Turn the execution failure into the error kind it reports.
    pub fn as_socks_error(self) -> (r: SocksError)
        ensures
            r == self.to_socks_error(),
    {
        match self {
            ExecError::NotImplemented => SocksError::NotImplemented,
            ExecError::Internal => SocksError::InternalError,
            _ => SocksError::StdIoError,
        }
    }
}

} // verus!
