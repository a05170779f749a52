//! The SOCKS5 ATYP octet: which address shape follows in a request or
//! reply frame.

use vstd::prelude::*;

use crate::error::SocksError;

verus! {

/// Address type indicator: IPv4 `0x01`, domain name `0x03`, IPv6 `0x04`.
/// Every other byte is invalid.
#[derive(Clone, Copy, Debug, PartialEq, Eq, Structural)]
pub enum Socks5AddrType {
    IPV4,
    Domain,
    IPV6,
}

impl Socks5AddrType {
    /// The byte that encodes this address type.
    pub open spec fn code(self) -> u8 {
        match self {
            Socks5AddrType::IPV4 => 0x01,
            Socks5AddrType::Domain => 0x03,
            Socks5AddrType::IPV6 => 0x04,
        }
    }

    /// Decode one ATYP octet; bytes outside the three assigned codes are
    /// rejected as `InvalidAddressType`.
    pub fn try_from_u8(code: u8) -> (r: Result<Socks5AddrType, SocksError>)
        ensures
            code == 0x01 ==> r == Ok::<Socks5AddrType, SocksError>(Socks5AddrType::IPV4),
            code == 0x03 ==> r == Ok::<Socks5AddrType, SocksError>(Socks5AddrType::Domain),
            code == 0x04 ==> r == Ok::<Socks5AddrType, SocksError>(Socks5AddrType::IPV6),
            code != 0x01 && code != 0x03 && code != 0x04 ==> r == Err::<
                Socks5AddrType,
                SocksError,
            >(SocksError::InvalidAddressType(code)),
            r matches Ok(t) ==> t.code() == code,
    {
        match code {
            0x01 => Ok(Socks5AddrType::IPV4),
            0x03 => Ok(Socks5AddrType::Domain),
            0x04 => Ok(Socks5AddrType::IPV6),
            val => Err(SocksError::InvalidAddressType(val)),
        }
    }

    /// Encode this address type as its single-byte code.
    pub fn to_u8(self) -> (r: u8)
        ensures
            r == self.code(),
    {
        match self {
            Socks5AddrType::IPV4 => 0x01,
            Socks5AddrType::Domain => 0x03,
            Socks5AddrType::IPV6 => 0x04,
        }
    }
}

} // verus!
