//! The SOCKS5 command octet: CONNECT, BIND or UDP ASSOCIATE.

use vstd::prelude::*;

use crate::error::SocksError;

verus! {

/// A SOCKS5 request command: CONNECT `0x01`, BIND `0x02`, UDP ASSOCIATE
/// `0x03`. Every other byte is invalid.
#[derive(Clone, Copy, Debug, PartialEq, Eq, Structural)]
pub enum Socks5Command {
    Connect,
    Bind,
    Associate,
}

impl Socks5Command {
    /// The byte that encodes this command.
    pub open spec fn code(self) -> u8 {
        match self {
            Socks5Command::Connect => 0x01,
            Socks5Command::Bind => 0x02,
            Socks5Command::Associate => 0x03,
        }
    }

    /// Decode one command octet; bytes outside the three assigned codes are
    /// rejected as `InvalidCommand`.
    pub fn try_from_u8(value: u8) -> (r: Result<Socks5Command, SocksError>)
        ensures
            value == 0x01 ==> r == Ok::<Socks5Command, SocksError>(Socks5Command::Connect),
            value == 0x02 ==> r == Ok::<Socks5Command, SocksError>(Socks5Command::Bind),
            value == 0x03 ==> r == Ok::<Socks5Command, SocksError>(Socks5Command::Associate),
            !(0x01 <= value <= 0x03) ==> r == Err::<Socks5Command, SocksError>(
                SocksError::InvalidCommand(value),
            ),
            r matches Ok(c) ==> c.code() == value,
    {
        match value {
            0x01 => Ok(Socks5Command::Connect),
            0x02 => Ok(Socks5Command::Bind),
            0x03 => Ok(Socks5Command::Associate),
            val => Err(SocksError::InvalidCommand(val)),
        }
    }

    /// Encode this command as its single-byte code.
    pub fn to_u8(self) -> (r: u8)
        ensures
            r == self.code(),
    {
        match self {
            Socks5Command::Connect => 0x01,
            Socks5Command::Bind => 0x02,
            Socks5Command::Associate => 0x03,
        }
    }
}

} // verus!
