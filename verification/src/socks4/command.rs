//! The SOCKS4 command octet: CONNECT or BIND.

use vstd::prelude::*;

use crate::error::SocksError;

verus! {

/// A SOCKS4 request command: CONNECT `0x01`, BIND `0x02`. Every other byte
/// is invalid.
#[derive(Clone, Copy, Debug, PartialEq, Eq, Structural)]
pub enum Socks4Command {
    Connect,
    Bind,
}

impl Socks4Command {
    /// The byte that encodes this command.
    pub open spec fn code(self) -> u8 {
        match self {
            Socks4Command::Connect => 0x01,
            Socks4Command::Bind => 0x02,
        }
    }

    /// Decode one command octet; bytes outside the two assigned codes are
    /// rejected as `InvalidCommand`.
    pub fn try_from_u8(value: u8) -> (r: Result<Socks4Command, SocksError>)
        ensures
            value == 0x01 ==> r == Ok::<Socks4Command, SocksError>(Socks4Command::Connect),
            value == 0x02 ==> r == Ok::<Socks4Command, SocksError>(Socks4Command::Bind),
            !(0x01 <= value <= 0x02) ==> r == Err::<Socks4Command, SocksError>(
                SocksError::InvalidCommand(value),
            ),
            r matches Ok(c) ==> c.code() == value,
    {
        match value {
            0x01 => Ok(Socks4Command::Connect),
            0x02 => Ok(Socks4Command::Bind),
            val => Err(SocksError::InvalidCommand(val)),
        }
    }

    /// Encode this command as its single-byte code.
    pub fn to_u8(self) -> (r: u8)
        ensures
            r == self.code(),
    {
        match self {
            Socks4Command::Connect => 0x01,
            Socks4Command::Bind => 0x02,
        }
    }
}

} // verus!
