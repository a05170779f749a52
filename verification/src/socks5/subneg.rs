//! The two frames that precede a SOCKS5 request: the client greeting
//! `NMETHODS | METHODS` (the version octet has already been consumed by the
//! dispatcher) and the RFC 1929 username/password sub-negotiation
//! `VER | ULEN | UNAME | PLEN | PASSWD`.

use vstd::prelude::*;
use vstd::utf8::decode_utf8;
use vstd::utf8::valid_utf8;

use crate::error::SocksError;
use crate::socks5::method::method_of;
use crate::socks5::method::Method;
use crate::text::string_from_utf8;
use crate::wire::take_range;
use crate::wire::DecodeResult;

verus! {

/// What parsing a greeting from the front of a byte sequence yields. Every
/// byte denotes a method, so a greeting can only be short, never malformed.
pub enum GreetingParse {
    Parsed { methods: Seq<Method>, used: int },
    Incomplete { more: int },
}

/// Parse the greeting: a count octet, then that many method octets.
pub open spec fn spec_parse_greeting(b: Seq<u8>) -> GreetingParse {
    if b.len() < 1 {
        GreetingParse::Incomplete { more: 1 }
    } else {
        let n = b[0] as int;
        if b.len() < 1 + n {
            GreetingParse::Incomplete { more: 1 + n - b.len() }
        } else {
            GreetingParse::Parsed {
                methods: b.subrange(1, 1 + n).map_values(|x: u8| method_of(x)),
                used: 1 + n,
            }
        }
    }
}

/// Decode one greeting from the front of `buf`, mirroring
/// `spec_parse_greeting`.
pub fn decode_greeting(buf: &Vec<u8>) -> (r: DecodeResult<Vec<Method>>)
    ensures
        match r {
            DecodeResult::Done(ms, used) => spec_parse_greeting(buf@) matches GreetingParse::Parsed {
                methods,
                used: u,
            } && ms@ == methods && used == u && used <= buf@.len(),
            DecodeResult::Need(m) => spec_parse_greeting(buf@) matches GreetingParse::Incomplete {
                more,
            } && m == more,
            DecodeResult::Fail(_) => false,
        },
{
    let n = buf.len();
    if n < 1 {
        return DecodeResult::Need(1);
    }
    let count = buf[0] as usize;
    if n < 1 + count {
        return DecodeResult::Need(1 + count - n);
    }
    let mut ms: Vec<Method> = Vec::new();
    let mut i: usize = 0;
    while i < count
        invariant
            i <= count,
            1 + count <= buf@.len(),
            ms@ == buf@.subrange(1, 1 + i as int).map_values(|x: u8| method_of(x)),
        decreases count - i,
    {
        ms.push(Method::from_u8(buf[1 + i]));
        i = i + 1;
        proof {
            assert(ms@ =~= buf@.subrange(1, 1 + i as int).map_values(|x: u8| method_of(x)));
        }
    }
    DecodeResult::Done(ms, 1 + count)
}

/// What parsing a username/password sub-negotiation yields.
pub enum UserPassParse {
    Parsed { user: Seq<char>, pass: Seq<char>, used: int },
    Incomplete { more: int },
    Malformed { err: SocksError },
}

/// Parse the sub-negotiation: its own version octet, which must be `0x01`
/// (this is the sub-negotiation version, not the SOCKS version), then the
/// length-prefixed user name and password, both UTF-8.
pub open spec fn spec_parse_userpass(b: Seq<u8>) -> UserPassParse {
    if b.len() < 1 {
        UserPassParse::Incomplete { more: 1 }
    } else if b[0] != 0x01 {
        UserPassParse::Malformed { err: SocksError::UnsupportedVersion(b[0]) }
    } else if b.len() < 2 {
        UserPassParse::Incomplete { more: 1 }
    } else {
        let ul = b[1] as int;
        if b.len() < 2 + ul {
            UserPassParse::Incomplete { more: 2 + ul - b.len() }
        } else {
            let ub = b.subrange(2, 2 + ul);
            if !valid_utf8(ub) {
                UserPassParse::Malformed { err: SocksError::Utf8BytesToStringError }
            } else if b.len() < 3 + ul {
                UserPassParse::Incomplete { more: 1 }
            } else {
                let pl = b[2 + ul] as int;
                if b.len() < 3 + ul + pl {
                    UserPassParse::Incomplete { more: 3 + ul + pl - b.len() }
                } else {
                    let pb = b.subrange(3 + ul, 3 + ul + pl);
                    if !valid_utf8(pb) {
                        UserPassParse::Malformed { err: SocksError::Utf8BytesToStringError }
                    } else {
                        UserPassParse::Parsed {
                            user: decode_utf8(ub),
                            pass: decode_utf8(pb),
                            used: 3 + ul + pl,
                        }
                    }
                }
            }
        }
    }
}

/// Decode one sub-negotiation frame from the front of `buf`, mirroring
/// `spec_parse_userpass`.
pub fn decode_userpass(buf: &Vec<u8>) -> (r: DecodeResult<(String, String)>)
    ensures
        match r {
            DecodeResult::Done(up, used) => spec_parse_userpass(buf@) matches UserPassParse::Parsed {
                user,
                pass,
                used: u,
            } && up.0@ == user && up.1@ == pass && used == u && used <= buf@.len(),
            DecodeResult::Need(m) => spec_parse_userpass(buf@) matches UserPassParse::Incomplete {
                more,
            } && m == more,
            DecodeResult::Fail(e) => spec_parse_userpass(buf@) matches UserPassParse::Malformed {
                err,
            } && e == err,
        },
{
    let n = buf.len();
    if n < 1 {
        return DecodeResult::Need(1);
    }
    if buf[0] != 0x01 {
        return DecodeResult::Fail(SocksError::UnsupportedVersion(buf[0]));
    }
    if n < 2 {
        return DecodeResult::Need(1);
    }
    let ul = buf[1] as usize;
    if n < 2 + ul {
        return DecodeResult::Need(2 + ul - n);
    }
    let user_bytes = take_range(buf, 2, 2 + ul);
    let user = match string_from_utf8(user_bytes) {
        Some(s) => s,
        None => {
            return DecodeResult::Fail(SocksError::Utf8BytesToStringError);
        },
    };
    if n < 3 + ul {
        return DecodeResult::Need(1);
    }
    let pl = buf[2 + ul] as usize;
    if n < 3 + ul + pl {
        return DecodeResult::Need(3 + ul + pl - n);
    }
    let pass_bytes = take_range(buf, 3 + ul, 3 + ul + pl);
    match string_from_utf8(pass_bytes) {
        Some(pass) => DecodeResult::Done((user, pass), 3 + ul + pl),
        None => DecodeResult::Fail(SocksError::Utf8BytesToStringError),
    }
}

} // verus!
