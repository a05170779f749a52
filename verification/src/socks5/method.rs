//! The SOCKS5 authentication method octet (RFC 1928 section 3).

use vstd::prelude::*;

verus! {

/// An authentication method as carried in the greeting and in the method
/// selection reply.
///
/// The codes are: `0x00` no authentication, `0x01` GSSAPI, `0x02`
/// username/password, `0x03..=0x7f` IANA assigned, `0x80..=0xfe` reserved
/// for private methods, `0xff` no acceptable method.
#[derive(Clone, Copy, Debug, PartialEq, Eq, Structural)]
pub enum Method {
    NoAuth,
    GssApi,
    UserPass,
    IanaAssigned(u8),
    Private(u8),
    Unacceptable,
}

/// The method denoted by a byte; total on all 256 byte values.
pub open spec fn method_of(b: u8) -> Method {
    if b == 0x00 {
        Method::NoAuth
    } else if b == 0x01 {
        Method::GssApi
    } else if b == 0x02 {
        Method::UserPass
    } else if b <= 0x7f {
        Method::IanaAssigned(b)
    } else if b <= 0xfe {
        Method::Private(b)
    } else {
        Method::Unacceptable
    }
}

impl Method {
    /// The byte that encodes this method.
    pub open spec fn code(self) -> u8 {
        match self {
            Method::NoAuth => 0x00,
            Method::GssApi => 0x01,
            Method::UserPass => 0x02,
            Method::IanaAssigned(v) => v,
            Method::Private(v) => v,
            Method::Unacceptable => 0xff,
        }
    }

    /// A method value whose payload, if any, lies in the range reserved for
    /// its variant. Decoding only ever produces well-formed methods.
    pub open spec fn wf(self) -> bool {
        match self {
            Method::IanaAssigned(v) => 0x03 <= v <= 0x7f,
            Method::Private(v) => 0x80 <= v <= 0xfe,
            _ => true,
        }
    }

    /// Decode one method octet. Every byte denotes a method.
    pub fn from_u8(value: u8) -> (r: Method)
        ensures
            r == method_of(value),
            r.wf(),
    {
        if value == 0x00 {
            Method::NoAuth
        } else if value == 0x01 {
            Method::GssApi
        } else if value == 0x02 {
            Method::UserPass
        } else if value <= 0x7f {
            Method::IanaAssigned(value)
        } else if value <= 0xfe {
            Method::Private(value)
        } else {
            Method::Unacceptable
        }
    }

    /// Encode this method as its single-byte code.
    pub fn to_u8(self) -> (r: u8)
        ensures
            r == self.code(),
    {
        match self {
            Method::NoAuth => 0x00,
            Method::GssApi => 0x01,
            Method::UserPass => 0x02,
            Method::IanaAssigned(v) => v,
            Method::Private(v) => v,
            Method::Unacceptable => 0xff,
        }
    }
}

/// An equal copy of a method list.
pub fn copy_methods(list: &Vec<Method>) -> (r: Vec<Method>)
    ensures
        r@ == list@,
{
    let mut out: Vec<Method> = Vec::new();
    let mut i: usize = 0;
    while i < list.len()
        invariant
            i <= list@.len(),
            out@ == list@.subrange(0, i as int),
        decreases list@.len() - i,
    {
        out.push(list[i]);
        i = i + 1;
        proof {
            assert(out@ =~= list@.subrange(0, i as int));
        }
    }
    proof {
        assert(list@.subrange(0, list@.len() as int) =~= list@);
    }
    out
}

/// Whether `m` is among the listed methods.
pub fn method_in(list: &Vec<Method>, m: Method) -> (r: bool)
    ensures
        r == list@.contains(m),
{
    let mut i: usize = 0;
    while i < list.len()
        invariant
            i <= list@.len(),
            forall|j: int| 0 <= j < i ==> list@[j] != m,
        decreases list@.len() - i,
    {
        if list[i] == m {
            return true;
        }
        i = i + 1;
    }
    false
}

/// The default method selection a policy handler starts from: take
/// no-authentication when the client offers it, otherwise declare no
/// method acceptable.
pub fn default_negotiate_method(methods: &Vec<Method>) -> (r: Method)
    ensures
        methods@.contains(Method::NoAuth) ==> r == Method::NoAuth,
        !methods@.contains(Method::NoAuth) ==> r == Method::Unacceptable,
{
    if method_in(methods, Method::NoAuth) {
        Method::NoAuth
    } else {
        Method::Unacceptable
    }
}

/// Law: decoding any byte and re-encoding the method yields the same byte.
pub proof fn lemma_method_byte_roundtrip(b: u8)
    ensures
        method_of(b).code() == b,
{
}

/// Law: encoding a well-formed method and decoding the byte yields the same
/// method.
pub proof fn lemma_method_roundtrip(m: Method)
    requires
        m.wf(),
    ensures
        method_of(m.code()) == m,
{
}

} // verus!
