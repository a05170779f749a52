//! The SOCKS4/4a request frame (the version octet has already been
//! consumed by the dispatcher):
//! `CD | DSTPORT | DSTIP | USERID | NUL [ | HOSTNAME | NUL ]`.
//!
//! The hostname field is present exactly when DSTIP has the SOCKS4a marker
//! form `0.0.0.x` with `x != 0`; the request then carries a domain address.

use vstd::prelude::*;
use vstd::utf8::decode_utf8;
use vstd::utf8::decode_utf8_encode_utf8;
use vstd::utf8::encode_utf8;
use vstd::utf8::encode_utf8_decode_utf8;
use vstd::utf8::encode_utf8_valid_utf8;
use vstd::utf8::valid_utf8;

use crate::addr::SocksAddr;
use crate::addr::SocksAddrView;
use crate::error::SocksError;
use crate::socks4::command::Socks4Command;
use crate::socks5::addr_type::Socks5AddrType;
use crate::text::push_str_bytes;
use crate::text::string_from_utf8;
use crate::wire::find_nul;
use crate::wire::lemma_find_nul_at;
use crate::wire::push_be16;
use crate::wire::spec_be16;
use crate::wire::spec_find_nul;
use crate::wire::spec_u16_of_be;
use crate::wire::take_range;
use crate::wire::u16_of_be;
use crate::wire::DecodeResult;

verus! {

/// A parsed v4 request: the command, the destination address, and the
/// identd-style user id.
#[derive(Clone, Debug, PartialEq, Eq)]
pub struct Socks4Request {
    pub command: Socks4Command,
    pub addr: SocksAddr,
    pub user_id: String,
}

/// The mathematical shape of a `Socks4Request`.
pub struct Socks4RequestView {
    pub command: Socks4Command,
    pub addr: SocksAddrView,
    pub user_id: Seq<char>,
}

impl View for Socks4Request {
    type V = Socks4RequestView;

    open spec fn view(&self) -> Socks4RequestView {
        Socks4RequestView { command: self.command, addr: self.addr@, user_id: self.user_id@ }
    }
}

/// The SOCKS4a marker: an IP of the form `0.0.0.x` with `x != 0`, which
/// announces that a hostname field follows the user id.
pub open spec fn spec_is_marker(ip: Seq<u8>) -> bool {
    ip.len() == 4 && ip[0] == 0 && ip[1] == 0 && ip[2] == 0 && ip[3] != 0
}

impl Socks4RequestView {
    /// Structural validity: the address is well formed and is one of the
    /// two shapes a v4 request can carry.
    pub open spec fn wf(self) -> bool {
        self.addr.wf() && !(self.addr is IPV6)
    }
}

/// The command denoted by a byte in `0x01..=0x02`.
pub open spec fn spec_command4_of(v: u8) -> Socks4Command
    recommends
        0x01 <= v <= 0x02,
{
    if v == 0x01 {
        Socks4Command::Connect
    } else {
        Socks4Command::Bind
    }
}

/// Wire bytes of a v4 request frame. A domain destination is written with
/// the canonical marker IP `0.0.0.1`.
pub open spec fn spec_v4_request_bytes(
    cmd: Socks4Command,
    a: SocksAddrView,
    user: Seq<char>,
) -> Seq<u8>
    recommends
        a.wf(),
        !(a is IPV6),
{
    match a {
        SocksAddrView::IPV4 { ip, port } => seq![cmd.code()] + spec_be16(port) + ip + encode_utf8(
            user,
        ) + seq![0u8],
        SocksAddrView::Domain { name, port } => seq![cmd.code()] + spec_be16(port) + seq![
            0u8,
            0u8,
            0u8,
            1u8,
        ] + encode_utf8(user) + seq![0u8] + encode_utf8(name) + seq![0u8],
        SocksAddrView::IPV6 { .. } => seq![],
    }
}

/// What parsing a v4 request from the front of a byte sequence yields.
pub enum V4RequestParse {
    Parsed { command: Socks4Command, addr: SocksAddrView, user: Seq<char>, used: int },
    Incomplete { more: int },
    Malformed { err: SocksError },
}

/// Parse a v4 request from the front of `b`: the command octet is checked
/// as soon as it is present; the user id runs to the first NUL and must be
/// UTF-8; under the SOCKS4a marker a hostname of 1 to 255 UTF-8 bytes runs
/// to a second NUL.
pub open spec fn spec_parse_v4_request(b: Seq<u8>) -> V4RequestParse {
    if b.len() < 1 {
        V4RequestParse::Incomplete { more: 1 }
    } else if !(0x01 <= b[0] <= 0x02) {
        V4RequestParse::Malformed { err: SocksError::InvalidCommand(b[0]) }
    } else if b.len() < 7 {
        V4RequestParse::Incomplete { more: 7 - b.len() }
    } else {
        let port = spec_u16_of_be(b[1], b[2]);
        let ip = b.subrange(3, 7);
        match spec_find_nul(b, 7) {
            Option::None => V4RequestParse::Incomplete { more: 1 },
            Option::Some(i) => {
                let user_bytes = b.subrange(7, i);
                if !valid_utf8(user_bytes) {
                    V4RequestParse::Malformed { err: SocksError::Utf8BytesToStringError }
                } else {
                    let user = decode_utf8(user_bytes);
                    if spec_is_marker(ip) {
                        match spec_find_nul(b, i + 1) {
                            Option::None => V4RequestParse::Incomplete { more: 1 },
                            Option::Some(j) => {
                                let name_bytes = b.subrange(i + 1, j);
                                if name_bytes.len() < 1 || name_bytes.len() > 255 {
                                    V4RequestParse::Malformed {
                                        err: SocksError::UnsupportedAddressType(
                                            Socks5AddrType::Domain,
                                        ),
                                    }
                                } else if !valid_utf8(name_bytes) {
                                    V4RequestParse::Malformed {
                                        err: SocksError::Utf8BytesToStringError,
                                    }
                                } else {
                                    V4RequestParse::Parsed {
                                        command: spec_command4_of(b[0]),
                                        addr: SocksAddrView::Domain {
                                            name: decode_utf8(name_bytes),
                                            port,
                                        },
                                        user,
                                        used: j + 1,
                                    }
                                }
                            },
                        }
                    } else {
                        V4RequestParse::Parsed {
                            command: spec_command4_of(b[0]),
                            addr: SocksAddrView::IPV4 { ip, port },
                            user,
                            used: i + 1,
                        }
                    }
                }
            },
        }
    }
}

impl Socks4Request {
    /// Pair a command and destination address with the user id.
    pub fn new(command: Socks4Command, addr: SocksAddr, user_id: String) -> (r: Socks4Request)
        ensures
            r@.command == command,
            r@.addr == addr@,
            r@.user_id == user_id@,
    {
        Socks4Request { command, addr, user_id }
    }

    /// Decode one request frame from the front of `buf`, mirroring
    /// `spec_parse_v4_request`.
    pub fn decode(buf: &Vec<u8>) -> (r: DecodeResult<Socks4Request>)
        ensures
            match r {
                DecodeResult::Done(req, used) => spec_parse_v4_request(buf@)
                    matches V4RequestParse::Parsed { command, addr, user, used: u } && req@.command
                    == command && req@.addr == addr && req@.user_id == user && used == u && req@.wf()
                    && used <= buf@.len(),
                DecodeResult::Need(m) => spec_parse_v4_request(buf@)
                    matches V4RequestParse::Incomplete { more } && m == more,
                DecodeResult::Fail(e) => spec_parse_v4_request(buf@)
                    matches V4RequestParse::Malformed { err } && e == err,
            },
    {
        let n = buf.len();
        if n < 1 {
            return DecodeResult::Need(1);
        }
        let cmd = match Socks4Command::try_from_u8(buf[0]) {
            Ok(c) => c,
            Err(e) => {
                return DecodeResult::Fail(e);
            },
        };
        if n < 7 {
            return DecodeResult::Need(7 - n);
        }
        let port = u16_of_be(buf[1], buf[2]);
        let ip = [buf[3], buf[4], buf[5], buf[6]];
        proof {
            assert(ip@ =~= buf@.subrange(3, 7));
        }
        let i = match find_nul(buf, 7) {
            Some(i) => i,
            None => {
                return DecodeResult::Need(1);
            },
        };
        let user_bytes = take_range(buf, 7, i);
        let user_id = match string_from_utf8(user_bytes) {
            Some(s) => s,
            None => {
                return DecodeResult::Fail(SocksError::Utf8BytesToStringError);
            },
        };
        let is_marker = ip[0] == 0 && ip[1] == 0 && ip[2] == 0 && ip[3] != 0;
        if is_marker {
            let j = match find_nul(buf, i + 1) {
                Some(j) => j,
                None => {
                    return DecodeResult::Need(1);
                },
            };
            let name_len = j - (i + 1);
            if name_len < 1 || name_len > 255 {
                return DecodeResult::Fail(
                    SocksError::UnsupportedAddressType(Socks5AddrType::Domain),
                );
            }
            let name_bytes = take_range(buf, i + 1, j);
            match string_from_utf8(name_bytes) {
                Some(name) => {
                    let addr = SocksAddr::Domain(name, port);
                    proof {
                        decode_utf8_encode_utf8(buf@.subrange(i + 1, j as int));
                    }
                    DecodeResult::Done(Socks4Request { command: cmd, addr, user_id }, j + 1)
                },
                None => DecodeResult::Fail(SocksError::Utf8BytesToStringError),
            }
        } else {
            let addr = SocksAddr::IPV4 { ip, port };
            DecodeResult::Done(Socks4Request { command: cmd, addr, user_id }, i + 1)
        }
    }

    /// Build the wire bytes of this request.
    pub fn encode(&self) -> (r: Vec<u8>)
        requires
            self@.wf(),
        ensures
            r@ == spec_v4_request_bytes(self@.command, self@.addr, self@.user_id),
    {
        let mut out: Vec<u8> = Vec::new();
        out.push(self.command.to_u8());
        push_be16(&mut out, self.addr.port());
        match &self.addr {
            SocksAddr::IPV4 { ip, .. } => {
                crate::wire::push_bytes(&mut out, ip.as_slice());
                push_str_bytes(&mut out, self.user_id.as_str());
                out.push(0x00);
                proof {
                    assert(out@ =~= spec_v4_request_bytes(
                        self@.command,
                        self@.addr,
                        self@.user_id,
                    ));
                }
            },
            SocksAddr::Domain(name, _) => {
                crate::wire::push_bytes(&mut out, &[0, 0, 0, 1]);
                push_str_bytes(&mut out, self.user_id.as_str());
                out.push(0x00);
                push_str_bytes(&mut out, name.as_str());
                out.push(0x00);
                proof {
                    assert(out@ =~= spec_v4_request_bytes(
                        self@.command,
                        self@.addr,
                        self@.user_id,
                    ));
                }
            },
            SocksAddr::IPV6 { .. } => {
                proof {
                    assert(false);
                }
            },
        }
        out
    }
}

/// Law: a v4 request frame re-parses to the command, address and user id
/// it was encoded from, consuming the whole frame. The address must not
/// wear the SOCKS4a marker itself, and the user id and host name must be
/// free of NUL bytes, as the frame's terminators demand.
pub proof fn lemma_v4_request_roundtrip(cmd: Socks4Command, a: SocksAddrView, user: Seq<char>)
    requires
        a.wf(),
        !(a is IPV6),
        !encode_utf8(user).contains(0u8),
        a matches SocksAddrView::IPV4 { ip, .. } ==> !spec_is_marker(ip),
        a matches SocksAddrView::Domain { name, .. } ==> !encode_utf8(name).contains(0u8),
    ensures
        spec_parse_v4_request(spec_v4_request_bytes(cmd, a, user)) == (V4RequestParse::Parsed {
            command: cmd,
            addr: a,
            user,
            used: spec_v4_request_bytes(cmd, a, user).len() as int,
        }),
{
    let b = spec_v4_request_bytes(cmd, a, user);
    let ub = encode_utf8(user);
    encode_utf8_valid_utf8(user);
    encode_utf8_decode_utf8(user);
    match a {
        SocksAddrView::IPV4 { ip, port } => {
            let i = 7 + ub.len() as int;
            assert(b[i] == 0);
            assert forall|j: int| 7 <= j < i implies b[j] != 0 by {
                assert(b[j] == ub[j - 7]);
                assert(!ub.contains(0u8));
                assert(ub[j - 7] != 0) by {
                    if ub[j - 7] == 0 {
                        assert(ub.contains(0u8));
                    }
                }
            }
            lemma_find_nul_at(b, 7, i);
            assert(b.subrange(7, i) =~= ub);
            assert(b.subrange(3, 7) =~= ip);
            crate::wire::lemma_be16_roundtrip(port);
        },
        SocksAddrView::Domain { name, port } => {
            let nb = encode_utf8(name);
            encode_utf8_valid_utf8(name);
            encode_utf8_decode_utf8(name);
            let i = 7 + ub.len() as int;
            let j = i + 1 + nb.len() as int;
            assert(b[i] == 0);
            assert forall|k: int| 7 <= k < i implies b[k] != 0 by {
                assert(b[k] == ub[k - 7]);
                if ub[k - 7] == 0 {
                    assert(ub.contains(0u8));
                }
            }
            lemma_find_nul_at(b, 7, i);
            assert(b.subrange(7, i) =~= ub);
            assert(b[j] == 0);
            assert forall|k: int| i + 1 <= k < j implies b[k] != 0 by {
                assert(b[k] == nb[k - (i + 1)]);
                if nb[k - (i + 1)] == 0 {
                    assert(nb.contains(0u8));
                }
            }
            lemma_find_nul_at(b, i + 1, j);
            assert(b.subrange(i + 1, j) =~= nb);
            assert(spec_is_marker(b.subrange(3, 7)));
            crate::wire::lemma_be16_roundtrip(port);
        },
        SocksAddrView::IPV6 { .. } => {},
    }
}

} // verus!
