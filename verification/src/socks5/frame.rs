//! The `ATYP | ADDR | PORT` field shared by SOCKS5 request and reply
//! frames: one octet of address type, the address octets (with a length
//! prefix for domain names), and the big-endian port.

use vstd::prelude::*;
use vstd::utf8::decode_utf8;
use vstd::utf8::decode_utf8_encode_utf8;
use vstd::utf8::encode_utf8;
use vstd::utf8::encode_utf8_decode_utf8;
use vstd::utf8::encode_utf8_valid_utf8;
use vstd::utf8::valid_utf8;

use crate::addr::SocksAddr;
use crate::addr::SocksAddrView;
use crate::error::SocksError;
use crate::socks5::addr_type::Socks5AddrType;
use crate::text::push_str_bytes;
use crate::text::string_from_utf8;
use crate::wire::push_be16;
use crate::wire::spec_be16;
use crate::wire::spec_u16_of_be;
use crate::wire::take_range;
use crate::wire::u16_of_be;
use crate::wire::DecodeResult;

verus! {

/// Wire bytes of one address field.
pub open spec fn spec_addr_bytes(a: SocksAddrView) -> Seq<u8> {
    match a {
        SocksAddrView::IPV4 { ip, port } => seq![0x01u8] + ip + spec_be16(port),
        SocksAddrView::Domain { name, port } => seq![
            0x03u8,
            encode_utf8(name).len() as u8,
        ] + encode_utf8(name) + spec_be16(port),
        SocksAddrView::IPV6 { ip, port } => seq![0x04u8] + ip + spec_be16(port),
    }
}

/// What parsing one address field from the front of a byte sequence yields.
pub enum AddrParse {
    Parsed { addr: SocksAddrView, used: int },
    Incomplete { more: int },
    Malformed { err: SocksError },
}

/// Parse one address field from the front of `b`. An absent or short field
/// is `Incomplete`; an ATYP octet outside the three assigned codes, a
/// zero-length domain, or a domain that is not UTF-8 is `Malformed`.
pub open spec fn spec_parse_addr(b: Seq<u8>) -> AddrParse {
    if b.len() < 1 {
        AddrParse::Incomplete { more: 1 }
    } else if b[0] == 0x01 {
        if b.len() < 7 {
            AddrParse::Incomplete { more: 7 - b.len() }
        } else {
            AddrParse::Parsed {
                addr: SocksAddrView::IPV4 {
                    ip: b.subrange(1, 5),
                    port: spec_u16_of_be(b[5], b[6]),
                },
                used: 7,
            }
        }
    } else if b[0] == 0x03 {
        if b.len() < 2 {
            AddrParse::Incomplete { more: 2 - b.len() }
        } else if b[1] == 0 {
            AddrParse::Malformed {
                err: SocksError::UnsupportedAddressType(Socks5AddrType::Domain),
            }
        } else {
            let l = b[1] as int;
            if b.len() < 4 + l {
                AddrParse::Incomplete { more: 4 + l - b.len() }
            } else {
                let name_bytes = b.subrange(2, 2 + l);
                if valid_utf8(name_bytes) {
                    AddrParse::Parsed {
                        addr: SocksAddrView::Domain {
                            name: decode_utf8(name_bytes),
                            port: spec_u16_of_be(b[2 + l], b[3 + l]),
                        },
                        used: 4 + l,
                    }
                } else {
                    AddrParse::Malformed { err: SocksError::Utf8BytesToStringError }
                }
            }
        }
    } else if b[0] == 0x04 {
        if b.len() < 19 {
            AddrParse::Incomplete { more: 19 - b.len() }
        } else {
            AddrParse::Parsed {
                addr: SocksAddrView::IPV6 {
                    ip: b.subrange(1, 17),
                    port: spec_u16_of_be(b[17], b[18]),
                },
                used: 19,
            }
        }
    } else {
        AddrParse::Malformed { err: SocksError::InvalidAddressType(b[0]) }
    }
}

/// Append the wire bytes of an address field.
pub fn encode_addr(out: &mut Vec<u8>, a: &SocksAddr)
    requires
        a@.wf(),
    ensures
        final(out)@ == old(out)@ + spec_addr_bytes(a@),
{
    match a {
        SocksAddr::IPV4 { ip, port } => {
            out.push(0x01);
            crate::wire::push_bytes(out, ip.as_slice());
            push_be16(out, *port);
            proof {
                assert(out@ =~= old(out)@ + spec_addr_bytes(a@));
            }
        },
        SocksAddr::Domain(name, port) => {
            out.push(0x03);
            let l = name.as_str().len();
            out.push(l as u8);
            push_str_bytes(out, name.as_str());
            push_be16(out, *port);
            proof {
                assert(out@ =~= old(out)@ + spec_addr_bytes(a@));
            }
        },
        SocksAddr::IPV6 { ip, port } => {
            out.push(0x04);
            crate::wire::push_bytes(out, ip.as_slice());
            push_be16(out, *port);
            proof {
                assert(out@ =~= old(out)@ + spec_addr_bytes(a@));
            }
        },
    }
}

/// Decode one address field starting at `buf[start]`, mirroring
/// `spec_parse_addr` on the suffix.
pub fn decode_addr(buf: &Vec<u8>, start: usize) -> (r: DecodeResult<SocksAddr>)
    requires
        start <= buf@.len(),
    ensures
        ({
            let s = buf@.skip(start as int);
            match r {
                DecodeResult::Done(a, used) => spec_parse_addr(s) matches AddrParse::Parsed {
                    addr,
                    used: u,
                } && a@ == addr && used == u && a@.wf() && start + used <= buf@.len(),
                DecodeResult::Need(m) => spec_parse_addr(s) matches AddrParse::Incomplete { more }
                    && m == more,
                DecodeResult::Fail(e) => spec_parse_addr(s) matches AddrParse::Malformed { err }
                    && e == err,
            }
        }),
{
    let n = buf.len();
    let ghost s = buf@.skip(start as int);
    proof {
        assert forall|j: int| 0 <= j < s.len() implies s[j] == buf@[start + j] by {}
    }
    if n - start < 1 {
        return DecodeResult::Need(1);
    }
    let atyp = buf[start];
    if atyp == 0x01 {
        if n - start < 7 {
            return DecodeResult::Need(7 - (n - start));
        }
        let ip = [buf[start + 1], buf[start + 2], buf[start + 3], buf[start + 4]];
        let port = u16_of_be(buf[start + 5], buf[start + 6]);
        let a = SocksAddr::IPV4 { ip, port };
        proof {
            assert(ip@ =~= s.subrange(1, 5));
        }
        DecodeResult::Done(a, 7)
    } else if atyp == 0x03 {
        if n - start < 2 {
            return DecodeResult::Need(2 - (n - start));
        }
        let l = buf[start + 1] as usize;
        if l == 0 {
            return DecodeResult::Fail(SocksError::UnsupportedAddressType(Socks5AddrType::Domain));
        }
        if n - start < 4 + l {
            return DecodeResult::Need(4 + l - (n - start));
        }
        let name_bytes = take_range(buf, start + 2, start + 2 + l);
        proof {
            assert(name_bytes@ =~= s.subrange(2, 2 + l as int));
        }
        match string_from_utf8(name_bytes) {
            Some(name) => {
                let port = u16_of_be(buf[start + 2 + l], buf[start + 3 + l]);
                let a = SocksAddr::Domain(name, port);
                proof {
                    decode_utf8_encode_utf8(s.subrange(2, 2 + l as int));
                    assert(a@.wf());
                }
                DecodeResult::Done(a, 4 + l)
            },
            None => DecodeResult::Fail(SocksError::Utf8BytesToStringError),
        }
    } else if atyp == 0x04 {
        if n - start < 19 {
            return DecodeResult::Need(19 - (n - start));
        }
        let ip = [
            buf[start + 1],
            buf[start + 2],
            buf[start + 3],
            buf[start + 4],
            buf[start + 5],
            buf[start + 6],
            buf[start + 7],
            buf[start + 8],
            buf[start + 9],
            buf[start + 10],
            buf[start + 11],
            buf[start + 12],
            buf[start + 13],
            buf[start + 14],
            buf[start + 15],
            buf[start + 16],
        ];
        let port = u16_of_be(buf[start + 17], buf[start + 18]);
        let a = SocksAddr::IPV6 { ip, port };
        proof {
            assert(ip@ =~= s.subrange(1, 17));
        }
        DecodeResult::Done(a, 19)
    } else {
        DecodeResult::Fail(SocksError::InvalidAddressType(atyp))
    }
}

/// Law: an address field re-parses to the address it was encoded from.
pub proof fn lemma_addr_roundtrip(a: SocksAddrView)
    requires
        a.wf(),
    ensures
        spec_parse_addr(spec_addr_bytes(a)) == (AddrParse::Parsed {
            addr: a,
            used: spec_addr_bytes(a).len() as int,
        }),
{
    let b = spec_addr_bytes(a);
    match a {
        SocksAddrView::IPV4 { ip, port } => {
            assert(b.subrange(1, 5) =~= ip);
            crate::wire::lemma_be16_roundtrip(port);
        },
        SocksAddrView::Domain { name, port } => {
            let eb = encode_utf8(name);
            let l = eb.len() as int;
            assert(b.subrange(2, 2 + l) =~= eb);
            encode_utf8_valid_utf8(name);
            encode_utf8_decode_utf8(name);
            crate::wire::lemma_be16_roundtrip(port);
        },
        SocksAddrView::IPV6 { ip, port } => {
            assert(b.subrange(1, 17) =~= ip);
            crate::wire::lemma_be16_roundtrip(port);
        },
    }
}

/// Law: a parsed address field re-encodes to exactly the bytes it was
/// parsed from.
pub proof fn lemma_addr_reencode(b: Seq<u8>)
    ensures
        spec_parse_addr(b) matches AddrParse::Parsed { addr, used } ==> spec_addr_bytes(addr)
            =~= b.subrange(0, used),
{
    if let AddrParse::Parsed { addr, used } = spec_parse_addr(b) {
        match addr {
            SocksAddrView::IPV4 { ip, port } => {
                crate::wire::lemma_be16_bytes_roundtrip(b[5], b[6]);
                assert(spec_addr_bytes(addr) =~= b.subrange(0, used));
            },
            SocksAddrView::Domain { name, port } => {
                let l = b[1] as int;
                let name_bytes = b.subrange(2, 2 + l);
                decode_utf8_encode_utf8(name_bytes);
                crate::wire::lemma_be16_bytes_roundtrip(b[2 + l], b[3 + l]);
                assert(spec_addr_bytes(addr) =~= b.subrange(0, used));
            },
            SocksAddrView::IPV6 { ip, port } => {
                crate::wire::lemma_be16_bytes_roundtrip(b[17], b[18]);
                assert(spec_addr_bytes(addr) =~= b.subrange(0, used));
            },
        }
    }
}

} // verus!
