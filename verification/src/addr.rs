//! The three address shapes a SOCKS request can carry: an IPv4 socket
//! address, an IPv6 socket address, or a domain name with a port.

use vstd::prelude::*;
use vstd::utf8::encode_utf8;

verus! {

broadcast use vstd::array::array_len_matches_n;

/// A destination or bound address, as plain values: raw octets for the two
/// IP shapes, a UTF-8 host name for the domain shape. Ports are host-order
/// integers here; the codecs put them on the wire big-endian.
#[derive(Debug, PartialEq, Eq)]
pub enum SocksAddr {
    IPV4 { ip: [u8; 4], port: u16 },
    Domain(String, u16),
    IPV6 { ip: [u8; 16], port: u16 },
}

impl Clone for SocksAddr {
    /// An equal copy of the address.
    fn clone(&self) -> (r: SocksAddr)
        ensures
            r@ == self@,
    {
        match self {
            SocksAddr::IPV4 { ip, port } => SocksAddr::IPV4 { ip: *ip, port: *port },
            SocksAddr::Domain(name, port) => SocksAddr::Domain(name.clone(), *port),
            SocksAddr::IPV6 { ip, port } => SocksAddr::IPV6 { ip: *ip, port: *port },
        }
    }
}

/// The mathematical shape of a `SocksAddr`: octet and character sequences.
pub enum SocksAddrView {
    IPV4 { ip: Seq<u8>, port: u16 },
    Domain { name: Seq<char>, port: u16 },
    IPV6 { ip: Seq<u8>, port: u16 },
}

impl View for SocksAddr {
    type V = SocksAddrView;

    open spec fn view(&self) -> SocksAddrView {
        match self {
            SocksAddr::IPV4 { ip, port } => SocksAddrView::IPV4 { ip: ip@, port: *port },
            SocksAddr::Domain(name, port) => SocksAddrView::Domain { name: name@, port: *port },
            SocksAddr::IPV6 { ip, port } => SocksAddrView::IPV6 { ip: ip@, port: *port },
        }
    }
}

impl SocksAddrView {
    /// Structural validity: IP octet counts are fixed by the variant, and a
    /// domain name occupies 1 to 255 bytes on the wire.
    pub open spec fn wf(self) -> bool {
        match self {
            SocksAddrView::IPV4 { ip, .. } => ip.len() == 4,
            SocksAddrView::Domain { name, .. } => 1 <= encode_utf8(name).len() <= 255,
            SocksAddrView::IPV6 { ip, .. } => ip.len() == 16,
        }
    }

    /// The port of the address, whatever its shape.
    pub open spec fn port(self) -> u16 {
        match self {
            SocksAddrView::IPV4 { port, .. } => port,
            SocksAddrView::Domain { port, .. } => port,
            SocksAddrView::IPV6 { port, .. } => port,
        }
    }
}

impl SocksAddr {
    /// The port of the address, whatever its shape.
    pub fn port(&self) -> (r: u16)
        ensures
            r == self@.port(),
    {
        match self {
            SocksAddr::IPV4 { port, .. } => *port,
            SocksAddr::Domain(_, port) => *port,
            SocksAddr::IPV6 { port, .. } => *port,
        }
    }

    /// The host text of the address: the domain name itself, or the IP
    /// written as text (dotted decimal for IPv4, colon-separated
    /// zero-padded hexadecimal for IPv6), ready for a resolver or dialer.
    pub fn domain(&self) -> (r: String)
        ensures
            self@ matches SocksAddrView::Domain { name, .. } ==> r@ == name,
            self@ matches SocksAddrView::IPV4 { ip, .. } ==> r@ == spec_ipv4_text(ip).map_values(
                |b: u8| b as char,
            ),
            self@ matches SocksAddrView::IPV6 { ip, .. } ==> r@ == spec_ipv6_text(ip).map_values(
                |b: u8| b as char,
            ),
    {
        match self {
            SocksAddr::Domain(name, _) => name.clone(),
            SocksAddr::IPV4 { ip, .. } => {
                let mut out: Vec<u8> = Vec::new();
                proof {
                    assert(crate::text::all_ascii(out@));
                }
                push_dec_u8(&mut out, ip[0]);
                push_sep(&mut out, 46);
                push_dec_u8(&mut out, ip[1]);
                push_sep(&mut out, 46);
                push_dec_u8(&mut out, ip[2]);
                push_sep(&mut out, 46);
                push_dec_u8(&mut out, ip[3]);
                proof {
                    assert(out@ =~= spec_ipv4_text(ip@));
                }
                crate::text::ascii_to_string(out)
            },
            SocksAddr::IPV6 { ip, .. } => {
                let mut out: Vec<u8> = Vec::new();
                proof {
                    assert(crate::text::all_ascii(out@));
                }
                push_hex_u16(&mut out, crate::wire::u16_of_be(ip[0], ip[1]));
                push_sep(&mut out, 58);
                push_hex_u16(&mut out, crate::wire::u16_of_be(ip[2], ip[3]));
                push_sep(&mut out, 58);
                push_hex_u16(&mut out, crate::wire::u16_of_be(ip[4], ip[5]));
                push_sep(&mut out, 58);
                push_hex_u16(&mut out, crate::wire::u16_of_be(ip[6], ip[7]));
                push_sep(&mut out, 58);
                push_hex_u16(&mut out, crate::wire::u16_of_be(ip[8], ip[9]));
                push_sep(&mut out, 58);
                push_hex_u16(&mut out, crate::wire::u16_of_be(ip[10], ip[11]));
                push_sep(&mut out, 58);
                push_hex_u16(&mut out, crate::wire::u16_of_be(ip[12], ip[13]));
                push_sep(&mut out, 58);
                push_hex_u16(&mut out, crate::wire::u16_of_be(ip[14], ip[15]));
                proof {
                    assert(out@ =~= spec_ipv6_text(ip@));
                }
                crate::text::ascii_to_string(out)
            },
        }
    }

    /// Whether the address is well formed, as `wf` on its view states.
    pub fn wf_check(&self) -> (r: bool)
        ensures
            r == self@.wf(),
    {
        match self {
            SocksAddr::IPV4 { ip, .. } => {
                proof {
                    assert(ip@.len() == 4);
                }
                true
            },
            SocksAddr::Domain(name, _) => {
                let l = name.as_str().as_bytes().len();
                1 <= l && l <= 255
            },
            SocksAddr::IPV6 { ip, .. } => {
                proof {
                    assert(ip@.len() == 16);
                }
                true
            },
        }
    }

    /// An all-zero IPv4 address, written into replies when no bound address
    /// is meaningful.
    pub fn unspecified() -> (r: SocksAddr)
        ensures
            r@ == zero_addr(),
    {
        SocksAddr::IPV4 { ip: [0, 0, 0, 0], port: 0 }
    }
}

/// The view of the all-zero IPv4 address `0.0.0.0:0`.
pub open spec fn zero_addr() -> SocksAddrView {
    SocksAddrView::IPV4 { ip: seq![0u8, 0u8, 0u8, 0u8], port: 0u16 }
}

/// The decimal ASCII text of a byte value, without leading zeros.
pub open spec fn spec_dec_u8(v: u8) -> Seq<u8> {
    if v < 10 {
        seq![(48 + v) as u8]
    } else if v < 100 {
        seq![(48 + v / 10) as u8, (48 + v % 10) as u8]
    } else {
        seq![(48 + v / 100) as u8, (48 + (v / 10) % 10) as u8, (48 + v % 10) as u8]
    }
}

/// The dotted-decimal ASCII text of an IPv4 address.
pub open spec fn spec_ipv4_text(ip: Seq<u8>) -> Seq<u8>
    recommends
        ip.len() == 4,
{
    spec_dec_u8(ip[0]) + seq![46u8] + spec_dec_u8(ip[1]) + seq![46u8] + spec_dec_u8(ip[2]) + seq![
        46u8,
    ] + spec_dec_u8(ip[3])
}

/// The lowercase hexadecimal ASCII digit of a value below sixteen.
pub open spec fn spec_hex_digit(d: u8) -> u8
    recommends
        d < 16,
{
    if d < 10 {
        (48 + d) as u8
    } else {
        (87 + d) as u8
    }
}

/// The four lowercase hexadecimal ASCII digits of a 16-bit group.
pub open spec fn spec_hex_u16(g: u16) -> Seq<u8> {
    seq![
        spec_hex_digit((g / 4096) as u8),
        spec_hex_digit(((g / 256) % 16) as u8),
        spec_hex_digit(((g / 16) % 16) as u8),
        spec_hex_digit((g % 16) as u8),
    ]
}

/// One 16-bit group of an IPv6 address, big-endian.
pub open spec fn spec_ipv6_group(ip: Seq<u8>, i: int) -> u16
    recommends
        ip.len() == 16,
        0 <= i < 8,
{
    crate::wire::spec_u16_of_be(ip[2 * i], ip[2 * i + 1])
}

/// The colon-separated, zero-padded hexadecimal ASCII text of an IPv6
/// address: eight four-digit groups.
pub open spec fn spec_ipv6_text(ip: Seq<u8>) -> Seq<u8>
    recommends
        ip.len() == 16,
{
    spec_hex_u16(spec_ipv6_group(ip, 0)) + seq![58u8] + spec_hex_u16(spec_ipv6_group(ip, 1))
        + seq![58u8] + spec_hex_u16(spec_ipv6_group(ip, 2)) + seq![58u8] + spec_hex_u16(
        spec_ipv6_group(ip, 3),
    ) + seq![58u8] + spec_hex_u16(spec_ipv6_group(ip, 4)) + seq![58u8] + spec_hex_u16(
        spec_ipv6_group(ip, 5),
    ) + seq![58u8] + spec_hex_u16(spec_ipv6_group(ip, 6)) + seq![58u8] + spec_hex_u16(
        spec_ipv6_group(ip, 7),
    )
}

/// Append the decimal ASCII text of a byte value.
fn push_dec_u8(out: &mut Vec<u8>, v: u8)
    ensures
        final(out)@ == old(out)@ + spec_dec_u8(v),
        crate::text::all_ascii(old(out)@) ==> crate::text::all_ascii(final(out)@),
{
    if v >= 100 {
        out.push(48 + v / 100);
        out.push(48 + (v / 10) % 10);
        out.push(48 + v % 10);
    } else if v >= 10 {
        out.push(48 + v / 10);
        out.push(48 + v % 10);
    } else {
        out.push(48 + v);
    }
    proof {
        assert(out@ =~= old(out)@ + spec_dec_u8(v));
    }
}

/// Append the four hexadecimal ASCII digits of a 16-bit group.
fn push_hex_u16(out: &mut Vec<u8>, g: u16)
    ensures
        final(out)@ == old(out)@ + spec_hex_u16(g),
        crate::text::all_ascii(old(out)@) ==> crate::text::all_ascii(final(out)@),
{
    out.push(hex_digit((g / 4096) as u8));
    out.push(hex_digit(((g / 256) % 16) as u8));
    out.push(hex_digit(((g / 16) % 16) as u8));
    out.push(hex_digit((g % 16) as u8));
    proof {
        assert(out@ =~= old(out)@ + spec_hex_u16(g));
    }
}

/// Append one ASCII separator byte.
fn push_sep(out: &mut Vec<u8>, b: u8)
    requires
        b < 0x80,
    ensures
        final(out)@ == old(out)@ + seq![b],
        crate::text::all_ascii(old(out)@) ==> crate::text::all_ascii(final(out)@),
{
    out.push(b);
    proof {
        assert(out@ =~= old(out)@ + seq![b]);
    }
}

/// The lowercase hexadecimal ASCII digit of a value below sixteen.
fn hex_digit(d: u8) -> (r: u8)
    requires
        d < 16,
    ensures
        r == spec_hex_digit(d),
{
    if d < 10 {
        48 + d
    } else {
        87 + d
    }
}

} // verus!
