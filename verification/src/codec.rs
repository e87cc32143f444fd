//! The SOCKS5 connect-reply wire format: construction and parsing.
//!
//! A reply is the fixed preamble `[5, 0, 0]` (version, success, reserved),
//! one address-type byte (`1` = IPv4, `4` = IPv6, `3` = domain with a one-byte
//! length prefix), the raw address bytes, then the bound port as two
//! big-endian bytes.  This layout must be reproduced bit-for-bit for client
//! compatibility, so it is pinned down by a spec function and a round-trip
//! proof.

use vstd::prelude::*;

use vstd::arithmetic::div_mod::lemma_fundamental_div_mod_converse;

use crate::addr::Addr;
use crate::addr::AddrModel;
use crate::addr::addr_wf;
use crate::addr::makeword;

verus! {

/// The 16-bit word read big-endian from two bytes.
pub open spec fn word_of(high: u8, low: u8) -> u16 {
    (high * 256 + low) as u16
}

/// The exact byte sequence of the SOCKS5 connect reply for address `a` and
/// bound port `port`.
pub open spec fn reply_spec(a: AddrModel, port: u16) -> Seq<u8> {
    let body = match a {
        AddrModel::V4(b) => seq![1u8] + b,
        AddrModel::V6(b) => seq![4u8] + b,
        AddrModel::Domain(b) => seq![3u8, b.len() as u8] + b,
    };
    seq![5u8, 0u8, 0u8] + body + seq![(port / 256) as u8, (port % 256) as u8]
}

/// What a byte sequence parses to as a SOCKS5 connect reply: the address
/// model and the port, or `None` when the bytes are not a well-formed reply.
pub open spec fn parse_spec(s: Seq<u8>) -> Option<(AddrModel, u16)> {
    if s.len() >= 5 && s[0] == 5 && s[1] == 0 && s[2] == 0 {
        if s[3] == 1 && s.len() == 10 {
            Some((AddrModel::V4(s.subrange(4, 8)), word_of(s[8], s[9])))
        } else if s[3] == 4 && s.len() == 22 {
            Some((AddrModel::V6(s.subrange(4, 20)), word_of(s[20], s[21])))
        } else if s[3] == 3 && s.len() == 7 + s[4] {
            Some(
                (
                    AddrModel::Domain(s.subrange(5, 5 + s[4])),
                    word_of(s[5 + s[4]], s[6 + s[4]]),
                ),
            )
        } else {
            None
        }
    } else {
        None
    }
}

/// Appends every byte of `b` to `out`, in order.
fn push_bytes(out: &mut Vec<u8>, b: &[u8])
    ensures
        final(out)@ == old(out)@ + b@,
{
    let mut i: usize = 0;
    while i < b.len()
        invariant
            i <= b@.len(),
            out@ == old(out)@ + b@.subrange(0, i as int),
        decreases b@.len() - i,
    {
        out.push(b[i]);
        proof {
            assert(old(out)@ + b@.subrange(0, i as int + 1) =~= (old(out)@ + b@.subrange(
                0,
                i as int,
            )).push(b@[i as int]));
        }
        i = i + 1;
    }
    proof {
        assert(b@.subrange(0, b@.len() as int) =~= b@);
    }
}

/// Builds the SOCKS5 connect reply for `addr` and the bound port `port`,
/// byte for byte as [`reply_spec`] states it.
pub fn build_reply(addr: &Addr, port: u16) -> (r: Vec<u8>)
    requires
        addr_wf(addr@),
    ensures
        r@ == reply_spec(addr@, port),
{
    let mut reply: Vec<u8> = Vec::new();
    reply.push(5);
    reply.push(0);
    reply.push(0);
    match addr {
        Addr::V4(x) => {
            reply.push(1);
            push_bytes(&mut reply, x.as_slice());
        },
        Addr::V6(x) => {
            reply.push(4);
            push_bytes(&mut reply, x.as_slice());
        },
        Addr::Domain(x) => {
            reply.push(3);
            reply.push(x.len() as u8);
            push_bytes(&mut reply, x.as_slice());
        },
    }
    reply.push((port / 256) as u8);
    reply.push((port % 256) as u8);
    proof {
        assert(reply@ =~= reply_spec(addr@, port));
    }
    reply
}

/// Parses a SOCKS5 connect reply back into its address and port, exactly as
/// [`parse_spec`] states it: `Some` if and only if the bytes are a
/// well-formed reply.
pub fn parse_reply(data: &[u8]) -> (r: Option<(Addr, u16)>)
    ensures
        r is Some <==> parse_spec(data@) is Some,
        r matches Some(p) ==> parse_spec(data@) == Some((p.0@, p.1)),
{
    if data.len() < 5 || data[0] != 5 || data[1] != 0 || data[2] != 0 {
        return None;
    }
    if data[3] == 1 && data.len() == 10 {
        let a: [u8; 4] = [data[4], data[5], data[6], data[7]];
        let port = makeword(data[8], data[9]);
        proof {
            assert(a@ =~= data@.subrange(4, 8));
        }
        Some((Addr::V4(a), port))
    } else if data[3] == 4 && data.len() == 22 {
        let a: [u8; 16] = [
            data[4],
            data[5],
            data[6],
            data[7],
            data[8],
            data[9],
            data[10],
            data[11],
            data[12],
            data[13],
            data[14],
            data[15],
            data[16],
            data[17],
            data[18],
            data[19],
        ];
        let port = makeword(data[20], data[21]);
        proof {
            assert(a@ =~= data@.subrange(4, 20));
        }
        Some((Addr::V6(a), port))
    } else if data[3] == 3 && data.len() == 7 + (data[4] as usize) {
        let dlen = data[4] as usize;
        let mut dom: Vec<u8> = Vec::new();
        let mut i: usize = 0;
        while i < dlen
            invariant
                i <= dlen,
                dlen <= 255,
                data@.len() == 7 + dlen,
                dom@ == data@.subrange(5, 5 + i as int),
            decreases dlen - i,
        {
            dom.push(data[5 + i]);
            proof {
                assert(data@.subrange(5, 5 + i as int + 1) =~= data@.subrange(
                    5,
                    5 + i as int,
                ).push(data@[5 + i as int]));
            }
            i = i + 1;
        }
        let port = makeword(data[5 + dlen], data[6 + dlen]);
        Some((Addr::Domain(dom), port))
    } else {
        None
    }
}

/// The reply layout is lossless: parsing the reply built for a well-formed
/// address and port recovers exactly that address and that port.
pub proof fn lemma_reply_round_trip(a: AddrModel, port: u16)
    requires
        addr_wf(a),
    ensures
        parse_spec(reply_spec(a, port)) == Some((a, port)),
{
    let s = reply_spec(a, port);
    let hi = (port / 256) as u8;
    let lo = (port % 256) as u8;
    assert(hi * 256 + lo == port);
    match a {
        AddrModel::V4(b) => {
            assert(s.len() == 10);
            assert(s.subrange(4, 8) =~= b);
        },
        AddrModel::V6(b) => {
            assert(s.len() == 22);
            assert(s.subrange(4, 20) =~= b);
        },
        AddrModel::Domain(b) => {
            assert(s.len() == 7 + b.len());
            assert(s[4] == b.len() as u8);
            assert(s.subrange(5, 5 + b.len() as int) =~= b);
        },
    }
}

/// The converse: a byte sequence that parses at all is exactly the reply
/// built from what it parses to — the parser accepts no other layout, and
/// what it accepts is always well-formed.
pub proof fn lemma_parse_reply_exact(s: Seq<u8>, a: AddrModel, port: u16)
    requires
        parse_spec(s) == Some((a, port)),
    ensures
        addr_wf(a),
        reply_spec(a, port) == s,
{
    if s[3] == 1 && s.len() == 10 {
        lemma_fundamental_div_mod_converse(port as int, 256, s[8] as int, s[9] as int);
        assert(reply_spec(a, port) =~= s);
    } else if s[3] == 4 && s.len() == 22 {
        lemma_fundamental_div_mod_converse(port as int, 256, s[20] as int, s[21] as int);
        assert(reply_spec(a, port) =~= s);
    } else {
        let dlen = s[4] as int;
        lemma_fundamental_div_mod_converse(
            port as int,
            256,
            s[5 + dlen] as int,
            s[6 + dlen] as int,
        );
        assert(a->Domain_0.len() == dlen);
        assert(reply_spec(a, port) =~= s);
    }
}

} // verus!
