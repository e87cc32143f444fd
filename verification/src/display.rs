//! Textual rendering of target addresses, for logging and diagnostics.
//!
//! An IPv4 address renders as a dotted quad; an IPv6 address renders as eight
//! colon-separated groups, each the decimal value of one big-endian byte
//! pair; a domain renders as its UTF-8 string, and is rejected when its bytes
//! are not valid UTF-8.

use vstd::prelude::*;
use vstd::utf8::decode_utf8;
use vstd::utf8::valid_utf8;

use crate::addr::Addr;
use crate::addr::AddrModel;
use crate::addr::SocksError;
use crate::codec::word_of;

verus! {

/// The decimal digit character for `d`.
pub open spec fn digit_char(d: nat) -> char {
    if d == 0 {
        '0'
    } else if d == 1 {
        '1'
    } else if d == 2 {
        '2'
    } else if d == 3 {
        '3'
    } else if d == 4 {
        '4'
    } else if d == 5 {
        '5'
    } else if d == 6 {
        '6'
    } else if d == 7 {
        '7'
    } else if d == 8 {
        '8'
    } else {
        '9'
    }
}

/// The decimal representation of `n`, most significant digit first, with no
/// leading zeros (a single `'0'` for zero).
pub open spec fn dec_rep(n: nat) -> Seq<char>
    decreases n,
{
    if n < 10 {
        seq![digit_char(n)]
    } else {
        dec_rep(n / 10).push(digit_char(n % 10))
    }
}

/// The dotted-quad rendering of four raw IPv4 bytes.
pub open spec fn v4_display(b: Seq<u8>) -> Seq<char>
    recommends
        b.len() == 4,
{
    dec_rep(b[0] as nat) + seq!['.'] + dec_rep(b[1] as nat) + seq!['.'] + dec_rep(b[2] as nat)
        + seq!['.'] + dec_rep(b[3] as nat)
}

/// The rendering of sixteen raw IPv6 bytes: eight colon-separated groups,
/// each the decimal value of one big-endian byte pair.
pub open spec fn v6_display(b: Seq<u8>) -> Seq<char>
    recommends
        b.len() == 16,
{
    dec_rep(word_of(b[0], b[1]) as nat) + seq![':'] + dec_rep(word_of(b[2], b[3]) as nat)
        + seq![':'] + dec_rep(word_of(b[4], b[5]) as nat) + seq![':'] + dec_rep(
        word_of(b[6], b[7]) as nat,
    ) + seq![':'] + dec_rep(word_of(b[8], b[9]) as nat) + seq![':'] + dec_rep(
        word_of(b[10], b[11]) as nat,
    ) + seq![':'] + dec_rep(word_of(b[12], b[13]) as nat) + seq![':'] + dec_rep(
        word_of(b[14], b[15]) as nat,
    )
}

/// The one-character string for a decimal digit.
fn digit_str(d: u16) -> (s: &'static str)
    requires
        d < 10,
    ensures
        s@ == seq![digit_char(d as nat)],
{
    proof {
        reveal_strlit("0");
        reveal_strlit("1");
        reveal_strlit("2");
        reveal_strlit("3");
        reveal_strlit("4");
        reveal_strlit("5");
        reveal_strlit("6");
        reveal_strlit("7");
        reveal_strlit("8");
        reveal_strlit("9");
    }
    let s: &'static str = if d == 0 {
        "0"
    } else if d == 1 {
        "1"
    } else if d == 2 {
        "2"
    } else if d == 3 {
        "3"
    } else if d == 4 {
        "4"
    } else if d == 5 {
        "5"
    } else if d == 6 {
        "6"
    } else if d == 7 {
        "7"
    } else if d == 8 {
        "8"
    } else {
        "9"
    };
    proof {
        assert(s@ =~= seq![digit_char(d as nat)]);
    }
    s
}

/// Renders `n` in decimal.
pub fn dec_str_u16(n: u16) -> (s: String)
    ensures
        s@ == dec_rep(n as nat),
    decreases n,
{
    if n < 10 {
        String::from_str(digit_str(n))
    } else {
        let mut s = dec_str_u16(n / 10);
        s.append(digit_str(n % 10));
        proof {
            assert(dec_rep((n / 10) as nat).push(digit_char((n % 10) as nat)) =~= dec_rep(
                n as nat,
            ));
        }
        s
    }
}

/// Relies on `String::from_utf8`: it succeeds exactly when the bytes are a
/// valid UTF-8 encoding, and then returns the string those bytes encode.
#[verifier::external_body]
fn bytes_to_utf8_string(v: &Vec<u8>) -> (r: Option<String>)
    ensures
        r is Some <==> valid_utf8(v@),
        r matches Some(s) ==> s@ == decode_utf8(v@),
{
    match String::from_utf8(v.clone()) {
        Ok(s) => Some(s),
        Err(_) => None,
    }
}

/// Appends `sep` (a one-character separator) and the decimal rendering of
/// `n` to `s`.
fn append_sep_word(s: &mut String, sep: &str, n: u16)
    ensures
        final(s)@ == old(s)@ + sep@ + dec_rep(n as nat),
{
    s.append(sep);
    let w = dec_str_u16(n);
    s.append(w.as_str());
}

/// Renders a target address for display: dotted quad for IPv4, eight decimal
/// big-endian byte-pair groups joined by `':'` for IPv6, and the decoded
/// UTF-8 string for a domain.  A domain whose bytes are not valid UTF-8 is
/// reported as `InvalidData`.
pub fn format_ip_addr(addr: &Addr) -> (r: Result<String, SocksError>)
    ensures
        (addr@ matches AddrModel::V4(b) ==> r matches Ok(s) && s@ == v4_display(b)),
        (addr@ matches AddrModel::V6(b) ==> r matches Ok(s) && s@ == v6_display(b)),
        (addr@ matches AddrModel::Domain(b) ==> {
            &&& r is Ok <==> valid_utf8(b)
            &&& (r matches Ok(s) ==> s@ == decode_utf8(b))
            &&& (r matches Err(e) ==> e == SocksError::InvalidData)
        }),
{
    proof {
        reveal_strlit(".");
        reveal_strlit(":");
    }
    match addr {
        Addr::V4(x) => {
            let mut s = dec_str_u16(x[0] as u16);
            append_sep_word(&mut s, ".", x[1] as u16);
            append_sep_word(&mut s, ".", x[2] as u16);
            append_sep_word(&mut s, ".", x[3] as u16);
            proof {
                assert(s@ =~= v4_display(x@));
            }
            Ok(s)
        },
        Addr::V6(x) => {
            let w0 = crate::addr::makeword(x[0], x[1]);
            let mut s = dec_str_u16(w0);
            append_sep_word(&mut s, ":", crate::addr::makeword(x[2], x[3]));
            append_sep_word(&mut s, ":", crate::addr::makeword(x[4], x[5]));
            append_sep_word(&mut s, ":", crate::addr::makeword(x[6], x[7]));
            append_sep_word(&mut s, ":", crate::addr::makeword(x[8], x[9]));
            append_sep_word(&mut s, ":", crate::addr::makeword(x[10], x[11]));
            append_sep_word(&mut s, ":", crate::addr::makeword(x[12], x[13]));
            append_sep_word(&mut s, ":", crate::addr::makeword(x[14], x[15]));
            proof {
                assert(s@ =~= v6_display(x@));
            }
            Ok(s)
        },
        Addr::Domain(x) => match bytes_to_utf8_string(x) {
            Some(s) => Ok(s),
            None => Err(SocksError::InvalidData),
        },
    }
}

} // verus!
