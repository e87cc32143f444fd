//! SOCKS5 target addresses and the small shared constants of the protocol.

use vstd::prelude::*;

verus! {

/// The single reserved control byte: written on the slave control channel to
/// request that the slave open one more data connection.
pub const MAGIC_FLAG: u8 = 0x37;

/// Idle interval, in seconds, of the TCP keepalive probe enabled on every
/// live stream.
pub const KEEPALIVE_SECS: u64 = 10;

/// A parsed SOCKS5 target address: a raw IPv4 address, a raw IPv6 address, or
/// a domain name held as its raw bytes.  Immutable once parsed.
#[derive(Debug, Clone)]
pub enum Addr {
    V4([u8; 4]),
    V6([u8; 16]),
    Domain(Vec<u8>),
}

/// The mathematical model of an [`Addr`]: the same three variants over plain
/// byte sequences.
pub enum AddrModel {
    V4(Seq<u8>),
    V6(Seq<u8>),
    Domain(Seq<u8>),
}

impl View for Addr {
    type V = AddrModel;

    open spec fn view(&self) -> AddrModel {
        match self {
            Addr::V4(b) => AddrModel::V4(b@),
            Addr::V6(b) => AddrModel::V6(b@),
            Addr::Domain(b) => AddrModel::Domain(b@),
        }
    }
}

/// Well-formedness of an address model: the raw byte sequences have the
/// lengths the wire format fixes, and a domain fits behind a one-byte length
/// prefix.
pub open spec fn addr_wf(a: AddrModel) -> bool {
    match a {
        AddrModel::V4(b) => b.len() == 4,
        AddrModel::V6(b) => b.len() == 16,
        AddrModel::Domain(b) => b.len() <= 255,
    }
}

/// Errors of this library.
#[derive(Debug, Clone, PartialEq, Eq, Structural)]
pub enum SocksError {
    /// A domain name whose bytes are not valid UTF-8.
    InvalidData,
}

/// Builds a 16-bit word from a high and a low byte.
pub fn makeword(high: u8, low: u8) -> (r: u16)
    ensures
        r == high * 256 + low,
{
    (high as u16) * 256 + (low as u16)
}

} // verus!
