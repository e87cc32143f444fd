//! The terminal SOCKS5 connector's decision logic.
//!
//! Given a parsed target address, the binary dials the target, and these
//! functions decide how: IPv4 and domain targets are dialed through their
//! textual address, an IPv6 target through an explicit socket address built
//! from the 16 raw bytes.  On connect failure the client is dropped silently
//! — no reply byte is ever written, so no partial protocol state leaks.  On
//! success the exact SOCKS5 reply for the locally bound port is produced and
//! the session moves on to the relay.

use vstd::prelude::*;

use crate::addr::Addr;
use crate::addr::AddrModel;
use crate::addr::addr_wf;
use crate::addr::makeword;
use crate::codec::build_reply;
use crate::codec::reply_spec;
use crate::codec::word_of;

verus! {

/// How the outbound connection must be dialed.
pub enum ConnectTarget {
    /// Dial the textual `host:port` address (IPv4 and domain targets).
    Textual(String),
    /// Dial an explicit IPv6 socket address: the eight big-endian 16-bit
    /// groups of the raw address bytes, and the target port.
    V6Socket { words: [u16; 8], port: u16 },
}

/// Decides how to dial `addr`: IPv4 and domain targets go through the
/// textual address `address`; an IPv6 target through the eight big-endian
/// words of its raw bytes and `port`.
pub fn connect_target(addr: &Addr, address: &String, port: u16) -> (t: ConnectTarget)
    ensures
        (addr@ is V4 || addr@ is Domain) ==> (t matches ConnectTarget::Textual(s) && s@
            == address@),
        (addr@ matches AddrModel::V6(b) ==> (t matches ConnectTarget::V6Socket {
            words,
            port: p,
        } && p == port && forall|i: int| 0 <= i < 8 ==> words@[i] == word_of(b[2 * i], b[2 * i + 1]))),
{
    match addr {
        Addr::V4(_) => ConnectTarget::Textual(address.clone()),
        Addr::Domain(_) => ConnectTarget::Textual(address.clone()),
        Addr::V6(x) => {
            let words: [u16; 8] = [
                makeword(x[0], x[1]),
                makeword(x[2], x[3]),
                makeword(x[4], x[5]),
                makeword(x[6], x[7]),
                makeword(x[8], x[9]),
                makeword(x[10], x[11]),
                makeword(x[12], x[13]),
                makeword(x[14], x[15]),
            ];
            proof {
                assert forall|i: int| 0 <= i < 8 implies words@[i] == word_of(
                    x@[2 * i],
                    x@[2 * i + 1],
                ) by {
                    assert(words@ =~= seq![
                        word_of(x@[0], x@[1]),
                        word_of(x@[2], x@[3]),
                        word_of(x@[4], x@[5]),
                        word_of(x@[6], x@[7]),
                        word_of(x@[8], x@[9]),
                        word_of(x@[10], x@[11]),
                        word_of(x@[12], x@[13]),
                        word_of(x@[14], x@[15]),
                    ]);
                }
            }
            ConnectTarget::V6Socket { words, port }
        },
    }
}

/// What the connector does once the dial attempt settles.
pub enum ConnectorAction {
    /// Drop the client connection silently: not a single reply byte is
    /// written (fail closed).
    Abandon,
    /// Write exactly these SOCKS5 reply bytes to the client, then relay.
    SendReply(Vec<u8>),
}

/// Decides the session's fate after the dial attempt: on failure the client
/// is abandoned with nothing written; on success, with the outbound socket
/// locally bound to `p`, the client gets exactly the SOCKS5 reply for the
/// target address and `p`.
pub fn after_connect(addr: &Addr, local_port: Option<u16>) -> (act: ConnectorAction)
    requires
        addr_wf(addr@),
    ensures
        local_port is None <==> act is Abandon,
        (local_port matches Some(p) ==> (act matches ConnectorAction::SendReply(r) && r@
            == reply_spec(addr@, p))),
{
    match local_port {
        None => ConnectorAction::Abandon,
        Some(p) => ConnectorAction::SendReply(build_reply(addr, p)),
    }
}

} // verus!
