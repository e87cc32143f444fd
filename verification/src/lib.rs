//! Core logic of a reverse-tunneling SOCKS5 proxy.
//!
//! A master node exposes a public SOCKS5 listener; a slave node behind a
//! firewall dials out to the master's control port, so the master can forward
//! client traffic through the slave without any inbound port on the slave
//! side.  This crate holds the protocol logic with machine-checked contracts:
//! the SOCKS5 address codec and connect-reply layout, the bidirectional relay
//! state machine, the master-side tunnel coordinator, and the round-robin
//! slave pool.  The surrounding binary performs the actual socket I/O and
//! drives these state machines.

mod addr;
mod codec;
mod connector;
mod display;
mod master;
mod pool;
mod relay;

pub use addr::Addr;
pub use addr::AddrModel;
pub use addr::SocksError;
pub use addr::addr_wf;
pub use addr::makeword;
pub use addr::MAGIC_FLAG;
pub use addr::KEEPALIVE_SECS;
pub use codec::build_reply;
pub use codec::parse_reply;
pub use codec::lemma_reply_round_trip;
pub use codec::lemma_parse_reply_exact;
pub use codec::reply_spec;
pub use codec::parse_spec;
pub use codec::word_of;
pub use display::format_ip_addr;
pub use display::dec_str_u16;
pub use display::dec_rep;
pub use display::digit_char;
pub use display::v4_display;
pub use display::v6_display;
pub use relay::Direction;
pub use relay::RelayModel;
pub use relay::RelayEvent;
pub use relay::RelaySession;
pub use relay::relay_init;
pub use relay::relay_step;
pub use relay::relay_run;
pub use relay::concat_chunks;
pub use relay::chunks_of;
pub use relay::lemma_relay_stream_integrity;
pub use relay::lemma_relay_run_snoc;
pub use relay::lemma_relay_session_complete;
pub use relay::lemma_eof_closes_both_cleanly;
pub use relay::lemma_closed_is_final;
pub use pool::SlavePool;
pub use pool::next_index;
pub use pool::rr_visits;
pub use pool::lemma_rr_visits_from;
pub use pool::lemma_round_robin_cycle;
pub use master::MasterState;
pub use master::MasterEvent;
pub use master::MasterAction;
pub use master::MasterModel;
pub use master::TunnelCoordinator;
pub use master::master_init;
pub use master::master_step;
pub use master::master_run;
pub use master::master_inv;
pub use master::lemma_master_step_preserves_inv;
pub use master::lemma_master_run_inv;
pub use master::lemma_master_run_inv_from;
pub use master::lemma_one_signal_per_data_leg;
pub use connector::ConnectTarget;
pub use connector::ConnectorAction;
pub use connector::connect_target;
pub use connector::after_connect;
