//! The master-side tunnel coordinator, as a verified state machine.
//!
//! The master first accepts exactly one slave control connection, then
//! serves clients: for each accepted client it writes one control byte
//! ([`crate::addr::MAGIC_FLAG`]) on the slave control stream, then accepts
//! exactly one more connection on the same control listener — the slave's
//! responding data leg, correlated purely by arrival order — and spawns a
//! relay between the two.  A failed signal write or a failed accept is fatal
//! to the whole coordinator.  The binary performs the accepts and writes and
//! feeds the outcomes in as events; the contracts here pin every transition,
//! and the invariant proves that each data leg is accepted only after
//! exactly one signal byte for it was requested.

use vstd::prelude::*;

use crate::addr::MAGIC_FLAG;

verus! {

/// The coordinator's control state.
#[derive(Clone, Copy, Debug, PartialEq, Eq, Structural)]
pub enum MasterState {
    /// Waiting for the single slave control connection.
    AwaitSlave,
    /// Slave attached; accepting clients on the public listener.
    Ready,
    /// A client arrived; the signal byte is being written to the slave.
    Signaling,
    /// Signal written; waiting for the slave's data leg on the control
    /// listener.
    AwaitData,
    /// Fatal failure: the coordinator has terminated.
    Closed,
}

/// What the binary reports to the coordinator.
#[derive(Clone, Copy, Debug, PartialEq, Eq, Structural)]
pub enum MasterEvent {
    /// The control listener accepted the slave control connection.
    SlaveAccepted,
    /// The public listener accepted a client connection.
    ClientAccepted,
    /// The signal byte was written to the slave control stream.
    SignalSent,
    /// Writing the signal byte failed: the slave is presumed dead.
    SignalFailed,
    /// The control listener accepted the slave's responding data leg.
    DataAccepted,
    /// An accept failed on either listener.
    AcceptFailed,
}

/// What the binary must do next.
#[derive(Clone, Copy, Debug, PartialEq, Eq, Structural)]
pub enum MasterAction {
    /// Bind the public listener and wait for a client.
    ListenClients,
    /// Write this one byte to the slave control stream.
    SendSignal(u8),
    /// Accept one connection on the control listener: the data leg.
    AcceptData,
    /// Pair the client with the data leg and spawn a relay task, then wait
    /// for the next client.
    SpawnRelay,
    /// Terminate the coordinator.
    Shutdown,
}

/// The coordinator model: the control state plus how many data-leg signals
/// have been requested and how many data legs have been paired.
#[verifier::ext_equal]
pub struct MasterModel {
    pub state: MasterState,
    pub signals_sent: nat,
    pub legs_paired: nat,
}

/// A coordinator that has not yet seen its slave.
pub open spec fn master_init() -> MasterModel {
    MasterModel { state: MasterState::AwaitSlave, signals_sent: 0, legs_paired: 0 }
}

/// One transition of the coordinator: the next model and the action the
/// binary must take.  An event that its state does not expect, and every
/// failure, closes the coordinator — there is no retry path.
pub open spec fn master_step(m: MasterModel, ev: MasterEvent) -> (MasterModel, MasterAction) {
    match (m.state, ev) {
        (MasterState::AwaitSlave, MasterEvent::SlaveAccepted) => (
            MasterModel { state: MasterState::Ready, ..m },
            MasterAction::ListenClients,
        ),
        (MasterState::Ready, MasterEvent::ClientAccepted) => (
            MasterModel { state: MasterState::Signaling, signals_sent: m.signals_sent + 1, ..m },
            MasterAction::SendSignal(MAGIC_FLAG),
        ),
        (MasterState::Signaling, MasterEvent::SignalSent) => (
            MasterModel { state: MasterState::AwaitData, ..m },
            MasterAction::AcceptData,
        ),
        (MasterState::AwaitData, MasterEvent::DataAccepted) => (
            MasterModel { state: MasterState::Ready, legs_paired: m.legs_paired + 1, ..m },
            MasterAction::SpawnRelay,
        ),
        _ => (MasterModel { state: MasterState::Closed, ..m }, MasterAction::Shutdown),
    }
}

/// The model after a whole sequence of events, applied in order.
pub open spec fn master_run(m: MasterModel, evs: Seq<MasterEvent>) -> MasterModel
    decreases evs.len(),
{
    if evs.len() == 0 {
        m
    } else {
        master_run(master_step(m, evs[0]).0, evs.drop_first())
    }
}

/// The signal-accounting invariant: while a signal is outstanding (between
/// the client's arrival and the data leg's pairing) exactly one more signal
/// has been requested than legs paired; otherwise the two counts agree.
pub open spec fn master_inv(m: MasterModel) -> bool {
    match m.state {
        MasterState::AwaitSlave => m.signals_sent == m.legs_paired,
        MasterState::Ready => m.signals_sent == m.legs_paired,
        MasterState::Signaling => m.signals_sent == m.legs_paired + 1,
        MasterState::AwaitData => m.signals_sent == m.legs_paired + 1,
        MasterState::Closed => m.signals_sent >= m.legs_paired,
    }
}

/// Every transition preserves the signal-accounting invariant.
pub proof fn lemma_master_step_preserves_inv(m: MasterModel, ev: MasterEvent)
    requires
        master_inv(m),
    ensures
        master_inv(master_step(m, ev).0),
{
}

/// The invariant holds after any run from the initial state.
pub proof fn lemma_master_run_inv(evs: Seq<MasterEvent>)
    ensures
        master_inv(master_run(master_init(), evs)),
{
    lemma_master_run_inv_from(master_init(), evs);
}

/// The invariant holds after any run from any state satisfying it.
pub proof fn lemma_master_run_inv_from(m: MasterModel, evs: Seq<MasterEvent>)
    requires
        master_inv(m),
    ensures
        master_inv(master_run(m, evs)),
    decreases evs.len(),
{
    if evs.len() > 0 {
        lemma_master_step_preserves_inv(m, evs[0]);
        lemma_master_run_inv_from(master_step(m, evs[0]).0, evs.drop_first());
    }
}

/// Exactly one signal byte precedes each data leg: whenever the coordinator
/// asks the binary to accept a data leg, precisely one signal is
/// outstanding, and the pairing that follows settles the account.
pub proof fn lemma_one_signal_per_data_leg(m: MasterModel, ev: MasterEvent)
    requires
        master_inv(m),
        master_step(m, ev).1 == MasterAction::AcceptData,
    ensures
        m.signals_sent == m.legs_paired + 1,
        master_step(m, ev).0.signals_sent == master_step(m, ev).0.legs_paired + 1,
{
}

/// One live coordinator, as driven by the binary.  The signal and pairing
/// counts are ghost state tied to the model by the method contracts.
pub struct TunnelCoordinator {
    state: MasterState,
    signals_sent: Ghost<nat>,
    legs_paired: Ghost<nat>,
}

impl View for TunnelCoordinator {
    type V = MasterModel;

    closed spec fn view(&self) -> MasterModel {
        MasterModel {
            state: self.state,
            signals_sent: self.signals_sent@,
            legs_paired: self.legs_paired@,
        }
    }
}

impl TunnelCoordinator {
    /// A coordinator that has not yet seen its slave.
    pub fn new() -> (c: Self)
        ensures
            c@ == master_init(),
    {
        let c = TunnelCoordinator {
            state: MasterState::AwaitSlave,
            signals_sent: Ghost(0),
            legs_paired: Ghost(0),
        };
        proof {
            assert(c@ =~= master_init());
        }
        c
    }

    /// Feeds one event in and returns the action the binary must take,
    /// exactly as [`master_step`] states it.
    pub fn on_event(&mut self, ev: MasterEvent) -> (act: MasterAction)
        ensures
            final(self)@ == master_step(old(self)@, ev).0,
            act == master_step(old(self)@, ev).1,
    {
        let ghost pre = self@;
        match (self.state, ev) {
            (MasterState::AwaitSlave, MasterEvent::SlaveAccepted) => {
                self.state = MasterState::Ready;
                proof {
                    assert(self@ =~= master_step(pre, ev).0);
                }
                MasterAction::ListenClients
            },
            (MasterState::Ready, MasterEvent::ClientAccepted) => {
                self.state = MasterState::Signaling;
                self.signals_sent = Ghost(self.signals_sent@ + 1);
                proof {
                    assert(self@ =~= master_step(pre, ev).0);
                }
                MasterAction::SendSignal(MAGIC_FLAG)
            },
            (MasterState::Signaling, MasterEvent::SignalSent) => {
                self.state = MasterState::AwaitData;
                proof {
                    assert(self@ =~= master_step(pre, ev).0);
                }
                MasterAction::AcceptData
            },
            (MasterState::AwaitData, MasterEvent::DataAccepted) => {
                self.state = MasterState::Ready;
                self.legs_paired = Ghost(self.legs_paired@ + 1);
                proof {
                    assert(self@ =~= master_step(pre, ev).0);
                }
                MasterAction::SpawnRelay
            },
            _ => {
                self.state = MasterState::Closed;
                proof {
                    assert(self@ =~= master_step(pre, ev).0);
                }
                MasterAction::Shutdown
            },
        }
    }

    /// The coordinator's current control state.
    pub fn current_state(&self) -> (s: MasterState)
        ensures
            s == self@.state,
    {
        self.state
    }
}

} // verus!
