//! The Initialization → Normal mode handshake.
//!
//! The controller is moved between modes by a request bit and answers with
//! an acknowledge bit: setting the request parks the controller in
//! Initialization mode once the acknowledge goes high; clearing it starts
//! bus synchronization, complete once the acknowledge goes low again.
//! Timing may only be programmed while initialization is acknowledged,
//! and frames may only be sent after the return to Normal is acknowledged.
//!
//! The sequencer is a pure step function from the current phase and the
//! acknowledge bit just read to the next phase and the register action to
//! perform now.  A driver loop runs it against the real controller;
//! [`crate::controller`] runs it against the in-crate model.

use vstd::prelude::*;

verus! {

/// Where the bring-up handshake stands.
#[derive(Clone, Copy, PartialEq, Eq, Structural, Debug)]
pub enum SeqPhase {
    /// Nothing requested yet (the controller's reset state).
    Reset,
    /// Initialization requested; waiting for the acknowledge bit to rise.
    InitRequested,
    /// Initialization acknowledged; timing has just been programmed.
    InitAcked,
    /// Normal mode requested; waiting for the acknowledge bit to fall.
    NormalRequested,
    /// Normal mode acknowledged: transmission may begin.
    Ready,
}

/// The register action a step asks the driver to perform before the next
/// step.
#[derive(Clone, Copy, PartialEq, Eq, Structural, Debug)]
pub enum SeqAction {
    /// Set the initialization-request bit.
    SetInitRequest,
    /// Program the bit-timing register (only valid while initialization
    /// is acknowledged).
    WriteTiming,
    /// Clear the initialization-request bit.
    ClearInitRequest,
    /// Nothing to write; read the acknowledge bit again.
    Poll,
    /// Bring-up is complete.
    Idle,
}

impl SeqPhase {
    /// Only the phase that has observed the Normal-mode acknowledgment
    /// permits a transmission to begin.
    pub open spec fn may_transmit(self) -> bool {
        self is Ready
    }

    /// How many steps of progress remain, for termination measures.
    pub open spec fn remaining(self) -> int {
        match self {
            SeqPhase::Reset => 4,
            SeqPhase::InitRequested => 3,
            SeqPhase::InitAcked => 2,
            SeqPhase::NormalRequested => 1,
            SeqPhase::Ready => 0,
        }
    }
}

/// What `sequencer_step` returns, as a spec-level pair.
pub open spec fn step_spec(phase: SeqPhase, init_acked: bool) -> (SeqPhase, SeqAction) {
    match phase {
        SeqPhase::Reset => (SeqPhase::InitRequested, SeqAction::SetInitRequest),
        SeqPhase::InitRequested => if init_acked {
            (SeqPhase::InitAcked, SeqAction::WriteTiming)
        } else {
            (SeqPhase::InitRequested, SeqAction::Poll)
        },
        SeqPhase::InitAcked => (SeqPhase::NormalRequested, SeqAction::ClearInitRequest),
        SeqPhase::NormalRequested => if !init_acked {
            (SeqPhase::Ready, SeqAction::Idle)
        } else {
            (SeqPhase::NormalRequested, SeqAction::Poll)
        },
        SeqPhase::Ready => (SeqPhase::Ready, SeqAction::Idle),
    }
}

/// One step of the bring-up handshake: from the current phase and the
/// acknowledge bit just read, the next phase and the action to perform.
pub fn sequencer_step(phase: SeqPhase, init_acked: bool) -> (r: (SeqPhase, SeqAction))
    ensures
        r == step_spec(phase, init_acked),
{
    match phase {
        SeqPhase::Reset => (SeqPhase::InitRequested, SeqAction::SetInitRequest),
        SeqPhase::InitRequested => if init_acked {
            (SeqPhase::InitAcked, SeqAction::WriteTiming)
        } else {
            (SeqPhase::InitRequested, SeqAction::Poll)
        },
        SeqPhase::InitAcked => (SeqPhase::NormalRequested, SeqAction::ClearInitRequest),
        SeqPhase::NormalRequested => if !init_acked {
            (SeqPhase::Ready, SeqAction::Idle)
        } else {
            (SeqPhase::NormalRequested, SeqAction::Poll)
        },
        SeqPhase::Ready => (SeqPhase::Ready, SeqAction::Idle),
    }
}

/// Transmission waits for the Normal-mode acknowledgment: the only step
/// that enters the transmit-permitting phase is the one that observes the
/// acknowledge bit low while Normal mode stands requested.  No event
/// sequence can reach `Ready` without that observation.
pub proof fn lemma_ready_needs_normal_ack(phase: SeqPhase, init_acked: bool)
    requires
        !phase.may_transmit(),
        step_spec(phase, init_acked).0.may_transmit(),
    ensures
        phase is NormalRequested,
        !init_acked,
{
}

/// The phase the handshake stands in after consuming a sequence of
/// acknowledge-bit observations, one step per observation.
pub open spec fn run_steps(phase: SeqPhase, acks: Seq<bool>) -> SeqPhase
    decreases acks.len(),
{
    if acks.len() == 0 {
        phase
    } else {
        run_steps(step_spec(phase, acks[0]).0, acks.skip(1))
    }
}

/// `lemma_ready_needs_normal_ack` lifted to whole runs: however many
/// observations a run consumes, if it starts short of `Ready` and ends
/// permitted to transmit, then at some point it read the acknowledge bit
/// low while standing in `NormalRequested` — the Normal-mode
/// acknowledgment was observed before any transmission could begin.
pub proof fn lemma_run_ready_needs_normal_ack(phase: SeqPhase, acks: Seq<bool>)
    requires
        !phase.may_transmit(),
        run_steps(phase, acks).may_transmit(),
    ensures
        exists|i: int|
            0 <= i < acks.len()
            && !acks[i]
            && run_steps(phase, #[trigger] acks.take(i)) is NormalRequested,
    decreases acks.len(),
{
    let next = step_spec(phase, acks[0]).0;
    if phase is NormalRequested && !acks[0] {
        assert(acks.take(0) =~= Seq::<bool>::empty());
        assert(run_steps(phase, acks.take(0)) is NormalRequested);
        assert(0 <= 0 < acks.len() && !acks[0]);
    } else {
        if next.may_transmit() {
            // the only step into the permitted phase is the one the first
            // branch handles
            lemma_ready_needs_normal_ack(phase, acks[0]);
        }
        lemma_run_ready_needs_normal_ack(next, acks.skip(1));
        let j = choose|j: int|
            0 <= j < acks.skip(1).len()
            && !acks.skip(1)[j]
            && run_steps(next, #[trigger] acks.skip(1).take(j)) is NormalRequested;
        assert(acks.take(j + 1)[0] == acks[0]);
        assert(acks.take(j + 1).skip(1) =~= acks.skip(1).take(j));
        assert(run_steps(phase, acks.take(j + 1)) is NormalRequested);
        assert(!acks[j + 1]);
    }
}

/// The sequencer never leaves the transmit-permitting phase once there,
/// and every step either stays in place or makes progress towards it.
pub proof fn lemma_step_progress(phase: SeqPhase, init_acked: bool)
    ensures
        step_spec(phase, init_acked).0.remaining() <= phase.remaining(),
        phase.may_transmit() ==> step_spec(phase, init_acked).0.may_transmit(),
{
}

} // verus!
