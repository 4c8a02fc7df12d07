//! The fault handler as a state machine. The running binary halts forever
//! when an unrecoverable fault strikes; the decision itself — whatever the
//! state and whatever the fault, go to the halted state and touch the output
//! stream no further — is a step function with a contract, and halted is
//! proved terminal under any number of further turns.

use vstd::prelude::*;
use crate::program::OutputStream;

verus! {

/// The process's run state: running, or halted by the fault handler. Halted
/// is terminal and is the only state the handler ever produces.
#[derive(PartialEq, Eq, Structural, Clone, Copy, Debug)]
pub enum ProcessState {
    Running,
    Halted,
}

/// What one turn of the fault handler does to the run state: it halts,
/// whatever the state was and whatever fault invoked it.
pub open spec fn halt_transition(state: ProcessState) -> ProcessState {
    ProcessState::Halted
}

/// The run state after `n` further turns of the fault handler.
pub open spec fn steps_after(state: ProcessState, n: nat) -> ProcessState
    decreases n,
{
    if n == 0 {
        state
    } else {
        halt_transition(steps_after(state, (n - 1) as nat))
    }
}

/// Halted is terminal: no number of further fault-handler turns leaves it.
pub proof fn lemma_halted_forever(n: nat)
    ensures
        steps_after(ProcessState::Halted, n) == ProcessState::Halted,
    decreases n,
{
    if n > 0 {
        lemma_halted_forever((n - 1) as nat);
    }
}

/// One turn of the fault handler: the next state is halted — and stays
/// halted under every further turn — and the output stream is left exactly
/// as it was. The handler takes no fault data: the outcome depends on
/// nothing the fault carries.
pub fn panic_step(state: ProcessState, out: &mut OutputStream) -> (next: ProcessState)
    ensures
        next == ProcessState::Halted,
        forall|n: nat| steps_after(next, n) == ProcessState::Halted,
        final(out).written@ == old(out).written@,
        final(out).write_count == old(out).write_count,
{
    proof {
        assert forall|n: nat| steps_after(ProcessState::Halted, n) == ProcessState::Halted by {
            lemma_halted_forever(n);
        }
    }
    match state {
        ProcessState::Running => ProcessState::Halted,
        ProcessState::Halted => ProcessState::Halted,
    }
}

} // verus!
