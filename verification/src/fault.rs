//! What becomes of a core that faults. There is nothing underneath to report
//! to or to exit through, so the policy is the smallest one: the core halts,
//! and nothing starts it again. The handler is written as one round of the
//! halt; the caller that owns the core repeats it without end.

use vstd::prelude::*;

verus! {

/// What a core is doing.
#[derive(Clone, Copy, Debug, PartialEq, Eq, Structural)]
pub enum Core {
    /// The core executes the program.
    Running,
    /// The core has stopped and executes nothing of the program.
    Halted,
}

/// One round of the fault handler, as a function on states: whatever the
/// core was doing, it is halted afterwards.
pub open spec fn halt(core: Core) -> Core {
    Core::Halted
}

/// The state of a core after `rounds` rounds of the fault handler in a row,
/// starting from `core`.
pub open spec fn halt_repeated(core: Core, rounds: nat) -> Core
    decreases rounds,
{
    if rounds == 0 {
        core
    } else {
        halt(halt_repeated(core, (rounds - 1) as nat))
    }
}

/// The fault handler: one round of the halt. It logs nothing, resets nothing
/// and recovers nothing, and it cannot fault itself.
pub fn panic(core: Core) -> (next: Core)
    ensures
        next == halt(core),
    no_unwind
{
    Core::Halted
}

/// Control never comes back from the fault handler: once it has been
/// invoked, the core is halted after every further round, whatever it was
/// doing before and however long the handler goes on.
pub proof fn lemma_halt_is_final(core: Core, rounds: nat)
    ensures
        halt_repeated(halt(core), rounds) == Core::Halted,
{
}

} // verus!
