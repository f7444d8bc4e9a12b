//! The phases of the program: it loads the reports, writes them to the
//! store, and only then serves requests. A failure of either of the first
//! two ends the program with exit code 1.

use vstd::prelude::*;

verus! {

/// What the program is doing.
#[derive(Clone, Copy, Debug, PartialEq, Eq, Structural)]
pub enum Phase {
    /// Loading the reports.
    Load,
    /// Writing the loaded reports to the store.
    Write,
    /// Serving requests.
    Serve,
    /// Ending with this exit code.
    Exit(u8),
}

/// What happened in a phase.
#[derive(Clone, Copy, Debug, PartialEq, Eq, Structural)]
pub enum Event {
    Loaded,
    LoadFailed,
    Written,
    WriteFailed,
    Stopped,
}

/// The phase that follows `phase` after `event`. An event that does not
/// belong to the phase changes nothing.
pub open spec fn phase_after(phase: Phase, event: Event) -> Phase {
    match (phase, event) {
        (Phase::Load, Event::Loaded) => Phase::Write,
        (Phase::Load, Event::LoadFailed) => Phase::Exit(1),
        (Phase::Write, Event::Written) => Phase::Serve,
        (Phase::Write, Event::WriteFailed) => Phase::Exit(1),
        (Phase::Serve, Event::Stopped) => Phase::Exit(0),
        (other, _) => other,
    }
}

/// The phase that is reached from `phase` after all of `events`.
pub open spec fn phase_after_all(phase: Phase, events: Seq<Event>) -> Phase
    decreases events.len(),
{
    if events.len() == 0 {
        phase
    } else {
        phase_after(phase_after_all(phase, events.drop_last()), events.last())
    }
}

/// The phase that follows `phase` after `event`.
pub fn next_phase(phase: Phase, event: Event) -> (next: Phase)
    ensures
        next == phase_after(phase, event),
{
    match (phase, event) {
        (Phase::Load, Event::Loaded) => Phase::Write,
        (Phase::Load, Event::LoadFailed) => Phase::Exit(1),
        (Phase::Write, Event::Written) => Phase::Serve,
        (Phase::Write, Event::WriteFailed) => Phase::Exit(1),
        (Phase::Serve, Event::Stopped) => Phase::Exit(0),
        (other, _) => other,
    }
}

/// A program that has ended stays ended, with the same exit code.
pub proof fn lemma_exit_is_final(code: u8, events: Seq<Event>)
    ensures
        phase_after_all(Phase::Exit(code), events) == Phase::Exit(code),
    decreases events.len(),
{
    if events.len() > 0 {
        lemma_exit_is_final(code, events.drop_last());
    }
}

/// A load that fails is never followed by a write: whatever happens after
/// it, the program has ended with exit code 1.
pub proof fn lemma_no_write_after_failed_load(events: Seq<Event>)
    requires
        events.len() > 0,
        events[0] == Event::LoadFailed,
    ensures
        forall|n: int|
            1 <= n <= events.len() ==> #[trigger] phase_after_all(Phase::Load, events.take(n))
                == Phase::Exit(1),
{
    assert forall|n: int| 1 <= n <= events.len() implies #[trigger] phase_after_all(
        Phase::Load,
        events.take(n),
    ) == Phase::Exit(1) by {
        lemma_after_failed_load(events.take(n));
    }
}

proof fn lemma_after_failed_load(events: Seq<Event>)
    requires
        events.len() > 0,
        events[0] == Event::LoadFailed,
    ensures
        phase_after_all(Phase::Load, events) == Phase::Exit(1),
    decreases events.len(),
{
    if events.len() == 1 {
        assert(events.drop_last().len() == 0);
    } else {
        lemma_after_failed_load(events.drop_last());
    }
}

} // verus!
