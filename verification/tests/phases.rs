use bigfoot_sightings::startup::{next_phase, Event, Phase};

fn all_events() -> Vec<Event> {
    vec![Event::Loaded, Event::LoadFailed, Event::Written, Event::WriteFailed, Event::Stopped]
}

#[test]
fn program_loads_then_writes_then_serves() {
    let phase = Phase::Load;
    let phase = next_phase(phase, Event::Loaded);
    assert_eq!(phase, Phase::Write);
    let phase = next_phase(phase, Event::Written);
    assert_eq!(phase, Phase::Serve);
    let phase = next_phase(phase, Event::Stopped);
    assert_eq!(phase, Phase::Exit(0));
}

#[test]
fn failed_load_ends_with_code_one() {
    assert_eq!(next_phase(Phase::Load, Event::LoadFailed), Phase::Exit(1));
}

#[test]
fn failed_write_ends_with_code_one() {
    assert_eq!(next_phase(Phase::Write, Event::WriteFailed), Phase::Exit(1));
}

#[test]
fn nothing_follows_a_failed_load() {
    let ended = next_phase(Phase::Load, Event::LoadFailed);
    for first in all_events() {
        for second in all_events() {
            let after = next_phase(next_phase(ended, first), second);
            assert_eq!(after, Phase::Exit(1));
        }
    }
}

#[test]
fn events_of_another_phase_change_nothing() {
    assert_eq!(next_phase(Phase::Load, Event::Written), Phase::Load);
    assert_eq!(next_phase(Phase::Load, Event::Stopped), Phase::Load);
    assert_eq!(next_phase(Phase::Write, Event::Loaded), Phase::Write);
    assert_eq!(next_phase(Phase::Serve, Event::LoadFailed), Phase::Serve);
    assert_eq!(next_phase(Phase::Exit(0), Event::Loaded), Phase::Exit(0));
}
