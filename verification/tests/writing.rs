use bigfoot_sightings::write::{BulkWrite, WriteAction, WriteEvent};

#[test]
fn records_are_stored_in_their_order() {
    let mut write = BulkWrite::new(3);
    let mut seen = Vec::new();
    loop {
        match write.next_action() {
            WriteAction::Store(index) => {
                seen.push(index);
                write = write.record(WriteEvent::Stored);
            }
            WriteAction::Finish(count) => {
                assert_eq!(count, 3);
                break;
            }
            WriteAction::Abort(_) => panic!("nothing was refused"),
        }
    }
    assert_eq!(seen, vec![0, 1, 2]);
}

#[test]
fn write_of_nothing_is_finished_at_once() {
    assert_eq!(BulkWrite::new(0).next_action(), WriteAction::Finish(0));
}

#[test]
fn refusal_ends_the_write() {
    let write = BulkWrite::new(5);
    let write = write.record(WriteEvent::Stored);
    let write = write.record(WriteEvent::Stored);
    assert_eq!(write.next_action(), WriteAction::Store(2));
    let write = write.record(WriteEvent::Refused);
    assert_eq!(write.next_action(), WriteAction::Abort(2));
}

#[test]
fn nothing_is_stored_after_a_refusal() {
    let write = BulkWrite::new(5).record(WriteEvent::Refused);
    let write = write.record(WriteEvent::Stored);
    let write = write.record(WriteEvent::Stored);
    assert_eq!(write.next_action(), WriteAction::Abort(0));
}

#[test]
fn finished_write_heeds_no_event() {
    let write = BulkWrite::new(1).record(WriteEvent::Stored);
    assert_eq!(write.next_action(), WriteAction::Finish(1));
    assert_eq!(write.record(WriteEvent::Stored).next_action(), WriteAction::Finish(1));
    assert_eq!(write.record(WriteEvent::Refused).next_action(), WriteAction::Finish(1));
}
