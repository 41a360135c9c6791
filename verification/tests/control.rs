use moondream_pipeline::control::CancelSlot;

#[test]
fn first_start_preempts_nothing() {
    let mut slot = CancelSlot::empty();
    let (tx, _rx) = std::sync::mpsc::channel::<()>();
    assert!(!slot.start_generation(tx));
}

#[test]
fn second_start_signals_first_run_exactly_once() {
    // Two starts in quick succession: the slot ends up holding exactly one
    // sender (the second run's), and the first run's sender is signalled
    // exactly once.
    let mut slot = CancelSlot::empty();
    let (tx1, rx1) = std::sync::mpsc::channel::<()>();
    let (tx2, rx2) = std::sync::mpsc::channel::<()>();
    assert!(!slot.start_generation(tx1));
    assert!(slot.start_generation(tx2));
    assert!(rx1.try_recv().is_ok(), "first run was signalled");
    assert!(rx1.try_recv().is_err(), "first run was signalled only once");
    assert!(rx2.try_recv().is_err(), "current run was not signalled");
    // Cancelling now reaches only the second run.
    assert!(slot.cancel_current());
    assert!(rx2.try_recv().is_ok());
}

#[test]
fn cancel_on_empty_slot_is_a_no_op() {
    let mut slot = CancelSlot::empty();
    assert!(!slot.cancel_current());
}

#[test]
fn cancel_empties_the_slot() {
    let mut slot = CancelSlot::empty();
    let (tx, rx) = std::sync::mpsc::channel::<()>();
    slot.start_generation(tx);
    assert!(slot.cancel_current());
    assert!(rx.try_recv().is_ok());
    // No run is owed afterwards: a second cancel finds the slot empty.
    assert!(!slot.cancel_current());
}

#[test]
fn signalling_a_finished_run_is_tolerated() {
    // The receiving side of the superseded run is already gone; installing a
    // new run must still succeed and never panic.
    let mut slot = CancelSlot::empty();
    let (tx1, rx1) = std::sync::mpsc::channel::<()>();
    drop(rx1);
    slot.start_generation(tx1);
    let (tx2, _rx2) = std::sync::mpsc::channel::<()>();
    assert!(slot.start_generation(tx2));
}
