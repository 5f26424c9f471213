use tdtrap::vintr::IoRedirectionTable;
use tdtrap::vintr::RedirectionEntry;
use tdtrap::vintr::VirtIntrController;
use tdtrap::vintr::deliver_io_interrupt;

#[test]
fn highest_priority_pending_vector_wins() {
    let mut vic = VirtIntrController::new();
    vic.raise(32);
    vic.raise(200);
    assert_eq!(vic.next_injectable(), Some(200));
    vic.acknowledge(200);
    assert_eq!(vic.next_injectable(), Some(32));
}

#[test]
fn acknowledge_clears_pending_and_marks_in_service() {
    let mut vic = VirtIntrController::new();
    vic.raise(5);
    assert!(vic.is_pending(5));
    vic.acknowledge(5);
    assert!(!vic.is_pending(5));
    assert!(vic.is_in_service(5));
}

#[test]
fn end_of_interrupt_is_idempotent() {
    let mut vic = VirtIntrController::new();
    vic.raise(9);
    vic.acknowledge(9);
    vic.end_of_interrupt(9);
    let snapshot: Vec<(bool, bool, bool)> = (0u16..=255)
        .map(|v| (vic.is_pending(v as u8), vic.is_in_service(v as u8), vic.is_masked(v as u8)))
        .collect();
    vic.end_of_interrupt(9);
    for v in 0u16..=255 {
        let now = (vic.is_pending(v as u8), vic.is_in_service(v as u8), vic.is_masked(v as u8));
        assert_eq!(now, snapshot[v as usize]);
    }
    assert!(!vic.is_in_service(9));
}

#[test]
fn masked_vector_is_not_raised() {
    let mut vic = VirtIntrController::new();
    vic.set_mask(7, true);
    vic.raise(7);
    assert!(!vic.is_pending(7));
    assert_eq!(vic.next_injectable(), None);
    vic.set_mask(7, false);
    vic.raise(7);
    assert_eq!(vic.next_injectable(), Some(7));
}

#[test]
fn empty_controller_has_nothing_injectable() {
    let vic = VirtIntrController::new();
    assert_eq!(vic.next_injectable(), None);
    assert!(!vic.has_injectable());
}

#[test]
fn redirection_table_remaps_before_raising() {
    let mut table = IoRedirectionTable::new();
    let mut vic = VirtIntrController::new();
    // reset state: every pin masked, a delivery changes nothing
    deliver_io_interrupt(&table, 2, &mut vic);
    assert_eq!(vic.next_injectable(), None);
    table.set_entry(
        2,
        RedirectionEntry {
            vector: 0x55,
            destination: 0,
            level_triggered: true,
            active_low: false,
            masked: false,
        },
    );
    assert_eq!(table.route(2), Some(0x55));
    deliver_io_interrupt(&table, 2, &mut vic);
    assert!(vic.is_pending(0x55));
    assert_eq!(vic.next_injectable(), Some(0x55));
}
