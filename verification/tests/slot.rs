use deno_http::slot::ServiceSlot;

#[test]
fn new_slot_is_ready() {
    let slot: ServiceSlot<u32> = ServiceSlot::new();
    assert!(slot.poll_ready());
}

#[test]
fn full_slot_is_not_ready() {
    let mut slot = ServiceSlot::new();
    assert_eq!(slot.call("first"), None);
    assert!(!slot.poll_ready());
}

#[test]
fn take_empties_the_slot() {
    let mut slot = ServiceSlot::new();
    slot.call(7);
    assert_eq!(slot.take(), Some(7));
    assert!(slot.poll_ready());
    assert_eq!(slot.take(), None);
}

#[test]
fn call_on_a_full_slot_hands_back_what_it_held() {
    let mut slot = ServiceSlot::new();
    slot.call(1);
    assert_eq!(slot.call(2), Some(1));
    assert_eq!(slot.take(), Some(2));
}

#[test]
fn pipelined_requests_come_out_in_order() {
    let mut slot = ServiceSlot::new();
    let wire = vec!["GET /a", "GET /b", "GET /c"];
    let mut next = 0;
    let mut delivered = Vec::new();
    // The engine offers whenever the slot is ready; the host takes in between.
    for round in 0..7 {
        if next < wire.len() && slot.poll_ready() {
            slot.call(wire[next]);
            next += 1;
        }
        if round % 2 == 1 {
            if let Some(request) = slot.take() {
                delivered.push(request);
            }
        }
    }
    assert_eq!(delivered, wire);
}
