use fanuc_web::frame_tool::{slot_title, SlotChoice, SlotKind, SlotLook};

#[test]
fn frame_choice_is_pending_until_applied() {
    let mut c = SlotChoice::new(SlotKind::UFrame);
    assert_eq!(c.effective(2), 2);
    assert_eq!(c.look(2, 2), SlotLook::Active);
    c.pick(5, true, false);
    assert_eq!(c.effective(2), 5);
    assert_eq!(c.look(5, 2), SlotLook::Pending);
    assert_eq!(c.look(2, 2), SlotLook::Plain);
    assert_eq!(c.apply(3), Some((5, 3)));
    assert_eq!(c.pending, None);
    assert_eq!(c.apply(3), None);
}

#[test]
fn tool_choice_keeps_the_frame() {
    let mut c = SlotChoice::new(SlotKind::UTool);
    c.pick(7, true, false);
    assert_eq!(c.apply(4), Some((4, 7)));
}

#[test]
fn picking_needs_control_and_no_program() {
    let mut c = SlotChoice::new(SlotKind::UFrame);
    c.pick(1, false, false);
    assert_eq!(c.pending, None);
    c.pick(1, true, true);
    assert_eq!(c.pending, None);
    c.pick(1, true, false);
    assert_eq!(c.pending, Some(1));
}

#[test]
fn slot_titles() {
    assert_eq!(slot_title(SlotKind::UFrame, 3, false, false), "Request control to change UFrame");
    assert_eq!(slot_title(SlotKind::UTool, 3, true, true), "Cannot change UTool while program is running");
    assert_eq!(slot_title(SlotKind::UTool, 10, true, false), "UTool 10");
    assert_eq!(slot_title(SlotKind::UFrame, 0, true, false), "UFrame 0");
}
