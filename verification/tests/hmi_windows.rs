use fanuc_web::hmi_sync::{
    popup_url, tab_id, BroadcastParent, HmiBroadcastMessage, ParentReply, HMI_CHANNEL_NAME, POPUP_FEATURES,
};

fn ready(id: &str) -> HmiBroadcastMessage<u32> {
    HmiBroadcastMessage::ChildReady { child_id: id.to_string() }
}

fn closing(id: &str) -> HmiBroadcastMessage<u32> {
    HmiBroadcastMessage::ChildClosing { child_id: id.to_string() }
}

#[test]
fn ready_child_gets_session_info() {
    let mut parent = BroadcastParent::new(false);
    match parent.on_message(ready("tab_1"), "tab_0".to_string(), Some(7), true) {
        ParentReply::Post(HmiBroadcastMessage::SessionInfo { session_id, robot_connection_id, has_control }) => {
            assert_eq!(session_id, "tab_0");
            assert_eq!(robot_connection_id, 7);
            assert!(has_control);
        }
        _ => panic!("expected session info"),
    }
    match parent.on_message(ready("tab_2"), "tab_0".to_string(), None, false) {
        ParentReply::Post(HmiBroadcastMessage::SessionInfo { robot_connection_id, has_control, .. }) => {
            assert_eq!(robot_connection_id, -1);
            assert!(!has_control);
        }
        _ => panic!("expected session info"),
    }
    assert_eq!(parent.child_ids, vec!["tab_1".to_string(), "tab_2".to_string()]);
}

#[test]
fn children_are_tracked_once_and_removed() {
    let mut parent = BroadcastParent::new(false);
    parent.on_message(ready("a"), "p".to_string(), None, false);
    parent.on_message(ready("b"), "p".to_string(), None, false);
    parent.on_message(ready("a"), "p".to_string(), None, false);
    assert_eq!(parent.child_ids, vec!["a".to_string(), "b".to_string()]);
    match parent.on_message(closing("a"), "p".to_string(), None, false) {
        ParentReply::Nothing => {}
        _ => panic!("closing needs no answer"),
    }
    assert_eq!(parent.child_ids, vec!["b".to_string()]);
    parent.on_message(closing("zzz"), "p".to_string(), None, false);
    assert_eq!(parent.child_ids, vec!["b".to_string()]);
}

#[test]
fn child_commands_are_forwarded() {
    let mut parent = BroadcastParent::new(false);
    let msg = HmiBroadcastMessage::CommandRequest { child_id: "a".to_string(), command: 42u32 };
    match parent.on_message(msg, "p".to_string(), None, false) {
        ParentReply::Forward(c) => assert_eq!(c, 42),
        _ => panic!("expected the command to be forwarded"),
    }
    match parent.on_message(HmiBroadcastMessage::<u32>::ParentClosing, "p".to_string(), None, false) {
        ParentReply::Nothing => {}
        _ => panic!("messages for children are ignored"),
    }
    assert!(parent.child_ids.is_empty());
}

#[test]
fn control_changes_are_broadcast_once() {
    let mut parent = BroadcastParent::new(false);
    assert!(parent.on_control::<u32>(false).is_none());
    assert!(matches!(parent.on_control::<u32>(true), Some(HmiBroadcastMessage::ControlGranted)));
    assert!(parent.on_control::<u32>(true).is_none());
    assert!(matches!(parent.on_control::<u32>(false), Some(HmiBroadcastMessage::ControlRevoked)));
    assert!(!parent.had_control);
}

#[test]
fn window_ids_and_popup_address() {
    assert_eq!(tab_id(1700000000123), "tab_1700000000123");
    assert_eq!(tab_id(0), "tab_0");
    assert_eq!(popup_url(12), "/hmi-popup?panel=12");
    assert_eq!(popup_url(-3), "/hmi-popup?panel=-3");
    assert_eq!(HMI_CHANNEL_NAME, "fanuc-hmi-sync");
    assert!(POPUP_FEATURES.starts_with("width=800,height=600"));
}
