use fanuc_web::client::{ClientState, ExecutionStatusData, RobotStatusData, ServerEvent};
use fanuc_web::console::{clock_from_parts, MessageType};
use fanuc_web::dto::{io_config_for, position_of_id, upsert_configuration, IoDisplayConfigDto, RobotConfigurationDto};
use fanuc_web::messages::{hex_dump, socket_closed_notice, undecodable_binary_text, unparsed_text};
use fanuc_web::packets::{InstructionKind, InstructionResponseSummary};

fn config(id: i64, name: &str) -> RobotConfigurationDto {
    RobotConfigurationDto {
        id,
        robot_connection_id: 1,
        name: name.to_string(),
        is_default: false,
        u_frame_number: 0,
        u_tool_number: 1,
        front: 1,
        up: 1,
        left: 0,
        flip: 0,
        turn4: 0,
        turn5: 0,
        turn6: 0,
    }
}

fn io_cfg(t: &str, i: i32, name: &str) -> IoDisplayConfigDto {
    IoDisplayConfigDto {
        io_type: t.to_string(),
        io_index: i,
        display_name: Some(name.to_string()),
        is_visible: true,
        display_order: None,
    }
}

#[test]
fn new_state_is_empty() {
    let s = ClientState::new();
    assert!(!s.connected && !s.robot_connected && !s.has_control);
    assert_eq!(s.robot_addr, "127.0.0.1:16001");
    assert!(s.motion_log.is_empty() && s.console_messages.is_empty());
}

#[test]
fn success_clears_error() {
    let mut s = ClientState::new();
    s.apply(ServerEvent::Error { message: "boom".to_string() });
    assert_eq!(s.api_error.as_deref(), Some("boom"));
    assert_eq!(s.api_message.as_deref(), Some("Error: boom"));
    s.apply(ServerEvent::Success { message: "saved".to_string() });
    assert_eq!(s.api_error, None);
    assert_eq!(s.api_message.as_deref(), Some("saved"));
}

#[test]
fn execution_lifecycle() {
    let mut s = ClientState::new();
    s.apply(ServerEvent::ExecutionStateChanged {
        state: "loaded".to_string(),
        program_id: Some(3),
        current_line: Some(0),
        total_lines: Some(12),
        message: Some("Program loaded".to_string()),
    });
    assert_eq!(s.loaded_program_id, Some(3));
    assert!(!s.program_running);
    assert_eq!(s.program_progress, Some((0, 12)));
    assert_eq!(s.executing_line, Some(0));
    assert_eq!(s.api_message.as_deref(), Some("Program loaded"));
    s.apply(ServerEvent::ExecutionStarted { program_id: 3, total_lines: 12 });
    assert!(s.program_running);
    s.apply(ServerEvent::InstructionSent { current_line: 4, total_lines: 12 });
    s.apply(ServerEvent::InstructionProgress { current_line: 3, total_lines: 12 });
    assert_eq!(s.executing_line, Some(4));
    assert_eq!(s.program_progress, Some((3, 12)));
    s.apply(ServerEvent::ExecutionStateChanged {
        state: "paused".to_string(),
        program_id: Some(3),
        current_line: None,
        total_lines: None,
        message: None,
    });
    assert!(s.program_running && s.program_paused);
    assert_eq!(s.program_progress, Some((3, 12)));
    s.apply(ServerEvent::ExecutionStateChanged {
        state: "error".to_string(),
        program_id: Some(3),
        current_line: None,
        total_lines: None,
        message: Some("motion fault".to_string()),
    });
    assert!(!s.program_running && !s.program_paused);
    assert_eq!(s.program_progress, None);
    assert_eq!(s.executing_line, None);
    assert_eq!(s.api_error.as_deref(), Some("motion fault"));
    s.apply(ServerEvent::ExecutionStateChanged {
        state: "warming".to_string(),
        program_id: None,
        current_line: Some(1),
        total_lines: Some(2),
        message: None,
    });
    assert_eq!(s.loaded_program_id, None);
    assert_eq!(s.program_progress, None);
}

#[test]
fn program_complete_stops_running() {
    let mut s = ClientState::new();
    s.apply(ServerEvent::ExecutionStarted { program_id: 1, total_lines: 5 });
    s.apply(ServerEvent::ProgramComplete { program_id: 1, success: true, message: Some("Done".to_string()) });
    assert!(!s.program_running);
    assert_eq!(s.program_progress, None);
    assert_eq!(s.api_message.as_deref(), Some("Done"));
}

#[test]
fn connection_events() {
    let mut s = ClientState::new();
    s.begin_robot_connect();
    assert!(s.robot_connecting);
    s.apply(ServerEvent::RobotConnected {
        connection_id: 7,
        connection_name: "Cell A".to_string(),
        robot_addr: "10.0.0.5".to_string(),
        robot_port: 16001,
    });
    assert!(s.robot_connected && !s.robot_connecting);
    assert_eq!(s.robot_addr, "10.0.0.5:16001");
    assert_eq!(s.active_connection_id, Some(7));
    assert_eq!(s.api_message.as_deref(), Some("Connected to 'Cell A'"));
    s.apply(ServerEvent::ControlAcquired);
    assert!(s.has_control);
    s.apply(ServerEvent::RobotDisconnected { reason: "cable".to_string() });
    assert!(!s.robot_connected);
    assert!(s.has_control);
    assert_eq!(s.active_connection_id, None);
    assert_eq!(s.api_error.as_deref(), Some("Robot disconnected: cable"));
    s.apply(ServerEvent::ConnectionStatus {
        connected: true,
        robot_addr: "10.0.0.6".to_string(),
        robot_port: 2,
        connection_name: None,
        connection_id: Some(9),
        tp_program_initialized: true,
    });
    assert_eq!(s.robot_addr, "10.0.0.6:2");
    assert_eq!(s.active_connection_id, Some(9));
    assert!(s.tp_program_initialized);
    s.apply(ServerEvent::ConnectionStatus {
        connected: false,
        robot_addr: "10.0.0.6".to_string(),
        robot_port: 2,
        connection_name: Some("x".to_string()),
        connection_id: Some(9),
        tp_program_initialized: false,
    });
    assert_eq!(s.active_connection_id, None);
    assert_eq!(s.connected_robot_name, None);
}

#[test]
fn control_lock_events() {
    let mut s = ClientState::new();
    s.apply(ServerEvent::ControlAcquired);
    assert_eq!(s.api_message.as_deref(), Some("You now have control of the robot"));
    s.apply(ServerEvent::ControlDenied { holder_id: "u1".to_string(), reason: "busy".to_string() });
    assert!(!s.has_control);
    assert_eq!(s.api_error.as_deref(), Some("Control denied: busy"));
    s.apply(ServerEvent::ControlStatus { has_control: true, holder_id: None });
    assert!(s.has_control);
    s.apply(ServerEvent::ControlLost { reason: "timeout".to_string() });
    assert!(!s.has_control);
    assert_eq!(s.api_message.as_deref(), Some("Control lost: timeout"));
    s.apply(ServerEvent::ControlReleased);
    assert_eq!(s.api_message.as_deref(), Some("Control released"));
}

#[test]
fn robot_errors_and_command_results() {
    let mut s = ClientState::new();
    s.apply(ServerEvent::RobotError {
        error_type: "protocol".to_string(),
        message: "bad packet".to_string(),
        error_id: Some(-3),
        raw_data: Some("{x}".to_string()),
    });
    assert_eq!(s.error_log.last().unwrap(), "[protocol] bad packet (ErrorID: -3) | Raw: {x}");
    assert_eq!(s.api_error.as_deref(), Some("Robot error: bad packet | Raw: {x}"));
    s.clear_api_error();
    s.apply(ServerEvent::RobotError {
        error_type: "motion".to_string(),
        message: "limit".to_string(),
        error_id: None,
        raw_data: None,
    });
    assert_eq!(s.error_log.last().unwrap(), "[motion] limit");
    assert_eq!(s.api_error, None);
    s.apply(ServerEvent::RobotCommandResult { command: "Reset".to_string(), success: true, error_id: None, message: None });
    assert_eq!(s.motion_log.last().unwrap(), "✓ Reset completed");
    assert_eq!(s.api_message.as_deref(), Some("Reset completed"));
    s.apply(ServerEvent::RobotCommandResult {
        command: "Abort".to_string(),
        success: false,
        error_id: Some(12),
        message: None,
    });
    assert_eq!(s.motion_log.last().unwrap(), "✗ Abort failed (ErrorID: 12)");
    assert_eq!(s.api_error.as_deref(), Some("Abort failed (ErrorID: 12)"));
    s.apply(ServerEvent::RobotCommandResult {
        command: "Init".to_string(),
        success: false,
        error_id: Some(12),
        message: Some("no TP".to_string()),
    });
    assert_eq!(s.motion_log.last().unwrap(), "✗ Init failed: no TP");
    assert_eq!(s.api_error.as_deref(), Some("no TP"));
    for _ in 0..30 {
        s.apply(ServerEvent::RobotError { error_type: "x".to_string(), message: "m".to_string(), error_id: None, raw_data: None });
    }
    assert_eq!(s.error_log.len(), 20);
}

#[test]
fn instruction_responses_fill_logs() {
    let mut s = ClientState::new();
    for i in 0..60u32 {
        let r = InstructionResponseSummary { kind: InstructionKind::LinearRelative, sequence_id: i, error_id: 0 };
        s.apply_instruction_response(r, clock_from_parts(12, 0, 0, 0, i as u64));
    }
    assert_eq!(s.motion_log.len(), 50);
    assert_eq!(s.motion_log[49], "✓ Linear move completed (Seq:59)");
    assert_eq!(s.console_messages.len(), 60);
    let r = InstructionResponseSummary { kind: InstructionKind::JointMotion, sequence_id: 61, error_id: 9 };
    s.apply_instruction_response(r, clock_from_parts(12, 0, 1, 0, 99));
    assert_eq!(s.error_log.last().unwrap(), "Motion error: Seq:61 Err:9");
    let last = s.console_messages.last().unwrap();
    assert_eq!(last.msg_type, MessageType::Error);
    assert_eq!(last.content, "FRC_JointMotion error_id=9");
    assert_eq!(last.sequence_id, Some(61));
    assert_eq!(last.timestamp, "12:00:01.000");
}

#[test]
fn io_values_and_configs() {
    let mut s = ClientState::new();
    s.apply(ServerEvent::DinValue { port_number: 1, port_value: true });
    s.apply(ServerEvent::DinBatch { values: vec![(2, true), (1, false), (2, false)] });
    assert_eq!(s.din_values.get(&1), Some(&false));
    assert_eq!(s.din_values.get(&2), Some(&false));
    s.apply(ServerEvent::GinValue { port_number: 3, port_value: 17 });
    s.apply(ServerEvent::DoutValue { port_number: 4, port_value: true });
    s.apply(ServerEvent::GoutValue { port_number: 5, port_value: 2 });
    s.update_dout_cache(6, true);
    assert_eq!(s.gin_values.get(&3), Some(&17));
    assert_eq!(s.dout_values.len(), 2);
    s.clear_io_cache();
    assert!(s.din_values.is_empty() && s.dout_values.is_empty() && s.gin_values.is_empty() && s.gout_values.is_empty());
    s.apply(ServerEvent::IoConfig { configs: vec![io_cfg("DIN", 1, "a"), io_cfg("DOUT", 1, "b"), io_cfg("DIN", 1, "c")] });
    assert_eq!(io_config_for(&s.io_configs, "DIN", 1).unwrap().display_name.as_deref(), Some("c"));
    assert_eq!(io_config_for(&s.io_configs, "DOUT", 1).unwrap().display_name.as_deref(), Some("b"));
    assert!(io_config_for(&s.io_configs, "DIN", 2).is_none());
}

#[test]
fn configuration_list_updates() {
    let mut s = ClientState::new();
    s.apply(ServerEvent::RobotConfigurationList { configurations: vec![config(1, "a"), config(2, "b")] });
    s.apply(ServerEvent::RobotConfigurationResponse { configuration: config(2, "b2") });
    assert_eq!(s.robot_configurations.len(), 2);
    assert_eq!(s.robot_configurations[1].name, "b2");
    s.apply(ServerEvent::RobotConfigurationResponse { configuration: config(3, "c") });
    assert_eq!(s.robot_configurations.len(), 3);
    assert_eq!(s.robot_configurations[2].name, "c");
    let mut v = vec![config(5, "x"), config(5, "y")];
    upsert_configuration(&mut v, config(5, "z"));
    assert_eq!(v[0].name, "z");
    assert_eq!(v[1].name, "y");
}

#[test]
fn active_connection_lookup() {
    let ids = vec![4i64, 7, 7];
    assert_eq!(position_of_id(&ids, Some(7)), Some(1));
    assert_eq!(position_of_id(&ids, Some(8)), None);
    assert_eq!(position_of_id(&ids, None), None);
}

#[test]
fn socket_lifecycle() {
    let mut s = ClientState::new();
    s.on_socket_open();
    assert!(s.connected);
    s.apply(ServerEvent::ControlAcquired);
    s.apply(ServerEvent::RobotConnected {
        connection_id: 1,
        connection_name: "c".to_string(),
        robot_addr: "h".to_string(),
        robot_port: 1,
    });
    s.apply_status_poll(0, RobotStatusData { servo_ready: 1, tp_mode: 0, motion_status: 0, speed_override: 50 });
    assert!(s.status.is_some());
    s.on_socket_closed(1006, "");
    assert!(!s.connected && !s.robot_connected && !s.has_control && s.status.is_none());
    assert_eq!(s.api_error.as_deref(), Some("WebSocket connection lost - server may be down"));
    assert_eq!(socket_closed_notice(1000, "bye"), "WebSocket connection closed normally");
    assert_eq!(socket_closed_notice(4001, "kicked"), "WebSocket disconnected: kicked (code 4001)");
    s.begin_reconnect();
    assert!(s.ws_connecting && !s.connected);
    s.on_socket_error();
    assert_eq!(s.api_error.as_deref(), Some("WebSocket connection error"));
}

#[test]
fn status_poll_with_error_is_ignored() {
    let mut s = ClientState::new();
    s.apply_status_poll(3, RobotStatusData { servo_ready: 1, tp_mode: 0, motion_status: 0, speed_override: 50 });
    assert!(s.status.is_none());
}

#[test]
fn unreadable_messages_are_logged() {
    assert_eq!(hex_dump(&[0x0a, 0xff, 0x00]), "0a ff 00");
    let long: Vec<u8> = (0..70u8).collect();
    let d = hex_dump(&long);
    assert!(d.ends_with("3f... (70 bytes total)"));
    assert!(d.starts_with("00 01 02"));
    assert_eq!(undecodable_binary_text(&[1]), "Failed to deserialize binary response. Hex: 01");
    assert_eq!(unparsed_text("{}"), "Failed to parse JSON response. Raw data: {}");
    let mut s = ClientState::new();
    s.log_unreadable(unparsed_text("nope"), clock_from_parts(1, 1, 1, 1, 1));
    assert_eq!(s.console_messages.len(), 1);
    assert_eq!(s.console_messages[0].msg_type, MessageType::Error);
}

#[test]
fn notices_and_status_reports() {
    let mut s = ClientState::new();
    s.apply(ServerEvent::RobotConnectionCreated { id: 2, connection_name: "Cell B".to_string() });
    assert_eq!(s.api_message.as_deref(), Some("Robot 'Cell B' created successfully"));
    s.apply(ServerEvent::ExecutionStatus {
        status: "running".to_string(),
        current_line: Some(2),
        total_lines: Some(4),
        error: None,
    });
    let st: &ExecutionStatusData = s.execution_status.as_ref().unwrap();
    assert_eq!(st.status, "running");
    s.apply(ServerEvent::ActiveFrameTool { uframe: 2, utool: 3 });
    assert_eq!(s.active_frame_tool, Some((2, 3)));
    s.set_message("hi".to_string());
    assert_eq!(s.api_message.as_deref(), Some("hi"));
    s.clear_api_message();
    assert_eq!(s.api_message, None);
    s.set_active_connection(Some(4));
    assert_eq!(s.active_connection_id, Some(4));
}

#[test]
fn din_batch_last_entry_wins() {
    let mut s = ClientState::new();
    s.apply(ServerEvent::DinValue { port_number: 9, port_value: true });
    s.apply(ServerEvent::DinBatch { values: vec![(1, true), (2, false), (1, false)] });
    assert_eq!(s.din_values.get(&1), Some(&false));
    assert_eq!(s.din_values.get(&2), Some(&false));
    assert_eq!(s.din_values.get(&9), Some(&true));
    assert_eq!(s.din_values.get(&3), None);
    s.apply(ServerEvent::GoutValue { port_number: 4, port_value: 77 });
    assert_eq!(s.gout_values.get(&4), Some(&77));
}
