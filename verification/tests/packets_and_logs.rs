use fanuc_web::composer::{
    arm_configuration, clamp_override, push_recent, recent_commands_prompt, recent_frame_tool, replay_plan,
    term_type_from_name, ActiveConfigurationNumbers, ArmConfiguration, InstructionType, TermType,
};
use fanuc_web::client::ClientState;
use fanuc_web::console::{
    clock_from_parts, direction_icon, format_clock, newest_entries, push_bounded, sequence_label, timestamp_label,
    MessageDirection, MessageType,
};
use fanuc_web::packets::{
    format_instruction_response, is_polling_command, motion_error_line, packet_info, response_console_text,
    response_ids, sent_packet_log_entry, CommandKind, CommunicationKind, InstructionKind,
    InstructionResponseSummary, PacketSummary,
};

#[test]
fn packet_names_and_sequence_ids() {
    assert_eq!(
        packet_info(&PacketSummary::Communication(CommunicationKind::Connect)),
        ("FRC_Connect".to_string(), None)
    );
    assert_eq!(
        packet_info(&PacketSummary::Command(CommandKind::SetOverRide)),
        ("FRC_SetOverRide".to_string(), None)
    );
    assert_eq!(
        packet_info(&PacketSummary::Instruction(InstructionKind::LinearRelative, 42)),
        ("FRC_LinearRelative".to_string(), Some(42))
    );
    assert_eq!(packet_info(&PacketSummary::DriverCommand), ("DriverCommand".to_string(), None));
}

#[test]
fn polling_commands_are_not_logged() {
    for n in ["FRC_GetStatus", "FRC_ReadCartesianPosition", "FRC_ReadJointAngles", "FRC_ReadDIN", "FRC_ReadAIN", "FRC_ReadGIN"] {
        assert!(is_polling_command(n));
    }
    assert!(!is_polling_command("FRC_WriteDOUT"));
    assert!(!is_polling_command("FRC_ReadTCPSpeed"));
    assert_eq!(sent_packet_log_entry(&PacketSummary::Command(CommandKind::GetStatus)), None);
    assert_eq!(
        sent_packet_log_entry(&PacketSummary::Command(CommandKind::Abort)),
        Some(("FRC_Abort".to_string(), None))
    );
    assert_eq!(
        sent_packet_log_entry(&PacketSummary::Instruction(InstructionKind::WaitTime, 3)),
        Some(("FRC_WaitTime".to_string(), Some(3)))
    );
}

#[test]
fn instruction_response_ids() {
    let r = InstructionResponseSummary { kind: InstructionKind::JointMotion, sequence_id: 12, error_id: 0 };
    assert_eq!(response_ids(&r), (12, 0));
    let r = InstructionResponseSummary { kind: InstructionKind::Call, sequence_id: 12, error_id: 5 };
    assert_eq!(response_ids(&r), (0, 0));
}

#[test]
fn instruction_response_texts() {
    assert_eq!(format_instruction_response(InstructionKind::LinearRelative, 7), "✓ Linear move completed (Seq:7)");
    assert_eq!(format_instruction_response(InstructionKind::JointMotion, 8), "✓ Joint move completed (Seq:8)");
    assert_eq!(format_instruction_response(InstructionKind::WaitTime, 9), "✓ Wait completed (Seq:9)");
    assert_eq!(format_instruction_response(InstructionKind::LinearMotion, 10), "✓ Motion completed (Seq:10)");
    let ok = InstructionResponseSummary { kind: InstructionKind::LinearMotion, sequence_id: 4, error_id: 0 };
    assert_eq!(response_console_text(&ok), "FRC_LinearMotion completed");
    let bad = InstructionResponseSummary { kind: InstructionKind::LinearMotion, sequence_id: 4, error_id: 2556 };
    assert_eq!(response_console_text(&bad), "FRC_LinearMotion error_id=2556");
    assert_eq!(motion_error_line(4, 2556), "Motion error: Seq:4 Err:2556");
}

#[test]
fn clock_text() {
    assert_eq!(format_clock(9, 5, 3, 7), "09:05:03.007");
    assert_eq!(format_clock(23, 59, 59, 999), "23:59:59.999");
    assert_eq!(format_clock(123, 0, 0, 1000), "123:00:00.1000");
    let c = clock_from_parts(1, 2, 3, 4, 1700000000000);
    assert_eq!(c.timestamp, "01:02:03.004");
    assert_eq!(c.timestamp_ms, 1700000000000);
}

#[test]
fn bounded_log_keeps_latest() {
    let mut log: Vec<u32> = Vec::new();
    for i in 0..5 {
        push_bounded(&mut log, i, 3);
    }
    assert_eq!(log, vec![2, 3, 4]);
    let mut log: Vec<u32> = vec![1];
    push_bounded(&mut log, 2, 3);
    assert_eq!(log, vec![1, 2]);
}

#[test]
fn console_keeps_one_hundred_messages() {
    let mut state = ClientState::new();
    for i in 0..105u32 {
        state.log_command_sent(clock_from_parts(0, 0, 0, 0, i as u64), "FRC_Abort", Some(i));
    }
    assert_eq!(state.console_messages.len(), 100);
    assert_eq!(state.console_messages[0].sequence_id, Some(5));
    assert_eq!(state.console_messages[99].sequence_id, Some(104));
    state.log_response_received(clock_from_parts(0, 0, 0, 1, 1), "FRC_Abort", None, true);
    let last = state.console_messages.last().unwrap();
    assert_eq!(last.direction, MessageDirection::Received);
    assert_eq!(last.msg_type, MessageType::Error);
    state.log_response_received(clock_from_parts(0, 0, 0, 1, 1), "FRC_Abort", Some(3), false);
    assert_eq!(state.console_messages.last().unwrap().msg_type, MessageType::Response);
    state.log_system_message(clock_from_parts(0, 0, 0, 2, 2), "Connected");
    let last = state.console_messages.last().unwrap();
    assert_eq!(last.direction, MessageDirection::System);
    assert_eq!(last.msg_type, MessageType::Status);
    assert_eq!(last.content, "Connected");
    assert_eq!(last.timestamp, "00:00:00.002");
    assert_eq!(state.console_messages.len(), 100);
    state.clear_console_messages();
    assert!(state.console_messages.is_empty());
}

#[test]
fn sent_packets_are_logged_except_polls() {
    let mut state = ClientState::new();
    state.log_sent_packet(&PacketSummary::Command(CommandKind::GetStatus), clock_from_parts(1, 2, 3, 4, 5));
    state.log_sent_packet(&PacketSummary::Command(CommandKind::ReadDIN), clock_from_parts(1, 2, 3, 4, 5));
    assert!(state.console_messages.is_empty());
    state.log_sent_packet(&PacketSummary::Instruction(InstructionKind::LinearRelative, 12), clock_from_parts(1, 2, 3, 4, 5));
    state.log_sent_packet(&PacketSummary::Command(CommandKind::Abort), clock_from_parts(1, 2, 3, 5, 6));
    assert_eq!(state.console_messages.len(), 2);
    let first = &state.console_messages[0];
    assert_eq!(first.content, "FRC_LinearRelative");
    assert_eq!(first.sequence_id, Some(12));
    assert_eq!(first.direction, MessageDirection::Sent);
    assert_eq!(first.msg_type, MessageType::Command);
    assert_eq!(first.timestamp, "01:02:03.004");
    assert_eq!(state.console_messages[1].content, "FRC_Abort");
    assert_eq!(state.console_messages[1].sequence_id, None);
}

#[test]
fn composer_instruction_types() {
    assert_eq!(InstructionType::LinearAbsolute.label(), "Linear Absolute");
    assert_eq!(InstructionType::JointRelative.label(), "Joint Relative");
    assert!(InstructionType::LinearRelative.is_cartesian());
    assert!(!InstructionType::JointAbsolute.is_cartesian());
    assert!(InstructionType::JointAbsolute.is_absolute());
    assert!(!InstructionType::LinearRelative.is_absolute());
    assert_eq!(InstructionType::from_select_value("JointAbsolute"), InstructionType::JointAbsolute);
    assert_eq!(InstructionType::from_select_value("bogus"), InstructionType::LinearRelative);
    assert_eq!(InstructionType::LinearAbsolute.instruction_kind(), InstructionKind::LinearMotion);
    assert_eq!(InstructionType::JointRelative.instruction_kind(), InstructionKind::JointRelativeJRep);
}

#[test]
fn composer_terms_and_replay() {
    assert_eq!(term_type_from_name("FINE"), TermType::Fine);
    assert_eq!(term_type_from_name("CNT"), TermType::Cnt);
    assert_eq!(term_type_from_name("fine"), TermType::Cnt);
    assert_eq!(replay_plan("linear_abs", "FINE"), (InstructionKind::LinearMotion, TermType::Fine, 0));
    assert_eq!(replay_plan("joint", "CNT"), (InstructionKind::JointMotion, TermType::Cnt, 100));
    assert_eq!(replay_plan("linear_rel", "CNT"), (InstructionKind::LinearRelative, TermType::Cnt, 100));
    assert_eq!(replay_plan("other", "FINE"), (InstructionKind::LinearRelative, TermType::Fine, 0));
}

#[test]
fn composer_arm_configuration() {
    assert_eq!(
        arm_configuration(None),
        ArmConfiguration {
            u_tool_number: 1,
            u_frame_number: 0,
            front: 1,
            up: 1,
            left: 0,
            flip: 0,
            turn4: 0,
            turn5: 0,
            turn6: 0
        }
    );
    let n = ActiveConfigurationNumbers {
        u_frame_number: 3,
        u_tool_number: 2,
        front: 0,
        up: 1,
        left: 1,
        flip: 1,
        turn4: -1,
        turn5: 300,
        turn6: 0,
    };
    let c = arm_configuration(Some(n));
    assert_eq!((c.u_frame_number, c.u_tool_number, c.front, c.left, c.turn4), (3, 2, 0, 1, -1));
    assert_eq!(c.turn5, 300i32 as i8);
    assert_eq!(recent_frame_tool(Some(n)), (3, 2));
    assert_eq!(recent_frame_tool(None), (0, 1));
}

#[test]
fn composer_recent_commands() {
    let mut list: Vec<u32> = Vec::new();
    for i in 0..20 {
        push_recent(&mut list, i, 15);
    }
    assert_eq!(list.len(), 15);
    assert_eq!(list[0], 19);
    assert_eq!(list[14], 5);
    assert_eq!(recent_commands_prompt(0), "No recent commands - use Composer to create");
    assert_eq!(recent_commands_prompt(3), "Select from 3 recent commands...");
}

#[test]
fn quick_command_override() {
    assert_eq!(clamp_override(0), 0);
    assert_eq!(clamp_override(55), 55);
    assert_eq!(clamp_override(100), 100);
    assert_eq!(clamp_override(250), 100);
}

#[test]
fn console_row_labels() {
    assert_eq!(direction_icon(MessageDirection::Sent), "→");
    assert_eq!(direction_icon(MessageDirection::Received), "←");
    assert_eq!(direction_icon(MessageDirection::System), "•");
    assert_eq!(timestamp_label("12:00:01.005"), "[12:00:01.005]");
    assert_eq!(sequence_label(Some(42)), " seq=42");
    assert_eq!(sequence_label(None), "");
}

#[test]
fn log_panel_shows_newest_first() {
    let log: Vec<String> = (0..20).map(|i| format!("entry {}", i)).collect();
    let shown = newest_entries(&log, 15);
    assert_eq!(shown.len(), 15);
    assert_eq!(shown[0], "entry 19");
    assert_eq!(shown[14], "entry 5");
    let short = vec!["a".to_string(), "b".to_string()];
    assert_eq!(newest_entries(&short, 15), vec!["b".to_string(), "a".to_string()]);
    assert!(newest_entries(&Vec::new(), 15).is_empty());
}
