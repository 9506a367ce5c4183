//! The state the client keeps from what the server and the robot send: the
//! WebSocket and robot connection, program execution and its progress, the
//! control lock, I/O values, saved configurations, the notices shown as
//! toasts, and the logs.
//!
//! Each message that arrives is an event; `ClientState::apply` takes the
//! state to the next one, as `next_view` states.

use vstd::prelude::*;
use vstd::string::*;
use std::collections::HashMap;
use crate::console::{bounded_push, push_bounded, ConsoleMessage, MessageDirection, MessageType, Clock, CONSOLE_CAPACITY};
use crate::dto::{IoDisplayConfigDto, ProgramInfo, RobotConfigurationDto, upsert_configuration, upserted};
use crate::messages::{
    command_completed, command_completed_spec, command_failed, command_failed_spec, command_result_line,
    command_result_line_spec, connected_notice, connected_notice_spec, created_notice, created_notice_spec,
    error_notice, error_notice_spec, is_critical_error_type, prefixed, prefixed_spec, robot_address,
    robot_address_spec, robot_error_line, robot_error_line_spec, robot_error_toast, robot_error_toast_spec,
    socket_closed_notice, socket_closed_notice_spec,
};
use crate::packets::{
    completion_line_spec, is_polling_name, packet_name_spec, packet_sequence_spec, sent_packet_log_entry,
    PacketSummary, format_instruction_response, motion_error_line, motion_error_line_spec,
    response_console_text, response_console_text_spec, response_ids, response_ids_spec,
    InstructionKind, InstructionResponseSummary,
};
use crate::text::str_equal;

verus! {

broadcast use vstd::std_specs::hash::group_hash_axioms;

/// Entries the motion log keeps of completed instructions.
pub const MOTION_LOG_CAPACITY: usize = 50;

/// Entries the error log keeps of failed instructions.
pub const MOTION_ERROR_CAPACITY: usize = 10;

/// Entries the logs keep of robot errors and command results.
pub const ROBOT_EVENT_CAPACITY: usize = 20;

/// The robot status from a status poll.
#[derive(Clone, Copy, Debug, PartialEq, Eq, Structural)]
pub struct RobotStatusData {
    pub servo_ready: i8,
    pub tp_mode: i8,
    pub motion_status: i8,
    pub speed_override: u32,
}

/// Execution status data for progress display.
#[derive(Debug)]
pub struct ExecutionStatusData {
    pub status: String,
    pub current_line: Option<usize>,
    pub total_lines: Option<usize>,
    pub error: Option<String>,
}

/// What the server sends, as far as the client state reads it.
#[derive(Debug)]
#[allow(inconsistent_fields)]
pub enum ServerEvent {
    Success { message: String },
    Error { message: String },
    Programs { programs: Vec<ProgramInfo> },
    ExecutionStatus {
        status: String,
        current_line: Option<usize>,
        total_lines: Option<usize>,
        error: Option<String>,
    },
    ExecutionStarted { program_id: i64, total_lines: usize },
    ProgramComplete { program_id: i64, success: bool, message: Option<String> },
    InstructionProgress { current_line: usize, total_lines: usize },
    InstructionSent { current_line: usize, total_lines: usize },
    ConnectionStatus {
        connected: bool,
        robot_addr: String,
        robot_port: u32,
        connection_name: Option<String>,
        connection_id: Option<i64>,
        tp_program_initialized: bool,
    },
    RobotConnected { connection_id: i64, connection_name: String, robot_addr: String, robot_port: u32 },
    RobotDisconnected { reason: String },
    RobotError { error_type: String, message: String, error_id: Option<i32>, raw_data: Option<String> },
    RobotCommandResult { command: String, success: bool, error_id: Option<i32>, message: Option<String> },
    ExecutionStateChanged {
        state: String,
        program_id: Option<i64>,
        current_line: Option<usize>,
        total_lines: Option<usize>,
        message: Option<String>,
    },
    RobotConnectionCreated { id: i64, connection_name: String },
    ActiveFrameTool { uframe: u8, utool: u8 },
    DinValue { port_number: u16, port_value: bool },
    DinBatch { values: Vec<(u16, bool)> },
    GinValue { port_number: u16, port_value: u32 },
    DoutValue { port_number: u16, port_value: bool },
    GoutValue { port_number: u16, port_value: u32 },
    IoConfig { configs: Vec<IoDisplayConfigDto> },
    ControlAcquired,
    ControlReleased,
    ControlDenied { holder_id: String, reason: String },
    ControlLost { reason: String },
    ControlChanged { holder_id: Option<String> },
    ControlStatus { has_control: bool, holder_id: Option<String> },
    RobotConfigurationList { configurations: Vec<RobotConfigurationDto> },
    RobotConfigurationResponse { configuration: RobotConfigurationDto },
}

/// The client's state.
pub struct ClientState {
    /// The WebSocket to the server is open.
    pub connected: bool,
    /// The WebSocket is being opened.
    pub ws_connecting: bool,
    /// Notice for a toast.
    pub api_message: Option<String>,
    /// Error for a toast.
    pub api_error: Option<String>,
    /// Latest execution status report.
    pub execution_status: Option<ExecutionStatusData>,
    /// A program is executing (also while paused).
    pub program_running: bool,
    /// The executing program is paused.
    pub program_paused: bool,
    /// The program loaded in the executor.
    pub loaded_program_id: Option<i64>,
    /// (completed line, total lines) of the executing program.
    pub program_progress: Option<(usize, usize)>,
    /// The line being executed.
    pub executing_line: Option<usize>,
    /// The server is connected to a robot.
    pub robot_connected: bool,
    /// A robot connection is being made.
    pub robot_connecting: bool,
    /// `address:port` of the robot.
    pub robot_addr: String,
    /// Name of the saved connection in use.
    pub connected_robot_name: Option<String>,
    /// The TP program is ready for motion commands.
    pub tp_program_initialized: bool,
    /// The saved connection in use or selected.
    pub active_connection_id: Option<i64>,
    /// This client holds control of the robot.
    pub has_control: bool,
    /// Active user frame and tool.
    pub active_frame_tool: Option<(u8, u8)>,
    /// Latest robot status poll.
    pub status: Option<RobotStatusData>,
    /// Completed motions and command results.
    pub motion_log: Vec<String>,
    /// Failed motions and robot errors.
    pub error_log: Vec<String>,
    /// Chronological console of sent and received messages.
    pub console_messages: Vec<ConsoleMessage>,
    /// Programs listed by the server.
    pub programs: Vec<ProgramInfo>,
    /// Saved configurations of the robot.
    pub robot_configurations: Vec<RobotConfigurationDto>,
    /// I/O display configuration, in the order received.
    pub io_configs: Vec<IoDisplayConfigDto>,
    /// Digital input values by port.
    pub din_values: HashMap<u16, bool>,
    /// Digital output values by port.
    pub dout_values: HashMap<u16, bool>,
    /// Group input values by port.
    pub gin_values: HashMap<u16, u32>,
    /// Group output values by port.
    pub gout_values: HashMap<u16, u32>,
}

/// A console message with its texts as character sequences.
pub struct ConsoleEntry {
    pub timestamp: Seq<char>,
    pub timestamp_ms: u64,
    pub direction: MessageDirection,
    pub msg_type: MessageType,
    pub content: Seq<char>,
    pub sequence_id: Option<u32>,
}

/// The view of a console message.
pub open spec fn console_entry(m: ConsoleMessage) -> ConsoleEntry {
    ConsoleEntry {
        timestamp: m.timestamp@,
        timestamp_ms: m.timestamp_ms,
        direction: m.direction,
        msg_type: m.msg_type,
        content: m.content@,
        sequence_id: m.sequence_id,
    }
}

/// The view of an execution status report.
pub struct ExecutionStatusView {
    pub status: Seq<char>,
    pub current_line: Option<usize>,
    pub total_lines: Option<usize>,
    pub error: Option<Seq<char>>,
}

/// The view of an optional string.
pub open spec fn opt_str(o: Option<String>) -> Option<Seq<char>> {
    match o {
        Some(s) => Some(s@),
        None => None,
    }
}

/// The view of a list of strings.
pub open spec fn strs(v: Seq<String>) -> Seq<Seq<char>> {
    v.map_values(|s: String| s@)
}

/// The view of an optional execution status report.
pub open spec fn exec_status_view(o: Option<ExecutionStatusData>) -> Option<ExecutionStatusView> {
    match o {
        Some(d) => Some(
            ExecutionStatusView {
                status: d.status@,
                current_line: d.current_line,
                total_lines: d.total_lines,
                error: opt_str(d.error),
            },
        ),
        None => None,
    }
}

/// The client's state as values.
pub struct ClientView {
    pub connected: bool,
    pub ws_connecting: bool,
    pub api_message: Option<Seq<char>>,
    pub api_error: Option<Seq<char>>,
    pub execution_status: Option<ExecutionStatusView>,
    pub program_running: bool,
    pub program_paused: bool,
    pub loaded_program_id: Option<i64>,
    pub program_progress: Option<(usize, usize)>,
    pub executing_line: Option<usize>,
    pub robot_connected: bool,
    pub robot_connecting: bool,
    pub robot_addr: Seq<char>,
    pub connected_robot_name: Option<Seq<char>>,
    pub tp_program_initialized: bool,
    pub active_connection_id: Option<i64>,
    pub has_control: bool,
    pub active_frame_tool: Option<(u8, u8)>,
    pub status: Option<RobotStatusData>,
    pub motion_log: Seq<Seq<char>>,
    pub error_log: Seq<Seq<char>>,
    pub console: Seq<ConsoleEntry>,
    pub programs: Seq<ProgramInfo>,
    pub robot_configurations: Seq<RobotConfigurationDto>,
    pub io_configs: Seq<IoDisplayConfigDto>,
    pub din_values: Map<u16, bool>,
    pub dout_values: Map<u16, bool>,
    pub gin_values: Map<u16, u32>,
    pub gout_values: Map<u16, u32>,
}

impl View for ClientState {
    type V = ClientView;

    open spec fn view(&self) -> ClientView {
        ClientView {
            connected: self.connected,
            ws_connecting: self.ws_connecting,
            api_message: opt_str(self.api_message),
            api_error: opt_str(self.api_error),
            execution_status: exec_status_view(self.execution_status),
            program_running: self.program_running,
            program_paused: self.program_paused,
            loaded_program_id: self.loaded_program_id,
            program_progress: self.program_progress,
            executing_line: self.executing_line,
            robot_connected: self.robot_connected,
            robot_connecting: self.robot_connecting,
            robot_addr: self.robot_addr@,
            connected_robot_name: opt_str(self.connected_robot_name),
            tp_program_initialized: self.tp_program_initialized,
            active_connection_id: self.active_connection_id,
            has_control: self.has_control,
            active_frame_tool: self.active_frame_tool,
            status: self.status,
            motion_log: strs(self.motion_log@),
            error_log: strs(self.error_log@),
            console: self.console_messages@.map_values(|m: ConsoleMessage| console_entry(m)),
            programs: self.programs@,
            robot_configurations: self.robot_configurations@,
            io_configs: self.io_configs@,
            din_values: self.din_values@,
            dout_values: self.dout_values@,
            gin_values: self.gin_values@,
            gout_values: self.gout_values@,
        }
    }
}

/// A map after a batch of values is entered in order.
pub open spec fn insert_all<V>(m: Map<u16, V>, values: Seq<(u16, V)>) -> Map<u16, V>
    decreases values.len(),
{
    if values.len() == 0 {
        m
    } else {
        insert_all(m, values.drop_last()).insert(values.last().0, values.last().1)
    }
}

/// The progress to record, when a state change carries both the current and
/// the total line; otherwise the progress stays.
pub open spec fn progress_if_both(
    old: Option<(usize, usize)>,
    current_line: Option<usize>,
    total_lines: Option<usize>,
) -> Option<(usize, usize)> {
    match (current_line, total_lines) {
        (Some(l), Some(t)) => Some((l, t)),
        _ => old,
    }
}

/// A notice that replaces the current one only when there is a new one.
pub open spec fn notice_if_some(old: Option<Seq<char>>, new: Option<Seq<char>>) -> Option<Seq<char>> {
    match new {
        Some(m) => Some(m),
        None => old,
    }
}

/// The state after an execution state change broadcast by the server.
pub open spec fn after_execution_state(
    v: ClientView,
    state: Seq<char>,
    program_id: Option<i64>,
    current_line: Option<usize>,
    total_lines: Option<usize>,
    message: Option<Seq<char>>,
) -> ClientView {
    let v = ClientView { loaded_program_id: program_id, ..v };
    if state == "loaded"@ {
        ClientView {
            program_running: false,
            program_paused: false,
            program_progress: progress_if_both(v.program_progress, current_line, total_lines),
            executing_line: Some(0),
            api_message: notice_if_some(v.api_message, message),
            ..v
        }
    } else if state == "running"@ {
        ClientView {
            program_running: true,
            program_paused: false,
            program_progress: progress_if_both(v.program_progress, current_line, total_lines),
            ..v
        }
    } else if state == "paused"@ {
        ClientView {
            program_running: true,
            program_paused: true,
            program_progress: progress_if_both(v.program_progress, current_line, total_lines),
            api_message: notice_if_some(v.api_message, message),
            ..v
        }
    } else if state == "idle"@ || state == "completed"@ || state == "stopping"@ {
        ClientView {
            program_running: false,
            program_paused: false,
            program_progress: None,
            executing_line: None,
            api_message: notice_if_some(v.api_message, message),
            ..v
        }
    } else if state == "error"@ {
        ClientView {
            program_running: false,
            program_paused: false,
            program_progress: None,
            executing_line: None,
            api_error: notice_if_some(v.api_error, message),
            ..v
        }
    } else {
        v
    }
}

/// The state after the server reported the robot connection status.
pub open spec fn after_connection_status(
    v: ClientView,
    connected: bool,
    robot_addr: Seq<char>,
    robot_port: u32,
    connection_name: Option<Seq<char>>,
    connection_id: Option<i64>,
    tp_program_initialized: bool,
) -> ClientView {
    let v = ClientView {
        robot_connected: connected,
        robot_addr: robot_address_spec(robot_addr, robot_port),
        tp_program_initialized,
        ..v
    };
    if connected {
        ClientView {
            connected_robot_name: match connection_name {
                Some(n) => Some(n),
                None => v.connected_robot_name,
            },
            active_connection_id: match connection_id {
                Some(i) => Some(i),
                None => v.active_connection_id,
            },
            ..v
        }
    } else {
        ClientView { connected_robot_name: None, active_connection_id: None, ..v }
    }
}

/// The state after a robot error report.
pub open spec fn after_robot_error(
    v: ClientView,
    error_type: Seq<char>,
    message: Seq<char>,
    error_id: Option<i32>,
    raw: Option<Seq<char>>,
) -> ClientView {
    let v = ClientView {
        error_log: bounded_push(
            v.error_log,
            robot_error_line_spec(error_type, message, error_id, raw),
            ROBOT_EVENT_CAPACITY as nat,
        ),
        ..v
    };
    if is_critical_error_type(error_type) {
        ClientView { api_error: Some(robot_error_toast_spec(message, raw)), ..v }
    } else {
        v
    }
}

/// The state after the result of a robot command.
pub open spec fn after_command_result(
    v: ClientView,
    command: Seq<char>,
    success: bool,
    error_id: Option<i32>,
    message: Option<Seq<char>>,
) -> ClientView {
    let v = ClientView {
        motion_log: bounded_push(
            v.motion_log,
            command_result_line_spec(command, success, error_id, message),
            ROBOT_EVENT_CAPACITY as nat,
        ),
        ..v
    };
    if success {
        ClientView { api_message: Some(command_completed_spec(command)), ..v }
    } else {
        ClientView {
            api_error: Some(
                match message {
                    Some(m) => m,
                    None => command_failed_spec(command, error_id),
                },
            ),
            ..v
        }
    }
}

/// The state after a server event.
pub open spec fn next_view(v: ClientView, ev: ServerEvent) -> ClientView {
    match ev {
        ServerEvent::Success { message } => ClientView { api_message: Some(message@), api_error: None, ..v },
        ServerEvent::Error { message } => ClientView {
            api_message: Some(error_notice_spec(message@)),
            api_error: Some(message@),
            robot_connecting: false,
            ..v
        },
        ServerEvent::Programs { programs } => ClientView { programs: programs@, ..v },
        ServerEvent::ExecutionStatus { status, current_line, total_lines, error } => ClientView {
            execution_status: Some(
                ExecutionStatusView { status: status@, current_line, total_lines, error: opt_str(error) },
            ),
            ..v
        },
        ServerEvent::ExecutionStarted { program_id, total_lines } => ClientView {
            program_running: true,
            program_progress: Some((0usize, total_lines)),
            ..v
        },
        ServerEvent::ProgramComplete { program_id, success, message } => ClientView {
            program_running: false,
            program_progress: None,
            executing_line: None,
            api_message: notice_if_some(v.api_message, opt_str(message)),
            ..v
        },
        ServerEvent::InstructionProgress { current_line, total_lines } => ClientView {
            program_progress: Some((current_line, total_lines)),
            ..v
        },
        ServerEvent::InstructionSent { current_line, total_lines } => ClientView {
            executing_line: Some(current_line),
            ..v
        },
        ServerEvent::ConnectionStatus {
            connected,
            robot_addr,
            robot_port,
            connection_name,
            connection_id,
            tp_program_initialized,
        } => after_connection_status(
            v,
            connected,
            robot_addr@,
            robot_port,
            opt_str(connection_name),
            connection_id,
            tp_program_initialized,
        ),
        ServerEvent::RobotConnected { connection_id, connection_name, robot_addr, robot_port } => ClientView {
            robot_connecting: false,
            robot_connected: true,
            robot_addr: robot_address_spec(robot_addr@, robot_port),
            active_connection_id: Some(connection_id),
            connected_robot_name: Some(connection_name@),
            api_message: Some(connected_notice_spec(connection_name@)),
            ..v
        },
        ServerEvent::RobotDisconnected { reason } => ClientView {
            robot_connected: false,
            robot_connecting: false,
            connected_robot_name: None,
            active_connection_id: None,
            status: None,
            api_error: Some(prefixed_spec("Robot disconnected: "@, reason@)),
            ..v
        },
        ServerEvent::RobotError { error_type, message, error_id, raw_data } => after_robot_error(
            v,
            error_type@,
            message@,
            error_id,
            opt_str(raw_data),
        ),
        ServerEvent::RobotCommandResult { command, success, error_id, message } => after_command_result(
            v,
            command@,
            success,
            error_id,
            opt_str(message),
        ),
        ServerEvent::ExecutionStateChanged { state, program_id, current_line, total_lines, message } =>
            after_execution_state(v, state@, program_id, current_line, total_lines, opt_str(message)),
        ServerEvent::RobotConnectionCreated { id, connection_name } => ClientView {
            api_message: Some(created_notice_spec(connection_name@)),
            ..v
        },
        ServerEvent::ActiveFrameTool { uframe, utool } => ClientView {
            active_frame_tool: Some((uframe, utool)),
            ..v
        },
        ServerEvent::DinValue { port_number, port_value } => ClientView {
            din_values: v.din_values.insert(port_number, port_value),
            ..v
        },
        ServerEvent::DinBatch { values } => ClientView { din_values: insert_all(v.din_values, values@), ..v },
        ServerEvent::GinValue { port_number, port_value } => ClientView {
            gin_values: v.gin_values.insert(port_number, port_value),
            ..v
        },
        ServerEvent::DoutValue { port_number, port_value } => ClientView {
            dout_values: v.dout_values.insert(port_number, port_value),
            ..v
        },
        ServerEvent::GoutValue { port_number, port_value } => ClientView {
            gout_values: v.gout_values.insert(port_number, port_value),
            ..v
        },
        ServerEvent::IoConfig { configs } => ClientView { io_configs: configs@, ..v },
        ServerEvent::ControlAcquired => ClientView {
            has_control: true,
            api_message: Some("You now have control of the robot"@),
            ..v
        },
        ServerEvent::ControlReleased => ClientView {
            has_control: false,
            api_message: Some("Control released"@),
            ..v
        },
        ServerEvent::ControlDenied { holder_id, reason } => ClientView {
            has_control: false,
            api_error: Some(prefixed_spec("Control denied: "@, reason@)),
            ..v
        },
        ServerEvent::ControlLost { reason } => ClientView {
            has_control: false,
            api_message: Some(prefixed_spec("Control lost: "@, reason@)),
            ..v
        },
        ServerEvent::ControlChanged { holder_id } => v,
        ServerEvent::ControlStatus { has_control, holder_id } => ClientView { has_control, ..v },
        ServerEvent::RobotConfigurationList { configurations } => ClientView {
            robot_configurations: configurations@,
            ..v
        },
        ServerEvent::RobotConfigurationResponse { configuration } => ClientView {
            robot_configurations: upserted(v.robot_configurations, configuration),
            ..v
        },
    }
}

/// The state after an instruction response from the robot: the console
/// records it (as an error when it reports one), then a failure goes to the
/// error log and a completion to the motion log.
pub open spec fn after_instruction_response(
    v: ClientView,
    r: InstructionResponseSummary,
    timestamp: Seq<char>,
    timestamp_ms: u64,
) -> ClientView {
    let (seq, err) = response_ids_spec(r);
    let entry = ConsoleEntry {
        timestamp,
        timestamp_ms,
        direction: MessageDirection::Received,
        msg_type: if err != 0 {
            MessageType::Error
        } else {
            MessageType::Response
        },
        content: response_console_text_spec(r),
        sequence_id: Some(seq),
    };
    let v = ClientView { console: bounded_push(v.console, entry, CONSOLE_CAPACITY as nat), ..v };
    if err != 0 {
        ClientView {
            error_log: bounded_push(v.error_log, motion_error_line_spec(seq, err), MOTION_ERROR_CAPACITY as nat),
            ..v
        }
    } else {
        ClientView {
            motion_log: bounded_push(v.motion_log, completion_line_spec(r.kind, seq), MOTION_LOG_CAPACITY as nat),
            ..v
        }
    }
}

/// The state after the WebSocket closed: neither the server nor the robot
/// is reachable, control is gone, the robot status is cleared and the
/// close is reported as an error.
pub open spec fn after_socket_closed(v: ClientView, code: u16, reason: Seq<char>) -> ClientView {
    ClientView {
        connected: false,
        robot_connected: false,
        has_control: false,
        status: None,
        api_error: Some(socket_closed_notice_spec(code, reason)),
        ..v
    }
}

/// A view of a list of strings after one is appended within a capacity.
proof fn lemma_strs_bounded_push(log: Seq<String>, s: String, cap: nat)
    ensures
        strs(bounded_push(log, s, cap)) == bounded_push(strs(log), s@, cap),
{
    assert(strs(bounded_push(log, s, cap)) =~= bounded_push(strs(log), s@, cap));
}

/// The console view after a message is appended within its capacity.
proof fn lemma_console_bounded_push(log: Seq<ConsoleMessage>, m: ConsoleMessage, cap: nat)
    ensures
        bounded_push(log, m, cap).map_values(|x: ConsoleMessage| console_entry(x)) == bounded_push(
            log.map_values(|x: ConsoleMessage| console_entry(x)),
            console_entry(m),
            cap,
        ),
{
    assert(bounded_push(log, m, cap).map_values(|x: ConsoleMessage| console_entry(x)) =~= bounded_push(
        log.map_values(|x: ConsoleMessage| console_entry(x)),
        console_entry(m),
        cap,
    ));
}

impl ClientState {
    /// The state before the WebSocket is opened: nothing known, the robot
    /// address at its local default.
    pub fn new() -> (r: ClientState)
        ensures
            !r@.connected,
            !r@.ws_connecting,
            r@.api_message is None,
            r@.api_error is None,
            r@.execution_status is None,
            !r@.program_running,
            !r@.program_paused,
            r@.loaded_program_id is None,
            r@.program_progress is None,
            r@.executing_line is None,
            !r@.robot_connected,
            !r@.robot_connecting,
            r@.robot_addr == "127.0.0.1:16001"@,
            r@.connected_robot_name is None,
            !r@.tp_program_initialized,
            r@.active_connection_id is None,
            !r@.has_control,
            r@.active_frame_tool is None,
            r@.status is None,
            r@.motion_log.len() == 0,
            r@.error_log.len() == 0,
            r@.console.len() == 0,
            r@.programs.len() == 0,
            r@.robot_configurations.len() == 0,
            r@.io_configs.len() == 0,
            r@.din_values == Map::<u16, bool>::empty(),
            r@.dout_values == Map::<u16, bool>::empty(),
            r@.gin_values == Map::<u16, u32>::empty(),
            r@.gout_values == Map::<u16, u32>::empty(),
    {
        ClientState {
            connected: false,
            ws_connecting: false,
            api_message: None,
            api_error: None,
            execution_status: None,
            program_running: false,
            program_paused: false,
            loaded_program_id: None,
            program_progress: None,
            executing_line: None,
            robot_connected: false,
            robot_connecting: false,
            robot_addr: String::from_str("127.0.0.1:16001"),
            connected_robot_name: None,
            tp_program_initialized: false,
            active_connection_id: None,
            has_control: false,
            active_frame_tool: None,
            status: None,
            motion_log: Vec::new(),
            error_log: Vec::new(),
            console_messages: Vec::new(),
            programs: Vec::new(),
            robot_configurations: Vec::new(),
            io_configs: Vec::new(),
            din_values: HashMap::new(),
            dout_values: HashMap::new(),
            gin_values: HashMap::new(),
            gout_values: HashMap::new(),
        }
    }

    /// Takes the state to the one after a server event.
    #[verifier::spinoff_prover]
    #[verifier::rlimit(60)]
    pub fn apply(&mut self, ev: ServerEvent)
        ensures
            final(self)@ == next_view(old(self)@, ev),
    {
        match ev {
            ServerEvent::Success { message } => {
                self.api_message = Some(message);
                self.api_error = None;
            },
            ServerEvent::Error { message } => {
                self.api_message = Some(error_notice(message.as_str()));
                self.api_error = Some(message);
                self.robot_connecting = false;
            },
            ServerEvent::Programs { programs } => {
                self.programs = programs;
            },
            ServerEvent::ExecutionStatus { status, current_line, total_lines, error } => {
                self.execution_status = Some(ExecutionStatusData { status, current_line, total_lines, error });
            },
            ServerEvent::ExecutionStarted { program_id, total_lines } => {
                self.program_running = true;
                self.program_progress = Some((0, total_lines));
            },
            ServerEvent::ProgramComplete { program_id, success, message } => {
                self.program_running = false;
                self.program_progress = None;
                self.executing_line = None;
                if let Some(m) = message {
                    self.api_message = Some(m);
                }
            },
            ServerEvent::InstructionProgress { current_line, total_lines } => {
                self.program_progress = Some((current_line, total_lines));
            },
            ServerEvent::InstructionSent { current_line, total_lines } => {
                self.executing_line = Some(current_line);
            },
            ServerEvent::ConnectionStatus {
                connected,
                robot_addr,
                robot_port,
                connection_name,
                connection_id,
                tp_program_initialized,
            } => {
                self.apply_connection_status(
                    connected,
                    robot_addr,
                    robot_port,
                    connection_name,
                    connection_id,
                    tp_program_initialized,
                );
            },
            ServerEvent::RobotConnected { connection_id, connection_name, robot_addr, robot_port } => {
                self.robot_connecting = false;
                self.robot_connected = true;
                self.robot_addr = robot_address(robot_addr.as_str(), robot_port);
                self.active_connection_id = Some(connection_id);
                self.api_message = Some(connected_notice(connection_name.as_str()));
                self.connected_robot_name = Some(connection_name);
            },
            ServerEvent::RobotDisconnected { reason } => {
                self.robot_connected = false;
                self.robot_connecting = false;
                self.connected_robot_name = None;
                self.active_connection_id = None;
                self.status = None;
                self.api_error = Some(prefixed("Robot disconnected: ", reason.as_str()));
            },
            ServerEvent::RobotError { error_type, message, error_id, raw_data } => {
                self.apply_robot_error(error_type, message, error_id, raw_data);
            },
            ServerEvent::RobotCommandResult { command, success, error_id, message } => {
                self.apply_command_result(command, success, error_id, message);
            },
            ServerEvent::ExecutionStateChanged { state, program_id, current_line, total_lines, message } => {
                self.apply_execution_state(state, program_id, current_line, total_lines, message);
            },
            ServerEvent::RobotConnectionCreated { id, connection_name } => {
                self.api_message = Some(created_notice(connection_name.as_str()));
            },
            ServerEvent::ActiveFrameTool { uframe, utool } => {
                self.active_frame_tool = Some((uframe, utool));
            },
            ServerEvent::DinValue { port_number, port_value } => {
                self.din_values.insert(port_number, port_value);
            },
            ServerEvent::DinBatch { values } => {
                self.apply_din_batch(values);
            },
            ServerEvent::GinValue { port_number, port_value } => {
                self.gin_values.insert(port_number, port_value);
            },
            ServerEvent::DoutValue { port_number, port_value } => {
                self.dout_values.insert(port_number, port_value);
            },
            ServerEvent::GoutValue { port_number, port_value } => {
                self.gout_values.insert(port_number, port_value);
            },
            ServerEvent::IoConfig { configs } => {
                self.io_configs = configs;
            },
            ServerEvent::ControlAcquired => {
                self.has_control = true;
                self.api_message = Some(String::from_str("You now have control of the robot"));
            },
            ServerEvent::ControlReleased => {
                self.has_control = false;
                self.api_message = Some(String::from_str("Control released"));
            },
            ServerEvent::ControlDenied { holder_id, reason } => {
                self.has_control = false;
                self.api_error = Some(prefixed("Control denied: ", reason.as_str()));
            },
            ServerEvent::ControlLost { reason } => {
                self.has_control = false;
                self.api_message = Some(prefixed("Control lost: ", reason.as_str()));
            },
            ServerEvent::ControlChanged { holder_id } => {},
            ServerEvent::ControlStatus { has_control, holder_id } => {
                self.has_control = has_control;
            },
            ServerEvent::RobotConfigurationList { configurations } => {
                self.robot_configurations = configurations;
            },
            ServerEvent::RobotConfigurationResponse { configuration } => {
                upsert_configuration(&mut self.robot_configurations, configuration);
            },
        }
    }

    fn apply_connection_status(
        &mut self,
        connected: bool,
        robot_addr: String,
        robot_port: u32,
        connection_name: Option<String>,
        connection_id: Option<i64>,
        tp_program_initialized: bool,
    )
        ensures
            final(self)@ == after_connection_status(
                old(self)@,
                connected,
                robot_addr@,
                robot_port,
                opt_str(connection_name),
                connection_id,
                tp_program_initialized,
            ),
    {
        self.robot_connected = connected;
        self.robot_addr = robot_address(robot_addr.as_str(), robot_port);
        self.tp_program_initialized = tp_program_initialized;
        if connected {
            if let Some(name) = connection_name {
                self.connected_robot_name = Some(name);
            }
            if let Some(id) = connection_id {
                self.active_connection_id = Some(id);
            }
        } else {
            self.connected_robot_name = None;
            self.active_connection_id = None;
        }
    }

    fn apply_robot_error(
        &mut self,
        error_type: String,
        message: String,
        error_id: Option<i32>,
        raw_data: Option<String>,
    )
        ensures
            final(self)@ == after_robot_error(
                old(self)@,
                error_type@,
                message@,
                error_id,
                opt_str(raw_data),
            ),
    {
        let line = robot_error_line(error_type.as_str(), message.as_str(), error_id, &raw_data);
        proof {
            lemma_strs_bounded_push(self.error_log@, line, ROBOT_EVENT_CAPACITY as nat);
        }
        push_bounded(&mut self.error_log, line, ROBOT_EVENT_CAPACITY);
        if str_equal(error_type.as_str(), "protocol") || str_equal(error_type.as_str(), "communication") {
            self.api_error = Some(robot_error_toast(message.as_str(), &raw_data));
        }
    }

    fn apply_command_result(
        &mut self,
        command: String,
        success: bool,
        error_id: Option<i32>,
        message: Option<String>,
    )
        ensures
            final(self)@ == after_command_result(old(self)@, command@, success, error_id, opt_str(message)),
    {
        let line = command_result_line(command.as_str(), success, error_id, &message);
        proof {
            lemma_strs_bounded_push(self.motion_log@, line, ROBOT_EVENT_CAPACITY as nat);
        }
        push_bounded(&mut self.motion_log, line, ROBOT_EVENT_CAPACITY);
        if !success {
            let err = match message {
                Some(m) => m,
                None => command_failed(command.as_str(), error_id),
            };
            self.api_error = Some(err);
        } else {
            self.api_message = Some(command_completed(command.as_str()));
        }
    }

    fn apply_execution_state(
        &mut self,
        state: String,
        program_id: Option<i64>,
        current_line: Option<usize>,
        total_lines: Option<usize>,
        message: Option<String>,
    )
        ensures
            final(self)@ == after_execution_state(
                old(self)@,
                state@,
                program_id,
                current_line,
                total_lines,
                opt_str(message),
            ),
    {
        self.loaded_program_id = program_id;
        let s = state.as_str();
        let both = match (current_line, total_lines) {
            (Some(l), Some(t)) => Some((l, t)),
            _ => None,
        };
        if str_equal(s, "loaded") {
            self.program_running = false;
            self.program_paused = false;
            if let Some(p) = both {
                self.program_progress = Some(p);
            }
            self.executing_line = Some(0);
            if let Some(m) = message {
                self.api_message = Some(m);
            }
        } else if str_equal(s, "running") {
            self.program_running = true;
            self.program_paused = false;
            if let Some(p) = both {
                self.program_progress = Some(p);
            }
        } else if str_equal(s, "paused") {
            self.program_running = true;
            self.program_paused = true;
            if let Some(p) = both {
                self.program_progress = Some(p);
            }
            if let Some(m) = message {
                self.api_message = Some(m);
            }
        } else if str_equal(s, "idle") || str_equal(s, "completed") || str_equal(s, "stopping") {
            self.program_running = false;
            self.program_paused = false;
            self.program_progress = None;
            self.executing_line = None;
            if let Some(m) = message {
                self.api_message = Some(m);
            }
        } else if str_equal(s, "error") {
            self.program_running = false;
            self.program_paused = false;
            self.program_progress = None;
            self.executing_line = None;
            if let Some(m) = message {
                self.api_error = Some(m);
            }
        }
    }

    fn apply_din_batch(&mut self, values: Vec<(u16, bool)>)
        ensures
            final(self)@ == (ClientView { din_values: insert_all(old(self)@.din_values, values@), ..old(self)@ }),
    {
        let mut i: usize = 0;
        while i < values.len()
            invariant
                i <= values.len(),
                self@ == (ClientView {
                    din_values: insert_all(old(self)@.din_values, values@.take(i as int)),
                    ..old(self)@
                }),
            decreases values.len() - i,
        {
            let (port, value) = values[i];
            assert(values@.take(i + 1).drop_last() =~= values@.take(i as int));
            self.din_values.insert(port, value);
            i = i + 1;
        }
        assert(values@.take(values.len() as int) =~= values@);
    }

    /// Records an instruction response from the robot, logged at `clock`.
    pub fn apply_instruction_response(&mut self, r: InstructionResponseSummary, clock: Clock)
        ensures
            final(self)@ == after_instruction_response(old(self)@, r, clock.timestamp@, clock.timestamp_ms),
    {
        let (seq, err) = response_ids(&r);
        let content = response_console_text(&r);
        let msg = ConsoleMessage {
            timestamp: clock.timestamp,
            timestamp_ms: clock.timestamp_ms,
            direction: MessageDirection::Received,
            msg_type: if err != 0 {
                MessageType::Error
            } else {
                MessageType::Response
            },
            content,
            sequence_id: Some(seq),
        };
        self.add_console_message(msg);
        if err != 0 {
            let line = motion_error_line(seq, err);
            proof {
                lemma_strs_bounded_push(self.error_log@, line, MOTION_ERROR_CAPACITY as nat);
            }
            push_bounded(&mut self.error_log, line, MOTION_ERROR_CAPACITY);
        } else {
            let line = format_instruction_response(r.kind, seq);
            proof {
                lemma_strs_bounded_push(self.motion_log@, line, MOTION_LOG_CAPACITY as nat);
            }
            push_bounded(&mut self.motion_log, line, MOTION_LOG_CAPACITY);
        }
    }

    /// Records a status poll; a poll that reports an error is ignored.
    pub fn apply_status_poll(&mut self, error_id: u32, status: RobotStatusData)
        ensures
            final(self)@ == (if error_id == 0 {
                ClientView { status: Some(status), ..old(self)@ }
            } else {
                old(self)@
            }),
    {
        if error_id == 0 {
            self.status = Some(status);
        }
    }

    /// Records a message received from the robot or server that could not
    /// be read, in the console.
    pub fn log_unreadable(&mut self, content: String, clock: Clock)
        ensures
            final(self)@ == (ClientView {
                console: bounded_push(
                    old(self)@.console,
                    ConsoleEntry {
                        timestamp: clock.timestamp@,
                        timestamp_ms: clock.timestamp_ms,
                        direction: MessageDirection::Received,
                        msg_type: MessageType::Error,
                        content: content@,
                        sequence_id: None,
                    },
                    CONSOLE_CAPACITY as nat,
                ),
                ..old(self)@
            }),
    {
        let msg = ConsoleMessage {
            timestamp: clock.timestamp,
            timestamp_ms: clock.timestamp_ms,
            direction: MessageDirection::Received,
            msg_type: MessageType::Error,
            content,
            sequence_id: None,
        };
        self.add_console_message(msg);
    }

    /// The WebSocket opened.
    pub fn on_socket_open(&mut self)
        ensures
            final(self)@ == (ClientView { connected: true, ws_connecting: false, ..old(self)@ }),
    {
        self.connected = true;
        self.ws_connecting = false;
    }

    /// The WebSocket reported an error.
    pub fn on_socket_error(&mut self)
        ensures
            final(self)@ == (ClientView {
                api_error: Some("WebSocket connection error"@),
                ..old(self)@
            }),
    {
        self.api_error = Some(String::from_str("WebSocket connection error"));
    }

    /// The WebSocket closed with `code` and `reason`.
    pub fn on_socket_closed(&mut self, code: u16, reason: &str)
        ensures
            final(self)@ == after_socket_closed(old(self)@, code, reason@),
    {
        self.connected = false;
        self.robot_connected = false;
        self.has_control = false;
        self.status = None;
        self.api_error = Some(socket_closed_notice(code, reason));
    }

    /// The client is reconnecting the WebSocket: it is disconnected and
    /// connecting, and the robot status and program list are cleared.
    pub fn begin_reconnect(&mut self)
        ensures
            final(self)@ == (ClientView {
                connected: false,
                ws_connecting: true,
                status: None,
                programs: Seq::empty(),
                ..old(self)@
            }),
    {
        self.connected = false;
        self.ws_connecting = true;
        self.status = None;
        self.programs = Vec::new();
    }

    /// A robot connection was requested.
    pub fn begin_robot_connect(&mut self)
        ensures
            final(self)@ == (ClientView { robot_connecting: true, ..old(self)@ }),
    {
        self.robot_connecting = true;
    }

    /// Empties the motion log.
    pub fn clear_motion_log(&mut self)
        ensures
            final(self)@ == (ClientView { motion_log: Seq::empty(), ..old(self)@ }),
    {
        self.motion_log = Vec::new();
        assert(strs(self.motion_log@) =~= Seq::<Seq<char>>::empty());
    }

    /// Empties the error log.
    pub fn clear_error_log(&mut self)
        ensures
            final(self)@ == (ClientView { error_log: Seq::empty(), ..old(self)@ }),
    {
        self.error_log = Vec::new();
        assert(strs(self.error_log@) =~= Seq::<Seq<char>>::empty());
    }

    /// Adds a message to the console, dropping the oldest one past its
    /// capacity.
    pub fn add_console_message(&mut self, msg: ConsoleMessage)
        ensures
            final(self)@ == (ClientView {
                console: bounded_push(old(self)@.console, console_entry(msg), CONSOLE_CAPACITY as nat),
                ..old(self)@
            }),
    {
        proof {
            lemma_console_bounded_push(self.console_messages@, msg, CONSOLE_CAPACITY as nat);
        }
        push_bounded(&mut self.console_messages, msg, CONSOLE_CAPACITY);
    }

    /// Logs a command sent to the robot.
    pub fn log_command_sent(&mut self, clock: Clock, command_name: &str, sequence_id: Option<u32>)
        ensures
            final(self)@ == (ClientView {
                console: bounded_push(
                    old(self)@.console,
                    ConsoleEntry {
                        timestamp: clock.timestamp@,
                        timestamp_ms: clock.timestamp_ms,
                        direction: MessageDirection::Sent,
                        msg_type: MessageType::Command,
                        content: command_name@,
                        sequence_id,
                    },
                    CONSOLE_CAPACITY as nat,
                ),
                ..old(self)@
            }),
    {
        let msg = ConsoleMessage {
            timestamp: clock.timestamp,
            timestamp_ms: clock.timestamp_ms,
            direction: MessageDirection::Sent,
            msg_type: MessageType::Command,
            content: String::from_str(command_name),
            sequence_id,
        };
        self.add_console_message(msg);
    }

    /// Logs a response received from the robot; an error response is typed
    /// as an error.
    pub fn log_response_received(&mut self, clock: Clock, response_name: &str, sequence_id: Option<u32>, is_error: bool)
        ensures
            final(self)@ == (ClientView {
                console: bounded_push(
                    old(self)@.console,
                    ConsoleEntry {
                        timestamp: clock.timestamp@,
                        timestamp_ms: clock.timestamp_ms,
                        direction: MessageDirection::Received,
                        msg_type: if is_error {
                            MessageType::Error
                        } else {
                            MessageType::Response
                        },
                        content: response_name@,
                        sequence_id,
                    },
                    CONSOLE_CAPACITY as nat,
                ),
                ..old(self)@
            }),
    {
        let msg = ConsoleMessage {
            timestamp: clock.timestamp,
            timestamp_ms: clock.timestamp_ms,
            direction: MessageDirection::Received,
            msg_type: if is_error {
                MessageType::Error
            } else {
                MessageType::Response
            },
            content: String::from_str(response_name),
            sequence_id,
        };
        self.add_console_message(msg);
    }

    /// Logs a system or status message.
    pub fn log_system_message(&mut self, clock: Clock, message: &str)
        ensures
            final(self)@ == (ClientView {
                console: bounded_push(
                    old(self)@.console,
                    ConsoleEntry {
                        timestamp: clock.timestamp@,
                        timestamp_ms: clock.timestamp_ms,
                        direction: MessageDirection::System,
                        msg_type: MessageType::Status,
                        content: message@,
                        sequence_id: None,
                    },
                    CONSOLE_CAPACITY as nat,
                ),
                ..old(self)@
            }),
    {
        let msg = ConsoleMessage {
            timestamp: clock.timestamp,
            timestamp_ms: clock.timestamp_ms,
            direction: MessageDirection::System,
            msg_type: MessageType::Status,
            content: String::from_str(message),
            sequence_id: None,
        };
        self.add_console_message(msg);
    }

    /// Logs a packet about to be sent to the robot, under its protocol name
    /// and sequence ID; polling commands are not logged, so that they do not
    /// flood the console.
    pub fn log_sent_packet(&mut self, packet: &PacketSummary, clock: Clock)
        ensures
            final(self)@ == (if is_polling_name(packet_name_spec(*packet)) {
                old(self)@
            } else {
                ClientView {
                    console: bounded_push(
                        old(self)@.console,
                        ConsoleEntry {
                            timestamp: clock.timestamp@,
                            timestamp_ms: clock.timestamp_ms,
                            direction: MessageDirection::Sent,
                            msg_type: MessageType::Command,
                            content: packet_name_spec(*packet),
                            sequence_id: packet_sequence_spec(*packet),
                        },
                        CONSOLE_CAPACITY as nat,
                    ),
                    ..old(self)@
                }
            }),
    {
        match sent_packet_log_entry(packet) {
            Some((name, seq)) => self.log_command_sent(clock, name.as_str(), seq),
            None => {},
        }
    }

    /// Empties the console.
    pub fn clear_console_messages(&mut self)
        ensures
            final(self)@ == (ClientView { console: Seq::empty(), ..old(self)@ }),
    {
        self.console_messages = Vec::new();
        assert(self@.console =~= Seq::<ConsoleEntry>::empty());
    }

    /// Clears the error toast.
    pub fn clear_api_error(&mut self)
        ensures
            final(self)@ == (ClientView { api_error: None, ..old(self)@ }),
    {
        self.api_error = None;
    }

    /// Clears the notice toast.
    pub fn clear_api_message(&mut self)
        ensures
            final(self)@ == (ClientView { api_message: None, ..old(self)@ }),
    {
        self.api_message = None;
    }

    /// Shows a notice toast.
    pub fn set_message(&mut self, message: String)
        ensures
            final(self)@ == (ClientView { api_message: Some(message@), ..old(self)@ }),
    {
        self.api_message = Some(message);
    }

    /// Selects the saved connection in use.
    pub fn set_active_connection(&mut self, id: Option<i64>)
        ensures
            final(self)@ == (ClientView { active_connection_id: id, ..old(self)@ }),
    {
        self.active_connection_id = id;
    }

    /// Forgets all digital and group I/O values.
    pub fn clear_io_cache(&mut self)
        ensures
            final(self)@ == (ClientView {
                din_values: Map::empty(),
                dout_values: Map::empty(),
                gin_values: Map::empty(),
                gout_values: Map::empty(),
                ..old(self)@
            }),
    {
        self.din_values.clear();
        self.dout_values.clear();
        self.gin_values.clear();
        self.gout_values.clear();
    }

    /// Records a digital output value locally before the robot confirms it.
    pub fn update_dout_cache(&mut self, port: u16, value: bool)
        ensures
            final(self)@ == (ClientView { dout_values: old(self)@.dout_values.insert(port, value), ..old(self)@ }),
    {
        self.dout_values.insert(port, value);
    }

    /// Records a group output value locally before the robot confirms it.
    pub fn update_gout_cache(&mut self, port: u16, value: u32)
        ensures
            final(self)@ == (ClientView { gout_values: old(self)@.gout_values.insert(port, value), ..old(self)@ }),
    {
        self.gout_values.insert(port, value);
    }
}

// ---------------------------------------------------------------------------
// Laws
// ---------------------------------------------------------------------------

/// A log that is within a bound stays within it when entries are appended
/// with a capacity no larger than the bound.
proof fn lemma_bounded_push_within<T>(log: Seq<T>, item: T, cap: nat, bound: nat)
    requires
        log.len() <= bound,
        cap <= bound,
    ensures
        bounded_push(log, item, cap).len() <= bound,
{
}

/// The logs never outgrow their largest capacities: at most 50 motion-log
/// lines, 20 error-log lines and 100 console messages, whatever arrives.
pub proof fn lemma_logs_stay_bounded(
    v: ClientView,
    ev: ServerEvent,
    r: InstructionResponseSummary,
    timestamp: Seq<char>,
    timestamp_ms: u64,
    code: u16,
    reason: Seq<char>,
)
    requires
        v.motion_log.len() <= MOTION_LOG_CAPACITY,
        v.error_log.len() <= ROBOT_EVENT_CAPACITY,
        v.console.len() <= CONSOLE_CAPACITY,
    ensures
        next_view(v, ev).motion_log.len() <= MOTION_LOG_CAPACITY,
        next_view(v, ev).error_log.len() <= ROBOT_EVENT_CAPACITY,
        next_view(v, ev).console.len() <= CONSOLE_CAPACITY,
        after_instruction_response(v, r, timestamp, timestamp_ms).motion_log.len() <= MOTION_LOG_CAPACITY,
        after_instruction_response(v, r, timestamp, timestamp_ms).error_log.len() <= ROBOT_EVENT_CAPACITY,
        after_instruction_response(v, r, timestamp, timestamp_ms).console.len() <= CONSOLE_CAPACITY,
        after_socket_closed(v, code, reason).motion_log.len() <= MOTION_LOG_CAPACITY,
        after_socket_closed(v, code, reason).error_log.len() <= ROBOT_EVENT_CAPACITY,
        after_socket_closed(v, code, reason).console.len() <= CONSOLE_CAPACITY,
{
    match ev {
        ServerEvent::RobotError { error_type, message, error_id, raw_data } => {
            lemma_bounded_push_within(
                v.error_log,
                robot_error_line_spec(error_type@, message@, error_id, opt_str(raw_data)),
                ROBOT_EVENT_CAPACITY as nat,
                ROBOT_EVENT_CAPACITY as nat,
            );
        },
        ServerEvent::RobotCommandResult { command, success, error_id, message } => {
            lemma_bounded_push_within(
                v.motion_log,
                command_result_line_spec(command@, success, error_id, opt_str(message)),
                ROBOT_EVENT_CAPACITY as nat,
                MOTION_LOG_CAPACITY as nat,
            );
        },
        _ => {},
    }
}

/// A successful answer shows its message and clears the error toast.
pub proof fn lemma_success_clears_error(v: ClientView, message: String)
    ensures
        next_view(v, ServerEvent::Success { message }).api_error is None,
        next_view(v, ServerEvent::Success { message }).api_message == Some(message@),
{
}

/// An error answer shows `Error: <message>` and the message as the error,
/// and ends any robot connection attempt.
pub proof fn lemma_error_answer(v: ClientView, message: String)
    ensures
        next_view(v, ServerEvent::Error { message }).api_error == Some(message@),
        next_view(v, ServerEvent::Error { message }).api_message == Some("Error: "@ + message@),
        !next_view(v, ServerEvent::Error { message }).robot_connecting,
{
}

/// When the robot disconnects, the client forgets the robot connection but
/// keeps control of the server, so that it can connect another robot
/// without asking for control again.
pub proof fn lemma_robot_disconnect_keeps_control(v: ClientView, reason: String)
    ensures
        next_view(v, ServerEvent::RobotDisconnected { reason }).has_control == v.has_control,
        !next_view(v, ServerEvent::RobotDisconnected { reason }).robot_connected,
        !next_view(v, ServerEvent::RobotDisconnected { reason }).robot_connecting,
        next_view(v, ServerEvent::RobotDisconnected { reason }).connected_robot_name is None,
        next_view(v, ServerEvent::RobotDisconnected { reason }).active_connection_id is None,
        next_view(v, ServerEvent::RobotDisconnected { reason }).status is None,
{
}

/// When the WebSocket closes, the client is connected to neither the server
/// nor the robot and no longer holds control.
pub proof fn lemma_socket_close(v: ClientView, code: u16, reason: Seq<char>)
    ensures
        !after_socket_closed(v, code, reason).connected,
        !after_socket_closed(v, code, reason).robot_connected,
        !after_socket_closed(v, code, reason).has_control,
        after_socket_closed(v, code, reason).api_error is Some,
{
}

/// A disconnected status report forgets the saved connection in use; a
/// connected one records the address.
pub proof fn lemma_connection_status(
    v: ClientView,
    connected: bool,
    robot_addr: String,
    robot_port: u32,
    connection_name: Option<String>,
    connection_id: Option<i64>,
    tp: bool,
)
    ensures
        ({
            let w = next_view(
                v,
                ServerEvent::ConnectionStatus {
                    connected,
                    robot_addr,
                    robot_port,
                    connection_name,
                    connection_id,
                    tp_program_initialized: tp,
                },
            );
            &&& w.robot_connected == connected
            &&& w.tp_program_initialized == tp
            &&& w.robot_addr == robot_addr@ + ":"@ + crate::text::decimal(robot_port as nat)
            &&& !connected ==> w.connected_robot_name is None && w.active_connection_id is None
            &&& connected && connection_id is Some ==> w.active_connection_id == connection_id
        }),
{
}

/// The control lock follows the server: acquired means held; released,
/// denied and lost mean not held; a status report is taken as it is.
pub proof fn lemma_control_lock(v: ClientView, holder: String, reason: String, has: bool, other: Option<String>)
    ensures
        next_view(v, ServerEvent::ControlAcquired).has_control,
        !next_view(v, ServerEvent::ControlReleased).has_control,
        !next_view(v, ServerEvent::ControlDenied { holder_id: holder, reason }).has_control,
        !next_view(v, ServerEvent::ControlLost { reason }).has_control,
        next_view(v, ServerEvent::ControlStatus { has_control: has, holder_id: other }).has_control == has,
        next_view(v, ServerEvent::ControlChanged { holder_id: other }) == v,
{
}

/// After a program completes, or the executor reports it idle, completed,
/// stopping or in error, no program runs and no progress is shown; a paused
/// program still counts as running; a loaded one waits at line 0.
pub proof fn lemma_execution_states(
    v: ClientView,
    state: String,
    program_id: Option<i64>,
    current_line: Option<usize>,
    total_lines: Option<usize>,
    message: Option<String>,
    completed_id: i64,
    success: bool,
)
    ensures
        ({
            let w = next_view(
                v,
                ServerEvent::ExecutionStateChanged { state, program_id, current_line, total_lines, message },
            );
            &&& w.loaded_program_id == program_id
            &&& (state@ == "idle"@ || state@ == "completed"@ || state@ == "stopping"@ || state@ == "error"@)
                ==> !w.program_running && !w.program_paused && w.program_progress is None && w.executing_line is None
            &&& state@ == "paused"@ ==> w.program_running && w.program_paused
            &&& state@ == "running"@ ==> w.program_running && !w.program_paused
            &&& state@ == "loaded"@ ==> !w.program_running && w.executing_line == Some(0usize)
        }),
        ({
            let w = next_view(v, ServerEvent::ProgramComplete { program_id: completed_id, success, message });
            !w.program_running && w.program_progress is None && w.executing_line is None
        }),
{
    reveal_strlit("idle");
    reveal_strlit("completed");
    reveal_strlit("stopping");
    reveal_strlit("error");
    reveal_strlit("paused");
    reveal_strlit("running");
    reveal_strlit("loaded");
    let t = state@;
    if t == "running"@ {
        assert(t.len() != "loaded"@.len());
    } else if t == "paused"@ {
        assert(t[0] != "loaded"@[0]);
        assert(t.len() != "running"@.len());
    } else if t == "idle"@ || t == "completed"@ || t == "stopping"@ {
        assert(t.len() != "loaded"@.len() || t[0] != "loaded"@[0]);
        assert(t.len() != "running"@.len() || t[0] != "running"@[0]);
        assert(t.len() != "paused"@.len() || t[0] != "paused"@[0]);
    } else if t == "error"@ {
        assert(t.len() != "loaded"@.len());
        assert(t.len() != "running"@.len());
        assert(t.len() != "paused"@.len());
        assert(t.len() != "idle"@.len());
        assert(t.len() != "completed"@.len());
        assert(t.len() != "stopping"@.len());
    }
}

/// The value a batch gives a port: that of its last entry for the port, if
/// it has one.
pub open spec fn last_batch_value<V>(values: Seq<(u16, V)>, port: u16) -> Option<V>
    decreases values.len(),
{
    if values.len() == 0 {
        None
    } else if values.last().0 == port {
        Some(values.last().1)
    } else {
        last_batch_value(values.drop_last(), port)
    }
}

/// Entering a batch into a map: each port the batch names takes the value of
/// its last entry, every other port keeps its value.
proof fn lemma_insert_all_lookup<V>(m: Map<u16, V>, values: Seq<(u16, V)>, port: u16)
    ensures
        match last_batch_value(values, port) {
            Some(x) => insert_all(m, values).contains_key(port) && insert_all(m, values)[port] == x,
            None => insert_all(m, values).contains_key(port) == m.contains_key(port) && insert_all(m, values)[port]
                == m[port],
        },
    decreases values.len(),
{
    if values.len() > 0 {
        lemma_insert_all_lookup(m, values.drop_last(), port);
    }
}

/// The client's I/O values are what the server last reported for each port:
/// a single value replaces the port's value and leaves the others alone, and
/// in a batch the last entry for a port wins.
pub proof fn lemma_io_values_follow_server(
    v: ClientView,
    port: u16,
    value: bool,
    group_value: u32,
    batch: Vec<(u16, bool)>,
    other: u16,
)
    ensures
        next_view(v, ServerEvent::DinValue { port_number: port, port_value: value }).din_values == v.din_values.insert(
            port,
            value,
        ),
        next_view(v, ServerEvent::DoutValue { port_number: port, port_value: value }).dout_values
            == v.dout_values.insert(port, value),
        next_view(v, ServerEvent::GinValue { port_number: port, port_value: group_value }).gin_values
            == v.gin_values.insert(port, group_value),
        next_view(v, ServerEvent::GoutValue { port_number: port, port_value: group_value }).gout_values
            == v.gout_values.insert(port, group_value),
        ({
            let w = next_view(v, ServerEvent::DinBatch { values: batch });
            match last_batch_value(batch@, other) {
                Some(x) => w.din_values.contains_key(other) && w.din_values[other] == x,
                None => w.din_values.contains_key(other) == v.din_values.contains_key(other) && w.din_values[other]
                    == v.din_values[other],
            }
        }),
{
    lemma_insert_all_lookup(v.din_values, batch@, other);
}


/// A response that carries IDs and reports an error goes to the error log
/// as `Motion error: Seq:<seq> Err:<err>` with its own sequence and error
/// IDs, and to the console as an error under its own sequence ID; the motion
/// log is left alone. A response that carries IDs without an error goes to
/// the console as a response under its own sequence ID, and the error log is
/// left alone.
pub proof fn lemma_failed_instruction_is_an_error(
    v: ClientView,
    r: InstructionResponseSummary,
    timestamp: Seq<char>,
    timestamp_ms: u64,
)
    requires
        r.kind == InstructionKind::CircularMotion || r.kind == InstructionKind::JointMotion || r.kind
            == InstructionKind::JointRelative || r.kind == InstructionKind::JointRelativeJRep || r.kind
            == InstructionKind::LinearMotion || r.kind == InstructionKind::LinearRelative || r.kind
            == InstructionKind::LinearRelativeJRep || r.kind == InstructionKind::SetUFrame || r.kind
            == InstructionKind::SetUTool || r.kind == InstructionKind::WaitTime,
    ensures
        ({
            let w = after_instruction_response(v, r, timestamp, timestamp_ms);
            &&& w.console.len() > 0
            &&& w.console.last().sequence_id == Some(r.sequence_id)
            &&& w.console.last().direction == MessageDirection::Received
            &&& r.error_id != 0 ==> {
                &&& w.console.last().msg_type == MessageType::Error
                &&& w.error_log == bounded_push(
                    v.error_log,
                    "Motion error: Seq:"@ + crate::text::decimal(r.sequence_id as nat) + " Err:"@
                        + crate::text::decimal(r.error_id as nat),
                    MOTION_ERROR_CAPACITY as nat,
                )
                &&& w.motion_log == v.motion_log
            }
            &&& r.error_id == 0 ==> {
                &&& w.console.last().msg_type == MessageType::Response
                &&& w.error_log == v.error_log
            }
        }),
{
    crate::packets::lemma_response_ids(r);
    let (seq, err) = response_ids_spec(r);
    let entry = ConsoleEntry {
        timestamp,
        timestamp_ms,
        direction: MessageDirection::Received,
        msg_type: if err != 0 {
            MessageType::Error
        } else {
            MessageType::Response
        },
        content: response_console_text_spec(r),
        sequence_id: Some(seq),
    };
    crate::console::lemma_bounded_push_last(v.console, entry, CONSOLE_CAPACITY as nat);
}

/// A status report of a connected robot names the saved connection in use
/// when it gives one (as when the page is loaded while a robot is
/// connected), and otherwise keeps the name and ID the client had.
pub proof fn lemma_connection_status_names_robot(
    v: ClientView,
    robot_addr: String,
    robot_port: u32,
    connection_name: Option<String>,
    connection_id: Option<i64>,
    tp: bool,
)
    ensures
        ({
            let w = next_view(
                v,
                ServerEvent::ConnectionStatus {
                    connected: true,
                    robot_addr,
                    robot_port,
                    connection_name,
                    connection_id,
                    tp_program_initialized: tp,
                },
            );
            &&& w.robot_connected
            &&& (connection_name matches Some(n) ==> w.connected_robot_name == Some(n@))
            &&& (connection_name is None ==> w.connected_robot_name == v.connected_robot_name)
            &&& (connection_id matches Some(i) ==> w.active_connection_id == Some(i))
            &&& (connection_id is None ==> w.active_connection_id == v.active_connection_id)
        }),
{
}

} // verus!
