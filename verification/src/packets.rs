//! Bookkeeping of robot protocol packets: the names and sequence IDs that the
//! client logs for the packets it sends, which packets are polls that are not
//! logged, and the IDs, names and log lines of instruction responses.
//!
//! The packets themselves are the RMI protocol's; the client only reads which
//! packet a value is and the sequence and error IDs it carries, so those are
//! what the types here hold.

use vstd::prelude::*;
use vstd::string::*;
use crate::text::{decimal, push_decimal, str_equal};

verus! {

/// The communication packets of the RMI protocol.
#[derive(Debug, Clone, Copy, PartialEq, Eq, Structural)]
pub enum CommunicationKind {
    Connect,
    Disconnect,
    SystemFault,
    Terminate,
}

/// The command packets of the RMI protocol.
#[derive(Debug, Clone, Copy, PartialEq, Eq, Structural)]
pub enum CommandKind {
    Abort,
    Continue,
    GetStatus,
    GetUFrameUTool,
    Initialize,
    Pause,
    ReadAIN,
    ReadCartesianPosition,
    ReadDIN,
    ReadError,
    ReadGIN,
    ReadJointAngles,
    ReadPositionRegister,
    ReadTCPSpeed,
    ReadUFrameData,
    ReadUToolData,
    Reset,
    SetOverRide,
    SetUFrameUTool,
    WriteAOUT,
    WriteDOUT,
    WriteGOUT,
    WritePositionRegister,
    WriteUFrameData,
    WriteUToolData,
}

/// The instruction packets of the RMI protocol (each carries a sequence ID).
#[derive(Debug, Clone, Copy, PartialEq, Eq, Structural)]
pub enum InstructionKind {
    Call,
    CircularMotion,
    CircularRelative,
    JointMotion,
    JointMotionJRep,
    JointRelative,
    JointRelativeJRep,
    LinearMotion,
    LinearMotionJRep,
    LinearRelative,
    LinearRelativeJRep,
    SetPayLoad,
    SetUFrame,
    SetUTool,
    WaitDIN,
    WaitTime,
}

/// The protocol name of a communication packet, after the `FRC_` prefix.
pub open spec fn communication_suffix(k: CommunicationKind) -> Seq<char> {
    match k {
        CommunicationKind::Connect => "Connect"@,
        CommunicationKind::Disconnect => "Disconnect"@,
        CommunicationKind::SystemFault => "SystemFault"@,
        CommunicationKind::Terminate => "Terminate"@,
    }
}

/// The protocol name of a command packet, after the `FRC_` prefix.
pub open spec fn command_suffix(k: CommandKind) -> Seq<char> {
    match k {
        CommandKind::Abort => "Abort"@,
        CommandKind::Continue => "Continue"@,
        CommandKind::GetStatus => "GetStatus"@,
        CommandKind::GetUFrameUTool => "GetUFrameUTool"@,
        CommandKind::Initialize => "Initialize"@,
        CommandKind::Pause => "Pause"@,
        CommandKind::ReadAIN => "ReadAIN"@,
        CommandKind::ReadCartesianPosition => "ReadCartesianPosition"@,
        CommandKind::ReadDIN => "ReadDIN"@,
        CommandKind::ReadError => "ReadError"@,
        CommandKind::ReadGIN => "ReadGIN"@,
        CommandKind::ReadJointAngles => "ReadJointAngles"@,
        CommandKind::ReadPositionRegister => "ReadPositionRegister"@,
        CommandKind::ReadTCPSpeed => "ReadTCPSpeed"@,
        CommandKind::ReadUFrameData => "ReadUFrameData"@,
        CommandKind::ReadUToolData => "ReadUToolData"@,
        CommandKind::Reset => "Reset"@,
        CommandKind::SetOverRide => "SetOverRide"@,
        CommandKind::SetUFrameUTool => "SetUFrameUTool"@,
        CommandKind::WriteAOUT => "WriteAOUT"@,
        CommandKind::WriteDOUT => "WriteDOUT"@,
        CommandKind::WriteGOUT => "WriteGOUT"@,
        CommandKind::WritePositionRegister => "WritePositionRegister"@,
        CommandKind::WriteUFrameData => "WriteUFrameData"@,
        CommandKind::WriteUToolData => "WriteUToolData"@,
    }
}

/// The protocol name of an instruction packet (and of its response), after the `FRC_` prefix.
pub open spec fn instruction_suffix(k: InstructionKind) -> Seq<char> {
    match k {
        InstructionKind::Call => "Call"@,
        InstructionKind::CircularMotion => "CircularMotion"@,
        InstructionKind::CircularRelative => "CircularRelative"@,
        InstructionKind::JointMotion => "JointMotion"@,
        InstructionKind::JointMotionJRep => "JointMotionJRep"@,
        InstructionKind::JointRelative => "JointRelative"@,
        InstructionKind::JointRelativeJRep => "JointRelativeJRep"@,
        InstructionKind::LinearMotion => "LinearMotion"@,
        InstructionKind::LinearMotionJRep => "LinearMotionJRep"@,
        InstructionKind::LinearRelative => "LinearRelative"@,
        InstructionKind::LinearRelativeJRep => "LinearRelativeJRep"@,
        InstructionKind::SetPayLoad => "SetPayLoad"@,
        InstructionKind::SetUFrame => "SetUFrame"@,
        InstructionKind::SetUTool => "SetUTool"@,
        InstructionKind::WaitDIN => "WaitDIN"@,
        InstructionKind::WaitTime => "WaitTime"@,
    }
}

/// The protocol name of a communication packet, after the prefix.
pub fn communication_suffix_str(k: CommunicationKind) -> (r: &'static str)
    ensures
        r@ == communication_suffix(k),
{
    match k {
        CommunicationKind::Connect => "Connect",
        CommunicationKind::Disconnect => "Disconnect",
        CommunicationKind::SystemFault => "SystemFault",
        CommunicationKind::Terminate => "Terminate",
    }
}

/// The protocol name of a command packet, after the prefix.
pub fn command_suffix_str(k: CommandKind) -> (r: &'static str)
    ensures
        r@ == command_suffix(k),
{
    match k {
        CommandKind::Abort => "Abort",
        CommandKind::Continue => "Continue",
        CommandKind::GetStatus => "GetStatus",
        CommandKind::GetUFrameUTool => "GetUFrameUTool",
        CommandKind::Initialize => "Initialize",
        CommandKind::Pause => "Pause",
        CommandKind::ReadAIN => "ReadAIN",
        CommandKind::ReadCartesianPosition => "ReadCartesianPosition",
        CommandKind::ReadDIN => "ReadDIN",
        CommandKind::ReadError => "ReadError",
        CommandKind::ReadGIN => "ReadGIN",
        CommandKind::ReadJointAngles => "ReadJointAngles",
        CommandKind::ReadPositionRegister => "ReadPositionRegister",
        CommandKind::ReadTCPSpeed => "ReadTCPSpeed",
        CommandKind::ReadUFrameData => "ReadUFrameData",
        CommandKind::ReadUToolData => "ReadUToolData",
        CommandKind::Reset => "Reset",
        CommandKind::SetOverRide => "SetOverRide",
        CommandKind::SetUFrameUTool => "SetUFrameUTool",
        CommandKind::WriteAOUT => "WriteAOUT",
        CommandKind::WriteDOUT => "WriteDOUT",
        CommandKind::WriteGOUT => "WriteGOUT",
        CommandKind::WritePositionRegister => "WritePositionRegister",
        CommandKind::WriteUFrameData => "WriteUFrameData",
        CommandKind::WriteUToolData => "WriteUToolData",
    }
}

/// The protocol name of an instruction packet or response, after the prefix.
pub fn instruction_suffix_str(k: InstructionKind) -> (r: &'static str)
    ensures
        r@ == instruction_suffix(k),
{
    match k {
        InstructionKind::Call => "Call",
        InstructionKind::CircularMotion => "CircularMotion",
        InstructionKind::CircularRelative => "CircularRelative",
        InstructionKind::JointMotion => "JointMotion",
        InstructionKind::JointMotionJRep => "JointMotionJRep",
        InstructionKind::JointRelative => "JointRelative",
        InstructionKind::JointRelativeJRep => "JointRelativeJRep",
        InstructionKind::LinearMotion => "LinearMotion",
        InstructionKind::LinearMotionJRep => "LinearMotionJRep",
        InstructionKind::LinearRelative => "LinearRelative",
        InstructionKind::LinearRelativeJRep => "LinearRelativeJRep",
        InstructionKind::SetPayLoad => "SetPayLoad",
        InstructionKind::SetUFrame => "SetUFrame",
        InstructionKind::SetUTool => "SetUTool",
        InstructionKind::WaitDIN => "WaitDIN",
        InstructionKind::WaitTime => "WaitTime",
    }
}

/// A packet that the client sends, as far as its log reads it.
#[derive(Debug, Clone, Copy, PartialEq, Eq, Structural)]
pub enum PacketSummary {
    Communication(CommunicationKind),
    Command(CommandKind),
    /// An instruction and its sequence ID.
    Instruction(InstructionKind, u32),
    /// A command for the driver itself rather than the robot.
    DriverCommand,
}

/// The protocol name of an instruction, which its response shares.
pub open spec fn instruction_name_spec(k: InstructionKind) -> Seq<char> {
    "FRC_"@ + instruction_suffix(k)
}

/// The protocol name of an instruction or of its response.
pub fn instruction_name(k: InstructionKind) -> (r: String)
    ensures
        r@ == instruction_name_spec(k),
{
    let mut s = String::from_str("FRC_");
    s.append(instruction_suffix_str(k));
    s
}

/// The name under which a sent packet is logged: the protocol name, which
/// is `FRC_` followed by the packet's own name, or `DriverCommand` for a
/// command to the driver.
pub open spec fn packet_name_spec(p: PacketSummary) -> Seq<char> {
    match p {
        PacketSummary::Communication(k) => "FRC_"@ + communication_suffix(k),
        PacketSummary::Command(k) => "FRC_"@ + command_suffix(k),
        PacketSummary::Instruction(k, _) => "FRC_"@ + instruction_suffix(k),
        PacketSummary::DriverCommand => "DriverCommand"@,
    }
}

/// The sequence ID logged with a sent packet: only instructions have one.
pub open spec fn packet_sequence_spec(p: PacketSummary) -> Option<u32> {
    match p {
        PacketSummary::Instruction(_, s) => Some(s),
        _ => None,
    }
}

/// The command name and sequence ID of a packet, for the console log.
pub fn packet_info(p: &PacketSummary) -> (r: (String, Option<u32>))
    ensures
        r.0@ == packet_name_spec(*p),
        r.1 == packet_sequence_spec(*p),
{
    match p {
        PacketSummary::DriverCommand => (String::from_str("DriverCommand"), None),
        PacketSummary::Communication(k) => {
            let mut s = String::from_str("FRC_");
            s.append(communication_suffix_str(*k));
            (s, None)
        },
        PacketSummary::Command(k) => {
            let mut s = String::from_str("FRC_");
            s.append(command_suffix_str(*k));
            (s, None)
        },
        PacketSummary::Instruction(k, seq) => (instruction_name(*k), Some(*seq)),
    }
}

/// The names, after `FRC_`, of the commands that poll the robot.
pub open spec fn is_polling_suffix(s: Seq<char>) -> bool {
    ||| s == "GetStatus"@
    ||| s == "ReadCartesianPosition"@
    ||| s == "ReadJointAngles"@
    ||| s == "ReadDIN"@
    ||| s == "ReadAIN"@
    ||| s == "ReadGIN"@
}

/// The protocol names of the commands that poll the robot.
pub open spec fn is_polling_name(name: Seq<char>) -> bool {
    name.len() >= 4 && name.take(4) == "FRC_"@ && is_polling_suffix(name.skip(4))
}

/// The polling commands.
pub open spec fn is_polling_command_kind(k: CommandKind) -> bool {
    ||| k == CommandKind::GetStatus
    ||| k == CommandKind::ReadCartesianPosition
    ||| k == CommandKind::ReadJointAngles
    ||| k == CommandKind::ReadDIN
    ||| k == CommandKind::ReadAIN
    ||| k == CommandKind::ReadGIN
}

/// Whether a command name is one of the polling commands, which are not
/// logged so that they do not flood the console.
pub fn is_polling_command(name: &str) -> (r: bool)
    ensures
        r == is_polling_name(name@),
{
    let n = name.unicode_len();
    if n < 4 {
        return false;
    }
    let head = name.substring_char(0, 4);
    let rest = name.substring_char(4, n);
    assert(head@ == name@.take(4));
    assert(rest@ == name@.skip(4));
    if !str_equal(head, "FRC_") {
        return false;
    }
    str_equal(rest, "GetStatus") || str_equal(rest, "ReadCartesianPosition") || str_equal(rest, "ReadJointAngles")
        || str_equal(rest, "ReadDIN") || str_equal(rest, "ReadAIN") || str_equal(rest, "ReadGIN")
}

/// What the client logs when it sends a packet: the packet's name and
/// sequence ID, or nothing for a polling command.
pub fn sent_packet_log_entry(p: &PacketSummary) -> (r: Option<(String, Option<u32>)>)
    ensures
        match r {
            Some((name, seq)) => !is_polling_name(packet_name_spec(*p)) && name@ == packet_name_spec(*p)
                && seq == packet_sequence_spec(*p),
            None => is_polling_name(packet_name_spec(*p)),
        },
{
    let (name, seq) = packet_info(p);
    if is_polling_command(name.as_str()) {
        None
    } else {
        Some((name, seq))
    }
}

/// The response to an instruction, as far as the client reads it.
#[derive(Debug, Clone, Copy, PartialEq, Eq, Structural)]
pub struct InstructionResponseSummary {
    pub kind: InstructionKind,
    pub sequence_id: u32,
    pub error_id: u32,
}

/// The instructions whose responses the client reads IDs from.
pub open spec fn reports_ids(k: InstructionKind) -> bool {
    ||| k == InstructionKind::CircularMotion
    ||| k == InstructionKind::JointMotion
    ||| k == InstructionKind::JointRelative
    ||| k == InstructionKind::JointRelativeJRep
    ||| k == InstructionKind::LinearMotion
    ||| k == InstructionKind::LinearRelative
    ||| k == InstructionKind::LinearRelativeJRep
    ||| k == InstructionKind::SetUFrame
    ||| k == InstructionKind::SetUTool
    ||| k == InstructionKind::WaitTime
}

/// The (sequence ID, error ID) pair the client takes from a response; other
/// responses count as sequence 0 without error.
pub open spec fn response_ids_spec(r: InstructionResponseSummary) -> (u32, u32) {
    if reports_ids(r.kind) {
        (r.sequence_id, r.error_id)
    } else {
        (0, 0)
    }
}

/// The sequence and error IDs of an instruction response.
pub fn response_ids(r: &InstructionResponseSummary) -> (ids: (u32, u32))
    ensures
        ids == response_ids_spec(*r),
{
    match r.kind {
        InstructionKind::CircularMotion | InstructionKind::JointMotion | InstructionKind::JointRelative
        | InstructionKind::JointRelativeJRep | InstructionKind::LinearMotion | InstructionKind::LinearRelative
        | InstructionKind::LinearRelativeJRep | InstructionKind::SetUFrame | InstructionKind::SetUTool
        | InstructionKind::WaitTime => (r.sequence_id, r.error_id),
        _ => (0, 0),
    }
}

/// The line for the motion log when an instruction completes.
pub open spec fn completion_line_spec(k: InstructionKind, seq: u32) -> Seq<char> {
    let what = if k == InstructionKind::LinearRelative {
        "✓ Linear move completed (Seq:"@
    } else if k == InstructionKind::JointMotion {
        "✓ Joint move completed (Seq:"@
    } else if k == InstructionKind::WaitTime {
        "✓ Wait completed (Seq:"@
    } else {
        "✓ Motion completed (Seq:"@
    };
    what + decimal(seq as nat) + ")"@
}

/// The motion-log line for a completed instruction.
pub fn format_instruction_response(k: InstructionKind, seq: u32) -> (r: String)
    ensures
        r@ == completion_line_spec(k, seq),
{
    let mut s = match k {
        InstructionKind::LinearRelative => String::from_str("✓ Linear move completed (Seq:"),
        InstructionKind::JointMotion => String::from_str("✓ Joint move completed (Seq:"),
        InstructionKind::WaitTime => String::from_str("✓ Wait completed (Seq:"),
        _ => String::from_str("✓ Motion completed (Seq:"),
    };
    push_decimal(&mut s, seq as u64);
    s.append(")");
    s
}

/// The console text for an instruction response: `NAME error_id=E` when the
/// response reports an error, `NAME completed` otherwise.
pub open spec fn response_console_text_spec(r: InstructionResponseSummary) -> Seq<char> {
    let (seq, err) = response_ids_spec(r);
    if err != 0 {
        instruction_name_spec(r.kind) + " error_id="@ + decimal(err as nat)
    } else {
        instruction_name_spec(r.kind) + " completed"@
    }
}

/// The console text for an instruction response.
pub fn response_console_text(r: &InstructionResponseSummary) -> (s: String)
    ensures
        s@ == response_console_text_spec(*r),
{
    let (_seq, err) = response_ids(r);
    let mut s = instruction_name(r.kind);
    if err != 0 {
        s.append(" error_id=");
        push_decimal(&mut s, err as u64);
    } else {
        s.append(" completed");
    }
    s
}

/// The error-log line for an instruction that failed.
pub open spec fn motion_error_line_spec(seq: u32, err: u32) -> Seq<char> {
    "Motion error: Seq:"@ + decimal(seq as nat) + " Err:"@ + decimal(err as nat)
}

/// The error-log line for a failed instruction.
pub fn motion_error_line(seq: u32, err: u32) -> (r: String)
    ensures
        r@ == motion_error_line_spec(seq, err),
{
    let mut s = String::from_str("Motion error: Seq:");
    push_decimal(&mut s, seq as u64);
    s.append(" Err:");
    push_decimal(&mut s, err as u64);
    s
}

// ---------------------------------------------------------------------------
// Which packets are polls
// ---------------------------------------------------------------------------

/// The lengths of the six polling names, and the letter that tells the three
/// input reads apart.
proof fn lemma_polling_literals()
    ensures
        "GetStatus"@.len() == 9,
        "ReadCartesianPosition"@.len() == 21,
        "ReadJointAngles"@.len() == 15,
        "ReadDIN"@.len() == 7 && "ReadDIN"@[0] == 'R' && "ReadDIN"@[4] == 'D',
        "ReadAIN"@.len() == 7 && "ReadAIN"@[0] == 'R' && "ReadAIN"@[4] == 'A',
        "ReadGIN"@.len() == 7 && "ReadGIN"@[0] == 'R' && "ReadGIN"@[4] == 'G',
        "GetStatus"@[0] == 'G',
        "ReadCartesianPosition"@[0] == 'R',
        "ReadJointAngles"@[0] == 'R',
{
    reveal_strlit("GetStatus");
    reveal_strlit("ReadCartesianPosition");
    reveal_strlit("ReadJointAngles");
    reveal_strlit("ReadDIN");
    reveal_strlit("ReadAIN");
    reveal_strlit("ReadGIN");
}

proof fn lemma_communication_not_polling(k: CommunicationKind)
    ensures
        !is_polling_suffix(communication_suffix(k)),
{
    lemma_polling_literals();
    match k {
        CommunicationKind::Connect => reveal_strlit("Connect"),
        CommunicationKind::Disconnect => reveal_strlit("Disconnect"),
        CommunicationKind::SystemFault => reveal_strlit("SystemFault"),
        CommunicationKind::Terminate => reveal_strlit("Terminate"),
    }
}

proof fn lemma_command_polling(k: CommandKind)
    ensures
        is_polling_suffix(command_suffix(k)) <==> is_polling_command_kind(k),
{
    lemma_polling_literals();
    match k {
        CommandKind::Abort => reveal_strlit("Abort"),
        CommandKind::Continue => reveal_strlit("Continue"),
        CommandKind::GetStatus => {},
        CommandKind::GetUFrameUTool => reveal_strlit("GetUFrameUTool"),
        CommandKind::Initialize => reveal_strlit("Initialize"),
        CommandKind::Pause => reveal_strlit("Pause"),
        CommandKind::ReadAIN => {},
        CommandKind::ReadCartesianPosition => {},
        CommandKind::ReadDIN => {},
        CommandKind::ReadError => reveal_strlit("ReadError"),
        CommandKind::ReadGIN => {},
        CommandKind::ReadJointAngles => {},
        CommandKind::ReadPositionRegister => reveal_strlit("ReadPositionRegister"),
        CommandKind::ReadTCPSpeed => reveal_strlit("ReadTCPSpeed"),
        CommandKind::ReadUFrameData => reveal_strlit("ReadUFrameData"),
        CommandKind::ReadUToolData => reveal_strlit("ReadUToolData"),
        CommandKind::Reset => reveal_strlit("Reset"),
        CommandKind::SetOverRide => reveal_strlit("SetOverRide"),
        CommandKind::SetUFrameUTool => reveal_strlit("SetUFrameUTool"),
        CommandKind::WriteAOUT => reveal_strlit("WriteAOUT"),
        CommandKind::WriteDOUT => reveal_strlit("WriteDOUT"),
        CommandKind::WriteGOUT => reveal_strlit("WriteGOUT"),
        CommandKind::WritePositionRegister => reveal_strlit("WritePositionRegister"),
        CommandKind::WriteUFrameData => reveal_strlit("WriteUFrameData"),
        CommandKind::WriteUToolData => reveal_strlit("WriteUToolData"),
    }
}

proof fn lemma_instruction_not_polling(k: InstructionKind)
    ensures
        !is_polling_suffix(instruction_suffix(k)),
{
    lemma_polling_literals();
    match k {
        InstructionKind::Call => reveal_strlit("Call"),
        InstructionKind::CircularMotion => reveal_strlit("CircularMotion"),
        InstructionKind::CircularRelative => reveal_strlit("CircularRelative"),
        InstructionKind::JointMotion => reveal_strlit("JointMotion"),
        InstructionKind::JointMotionJRep => reveal_strlit("JointMotionJRep"),
        InstructionKind::JointRelative => reveal_strlit("JointRelative"),
        InstructionKind::JointRelativeJRep => reveal_strlit("JointRelativeJRep"),
        InstructionKind::LinearMotion => reveal_strlit("LinearMotion"),
        InstructionKind::LinearMotionJRep => reveal_strlit("LinearMotionJRep"),
        InstructionKind::LinearRelative => reveal_strlit("LinearRelative"),
        InstructionKind::LinearRelativeJRep => reveal_strlit("LinearRelativeJRep"),
        InstructionKind::SetPayLoad => reveal_strlit("SetPayLoad"),
        InstructionKind::SetUFrame => reveal_strlit("SetUFrame"),
        InstructionKind::SetUTool => reveal_strlit("SetUTool"),
        InstructionKind::WaitDIN => reveal_strlit("WaitDIN"),
        InstructionKind::WaitTime => reveal_strlit("WaitTime"),
    }
}

/// Prefixing `FRC_` keeps the name after it apart.
proof fn lemma_prefixed_name(s: Seq<char>)
    ensures
        ("FRC_"@ + s).len() >= 4,
        ("FRC_"@ + s).take(4) == "FRC_"@,
        ("FRC_"@ + s).skip(4) == s,
{
    reveal_strlit("FRC_");
    assert(("FRC_"@ + s).take(4) =~= "FRC_"@);
    assert(("FRC_"@ + s).skip(4) =~= s);
}

/// A sent packet is left out of the console log exactly when it is one of
/// the six polling commands (status, position, joint angles and the three
/// input reads); every instruction, communication and driver command is
/// logged.
pub proof fn lemma_polling_packets(p: PacketSummary)
    ensures
        is_polling_name(packet_name_spec(p)) <==> (p matches PacketSummary::Command(k)
            && is_polling_command_kind(k)),
{
    match p {
        PacketSummary::Communication(k) => {
            lemma_prefixed_name(communication_suffix(k));
            lemma_communication_not_polling(k);
        },
        PacketSummary::Command(k) => {
            lemma_prefixed_name(command_suffix(k));
            lemma_command_polling(k);
        },
        PacketSummary::Instruction(k, _) => {
            lemma_prefixed_name(instruction_suffix(k));
            lemma_instruction_not_polling(k);
        },
        PacketSummary::DriverCommand => {
            reveal_strlit("DriverCommand");
            reveal_strlit("FRC_");
            assert("DriverCommand"@.take(4)[0] != "FRC_"@[0]);
        },
    }
}


/// The responses to motions, frame and tool changes and waits carry their
/// sequence and error IDs, and those are the IDs taken from them; the
/// responses to calls, payloads, input waits, relative circles and absolute
/// joint-representation or linear-representation moves count as sequence 0
/// without error.
pub proof fn lemma_response_ids(r: InstructionResponseSummary)
    ensures
        (r.kind == InstructionKind::CircularMotion || r.kind == InstructionKind::JointMotion || r.kind
            == InstructionKind::JointRelative || r.kind == InstructionKind::JointRelativeJRep || r.kind
            == InstructionKind::LinearMotion || r.kind == InstructionKind::LinearRelative || r.kind
            == InstructionKind::LinearRelativeJRep || r.kind == InstructionKind::SetUFrame || r.kind
            == InstructionKind::SetUTool || r.kind == InstructionKind::WaitTime) ==> response_ids_spec(r) == (
            r.sequence_id,
            r.error_id,
        ),
        (r.kind == InstructionKind::Call || r.kind == InstructionKind::CircularRelative || r.kind
            == InstructionKind::JointMotionJRep || r.kind == InstructionKind::LinearMotionJRep || r.kind
            == InstructionKind::SetPayLoad || r.kind == InstructionKind::WaitDIN) ==> response_ids_spec(r) == (
            0u32,
            0u32,
        ),
{
}

} // verus!
