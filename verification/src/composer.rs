//! The command composer and the quick commands: which instruction a motion
//! becomes, its termination, the arm configuration sent with it, the list of
//! recent commands, and the speed override.

use vstd::prelude::*;
use vstd::string::*;
use crate::packets::InstructionKind;
use crate::text::{decimal, push_decimal, str_equal};

verus! {

/// Instruction types available in the composer.
#[derive(Clone, Copy, PartialEq, Eq, Debug, Structural)]
pub enum InstructionType {
    LinearAbsolute,
    LinearRelative,
    JointAbsolute,
    JointRelative,
}

/// The label of an instruction type.
pub open spec fn instruction_type_label(t: InstructionType) -> Seq<char> {
    match t {
        InstructionType::LinearAbsolute => "Linear Absolute"@,
        InstructionType::LinearRelative => "Linear Relative"@,
        InstructionType::JointAbsolute => "Joint Absolute"@,
        InstructionType::JointRelative => "Joint Relative"@,
    }
}

/// The instruction that the composer sends for each instruction type.
pub open spec fn composed_instruction(t: InstructionType) -> InstructionKind {
    match t {
        InstructionType::LinearAbsolute => InstructionKind::LinearMotion,
        InstructionType::LinearRelative => InstructionKind::LinearRelative,
        InstructionType::JointAbsolute => InstructionKind::JointMotionJRep,
        InstructionType::JointRelative => InstructionKind::JointRelativeJRep,
    }
}

impl InstructionType {
    /// The label shown for the type.
    pub fn label(&self) -> (r: &'static str)
        ensures
            r@ == instruction_type_label(*self),
    {
        match self {
            InstructionType::LinearAbsolute => "Linear Absolute",
            InstructionType::LinearRelative => "Linear Relative",
            InstructionType::JointAbsolute => "Joint Absolute",
            InstructionType::JointRelative => "Joint Relative",
        }
    }

    /// Whether the type moves in Cartesian space (X, Y, Z, W, P, R).
    pub fn is_cartesian(&self) -> (r: bool)
        ensures
            r == (*self == InstructionType::LinearAbsolute || *self == InstructionType::LinearRelative),
    {
        matches!(self, InstructionType::LinearAbsolute | InstructionType::LinearRelative)
    }

    /// Whether the type moves to an absolute target.
    pub fn is_absolute(&self) -> (r: bool)
        ensures
            r == (*self == InstructionType::LinearAbsolute || *self == InstructionType::JointAbsolute),
    {
        matches!(self, InstructionType::LinearAbsolute | InstructionType::JointAbsolute)
    }

    /// The type chosen in the composer's select; an unknown value selects
    /// a linear relative move.
    pub fn from_select_value(v: &str) -> (r: InstructionType)
        ensures
            r == if v@ == "LinearAbsolute"@ {
                InstructionType::LinearAbsolute
            } else if v@ == "LinearRelative"@ {
                InstructionType::LinearRelative
            } else if v@ == "JointAbsolute"@ {
                InstructionType::JointAbsolute
            } else if v@ == "JointRelative"@ {
                InstructionType::JointRelative
            } else {
                InstructionType::LinearRelative
            },
    {
        if str_equal(v, "LinearAbsolute") {
            InstructionType::LinearAbsolute
        } else if str_equal(v, "LinearRelative") {
            InstructionType::LinearRelative
        } else if str_equal(v, "JointAbsolute") {
            InstructionType::JointAbsolute
        } else if str_equal(v, "JointRelative") {
            InstructionType::JointRelative
        } else {
            InstructionType::LinearRelative
        }
    }

    /// The instruction sent for this type: absolute linear moves are linear
    /// motions, joint moves use the joint representation.
    pub fn instruction_kind(&self) -> (r: InstructionKind)
        ensures
            r == composed_instruction(*self),
    {
        match self {
            InstructionType::LinearAbsolute => InstructionKind::LinearMotion,
            InstructionType::LinearRelative => InstructionKind::LinearRelative,
            InstructionType::JointAbsolute => InstructionKind::JointMotionJRep,
            InstructionType::JointRelative => InstructionKind::JointRelativeJRep,
        }
    }
}

/// How a motion ends.
#[derive(Clone, Copy, PartialEq, Eq, Debug, Structural)]
pub enum TermType {
    /// Stop exactly at the target.
    Fine,
    /// Blend into the next motion.
    Cnt,
}

/// The termination a text names: `FINE` stops exactly, anything else blends.
pub fn term_type_from_name(name: &str) -> (r: TermType)
    ensures
        r == if name@ == "FINE"@ {
            TermType::Fine
        } else {
            TermType::Cnt
        },
{
    if str_equal(name, "FINE") {
        TermType::Fine
    } else {
        TermType::Cnt
    }
}

/// The instruction a recent command is replayed as, from its stored type:
/// `linear_abs` is a linear motion, `joint` a joint motion, and anything
/// else (`linear_rel` included) a linear relative move.
pub open spec fn replayed_instruction(command_type: Seq<char>) -> InstructionKind {
    if command_type == "linear_rel"@ {
        InstructionKind::LinearRelative
    } else if command_type == "linear_abs"@ {
        InstructionKind::LinearMotion
    } else if command_type == "joint"@ {
        InstructionKind::JointMotion
    } else {
        InstructionKind::LinearRelative
    }
}

/// The instruction and termination a recent command is replayed with: a
/// `FINE` command ends with value 0, any other blends fully (`CNT` 100).
pub fn replay_plan(command_type: &str, term_type: &str) -> (r: (InstructionKind, TermType, u8))
    ensures
        r.0 == replayed_instruction(command_type@),
        term_type@ == "FINE"@ ==> r.1 == TermType::Fine && r.2 == 0,
        term_type@ != "FINE"@ ==> r.1 == TermType::Cnt && r.2 == 100,
{
    let kind = if str_equal(command_type, "linear_rel") {
        InstructionKind::LinearRelative
    } else if str_equal(command_type, "linear_abs") {
        InstructionKind::LinearMotion
    } else if str_equal(command_type, "joint") {
        InstructionKind::JointMotion
    } else {
        InstructionKind::LinearRelative
    };
    let term = term_type_from_name(term_type);
    let value: u8 = match term {
        TermType::Fine => 0,
        TermType::Cnt => 100,
    };
    (kind, term, value)
}

/// The frame, tool and arm configuration numbers of the active
/// configuration.
#[derive(Clone, Copy, PartialEq, Eq, Debug, Structural)]
pub struct ActiveConfigurationNumbers {
    pub u_frame_number: i32,
    pub u_tool_number: i32,
    pub front: i32,
    pub up: i32,
    pub left: i32,
    pub flip: i32,
    pub turn4: i32,
    pub turn5: i32,
    pub turn6: i32,
}

/// The arm configuration of a motion packet, in the protocol's 8-bit
/// fields.
#[derive(Clone, Copy, PartialEq, Eq, Debug, Structural)]
pub struct ArmConfiguration {
    pub u_tool_number: i8,
    pub u_frame_number: i8,
    pub front: i8,
    pub up: i8,
    pub left: i8,
    pub flip: i8,
    pub turn4: i8,
    pub turn5: i8,
    pub turn6: i8,
}

/// The configuration a composed motion carries: the active configuration's
/// numbers narrowed to 8 bits, or frame 0, tool 1, front, up, right, no
/// flip and no turns when there is no active configuration.
pub open spec fn composed_configuration(active: Option<ActiveConfigurationNumbers>) -> ArmConfiguration {
    match active {
        Some(c) => ArmConfiguration {
            u_tool_number: c.u_tool_number as i8,
            u_frame_number: c.u_frame_number as i8,
            front: c.front as i8,
            up: c.up as i8,
            left: c.left as i8,
            flip: c.flip as i8,
            turn4: c.turn4 as i8,
            turn5: c.turn5 as i8,
            turn6: c.turn6 as i8,
        },
        None => ArmConfiguration {
            u_tool_number: 1,
            u_frame_number: 0,
            front: 1,
            up: 1,
            left: 0,
            flip: 0,
            turn4: 0,
            turn5: 0,
            turn6: 0,
        },
    }
}

/// Builds the arm configuration of a composed motion.
pub fn arm_configuration(active: Option<ActiveConfigurationNumbers>) -> (r: ArmConfiguration)
    ensures
        r == composed_configuration(active),
{
    match active {
        Some(c) => ArmConfiguration {
            u_tool_number: c.u_tool_number as i8,
            u_frame_number: c.u_frame_number as i8,
            front: c.front as i8,
            up: c.up as i8,
            left: c.left as i8,
            flip: c.flip as i8,
            turn4: c.turn4 as i8,
            turn5: c.turn5 as i8,
            turn6: c.turn6 as i8,
        },
        None => ArmConfiguration {
            u_tool_number: 1,
            u_frame_number: 0,
            front: 1,
            up: 1,
            left: 0,
            flip: 0,
            turn4: 0,
            turn5: 0,
            turn6: 0,
        },
    }
}

/// The frame and tool stored with a recent command: the active
/// configuration's, narrowed to 8 bits, or frame 0 and tool 1.
pub fn recent_frame_tool(active: Option<ActiveConfigurationNumbers>) -> (r: (u8, u8))
    ensures
        r == match active {
            Some(c) => (c.u_frame_number as u8, c.u_tool_number as u8),
            None => (0u8, 1u8),
        },
{
    match active {
        Some(c) => (c.u_frame_number as u8, c.u_tool_number as u8),
        None => (0, 1),
    }
}

/// Recent commands kept.
pub const RECENT_COMMANDS_CAPACITY: usize = 15;

/// The recent commands after a new one: it comes first, and only the first
/// `cap` are kept.
pub open spec fn recent_after<T>(list: Seq<T>, item: T, cap: nat) -> Seq<T> {
    let l = seq![item] + list;
    if l.len() > cap {
        l.take(cap as int)
    } else {
        l
    }
}

/// Puts a command at the front of the recent list, keeping at most `cap`.
pub fn push_recent<T>(list: &mut Vec<T>, item: T, cap: usize)
    ensures
        final(list)@ == recent_after(old(list)@, item, cap as nat),
{
    list.insert(0, item);
    let ghost l = list@;
    assert(l =~= seq![item] + old(list)@);
    assert(l.take(l.len() as int) =~= l);
    while list.len() > cap
        invariant
            l == seq![item] + old(list)@,
            list@.len() <= l.len(),
            list@ == l.take(list@.len() as int),
            l.len() > cap ==> list@.len() >= cap,
            l.len() <= cap ==> list@.len() == l.len(),
        decreases list.len(),
    {
        let ghost prev = list@;
        list.pop();
        assert(list@ =~= l.take(list@.len() as int)) by {
            assert(list@ =~= prev.drop_last());
        }
    }
    proof {
        if l.len() > cap {
            assert(list@.len() == cap);
        }
    }
}

/// The first option of the recent-commands select.
pub open spec fn recent_commands_prompt_spec(count: nat) -> Seq<char> {
    if count == 0 {
        "No recent commands - use Composer to create"@
    } else {
        "Select from "@ + decimal(count) + " recent commands..."@
    }
}

/// The first option of the recent-commands select, from how many there are.
pub fn recent_commands_prompt(count: usize) -> (r: String)
    ensures
        r@ == recent_commands_prompt_spec(count as nat),
{
    if count == 0 {
        String::from_str("No recent commands - use Composer to create")
    } else {
        let mut s = String::from_str("Select from ");
        push_decimal(&mut s, count as u64);
        s.append(" recent commands...");
        s
    }
}

/// The speed override sent for a slider value: at most 100 percent.
pub fn clamp_override(value: u32) -> (r: u8)
    ensures
        r as nat == if value <= 100 { value as nat } else { 100 },
{
    if value < 100 {
        value as u8
    } else {
        100
    }
}


/// An absolute composer type is sent as an absolute instruction and a
/// relative type as a relative one, a Cartesian type as a linear
/// instruction and a joint type as a joint one; a joint target is sent in
/// the joint representation, so "Joint Absolute" moves to the angles given.
pub proof fn lemma_composed_instruction_kinds(t: InstructionType)
    ensures
        (t == InstructionType::LinearAbsolute || t == InstructionType::JointAbsolute) <==> (composed_instruction(t)
            == InstructionKind::LinearMotion || composed_instruction(t) == InstructionKind::JointMotion
            || composed_instruction(t) == InstructionKind::JointMotionJRep),
        (t == InstructionType::LinearRelative || t == InstructionType::JointRelative) <==> (composed_instruction(t)
            == InstructionKind::LinearRelative || composed_instruction(t) == InstructionKind::JointRelative
            || composed_instruction(t) == InstructionKind::JointRelativeJRep),
        (t == InstructionType::LinearAbsolute || t == InstructionType::LinearRelative) <==> (composed_instruction(t)
            == InstructionKind::LinearMotion || composed_instruction(t) == InstructionKind::LinearRelative),
        t == InstructionType::JointAbsolute ==> composed_instruction(t) == InstructionKind::JointMotionJRep,
        t == InstructionType::JointRelative ==> composed_instruction(t) == InstructionKind::JointRelativeJRep,
{
}

} // verus!
