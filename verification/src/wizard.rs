//! The robot creation wizard: its steps, the moves between them, and the
//! checks of the steps whose fields are text and whole numbers.

use vstd::prelude::*;
use vstd::string::*;
use crate::dto::NewRobotConfigurationDto;
use crate::text::{is_blank, is_blank_spec, parse_i32, parse_i32_spec, parse_u32, parse_u32_spec};

verus! {

/// A step of the wizard.
#[derive(Debug, Clone, Copy, PartialEq, Eq, Structural)]
pub enum WizardStep {
    ConnectionDetails,
    MotionDefaults,
    JogDefaults,
    DefaultConfiguration,
    AdditionalConfigurations,
}

/// The 1-based position of a step.
pub open spec fn step_number_spec(s: WizardStep) -> nat {
    match s {
        WizardStep::ConnectionDetails => 1,
        WizardStep::MotionDefaults => 2,
        WizardStep::JogDefaults => 3,
        WizardStep::DefaultConfiguration => 4,
        WizardStep::AdditionalConfigurations => 5,
    }
}

/// The step that "Next" leads to; the last step has none after it.
pub open spec fn next_step_spec(s: WizardStep) -> WizardStep {
    match s {
        WizardStep::ConnectionDetails => WizardStep::MotionDefaults,
        WizardStep::MotionDefaults => WizardStep::JogDefaults,
        WizardStep::JogDefaults => WizardStep::DefaultConfiguration,
        WizardStep::DefaultConfiguration => WizardStep::AdditionalConfigurations,
        WizardStep::AdditionalConfigurations => WizardStep::AdditionalConfigurations,
    }
}

/// The step that "Back" leads to; the first step has none before it.
pub open spec fn previous_step_spec(s: WizardStep) -> WizardStep {
    match s {
        WizardStep::ConnectionDetails => WizardStep::ConnectionDetails,
        WizardStep::MotionDefaults => WizardStep::ConnectionDetails,
        WizardStep::JogDefaults => WizardStep::MotionDefaults,
        WizardStep::DefaultConfiguration => WizardStep::JogDefaults,
        WizardStep::AdditionalConfigurations => WizardStep::DefaultConfiguration,
    }
}

/// How the progress header shows a step.
#[derive(Debug, Clone, Copy, PartialEq, Eq, Structural)]
pub enum StepBadge {
    /// The step being filled in.
    Current,
    /// A step already passed (shown with a check mark).
    Completed,
    /// A step still ahead.
    Pending,
}

impl WizardStep {
    /// The 1-based position of the step.
    pub fn step_number(&self) -> (r: usize)
        ensures
            r == step_number_spec(*self),
    {
        match self {
            WizardStep::ConnectionDetails => 1,
            WizardStep::MotionDefaults => 2,
            WizardStep::JogDefaults => 3,
            WizardStep::DefaultConfiguration => 4,
            WizardStep::AdditionalConfigurations => 5,
        }
    }

    /// The step's title.
    pub fn title(&self) -> (r: &'static str)
        ensures
            r@ == match *self {
                WizardStep::ConnectionDetails => "Connection Details"@,
                WizardStep::MotionDefaults => "Motion Defaults"@,
                WizardStep::JogDefaults => "Jog Defaults"@,
                WizardStep::DefaultConfiguration => "Default Configuration"@,
                WizardStep::AdditionalConfigurations => "Additional Configurations"@,
            },
    {
        match self {
            WizardStep::ConnectionDetails => "Connection Details",
            WizardStep::MotionDefaults => "Motion Defaults",
            WizardStep::JogDefaults => "Jog Defaults",
            WizardStep::DefaultConfiguration => "Default Configuration",
            WizardStep::AdditionalConfigurations => "Additional Configurations",
        }
    }

    /// The step's description.
    pub fn description(&self) -> (r: &'static str)
        ensures
            r@ == match *self {
                WizardStep::ConnectionDetails => "Enter robot name, IP address, and connection details"@,
                WizardStep::MotionDefaults => "Set default motion parameters for this robot"@,
                WizardStep::JogDefaults => "Configure jogging speeds and step sizes"@,
                WizardStep::DefaultConfiguration => "Create the default configuration (required)"@,
                WizardStep::AdditionalConfigurations => "Add more configurations (optional)"@,
            },
    {
        match self {
            WizardStep::ConnectionDetails => "Enter robot name, IP address, and connection details",
            WizardStep::MotionDefaults => "Set default motion parameters for this robot",
            WizardStep::JogDefaults => "Configure jogging speeds and step sizes",
            WizardStep::DefaultConfiguration => "Create the default configuration (required)",
            WizardStep::AdditionalConfigurations => "Add more configurations (optional)",
        }
    }

    /// The step that "Next" leads to once the current step is valid.
    pub fn next(&self) -> (r: WizardStep)
        ensures
            r == next_step_spec(*self),
    {
        match self {
            WizardStep::ConnectionDetails => WizardStep::MotionDefaults,
            WizardStep::MotionDefaults => WizardStep::JogDefaults,
            WizardStep::JogDefaults => WizardStep::DefaultConfiguration,
            WizardStep::DefaultConfiguration => WizardStep::AdditionalConfigurations,
            WizardStep::AdditionalConfigurations => WizardStep::AdditionalConfigurations,
        }
    }

    /// The step that "Back" leads to.
    pub fn previous(&self) -> (r: WizardStep)
        ensures
            r == previous_step_spec(*self),
    {
        match self {
            WizardStep::ConnectionDetails => WizardStep::ConnectionDetails,
            WizardStep::MotionDefaults => WizardStep::ConnectionDetails,
            WizardStep::JogDefaults => WizardStep::MotionDefaults,
            WizardStep::DefaultConfiguration => WizardStep::JogDefaults,
            WizardStep::AdditionalConfigurations => WizardStep::DefaultConfiguration,
        }
    }

    /// Whether the "Back" button is offered.
    pub fn can_go_back(&self) -> (r: bool)
        ensures
            r == (*self != WizardStep::ConnectionDetails),
    {
        !matches!(self, WizardStep::ConnectionDetails)
    }

    /// Whether the "Next" button is offered.
    pub fn can_go_next(&self) -> (r: bool)
        ensures
            r == (*self != WizardStep::AdditionalConfigurations),
    {
        !matches!(self, WizardStep::AdditionalConfigurations)
    }

    /// Whether the "Create Robot" button is offered: on the last step that
    /// must be filled in.
    pub fn is_last_required_step(&self) -> (r: bool)
        ensures
            r == (*self == WizardStep::DefaultConfiguration),
    {
        matches!(self, WizardStep::DefaultConfiguration)
    }

    /// How the progress header shows `step` while `self` is the current step.
    pub fn badge_for(&self, step: WizardStep) -> (r: StepBadge)
        ensures
            r == if *self == step {
                StepBadge::Current
            } else if step_number_spec(*self) > step_number_spec(step) {
                StepBadge::Completed
            } else {
                StepBadge::Pending
            },
    {
        if *self == step {
            StepBadge::Current
        } else if self.step_number() > step.step_number() {
            StepBadge::Completed
        } else {
            StepBadge::Pending
        }
    }
}

/// The steps shown in the progress header, in order.
pub fn header_steps() -> (r: Vec<WizardStep>)
    ensures
        r@ == seq![
            WizardStep::ConnectionDetails,
            WizardStep::MotionDefaults,
            WizardStep::JogDefaults,
            WizardStep::DefaultConfiguration,
        ],
{
    let mut v = Vec::new();
    v.push(WizardStep::ConnectionDetails);
    v.push(WizardStep::MotionDefaults);
    v.push(WizardStep::JogDefaults);
    v.push(WizardStep::DefaultConfiguration);
    v
}

/// "Next" and "Back" undo each other between the first and the last step,
/// and "Next" moves one step on.
pub proof fn lemma_wizard_navigation(s: WizardStep)
    ensures
        s != WizardStep::AdditionalConfigurations ==> previous_step_spec(next_step_spec(s)) == s,
        s != WizardStep::AdditionalConfigurations ==> step_number_spec(next_step_spec(s)) == step_number_spec(s) + 1,
        s != WizardStep::ConnectionDetails ==> next_step_spec(previous_step_spec(s)) == s,
        1 <= step_number_spec(s) <= 5,
{
}

// ---------------------------------------------------------------------------
// Step checks
// ---------------------------------------------------------------------------

/// The check of the connection step: a name and an IP address that are not
/// blank, and a port that reads as an unsigned 32-bit number, which is the
/// result.
pub open spec fn connection_details_check(name: Seq<char>, ip: Seq<char>, port: Seq<char>) -> Result<u32, Seq<char>> {
    if is_blank_spec(name) {
        Err("Robot name is required"@)
    } else if is_blank_spec(ip) {
        Err("IP address is required"@)
    } else {
        match parse_u32_spec(port) {
            Some(p) => Ok(p),
            None => Err("Invalid port number"@),
        }
    }
}

/// Checks the connection step and gives the port number.
pub fn validate_connection_details(name: &str, ip: &str, port: &str) -> (r: Result<u32, String>)
    ensures
        match (r, connection_details_check(name@, ip@, port@)) {
            (Ok(p), Ok(q)) => p == q,
            (Err(e), Err(f)) => e@ == f,
            _ => false,
        },
{
    if is_blank(name) {
        return Err(String::from_str("Robot name is required"));
    }
    if is_blank(ip) {
        return Err(String::from_str("IP address is required"));
    }
    match parse_u32(port) {
        Some(p) => Ok(p),
        None => Err(String::from_str("Invalid port number")),
    }
}

/// The whole numbers of the default configuration step.
#[derive(Debug, Clone, Copy, PartialEq, Eq, Structural)]
pub struct ConfigurationNumbers {
    pub u_frame_number: i32,
    pub u_tool_number: i32,
    pub turn4: i32,
    pub turn5: i32,
    pub turn6: i32,
}

/// The check of the default configuration step, field by field in the
/// order the form shows them: a name that is not blank, a user frame from 0
/// to 9, a user tool from 1 to 10, and three turn numbers.
pub open spec fn configuration_check(
    name: Seq<char>,
    uframe: Seq<char>,
    utool: Seq<char>,
    turn4: Seq<char>,
    turn5: Seq<char>,
    turn6: Seq<char>,
) -> Result<ConfigurationNumbers, Seq<char>> {
    if is_blank_spec(name) {
        Err("Configuration name is required"@)
    } else if parse_i32_spec(uframe) is None {
        Err("Invalid UFrame number"@)
    } else if !(0 <= parse_i32_spec(uframe)->0 <= 9) {
        Err("UFrame must be between 0 and 9"@)
    } else if parse_i32_spec(utool) is None {
        Err("Invalid UTool number"@)
    } else if !(1 <= parse_i32_spec(utool)->0 <= 10) {
        Err("UTool must be between 1 and 10 (Tool 0 is invalid)"@)
    } else if parse_i32_spec(turn4) is None {
        Err("Invalid Turn 4 value"@)
    } else if parse_i32_spec(turn5) is None {
        Err("Invalid Turn 5 value"@)
    } else if parse_i32_spec(turn6) is None {
        Err("Invalid Turn 6 value"@)
    } else {
        Ok(
            ConfigurationNumbers {
                u_frame_number: parse_i32_spec(uframe)->0,
                u_tool_number: parse_i32_spec(utool)->0,
                turn4: parse_i32_spec(turn4)->0,
                turn5: parse_i32_spec(turn5)->0,
                turn6: parse_i32_spec(turn6)->0,
            },
        )
    }
}

/// Checks the default configuration step and gives its numbers.
pub fn validate_default_configuration(
    name: &str,
    uframe: &str,
    utool: &str,
    turn4: &str,
    turn5: &str,
    turn6: &str,
) -> (r: Result<ConfigurationNumbers, String>)
    ensures
        match (r, configuration_check(name@, uframe@, utool@, turn4@, turn5@, turn6@)) {
            (Ok(n), Ok(m)) => n == m,
            (Err(e), Err(f)) => e@ == f,
            _ => false,
        },
{
    if is_blank(name) {
        return Err(String::from_str("Configuration name is required"));
    }
    let f = match parse_i32(uframe) {
        Some(v) => v,
        None => {
            return Err(String::from_str("Invalid UFrame number"));
        },
    };
    if !(0 <= f && f <= 9) {
        return Err(String::from_str("UFrame must be between 0 and 9"));
    }
    let t = match parse_i32(utool) {
        Some(v) => v,
        None => {
            return Err(String::from_str("Invalid UTool number"));
        },
    };
    if !(1 <= t && t <= 10) {
        return Err(String::from_str("UTool must be between 1 and 10 (Tool 0 is invalid)"));
    }
    let t4 = match parse_i32(turn4) {
        Some(v) => v,
        None => {
            return Err(String::from_str("Invalid Turn 4 value"));
        },
    };
    let t5 = match parse_i32(turn5) {
        Some(v) => v,
        None => {
            return Err(String::from_str("Invalid Turn 5 value"));
        },
    };
    let t6 = match parse_i32(turn6) {
        Some(v) => v,
        None => {
            return Err(String::from_str("Invalid Turn 6 value"));
        },
    };
    Ok(ConfigurationNumbers { u_frame_number: f, u_tool_number: t, turn4: t4, turn5: t5, turn6: t6 })
}

/// The default configuration that the wizard submits with a new robot.
pub fn default_configuration(
    name: String,
    numbers: ConfigurationNumbers,
    front: i32,
    up: i32,
    left: i32,
    flip: i32,
) -> (r: NewRobotConfigurationDto)
    ensures
        r.name == name,
        r.is_default,
        r.u_frame_number == numbers.u_frame_number,
        r.u_tool_number == numbers.u_tool_number,
        r.front == front,
        r.up == up,
        r.left == left,
        r.flip == flip,
        r.turn4 == numbers.turn4,
        r.turn5 == numbers.turn5,
        r.turn6 == numbers.turn6,
{
    NewRobotConfigurationDto {
        name,
        is_default: true,
        u_frame_number: numbers.u_frame_number,
        u_tool_number: numbers.u_tool_number,
        front,
        up,
        left,
        flip,
        turn4: numbers.turn4,
        turn5: numbers.turn5,
        turn6: numbers.turn6,
    }
}


/// A valid default configuration step gives back the numbers of its own
/// fields, each parsed as `str::parse::<i32>` does, with the frame from 0 to
/// 9 and the tool from 1 to 10; it is valid exactly when the name is not
/// blank, every number field parses and both numbers are in range.
pub proof fn lemma_configuration_numbers(
    name: Seq<char>,
    uframe: Seq<char>,
    utool: Seq<char>,
    turn4: Seq<char>,
    turn5: Seq<char>,
    turn6: Seq<char>,
)
    ensures
        configuration_check(name, uframe, utool, turn4, turn5, turn6) matches Ok(n) ==> {
            &&& parse_i32_spec(uframe) == Some(n.u_frame_number)
            &&& parse_i32_spec(utool) == Some(n.u_tool_number)
            &&& parse_i32_spec(turn4) == Some(n.turn4)
            &&& parse_i32_spec(turn5) == Some(n.turn5)
            &&& parse_i32_spec(turn6) == Some(n.turn6)
            &&& 0 <= n.u_frame_number <= 9
            &&& 1 <= n.u_tool_number <= 10
        },
        configuration_check(name, uframe, utool, turn4, turn5, turn6) is Ok <==> {
            &&& !is_blank_spec(name)
            &&& parse_i32_spec(uframe) matches Some(f) && 0 <= f <= 9
            &&& parse_i32_spec(utool) matches Some(t) && 1 <= t <= 10
            &&& parse_i32_spec(turn4) is Some
            &&& parse_i32_spec(turn5) is Some
            &&& parse_i32_spec(turn6) is Some
        },
{
}

} // verus!
