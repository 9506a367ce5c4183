//! The robot settings forms: the saved connection's details and the named
//! configurations of a robot, read from the text of their fields.

use vstd::prelude::*;
use vstd::string::*;
use crate::text::{has_prefix, parse_i32, parse_i32_spec, parse_u16, parse_u16_spec, parse_u32, parse_u32_spec, starts_with};

verus! {

/// The port used when the port field does not read as a number.
pub const DEFAULT_ROBOT_PORT: u32 = 16001;

/// A whole-number field as the forms read it: its value, or 0 when it does
/// not parse.
pub open spec fn number_or_zero(text: Seq<char>) -> i32 {
    match parse_i32_spec(text) {
        Some(v) => v,
        None => 0,
    }
}

/// The port field as the connection form reads it: its value, or the
/// default port when it does not parse.
pub open spec fn port_or_default(text: Seq<char>) -> u32 {
    match parse_u32_spec(text) {
        Some(p) => p,
        None => DEFAULT_ROBOT_PORT,
    }
}

/// Reads a whole-number field, with 0 for text that is not a number.
fn read_number(text: &str) -> (r: i32)
    ensures
        r == number_or_zero(text@),
{
    match parse_i32(text) {
        Some(v) => v,
        None => 0,
    }
}

// ---------------------------------------------------------------------------
// Connection details
// ---------------------------------------------------------------------------

/// The connection details to save for a robot.
pub struct RobotConnectionEdit {
    pub name: String,
    pub description: Option<String>,
    pub ip_address: String,
    pub port: u32,
}

/// Reads the connection fields to save: an empty description is none, and
/// a port that does not parse is the default port.
pub fn connection_edit(name: String, description: String, ip_address: String, port: &str) -> (r: RobotConnectionEdit)
    ensures
        r.name == name,
        r.ip_address == ip_address,
        r.port == port_or_default(port@),
        description@.len() == 0 ==> r.description is None,
        description@.len() > 0 ==> r.description == Some(description),
{
    let port = match parse_u32(port) {
        Some(p) => p,
        None => DEFAULT_ROBOT_PORT,
    };
    let description = if description.as_str().unicode_len() == 0 {
        None
    } else {
        Some(description)
    };
    RobotConnectionEdit { name, description, ip_address, port }
}

// ---------------------------------------------------------------------------
// Configurations
// ---------------------------------------------------------------------------

/// The text of the configuration form's fields.
pub struct ConfigurationForm {
    pub name: String,
    pub is_default: bool,
    pub u_frame_number: String,
    pub u_tool_number: String,
    pub front: String,
    pub up: String,
    pub left: String,
    pub flip: String,
    pub turn4: String,
    pub turn5: String,
    pub turn6: String,
}

/// A configuration read from the form.
pub struct ConfigurationFields {
    pub name: String,
    pub is_default: bool,
    pub u_frame_number: i32,
    pub u_tool_number: i32,
    pub front: i32,
    pub up: i32,
    pub left: i32,
    pub flip: i32,
    pub turn4: i32,
    pub turn5: i32,
    pub turn6: i32,
}

/// What saving the configuration form asks of the server.
pub enum ConfigurationSubmit {
    /// A new configuration for the robot.
    Create { robot_connection_id: i64, fields: ConfigurationFields },
    /// New values for the configuration being edited.
    Update { id: i64, fields: ConfigurationFields },
}

/// The fields hold what the form reads: the name and the default flag as
/// they are, each number field as its value or 0.
pub open spec fn fields_read_from(f: ConfigurationFields, form: ConfigurationForm) -> bool {
    &&& f.name@ == form.name@
    &&& f.is_default == form.is_default
    &&& f.u_frame_number == number_or_zero(form.u_frame_number@)
    &&& f.u_tool_number == number_or_zero(form.u_tool_number@)
    &&& f.front == number_or_zero(form.front@)
    &&& f.up == number_or_zero(form.up@)
    &&& f.left == number_or_zero(form.left@)
    &&& f.flip == number_or_zero(form.flip@)
    &&& f.turn4 == number_or_zero(form.turn4@)
    &&& f.turn5 == number_or_zero(form.turn5@)
    &&& f.turn6 == number_or_zero(form.turn6@)
}

/// Why the configuration form cannot be saved, if it cannot: no robot is
/// selected, or the name is empty.
pub open spec fn configuration_form_error(robot_id: Option<i64>, name: Seq<char>) -> Option<Seq<char>> {
    if robot_id is None {
        Some("No robot selected"@)
    } else if name.len() == 0 {
        Some("Configuration name is required"@)
    } else {
        None
    }
}

/// Reads the configuration form for the selected robot. It updates the
/// configuration being edited, if any, and otherwise creates one for the
/// robot.
pub fn submit_configuration_form(robot_id: Option<i64>, editing_id: Option<i64>, form: ConfigurationForm) -> (r: Result<
    ConfigurationSubmit,
    String,
>)
    ensures
        match r {
            Err(e) => configuration_form_error(robot_id, form.name@) == Some(e@),
            Ok(ConfigurationSubmit::Create { robot_connection_id, fields }) => {
                &&& configuration_form_error(robot_id, form.name@) is None
                &&& editing_id is None
                &&& robot_id == Some(robot_connection_id)
                &&& fields_read_from(fields, form)
            },
            Ok(ConfigurationSubmit::Update { id, fields }) => {
                &&& configuration_form_error(robot_id, form.name@) is None
                &&& editing_id == Some(id)
                &&& fields_read_from(fields, form)
            },
        },
{
    let robot = match robot_id {
        Some(id) => id,
        None => {
            return Err(String::from_str("No robot selected"));
        },
    };
    if form.name.as_str().unicode_len() == 0 {
        return Err(String::from_str("Configuration name is required"));
    }
    let u_frame_number = read_number(form.u_frame_number.as_str());
    let u_tool_number = read_number(form.u_tool_number.as_str());
    let front = read_number(form.front.as_str());
    let up = read_number(form.up.as_str());
    let left = read_number(form.left.as_str());
    let flip = read_number(form.flip.as_str());
    let turn4 = read_number(form.turn4.as_str());
    let turn5 = read_number(form.turn5.as_str());
    let turn6 = read_number(form.turn6.as_str());
    let fields = ConfigurationFields {
        name: form.name,
        is_default: form.is_default,
        u_frame_number,
        u_tool_number,
        front,
        up,
        left,
        flip,
        turn4,
        turn5,
        turn6,
    };
    match editing_id {
        Some(id) => Ok(ConfigurationSubmit::Update { id, fields }),
        None => Ok(ConfigurationSubmit::Create { robot_connection_id: robot, fields }),
    }
}

// ---------------------------------------------------------------------------
// Client settings
// ---------------------------------------------------------------------------

/// The server address the client starts with.
pub const DEFAULT_SERVER_URL: &'static str = "ws://127.0.0.1:9000";

/// The check of the client settings before reconnecting: the server address
/// must be a WebSocket one, and the robot port a 16-bit number, which is the
/// result.
pub open spec fn client_settings_check(url: Seq<char>, port: Seq<char>) -> Result<u16, Seq<char>> {
    if !has_prefix(url, "ws://"@) && !has_prefix(url, "wss://"@) {
        Err("❌ WebSocket URL must start with ws:// or wss://"@)
    } else {
        match parse_u16_spec(port) {
            Some(p) => Ok(p),
            None => Err("❌ Invalid port number"@),
        }
    }
}

/// Checks the client settings; the error is the status line to show.
pub fn validate_client_settings(url: &str, port: &str) -> (r: Result<u16, String>)
    ensures
        match (r, client_settings_check(url@, port@)) {
            (Ok(p), Ok(q)) => p == q,
            (Err(e), Err(f)) => e@ == f,
            _ => false,
        },
{
    if !starts_with(url, "ws://") && !starts_with(url, "wss://") {
        return Err(String::from_str("❌ WebSocket URL must start with ws:// or wss://"));
    }
    match parse_u16(port) {
        Some(p) => Ok(p),
        None => Err(String::from_str("❌ Invalid port number")),
    }
}

} // verus!
