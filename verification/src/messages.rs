//! The notices and log lines that the client writes for server events: the
//! texts themselves, each with the exact string it is.

use vstd::prelude::*;
use vstd::string::*;
use crate::text::{decimal, push_decimal, push_signed_decimal, signed_decimal};

verus! {

/// `Error: <message>`, the notice for an error answer of the server.
pub open spec fn error_notice_spec(message: Seq<char>) -> Seq<char> {
    "Error: "@ + message
}

/// The notice for an error answer of the server.
pub fn error_notice(message: &str) -> (r: String)
    ensures
        r@ == error_notice_spec(message@),
{
    let mut s = String::from_str("Error: ");
    s.append(message);
    s
}

/// `<address>:<port>`, the robot address shown in the UI.
pub open spec fn robot_address_spec(addr: Seq<char>, port: u32) -> Seq<char> {
    addr + ":"@ + decimal(port as nat)
}

/// The robot address shown in the UI.
pub fn robot_address(addr: &str, port: u32) -> (r: String)
    ensures
        r@ == robot_address_spec(addr@, port),
{
    let mut s = String::from_str(addr);
    s.append(":");
    push_decimal(&mut s, port as u64);
    s
}

/// `Connected to '<name>'`.
pub open spec fn connected_notice_spec(name: Seq<char>) -> Seq<char> {
    "Connected to '"@ + name + "'"@
}

/// The notice after connecting to a saved robot.
pub fn connected_notice(name: &str) -> (r: String)
    ensures
        r@ == connected_notice_spec(name@),
{
    let mut s = String::from_str("Connected to '");
    s.append(name);
    s.append("'");
    s
}

/// `Robot '<name>' created successfully`.
pub open spec fn created_notice_spec(name: Seq<char>) -> Seq<char> {
    "Robot '"@ + name + "' created successfully"@
}

/// The notice after the server created a robot connection.
pub fn created_notice(name: &str) -> (r: String)
    ensures
        r@ == created_notice_spec(name@),
{
    let mut s = String::from_str("Robot '");
    s.append(name);
    s.append("' created successfully");
    s
}

/// `<name> (copy)`, the name offered when a program is saved under a new
/// name.
pub open spec fn copy_name_spec(name: Seq<char>) -> Seq<char> {
    name + " (copy)"@
}

/// The name offered when a program is saved under a new name.
pub fn copy_name(name: &str) -> (r: String)
    ensures
        r@ == copy_name_spec(name@),
{
    let mut s = String::from_str(name);
    s.append(" (copy)");
    s
}

/// `Program saved as '<name>'`.
pub open spec fn saved_as_notice_spec(name: Seq<char>) -> Seq<char> {
    "Program saved as '"@ + name + "'"@
}

/// The notice after a program was saved under a new name.
pub fn saved_as_notice(name: &str) -> (r: String)
    ensures
        r@ == saved_as_notice_spec(name@),
{
    let mut s = String::from_str("Program saved as '");
    s.append(name);
    s.append("'");
    s
}

/// `<n> unsaved change`, with an `s` unless `n` is one.
pub open spec fn unsaved_changes_label_spec(count: u32) -> Seq<char> {
    decimal(count as nat) + " unsaved change"@ + if count == 1 {
        Seq::empty()
    } else {
        "s"@
    }
}

/// The count of changes made to the active configuration since it was
/// loaded.
pub fn unsaved_changes_label(count: u32) -> (r: String)
    ensures
        r@ == unsaved_changes_label_spec(count),
{
    let mut s = String::new();
    push_decimal(&mut s, count as u64);
    s.append(" unsaved change");
    if count != 1 {
        s.append("s");
    }
    proof {
        if count == 1 {
            assert(s@ =~= unsaved_changes_label_spec(count));
        }
    }
    s
}

/// A fixed prefix followed by a reason.
pub open spec fn prefixed_spec(prefix: Seq<char>, reason: Seq<char>) -> Seq<char> {
    prefix + reason
}

/// A fixed prefix followed by a reason, as a new string.
pub fn prefixed(prefix: &str, reason: &str) -> (r: String)
    ensures
        r@ == prefixed_spec(prefix@, reason@),
{
    let mut s = String::from_str(prefix);
    s.append(reason);
    s
}

/// The error-log line for an error the robot reported: its type in
/// brackets, the message, the error ID when there is one, and the raw data
/// when there is some.
pub open spec fn robot_error_line_spec(
    error_type: Seq<char>,
    message: Seq<char>,
    error_id: Option<i32>,
    raw: Option<Seq<char>>,
) -> Seq<char> {
    let head = "["@ + error_type + "] "@ + message;
    let with_id = match error_id {
        Some(id) => head + " (ErrorID: "@ + signed_decimal(id as int) + ")"@,
        None => head,
    };
    match raw {
        Some(r) => with_id + " | Raw: "@ + r,
        None => with_id,
    }
}

/// The error-log line for an error the robot reported.
pub fn robot_error_line(error_type: &str, message: &str, error_id: Option<i32>, raw: &Option<String>) -> (r: String)
    ensures
        r@ == robot_error_line_spec(
            error_type@,
            message@,
            error_id,
            match raw {
                Some(x) => Some(x@),
                None => None,
            },
        ),
{
    let mut s = String::from_str("[");
    s.append(error_type);
    s.append("] ");
    s.append(message);
    match error_id {
        Some(id) => {
            s.append(" (ErrorID: ");
            push_signed_decimal(&mut s, id as i64);
            s.append(")");
        },
        None => {},
    }
    match raw {
        Some(x) => {
            s.append(" | Raw: ");
            s.append(x.as_str());
        },
        None => {},
    }
    s
}

/// Whether a robot error is shown as a toast too: protocol and
/// communication errors are.
pub open spec fn is_critical_error_type(error_type: Seq<char>) -> bool {
    error_type == "protocol"@ || error_type == "communication"@
}

/// The toast for a critical robot error.
pub open spec fn robot_error_toast_spec(message: Seq<char>, raw: Option<Seq<char>>) -> Seq<char> {
    match raw {
        Some(r) => "Robot error: "@ + message + " | Raw: "@ + r,
        None => "Robot error: "@ + message,
    }
}

/// The toast for a critical robot error.
pub fn robot_error_toast(message: &str, raw: &Option<String>) -> (r: String)
    ensures
        r@ == robot_error_toast_spec(
            message@,
            match raw {
                Some(x) => Some(x@),
                None => None,
            },
        ),
{
    let mut s = String::from_str("Robot error: ");
    s.append(message);
    match raw {
        Some(x) => {
            s.append(" | Raw: ");
            s.append(x.as_str());
        },
        None => {},
    }
    s
}

/// `<command> failed`, with the error ID when there is one.
pub open spec fn command_failed_spec(command: Seq<char>, error_id: Option<i32>) -> Seq<char> {
    match error_id {
        Some(id) => command + " failed (ErrorID: "@ + signed_decimal(id as int) + ")"@,
        None => command + " failed"@,
    }
}

/// The motion-log line for the result of a robot command.
pub open spec fn command_result_line_spec(
    command: Seq<char>,
    success: bool,
    error_id: Option<i32>,
    message: Option<Seq<char>>,
) -> Seq<char> {
    if success {
        "✓ "@ + command + " completed"@
    } else {
        match message {
            Some(m) => "✗ "@ + command + " failed: "@ + m,
            None => "✗ "@ + command_failed_spec(command, error_id),
        }
    }
}

/// The motion-log line for the result of a robot command.
pub fn command_result_line(command: &str, success: bool, error_id: Option<i32>, message: &Option<String>) -> (r: String)
    ensures
        r@ == command_result_line_spec(
            command@,
            success,
            error_id,
            match message {
                Some(x) => Some(x@),
                None => None,
            },
        ),
{
    if success {
        let mut s = String::from_str("✓ ");
        s.append(command);
        s.append(" completed");
        return s;
    }
    match message {
        Some(m) => {
            let mut s = String::from_str("✗ ");
            s.append(command);
            s.append(" failed: ");
            s.append(m.as_str());
            s
        },
        None => {
            let mut s = String::from_str("✗ ");
            let f = command_failed(command, error_id);
            s.append(f.as_str());
            assert(s@ =~= "✗ "@ + command_failed_spec(command@, error_id));
            s
        },
    }
}

/// The text for a failed robot command.
pub fn command_failed(command: &str, error_id: Option<i32>) -> (r: String)
    ensures
        r@ == command_failed_spec(command@, error_id),
{
    let mut s = String::from_str(command);
    match error_id {
        Some(id) => {
            s.append(" failed (ErrorID: ");
            push_signed_decimal(&mut s, id as i64);
            s.append(")");
        },
        None => {
            s.append(" failed");
        },
    }
    s
}

/// `<command> completed`.
pub open spec fn command_completed_spec(command: Seq<char>) -> Seq<char> {
    command + " completed"@
}

/// The notice for a robot command that succeeded.
pub fn command_completed(command: &str) -> (r: String)
    ensures
        r@ == command_completed_spec(command@),
{
    let mut s = String::from_str(command);
    s.append(" completed");
    s
}

/// The error toast for a WebSocket that closed, by its close code: 1000 is a
/// normal close, 1006 a lost connection, any other code is reported with the
/// reason the socket gave.
pub open spec fn socket_closed_notice_spec(code: u16, reason: Seq<char>) -> Seq<char> {
    if code == 1000 {
        "WebSocket connection closed normally"@
    } else if code == 1006 {
        "WebSocket connection lost - server may be down"@
    } else {
        "WebSocket disconnected: "@ + reason + " (code "@ + decimal(code as nat) + ")"@
    }
}

/// The error toast for a WebSocket that closed.
pub fn socket_closed_notice(code: u16, reason: &str) -> (r: String)
    ensures
        r@ == socket_closed_notice_spec(code, reason@),
{
    if code == 1000 {
        String::from_str("WebSocket connection closed normally")
    } else if code == 1006 {
        String::from_str("WebSocket connection lost - server may be down")
    } else {
        let mut s = String::from_str("WebSocket disconnected: ");
        s.append(reason);
        s.append(" (code ");
        push_decimal(&mut s, code as u64);
        s.append(")");
        s
    }
}

/// The two lower-case hexadecimal digits of a byte.
pub open spec fn hex_byte(b: u8) -> Seq<char> {
    seq![hex_digit((b / 16) as nat), hex_digit((b % 16) as nat)]
}

/// A lower-case hexadecimal digit.
pub open spec fn hex_digit(d: nat) -> char {
    if d < 10 {
        ((d + 48) as u32) as char
    } else {
        ((d + 87) as u32) as char
    }
}

/// Bytes as lower-case hexadecimal pairs separated by single spaces.
pub open spec fn hex_pairs(bytes: Seq<u8>) -> Seq<char>
    decreases bytes.len(),
{
    if bytes.len() == 0 {
        Seq::empty()
    } else if bytes.len() == 1 {
        hex_byte(bytes[0])
    } else {
        hex_pairs(bytes.drop_last()) + seq![' '] + hex_byte(bytes.last())
    }
}

/// The hex dump logged for a binary message that could not be decoded: all
/// bytes up to 64 of them, otherwise the first 64 followed by the total.
pub open spec fn hex_dump_spec(bytes: Seq<u8>) -> Seq<char> {
    if bytes.len() <= 64 {
        hex_pairs(bytes)
    } else {
        hex_pairs(bytes.take(64)) + "... ("@ + decimal(bytes.len()) + " bytes total)"@
    }
}

/// The characters of a hexadecimal digit value.
fn hex_digit_str(d: u8) -> (r: &'static str)
    requires
        d < 16,
    ensures
        r@ == seq![hex_digit(d as nat)],
{
    let digits = "0123456789abcdef";
    proof {
        reveal_strlit("0123456789abcdef");
    }
    let i = d as usize;
    let r = digits.substring_char(i, i + 1);
    assert(r@ =~= seq![hex_digit(d as nat)]);
    r
}

/// Appends the space-separated hex pairs of the first `n` bytes.
fn push_hex_pairs(s: &mut String, bytes: &[u8], n: usize)
    requires
        n <= bytes@.len(),
    ensures
        final(s)@ == old(s)@ + hex_pairs(bytes@.take(n as int)),
{
    let mut i: usize = 0;
    assert(bytes@.take(0) =~= Seq::<u8>::empty());
    proof {
        reveal_strlit(" ");
    }
    while i < n
        invariant
            i <= n,
            n <= bytes@.len(),
            s@ == old(s)@ + hex_pairs(bytes@.take(i as int)),
        decreases n - i,
    {
        let b = bytes[i];
        if i > 0 {
            proof {
                reveal_strlit(" ");
            }
            s.append(" ");
        }
        s.append(hex_digit_str(b / 16));
        s.append(hex_digit_str(b % 16));
        proof {
            let t = bytes@.take(i + 1);
            assert(t.drop_last() =~= bytes@.take(i as int));
            assert(t.last() == b);
            if i > 0 {
                assert(s@ =~= old(s)@ + hex_pairs(t));
            } else {
                assert(t =~= seq![b]);
                assert(s@ =~= old(s)@ + hex_pairs(t));
            }
        }
        i = i + 1;
    }
}

/// The hex dump of an undecodable binary message.
pub fn hex_dump(bytes: &[u8]) -> (r: String)
    ensures
        r@ == hex_dump_spec(bytes@),
{
    let mut s = String::new();
    if bytes.len() <= 64 {
        push_hex_pairs(&mut s, bytes, bytes.len());
        assert(bytes@.take(bytes@.len() as int) =~= bytes@);
    } else {
        push_hex_pairs(&mut s, bytes, 64);
        s.append("... (");
        push_decimal(&mut s, bytes.len() as u64);
        s.append(" bytes total)");
    }
    assert(s@ =~= hex_dump_spec(bytes@));
    s
}

/// The console text for a binary message that could not be decoded.
pub open spec fn undecodable_binary_text_spec(bytes: Seq<u8>) -> Seq<char> {
    "Failed to deserialize binary response. Hex: "@ + hex_dump_spec(bytes)
}

/// The console text for a binary message that could not be decoded.
pub fn undecodable_binary_text(bytes: &[u8]) -> (r: String)
    ensures
        r@ == undecodable_binary_text_spec(bytes@),
{
    let mut s = String::from_str("Failed to deserialize binary response. Hex: ");
    let d = hex_dump(bytes);
    s.append(d.as_str());
    s
}

/// The console text for a text message that was not a known response.
pub open spec fn unparsed_text_spec(text: Seq<char>) -> Seq<char> {
    "Failed to parse JSON response. Raw data: "@ + text
}

/// The console text for a text message that was not a known response.
pub fn unparsed_text(text: &str) -> (r: String)
    ensures
        r@ == unparsed_text_spec(text@),
{
    let mut s = String::from_str("Failed to parse JSON response. Raw data: ");
    s.append(text);
    s
}

} // verus!
