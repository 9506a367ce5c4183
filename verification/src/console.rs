//! The client's logs: the console of sent and received messages, and the
//! bounded motion and error logs, each of which keeps only its latest
//! entries.

use vstd::prelude::*;
use vstd::string::*;
use crate::text::{decimal, push_decimal, push_zero_padded, zero_padded};

verus! {

/// Entries the console keeps.
pub const CONSOLE_CAPACITY: usize = 100;

/// Direction of a console message.
#[derive(Clone, Copy, Debug, PartialEq, Eq, Structural)]
pub enum MessageDirection {
    /// Sent to robot (→)
    Sent,
    /// Received from robot (←)
    Received,
    /// System/status message (•)
    System,
}

/// Type of a console message.
#[derive(Clone, Copy, Debug, PartialEq, Eq, Structural)]
pub enum MessageType {
    /// Command sent to robot
    Command,
    /// Response from robot (success)
    Response,
    /// Error response
    Error,
    /// Status update
    Status,
    /// Configuration change
    Config,
}

/// A console message with its time stamp and direction.
#[derive(Debug)]
pub struct ConsoleMessage {
    /// Time stamp in HH:MM:SS.mmm format
    pub timestamp: String,
    /// Milliseconds since the epoch, for sorting
    pub timestamp_ms: u64,
    /// Message direction
    pub direction: MessageDirection,
    /// Message type
    pub msg_type: MessageType,
    /// Message content
    pub content: String,
    /// Optional sequence ID for matching requests and responses
    pub sequence_id: Option<u32>,
}

/// The arrow that marks a message's direction in the console: `→` sent,
/// `←` received, `•` system.
pub open spec fn direction_icon_spec(d: MessageDirection) -> Seq<char> {
    match d {
        MessageDirection::Sent => "→"@,
        MessageDirection::Received => "←"@,
        MessageDirection::System => "•"@,
    }
}

/// The arrow that marks a message's direction in the console.
pub fn direction_icon(d: MessageDirection) -> (r: &'static str)
    ensures
        r@ == direction_icon_spec(d),
{
    match d {
        MessageDirection::Sent => "→",
        MessageDirection::Received => "←",
        MessageDirection::System => "•",
    }
}

/// `[<time stamp>]`, the time column of a console row.
pub open spec fn timestamp_label_spec(timestamp: Seq<char>) -> Seq<char> {
    "["@ + timestamp + "]"@
}

/// The time column of a console row.
pub fn timestamp_label(timestamp: &str) -> (r: String)
    ensures
        r@ == timestamp_label_spec(timestamp@),
{
    let mut s = String::from_str("[");
    s.append(timestamp);
    s.append("]");
    s
}

/// ` seq=<id>` after a message that carries a sequence ID, nothing after
/// one that does not.
pub open spec fn sequence_label_spec(sequence_id: Option<u32>) -> Seq<char> {
    match sequence_id {
        Some(id) => " seq="@ + decimal(id as nat),
        None => Seq::empty(),
    }
}

/// The sequence ID shown after a console message.
pub fn sequence_label(sequence_id: Option<u32>) -> (r: String)
    ensures
        r@ == sequence_label_spec(sequence_id),
{
    match sequence_id {
        Some(id) => {
            let mut s = String::from_str(" seq=");
            push_decimal(&mut s, id as u64);
            s
        },
        None => String::new(),
    }
}

/// The last `count` entries of a log, newest first.
pub open spec fn newest_first(log: Seq<Seq<char>>, count: nat) -> Seq<Seq<char>> {
    let n = if count < log.len() {
        count
    } else {
        log.len()
    };
    Seq::new(n, |i: int| log[log.len() - 1 - i])
}

/// The entries a log panel shows: at most `count` of them, newest first.
pub fn newest_entries(log: &Vec<String>, count: usize) -> (r: Vec<String>)
    ensures
        r@.map_values(|e: String| e@) == newest_first(log@.map_values(|e: String| e@), count as nat),
{
    let ghost view = log@.map_values(|e: String| e@);
    let mut out: Vec<String> = Vec::new();
    let mut k: usize = 0;
    while k < count && k < log.len()
        invariant
            k <= log@.len(),
            k <= count,
            view == log@.map_values(|e: String| e@),
            out@.map_values(|e: String| e@) =~= Seq::new(k as nat, |i: int| view[view.len() - 1 - i]),
        decreases log.len() - k,
    {
        let ghost before = out@.map_values(|e: String| e@);
        let entry = log[log.len() - 1 - k].clone();
        assert(entry@ == view[view.len() - 1 - k]);
        out.push(entry);
        assert(out@.map_values(|e: String| e@) =~= before.push(entry@));
        k = k + 1;
    }
    assert(out@.map_values(|e: String| e@) =~= newest_first(view, count as nat));
    out
}

/// A local time of day and the epoch time it was read at.
#[derive(Debug)]
pub struct Clock {
    /// The time of day as `HH:MM:SS.mmm`.
    pub timestamp: String,
    /// Milliseconds since the epoch.
    pub timestamp_ms: u64,
}

/// The `HH:MM:SS.mmm` rendering of a time of day: each part zero-padded
/// (two digits, three for the milliseconds).
pub open spec fn clock_text(h: u32, m: u32, s: u32, ms: u32) -> Seq<char> {
    zero_padded(h as nat, 2) + ":"@ + zero_padded(m as nat, 2) + ":"@ + zero_padded(s as nat, 2) + "."@
        + zero_padded(ms as nat, 3)
}

/// Renders a time of day as `HH:MM:SS.mmm`.
pub fn format_clock(h: u32, m: u32, s: u32, ms: u32) -> (r: String)
    ensures
        r@ == clock_text(h, m, s, ms),
{
    let mut t = String::new();
    push_zero_padded(&mut t, h as u64, 2);
    t.append(":");
    push_zero_padded(&mut t, m as u64, 2);
    t.append(":");
    push_zero_padded(&mut t, s as u64, 2);
    t.append(".");
    push_zero_padded(&mut t, ms as u64, 3);
    assert(t@ =~= clock_text(h, m, s, ms));
    t
}

/// A clock reading from its parts.
pub fn clock_from_parts(h: u32, m: u32, s: u32, ms: u32, epoch_ms: u64) -> (r: Clock)
    ensures
        r.timestamp@ == clock_text(h, m, s, ms),
        r.timestamp_ms == epoch_ms,
{
    Clock { timestamp: format_clock(h, m, s, ms), timestamp_ms: epoch_ms }
}

/// A log after appending `item` when it keeps at most `cap` entries: the
/// oldest entry leaves when the new one takes it over the limit.
pub open spec fn bounded_push<T>(log: Seq<T>, item: T, cap: nat) -> Seq<T> {
    let l = log.push(item);
    if l.len() > cap {
        l.drop_first()
    } else {
        l
    }
}

/// Appends `item` to a log that keeps at most `cap` entries.
pub fn push_bounded<T>(log: &mut Vec<T>, item: T, cap: usize)
    ensures
        final(log)@ == bounded_push(old(log)@, item, cap as nat),
{
    log.push(item);
    if log.len() > cap {
        log.remove(0);
        assert(log@ =~= bounded_push(old(log)@, item, cap as nat));
    }
}

/// Appending to a log that is within its limit keeps it within its limit;
/// the new entry is the last one, and the entries before it are the latest
/// ones of the old log, in their order.
pub proof fn lemma_bounded_push<T>(log: Seq<T>, item: T, cap: nat)
    requires
        log.len() <= cap,
        cap > 0,
    ensures
        bounded_push(log, item, cap).len() <= cap,
        bounded_push(log, item, cap).last() == item,
        bounded_push(log, item, cap).len() == if log.len() < cap { log.len() + 1 } else { cap },
        bounded_push(log, item, cap).drop_last() == log.skip(log.len() + 1 - bounded_push(log, item, cap).len()),
{
    let r = bounded_push(log, item, cap);
    assert(r.drop_last() =~= log.skip(log.len() + 1 - r.len()));
}


/// The entry pushed last is the last one, whatever the capacity, as long as
/// the capacity keeps at least one entry.
pub proof fn lemma_bounded_push_last<T>(log: Seq<T>, item: T, cap: nat)
    requires
        cap > 0,
    ensures
        bounded_push(log, item, cap).len() > 0,
        bounded_push(log, item, cap).last() == item,
{
}

} // verus!
