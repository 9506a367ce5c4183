//! Keeping popped-out HMI windows in step with the main window. The windows
//! exchange `HmiBroadcastMessage`s; the main window tracks which children
//! are open, answers a child that is ready with the session it belongs to,
//! forwards the commands children send, and tells them when control of the
//! robot is granted or revoked.

use vstd::prelude::*;
use vstd::string::*;
use crate::text::{decimal, push_decimal, push_signed_decimal, signed_decimal, str_equal};

verus! {

/// Messages between the main window and its HMI windows. `C` is the
/// request a child asks the main window to send to the server.
pub enum HmiBroadcastMessage<C> {
    /// To a child: the session it belongs to.
    SessionInfo { session_id: String, robot_connection_id: i64, has_control: bool },
    /// To the children: control was granted to the session.
    ControlGranted,
    /// To the children: control was revoked from the session.
    ControlRevoked,
    /// To the children: the main window is closing.
    ParentClosing,
    /// From a child: it is ready and wants the session info.
    ChildReady { child_id: String },
    /// From a child: it is closing.
    ChildClosing { child_id: String },
    /// From a child: a request to send through the main window's socket.
    CommandRequest { child_id: String, command: C },
}

/// What the main window does with a message.
pub enum ParentReply<C> {
    /// Post this message to the children.
    Post(HmiBroadcastMessage<C>),
    /// Send this request to the server.
    Forward(C),
    /// Nothing.
    Nothing,
}

/// The main window's side of the channel.
pub struct BroadcastParent {
    /// The children that said they are ready and have not closed.
    pub child_ids: Vec<String>,
    /// Whether the session had control when the children were last told.
    pub had_control: bool,
}

/// The IDs of the open children, as character sequences.
pub open spec fn child_views(ids: Seq<String>) -> Seq<Seq<char>> {
    ids.map_values(|s: String| s@)
}

/// The children after one says it is ready: it is added unless it is
/// already there.
pub open spec fn after_ready(ids: Seq<Seq<char>>, id: Seq<char>) -> Seq<Seq<char>> {
    if ids.contains(id) {
        ids
    } else {
        ids.push(id)
    }
}

/// Whether an ID differs from `id`.
pub open spec fn other_than(id: Seq<char>) -> spec_fn(Seq<char>) -> bool {
    |x: Seq<char>| x != id
}

/// The children after one says it is closing: every entry with its ID goes.
pub open spec fn after_closing(ids: Seq<Seq<char>>, id: Seq<char>) -> Seq<Seq<char>> {
    ids.filter(other_than(id))
}

/// No ID occurs twice.
pub open spec fn distinct(ids: Seq<Seq<char>>) -> bool {
    forall|i: int, j: int| 0 <= i < j < ids.len() ==> ids[i] != ids[j]
}

/// The connection ID sent to a child: the active one, or -1 without one.
pub open spec fn session_connection_id(active_connection_id: Option<i64>) -> i64 {
    match active_connection_id {
        Some(id) => id,
        None => -1i64,
    }
}

/// The message that tells the children about a change of control, if
/// control changed.
pub open spec fn control_notice<C>(had_control: bool, has_control: bool) -> Option<HmiBroadcastMessage<C>> {
    if had_control == has_control {
        None
    } else if has_control {
        Some(HmiBroadcastMessage::ControlGranted)
    } else {
        Some(HmiBroadcastMessage::ControlRevoked)
    }
}

impl BroadcastParent {
    /// A main window with no children, whose session has control as given.
    pub fn new(has_control: bool) -> (r: BroadcastParent)
        ensures
            r.child_ids@.len() == 0,
            r.had_control == has_control,
    {
        BroadcastParent { child_ids: Vec::new(), had_control: has_control }
    }

    /// Whether a child with this ID is open.
    fn has_child(&self, id: &str) -> (r: bool)
        ensures
            r == child_views(self.child_ids@).contains(id@),
    {
        let mut i: usize = 0;
        while i < self.child_ids.len()
            invariant
                i <= self.child_ids@.len(),
                forall|j: int| 0 <= j < i ==> self.child_ids@[j]@ != id@,
            decreases self.child_ids.len() - i,
        {
            if str_equal(self.child_ids[i].as_str(), id) {
                assert(child_views(self.child_ids@)[i as int] == id@);
                return true;
            }
            i = i + 1;
        }
        assert(!child_views(self.child_ids@).contains(id@)) by {
            if child_views(self.child_ids@).contains(id@) {
                let k = choose|k: int| 0 <= k < child_views(self.child_ids@).len() && child_views(self.child_ids@)[k] == id@;
                assert(self.child_ids@[k]@ == id@);
            }
        }
        false
    }

    /// Forgets every child with this ID.
    fn remove_child(&mut self, id: &str)
        ensures
            child_views(final(self).child_ids@) == after_closing(child_views(old(self).child_ids@), id@),
            final(self).had_control == old(self).had_control,
    {
        let ghost before = child_views(self.child_ids@);
        let mut kept: Vec<String> = Vec::new();
        let mut i: usize = 0;
        while i < self.child_ids.len()
            invariant
                i <= self.child_ids@.len(),
                before == child_views(self.child_ids@),
                child_views(kept@) == after_closing(before.take(i as int), id@),
            decreases self.child_ids.len() - i,
        {
            let ghost prev = child_views(kept@);
            let next = self.child_ids[i].clone();
            assert(before.take(i + 1).drop_last() =~= before.take(i as int));
            assert(before.take(i + 1).last() == next@);
            reveal(Seq::filter);
            if !str_equal(next.as_str(), id) {
                kept.push(next);
                assert(child_views(kept@) =~= prev.push(before[i as int]));
            } else {
                assert(child_views(kept@) =~= prev);
            }
            i = i + 1;
        }
        assert(before.take(before.len() as int) =~= before);
        self.child_ids = kept;
    }

    /// Handles a message on the channel. A child that is ready is added and
    /// gets the session info (with `session_id`, the active connection or
    /// -1, and whether the session has control); a child that closes is
    /// removed; a child's request is forwarded. Messages meant for the
    /// children are ignored.
    pub fn on_message<C>(
        &mut self,
        msg: HmiBroadcastMessage<C>,
        session_id: String,
        active_connection_id: Option<i64>,
        has_control: bool,
    ) -> (r: ParentReply<C>)
        ensures
            final(self).had_control == old(self).had_control,
            match msg {
                HmiBroadcastMessage::ChildReady { child_id } => {
                    &&& child_views(final(self).child_ids@) == after_ready(child_views(old(self).child_ids@), child_id@)
                    &&& r == ParentReply::Post(
                        HmiBroadcastMessage::<C>::SessionInfo {
                            session_id,
                            robot_connection_id: session_connection_id(active_connection_id),
                            has_control,
                        },
                    )
                },
                HmiBroadcastMessage::ChildClosing { child_id } => {
                    &&& child_views(final(self).child_ids@) == after_closing(
                        child_views(old(self).child_ids@),
                        child_id@,
                    )
                    &&& r is Nothing
                },
                HmiBroadcastMessage::CommandRequest { child_id, command } => {
                    &&& final(self).child_ids@ == old(self).child_ids@
                    &&& r == ParentReply::Forward(command)
                },
                _ => {
                    &&& final(self).child_ids@ == old(self).child_ids@
                    &&& r is Nothing
                },
            },
    {
        match msg {
            HmiBroadcastMessage::ChildReady { child_id } => {
                if !self.has_child(child_id.as_str()) {
                    let ghost before = child_views(self.child_ids@);
                    self.child_ids.push(child_id);
                    assert(child_views(self.child_ids@) =~= before.push(child_id@));
                }
                let robot_connection_id = match active_connection_id {
                    Some(id) => id,
                    None => -1,
                };
                ParentReply::Post(HmiBroadcastMessage::SessionInfo { session_id, robot_connection_id, has_control })
            },
            HmiBroadcastMessage::ChildClosing { child_id } => {
                self.remove_child(child_id.as_str());
                ParentReply::Nothing
            },
            HmiBroadcastMessage::CommandRequest { child_id: _, command } => ParentReply::Forward(command),
            _ => ParentReply::Nothing,
        }
    }

    /// Notes whether the session has control; when that changed, the
    /// children are to be told that control was granted or revoked.
    pub fn on_control<C>(&mut self, has_control: bool) -> (r: Option<HmiBroadcastMessage<C>>)
        ensures
            r == control_notice::<C>(old(self).had_control, has_control),
            final(self).had_control == has_control,
            final(self).child_ids@ == old(self).child_ids@,
    {
        if has_control == self.had_control {
            None
        } else {
            self.had_control = has_control;
            if has_control {
                Some(HmiBroadcastMessage::ControlGranted)
            } else {
                Some(HmiBroadcastMessage::ControlRevoked)
            }
        }
    }
}

// ---------------------------------------------------------------------------
// Windows
// ---------------------------------------------------------------------------

/// `tab_<ms>`, the ID a window takes from the time it first asked for one.
pub open spec fn tab_id_spec(epoch_ms: u64) -> Seq<char> {
    "tab_"@ + decimal(epoch_ms as nat)
}

/// The ID of a window made from the time in milliseconds since the epoch.
pub fn tab_id(epoch_ms: u64) -> (r: String)
    ensures
        r@ == tab_id_spec(epoch_ms),
{
    let mut s = String::from_str("tab_");
    push_decimal(&mut s, epoch_ms);
    s
}

/// `/hmi-popup?panel=<id>`, the address of a popped-out panel.
pub open spec fn popup_url_spec(panel_id: i64) -> Seq<char> {
    "/hmi-popup?panel="@ + signed_decimal(panel_id as int)
}

/// The address that a popped-out panel window opens.
pub fn popup_url(panel_id: i64) -> (r: String)
    ensures
        r@ == popup_url_spec(panel_id),
{
    let mut s = String::from_str("/hmi-popup?panel=");
    push_signed_decimal(&mut s, panel_id);
    s
}

/// The window features of a popped-out panel: 800 by 600 pixels, no menu,
/// tool, location or status bar, resizable.
pub const POPUP_FEATURES: &'static str = "width=800,height=600,menubar=no,toolbar=no,location=no,status=no,resizable=yes";

/// The name of the channel the windows share.
pub const HMI_CHANNEL_NAME: &'static str = "fanuc-hmi-sync";

// ---------------------------------------------------------------------------
// Laws
// ---------------------------------------------------------------------------

/// Filtering a list without duplicates leaves none.
proof fn lemma_filter_distinct(ids: Seq<Seq<char>>, id: Seq<char>)
    requires
        distinct(ids),
    ensures
        distinct(after_closing(ids, id)),
    decreases ids.len(),
{
    reveal(Seq::filter);
    if ids.len() > 0 {
        let rest = ids.drop_last();
        lemma_filter_distinct(rest, id);
        let f = after_closing(rest, id);
        let last = ids.last();
        if last != id {
            assert(!f.contains(last)) by {
                if f.contains(last) {
                    rest.lemma_filter_contains_rev(other_than(id), last);
                    let k = choose|k: int| 0 <= k < rest.len() && rest[k] == last;
                    assert(ids[k] == ids[ids.len() - 1]);
                }
            }
            assert(after_closing(ids, id) == f.push(last));
            assert forall|i: int, j: int| 0 <= i < j < f.push(last).len() implies f.push(last)[i] != f.push(
                last,
            )[j] by {
                if j == f.len() {
                    assert(f.push(last)[i] == f[i]);
                }
            }
        }
    }
}

/// A list without `id` is left as it is by removing `id`.
proof fn lemma_filter_absent(ids: Seq<Seq<char>>, id: Seq<char>)
    requires
        !ids.contains(id),
    ensures
        after_closing(ids, id) == ids,
    decreases ids.len(),
{
    reveal(Seq::filter);
    if ids.len() > 0 {
        let rest = ids.drop_last();
        assert(!rest.contains(id)) by {
            if rest.contains(id) {
                let k = choose|k: int| 0 <= k < rest.len() && rest[k] == id;
                assert(ids[k] == id);
            }
        }
        lemma_filter_absent(rest, id);
        assert(ids.last() != id);
        assert(rest.push(ids.last()) =~= ids);
    }
}

/// The list of open children never holds an ID twice, whatever ready and
/// closing messages arrive.
pub proof fn lemma_children_stay_distinct(ids: Seq<Seq<char>>, id: Seq<char>)
    requires
        distinct(ids),
    ensures
        distinct(after_ready(ids, id)),
        distinct(after_closing(ids, id)),
{
    lemma_filter_distinct(ids, id);
    if !ids.contains(id) {
        assert forall|i: int, j: int| 0 <= i < j < ids.push(id).len() implies ids.push(id)[i] != ids.push(
            id,
        )[j] by {
            if j == ids.len() {
                assert(ids.push(id)[i] == ids[i]);
            }
        }
    }
}

/// After a child closes it is no longer listed, and every other child
/// stays listed or unlisted as it was.
pub proof fn lemma_closing_removes(ids: Seq<Seq<char>>, id: Seq<char>, other: Seq<char>)
    ensures
        !after_closing(ids, id).contains(id),
        other != id ==> (after_closing(ids, id).contains(other) <==> ids.contains(other)),
{
    broadcast use vstd::seq_lib::group_filter_ensures;
    let f = after_closing(ids, id);
    assert(!f.contains(id)) by {
        if f.contains(id) {
            let k = choose|k: int| 0 <= k < f.len() && f[k] == id;
            assert(other_than(id)(f[k]));
        }
    }
    if other != id {
        if ids.contains(other) {
            let k = choose|k: int| 0 <= k < ids.len() && ids[k] == other;
            assert(other_than(id)(ids[k]));
        }
        if f.contains(other) {
            ids.lemma_filter_contains_rev(other_than(id), other);
        }
    }
}

/// A new child that opens and closes again leaves the list as it was.
pub proof fn lemma_ready_then_closing(ids: Seq<Seq<char>>, id: Seq<char>)
    requires
        !ids.contains(id),
    ensures
        after_closing(after_ready(ids, id), id) == ids,
{
    reveal(Seq::filter);
    assert(ids.push(id).drop_last() =~= ids);
    lemma_filter_absent(ids, id);
}

/// The children hear of control exactly when it changes: granted when the
/// session gains it, revoked when it loses it.
pub proof fn lemma_control_notice<C>(had_control: bool, has_control: bool)
    ensures
        control_notice::<C>(had_control, has_control) is Some <==> had_control != has_control,
        control_notice::<C>(had_control, has_control) is Some ==> (control_notice::<C>(
            had_control,
            has_control,
        )->0 is ControlGranted <==> has_control),
        control_notice::<C>(has_control, has_control) is None,
{
}

} // verus!
