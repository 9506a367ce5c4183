//! Choosing the active user frame and user tool: a choice is held as pending
//! until it is applied, and the slot buttons say why they are disabled.

use vstd::prelude::*;
use vstd::string::*;
use crate::text::{decimal, push_decimal};

verus! {

/// Which of the two is being chosen.
#[derive(Debug, Clone, Copy, PartialEq, Eq, Structural)]
pub enum SlotKind {
    /// User frames 0 to 9.
    UFrame,
    /// User tools 1 to 10.
    UTool,
}

/// The label of a kind: `UFrame` or `UTool`.
pub open spec fn kind_label(kind: SlotKind) -> Seq<char> {
    match kind {
        SlotKind::UFrame => "UFrame"@,
        SlotKind::UTool => "UTool"@,
    }
}

/// The slot numbers offered: frames 0 to 9, tools 1 to 10.
pub open spec fn slot_range(kind: SlotKind) -> (nat, nat) {
    match kind {
        SlotKind::UFrame => (0, 9),
        SlotKind::UTool => (1, 10),
    }
}

/// How a slot button shows.
#[derive(Debug, Clone, Copy, PartialEq, Eq, Structural)]
pub enum SlotLook {
    /// The active slot, with no other chosen.
    Active,
    /// Chosen but not applied yet.
    Pending,
    /// Neither.
    Plain,
}

/// A frame or tool choice that is not applied yet.
pub struct SlotChoice {
    pub kind: SlotKind,
    pub pending: Option<usize>,
}

/// The slot the panel shows as chosen: the pending one, or else the active
/// one.
pub open spec fn effective_slot(pending: Option<usize>, active: usize) -> usize {
    match pending {
        Some(p) => p,
        None => active,
    }
}

/// The (frame, tool) pair that applying sends: the pending slot in its
/// place and the other active number beside it, narrowed to 8 bits; nothing
/// when nothing is pending.
pub open spec fn applied_pair(kind: SlotKind, pending: Option<usize>, active_other: usize) -> Option<(u8, u8)> {
    match pending {
        None => None,
        Some(p) => Some(
            match kind {
                SlotKind::UFrame => (p as u8, active_other as u8),
                SlotKind::UTool => (active_other as u8, p as u8),
            },
        ),
    }
}

/// Slots can be chosen only with control and while no program runs.
pub open spec fn can_choose(has_control: bool, program_running: bool) -> bool {
    has_control && !program_running
}

/// The tooltip of a slot button: why it is disabled, or its name.
pub open spec fn slot_title_spec(kind: SlotKind, slot: usize, has_control: bool, program_running: bool) -> Seq<char> {
    if !has_control {
        "Request control to change "@ + kind_label(kind)
    } else if program_running {
        "Cannot change "@ + kind_label(kind) + " while program is running"@
    } else {
        kind_label(kind) + " "@ + decimal(slot as nat)
    }
}

fn kind_str(kind: SlotKind) -> (r: &'static str)
    ensures
        r@ == kind_label(kind),
{
    match kind {
        SlotKind::UFrame => "UFrame",
        SlotKind::UTool => "UTool",
    }
}

/// The tooltip of a slot button.
pub fn slot_title(kind: SlotKind, slot: usize, has_control: bool, program_running: bool) -> (r: String)
    ensures
        r@ == slot_title_spec(kind, slot, has_control, program_running),
{
    if !has_control {
        let mut s = String::from_str("Request control to change ");
        s.append(kind_str(kind));
        s
    } else if program_running {
        let mut s = String::from_str("Cannot change ");
        s.append(kind_str(kind));
        s.append(" while program is running");
        s
    } else {
        let mut s = String::from_str(kind_str(kind));
        s.append(" ");
        push_decimal(&mut s, slot as u64);
        s
    }
}

impl SlotChoice {
    /// Nothing chosen yet.
    pub fn new(kind: SlotKind) -> (r: SlotChoice)
        ensures
            r.kind == kind,
            r.pending is None,
    {
        SlotChoice { kind, pending: None }
    }

    /// The slot shown as chosen.
    pub fn effective(&self, active: usize) -> (r: usize)
        ensures
            r == effective_slot(self.pending, active),
    {
        match self.pending {
            Some(p) => p,
            None => active,
        }
    }

    /// How the button of `slot` shows.
    pub fn look(&self, slot: usize, active: usize) -> (r: SlotLook)
        ensures
            r == (if effective_slot(self.pending, active) == slot && active == slot {
                SlotLook::Active
            } else if effective_slot(self.pending, active) == slot {
                SlotLook::Pending
            } else {
                SlotLook::Plain
            }),
    {
        let chosen = self.effective(active) == slot;
        if chosen && active == slot {
            SlotLook::Active
        } else if chosen {
            SlotLook::Pending
        } else {
            SlotLook::Plain
        }
    }

    /// Chooses a slot, when choosing is possible; otherwise nothing changes.
    pub fn pick(&mut self, slot: usize, has_control: bool, program_running: bool)
        ensures
            final(self).kind == old(self).kind,
            final(self).pending == (if can_choose(has_control, program_running) {
                Some(slot)
            } else {
                old(self).pending
            }),
    {
        if has_control && !program_running {
            self.pending = Some(slot);
        }
    }

    /// Applies the pending choice: gives the (frame, tool) pair to make
    /// active, the other number kept from `active_other`, and clears the
    /// choice. Nothing is pending, nothing is applied. The numbers are
    /// narrowed to 8 bits.
    pub fn apply(&mut self, active_other: usize) -> (r: Option<(u8, u8)>)
        ensures
            final(self).kind == old(self).kind,
            final(self).pending is None,
            r == applied_pair(old(self).kind, old(self).pending, active_other),
    {
        let r = match self.pending {
            None => None,
            Some(p) => match self.kind {
                SlotKind::UFrame => Some((p as u8, active_other as u8)),
                SlotKind::UTool => Some((active_other as u8, p as u8)),
            },
        };
        self.pending = None;
        r
    }
}

/// A slot that is picked shows as chosen until it is applied, applying it
/// sends it (with the other active number) and leaves nothing pending, and
/// picking is refused without control or while a program runs.
pub proof fn lemma_pick_then_apply(kind: SlotKind, slot: usize, active: usize, other: usize)
    requires
        slot <= 10,
        other <= 10,
    ensures
        effective_slot(Some(slot), active) == slot,
        effective_slot(None, active) == active,
        applied_pair(kind, Some(slot), other) == Some(
            match kind {
                SlotKind::UFrame => (slot as u8, other as u8),
                SlotKind::UTool => (other as u8, slot as u8),
            },
        ),
        (applied_pair(kind, Some(slot), other)->0).0 as int == (if kind == SlotKind::UFrame {
            slot as int
        } else {
            other as int
        }),
        applied_pair(kind, None, other) is None,
        can_choose(true, false),
        !can_choose(false, false) && !can_choose(true, true),
{
}

} // verus!
