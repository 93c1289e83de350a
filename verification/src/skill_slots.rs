use vstd::prelude::*;

use crate::skill_id::SkillId;

verus! {

/// The skills a player has: those in the toolbar slots, in slot order, and the others.
#[derive(Debug, Clone)]
pub struct SkillInventory {
    pub equipped: Vec<SkillId>,
    pub inventory: Vec<SkillId>,
}

impl SkillInventory {
    /// The skill in toolbar slot `slot`, if any.
    pub fn get_skill_at_slot(&self, slot: usize) -> (s: Option<SkillId>)
        ensures
            s == (if slot < self.equipped@.len() { Some(self.equipped@[slot as int]) } else { None }),
    {
        if slot < self.equipped.len() {
            Some(self.equipped[slot])
        } else {
            None
        }
    }
}

/// One toolbar slot's input this tick: its index, whether its key is held, and whether a
/// skill started from it ends the player's dispatch for the tick.
#[derive(Debug, Clone, Copy, PartialEq, Eq, Structural)]
pub struct SlotInput {
    pub index: usize,
    pub pressed: bool,
    pub block_on_success: bool,
}

/// Whether slot input `k` asks for a skill: its key is held and its slot holds one.
pub open spec fn spec_wants(slots: Seq<SlotInput>, equipped: Seq<SkillId>, k: int) -> bool {
    slots[k].pressed && slots[k].index < equipped.len()
}

/// Walks the toolbar slots in order and hands out, one at a time, the skills the player
/// asks for; activating a skill is the caller's work, and its outcome comes back through
/// `report`.
#[derive(Debug, Clone, Copy, PartialEq, Eq, Structural)]
pub struct SkillDispatch {
    /// The next slot input to look at.
    pub next: usize,
    /// Whether a blocking skill started, which ends the dispatch.
    pub stopped: bool,
}

impl SkillDispatch {
    /// A dispatch at the first slot.
    pub fn new() -> (d: Self)
        ensures
            d.next == 0,
            !d.stopped,
    {
        SkillDispatch { next: 0, stopped: false }
    }

    /// The next skill to try to activate: the skill of the first slot from `next` on whose
    /// key is held and that holds a skill, with that slot input's index among `slots`. The
    /// dispatch moves past it; `None` once the slots are exhausted or dispatch stopped.
    pub fn skill_dispatch_system(&mut self, slots: &Vec<SlotInput>, inventory: &SkillInventory) -> (r:
        Option<(usize, SkillId)>)
        ensures
            final(self).stopped == old(self).stopped,
            old(self).stopped ==> r is None && final(self).next == old(self).next,
            !old(self).stopped ==> match r {
                Some((k, skill)) => {
                    &&& old(self).next <= k < slots@.len()
                    &&& spec_wants(slots@, inventory.equipped@, k as int)
                    &&& skill == inventory.equipped@[slots@[k as int].index as int]
                    &&& forall|j: int| old(self).next <= j < k ==> !spec_wants(slots@, inventory.equipped@, j)
                    &&& final(self).next == k + 1
                },
                None => {
                    &&& forall|j: int|
                        old(self).next <= j < slots@.len() ==> !spec_wants(slots@, inventory.equipped@, j)
                    &&& final(self).next == (if old(self).next < slots@.len() { slots@.len() as usize } else { old(self).next })
                },
            },
    {
        if self.stopped {
            return None;
        }
        let start = self.next;
        while self.next < slots.len()
            invariant
                start <= self.next,
                start == old(self).next,
                !self.stopped,
                !old(self).stopped,
                start < slots@.len() ==> self.next <= slots@.len(),
                start >= slots@.len() ==> self.next == start,
                forall|j: int| start <= j < self.next ==> !spec_wants(slots@, inventory.equipped@, j),
            decreases slots@.len() - self.next,
        {
            let k = self.next;
            let slot = slots[k];
            self.next = k + 1;
            if slot.pressed {
                match inventory.get_skill_at_slot(slot.index) {
                    Some(skill) => {
                        return Some((k, skill));
                    },
                    None => {},
                }
            }
        }
        None
    }

    /// Reports whether the skill handed out started: a started skill is announced as
    /// used, and a blocking slot then ends the dispatch. Returns whether to announce it.
    pub fn report(&mut self, started: bool, block_on_success: bool) -> (announce: bool)
        ensures
            announce == started,
            final(self).next == old(self).next,
            final(self).stopped == (old(self).stopped || (started && block_on_success)),
    {
        if started && block_on_success {
            self.stopped = true;
        }
        started
    }
}

} // verus!
