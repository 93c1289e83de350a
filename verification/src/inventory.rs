use vstd::prelude::*;

use crate::skill_id::{skill_description, skill_name, spec_skill_description, spec_skill_name, SkillId};
use crate::visibility::Visibility;
use crate::weapon::Passive;

verus! {

/// Whether a slot of an inventory window holds an equipped item or a carried one.
#[derive(Debug, Clone, Copy, PartialEq, Eq, Structural)]
pub enum SlotType {
    Equipped,
    Inventory,
}

/// A slot of an inventory window: equipped slots form one row (row 0); carried items
/// fill a grid of rows of seven.
#[derive(Debug, Clone, Copy, PartialEq, Eq, Structural)]
pub struct InventorySlot {
    pub slot_type: SlotType,
    pub row: usize,
    pub col: usize,
}

/// A slot and its position within the window, in world units from the window's centre.
#[derive(Debug, Clone, Copy, PartialEq, Eq, Structural)]
pub struct SlotPlacement {
    pub slot: InventorySlot,
    pub x: i32,
    pub y: i32,
}

/// Rows of carried items in a window.
pub const GRID_ROWS: usize = 4;

/// Carried items per row.
pub const GRID_COLS: usize = 7;

/// Slot size plus gap between slots.
pub const SLOT_STRIDE: i32 = 16;

/// The slot placed `k`-th in the skill window: the equipped row centred at height -26,
/// then the grid from (-48, -6), rows going up.
pub open spec fn spec_skill_slot(equipped: int, k: int) -> SlotPlacement {
    if k < equipped {
        SlotPlacement {
            slot: InventorySlot { slot_type: SlotType::Equipped, row: 0, col: k as usize },
            x: (-(equipped - 1) * 8 + 16 * k) as i32,
            y: -26i32,
        }
    } else {
        let g = k - equipped;
        SlotPlacement {
            slot: InventorySlot {
                slot_type: SlotType::Inventory,
                row: (g / 7) as usize,
                col: (g % 7) as usize,
            },
            x: (-48 + 16 * (g % 7)) as i32,
            y: (-6 + 16 * (g / 7)) as i32,
        }
    }
}

/// The slot placed `k`-th in the passive window: four equipped slots from (-24, 26),
/// then the grid from (-48, 6), rows going down.
pub open spec fn spec_passive_slot(k: int) -> SlotPlacement {
    if k < 4 {
        SlotPlacement {
            slot: InventorySlot { slot_type: SlotType::Equipped, row: 0, col: k as usize },
            x: (-24 + 16 * k) as i32,
            y: 26i32,
        }
    } else {
        let g = k - 4;
        SlotPlacement {
            slot: InventorySlot {
                slot_type: SlotType::Inventory,
                row: (g / 7) as usize,
                col: (g % 7) as usize,
            },
            x: (-48 + 16 * (g % 7)) as i32,
            y: (6 - 16 * (g / 7)) as i32,
        }
    }
}

fn grid_slots(slots: &mut Vec<SlotPlacement>, start_y: i32, row_step: i32)
    requires
        row_step == 16 || row_step == -16,
        start_y == -6 || start_y == 6,
    ensures
        final(slots)@.len() == old(slots)@.len() + 28,
        forall|k: int| 0 <= k < old(slots)@.len() ==> final(slots)@[k] == old(slots)@[k],
        forall|g: int|
            0 <= g < 28 ==> #[trigger] final(slots)@[old(slots)@.len() + g] == (SlotPlacement {
                slot: InventorySlot {
                    slot_type: SlotType::Inventory,
                    row: (g / 7) as usize,
                    col: (g % 7) as usize,
                },
                x: (-48 + 16 * (g % 7)) as i32,
                y: (start_y + row_step * (g / 7)) as i32,
            }),
{
    let ghost base = slots@;
    let mut row: usize = 0;
    while row < GRID_ROWS
        invariant
            row <= 4,
            row_step == 16 || row_step == -16,
            start_y == -6 || start_y == 6,
            slots@.len() == base.len() + 7 * row,
            forall|k: int| 0 <= k < base.len() ==> slots@[k] == base[k],
            forall|g: int|
                0 <= g < 7 * row ==> #[trigger] slots@[base.len() + g] == (SlotPlacement {
                    slot: InventorySlot {
                        slot_type: SlotType::Inventory,
                        row: (g / 7) as usize,
                        col: (g % 7) as usize,
                    },
                    x: (-48 + 16 * (g % 7)) as i32,
                    y: (start_y + row_step * (g / 7)) as i32,
                }),
        decreases 4 - row,
    {
        let mut col: usize = 0;
        let y: i32 = start_y + row_step * (row as i32);
        while col < GRID_COLS
            invariant
                row < 4,
                col <= 7,
                y == start_y + row_step * row,
                slots@.len() == base.len() + 7 * row + col,
                forall|k: int| 0 <= k < base.len() ==> slots@[k] == base[k],
                forall|g: int|
                    0 <= g < 7 * row + col ==> #[trigger] slots@[base.len() + g] == (SlotPlacement {
                        slot: InventorySlot {
                            slot_type: SlotType::Inventory,
                            row: (g / 7) as usize,
                            col: (g % 7) as usize,
                        },
                        x: (-48 + 16 * (g % 7)) as i32,
                        y: (start_y + row_step * (g / 7)) as i32,
                    }),
            decreases 7 - col,
        {
            let x: i32 = -48 + 16 * (col as i32);
            let ghost g = 7 * row + col;
            assert(g / 7 == row && g % 7 == col) by (nonlinear_arith)
                requires
                    g == 7 * row + col,
                    col < 7,
            ;
            slots.push(
                SlotPlacement { slot: InventorySlot { slot_type: SlotType::Inventory, row, col }, x, y },
            );
            col = col + 1;
        }
        row = row + 1;
    }
}

/// The slots of the skill window, in the order they are spawned: one equipped slot per
/// toolbar slot (five with the Battery Pack, else four), then four rows of seven.
pub fn skill_window_slots(has_battery: bool) -> (slots: Vec<SlotPlacement>)
    ensures
        slots@.len() == (if has_battery { 5int } else { 4int }) + 28,
        forall|k: int|
            0 <= k < slots@.len() ==> #[trigger] slots@[k] == spec_skill_slot(
                if has_battery { 5int } else { 4int },
                k,
            ),
{
    let equipped: usize = if has_battery {
        5
    } else {
        4
    };
    let mut slots: Vec<SlotPlacement> = Vec::new();
    let start_x: i32 = -(((equipped as i32) - 1) * 8);
    let mut col: usize = 0;
    while col < equipped
        invariant
            equipped == 4 || equipped == 5,
            start_x == -(equipped - 1) * 8,
            col <= equipped,
            slots@.len() == col,
            forall|k: int| 0 <= k < col ==> #[trigger] slots@[k] == spec_skill_slot(equipped as int, k),
        decreases equipped - col,
    {
        slots.push(
            SlotPlacement {
                slot: InventorySlot { slot_type: SlotType::Equipped, row: 0, col },
                x: start_x + 16 * (col as i32),
                y: -26i32,
            },
        );
        col = col + 1;
    }
    grid_slots(&mut slots, -6, 16);
    assert forall|k: int| 0 <= k < slots@.len() implies #[trigger] slots@[k] == spec_skill_slot(
        equipped as int,
        k,
    ) by {
        if k >= equipped {
            assert(slots@[equipped + (k - equipped)] == slots@[k]);
        }
    }
    slots
}

/// The slots of the passive window, in the order they are spawned: four equipped slots,
/// then four rows of seven.
pub fn passive_window_slots() -> (slots: Vec<SlotPlacement>)
    ensures
        slots@.len() == 32,
        forall|k: int| 0 <= k < slots@.len() ==> #[trigger] slots@[k] == spec_passive_slot(k),
{
    let mut slots: Vec<SlotPlacement> = Vec::new();
    let mut col: usize = 0;
    while col < 4
        invariant
            col <= 4,
            slots@.len() == col,
            forall|k: int| 0 <= k < col ==> #[trigger] slots@[k] == spec_passive_slot(k),
        decreases 4 - col,
    {
        slots.push(
            SlotPlacement {
                slot: InventorySlot { slot_type: SlotType::Equipped, row: 0, col },
                x: -24 + 16 * (col as i32),
                y: 26i32,
            },
        );
        col = col + 1;
    }
    grid_slots(&mut slots, 6, -16);
    assert forall|k: int| 0 <= k < slots@.len() implies #[trigger] slots@[k] == spec_passive_slot(k) by {
        if k >= 4 {
            assert(slots@[4 + (k - 4)] == slots@[k]);
        }
    }
    slots
}

/// The equipped row of the skill window is centred: its slots mirror each other about
/// the window's middle.
pub proof fn lemma_equipped_row_centred(equipped: int, k: int)
    requires
        equipped == 4 || equipped == 5,
        0 <= k < equipped,
    ensures
        spec_skill_slot(equipped, k).x == -spec_skill_slot(equipped, equipped - 1 - k).x,
        spec_skill_slot(equipped, k).slot.col == k,
{
}

/// The grid slots of a window are placed in reading order, so the `g`-th grid slot shows
/// the `g`-th carried item (if there is one), in both windows.
pub proof fn lemma_grid_shows_carried_in_order<T>(equipped: int, g: int, items: Seq<T>, carried: Seq<T>)
    requires
        equipped == 4 || equipped == 5,
        0 <= g < 28,
    ensures
        spec_slot_item(spec_skill_slot(equipped, equipped + g).slot, items, carried) == (if g < carried.len() {
            Some(carried[g])
        } else {
            None
        }),
        spec_slot_item(spec_passive_slot(4 + g).slot, items, carried) == (if g < carried.len() {
            Some(carried[g])
        } else {
            None
        }),
{
    vstd::arithmetic::div_mod::lemma_fundamental_div_mod(g, 7);
    assert((g / 7) * 7 + g % 7 == g);
}

/// The background animation of the skill window, with five equipped slots or four.
pub fn skill_window_background(has_battery: bool) -> (key: &'static str)
    ensures
        key@ == (if has_battery { "anim.ui.skillsbg5slots"@ } else { "anim.ui.skillsbg"@ }),
{
    if has_battery {
        "anim.ui.skillsbg5slots"
    } else {
        "anim.ui.skillsbg"
    }
}

/// The item a slot shows: an equipped slot shows the equipped item in its column; a
/// grid slot shows the carried item at its place, row by row.
pub open spec fn spec_slot_item<T>(slot: InventorySlot, equipped: Seq<T>, carried: Seq<T>) -> Option<T> {
    match slot.slot_type {
        SlotType::Equipped => if slot.col < equipped.len() {
            Some(equipped[slot.col as int])
        } else {
            None
        },
        SlotType::Inventory => {
            let index = slot.row * 7 + slot.col;
            if index < carried.len() {
                Some(carried[index])
            } else {
                None
            }
        },
    }
}

/// Which item's icon goes into a slot.
pub fn update_slot_icon<T: Copy>(slot: InventorySlot, equipped: &Vec<T>, carried: &Vec<T>) -> (item: Option<T>)
    requires
        slot.row * 7 + slot.col <= usize::MAX,
    ensures
        item == spec_slot_item(slot, equipped@, carried@),
{
    match slot.slot_type {
        SlotType::Equipped => if slot.col < equipped.len() {
            Some(equipped[slot.col])
        } else {
            None
        },
        SlotType::Inventory => {
            let index = slot.row * GRID_COLS + slot.col;
            if index < carried.len() {
                Some(carried[index])
            } else {
                None
            }
        },
    }
}

/// An item whose icon can be hovered in an inventory window.
#[derive(Debug, Clone, Copy, PartialEq, Eq, Structural)]
pub enum InventoryItem {
    Skill(SkillId),
    Passive(Passive),
}

/// A slot as the cursor finds it: whether the cursor is within it, and the item of the
/// first icon among its children.
#[derive(Debug, Clone, Copy, PartialEq, Eq, Structural)]
pub struct SlotUnderCursor {
    pub hit: bool,
    pub slot_type: SlotType,
    pub icon: Option<InventoryItem>,
}

/// The first slot under the cursor, if any.
pub open spec fn spec_first_hit(slots: Seq<SlotUnderCursor>) -> Option<int> {
    if exists|j: int| 0 <= j < slots.len() && (#[trigger] slots[j]).hit {
        Some(choose|j: int| 0 <= j < slots.len() && slots[j].hit && forall|k: int| 0 <= k < j ==> !(#[trigger] slots[k]).hit)
    } else {
        None
    }
}

fn first_hit(slots: &Vec<SlotUnderCursor>) -> (found: Option<usize>)
    ensures
        found matches Some(j) ==> j < slots@.len() && slots@[j as int].hit && forall|k: int|
            0 <= k < j ==> !(#[trigger] slots@[k]).hit,
        found is None ==> forall|k: int| 0 <= k < slots@.len() ==> !(#[trigger] slots@[k]).hit,
        found matches Some(j) ==> spec_first_hit(slots@) == Some(j as int),
        found is None ==> spec_first_hit(slots@) is None,
{
    let mut j: usize = 0;
    while j < slots.len()
        invariant
            j <= slots@.len(),
            forall|k: int| 0 <= k < j ==> !(#[trigger] slots@[k]).hit,
        decreases slots@.len() - j,
    {
        if slots[j].hit {
            proof {
                let c = choose|c: int|
                    0 <= c < slots@.len() && slots@[c].hit && forall|k: int| 0 <= k < c ==> !(#[trigger] slots@[k]).hit;
                assert(slots@[j as int].hit);
                if c < j {
                } else if c > j {
                    assert(!slots@[j as int].hit);
                }
            }
            return Some(j);
        }
        j = j + 1;
    }
    None
}

/// The item under the cursor: that of the first slot the cursor is in (none where that
/// slot is empty).
pub fn hovered_item(slots: &Vec<SlotUnderCursor>) -> (item: Option<InventoryItem>)
    ensures
        item == (match spec_first_hit(slots@) {
            Some(j) => slots@[j].icon,
            None => None,
        }),
{
    match first_hit(slots) {
        Some(j) => slots[j].icon,
        None => None,
    }
}

/// What a click on an inventory window does.
#[derive(Debug, Clone, Copy, PartialEq, Eq, Structural)]
pub enum SlotClick {
    /// Take the item off.
    Unequip(InventoryItem),
    /// Put the item on.
    Equip(InventoryItem),
    Nothing,
}

/// A click on the first slot under the cursor unequips the item of an equipped slot and
/// equips that of a carried one; a click elsewhere or on an empty slot does nothing.
pub fn handle_slot_clicks(clicked: bool, slots: &Vec<SlotUnderCursor>) -> (action: SlotClick)
    ensures
        action == (if !clicked {
            SlotClick::Nothing
        } else {
            match spec_first_hit(slots@) {
                None => SlotClick::Nothing,
                Some(j) => match slots@[j].icon {
                    None => SlotClick::Nothing,
                    Some(item) => if slots@[j].slot_type == SlotType::Equipped {
                        SlotClick::Unequip(item)
                    } else {
                        SlotClick::Equip(item)
                    },
                },
            }
        }),
{
    if !clicked {
        return SlotClick::Nothing;
    }
    match first_hit(slots) {
        None => SlotClick::Nothing,
        Some(j) => match slots[j].icon {
            None => SlotClick::Nothing,
            Some(item) => match slots[j].slot_type {
                SlotType::Equipped => SlotClick::Unequip(item),
                SlotType::Inventory => SlotClick::Equip(item),
            },
        },
    }
}

/// The popup that describes the hovered item: whether one is shown, and the item it
/// was last built for.
#[derive(Debug, Clone, Copy, PartialEq, Eq, Structural)]
pub struct HoverPopup {
    pub open: bool,
    pub last: Option<InventoryItem>,
}

/// What the popup does this frame.
#[derive(Debug, Clone, Copy, PartialEq, Eq, Structural)]
pub struct HoverAction {
    /// Remove the popup that is shown.
    pub despawn: bool,
    /// Show a new popup for this item.
    pub spawn: Option<InventoryItem>,
    /// Move the popup that is shown back over the window.
    pub reposition: bool,
}

/// The popup after a frame: where the cursor, camera or window is missing, or nothing
/// is hovered, a shown popup is removed and forgotten; a hovered item gets a fresh popup
/// when it differs from the last one or none is shown (provided the window can be found
/// on screen); otherwise the popup stays.
pub open spec fn spec_hover_next(p: HoverPopup, ready: bool, hovering: Option<InventoryItem>, on_screen: bool) -> (
    HoverPopup,
    HoverAction,
) {
    let none = HoverAction { despawn: false, spawn: None, reposition: false };
    let forget = if p.open {
        (HoverPopup { open: false, last: None }, HoverAction { despawn: true, spawn: None, reposition: false })
    } else {
        (p, none)
    };
    if !ready {
        forget
    } else {
        match hovering {
            None => forget,
            Some(item) => {
                if p.last != Some(item) || !p.open {
                    if on_screen {
                        (
                            HoverPopup { open: true, last: Some(item) },
                            HoverAction { despawn: p.open, spawn: Some(item), reposition: false },
                        )
                    } else {
                        (
                            HoverPopup { open: false, last: p.last },
                            HoverAction { despawn: p.open, spawn: None, reposition: false },
                        )
                    }
                } else {
                    (p, HoverAction { despawn: false, spawn: None, reposition: on_screen })
                }
            },
        }
    }
}

impl HoverPopup {
    /// No popup shown.
    pub fn new() -> (p: Self)
        ensures
            !p.open,
            p.last is None,
    {
        HoverPopup { open: false, last: None }
    }

    /// Updates the popup for this frame (see `spec_hover_next`).
    pub fn handle_slot_hover(&mut self, ready: bool, hovering: Option<InventoryItem>, on_screen: bool) -> (a:
        HoverAction)
        ensures
            (*final(self), a) == spec_hover_next(*old(self), ready, hovering, on_screen),
    {
        let none = HoverAction { despawn: false, spawn: None, reposition: false };
        let forget = !ready || hovering.is_none();
        if forget {
            if self.open {
                self.open = false;
                self.last = None;
                return HoverAction { despawn: true, spawn: None, reposition: false };
            }
            return none;
        }
        let item = hovering.unwrap();
        let changed = match self.last {
            Some(last) => last != item,
            None => true,
        };
        if changed || !self.open {
            let despawn = self.open;
            self.open = false;
            if on_screen {
                self.open = true;
                self.last = Some(item);
                HoverAction { despawn, spawn: Some(item), reposition: false }
            } else {
                HoverAction { despawn, spawn: None, reposition: false }
            }
        } else {
            HoverAction { despawn: false, spawn: None, reposition: on_screen }
        }
    }
}

/// Hovering the same item frame after frame builds its popup once, then only keeps it
/// in place; and a popup is shown exactly for the item hovered.
pub proof fn lemma_hover_builds_once(p: HoverPopup, item: InventoryItem)
    ensures
        ({
            let (q, a) = spec_hover_next(p, true, Some(item), true);
            let (r, b) = spec_hover_next(q, true, Some(item), true);
            &&& q.open && q.last == Some(item)
            &&& r == q
            &&& b.spawn is None && !b.despawn && b.reposition
        }),
{
}

/// Moving the cursor off the slots removes the popup, and another frame off them does
/// nothing more.
pub proof fn lemma_hover_leave(p: HoverPopup)
    ensures
        ({
            let (q, a) = spec_hover_next(p, true, None, true);
            let (r, b) = spec_hover_next(q, true, None, true);
            &&& !q.open
            &&& a.despawn == p.open
            &&& r == q && !b.despawn && b.spawn is None
        }),
{
}

/// The text of a skill's popup: its name, a blank line, its description.
pub fn skill_popup_text(skill: SkillId) -> (text: String)
    ensures
        text@ == spec_skill_name(skill) + "\n\n"@ + spec_skill_description(skill),
{
    String::from_str(skill_name(skill)).concat("\n\n").concat(skill_description(skill))
}

/// What the inventory toggle does.
#[derive(Debug, Clone, Copy, PartialEq, Eq, Structural)]
pub enum WindowToggle {
    /// Remove the window and its popup root.
    Close,
    /// Build the window at the top corner of the view.
    Open,
    Nothing,
}

/// The toggle closes an open window and opens a closed one where the camera is found.
pub fn toggle_inventory_window(pressed: bool, window_open: bool, camera_found: bool) -> (t: WindowToggle)
    ensures
        t == (if !pressed {
            WindowToggle::Nothing
        } else if window_open {
            WindowToggle::Close
        } else if camera_found {
            WindowToggle::Open
        } else {
            WindowToggle::Nothing
        }),
{
    if !pressed {
        WindowToggle::Nothing
    } else if window_open {
        WindowToggle::Close
    } else if camera_found {
        WindowToggle::Open
    } else {
        WindowToggle::Nothing
    }
}

/// Whether the Battery Pack was equipped when last looked at; unknown at first.
#[derive(Debug, Clone, Copy, PartialEq, Eq, Structural)]
pub struct BatteryWatch {
    pub prev: Option<bool>,
}

/// What a change of the Battery Pack does to the skill window.
#[derive(Debug, Clone, Copy, PartialEq, Eq, Structural)]
pub enum WindowRefresh {
    Nothing,
    /// Close the open window and do not reopen it (no camera).
    Close,
    /// Close the open window and reopen it with the new number of equipped slots.
    Reopen,
}

impl BatteryWatch {
    /// Nothing seen yet.
    pub fn new() -> (w: Self)
        ensures
            w.prev is None,
    {
        BatteryWatch { prev: None }
    }

    /// Watches the Battery Pack: the first look only records it; a later change closes an
    /// open skill window and reopens it with the right slots, camera permitting. Without a
    /// player nothing happens.
    pub fn refresh_inventory_on_battery_pack_change(
        &mut self,
        has_battery: Option<bool>,
        window_open: bool,
        camera_found: bool,
    ) -> (r: WindowRefresh)
        ensures
            match has_battery {
                None => *final(self) == *old(self) && r == WindowRefresh::Nothing,
                Some(b) => {
                    &&& final(self).prev == Some(b)
                    &&& r == (if old(self).prev is None || old(self).prev == Some(b) || !window_open {
                        WindowRefresh::Nothing
                    } else if camera_found {
                        WindowRefresh::Reopen
                    } else {
                        WindowRefresh::Close
                    })
                },
            },
    {
        let b = match has_battery {
            None => return WindowRefresh::Nothing,
            Some(b) => b,
        };
        let r = match self.prev {
            None => WindowRefresh::Nothing,
            Some(p) => if p == b || !window_open {
                WindowRefresh::Nothing
            } else if camera_found {
                WindowRefresh::Reopen
            } else {
                WindowRefresh::Close
            },
        };
        self.prev = Some(b);
        r
    }
}

/// The visibility parts to add to a parent of a visible child: only those it lacks; a
/// missing visibility is added as visible.
#[derive(Debug, Clone, Copy, PartialEq, Eq, Structural)]
pub struct VisibilityFix {
    pub visibility: Option<Visibility>,
    pub inherited: bool,
    pub view: bool,
}

/// What a parent lacks of the visibility trio.
pub fn fix_visibility_hierarchy(has_visibility: bool, has_inherited: bool, has_view: bool) -> (f:
    VisibilityFix)
    ensures
        f.visibility == (if has_visibility { None } else { Some(Visibility::Visible) }),
        f.inherited == !has_inherited,
        f.view == !has_view,
{
    VisibilityFix {
        visibility: if has_visibility {
            None
        } else {
            Some(Visibility::Visible)
        },
        inherited: !has_inherited,
        view: !has_view,
    }
}

} // verus!
