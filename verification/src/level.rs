use vstd::prelude::*;

use crate::text::str_eq;

verus! {

/// Marks the main layer of a level, the one the game is played on.
#[derive(Debug, Clone, Copy, Default, PartialEq, Eq, Structural)]
pub struct MainBackround;

/// Marks a layer of a level that is neither a parallax background nor the main layer.
#[derive(Debug, Clone, Copy, Default, PartialEq, Eq, Structural)]
pub struct OtherBackround;

/// What a layer of a level is, by its name.
#[derive(Debug, Clone, Copy, PartialEq, Eq, Structural)]
pub enum LayerRole {
    /// A background that moves slower than the camera; the amount is in tenths, and the
    /// farther the background the larger it is.
    Parallax(u8),
    Main(MainBackround),
    /// The layer of creatures and objects: only marked to go with the level.
    Entities,
    Other(OtherBackround),
}

/// The role of the layer named `name`.
pub open spec fn spec_layer_role(name: Seq<char>) -> LayerRole {
    if name == "Background"@ || name == "TundraBackground"@ {
        LayerRole::Parallax(4)
    } else if name == "FarBackground"@ || name == "TundraFarBackground"@ {
        LayerRole::Parallax(3)
    } else if name == "MiddleBackground"@ || name == "TundraMiddleBackground"@ {
        LayerRole::Parallax(2)
    } else if name == "NearBackground"@ || name == "TundraNearBackground"@ {
        LayerRole::Parallax(1)
    } else if name == "Main"@ {
        LayerRole::Main(MainBackround)
    } else if name == "Entities"@ {
        LayerRole::Entities
    } else {
        LayerRole::Other(OtherBackround)
    }
}

/// Decides how a freshly loaded layer is set up.
pub fn attach_parallax(name: &str) -> (role: LayerRole)
    ensures
        role == spec_layer_role(name@),
{
    if str_eq(name, "Background") || str_eq(name, "TundraBackground") {
        LayerRole::Parallax(4)
    } else if str_eq(name, "FarBackground") || str_eq(name, "TundraFarBackground") {
        LayerRole::Parallax(3)
    } else if str_eq(name, "MiddleBackground") || str_eq(name, "TundraMiddleBackground") {
        LayerRole::Parallax(2)
    } else if str_eq(name, "NearBackground") || str_eq(name, "TundraNearBackground") {
        LayerRole::Parallax(1)
    } else if str_eq(name, "Main") {
        LayerRole::Main(MainBackround)
    } else if str_eq(name, "Entities") {
        LayerRole::Entities
    } else {
        LayerRole::Other(OtherBackround)
    }
}

/// A chore done once each time the game is entered.
#[derive(Debug, Clone, Copy, Default, PartialEq, Eq, Structural)]
pub struct RunOnce {
    pub ran: bool,
}

impl RunOnce {
    /// Marks newly loaded tiles to go with the level, until some have been marked since
    /// the game was last entered. Returns whether this frame's new tiles are marked.
    pub fn add_despawn_marker_to_entity(&mut self, entered_game: bool, any_added: bool) -> (process: bool)
        ensures
            process == (entered_game || !old(self).ran),
            final(self).ran == (if process { any_added } else { true }),
    {
        if entered_game {
            self.ran = false;
        }
        if self.ran {
            return false;
        }
        if any_added {
            self.ran = true;
        }
        true
    }

    /// Moves the level's tiles into their maps' chunk buffers and removes the tile
    /// entities, once: as soon as tiles exist, and never again. Returns whether to do it
    /// this frame.
    pub fn compress_and_despawn_tiles_once(&mut self, any_tiles: bool) -> (compress: bool)
        ensures
            compress == (!old(self).ran && any_tiles),
            final(self).ran == (old(self).ran || any_tiles),
    {
        if self.ran || !any_tiles {
            return false;
        }
        self.ran = true;
        true
    }

    /// Hides the first layer named `Level_0` (it covers the backgrounds), once per entry
    /// into the game. Returns the index of the layer hidden this frame.
    pub fn hide_level_0(&mut self, entered_game: bool, names: &Vec<String>) -> (hidden: Option<usize>)
        ensures
            !(entered_game || !old(self).ran) ==> hidden is None && final(self).ran,
            (entered_game || !old(self).ran) ==> match hidden {
                Some(i) => {
                    &&& i < names@.len()
                    &&& names@[i as int]@ == "Level_0"@
                    &&& forall|k: int| 0 <= k < i ==> (#[trigger] names@[k])@ != "Level_0"@
                    &&& final(self).ran
                },
                None => {
                    &&& forall|k: int| 0 <= k < names@.len() ==> (#[trigger] names@[k])@ != "Level_0"@
                    &&& !final(self).ran
                },
            },
    {
        if entered_game {
            self.ran = false;
        }
        if self.ran {
            return None;
        }
        let mut i: usize = 0;
        while i < names.len()
            invariant
                i <= names@.len(),
                !self.ran,
                entered_game || !old(self).ran,
                forall|k: int| 0 <= k < i ==> (#[trigger] names@[k])@ != "Level_0"@,
            decreases names@.len() - i,
        {
            if str_eq(names[i].as_str(), "Level_0") {
                self.ran = true;
                return Some(i);
            }
            i = i + 1;
        }
        None
    }
}

/// The largest of a list of parallax amounts (0 for none).
pub open spec fn spec_max_amount(amounts: Seq<u8>) -> u8
    decreases amounts.len(),
{
    if amounts.len() == 0 {
        0
    } else {
        let rest = spec_max_amount(amounts.drop_last());
        if amounts.last() > rest {
            amounts.last()
        } else {
            rest
        }
    }
}

/// The largest amount is at least every amount of the list, and one of them (for a
/// non-empty list).
pub proof fn lemma_max_amount(amounts: Seq<u8>)
    ensures
        forall|i: int| 0 <= i < amounts.len() ==> amounts[i] <= spec_max_amount(amounts),
        amounts.len() > 0 ==> exists|i: int| 0 <= i < amounts.len() && amounts[i] == spec_max_amount(amounts),
    decreases amounts.len(),
{
    if amounts.len() > 0 {
        lemma_max_amount(amounts.drop_last());
        let rest = amounts.drop_last();
        assert forall|i: int| 0 <= i < amounts.len() implies amounts[i] <= spec_max_amount(amounts) by {
            if i < amounts.len() - 1 {
                assert(rest[i] == amounts[i]);
            }
        }
        if amounts.last() <= spec_max_amount(rest) && rest.len() > 0 {
            let j = choose|j: int| 0 <= j < rest.len() && rest[j] == spec_max_amount(rest);
            assert(amounts[j] == spec_max_amount(amounts));
        } else {
            assert(amounts[amounts.len() - 1] == spec_max_amount(amounts));
        }
    }
}

/// The farthest backgrounds carry the light: of the parallax layers not yet marked, those
/// whose amount is the largest among all parallax layers become light sources. Amounts
/// are in tenths; returns, per unmarked layer, whether it is marked now.
pub fn mark_light_source_layers(all: &Vec<u8>, unmarked: &Vec<u8>) -> (marks: Vec<bool>)
    ensures
        marks@.len() == (if all@.len() == 0 { 0 } else { unmarked@.len() }),
        forall|i: int| 0 <= i < marks@.len() ==> #[trigger] marks@[i] == (unmarked@[i] == spec_max_amount(all@)),
{
    proof {
        lemma_max_amount(all@);
    }
    let mut marks: Vec<bool> = Vec::new();
    if unmarked.len() == 0 || all.len() == 0 {
        return marks;
    }
    let mut max: u8 = 0;
    let mut i: usize = 0;
    while i < all.len()
        invariant
            i <= all@.len(),
            max == spec_max_amount(all@.take(i as int)),
        decreases all@.len() - i,
    {
        assert(all@.take(i + 1).drop_last() =~= all@.take(i as int));
        if all[i] > max {
            max = all[i];
        }
        i = i + 1;
    }
    assert(all@.take(all@.len() as int) =~= all@);
    let mut k: usize = 0;
    while k < unmarked.len()
        invariant
            k <= unmarked@.len(),
            marks@.len() == k,
            max == spec_max_amount(all@),
            forall|j: int| 0 <= j < k ==> #[trigger] marks@[j] == (unmarked@[j] == max),
        decreases unmarked@.len() - k,
    {
        marks.push(unmarked[k] == max);
        k = k + 1;
    }
    marks
}

} // verus!
