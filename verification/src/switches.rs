use vstd::prelude::*;

use crate::text::{
    lemma_parse_reads_decimal, parse_u8, spec_decimal, spec_parse_u8, spec_strip_prefix, spec_two_digit, starts_with, two_digit_string,
};
use crate::visibility::Visibility;

verus! {

/// The puzzle number of a level entity named `prefix` followed by a byte-sized number;
/// 0 where the name does not start with `prefix` or what follows is no such number.
pub open spec fn spec_puzzle_id(name: Seq<char>, prefix: Seq<char>) -> u8 {
    match spec_strip_prefix(name, prefix) {
        Some(rest) => match spec_parse_u8(rest) {
            Some(v) => v,
            None => 0,
        },
        None => 0,
    }
}

/// Reads the puzzle number from an entity name such as `Switch07` (with prefix `Switch`).
pub fn parse_puzzle_id(name: &str, prefix: &str) -> (id: u8)
    ensures
        id == spec_puzzle_id(name@, prefix@),
{
    if !starts_with(name, prefix) {
        return 0;
    }
    let n = name.unicode_len();
    let m = prefix.unicode_len();
    let rest = name.substring_char(m, n);
    assert(rest@ =~= name@.skip(m as int));
    match parse_u8(rest) {
        Some(v) => v,
        None => 0,
    }
}

/// A level entity named by its prefix and a byte-sized number, written plainly or padded
/// to two digits, reads back as that puzzle number.
pub proof fn lemma_puzzle_id_roundtrip(prefix: Seq<char>, n: u8)
    ensures
        spec_puzzle_id(prefix + spec_decimal(n as nat), prefix) == n,
        spec_puzzle_id(prefix + spec_two_digit(n as nat), prefix) == n,
{
    lemma_parse_reads_decimal(n);
    let a = prefix + spec_decimal(n as nat);
    let b = prefix + spec_two_digit(n as nat);
    assert(a.take(prefix.len() as int) =~= prefix);
    assert(a.skip(prefix.len() as int) =~= spec_decimal(n as nat));
    assert(b.take(prefix.len() as int) =~= prefix);
    assert(b.skip(prefix.len() as int) =~= spec_two_digit(n as nat));
}

/// The animation a puzzle picture plays: `anim.puzzle.` and its number, two digits at least.
pub open spec fn spec_puzzle_anim_key(id: nat) -> Seq<char> {
    "anim.puzzle."@ + spec_two_digit(id)
}

/// The animation key of the picture of puzzle `id`.
pub fn puzzle_anim_key(id: u8) -> (key: String)
    ensures
        key@ == spec_puzzle_anim_key(id as nat),
{
    let s = String::from_str("anim.puzzle.");
    let digits = two_digit_string(id as u64);
    s.concat(digits.as_str())
}

/// What one switch shows this tick: whether the player stands on it, and whether its
/// animation is in the activated state.
#[derive(Debug, Clone, Copy, PartialEq, Eq, Structural)]
pub struct SwitchContact {
    pub player_inside: bool,
    pub shown_activated: bool,
}

/// A switch whose animation does not yet match whether the player stands on it.
pub open spec fn spec_switch_stale(s: SwitchContact) -> bool {
    s.player_inside != s.shown_activated
}

/// Whether switches must be updated this tick: some switch is stale.
pub fn should_change_switch_status(switches: &Vec<SwitchContact>) -> (b: bool)
    ensures
        b == exists|i: int| 0 <= i < switches@.len() && spec_switch_stale(#[trigger] switches@[i]),
{
    let mut i: usize = 0;
    while i < switches.len()
        invariant
            i <= switches@.len(),
            forall|k: int| 0 <= k < i ==> !spec_switch_stale(#[trigger] switches@[k]),
        decreases switches@.len() - i,
    {
        if switches[i].player_inside != switches[i].shown_activated {
            assert(spec_switch_stale(switches@[i as int]));
            return true;
        }
        i = i + 1;
    }
    false
}

/// The first puzzle picture that belongs to puzzle `id`, by the puzzle number of each
/// picture's entity (`None` where that entity has none).
pub open spec fn spec_first_puzzle(puzzles: Seq<Option<u8>>, id: u8, found: Option<usize>) -> bool {
    match found {
        Some(j) => {
            &&& j < puzzles.len()
            &&& puzzles[j as int] == Some(id)
            &&& forall|k: int| 0 <= k < j ==> #[trigger] puzzles[k] != Some(id)
        },
        None => forall|k: int| 0 <= k < puzzles.len() ==> #[trigger] puzzles[k] != Some(id),
    }
}

/// Finds the picture of the puzzle that a switch opens.
pub fn find_puzzle(puzzles: &Vec<Option<u8>>, id: u8) -> (found: Option<usize>)
    ensures
        spec_first_puzzle(puzzles@, id, found),
{
    let mut i: usize = 0;
    while i < puzzles.len()
        invariant
            i <= puzzles@.len(),
            forall|k: int| 0 <= k < i ==> #[trigger] puzzles@[k] != Some(id),
        decreases puzzles@.len() - i,
    {
        match puzzles[i] {
            Some(p) => {
                if p == id {
                    return Some(i);
                }
            },
            None => {},
        }
        i = i + 1;
    }
    None
}

/// What activating the switches does to one switch: its animation's activated state,
/// and how the picture of its puzzle is shown.
#[derive(Debug, Clone, Copy, PartialEq, Eq, Structural)]
pub struct SwitchUpdate {
    pub activated: bool,
    pub puzzle_visibility: Visibility,
}

/// A switch is activated while the player stands on it, and its puzzle picture is
/// visible exactly then.
pub open spec fn spec_switch_update(player_inside: bool) -> SwitchUpdate {
    SwitchUpdate {
        activated: player_inside,
        puzzle_visibility: if player_inside { Visibility::Visible } else { Visibility::Hidden },
    }
}

/// What activating the switches does to a switch the player stands on or not.
pub fn switch_update(player_inside: bool) -> (u: SwitchUpdate)
    ensures
        u == spec_switch_update(player_inside),
{
    SwitchUpdate {
        activated: player_inside,
        puzzle_visibility: if player_inside {
            Visibility::Visible
        } else {
            Visibility::Hidden
        },
    }
}

/// Once a switch has taken its update, it is no longer stale, so the switches are left
/// alone until the player steps on or off one.
pub proof fn lemma_update_settles(player_inside: bool, shown_activated: bool)
    ensures
        !spec_switch_stale(
            SwitchContact { player_inside, shown_activated: spec_switch_update(player_inside).activated },
        ),
        spec_switch_stale(SwitchContact { player_inside, shown_activated }) <==> spec_switch_update(
            player_inside,
        ).activated != shown_activated,
{
}

} // verus!
