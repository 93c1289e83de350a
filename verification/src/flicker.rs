use vstd::prelude::*;

use crate::locomotion::Facing;
use crate::skills::WeaponType;
use crate::weapon::PlayerMeleeWeapon;

verus! {

/// Phase of a flicker strike.
#[derive(Debug, PartialEq, Eq, Clone, Copy, Hash, Structural)]
pub enum FlickerPhase {
    /// Playing the intro frames.
    Intro,
    /// Moving toward the target.
    Dashing,
    /// At the target, dealing damage.
    Damage,
    /// Playing the outro frames.
    Outro,
}

/// Direction variant of a flicker dash animation.
#[derive(Debug, PartialEq, Eq, Clone, Copy, Hash, Structural)]
pub enum FlickerVariant {
    Forward,
    Upward,
    Downward,
    FrontUpward,
    FrontDownward,
}

/// The flicker strike action state: rapid dashes between enemies.
#[derive(Debug, Clone)]
pub struct FlickerStriking {
    pub tick: u32,
    pub weapon_type: WeaponType,
    pub current_target: Option<u64>,
    pub last_target: Option<u64>,
    /// Targets already hit in this strike, by entity id.
    pub damaged_entities: Vec<u64>,
    pub phase: FlickerPhase,
    pub current_variant: FlickerVariant,
    pub ticks_per_frame: u32,
    /// Tick at which the current phase started.
    pub phase_start_tick: u32,
    /// Damage was applied to the current target.
    pub damage_applied: bool,
    /// End after finishing the current dash.
    pub pending_outro: bool,
    /// The current run fell back to targets that have a defense.
    pub defense_only_mode: bool,
}

impl FlickerStriking {
    /// A strike with the given weapon, in its intro, at eight ticks per frame.
    pub fn new(weapon_type: WeaponType) -> (f: FlickerStriking)
        ensures
            f.tick == 0,
            f.weapon_type == weapon_type,
            f.current_target is None,
            f.last_target is None,
            f.damaged_entities@ == Seq::<u64>::empty(),
            f.phase == FlickerPhase::Intro,
            f.current_variant == FlickerVariant::Forward,
            f.ticks_per_frame == 8,
            f.phase_start_tick == 0,
            !f.damage_applied,
            !f.pending_outro,
            !f.defense_only_mode,
            f.wf(),
    {
        FlickerStriking {
            tick: 0,
            weapon_type,
            current_target: None,
            last_target: None,
            damaged_entities: Vec::new(),
            phase: FlickerPhase::Intro,
            current_variant: FlickerVariant::Forward,
            ticks_per_frame: 8,
            phase_start_tick: 0,
            damage_applied: false,
            pending_outro: false,
            defense_only_mode: false,
        }
    }

    /// The same strike with another animation speed.
    pub fn with_ticks_per_frame(self, tpf: u32) -> (f: FlickerStriking)
        ensures
            f.ticks_per_frame == tpf,
            f.tick == self.tick,
            f.weapon_type == self.weapon_type,
            f.current_target == self.current_target,
            f.last_target == self.last_target,
            f.damaged_entities@ == self.damaged_entities@,
            f.phase == self.phase,
            f.current_variant == self.current_variant,
            f.phase_start_tick == self.phase_start_tick,
            f.damage_applied == self.damage_applied,
            f.pending_outro == self.pending_outro,
            f.defense_only_mode == self.defense_only_mode,
            self.wf() ==> f.wf(),
    {
        let mut f = self;
        f.ticks_per_frame = tpf;
        f
    }

    /// The strike's bookkeeping invariant: phases start no later than the current tick,
    /// and the hit set names each enemy at most once.
    pub open spec fn wf(&self) -> bool {
        &&& self.phase_start_tick <= self.tick
        &&& self.damaged_entities@.no_duplicates()
    }
}

/// Frames of the intro and of the damage phase: one for the sword, two for the hammer.
pub open spec fn spec_phase_frames(w: WeaponType) -> u32 {
    match w {
        WeaponType::Hammer => 2,
        _ => 1,
    }
}

/// The phase bookkeeping of one tick, before targeting.
pub open spec fn spec_flicker_phase_after(
    phase: FlickerPhase,
    weapon: WeaponType,
    tpf: u32,
    ticks_in_phase: int,
    pending_outro: bool,
) -> (FlickerPhase, bool) {
    match phase {
        FlickerPhase::Intro => if ticks_in_phase >= spec_phase_frames(weapon) * tpf {
            (FlickerPhase::Dashing, true)
        } else {
            (FlickerPhase::Intro, false)
        },
        FlickerPhase::Dashing => (FlickerPhase::Dashing, false),
        FlickerPhase::Damage => if ticks_in_phase >= spec_phase_frames(weapon) * tpf {
            if pending_outro {
                (FlickerPhase::Outro, true)
            } else {
                (FlickerPhase::Dashing, true)
            }
        } else {
            (FlickerPhase::Damage, false)
        },
        FlickerPhase::Outro => (FlickerPhase::Outro, false),
    }
}

/// Whether the strike is over at this tick (the outro played one frame).
pub open spec fn spec_flicker_finished(phase: FlickerPhase, tpf: u32, ticks_in_phase: int) -> bool {
    phase == FlickerPhase::Outro && ticks_in_phase >= tpf
}

/// One tick of the flicker phase machine. `target_alive` is whether the current target
/// still exists with health left. Returns whether the strike ended (hand back to Ready).
pub fn flicker_phase_step(f: &mut FlickerStriking, target_alive: bool) -> (ended: bool)
    requires
        old(f).wf(),
        (old(f).phase == FlickerPhase::Intro || old(f).phase == FlickerPhase::Damage)
            ==> spec_phase_frames(old(f).weapon_type) * old(f).ticks_per_frame <= u32::MAX,
    ensures
        final(f).wf(),
        final(f).tick == spec_sat_inc(old(f).tick),
        final(f).weapon_type == old(f).weapon_type,
        final(f).ticks_per_frame == old(f).ticks_per_frame,
        final(f).last_target == old(f).last_target,
        final(f).damaged_entities@ == old(f).damaged_entities@,
        final(f).current_variant == old(f).current_variant,
        final(f).defense_only_mode == old(f).defense_only_mode,
        ({
            let tip = spec_sat_inc(old(f).tick) - old(f).phase_start_tick;
            let (phase, restarted) = spec_flicker_phase_after(
                old(f).phase,
                old(f).weapon_type,
                old(f).ticks_per_frame,
                tip,
                old(f).pending_outro,
            );
            let target_kept = old(f).current_target is Some && target_alive;
            &&& final(f).phase == phase
            &&& final(f).phase_start_tick == if restarted {
                final(f).tick
            } else {
                old(f).phase_start_tick
            }
            &&& final(f).current_target == if restarted || !target_kept {
                None
            } else {
                old(f).current_target
            }
            &&& final(f).damage_applied == if (old(f).current_target is Some && !target_alive) || (
            restarted && old(f).phase == FlickerPhase::Damage) {
                false
            } else {
                old(f).damage_applied
            }
            &&& final(f).pending_outro == if restarted && old(f).phase == FlickerPhase::Damage {
                false
            } else {
                old(f).pending_outro
            }
            &&& ended == spec_flicker_finished(old(f).phase, old(f).ticks_per_frame, tip)
        }),
{
    f.tick = f.tick.saturating_add(1);
    let ticks_in_phase = f.tick - f.phase_start_tick;
    if f.current_target.is_some() && !target_alive {
        f.current_target = None;
        f.damage_applied = false;
    }
    let frames: u32 = match f.weapon_type {
        WeaponType::Hammer => 2,
        _ => 1,
    };
    match f.phase {
        FlickerPhase::Intro => {
            let intro_ticks = frames * f.ticks_per_frame;
            if ticks_in_phase >= intro_ticks {
                f.phase = FlickerPhase::Dashing;
                f.phase_start_tick = f.tick;
                f.current_target = None;
            }
            false
        },
        FlickerPhase::Dashing => false,
        FlickerPhase::Damage => {
            let damage_ticks = frames * f.ticks_per_frame;
            if ticks_in_phase >= damage_ticks {
                if f.pending_outro {
                    f.phase = FlickerPhase::Outro;
                    f.phase_start_tick = f.tick;
                    f.current_target = None;
                    f.damage_applied = false;
                    f.pending_outro = false;
                } else {
                    f.phase = FlickerPhase::Dashing;
                    f.phase_start_tick = f.tick;
                    f.current_target = None;
                    f.damage_applied = false;
                }
            }
            false
        },
        FlickerPhase::Outro => {
            let outro_ticks = f.ticks_per_frame;
            ticks_in_phase >= outro_ticks
        },
    }
}

/// Once the damage phase has played its frames (one for a sword, two for a hammer), the
/// strike moves on: to the outro when a stop was requested during the dash, which is
/// thereby honoured, and to the next dash otherwise; before that it stays in the damage
/// phase. The intro likewise hands over to dashing after the same number of frames.
pub proof fn lemma_flicker_damage_resolves(w: WeaponType, tpf: u32, ticks_in_phase: int, pending_outro: bool)
    ensures
        ({
            let played = ticks_in_phase >= (if w == WeaponType::Hammer {
                2 * tpf
            } else {
                tpf as int
            });
            let (phase, restarted) = spec_flicker_phase_after(
                FlickerPhase::Damage,
                w,
                tpf,
                ticks_in_phase,
                pending_outro,
            );
            &&& played && pending_outro ==> phase == FlickerPhase::Outro && restarted
            &&& played && !pending_outro ==> phase == FlickerPhase::Dashing && restarted
            &&& !played ==> phase == FlickerPhase::Damage && !restarted
        }),
        ({
            let played = ticks_in_phase >= (if w == WeaponType::Hammer {
                2 * tpf
            } else {
                tpf as int
            });
            let (phase, restarted) = spec_flicker_phase_after(
                FlickerPhase::Intro,
                w,
                tpf,
                ticks_in_phase,
                pending_outro,
            );
            &&& played ==> phase == FlickerPhase::Dashing && restarted
            &&& !played ==> phase == FlickerPhase::Intro && !restarted
        }),
{
    if w == WeaponType::Hammer {
        assert(spec_phase_frames(w) * tpf == 2 * tpf);
    } else {
        assert(spec_phase_frames(w) == 1);
        assert(spec_phase_frames(w) * tpf == tpf) by (nonlinear_arith)
            requires
                spec_phase_frames(w) == 1,
        ;
    }
}

pub open spec fn spec_sat_inc(x: u32) -> u32 {
    if x == u32::MAX {
        x
    } else {
        (x + 1) as u32
    }
}


// ---------------------------------------------------------------------------
// Targeting
// ---------------------------------------------------------------------------

/// An enemy (or bell) the flicker strike may dash to, in query order.
#[derive(Debug, PartialEq, Eq, Clone, Copy, Structural)]
pub struct FlickerCandidate {
    pub id: u64,
    /// Health above zero.
    pub alive: bool,
    /// Within the skill's range of the player.
    pub in_range: bool,
    pub has_defense: bool,
    /// Distance to the player, as the bit pattern of a non-negative float (which orders
    /// the same way as the distances themselves).
    pub distance_key: u32,
}

pub open spec fn spec_is_nondef(c: FlickerCandidate) -> bool {
    c.alive && c.in_range && !c.has_defense
}

pub open spec fn spec_is_def(c: FlickerCandidate) -> bool {
    c.alive && c.in_range && c.has_defense
}

pub open spec fn spec_is_reachable(c: FlickerCandidate) -> bool {
    c.alive && c.in_range
}

pub open spec fn nondef_pred() -> spec_fn(FlickerCandidate) -> bool {
    |c: FlickerCandidate| spec_is_nondef(c)
}

pub open spec fn def_pred() -> spec_fn(FlickerCandidate) -> bool {
    |c: FlickerCandidate| spec_is_def(c)
}

pub open spec fn reachable_pred() -> spec_fn(FlickerCandidate) -> bool {
    |c: FlickerCandidate| spec_is_reachable(c)
}

pub open spec fn fresh_pred(damaged: Seq<u64>) -> spec_fn(FlickerCandidate) -> bool {
    |c: FlickerCandidate| !damaged.contains(c.id)
}

pub open spec fn key_pred(key: u32) -> spec_fn(FlickerCandidate) -> bool {
    |c: FlickerCandidate| c.distance_key == key
}

/// Targets worth a dash: enemies without a defense (skipping the ones already hit when
/// there are several), or, when there are none, the ones with a defense.
pub open spec fn spec_valid_targets(cs: Seq<FlickerCandidate>, damaged: Seq<u64>) -> Seq<FlickerCandidate> {
    let nondef = cs.filter(nondef_pred());
    if nondef.len() > 0 {
        if nondef.len() <= 1 {
            nondef
        } else {
            nondef.filter(fresh_pred(damaged))
        }
    } else {
        cs.filter(def_pred())
    }
}

/// The smallest distance key of a non-empty sequence.
pub open spec fn spec_min_key(s: Seq<FlickerCandidate>) -> u32
    decreases s.len(),
{
    if s.len() <= 1 {
        s[0].distance_key
    } else {
        let rest = spec_min_key(s.drop_last());
        if s.last().distance_key < rest {
            s.last().distance_key
        } else {
            rest
        }
    }
}

/// The target a flicker dash picks among valid targets: the first pick of a strike goes
/// to the nearest one (ties broken by the tick), later picks are spread by the tick and
/// skip the previous target when there is another.
pub open spec fn spec_pick_target(valid: Seq<FlickerCandidate>, last: Option<u64>, tick: u32) -> u64 {
    if last is None {
        let m = spec_min_key(valid);
        let ties = valid.filter(key_pred(m));
        ties[tick as int % ties.len() as int].id
    } else {
        let idx = tick as int % valid.len() as int;
        if valid.len() > 1 && valid[idx].id == last.unwrap() {
            valid[(idx + 1) % valid.len() as int].id
        } else {
            valid[idx].id
        }
    }
}

/// What one targeting tick decided.
#[derive(Debug, PartialEq, Eq, Clone, Copy, Structural)]
pub struct FlickerTargeting {
    /// Remove the outro request marker.
    pub consume_outro_request: bool,
    /// The target picked this tick (the caller sets the dash variant from its direction).
    pub selected: Option<u64>,
}

fn contains_id(v: &Vec<u64>, x: u64) -> (b: bool)
    ensures
        b == v@.contains(x),
{
    let mut i: usize = 0;
    while i < v.len()
        invariant
            i <= v.len(),
            forall|j: int| 0 <= j < i ==> v@[j] != x,
        decreases v.len() - i,
    {
        if v[i] == x {
            return true;
        }
        i = i + 1;
    }
    false
}

fn filter_candidates(cs: &Vec<FlickerCandidate>, defense: bool) -> (r: Vec<FlickerCandidate>)
    ensures
        defense ==> r@ == cs@.filter(def_pred()),
        !defense ==> r@ == cs@.filter(nondef_pred()),
{
    let ghost pred = if defense {
        def_pred()
    } else {
        nondef_pred()
    };
    let mut r: Vec<FlickerCandidate> = Vec::new();
    let mut i: usize = 0;
    while i < cs.len()
        invariant
            i <= cs.len(),
            pred == (if defense {
                def_pred()
            } else {
                nondef_pred()
            }),
            r@ == cs@.take(i as int).filter(pred),
        decreases cs.len() - i,
    {
        reveal_with_fuel(Seq::<_>::filter, 1);
        let c = cs[i];
        if c.alive && c.in_range && c.has_defense == defense {
            r.push(c);
        }
        assert(cs@.take(i + 1).drop_last() =~= cs@.take(i as int));
        i = i + 1;
    }
    assert(cs@.take(cs.len() as int) =~= cs@);
    r
}

fn count_reachable(cs: &Vec<FlickerCandidate>) -> (n: usize)
    ensures
        n == cs@.filter(reachable_pred()).len(),
{
    let ghost pred = reachable_pred();
    let mut n: usize = 0;
    let mut i: usize = 0;
    while i < cs.len()
        invariant
            i <= cs.len(),
            pred == (reachable_pred()),
            n == cs@.take(i as int).filter(pred).len(),
            n <= i,
        decreases cs.len() - i,
    {
        reveal_with_fuel(Seq::<_>::filter, 1);
        if cs[i].alive && cs[i].in_range {
            n = n + 1;
        }
        assert(cs@.take(i + 1).drop_last() =~= cs@.take(i as int));
        i = i + 1;
    }
    assert(cs@.take(cs.len() as int) =~= cs@);
    n
}

fn filter_not_damaged(cs: &Vec<FlickerCandidate>, damaged: &Vec<u64>) -> (r: Vec<FlickerCandidate>)
    ensures
        r@ == cs@.filter(fresh_pred(damaged@)),
{
    let ghost pred = fresh_pred(damaged@);
    let mut r: Vec<FlickerCandidate> = Vec::new();
    let mut i: usize = 0;
    while i < cs.len()
        invariant
            i <= cs.len(),
            pred == (fresh_pred(damaged@)),
            r@ == cs@.take(i as int).filter(pred),
        decreases cs.len() - i,
    {
        reveal_with_fuel(Seq::<_>::filter, 1);
        let c = cs[i];
        if !contains_id(damaged, c.id) {
            r.push(c);
        }
        assert(cs@.take(i + 1).drop_last() =~= cs@.take(i as int));
        i = i + 1;
    }
    assert(cs@.take(cs.len() as int) =~= cs@);
    r
}

fn min_key(s: &Vec<FlickerCandidate>) -> (m: u32)
    requires
        s@.len() > 0,
    ensures
        m == spec_min_key(s@),
{
    let mut m = s[0].distance_key;
    let mut i: usize = 1;
    while i < s.len()
        invariant
            1 <= i <= s.len(),
            m == spec_min_key(s@.take(i as int)),
        decreases s.len() - i,
    {
        assert(s@.take(i + 1).drop_last() =~= s@.take(i as int));
        if s[i].distance_key < m {
            m = s[i].distance_key;
        }
        i = i + 1;
    }
    assert(s@.take(s.len() as int) =~= s@);
    m
}

fn filter_key(s: &Vec<FlickerCandidate>, key: u32) -> (r: Vec<FlickerCandidate>)
    ensures
        r@ == s@.filter(key_pred(key)),
{
    let ghost pred = key_pred(key);
    let mut r: Vec<FlickerCandidate> = Vec::new();
    let mut i: usize = 0;
    while i < s.len()
        invariant
            i <= s.len(),
            pred == (key_pred(key)),
            r@ == s@.take(i as int).filter(pred),
        decreases s.len() - i,
    {
        reveal_with_fuel(Seq::<_>::filter, 1);
        if s[i].distance_key == key {
            r.push(s[i]);
        }
        assert(s@.take(i + 1).drop_last() =~= s@.take(i as int));
        i = i + 1;
    }
    assert(s@.take(s.len() as int) =~= s@);
    r
}

proof fn lemma_min_key_attained(s: Seq<FlickerCandidate>)
    requires
        s.len() > 0,
    ensures
        exists|i: int| 0 <= i < s.len() && s[i].distance_key == spec_min_key(s),
        forall|i: int| 0 <= i < s.len() ==> spec_min_key(s) <= #[trigger] s[i].distance_key,
    decreases s.len(),
{
    if s.len() > 1 {
        lemma_min_key_attained(s.drop_last());
        let rest = s.drop_last();
        if s.last().distance_key < spec_min_key(rest) {
            assert(s[s.len() - 1].distance_key == spec_min_key(s));
        } else {
            let w = choose|i: int| 0 <= i < rest.len() && rest[i].distance_key == spec_min_key(rest);
            assert(s[w].distance_key == spec_min_key(s));
        }
        assert forall|i: int| 0 <= i < s.len() implies spec_min_key(s) <= #[trigger] s[i].distance_key by {
            if i < s.len() - 1 {
                assert(s[i] == rest[i]);
            }
        }
    } else {
        assert(s[0].distance_key == spec_min_key(s));
    }
}

proof fn lemma_ties_nonempty(s: Seq<FlickerCandidate>)
    requires
        s.len() > 0,
    ensures
        s.filter(key_pred(spec_min_key(s))).len() > 0,
{
    lemma_min_key_attained(s);
    let m = spec_min_key(s);
    let w = choose|i: int| 0 <= i < s.len() && s[i].distance_key == m;
    let pred = key_pred(m);
    assert(pred(s[w]));
    broadcast use vstd::seq_lib::group_filter_ensures;
    assert(s.filter(pred).contains(s[w]));
}

/// Valid targets of this tick, computed from the candidates and the hit set.
fn valid_targets(cs: &Vec<FlickerCandidate>, damaged: &Vec<u64>) -> (r: (Vec<FlickerCandidate>, bool))
    ensures
        r.0@ == spec_valid_targets(cs@, damaged@),
        r.1 == (cs@.filter(nondef_pred()).len() > 0),
{
    let nondef = filter_candidates(cs, false);
    if nondef.len() > 0 {
        if nondef.len() <= 1 {
            (nondef, true)
        } else {
            let fresh = filter_not_damaged(&nondef, damaged);
            (fresh, true)
        }
    } else {
        (filter_candidates(cs, true), false)
    }
}

/// The target picked among non-empty valid targets.
fn pick_target(valid: &Vec<FlickerCandidate>, last: Option<u64>, tick: u32) -> (id: u64)
    requires
        valid@.len() > 0,
    ensures
        id == spec_pick_target(valid@, last, tick),
{
    match last {
        None => {
            let m = min_key(valid);
            let ties = filter_key(valid, m);
            proof {
                lemma_ties_nonempty(valid@);
            }
            let pick = (tick as usize) % ties.len();
            ties[pick].id
        },
        Some(prev) => {
            let n = valid.len();
            let mut idx = (tick as usize) % n;
            if n > 1 && valid[idx].id == prev {
                idx = (idx + 1) % n;
            }
            valid[idx].id
        },
    }
}

/// The dash is left as it was: same phase, phase start and target.
pub open spec fn spec_same_dash(f: FlickerStriking, g: FlickerStriking) -> bool {
    &&& g.phase == f.phase
    &&& g.phase_start_tick == f.phase_start_tick
    &&& g.current_target == f.current_target
}

/// The strike's memory is left as it was: its hit set, last target, defense-only run and
/// deferred outro request.
pub open spec fn spec_same_bookkeeping(f: FlickerStriking, g: FlickerStriking) -> bool {
    &&& g.damaged_entities@ == f.damaged_entities@
    &&& g.last_target == f.last_target
    &&& g.defense_only_mode == f.defense_only_mode
    &&& g.pending_outro == f.pending_outro
}

/// Move to the outro phase now.
pub open spec fn spec_enter_outro(f: FlickerStriking, g: FlickerStriking) -> bool {
    g.phase == FlickerPhase::Outro && g.phase_start_tick == f.tick && g.current_target is None
}

/// One targeting tick of a flicker strike. `outro_requested` is whether the player asked
/// to stop; `energy_ok` is whether enough energy is left for another dash; `candidates`
/// are the enemies and bells in query order.
///
/// An outro request moves to the outro at once, except mid-dash or during the intro,
/// where it is deferred until the current dash lands. While dashing without a target, the
/// strike stops for lack of energy or of reachable enemies, forgets its hit set when every
/// reachable enemy has been hit, stops after a single hit when only defended enemies
/// remain, and otherwise picks a new target.
pub fn flicker_targeting_step(
    f: &mut FlickerStriking,
    outro_requested: bool,
    energy_ok: bool,
    candidates: &Vec<FlickerCandidate>,
) -> (t: FlickerTargeting)
    requires
        old(f).wf(),
    ensures
        final(f).wf(),
        final(f).tick == old(f).tick,
        final(f).weapon_type == old(f).weapon_type,
        final(f).ticks_per_frame == old(f).ticks_per_frame,
        final(f).damage_applied == old(f).damage_applied,
        final(f).current_variant == old(f).current_variant,
        t.consume_outro_request == (outro_requested && old(f).phase != FlickerPhase::Outro),
        // deferred outro request: the dash goes on, only the request is remembered
        outro_requested && ((old(f).phase == FlickerPhase::Dashing && old(f).current_target is Some)
            || old(f).phase == FlickerPhase::Intro) ==> final(f).pending_outro && t.selected is None
            && spec_same_dash(*old(f), *final(f)) && final(f).damaged_entities@
            == old(f).damaged_entities@ && final(f).last_target == old(f).last_target
            && final(f).defense_only_mode == old(f).defense_only_mode,
        // immediate outro request
        outro_requested && (old(f).phase == FlickerPhase::Damage || (old(f).phase
            == FlickerPhase::Dashing && old(f).current_target is None)) ==> spec_enter_outro(
            *old(f),
            *final(f),
        ) && t.selected is None && spec_same_bookkeeping(*old(f), *final(f)),
        // nothing to pick outside an untargeted dash, and nothing changes without a request
        (old(f).phase != FlickerPhase::Dashing || old(f).current_target is Some) ==> t.selected is None,
        !(outro_requested && old(f).phase != FlickerPhase::Outro) && (old(f).phase
            != FlickerPhase::Dashing || old(f).current_target is Some) ==> spec_same_dash(*old(f), *final(f))
            && spec_same_bookkeeping(*old(f), *final(f)),
        // picking
        !outro_requested && old(f).phase == FlickerPhase::Dashing && old(f).current_target is None
            ==> ({
            let valid = spec_valid_targets(candidates@, old(f).damaged_entities@);
            let nondef_any = candidates@.filter(nondef_pred()).len() > 0;
            let reachable = candidates@.filter(reachable_pred()).len();
            if !energy_ok {
                spec_enter_outro(*old(f), *final(f)) && t.selected is None && spec_same_bookkeeping(
                    *old(f),
                    *final(f),
                )
            } else if valid.len() == 0 {
                t.selected is None && if reachable == 0 {
                    spec_enter_outro(*old(f), *final(f)) && spec_same_bookkeeping(*old(f), *final(f))
                } else {
                    &&& final(f).damaged_entities@ == Seq::<u64>::empty()
                    &&& spec_same_dash(*old(f), *final(f))
                    &&& final(f).last_target == old(f).last_target
                    &&& final(f).defense_only_mode == old(f).defense_only_mode
                    &&& final(f).pending_outro == old(f).pending_outro
                }
            } else if old(f).defense_only_mode && !nondef_any {
                &&& spec_enter_outro(*old(f), *final(f))
                &&& !final(f).defense_only_mode
                &&& t.selected is None
                &&& final(f).damaged_entities@ == old(f).damaged_entities@
                &&& final(f).last_target == old(f).last_target
                &&& final(f).pending_outro == old(f).pending_outro
            } else {
                let id = spec_pick_target(valid, old(f).last_target, old(f).tick);
                &&& t.selected == Some(id)
                &&& final(f).current_target == Some(id)
                &&& final(f).last_target == Some(id)
                &&& final(f).defense_only_mode == !nondef_any
                &&& final(f).phase == FlickerPhase::Dashing
                &&& final(f).phase_start_tick == old(f).phase_start_tick
                &&& final(f).damaged_entities@ == old(f).damaged_entities@
                &&& final(f).pending_outro == old(f).pending_outro
            }
        }),
{
    let mut consume = false;
    if outro_requested && f.phase != FlickerPhase::Outro {
        consume = true;
        if f.phase == FlickerPhase::Dashing && f.current_target.is_some() {
            f.pending_outro = true;
        } else if f.phase == FlickerPhase::Intro {
            f.pending_outro = true;
        } else {
            f.phase = FlickerPhase::Outro;
            f.phase_start_tick = f.tick;
            f.current_target = None;
            return FlickerTargeting { consume_outro_request: true, selected: None };
        }
    }
    if f.phase != FlickerPhase::Dashing {
        return FlickerTargeting { consume_outro_request: consume, selected: None };
    }
    if f.current_target.is_some() {
        return FlickerTargeting { consume_outro_request: consume, selected: None };
    }
    if !energy_ok {
        f.phase = FlickerPhase::Outro;
        f.phase_start_tick = f.tick;
        f.current_target = None;
        return FlickerTargeting { consume_outro_request: consume, selected: None };
    }
    let reachable = count_reachable(candidates);
    let (valid, have_nondef) = valid_targets(candidates, &f.damaged_entities);
    if valid.len() == 0 {
        if reachable == 0 {
            f.phase = FlickerPhase::Outro;
            f.phase_start_tick = f.tick;
            f.current_target = None;
        } else {
            f.damaged_entities = Vec::new();
        }
        return FlickerTargeting { consume_outro_request: consume, selected: None };
    }
    if f.defense_only_mode && !have_nondef {
        f.phase = FlickerPhase::Outro;
        f.phase_start_tick = f.tick;
        f.current_target = None;
        f.defense_only_mode = false;
        return FlickerTargeting { consume_outro_request: consume, selected: None };
    }
    let id = pick_target(&valid, f.last_target, f.tick);
    f.last_target = Some(id);
    f.current_target = Some(id);
    f.defense_only_mode = !have_nondef;
    FlickerTargeting { consume_outro_request: consume, selected: Some(id) }
}


/// A picked target is one of the valid targets; every valid target is alive and in range,
/// and none has a defense while some undefended enemy is reachable. With distinct ids, a
/// later pick never repeats the previous target when another valid target exists.
pub proof fn lemma_flicker_pick(cs: Seq<FlickerCandidate>, damaged: Seq<u64>, last: Option<u64>, tick: u32)
    requires
        spec_valid_targets(cs, damaged).len() > 0,
    ensures
        ({
            let valid = spec_valid_targets(cs, damaged);
            let pick = spec_pick_target(valid, last, tick);
            &&& exists|j: int| 0 <= j < valid.len() && #[trigger] valid[j].id == pick
            &&& forall|j: int| 0 <= j < valid.len() ==> spec_is_reachable(#[trigger] valid[j])
            &&& cs.filter(nondef_pred()).len() > 0 ==> forall|j: int|
                0 <= j < valid.len() ==> !(#[trigger] valid[j]).has_defense
            &&& (last is Some && valid.len() > 1 && (forall|i: int, j: int|
                0 <= i < valid.len() && 0 <= j < valid.len() && i != j ==> valid[i].id
                    != valid[j].id)) ==> pick != last.unwrap()
        }),
{
    let valid = spec_valid_targets(cs, damaged);
    broadcast use vstd::seq_lib::group_filter_ensures;
    let nd_pred = nondef_pred();
    let d_pred = def_pred();
    let nondef = cs.filter(nd_pred);
    assert forall|j: int| 0 <= j < valid.len() implies spec_is_reachable(#[trigger] valid[j]) && (
    nondef.len() > 0 ==> !valid[j].has_defense) by {
        if nondef.len() > 0 {
            if nondef.len() > 1 {
                assert(valid.contains(valid[j]));
                nondef.lemma_filter_contains_rev(fresh_pred(damaged), valid[j]);
                assert(nondef.contains(valid[j]));
            }
            assert(nd_pred(valid[j]));
        } else {
            assert(d_pred(valid[j]));
        }
    }
    let pick = spec_pick_target(valid, last, tick);
    if last is None {
        let m = spec_min_key(valid);
        let tie_pred = key_pred(m);
        let ties = valid.filter(tie_pred);
        lemma_ties_nonempty(valid);
        let k = tick as int % ties.len() as int;
        assert(ties.contains(ties[k]));
        valid.lemma_filter_contains_rev(tie_pred, ties[k]);
        assert(valid.contains(ties[k]));
        let j = choose|j: int| 0 <= j < valid.len() && valid[j] == ties[k];
        assert(valid[j].id == pick);
    } else {
        let n = valid.len() as int;
        let idx = tick as int % n;
        if n > 1 && valid[idx].id == last.unwrap() {
            assert(valid[(idx + 1) % n].id == pick);
            if (forall|i: int, j: int|
                0 <= i < valid.len() && 0 <= j < valid.len() && i != j ==> valid[i].id != valid[j].id) {
                assert(0 <= idx < n);
                assert((idx + 1) % n != idx) by {
                    if idx + 1 < n {
                        vstd::arithmetic::div_mod::lemma_small_mod((idx + 1) as nat, n as nat);
                    } else {
                        vstd::arithmetic::div_mod::lemma_mod_self_0(n);
                    }
                }
            }
        } else {
            assert(valid[idx].id == pick);
        }
    }
}

// ---------------------------------------------------------------------------
// Collision, animation, outro
// ---------------------------------------------------------------------------

/// What one collision tick decided.
#[derive(Debug, PartialEq, Eq, Clone, Copy, Structural)]
pub struct FlickerHit {
    /// The dash reached its target: the damage phase starts.
    pub arrived: bool,
    /// Apply damage now (debit one energy chunk, spawn the damage source).
    pub apply_damage: bool,
}

/// One collision tick: when the dash reaches its live target, start the damage phase;
/// the first arrival at a target applies damage (see `flicker_damage_source`) and records
/// the target as hit.
/// `target_present` is whether the target still exists; `within_reach` is whether the
/// player is within the collision distance of it.
pub fn flicker_collision_step(f: &mut FlickerStriking, target_present: bool, within_reach: bool) -> (h:
    FlickerHit)
    requires
        old(f).wf(),
    ensures
        final(f).wf(),
        final(f).tick == old(f).tick,
        final(f).weapon_type == old(f).weapon_type,
        final(f).ticks_per_frame == old(f).ticks_per_frame,
        final(f).current_target == old(f).current_target,
        final(f).last_target == old(f).last_target,
        final(f).pending_outro == old(f).pending_outro,
        final(f).defense_only_mode == old(f).defense_only_mode,
        final(f).current_variant == old(f).current_variant,
        h.arrived == (old(f).phase == FlickerPhase::Dashing && old(f).current_target is Some
            && target_present && within_reach),
        h.apply_damage == (h.arrived && !old(f).damage_applied),
        h.arrived ==> final(f).phase == FlickerPhase::Damage && final(f).phase_start_tick
            == old(f).tick && final(f).damage_applied,
        !h.arrived ==> final(f).phase == old(f).phase && final(f).phase_start_tick
            == old(f).phase_start_tick && final(f).damage_applied == old(f).damage_applied,
        h.apply_damage ==> final(f).damaged_entities@.contains(old(f).current_target.unwrap()),
        h.apply_damage ==> old(f).damaged_entities@.contains(old(f).current_target.unwrap())
            ==> final(f).damaged_entities@ == old(f).damaged_entities@,
        h.apply_damage ==> !old(f).damaged_entities@.contains(old(f).current_target.unwrap())
            ==> final(f).damaged_entities@ == old(f).damaged_entities@.push(
            old(f).current_target.unwrap(),
        ),
        !h.apply_damage ==> final(f).damaged_entities@ == old(f).damaged_entities@,
{
    if f.phase != FlickerPhase::Dashing {
        return FlickerHit { arrived: false, apply_damage: false };
    }
    let target = match f.current_target {
        Some(t) => t,
        None => {
            return FlickerHit { arrived: false, apply_damage: false };
        },
    };
    if !target_present || !within_reach {
        return FlickerHit { arrived: false, apply_damage: false };
    }
    f.phase = FlickerPhase::Damage;
    f.phase_start_tick = f.tick;
    if !f.damage_applied {
        if !contains_id(&f.damaged_entities, target) {
            f.damaged_entities.push(target);
        }
        f.damage_applied = true;
        assert(f.damaged_entities@.contains(target)) by {
            if old(f).damaged_entities@.contains(target) {
            } else {
                assert(f.damaged_entities@[f.damaged_entities@.len() - 1] == target);
            }
        }
        return FlickerHit { arrived: true, apply_damage: true };
    }
    FlickerHit { arrived: true, apply_damage: false }
}

/// Ticks the damage source of a flicker hit lives, so that the combat systems see it
/// whatever order they run in.
pub const FLICKER_HIT_LIFETIME_TICKS: u32 = 3;

/// Base damage of a flicker hit, before the player's damage modifier: the melee weapon's
/// base damage with a sword or hammer, ten with anything else.
pub open spec fn spec_flicker_hit_base_damage(w: WeaponType) -> u32 {
    match w {
        WeaponType::Sword => 33,
        WeaponType::Hammer => 55,
        WeaponType::Bow => 10,
    }
}

/// Base damage of a flicker hit with the given weapon.
pub fn flicker_hit_base_damage(w: WeaponType) -> (d: u32)
    ensures
        d == spec_flicker_hit_base_damage(w),
{
    match w {
        WeaponType::Sword => PlayerMeleeWeapon::Sword.base_damage(),
        WeaponType::Hammer => PlayerMeleeWeapon::Hammer.base_damage(),
        WeaponType::Bow => 10,
    }
}

/// The spark slot of a flicker hit: the hammer's for a hammer, the sword's otherwise.
pub open spec fn spec_flicker_hit_slot(w: WeaponType) -> Seq<char> {
    match w {
        WeaponType::Hammer => "HammerHit"@,
        _ => "SwordHit"@,
    }
}

/// A hit is a backstab when the enemy faces away from the player: it faces left while
/// standing left of the player, or right while standing right of the player.
pub open spec fn spec_flicker_backstab(
    enemy_facing: Facing,
    enemy_left_of_player: bool,
    enemy_right_of_player: bool,
) -> bool {
    match enemy_facing {
        Facing::Left => enemy_left_of_player,
        Facing::Right => enemy_right_of_player,
    }
}

/// The damage source a flicker hit spawns at its target (its damage is then scaled by the
/// player's real-valued damage modifier).
#[derive(Debug, Clone, Copy)]
pub struct FlickerDamageSource {
    pub base_damage: u32,
    pub lifetime: u32,
    /// The source hits one target only.
    pub max_targets: u32,
    pub hit_slot: &'static str,
    pub backstab: bool,
    /// The player was stealthed: the hit steals life and deals double damage.
    pub stealthed: bool,
}

/// What a flicker hit that applies damage spawns, given the weapon, which way the enemy
/// faces, on which side of the player it stands (`enemy_left_of_player` and
/// `enemy_right_of_player` compare its horizontal position with the player's), and whether
/// the player is stealthed.
pub fn flicker_damage_source(
    weapon: WeaponType,
    enemy_facing: Facing,
    enemy_left_of_player: bool,
    enemy_right_of_player: bool,
    player_stealthed: bool,
) -> (d: FlickerDamageSource)
    ensures
        d.base_damage == spec_flicker_hit_base_damage(weapon),
        d.lifetime == FLICKER_HIT_LIFETIME_TICKS,
        d.max_targets == 1,
        d.hit_slot@ == spec_flicker_hit_slot(weapon),
        d.backstab == spec_flicker_backstab(enemy_facing, enemy_left_of_player, enemy_right_of_player),
        d.stealthed == player_stealthed,
{
    let hit_slot: &'static str = match weapon {
        WeaponType::Hammer => "HammerHit",
        _ => "SwordHit",
    };
    let backstab = match enemy_facing {
        Facing::Left => enemy_left_of_player,
        Facing::Right => enemy_right_of_player,
    };
    FlickerDamageSource {
        base_damage: flicker_hit_base_damage(weapon),
        lifetime: FLICKER_HIT_LIFETIME_TICKS,
        max_targets: 1,
        hit_slot,
        backstab,
        stealthed: player_stealthed,
    }
}

/// Animation key of a flicker dash for a weapon and direction.
pub open spec fn spec_flicker_animation_key(w: WeaponType, v: FlickerVariant) -> Seq<char> {
    "anim.player."@ + (match w {
        WeaponType::Hammer => "Hammer"@,
        _ => "Sword"@,
    }) + "Flicker"@ + (match v {
        FlickerVariant::Forward => "Forward"@,
        FlickerVariant::Upward => "Upward"@,
        FlickerVariant::Downward => "Downward"@,
        FlickerVariant::FrontUpward => "FrontUpward"@,
        FlickerVariant::FrontDownward => "FrontDownward"@,
    })
}

/// The animation key a flicker dash plays.
pub fn flicker_animation_key(w: WeaponType, v: FlickerVariant) -> (key: String)
    ensures
        key@ == spec_flicker_animation_key(w, v),
{
    let mut key = String::from_str("anim.player.");
    let prefix = match w {
        WeaponType::Hammer => "Hammer",
        _ => "Sword",
    };
    key.append(prefix);
    key.append("Flicker");
    let suffix = match v {
        FlickerVariant::Forward => "Forward",
        FlickerVariant::Upward => "Upward",
        FlickerVariant::Downward => "Downward",
        FlickerVariant::FrontUpward => "FrontUpward",
        FlickerVariant::FrontDownward => "FrontDownward",
    };
    key.append(suffix);
    key
}

/// Animation slots of the four phases; exactly the current phase's slot is on.
#[derive(Debug, PartialEq, Eq, Clone, Copy, Structural)]
pub struct FlickerSlots {
    pub intro: bool,
    pub dashing: bool,
    pub damage: bool,
    pub outro: bool,
}

/// The animation slots for a phase.
pub fn flicker_phase_slots(p: FlickerPhase) -> (s: FlickerSlots)
    ensures
        s.intro == (p == FlickerPhase::Intro),
        s.dashing == (p == FlickerPhase::Dashing),
        s.damage == (p == FlickerPhase::Damage),
        s.outro == (p == FlickerPhase::Outro),
{
    FlickerSlots {
        intro: p == FlickerPhase::Intro,
        dashing: p == FlickerPhase::Dashing,
        damage: p == FlickerPhase::Damage,
        outro: p == FlickerPhase::Outro,
    }
}

/// Whether the strike drives the player toward its target this tick: only while dashing
/// toward a target that still exists; otherwise the player is held still.
pub fn flicker_striking_movement(phase: FlickerPhase, has_target: bool, target_found: bool) -> (drive: bool)
    ensures
        drive == (phase == FlickerPhase::Dashing && has_target && target_found),
{
    phase == FlickerPhase::Dashing && has_target && target_found
}

/// During the outro the strike gives movement back: the "overrides locomotion" and
/// "in air" markers are removed.
pub fn flicker_releases_locomotion(p: FlickerPhase) -> (b: bool)
    ensures
        b == (p == FlickerPhase::Outro),
{
    p == FlickerPhase::Outro
}

} // verus!
