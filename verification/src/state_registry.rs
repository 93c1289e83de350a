use vstd::prelude::*;

use crate::skill_id::SkillId;

verus! {

/// Locomotion states of the player, in registry order. At most one is meant to be present.
#[derive(Debug, PartialEq, Eq, Clone, Copy, Hash, Structural)]
pub enum LocomotionKind {
    Idle,
    Running,
    Jumping,
    Falling,
}

/// Action states of the player, in registry order. At most one is meant to be present.
#[derive(Debug, PartialEq, Eq, Clone, Copy, Hash, Structural)]
pub enum ActionKind {
    Ready,
    Attacking,
    Dashing,
    Whirling,
    BurningDashing,
    FlickerStriking,
    DashStrike,
}

/// Effects applied right after an action state is entered.
#[derive(Debug, PartialEq, Eq, Clone, Copy, Hash, Structural)]
pub enum EnterHook {
    DashFx,
    WhirlingFx,
    BurningDashFx,
    FlickerStrikeFx,
    DashStrikeFx,
}

/// Clean-up run right after an action state is removed by a transition.
#[derive(Debug, PartialEq, Eq, Clone, Copy, Hash, Structural)]
pub enum ExitHook {
    CleanupDash,
    CleanupWhirling,
    CleanupBurningDash,
    CleanupFlickerStrike,
    CleanupDashStrike,
}

pub const LOCOMOTION_STATE_COUNT: usize = 4;

pub const ACTION_STATE_COUNT: usize = 7;

// ---------------------------------------------------------------------------
// Registry tables
// ---------------------------------------------------------------------------

pub open spec fn spec_locomotion_at(i: int) -> LocomotionKind {
    if i == 0 {
        LocomotionKind::Idle
    } else if i == 1 {
        LocomotionKind::Running
    } else if i == 2 {
        LocomotionKind::Jumping
    } else {
        LocomotionKind::Falling
    }
}

pub open spec fn spec_locomotion_index(k: LocomotionKind) -> int {
    match k {
        LocomotionKind::Idle => 0,
        LocomotionKind::Running => 1,
        LocomotionKind::Jumping => 2,
        LocomotionKind::Falling => 3,
    }
}

pub open spec fn spec_action_at(i: int) -> ActionKind {
    if i == 0 {
        ActionKind::Ready
    } else if i == 1 {
        ActionKind::Attacking
    } else if i == 2 {
        ActionKind::Dashing
    } else if i == 3 {
        ActionKind::Whirling
    } else if i == 4 {
        ActionKind::BurningDashing
    } else if i == 5 {
        ActionKind::FlickerStriking
    } else {
        ActionKind::DashStrike
    }
}

pub open spec fn spec_action_index(k: ActionKind) -> int {
    match k {
        ActionKind::Ready => 0,
        ActionKind::Attacking => 1,
        ActionKind::Dashing => 2,
        ActionKind::Whirling => 3,
        ActionKind::BurningDashing => 4,
        ActionKind::FlickerStriking => 5,
        ActionKind::DashStrike => 6,
    }
}

pub open spec fn spec_locomotion_name(k: LocomotionKind) -> Seq<char> {
    match k {
        LocomotionKind::Idle => "Idle"@,
        LocomotionKind::Running => "Running"@,
        LocomotionKind::Jumping => "Jumping"@,
        LocomotionKind::Falling => "Falling"@,
    }
}

pub open spec fn spec_action_name(k: ActionKind) -> Seq<char> {
    match k {
        ActionKind::Ready => "Ready"@,
        ActionKind::Attacking => "Attacking"@,
        ActionKind::Dashing => "Dashing"@,
        ActionKind::Whirling => "Whirling"@,
        ActionKind::BurningDashing => "BurningDashing"@,
        ActionKind::FlickerStriking => "FlickerStriking"@,
        ActionKind::DashStrike => "DashStrike"@,
    }
}

/// Whether an action state takes over movement from the locomotion states.
pub open spec fn spec_overrides_locomotion(k: ActionKind) -> bool {
    match k {
        ActionKind::Dashing | ActionKind::BurningDashing | ActionKind::FlickerStriking
        | ActionKind::DashStrike => true,
        _ => false,
    }
}

pub open spec fn spec_on_enter(k: ActionKind) -> Option<EnterHook> {
    match k {
        ActionKind::Dashing => Some(EnterHook::DashFx),
        ActionKind::Whirling => Some(EnterHook::WhirlingFx),
        ActionKind::BurningDashing => Some(EnterHook::BurningDashFx),
        ActionKind::FlickerStriking => Some(EnterHook::FlickerStrikeFx),
        ActionKind::DashStrike => Some(EnterHook::DashStrikeFx),
        _ => None,
    }
}

pub open spec fn spec_on_exit(k: ActionKind) -> Option<ExitHook> {
    match k {
        ActionKind::Dashing => Some(ExitHook::CleanupDash),
        ActionKind::Whirling => Some(ExitHook::CleanupWhirling),
        ActionKind::BurningDashing => Some(ExitHook::CleanupBurningDash),
        ActionKind::FlickerStriking => Some(ExitHook::CleanupFlickerStrike),
        ActionKind::DashStrike => Some(ExitHook::CleanupDashStrike),
        _ => None,
    }
}

/// The registry entry of a locomotion state.
pub struct LocomotionStateMetadata {
    pub name: &'static str,
}

/// The registry entry of an action state.
pub struct ActionStateMetadata {
    pub name: &'static str,
    pub overrides_locomotion: bool,
    pub on_enter: Option<EnterHook>,
    pub on_exit: Option<ExitHook>,
}

pub fn locomotion_at(i: usize) -> (k: LocomotionKind)
    requires
        i < LOCOMOTION_STATE_COUNT,
    ensures
        k == spec_locomotion_at(i as int),
{
    if i == 0 {
        LocomotionKind::Idle
    } else if i == 1 {
        LocomotionKind::Running
    } else if i == 2 {
        LocomotionKind::Jumping
    } else {
        LocomotionKind::Falling
    }
}

pub fn locomotion_index(k: LocomotionKind) -> (i: usize)
    ensures
        i as int == spec_locomotion_index(k),
        i < LOCOMOTION_STATE_COUNT,
        spec_locomotion_at(i as int) == k,
{
    match k {
        LocomotionKind::Idle => 0,
        LocomotionKind::Running => 1,
        LocomotionKind::Jumping => 2,
        LocomotionKind::Falling => 3,
    }
}

pub fn action_at(i: usize) -> (k: ActionKind)
    requires
        i < ACTION_STATE_COUNT,
    ensures
        k == spec_action_at(i as int),
{
    if i == 0 {
        ActionKind::Ready
    } else if i == 1 {
        ActionKind::Attacking
    } else if i == 2 {
        ActionKind::Dashing
    } else if i == 3 {
        ActionKind::Whirling
    } else if i == 4 {
        ActionKind::BurningDashing
    } else if i == 5 {
        ActionKind::FlickerStriking
    } else {
        ActionKind::DashStrike
    }
}

pub fn action_index(k: ActionKind) -> (i: usize)
    ensures
        i as int == spec_action_index(k),
        i < ACTION_STATE_COUNT,
        spec_action_at(i as int) == k,
{
    match k {
        ActionKind::Ready => 0,
        ActionKind::Attacking => 1,
        ActionKind::Dashing => 2,
        ActionKind::Whirling => 3,
        ActionKind::BurningDashing => 4,
        ActionKind::FlickerStriking => 5,
        ActionKind::DashStrike => 6,
    }
}

/// The registry entry of a locomotion state (no locomotion state has hooks).
pub fn locomotion_metadata(k: LocomotionKind) -> (m: LocomotionStateMetadata)
    ensures
        m.name@ == spec_locomotion_name(k),
{
    let name = match k {
        LocomotionKind::Idle => "Idle",
        LocomotionKind::Running => "Running",
        LocomotionKind::Jumping => "Jumping",
        LocomotionKind::Falling => "Falling",
    };
    LocomotionStateMetadata { name }
}

/// The registry entry of an action state.
pub fn action_metadata(k: ActionKind) -> (m: ActionStateMetadata)
    ensures
        m.name@ == spec_action_name(k),
        m.overrides_locomotion == spec_overrides_locomotion(k),
        m.on_enter == spec_on_enter(k),
        m.on_exit == spec_on_exit(k),
{
    match k {
        ActionKind::Ready => ActionStateMetadata {
            name: "Ready",
            overrides_locomotion: false,
            on_enter: None,
            on_exit: None,
        },
        ActionKind::Attacking => ActionStateMetadata {
            name: "Attacking",
            overrides_locomotion: false,
            on_enter: None,
            on_exit: None,
        },
        ActionKind::Dashing => ActionStateMetadata {
            name: "Dashing",
            overrides_locomotion: true,
            on_enter: Some(EnterHook::DashFx),
            on_exit: Some(ExitHook::CleanupDash),
        },
        ActionKind::Whirling => ActionStateMetadata {
            name: "Whirling",
            overrides_locomotion: false,
            on_enter: Some(EnterHook::WhirlingFx),
            on_exit: Some(ExitHook::CleanupWhirling),
        },
        ActionKind::BurningDashing => ActionStateMetadata {
            name: "BurningDashing",
            overrides_locomotion: true,
            on_enter: Some(EnterHook::BurningDashFx),
            on_exit: Some(ExitHook::CleanupBurningDash),
        },
        ActionKind::FlickerStriking => ActionStateMetadata {
            name: "FlickerStriking",
            overrides_locomotion: true,
            on_enter: Some(EnterHook::FlickerStrikeFx),
            on_exit: Some(ExitHook::CleanupFlickerStrike),
        },
        ActionKind::DashStrike => ActionStateMetadata {
            name: "DashStrike",
            overrides_locomotion: true,
            on_enter: Some(EnterHook::DashStrikeFx),
            on_exit: Some(ExitHook::CleanupDashStrike),
        },
    }
}


// ---------------------------------------------------------------------------
// Transitions
// ---------------------------------------------------------------------------

/// Which registered locomotion states are present on the player, by registry index.
#[derive(Debug, Clone)]
pub struct LocomotionSlots {
    pub present: Vec<bool>,
}

/// Which registered action states are present on the player, by registry index.
#[derive(Debug, Clone)]
pub struct ActionSlots {
    pub present: Vec<bool>,
}

impl LocomotionSlots {
    pub open spec fn wf(&self) -> bool {
        self.present@.len() == LOCOMOTION_STATE_COUNT
    }

    /// A player that holds exactly one locomotion state.
    pub fn single(k: LocomotionKind) -> (s: LocomotionSlots)
        ensures
            s.wf(),
            s.present@ == spec_only_locomotion(k),
    {
        let idx = locomotion_index(k);
        let mut present: Vec<bool> = Vec::new();
        let mut i: usize = 0;
        while i < LOCOMOTION_STATE_COUNT
            invariant
                i <= LOCOMOTION_STATE_COUNT,
                idx as int == spec_locomotion_index(k),
                present@.len() == i,
                forall|j: int| 0 <= j < i ==> present@[j] == (j == spec_locomotion_index(k)),
            decreases LOCOMOTION_STATE_COUNT - i,
        {
            present.push(i == idx);
            i = i + 1;
        }
        assert(present@ =~= spec_only_locomotion(k));
        LocomotionSlots { present }
    }
}

impl ActionSlots {
    pub open spec fn wf(&self) -> bool {
        self.present@.len() == ACTION_STATE_COUNT
    }

    /// A player that holds exactly one action state.
    pub fn single(k: ActionKind) -> (s: ActionSlots)
        ensures
            s.wf(),
            s.present@ == spec_only_action(k),
    {
        let idx = action_index(k);
        let mut present: Vec<bool> = Vec::new();
        let mut i: usize = 0;
        while i < ACTION_STATE_COUNT
            invariant
                i <= ACTION_STATE_COUNT,
                idx as int == spec_action_index(k),
                present@.len() == i,
                forall|j: int| 0 <= j < i ==> present@[j] == (j == spec_action_index(k)),
            decreases ACTION_STATE_COUNT - i,
        {
            present.push(i == idx);
            i = i + 1;
        }
        assert(present@ =~= spec_only_action(k));
        ActionSlots { present }
    }
}

/// The slots in which only `k` is present.
pub open spec fn spec_only_locomotion(k: LocomotionKind) -> Seq<bool> {
    Seq::new(LOCOMOTION_STATE_COUNT as nat, |i: int| i == spec_locomotion_index(k))
}

/// The slots in which only `k` is present.
pub open spec fn spec_only_action(k: ActionKind) -> Seq<bool> {
    Seq::new(ACTION_STATE_COUNT as nat, |i: int| i == spec_action_index(k))
}

/// The present locomotion states among the first `n` registry entries, in registry order.
pub open spec fn spec_present_locomotion(present: Seq<bool>, n: nat) -> Seq<LocomotionKind>
    decreases n,
{
    if n == 0 {
        Seq::empty()
    } else {
        let prev = spec_present_locomotion(present, (n - 1) as nat);
        if present[n - 1] {
            prev.push(spec_locomotion_at(n - 1))
        } else {
            prev
        }
    }
}

/// The present action states among the first `n` registry entries, in registry order.
pub open spec fn spec_present_actions(present: Seq<bool>, n: nat) -> Seq<ActionKind>
    decreases n,
{
    if n == 0 {
        Seq::empty()
    } else {
        let prev = spec_present_actions(present, (n - 1) as nat);
        if present[n - 1] {
            prev.push(spec_action_at(n - 1))
        } else {
            prev
        }
    }
}

/// The exit hooks of the present action states among the first `n` registry entries,
/// in registry order.
pub open spec fn spec_exit_hooks(present: Seq<bool>, n: nat) -> Seq<ExitHook>
    decreases n,
{
    if n == 0 {
        Seq::empty()
    } else {
        let prev = spec_exit_hooks(present, (n - 1) as nat);
        if present[n - 1] {
            match spec_on_exit(spec_action_at(n - 1)) {
                Some(h) => prev.push(h),
                None => prev,
            }
        } else {
            prev
        }
    }
}

/// What a locomotion transition does: the new slots and the states it removed.
pub struct LocomotionTransition {
    pub slots: LocomotionSlots,
    pub removed: Vec<LocomotionKind>,
}

/// What an action transition does: the new slots, the value of the
/// "overrides locomotion" marker, the states it removed, and the hooks to run
/// afterwards (all exit hooks of the removed states in registry order, then the
/// enter hook of the new state).
pub struct ActionTransition {
    pub slots: ActionSlots,
    pub overrides_locomotion: bool,
    pub removed: Vec<ActionKind>,
    pub exit_hooks: Vec<ExitHook>,
    pub enter_hook: Option<EnterHook>,
}

/// Replaces every registered locomotion state with `new_state`.
pub fn transition_locomotion(slots: &LocomotionSlots, new_state: LocomotionKind) -> (t:
    LocomotionTransition)
    requires
        slots.wf(),
    ensures
        t.slots.wf(),
        t.slots.present@ == spec_only_locomotion(new_state),
        t.removed@ == spec_present_locomotion(slots.present@, LOCOMOTION_STATE_COUNT as nat),
{
    let mut removed: Vec<LocomotionKind> = Vec::new();
    let mut i: usize = 0;
    while i < LOCOMOTION_STATE_COUNT
        invariant
            i <= LOCOMOTION_STATE_COUNT,
            slots.wf(),
            removed@ == spec_present_locomotion(slots.present@, i as nat),
        decreases LOCOMOTION_STATE_COUNT - i,
    {
        if slots.present[i] {
            removed.push(locomotion_at(i));
        }
        i = i + 1;
    }
    LocomotionTransition { slots: LocomotionSlots::single(new_state), removed }
}

/// Replaces every registered action state with `new_state`, clears the
/// "overrides locomotion" marker and sets it again when the new state overrides
/// locomotion, and lists the hooks to run.
pub fn transition_action(slots: &ActionSlots, new_state: ActionKind) -> (t: ActionTransition)
    requires
        slots.wf(),
    ensures
        t.slots.wf(),
        t.slots.present@ == spec_only_action(new_state),
        t.overrides_locomotion == spec_overrides_locomotion(new_state),
        t.removed@ == spec_present_actions(slots.present@, ACTION_STATE_COUNT as nat),
        t.exit_hooks@ == spec_exit_hooks(slots.present@, ACTION_STATE_COUNT as nat),
        t.enter_hook == spec_on_enter(new_state),
{
    let mut removed: Vec<ActionKind> = Vec::new();
    let mut exit_hooks: Vec<ExitHook> = Vec::new();
    let mut i: usize = 0;
    while i < ACTION_STATE_COUNT
        invariant
            i <= ACTION_STATE_COUNT,
            slots.wf(),
            removed@ == spec_present_actions(slots.present@, i as nat),
            exit_hooks@ == spec_exit_hooks(slots.present@, i as nat),
        decreases ACTION_STATE_COUNT - i,
    {
        if slots.present[i] {
            let k = action_at(i);
            removed.push(k);
            let meta = action_metadata(k);
            match meta.on_exit {
                Some(h) => exit_hooks.push(h),
                None => {},
            }
        }
        i = i + 1;
    }
    let meta = action_metadata(new_state);
    ActionTransition {
        slots: ActionSlots::single(new_state),
        overrides_locomotion: meta.overrides_locomotion,
        removed,
        exit_hooks,
        enter_hook: meta.on_enter,
    }
}


// ---------------------------------------------------------------------------
// Laws
// ---------------------------------------------------------------------------

proof fn lemma_action_index_roundtrip(k: ActionKind)
    ensures
        0 <= spec_action_index(k) < ACTION_STATE_COUNT,
        spec_action_at(spec_action_index(k)) == k,
{
}

proof fn lemma_locomotion_index_roundtrip(k: LocomotionKind)
    ensures
        0 <= spec_locomotion_index(k) < LOCOMOTION_STATE_COUNT,
        spec_locomotion_at(spec_locomotion_index(k)) == k,
{
}

proof fn lemma_present_of_single_action(k: ActionKind, n: nat)
    requires
        n <= ACTION_STATE_COUNT,
    ensures
        spec_present_actions(spec_only_action(k), n) == (if spec_action_index(k) < n {
            seq![k]
        } else {
            Seq::<ActionKind>::empty()
        }),
        spec_exit_hooks(spec_only_action(k), n) == (if spec_action_index(k) < n
            && spec_on_exit(k) is Some {
            seq![spec_on_exit(k).unwrap()]
        } else {
            Seq::<ExitHook>::empty()
        }),
    decreases n,
{
    lemma_action_index_roundtrip(k);
    if n > 0 {
        lemma_present_of_single_action(k, (n - 1) as nat);
        if n - 1 == spec_action_index(k) {
            assert(Seq::<ActionKind>::empty().push(k) =~= seq![k]);
            if spec_on_exit(k) is Some {
                assert(Seq::<ExitHook>::empty().push(spec_on_exit(k).unwrap()) =~= seq![
                    spec_on_exit(k).unwrap(),
                ]);
            }
        }
    }
}

proof fn lemma_present_of_single_locomotion(k: LocomotionKind, n: nat)
    requires
        n <= LOCOMOTION_STATE_COUNT,
    ensures
        spec_present_locomotion(spec_only_locomotion(k), n) == (if spec_locomotion_index(k) < n {
            seq![k]
        } else {
            Seq::<LocomotionKind>::empty()
        }),
    decreases n,
{
    lemma_locomotion_index_roundtrip(k);
    if n > 0 {
        lemma_present_of_single_locomotion(k, (n - 1) as nat);
        if n - 1 == spec_locomotion_index(k) {
            assert(Seq::<LocomotionKind>::empty().push(k) =~= seq![k]);
        }
    }
}

/// After any action transition the player holds exactly one action state, the new one:
/// the action states are mutually exclusive.
pub proof fn lemma_action_states_exclusive(new_state: ActionKind, other: ActionKind)
    ensures
        spec_only_action(new_state)[spec_action_index(new_state)],
        other != new_state ==> !spec_only_action(new_state)[spec_action_index(other)],
        spec_present_actions(spec_only_action(new_state), ACTION_STATE_COUNT as nat) == seq![
            new_state,
        ],
{
    lemma_present_of_single_action(new_state, ACTION_STATE_COUNT as nat);
}

/// After any locomotion transition the player holds exactly one locomotion state, the new one.
pub proof fn lemma_locomotion_states_exclusive(new_state: LocomotionKind, other: LocomotionKind)
    ensures
        spec_only_locomotion(new_state)[spec_locomotion_index(new_state)],
        other != new_state ==> !spec_only_locomotion(new_state)[spec_locomotion_index(other)],
        spec_present_locomotion(spec_only_locomotion(new_state), LOCOMOTION_STATE_COUNT as nat)
            == seq![new_state],
{
    lemma_present_of_single_locomotion(new_state, LOCOMOTION_STATE_COUNT as nat);
}

/// Leaving a settled action state (exactly `old` present) removes just `old` and runs
/// just its exit hook, whatever the new state is (the same state included).
pub proof fn lemma_settled_action_transition(old: ActionKind)
    ensures
        spec_present_actions(spec_only_action(old), ACTION_STATE_COUNT as nat) == seq![old],
        spec_exit_hooks(spec_only_action(old), ACTION_STATE_COUNT as nat) == (match spec_on_exit(
            old,
        ) {
            Some(h) => seq![h],
            None => Seq::<ExitHook>::empty(),
        }),
{
    lemma_present_of_single_action(old, ACTION_STATE_COUNT as nat);
}

/// Leaving a settled locomotion state (exactly `old` present) removes just `old`.
pub proof fn lemma_settled_locomotion_transition(old: LocomotionKind)
    ensures
        spec_present_locomotion(spec_only_locomotion(old), LOCOMOTION_STATE_COUNT as nat)
            == seq![old],
{
    lemma_present_of_single_locomotion(old, LOCOMOTION_STATE_COUNT as nat);
}

/// Every state that overrides locomotion has both an enter and an exit hook, so its
/// effects are always cleaned up when a transition removes it.
pub proof fn lemma_overriding_states_have_hooks(k: ActionKind)
    ensures
        spec_overrides_locomotion(k) ==> spec_on_enter(k) is Some && spec_on_exit(k) is Some,
        spec_on_enter(k) is Some <==> spec_on_exit(k) is Some,
{
}


// ---------------------------------------------------------------------------
// Hook effects
// ---------------------------------------------------------------------------

/// How a ghost fades over its lifetime.
#[derive(Debug, PartialEq, Eq, Clone, Copy, Structural)]
pub enum FadeCurve {
    Linear,
}

/// How a ghost is coloured.
#[derive(Debug, PartialEq, Eq, Clone, Copy, Structural)]
pub enum GhostColorMode {
    /// The sprite's own colours.
    Original,
}

/// How a ghost's size changes over its lifetime.
#[derive(Debug, PartialEq, Eq, Clone, Copy, Structural)]
pub enum ScaleCurve {
    Constant,
}

/// How a ghost moves once spawned.
#[derive(Debug, PartialEq, Eq, Clone, Copy, Structural)]
pub enum GhostMovement {
    /// It stays where it was left.
    Static,
}

/// Ghost-trail settings attached by movement skills (the trail's offset from the player
/// is real-valued, zero, and set with the game objects).
#[derive(Debug, PartialEq, Eq, Clone, Copy, Structural)]
pub struct GhostingSpec {
    pub spawn_interval_ticks: u32,
    pub ghost_lifetime_ticks: u32,
    /// Initial opacity of each ghost, in hundredths.
    pub initial_alpha_percent: u32,
    pub fade_curve: FadeCurve,
    pub color_mode: GhostColorMode,
    pub scale_over_time: ScaleCurve,
    pub movement: GhostMovement,
    /// Ticks since the last ghost was left behind; a new trail starts at zero.
    pub ticks_since_last_spawn: u32,
}

/// Markers an enter hook inserts on the player.
#[derive(Debug, PartialEq, Eq, Clone, Copy, Structural)]
pub struct EnterEffects {
    pub insert_in_air: bool,
    pub ghosting: Option<GhostingSpec>,
    pub channeled_skill: Option<SkillId>,
}

/// Markers an exit hook removes from the player.
#[derive(Debug, PartialEq, Eq, Clone, Copy, Structural)]
pub struct ExitEffects {
    pub remove_in_air: bool,
    pub remove_ghosting: bool,
    pub remove_channeled: bool,
    pub remove_flicker_outro: bool,
}

/// Ghost lifetime for dash-like skills: five ghosts' worth of the state's lifetime,
/// never shorter than 29 ticks.
pub open spec fn spec_dash_ghost_lifetime(max_ticks: u32) -> int {
    if max_ticks * 5 > 29 {
        max_ticks * 5
    } else {
        29
    }
}

pub open spec fn spec_enter_effects(hook: EnterHook, state_max_ticks: u32, stealthed: bool)
    -> EnterEffects {
    match hook {
        EnterHook::DashFx | EnterHook::DashStrikeFx => EnterEffects {
            insert_in_air: true,
            ghosting: Some(
                GhostingSpec {
                    spawn_interval_ticks: 1,
                    ghost_lifetime_ticks: spec_dash_ghost_lifetime(state_max_ticks) as u32,
                    initial_alpha_percent: if stealthed {
                        20
                    } else {
                        50
                    },
                    fade_curve: FadeCurve::Linear,
                    color_mode: GhostColorMode::Original,
                    scale_over_time: ScaleCurve::Constant,
                    movement: GhostMovement::Static,
                    ticks_since_last_spawn: 0,
                },
            ),
            channeled_skill: None,
        },
        EnterHook::BurningDashFx => EnterEffects {
            insert_in_air: true,
            ghosting: Some(
                GhostingSpec {
                    spawn_interval_ticks: 8,
                    ghost_lifetime_ticks: 16,
                    initial_alpha_percent: 50,
                    fade_curve: FadeCurve::Linear,
                    color_mode: GhostColorMode::Original,
                    scale_over_time: ScaleCurve::Constant,
                    movement: GhostMovement::Static,
                    ticks_since_last_spawn: 0,
                },
            ),
            channeled_skill: Some(SkillId::BurningDash),
        },
        EnterHook::FlickerStrikeFx => EnterEffects {
            insert_in_air: true,
            ghosting: Some(
                GhostingSpec {
                    spawn_interval_ticks: 0,
                    ghost_lifetime_ticks: 100,
                    initial_alpha_percent: 50,
                    fade_curve: FadeCurve::Linear,
                    color_mode: GhostColorMode::Original,
                    scale_over_time: ScaleCurve::Constant,
                    movement: GhostMovement::Static,
                    ticks_since_last_spawn: 0,
                },
            ),
            channeled_skill: Some(SkillId::FlickerStrike),
        },
        EnterHook::WhirlingFx => EnterEffects {
            insert_in_air: false,
            ghosting: None,
            channeled_skill: Some(SkillId::Whirl),
        },
    }
}

pub open spec fn spec_exit_effects(hook: ExitHook) -> ExitEffects {
    match hook {
        ExitHook::CleanupDash | ExitHook::CleanupDashStrike => ExitEffects {
            remove_in_air: true,
            remove_ghosting: true,
            remove_channeled: false,
            remove_flicker_outro: false,
        },
        ExitHook::CleanupBurningDash => ExitEffects {
            remove_in_air: true,
            remove_ghosting: true,
            remove_channeled: true,
            remove_flicker_outro: false,
        },
        ExitHook::CleanupFlickerStrike => ExitEffects {
            remove_in_air: true,
            remove_ghosting: true,
            remove_channeled: true,
            remove_flicker_outro: true,
        },
        ExitHook::CleanupWhirling => ExitEffects {
            remove_in_air: false,
            remove_ghosting: false,
            remove_channeled: true,
            remove_flicker_outro: false,
        },
    }
}

/// Ghost lifetime for dash-like skills.
pub fn dash_ghost_lifetime_ticks(max_ticks: u32) -> (lifetime: u32)
    requires
        max_ticks * 5 <= u32::MAX,
    ensures
        lifetime == spec_dash_ghost_lifetime(max_ticks),
{
    let scaled = max_ticks * 5;
    if scaled > 29 {
        scaled
    } else {
        29
    }
}

/// What an enter hook inserts. `state_max_ticks` is the lifetime of the entered
/// dash-like state (0 when the state is missing); `stealthed` dims the ghosts.
pub fn enter_effects(hook: EnterHook, state_max_ticks: u32, stealthed: bool) -> (e: EnterEffects)
    requires
        (hook == EnterHook::DashFx || hook == EnterHook::DashStrikeFx) ==> state_max_ticks * 5
            <= u32::MAX,
    ensures
        e == spec_enter_effects(hook, state_max_ticks, stealthed),
{
    match hook {
        EnterHook::DashFx | EnterHook::DashStrikeFx => EnterEffects {
            insert_in_air: true,
            ghosting: Some(
                GhostingSpec {
                    spawn_interval_ticks: 1,
                    ghost_lifetime_ticks: dash_ghost_lifetime_ticks(state_max_ticks),
                    initial_alpha_percent: if stealthed {
                        20
                    } else {
                        50
                    },
                    fade_curve: FadeCurve::Linear,
                    color_mode: GhostColorMode::Original,
                    scale_over_time: ScaleCurve::Constant,
                    movement: GhostMovement::Static,
                    ticks_since_last_spawn: 0,
                },
            ),
            channeled_skill: None,
        },
        EnterHook::BurningDashFx => EnterEffects {
            insert_in_air: true,
            ghosting: Some(
                GhostingSpec {
                    spawn_interval_ticks: 8,
                    ghost_lifetime_ticks: 16,
                    initial_alpha_percent: 50,
                    fade_curve: FadeCurve::Linear,
                    color_mode: GhostColorMode::Original,
                    scale_over_time: ScaleCurve::Constant,
                    movement: GhostMovement::Static,
                    ticks_since_last_spawn: 0,
                },
            ),
            channeled_skill: Some(SkillId::BurningDash),
        },
        EnterHook::FlickerStrikeFx => EnterEffects {
            insert_in_air: true,
            ghosting: Some(
                GhostingSpec {
                    spawn_interval_ticks: 0,
                    ghost_lifetime_ticks: 100,
                    initial_alpha_percent: 50,
                    fade_curve: FadeCurve::Linear,
                    color_mode: GhostColorMode::Original,
                    scale_over_time: ScaleCurve::Constant,
                    movement: GhostMovement::Static,
                    ticks_since_last_spawn: 0,
                },
            ),
            channeled_skill: Some(SkillId::FlickerStrike),
        },
        EnterHook::WhirlingFx => EnterEffects {
            insert_in_air: false,
            ghosting: None,
            channeled_skill: Some(SkillId::Whirl),
        },
    }
}

/// What an exit hook removes.
pub fn exit_effects(hook: ExitHook) -> (e: ExitEffects)
    ensures
        e == spec_exit_effects(hook),
{
    match hook {
        ExitHook::CleanupDash | ExitHook::CleanupDashStrike => ExitEffects {
            remove_in_air: true,
            remove_ghosting: true,
            remove_channeled: false,
            remove_flicker_outro: false,
        },
        ExitHook::CleanupBurningDash => ExitEffects {
            remove_in_air: true,
            remove_ghosting: true,
            remove_channeled: true,
            remove_flicker_outro: false,
        },
        ExitHook::CleanupFlickerStrike => ExitEffects {
            remove_in_air: true,
            remove_ghosting: true,
            remove_channeled: true,
            remove_flicker_outro: true,
        },
        ExitHook::CleanupWhirling => ExitEffects {
            remove_in_air: false,
            remove_ghosting: false,
            remove_channeled: true,
            remove_flicker_outro: false,
        },
    }
}

/// Whatever an action state's enter hook inserts, the same state's exit hook removes:
/// entering and then leaving a state leaves no marker behind.
pub proof fn lemma_exit_undoes_enter(k: ActionKind, state_max_ticks: u32, stealthed: bool)
    requires
        spec_on_enter(k) is Some,
    ensures
        spec_on_exit(k) is Some,
        ({
            let e = spec_enter_effects(spec_on_enter(k).unwrap(), state_max_ticks, stealthed);
            let x = spec_exit_effects(spec_on_exit(k).unwrap());
            &&& e.insert_in_air ==> x.remove_in_air
            &&& e.ghosting is Some ==> x.remove_ghosting
            &&& e.channeled_skill is Some ==> x.remove_channeled
        }),
{
}

} // verus!
