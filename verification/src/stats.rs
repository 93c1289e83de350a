use vstd::prelude::*;

use crate::weapon::{Passive, Passives};

verus! {

/// The movement statistics a status effect can change.
#[derive(Debug, Clone, Copy, PartialEq, Eq, Hash, Structural)]
pub enum StatType {
    MoveVelMax,
    MoveAccelInit,
    MoveAccel,
}

/// Which factor of a status effect applies to one of its statistics.
#[derive(Debug, Clone, Copy, PartialEq, Eq, Structural)]
pub enum Coefficient {
    /// None given: the neutral value (a factor of one, an offset of zero).
    Neutral,
    /// The value at this index of the effect's list.
    At(usize),
}

/// The coefficient for the `i`-th statistic of an effect whose list has `n` values: none
/// gives the neutral value, a single one applies to every statistic, and otherwise each
/// statistic has its own.
pub open spec fn spec_coefficient(n: nat, i: nat) -> Coefficient {
    if n == 0 {
        Coefficient::Neutral
    } else if n == 1 {
        Coefficient::At(0)
    } else {
        Coefficient::At(i as usize)
    }
}

/// How each statistic of an effect is recomputed: its base value times the scale
/// coefficient plus the offset coefficient. Only the statistics the effect names keep
/// an effective value.
pub fn update_stats(stat_types: &Vec<StatType>, n_scalar: usize, n_delta: usize) -> (plan: Vec<(
    StatType,
    Coefficient,
    Coefficient,
)>)
    requires
        n_scalar <= 1 || stat_types@.len() <= n_scalar,
        n_delta <= 1 || stat_types@.len() <= n_delta,
    ensures
        plan@.len() == stat_types@.len(),
        forall|i: int|
            0 <= i < plan@.len() ==> #[trigger] plan@[i] == (
                stat_types@[i],
                spec_coefficient(n_scalar as nat, i as nat),
                spec_coefficient(n_delta as nat, i as nat),
            ),
{
    let mut plan: Vec<(StatType, Coefficient, Coefficient)> = Vec::new();
    let mut i: usize = 0;
    while i < stat_types.len()
        invariant
            i <= stat_types@.len(),
            plan@.len() == i,
            forall|k: int|
                0 <= k < i ==> #[trigger] plan@[k] == (
                    stat_types@[k],
                    spec_coefficient(n_scalar as nat, k as nat),
                    spec_coefficient(n_delta as nat, k as nat),
                ),
        decreases stat_types@.len() - i,
    {
        let scalar = if n_scalar == 0 {
            Coefficient::Neutral
        } else if n_scalar == 1 {
            Coefficient::At(0)
        } else {
            Coefficient::At(i)
        };
        let delta = if n_delta == 0 {
            Coefficient::Neutral
        } else if n_delta == 1 {
            Coefficient::At(0)
        } else {
            Coefficient::At(i)
        };
        plan.push((stat_types[i], scalar, delta));
        i = i + 1;
    }
    plan
}

/// Every coefficient named by a plan indexes a value the effect has.
pub proof fn lemma_coefficients_in_bounds(n: nat, len: nat, i: nat)
    requires
        n <= 1 || len <= n,
        i < len,
    ensures
        spec_coefficient(n, i) matches Coefficient::At(k) ==> k < n,
{
}

/// The tint of experience orbs.
#[derive(Debug, Clone, Copy, PartialEq, Eq, Structural)]
pub enum OrbTint {
    White,
    Red,
}

/// Orbs are red while the Bloodstone is equipped, white otherwise (and with no player).
pub fn orb_tint(passives: Option<&Passives>) -> (t: OrbTint)
    ensures
        t == (match passives {
            Some(p) => if p.equipped@.contains(Passive::Bloodstone) { OrbTint::Red } else { OrbTint::White },
            None => OrbTint::White,
        }),
{
    match passives {
        Some(p) => if p.contains(&Passive::Bloodstone) {
            OrbTint::Red
        } else {
            OrbTint::White
        },
        None => OrbTint::White,
    }
}

/// How many experience orbs a slain enemy drops.
pub const ORBS_PER_KILL: usize = 12;

/// The worker threads of each task pool for a machine with `cpus` threads.
#[derive(Debug, Clone, Copy, PartialEq, Eq, Structural)]
pub struct TaskPools {
    pub io: usize,
    pub async_compute: usize,
    pub compute: usize,
}

/// Three quarters of the threads do input and output and a quarter asynchronous work,
/// two at least each; computation uses them all.
pub fn task_pool_sizes(cpus: usize) -> (p: TaskPools)
    requires
        cpus * 3 <= usize::MAX,
    ensures
        p.io == (if cpus * 3 / 4 >= 2 { cpus * 3 / 4 } else { 2 }),
        p.async_compute == (if cpus / 4 >= 2 { cpus / 4 } else { 2 }),
        p.compute == cpus,
{
    let io = cpus * 3 / 4;
    let async_compute = cpus / 4;
    TaskPools {
        io: if io >= 2 {
            io
        } else {
            2
        },
        async_compute: if async_compute >= 2 {
            async_compute
        } else {
            2
        },
        compute: cpus,
    }
}

} // verus!
