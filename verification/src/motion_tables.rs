use vstd::prelude::*;

verus! {

/// Number of ticks in the jump ascent curve.
pub const JUMP_CURVE_LEN: usize = 51;

/// Number of ticks in the fall curve.
pub const FALL_CURVE_LEN: usize = 48;

/// Number of ticks in the pogo bounce curve.
pub const POGO_CURVE_LEN: usize = 24;

/// Upward displacement per tick of a jump, in thousandths of a unit.
pub open spec fn spec_jump_curve() -> Seq<int> {
    seq![
        0int, 0, 1615, 1579, 1542, 1506, 1469, 1433, 1396, 1360, 1323, 1287, 1250, 1214, 1177,
        1141, 1104, 1068, 1031, 995, 958, 922, 885, 849, 812, 776, 739, 703, 666, 630, 593, 557,
        520, 484, 447, 411, 374, 338, 301, 265, 228, 192, 155, 119, 82, 46, 10, 0, 0, 0, 0,
    ]
}

/// Vertical displacement per tick of a fall (negative is down), in thousandths of a unit.
pub open spec fn spec_fall_curve() -> Seq<int> {
    seq![
        0int, 0, 0, 0, -47, -90, -132, -175, -217, -260, -302, -345, -387, -430, -472, -515, -557,
        -600, -642, -685, -727, -770, -812, -855, -897, -940, -982, -1025, -1067, -1110, -1152,
        -1195, -1237, -1280, -1322, -1365, -1407, -1450, -1492, -1535, -1577, -1620, -1662, -1705,
        -1705, -1705, -1705, -1705,
    ]
}

/// Upward displacement per tick of a pogo bounce, in thousandths of a unit.
pub open spec fn spec_pogo_curve() -> Seq<int> {
    seq![
        818int, 781, 745, 708, 672, 635, 599, 563, 526, 490, 453, 417, 380, 344, 307, 271, 234,
        198, 161, 125, 89, 52, 16, 0,
    ]
}

/// The jump curve entry for `tick`.
pub fn jump_velocity_milli(tick: u32) -> (v: i32)
    requires
        tick < JUMP_CURVE_LEN,
    ensures
        v == spec_jump_curve()[tick as int],
{
    let table: [i32; 51] = [
        0, 0, 1615, 1579, 1542, 1506, 1469, 1433, 1396, 1360, 1323, 1287, 1250, 1214, 1177,
        1141, 1104, 1068, 1031, 995, 958, 922, 885, 849, 812, 776, 739, 703, 666, 630, 593, 557,
        520, 484, 447, 411, 374, 338, 301, 265, 228, 192, 155, 119, 82, 46, 10, 0, 0, 0, 0,
    ];
    assert(table@.map_values(|x: i32| x as int) =~= spec_jump_curve());
    table[tick as usize]
}

/// The fall curve entry for `index`.
pub fn fall_velocity_milli(index: u32) -> (v: i32)
    requires
        index < FALL_CURVE_LEN,
    ensures
        v == spec_fall_curve()[index as int],
{
    let table: [i32; 48] = [
        0, 0, 0, 0, -47, -90, -132, -175, -217, -260, -302, -345, -387, -430, -472, -515, -557,
        -600, -642, -685, -727, -770, -812, -855, -897, -940, -982, -1025, -1067, -1110, -1152,
        -1195, -1237, -1280, -1322, -1365, -1407, -1450, -1492, -1535, -1577, -1620, -1662, -1705,
        -1705, -1705, -1705, -1705,
    ];
    assert(table@.map_values(|x: i32| x as int) =~= spec_fall_curve());
    table[index as usize]
}

/// The pogo curve entry for `index`.
pub fn pogo_velocity_milli(index: u32) -> (v: i32)
    requires
        index < POGO_CURVE_LEN,
    ensures
        v == spec_pogo_curve()[index as int],
{
    let table: [i32; 24] = [
        818, 781, 745, 708, 672, 635, 599, 563, 526, 490, 453, 417, 380, 344, 307, 271, 234,
        198, 161, 125, 89, 52, 16, 0,
    ];
    assert(table@.map_values(|x: i32| x as int) =~= spec_pogo_curve());
    table[index as usize]
}

/// The curves have the lengths the state machines index them with, the jump curve
/// never pushes down, the fall curve never pushes up, and both fall speed and
/// pogo lift change monotonically.
pub proof fn lemma_curve_shapes()
    ensures
        spec_jump_curve().len() == JUMP_CURVE_LEN,
        spec_fall_curve().len() == FALL_CURVE_LEN,
        spec_pogo_curve().len() == POGO_CURVE_LEN,
        forall|i: int| 0 <= i < JUMP_CURVE_LEN ==> #[trigger] spec_jump_curve()[i] >= 0,
        forall|i: int| 0 <= i < FALL_CURVE_LEN ==> #[trigger] spec_fall_curve()[i] <= 0,
        forall|i: int, j: int|
            0 <= i <= j < FALL_CURVE_LEN ==> spec_fall_curve()[j] <= spec_fall_curve()[i],
        forall|i: int, j: int|
            0 <= i <= j < POGO_CURVE_LEN ==> spec_pogo_curve()[j] <= spec_pogo_curve()[i],
{
    assert(spec_jump_curve().len() == JUMP_CURVE_LEN);
    assert(spec_fall_curve().len() == FALL_CURVE_LEN);
    assert(spec_pogo_curve().len() == POGO_CURVE_LEN);
    assert forall|i: int| 0 <= i < FALL_CURVE_LEN - 1 implies spec_fall_curve()[i + 1]
        <= #[trigger] spec_fall_curve()[i] by {}
    assert forall|i: int| 0 <= i < POGO_CURVE_LEN - 1 implies spec_pogo_curve()[i + 1]
        <= #[trigger] spec_pogo_curve()[i] by {}
    lemma_non_increasing(spec_fall_curve());
    lemma_non_increasing(spec_pogo_curve());
}

proof fn lemma_non_increasing(s: Seq<int>)
    requires
        forall|i: int| 0 <= i < s.len() - 1 ==> s[i + 1] <= #[trigger] s[i],
    ensures
        forall|i: int, j: int| 0 <= i <= j < s.len() ==> s[j] <= s[i],
{
    assert forall|i: int, j: int| 0 <= i <= j < s.len() implies s[j] <= s[i] by {
        lemma_non_increasing_from(s, i, j);
    }
}

proof fn lemma_non_increasing_from(s: Seq<int>, i: int, j: int)
    requires
        forall|k: int| 0 <= k < s.len() - 1 ==> s[k + 1] <= #[trigger] s[k],
        0 <= i <= j < s.len(),
    ensures
        s[j] <= s[i],
    decreases j - i,
{
    if i < j {
        lemma_non_increasing_from(s, i, j - 1);
    }
}

} // verus!
