//! Ground sensor and jump state machine: contact classification, the
//! airborne timer, and the motion and braking factors derived from it.
use vstd::prelude::*;
use crate::fixed::ONE;
use crate::geometry::Axis;
use vstd::arithmetic::div_mod::{lemma_div_by_multiple, lemma_div_is_ordered};

verus! {

/// Time for the airborne timer to go from zero to its cap, in microseconds.
pub const JUMP_TIME_US: u64 = 250_000;

/// Growth of the airborne timer, in parts per million per microsecond.
pub const AIRBORNE_RATE: u64 = ONE / JUMP_TIME_US;

/// Horizontal motion factor while airborne (0.2).
pub const AIR_MOTION_FACTOR: u64 = 200_000;

/// Upper bound of the braking factor (0.7).
pub const JUMP_MAX_BRAKING_FACTOR: u64 = 700_000;

/// Whether the avatar touches ground this tick.
#[derive(PartialEq, Eq, Structural, Clone, Copy, Debug)]
pub enum GroundState {
    Grounded,
    Airborne,
}

/// A contact counts as ground when the angle between its normal and world-up
/// is under 45 degrees: `cos(angle) = y / |n| > 1 / sqrt(2)`.
pub open spec fn is_ground_normal(n: Axis) -> bool {
    n.y > 0 && 2 * (n.y * n.y) > n.x * n.x + n.y * n.y + n.z * n.z
}

/// `Grounded` exactly when some contact is a ground contact.
pub open spec fn ground_state_of(contacts: Seq<Axis>) -> GroundState {
    if exists|i: int| 0 <= i < contacts.len() && is_ground_normal(#[trigger] contacts[i]) {
        GroundState::Grounded
    } else {
        GroundState::Airborne
    }
}

/// Classifies one contact normal as ground (steeper contacts are sliding
/// contacts, which are not ground).
pub fn is_ground_contact(n: &Axis) -> (r: bool)
    ensures
        r == is_ground_normal(*n),
{
    let x: i64 = n.x as i64;
    let y: i64 = n.y as i64;
    let z: i64 = n.z as i64;
    assert(0 <= x * x <= 0x4000_0000_0000_0000) by (nonlinear_arith)
        requires -0x8000_0000 <= x <= 0x8000_0000;
    assert(0 <= y * y <= 0x4000_0000_0000_0000) by (nonlinear_arith)
        requires -0x8000_0000 <= y <= 0x8000_0000;
    assert(0 <= z * z <= 0x4000_0000_0000_0000) by (nonlinear_arith)
        requires -0x8000_0000 <= z <= 0x8000_0000;
    let xx: i128 = (x * x) as i128;
    let yy: i128 = (y * y) as i128;
    let zz: i128 = (z * z) as i128;
    y > 0 && 2 * yy > xx + yy + zz
}

/// Classifies the avatar's contacts of this tick.
pub fn classify_contacts(contacts: &Vec<Axis>) -> (r: GroundState)
    ensures
        r == ground_state_of(contacts@),
{
    let mut i: usize = 0;
    while i < contacts.len()
        invariant
            i <= contacts@.len(),
            forall|j: int| 0 <= j < i ==> !is_ground_normal(#[trigger] contacts@[j]),
        decreases contacts@.len() - i,
    {
        if is_ground_contact(&contacts[i]) {
            return GroundState::Grounded;
        }
        i = i + 1;
    }
    GroundState::Airborne
}

/// The smaller of two integers.
pub open spec fn min(a: int, b: int) -> int {
    if a <= b { a } else { b }
}

/// The airborne timer after `dt` more microseconds in the air: it grows by
/// `dt / JUMP_TIME` and is capped at 1.
pub open spec fn next_airborne_timer(t: int, dt: int) -> int {
    min(t + dt * AIRBORNE_RATE, ONE as int)
}

/// `t ^ 5` for a fraction `t` in parts per million, rounded down.
pub open spec fn drag_curve(t: int) -> int {
    (t * t * t * t * t) / (ONE as int * ONE as int * ONE as int * ONE as int)
}

/// Braking factor while airborne: `min(t ^ 5, JUMP_MAX_BRAKING_FACTOR)`.
pub open spec fn braking_factor_of(t: int) -> int {
    min(drag_curve(t), JUMP_MAX_BRAKING_FACTOR as int)
}

/// Advances the airborne timer by one airborne tick of `dt` microseconds.
pub fn advance_airborne_timer(t: u64, dt: u32) -> (r: u64)
    requires
        t <= ONE,
    ensures
        r == next_airborne_timer(t as int, dt as int),
        r <= ONE,
{
    let grown: u64 = t + (dt as u64) * AIRBORNE_RATE;
    if grown < ONE {
        grown
    } else {
        ONE
    }
}

/// The braking factor for airborne timer `t`.
pub fn braking_factor(t: u64) -> (r: u64)
    requires
        t <= ONE,
    ensures
        r == braking_factor_of(t as int),
        r <= JUMP_MAX_BRAKING_FACTOR,
{
    let w: u128 = t as u128;
    assert(w * w <= 1_000_000_000_000) by (nonlinear_arith)
        requires w <= 1_000_000;
    let w2: u128 = w * w;
    assert(w2 * w <= 1_000_000_000_000_000_000) by (nonlinear_arith)
        requires w <= 1_000_000, w2 <= 1_000_000_000_000;
    let w3: u128 = w2 * w;
    assert(w3 * w <= 1_000_000_000_000_000_000_000_000) by (nonlinear_arith)
        requires w <= 1_000_000, w3 <= 1_000_000_000_000_000_000;
    let w4: u128 = w3 * w;
    assert(w4 * w <= 1_000_000_000_000_000_000_000_000_000_000) by (nonlinear_arith)
        requires w <= 1_000_000, w4 <= 1_000_000_000_000_000_000_000_000;
    let p: u128 = w4 * w;
    let d: u128 = p / 1_000_000_000_000_000_000_000_000;
    if d < JUMP_MAX_BRAKING_FACTOR as u128 {
        d as u64
    } else {
        JUMP_MAX_BRAKING_FACTOR
    }
}

/// The sum of a run of timesteps, in microseconds.
pub open spec fn total_time(dts: Seq<u32>) -> int
    decreases dts.len(),
{
    if dts.len() == 0 {
        0
    } else {
        total_time(dts.drop_last()) + dts.last()
    }
}

/// The airborne timer after consecutive airborne ticks of `dts`, from `t`.
pub open spec fn airborne_timer_after(t: int, dts: Seq<u32>) -> int
    decreases dts.len(),
{
    if dts.len() == 0 {
        t
    } else {
        next_airborne_timer(airborne_timer_after(t, dts.drop_last()), dts.last() as int)
    }
}

/// After continuous airborne time `T`, the airborne timer is
/// `min(T / JUMP_TIME, 1)`, however `T` was split into ticks.
pub proof fn airborne_timer_tracks_time(dts: Seq<u32>)
    ensures
        airborne_timer_after(0, dts) == min(total_time(dts) * ONE / JUMP_TIME_US as int, ONE as int),
        airborne_timer_after(0, dts) == min(total_time(dts) * AIRBORNE_RATE, ONE as int),
    decreases dts.len(),
{
    if dts.len() > 0 {
        airborne_timer_tracks_time(dts.drop_last());
    }
    lemma_total_time_nonneg(dts);
    assert(total_time(dts) * ONE == (total_time(dts) * AIRBORNE_RATE) * JUMP_TIME_US);
    lemma_div_by_multiple(total_time(dts) * AIRBORNE_RATE, JUMP_TIME_US as int);
}

proof fn lemma_total_time_nonneg(dts: Seq<u32>)
    ensures
        total_time(dts) >= 0,
    decreases dts.len(),
{
    if dts.len() > 0 {
        lemma_total_time_nonneg(dts.drop_last());
    }
}

proof fn lemma_total_time_prefix(dts: Seq<u32>, i: int, j: int)
    requires
        0 <= i <= j <= dts.len(),
    ensures
        total_time(dts.take(i)) <= total_time(dts.take(j)),
    decreases j - i,
{
    if i < j {
        lemma_total_time_prefix(dts, i, j - 1);
        assert(dts.take(j).drop_last() =~= dts.take(j - 1));
    }
}

/// The braking factor never decreases as the airborne timer grows.
pub proof fn braking_factor_monotonic(t1: int, t2: int)
    requires
        0 <= t1 <= t2,
    ensures
        braking_factor_of(t1) <= braking_factor_of(t2),
{
    assert(t1 * t1 * t1 * t1 * t1 <= t2 * t2 * t2 * t2 * t2) by (nonlinear_arith)
        requires 0 <= t1 <= t2;
    lemma_div_is_ordered(
        t1 * t1 * t1 * t1 * t1,
        t2 * t2 * t2 * t2 * t2,
        ONE as int * ONE as int * ONE as int * ONE as int,
    );
}

/// Over a run of airborne ticks, the airborne timer and the braking factor
/// never decrease, and once the timer reaches its cap it stays there.
pub proof fn air_control_decay_monotonic(dts: Seq<u32>, i: int, j: int)
    requires
        0 <= i <= j <= dts.len(),
    ensures
        airborne_timer_after(0, dts.take(i)) <= airborne_timer_after(0, dts.take(j)),
        braking_factor_of(airborne_timer_after(0, dts.take(i))) <= braking_factor_of(
            airborne_timer_after(0, dts.take(j)),
        ),
        airborne_timer_after(0, dts.take(i)) == ONE ==> airborne_timer_after(0, dts.take(j))
            == ONE,
{
    airborne_timer_tracks_time(dts.take(i));
    airborne_timer_tracks_time(dts.take(j));
    lemma_total_time_prefix(dts, i, j);
    lemma_total_time_nonneg(dts.take(i));
    braking_factor_monotonic(
        airborne_timer_after(0, dts.take(i)),
        airborne_timer_after(0, dts.take(j)),
    );
}

} // verus!
