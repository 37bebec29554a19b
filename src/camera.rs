//! Camera rig controller: turns mouse motion into yaw and pitch steps of the
//! camera boom, with the pitch held inside a fixed band.
use vstd::prelude::*;
use crate::fixed::{ONE, abs, mul_div_trunc, scale_toward_zero};
use crate::input::{EventLog, InputEvent, ReaderId};
use vstd::arithmetic::div_mod::lemma_div_is_ordered;

verus! {

/// Mouse sensitivity in milliradians per pixel per second (0.2 rad).
pub const MOUSE_SENSITIVITY: i64 = 200;

/// Pitch band, in millidegrees (20 degrees).
pub const MAX_PITCH_ANGLE: i32 = 20_000;

/// A right angle, in millidegrees.
pub const RIGHT_ANGLE: i32 = 90_000;

/// A half turn, in millidegrees.
pub const HALF_TURN: i32 = 180_000;

/// Euler angles decoded from the boom's rotation, in millidegrees: `pitch`
/// about the local x axis, `roll` about the z axis.
#[derive(PartialEq, Eq, Structural, Clone, Copy, Debug)]
pub struct EulerAngles {
    pub pitch: i32,
    pub roll: i32,
}

/// The rotation step for one tick, in microradians: `pitch` about the boom's
/// local x axis, `yaw` about world-up.
#[derive(PartialEq, Eq, Structural, Clone, Copy, Debug)]
pub struct CameraStep {
    pub pitch: i64,
    pub yaw: i64,
}

/// What the camera rig asks for this tick.
#[derive(PartialEq, Eq, Structural, Clone, Copy, Debug)]
pub struct CameraFrame {
    /// Hide and lock the pointer.
    pub hide_cursor: bool,
    /// The step for the first boom, if there is one.
    pub step: Option<CameraStep>,
}

/// The decoded pitch, mirrored by a half turn when the decoded roll exceeds a
/// right angle (the decomposition then reports the other branch).
pub open spec fn corrected_pitch_of(a: EulerAngles) -> int {
    if abs(a.roll as int) > RIGHT_ANGLE {
        if a.pitch < 0 {
            a.pitch + HALF_TURN
        } else {
            a.pitch - HALF_TURN
        }
    } else {
        a.pitch as int
    }
}

/// Sign of a value as a float's `signum` gives it for a non-negative zero.
pub open spec fn signum(v: int) -> int {
    if v >= 0 { 1 } else { -1 }
}

/// 0 when the corrected pitch is outside the band and the proposed pitch
/// motion goes further out on the same side; 1 otherwise.
pub open spec fn clamp_factor_of(a: EulerAngles, pitch_motion: int) -> int {
    let p = corrected_pitch_of(a);
    if p > MAX_PITCH_ANGLE || p < -MAX_PITCH_ANGLE {
        if signum(p) != signum(pitch_motion) { 1 } else { 0 }
    } else {
        1
    }
}

/// Mirrors the decoded pitch when the decoded roll exceeds a right angle.
pub fn corrected_pitch(a: &EulerAngles) -> (r: i32)
    ensures
        r == corrected_pitch_of(*a),
{
    let roll: i64 = a.roll as i64;
    let roll_mag: i64 = if roll < 0 { -roll } else { roll };
    if roll_mag > RIGHT_ANGLE as i64 {
        if a.pitch < 0 {
            a.pitch + HALF_TURN
        } else {
            a.pitch - HALF_TURN
        }
    } else {
        a.pitch
    }
}

/// The factor applied to this tick's pitch step.
pub fn pitch_clamp_factor(a: &EulerAngles, pitch_motion: i64) -> (r: i64)
    ensures
        r == clamp_factor_of(*a, pitch_motion as int),
{
    let p: i32 = corrected_pitch(a);
    if p > MAX_PITCH_ANGLE || p < -MAX_PITCH_ANGLE {
        let sp: i64 = if p >= 0 { 1 } else { -1 };
        let sm: i64 = if pitch_motion >= 0 { 1 } else { -1 };
        if sp != sm { 1 } else { 0 }
    } else {
        1
    }
}

/// `(delta_x, delta_y)` of the first mouse motion among `es`.
pub open spec fn first_motion(es: Seq<InputEvent>) -> Option<(int, int)>
    decreases es.len(),
{
    if es.len() == 0 {
        None
    } else {
        match es[0] {
            InputEvent::MouseMoved { delta_x, delta_y } => Some((delta_x as int, delta_y as int)),
            _ => first_motion(es.drop_first()),
        }
    }
}

/// Pitch and yaw rates `(delta_y, -delta_x)` of the first motion, or zero.
pub open spec fn motion_rates(es: Seq<InputEvent>) -> (int, int) {
    match first_motion(es) {
        Some((dx, dy)) => (dy, -dx),
        None => (0, 0),
    }
}

/// A rotation step in microradians: `rate * SENSITIVITY * dt`, toward zero.
pub open spec fn angle_step(rate: int, dt: int) -> int {
    mul_div_trunc(rate * MOUSE_SENSITIVITY, dt, ONE as int)
}

/// The step for a boom with decoded angles `a`, from the events of the tick.
pub open spec fn step_of(es: Seq<InputEvent>, a: EulerAngles, dt: int) -> CameraStep {
    let (pitch_rate, yaw_rate) = motion_rates(es);
    CameraStep {
        pitch: angle_step(pitch_rate * clamp_factor_of(a, pitch_rate * MOUSE_SENSITIVITY), dt) as i64,
        yaw: angle_step(yaw_rate, dt) as i64,
    }
}

fn rotation_step(rate: i64, dt: u32) -> (r: i64)
    requires
        abs(rate as int) <= 0x1_0000_0000,
    ensures
        r == angle_step(rate as int, dt as int),
{
    let v: i128 = (rate as i128) * (MOUSE_SENSITIVITY as i128);
    assert(abs(v as int) <= 0x100_0000_0000) by (nonlinear_arith)
        requires v == rate * 200, abs(rate as int) <= 0x1_0000_0000;
    assert(abs(v as int) * dt <= 0x100_0000_0000 * 0x1_0000_0000) by (nonlinear_arith)
        requires abs(v as int) <= 0x100_0000_0000, 0 <= dt <= 0xffff_ffff;
    let r: i128 = scale_toward_zero(v, dt as u64, ONE);
    proof {
        lemma_div_is_ordered(abs(v as int) * dt, 0x100_0000_0000int * 0x1_0000_0000int, ONE as int);
    }
    r as i64
}

/// Reads the pending events and returns the first mouse motion as
/// `(pitch rate, yaw rate)`: later motions of the same tick are skipped.
fn read_motion(log: &EventLog, reader: &mut ReaderId) -> (r: (i64, i64))
    requires
        log.wf(),
        log.first_kept() <= old(reader).pos() <= log@.len(),
    ensures
        final(reader).pos() == log@.len(),
        r.0 == motion_rates(log@.subrange(old(reader).pos() as int, log@.len() as int)).0,
        r.1 == motion_rates(log@.subrange(old(reader).pos() as int, log@.len() as int)).1,
{
    let (start, end) = log.read(reader);
    let ghost es = log@.subrange(start as int, end as int);
    let mut i: usize = start;
    while i < end
        invariant
            start <= i <= end,
            end == log@.len(),
            es == log@.subrange(start as int, end as int),
            first_motion(es) == first_motion(log@.subrange(i as int, end as int)),
            reader.pos() == end,
            start == old(reader).pos(),
            log.wf(),
            log.first_kept() <= start,
        decreases end - i,
    {
        assert(log@.subrange(i as int, end as int)[0] == log@[i as int]);
        assert(log@.subrange(i as int, end as int).drop_first() =~= log@.subrange(
            i + 1,
            end as int,
        ));
        if let InputEvent::MouseMoved { delta_x, delta_y } = log.event(i) {
            return (*delta_y as i64, -(*delta_x as i64));
        }
        i = i + 1;
    }
    (0, 0)
}

/// Owns the rotation of the camera boom.
pub struct CameraMotionSystem {
    input_event_reader: Option<ReaderId>,
}

impl CameraMotionSystem {
    /// Whether the system has its reader and it lies within `log`.
    pub open spec fn ready_for(&self, log: &EventLog) -> bool {
        &&& log.wf()
        &&& self.has_reader()
        &&& log.first_kept() <= self.reader_pos() <= log@.len()
    }

    /// Whether `setup` has given the system its reader.
    pub closed spec fn has_reader(&self) -> bool {
        self.input_event_reader.is_some()
    }

    /// The read position of the system's reader.
    pub closed spec fn reader_pos(&self) -> nat {
        self.input_event_reader.unwrap().pos()
    }

    /// A system without a reader; `setup` gives it one.
    pub fn new() -> (r: CameraMotionSystem)
        ensures
            !r.has_reader(),
    {
        CameraMotionSystem { input_event_reader: None }
    }

    /// Registers the system's reader on the input log.
    pub fn setup(&mut self, log: &EventLog)
        requires
            log.wf(),
        ensures
            final(self).ready_for(log),
            final(self).reader_pos() == log@.len(),
    {
        self.input_event_reader = Some(log.register_reader());
    }

    /// The read position of the system's reader, so that a log shared by
    /// several readers can discard what all of them have read.
    pub fn reader_position(&self) -> (r: usize)
        requires
            self.has_reader(),
        ensures
            r == self.reader_pos(),
    {
        match &self.input_event_reader {
            Some(reader) => reader.position(),
            None => 0,
        }
    }

    /// One tick: reads the pending events and returns the step for the first
    /// boom of `booms` (their decoded rotations), and hides the pointer.
    pub fn run(&mut self, log: &EventLog, dt: u32, booms: &[EulerAngles]) -> (r: CameraFrame)
        requires
            old(self).ready_for(log),
        ensures
            final(self).ready_for(log),
            final(self).reader_pos() == log@.len(),
            r.hide_cursor,
            booms@.len() == 0 ==> r.step.is_none(),
            booms@.len() > 0 ==> r.step == Some(
                step_of(
                    log@.subrange(old(self).reader_pos() as int, log@.len() as int),
                    booms@[0],
                    dt as int,
                ),
            ),
    {
        let mut reader = self.input_event_reader.take().unwrap();
        let (pitch_rate, yaw_rate) = read_motion(log, &mut reader);
        self.input_event_reader = Some(reader);
        let ghost es = log@.subrange(old(self).reader_pos() as int, log@.len() as int);
        proof {
            lemma_first_motion_bounded(es);
        }
        if booms.len() == 0 {
            return CameraFrame { hide_cursor: true, step: None };
        }
        let clamp: i64 = pitch_clamp_factor(&booms[0], pitch_rate * MOUSE_SENSITIVITY);
        let pitch: i64 = rotation_step(pitch_rate * clamp, dt);
        let yaw: i64 = rotation_step(yaw_rate, dt);
        CameraFrame { hide_cursor: true, step: Some(CameraStep { pitch, yaw }) }
    }
}

proof fn lemma_first_motion_bounded(es: Seq<InputEvent>)
    ensures
        abs(motion_rates(es).0) <= 0x8000_0000,
        abs(motion_rates(es).1) <= 0x8000_0000,
    decreases es.len(),
{
    if es.len() > 0 {
        lemma_first_motion_bounded(es.drop_first());
    }
}

/// Past the upper edge of the pitch band, further upward pitch motion is
/// suppressed and downward motion passes; past the lower edge, the reverse.
pub proof fn pitch_clamp_boundary(a: EulerAngles, pitch_motion: int)
    ensures
        corrected_pitch_of(a) > MAX_PITCH_ANGLE && pitch_motion > 0 ==> clamp_factor_of(
            a,
            pitch_motion,
        ) == 0,
        corrected_pitch_of(a) > MAX_PITCH_ANGLE && pitch_motion < 0 ==> clamp_factor_of(
            a,
            pitch_motion,
        ) == 1,
        corrected_pitch_of(a) < -MAX_PITCH_ANGLE && pitch_motion < 0 ==> clamp_factor_of(
            a,
            pitch_motion,
        ) == 0,
        corrected_pitch_of(a) < -MAX_PITCH_ANGLE && pitch_motion > 0 ==> clamp_factor_of(
            a,
            pitch_motion,
        ) == 1,
        -MAX_PITCH_ANGLE <= corrected_pitch_of(a) <= MAX_PITCH_ANGLE ==> clamp_factor_of(
            a,
            pitch_motion,
        ) == 1,
{
}

/// With a decoded roll beyond a right angle, the clamp judges the decoded
/// pitch moved by a half turn toward zero, not the decoded pitch itself.
pub proof fn euler_mirroring(a: EulerAngles, pitch_motion: int)
    requires
        abs(a.roll as int) > RIGHT_ANGLE,
    ensures
        corrected_pitch_of(a) == if a.pitch < 0 {
            a.pitch + HALF_TURN
        } else {
            a.pitch - HALF_TURN
        },
        clamp_factor_of(a, pitch_motion) == clamp_factor_of(
            EulerAngles { pitch: corrected_pitch_of(a) as i32, roll: 0 },
            pitch_motion,
        ),
{
}

} // verus!
