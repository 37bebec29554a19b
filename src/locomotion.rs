//! Locomotion controller: turns the direction accumulator, the camera's
//! orientation and the jump state into forces and impulses on the avatar.
use vstd::prelude::*;
use crate::fixed::{ONE, abs, mul_div_trunc, scale_toward_zero};
use crate::geometry::{Axis, CameraBasis, Force, Vec3, identity_basis};
use crate::ground::{
    AIR_MOTION_FACTOR, GroundState, advance_airborne_timer, braking_factor, braking_factor_of,
    classify_contacts, ground_state_of, next_airborne_timer,
};
use crate::input::{DirectionInput, EventLog, ReaderId, after_events};

verus! {

/// Horizontal force per unit of input, in whole units.
pub const FORCE_MULTIPLIER: u64 = 600;

/// Jump impulse per unit of vertical input, in whole units.
pub const JUMP_IMPULSE: i128 = 55;

/// What the physics engine reports of an avatar body this tick.
pub struct AvatarBody {
    /// Normals of the body's current contacts.
    pub contacts: Vec<Axis>,
    /// Linear velocity, in micro-units per second.
    pub velocity: Vec3,
}

/// A call to make on the physics engine; `body` indexes the avatar list.
#[derive(PartialEq, Eq, Structural, Clone, Copy, Debug)]
pub enum PhysicsCommand {
    ApplyForce { body: usize, force: Force },
    ApplyImpulse { body: usize, impulse: Force },
}

/// The body that a command acts on.
pub open spec fn command_body(c: PhysicsCommand) -> usize {
    match c {
        PhysicsCommand::ApplyForce { body, .. } => body,
        PhysicsCommand::ApplyImpulse { body, .. } => body,
    }
}

/// The camera whose transform steers the avatar: the last one listed, or the
/// identity when there is none.
pub open spec fn active_camera_of(cams: Seq<CameraBasis>) -> CameraBasis {
    if cams.len() == 0 {
        identity_basis()
    } else {
        cams.last()
    }
}

/// The horizontal input `(x, 0, z)` taken into world space by `c`.
pub open spec fn world_direction(c: CameraBasis, d: DirectionInput) -> (int, int, int) {
    (
        c.right.x * d.x + c.back.x * d.z,
        c.right.y * d.x + c.back.y * d.z,
        c.right.z * d.x + c.back.z * d.z,
    )
}

/// The motion force: the world direction with its Y dropped, times
/// `FORCE_MULTIPLIER` and the motion factor `mf` (parts per million).
pub open spec fn motion_force_of(c: CameraBasis, d: DirectionInput, mf: int) -> Force {
    let w = world_direction(c, d);
    Force {
        x: mul_div_trunc(w.0, FORCE_MULTIPLIER * mf, ONE as int) as i128,
        y: 0,
        z: mul_div_trunc(w.2, FORCE_MULTIPLIER * mf, ONE as int) as i128,
    }
}

/// One axis of `-(v / dt) * bf`, with `v` per second, `dt` in microseconds and
/// `bf` in parts per million.
pub open spec fn brake_axis(v: int, bf: int, dt: int) -> int {
    -mul_div_trunc(v, bf, dt)
}

/// The braking force: it never slows a descent; while grounded it has no
/// vertical part at all.
pub open spec fn brake_force_of(v: Vec3, dt: int, bf: int, g: GroundState) -> Force {
    let y = brake_axis(v.y as int, bf, dt);
    Force {
        x: brake_axis(v.x as int, bf, dt) as i128,
        y: (if g == GroundState::Grounded {
            0
        } else if y < 0 {
            y
        } else {
            0
        }) as i128,
        z: brake_axis(v.z as int, bf, dt) as i128,
    }
}

/// The upward impulse of a jump for vertical input `vertical`.
pub open spec fn jump_impulse_of(vertical: int) -> Force {
    Force { x: 0, y: (vertical * JUMP_IMPULSE * ONE) as i128, z: 0 }
}

/// The airborne timer after a tick in state `g`.
pub open spec fn next_timer(g: GroundState, t: int, dt: int) -> int {
    if g == GroundState::Grounded {
        0
    } else {
        next_airborne_timer(t, dt)
    }
}

/// Horizontal motion factor in state `g`.
pub open spec fn motion_factor_of(g: GroundState) -> int {
    if g == GroundState::Grounded {
        ONE as int
    } else {
        AIR_MOTION_FACTOR as int
    }
}

/// Braking factor in state `g`, given the timer after the tick.
pub open spec fn braking_of(g: GroundState, t: int) -> int {
    if g == GroundState::Grounded {
        ONE as int
    } else {
        braking_factor_of(t)
    }
}

/// The commands of one tick on the first avatar, given the accumulator `d`
/// after this tick's events and the airborne timer `t` before it: a jump
/// impulse when grounded with vertical input, then the motion force, then
/// the braking force.
pub open spec fn tick_commands(
    d: DirectionInput,
    t: int,
    dt: int,
    cam: CameraBasis,
    contacts: Seq<Axis>,
    velocity: Vec3,
) -> Seq<PhysicsCommand> {
    let g = ground_state_of(contacts);
    let jump = if g == GroundState::Grounded && d.y != 0 {
        seq![PhysicsCommand::ApplyImpulse { body: 0, impulse: jump_impulse_of(d.y as int) }]
    } else {
        Seq::empty()
    };
    jump + seq![
        PhysicsCommand::ApplyForce { body: 0, force: motion_force_of(cam, d, motion_factor_of(g)) },
        PhysicsCommand::ApplyForce {
            body: 0,
            force: brake_force_of(velocity, dt, braking_of(g, next_timer(g, t, dt)), g),
        },
    ]
}

/// Picks the camera that steers the avatar.
pub fn active_camera(cams: &[CameraBasis]) -> (r: CameraBasis)
    ensures
        r == active_camera_of(cams@),
{
    if cams.len() == 0 {
        CameraBasis::identity()
    } else {
        cams[cams.len() - 1]
    }
}

fn rotate_component(a: i32, x: i32, b: i32, z: i32) -> (r: i128)
    ensures
        r == a * x + b * z,
        abs(r as int) <= 0x8000_0000_0000_0000,
{
    assert(abs(a * x) <= 0x4000_0000_0000_0000) by (nonlinear_arith)
        requires -0x8000_0000 <= a <= 0x8000_0000, -0x8000_0000 <= x <= 0x8000_0000;
    assert(abs(b * z) <= 0x4000_0000_0000_0000) by (nonlinear_arith)
        requires -0x8000_0000 <= b <= 0x8000_0000, -0x8000_0000 <= z <= 0x8000_0000;
    let p: i128 = (a as i128) * (x as i128);
    let q: i128 = (b as i128) * (z as i128);
    p + q
}

/// The motion force for accumulator `d` seen through camera `c`, with motion
/// factor `mf` in parts per million.
pub fn motion_force(c: &CameraBasis, d: &DirectionInput, mf: u64) -> (r: Force)
    requires
        mf <= ONE,
    ensures
        r == motion_force_of(*c, *d, mf as int),
{
    let wx: i128 = rotate_component(c.right.x, d.x, c.back.x, d.z);
    let wz: i128 = rotate_component(c.right.z, d.x, c.back.z, d.z);
    let num: u64 = FORCE_MULTIPLIER * mf;
    assert(abs(wx as int) * num <= 0x8000_0000_0000_0000int * 600_000_000int) by (nonlinear_arith)
        requires abs(wx as int) <= 0x8000_0000_0000_0000, 0 <= num <= 600_000_000;
    assert(abs(wz as int) * num <= 0x8000_0000_0000_0000int * 600_000_000int) by (nonlinear_arith)
        requires abs(wz as int) <= 0x8000_0000_0000_0000, 0 <= num <= 600_000_000;
    let fx: i128 = scale_toward_zero(wx, num, ONE);
    let fz: i128 = scale_toward_zero(wz, num, ONE);
    Force { x: fx, y: 0, z: fz }
}

fn brake_component(v: i64, bf: u64, dt: u64) -> (r: i128)
    requires
        bf <= ONE,
        dt > 0,
    ensures
        r == brake_axis(v as int, bf as int, dt as int),
{
    assert(abs(v as int) * bf <= 0x8000_0000_0000_0000int * 1_000_000int) by (nonlinear_arith)
        requires abs(v as int) <= 0x8000_0000_0000_0000, 0 <= bf <= 1_000_000;
    let s: i128 = scale_toward_zero(v as i128, bf, dt);
    proof {
        assert((abs(v as int) * bf) / (dt as int) <= abs(v as int) * bf) by (nonlinear_arith)
            requires abs(v as int) * bf >= 0, dt >= 1;
    }
    -s
}

/// The braking force for velocity `v` over a step of `dt` microseconds, with
/// braking factor `bf` in parts per million.
pub fn brake_force(v: &Vec3, dt: u64, bf: u64, g: GroundState) -> (r: Force)
    requires
        bf <= ONE,
        dt > 0,
    ensures
        r == brake_force_of(*v, dt as int, bf as int, g),
{
    let bx: i128 = brake_component(v.x, bf, dt);
    let by: i128 = brake_component(v.y, bf, dt);
    let bz: i128 = brake_component(v.z, bf, dt);
    let y: i128 = match g {
        GroundState::Grounded => 0,
        GroundState::Airborne => if by < 0 { by } else { 0 },
    };
    Force { x: bx, y, z: bz }
}

/// The upward impulse for vertical input `vertical`.
pub fn jump_impulse(vertical: i32) -> (r: Force)
    ensures
        r == jump_impulse_of(vertical as int),
{
    Force { x: 0, y: (vertical as i128) * JUMP_IMPULSE * (ONE as i128), z: 0 }
}

/// Drives the single avatar from input, camera and contacts.
pub struct CharacterMotionControllerSystem {
    input_event_reader: Option<ReaderId>,
    direction: DirectionInput,
    jump_time: u64,
}

impl CharacterMotionControllerSystem {
    /// Whether `setup` has given the system its reader.
    pub closed spec fn has_reader(&self) -> bool {
        self.input_event_reader.is_some()
    }

    /// The read position of the system's reader.
    pub closed spec fn reader_pos(&self) -> nat {
        self.input_event_reader.unwrap().pos()
    }

    /// The direction accumulator.
    pub closed spec fn direction_spec(&self) -> DirectionInput {
        self.direction
    }

    /// The airborne timer, in parts per million of its cap.
    pub closed spec fn airborne_timer_spec(&self) -> int {
        self.jump_time as int
    }

    /// The invariant of the system's state, and its reader within `log`.
    pub open spec fn ready_for(&self, log: &EventLog) -> bool {
        &&& log.wf()
        &&& self.has_reader()
        &&& log.first_kept() <= self.reader_pos() <= log@.len()
        &&& 0 <= self.airborne_timer_spec() <= ONE
    }

    /// A system at rest: nothing held, timer at zero, no reader yet.
    pub fn new() -> (r: CharacterMotionControllerSystem)
        ensures
            !r.has_reader(),
            r.direction_spec() == (DirectionInput { x: 0, y: 0, z: 0 }),
            r.airborne_timer_spec() == 0,
    {
        CharacterMotionControllerSystem {
            input_event_reader: None,
            direction: DirectionInput::zero(),
            jump_time: 0,
        }
    }

    /// Registers the system's reader on the input log.
    pub fn setup(&mut self, log: &EventLog)
        requires
            log.wf(),
            old(self).airborne_timer_spec() <= ONE,
        ensures
            final(self).ready_for(log),
            final(self).reader_pos() == log@.len(),
            final(self).direction_spec() == old(self).direction_spec(),
            final(self).airborne_timer_spec() == old(self).airborne_timer_spec(),
    {
        self.input_event_reader = Some(log.register_reader());
    }

    /// The read position of the system's reader, so that a log shared by
    /// several readers can discard what all of them have read.
    pub fn reader_position(&self) -> (r: usize)
        requires
            self.has_reader(),
        ensures
            r == self.reader_pos(),
    {
        match &self.input_event_reader {
            Some(reader) => reader.position(),
            None => 0,
        }
    }

    /// The direction accumulator.
    pub fn direction(&self) -> (r: DirectionInput)
        ensures
            r == self.direction_spec(),
    {
        self.direction
    }

    /// The airborne timer, in parts per million of its cap.
    pub fn airborne_timer(&self) -> (r: u64)
        ensures
            r == self.airborne_timer_spec(),
    {
        self.jump_time
    }

    /// Applies the pending events of `log` to the accumulator.
    fn consume_events(&mut self, log: &EventLog)
        requires
            old(self).ready_for(log),
        ensures
            final(self).ready_for(log),
            final(self).reader_pos() == log@.len(),
            final(self).direction_spec() == after_events(
                old(self).direction_spec(),
                log@.subrange(old(self).reader_pos() as int, log@.len() as int),
            ),
            final(self).airborne_timer_spec() == old(self).airborne_timer_spec(),
    {
        let mut reader = self.input_event_reader.take().unwrap();
        let (start, end) = log.read(&mut reader);
        let mut d = self.direction;
        let ghost d0 = d;
        let mut i: usize = start;
        while i < end
            invariant
                start <= i <= end,
                end == log@.len(),
                d == after_events(d0, log@.subrange(start as int, i as int)),
                log.wf(),
                log.first_kept() <= start,
            decreases end - i,
        {
            assert(log@.subrange(start as int, i + 1).drop_last() =~= log@.subrange(
                start as int,
                i as int,
            ));
            d.apply_event(log.event(i));
            i = i + 1;
        }
        self.direction = d;
        self.input_event_reader = Some(reader);
    }

    /// One tick. Reads the pending input events into the accumulator; then,
    /// when there is an avatar, acts on the first one only: it classifies its
    /// contacts, updates the airborne timer and returns the impulse and
    /// forces to apply to it, steered by the last camera of `cams`.
    pub fn run(
        &mut self,
        log: &EventLog,
        dt: u32,
        cams: &[CameraBasis],
        avatars: &[AvatarBody],
    ) -> (r: Vec<PhysicsCommand>)
        requires
            old(self).ready_for(log),
            dt > 0,
        ensures
            final(self).ready_for(log),
            final(self).reader_pos() == log@.len(),
            final(self).direction_spec() == after_events(
                old(self).direction_spec(),
                log@.subrange(old(self).reader_pos() as int, log@.len() as int),
            ),
            avatars@.len() == 0 ==> r@.len() == 0 && final(self).airborne_timer_spec()
                == old(self).airborne_timer_spec(),
            avatars@.len() > 0 ==> r@ == tick_commands(
                final(self).direction_spec(),
                old(self).airborne_timer_spec(),
                dt as int,
                active_camera_of(cams@),
                avatars@[0].contacts@,
                avatars@[0].velocity,
            ),
            avatars@.len() > 0 ==> final(self).airborne_timer_spec() == next_timer(
                ground_state_of(avatars@[0].contacts@),
                old(self).airborne_timer_spec(),
                dt as int,
            ),
            forall|i: int| 0 <= i < r@.len() ==> command_body(#[trigger] r@[i]) == 0,
    {
        self.consume_events(log);
        let cam = active_camera(cams);
        if avatars.len() == 0 {
            return Vec::new();
        }
        let body = &avatars[0];
        let g = classify_contacts(&body.contacts);
        let mut out: Vec<PhysicsCommand> = Vec::new();
        let mf: u64;
        let bf: u64;
        match g {
            GroundState::Grounded => {
                if self.direction.y != 0 {
                    out.push(
                        PhysicsCommand::ApplyImpulse { body: 0, impulse: jump_impulse(self.direction.y) },
                    );
                }
                self.jump_time = 0;
                mf = ONE;
                bf = ONE;
            },
            GroundState::Airborne => {
                self.jump_time = advance_airborne_timer(self.jump_time, dt);
                mf = AIR_MOTION_FACTOR;
                bf = braking_factor(self.jump_time);
            },
        }
        out.push(PhysicsCommand::ApplyForce { body: 0, force: motion_force(&cam, &self.direction, mf) });
        out.push(PhysicsCommand::ApplyForce { body: 0, force: brake_force(&body.velocity, dt as u64, bf, g) });
        assert(out@ =~= tick_commands(
            self.direction,
            old(self).airborne_timer_spec(),
            dt as int,
            active_camera_of(cams@),
            avatars@[0].contacts@,
            avatars@[0].velocity,
        ));
        out
    }
}

/// The impulses among `cmds`, in order.
pub open spec fn impulses_of(cmds: Seq<PhysicsCommand>) -> Seq<Force>
    decreases cmds.len(),
{
    if cmds.len() == 0 {
        Seq::empty()
    } else {
        let rest = impulses_of(cmds.drop_last());
        match cmds.last() {
            PhysicsCommand::ApplyImpulse { impulse, .. } => rest.push(impulse),
            PhysicsCommand::ApplyForce { .. } => rest,
        }
    }
}

/// The airborne timer and all the commands of consecutive ticks in which no
/// input event arrives, so the accumulator stays `d`; tick `k` sees the
/// contacts and velocity `ticks[k]`.
pub open spec fn quiet_ticks(
    d: DirectionInput,
    t: int,
    dt: int,
    cam: CameraBasis,
    ticks: Seq<(Seq<Axis>, Vec3)>,
) -> (int, Seq<PhysicsCommand>)
    decreases ticks.len(),
{
    if ticks.len() == 0 {
        (t, Seq::empty())
    } else {
        let (t1, cmds) = quiet_ticks(d, t, dt, cam, ticks.drop_last());
        let (contacts, velocity) = ticks.last();
        (
            next_timer(ground_state_of(contacts), t1, dt),
            cmds + tick_commands(d, t1, dt, cam, contacts, velocity),
        )
    }
}

proof fn lemma_impulses_of_concat(a: Seq<PhysicsCommand>, b: Seq<PhysicsCommand>)
    ensures
        impulses_of(a + b) == impulses_of(a) + impulses_of(b),
    decreases b.len(),
{
    if b.len() == 0 {
        assert(a + b =~= a);
        assert(impulses_of(a) + impulses_of(b) =~= impulses_of(a));
    } else {
        lemma_impulses_of_concat(a, b.drop_last());
        assert((a + b).drop_last() =~= a + b.drop_last());
        assert((a + b).last() == b.last());
        match b.last() {
            PhysicsCommand::ApplyImpulse { impulse, .. } => {
                assert(impulses_of(a) + impulses_of(b.drop_last()).push(impulse) =~= (impulses_of(a)
                    + impulses_of(b.drop_last())).push(impulse));
            },
            PhysicsCommand::ApplyForce { .. } => {},
        }
    }
}

/// Holding jump while grounded is not debounced: over `n` grounded ticks
/// without input events, exactly `n` impulses are applied, all equal.
pub proof fn held_jump_impulses_every_tick(
    d: DirectionInput,
    t: int,
    dt: int,
    cam: CameraBasis,
    ticks: Seq<(Seq<Axis>, Vec3)>,
)
    requires
        d.y != 0,
        forall|k: int|
            0 <= k < ticks.len() ==> ground_state_of(#[trigger] ticks[k].0)
                == GroundState::Grounded,
    ensures
        impulses_of(quiet_ticks(d, t, dt, cam, ticks).1) == Seq::new(
            ticks.len(),
            |k: int| jump_impulse_of(d.y as int),
        ),
    decreases ticks.len(),
{
    if ticks.len() > 0 {
        let prefix = ticks.drop_last();
        assert forall|k: int| 0 <= k < prefix.len() implies ground_state_of(
            #[trigger] prefix[k].0,
        ) == GroundState::Grounded by {
            assert(prefix[k] == ticks[k]);
        }
        held_jump_impulses_every_tick(d, t, dt, cam, prefix);
        let (t1, cmds) = quiet_ticks(d, t, dt, cam, prefix);
        let (contacts, velocity) = ticks.last();
        assert(ground_state_of(ticks[ticks.len() - 1].0) == GroundState::Grounded);
        let tick = tick_commands(d, t1, dt, cam, contacts, velocity);
        lemma_impulses_of_concat(cmds, tick);
        let imp = PhysicsCommand::ApplyImpulse { body: 0, impulse: jump_impulse_of(d.y as int) };
        let f1 = tick[1];
        let f2 = tick[2];
        let t1s = tick.drop_last();
        let t2s = t1s.drop_last();
        assert(t2s =~= seq![imp]);
        assert(t2s.drop_last() =~= Seq::<PhysicsCommand>::empty());
        assert(impulses_of(t2s.drop_last()) =~= Seq::<Force>::empty());
        assert(t2s.last() == imp);
        assert(impulses_of(t2s) =~= seq![jump_impulse_of(d.y as int)]);
        assert(tick.last() == f2);
        assert(t1s.last() == f1);
        assert(impulses_of(t1s) == impulses_of(t2s));
        assert(impulses_of(tick) == impulses_of(t1s));
        assert(impulses_of(cmds) + impulses_of(tick) =~= Seq::new(
            ticks.len(),
            |k: int| jump_impulse_of(d.y as int),
        ));
    } else {
        assert(impulses_of(Seq::<PhysicsCommand>::empty()) =~= Seq::new(
            0,
            |k: int| jump_impulse_of(d.y as int),
        ));
    }
}

} // verus!
