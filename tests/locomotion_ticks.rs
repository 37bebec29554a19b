use character_motion::camera::{CameraMotionSystem, CameraStep, EulerAngles};
use character_motion::geometry::{Axis, CameraBasis, Force, Vec3};
use character_motion::ground::{
    advance_airborne_timer, braking_factor, classify_contacts, is_ground_contact, GroundState,
};
use character_motion::input::{EventLog, InputEvent};
use character_motion::locomotion::{
    active_camera, brake_force, jump_impulse, motion_force, AvatarBody,
    CharacterMotionControllerSystem, PhysicsCommand,
};
use character_motion::components::{CameraBoomHandle, CharacterBody};

const DT: u32 = 16_000;

fn up() -> Axis {
    Axis { x: 0, y: 1_000_000, z: 0 }
}

fn grounded(velocity: Vec3) -> AvatarBody {
    AvatarBody { contacts: vec![up()], velocity }
}

fn airborne(velocity: Vec3) -> AvatarBody {
    AvatarBody { contacts: vec![], velocity }
}

fn still() -> Vec3 {
    Vec3 { x: 0, y: 0, z: 0 }
}

fn zero_force() -> Force {
    Force { x: 0, y: 0, z: 0 }
}

fn controller() -> (CharacterMotionControllerSystem, EventLog) {
    let log = EventLog::new();
    let mut c = CharacterMotionControllerSystem::new();
    c.setup(&log);
    (c, log)
}

#[test]
fn contact_classification() {
    assert!(is_ground_contact(&up()));
    assert!(is_ground_contact(&Axis { x: 700_000, y: 714_143, z: 0 }));
    assert!(!is_ground_contact(&Axis { x: 707_107, y: 707_107, z: 0 }));
    assert!(!is_ground_contact(&Axis { x: 1_000_000, y: 0, z: 0 }));
    assert!(!is_ground_contact(&Axis { x: 0, y: -1_000_000, z: 0 }));
    assert_eq!(classify_contacts(&vec![]), GroundState::Airborne);
    assert_eq!(
        classify_contacts(&vec![Axis { x: 1_000_000, y: 0, z: 0 }, up()]),
        GroundState::Grounded
    );
    assert_eq!(
        classify_contacts(&vec![Axis { x: 0, y: 0, z: 1_000_000 }]),
        GroundState::Airborne
    );
}

#[test]
fn airborne_timer_and_braking_values() {
    assert_eq!(advance_airborne_timer(0, 16_000), 64_000);
    assert_eq!(advance_airborne_timer(990_000, 16_000), 1_000_000);
    assert_eq!(braking_factor(0), 0);
    assert_eq!(braking_factor(64_000), 1);
    assert_eq!(braking_factor(320_000), 3_355);
    assert_eq!(braking_factor(500_000), 31_250);
    assert_eq!(braking_factor(1_000_000), 700_000);
}

#[test]
fn air_control_decays_with_airborne_time() {
    let (mut c, log) = controller();
    let mut last_timer = 0;
    let mut last_braking = 0;
    for tick in 1..=20u64 {
        let cmds = c.run(&log, DT, &[CameraBasis::identity()], &[airborne(still())]);
        let expected = std::cmp::min(tick * 64_000, 1_000_000);
        assert_eq!(c.airborne_timer(), expected);
        let bf = braking_factor(c.airborne_timer());
        assert!(c.airborne_timer() >= last_timer);
        assert!(bf >= last_braking);
        last_timer = c.airborne_timer();
        last_braking = bf;
        assert_eq!(cmds.len(), 2);
    }
    assert_eq!(c.airborne_timer(), 1_000_000);
    assert_eq!(last_braking, 700_000);
    // Landing resets the timer.
    c.run(&log, DT, &[CameraBasis::identity()], &[grounded(still())]);
    assert_eq!(c.airborne_timer(), 0);
}

#[test]
fn held_jump_impulses_each_grounded_tick() {
    let (mut c, mut log) = controller();
    log.push(InputEvent::ActionPressed("Jump".to_string()));
    let n = 5;
    let mut impulses = Vec::new();
    for _ in 0..n {
        let cmds = c.run(&log, DT, &[CameraBasis::identity()], &[grounded(still())]);
        for cmd in cmds {
            if let PhysicsCommand::ApplyImpulse { body, impulse } = cmd {
                assert_eq!(body, 0);
                impulses.push(impulse);
            }
        }
    }
    assert_eq!(impulses.len(), n);
    for i in impulses {
        assert_eq!(i, Force { x: 0, y: 55_000_000, z: 0 });
    }
    assert_eq!(jump_impulse(2), Force { x: 0, y: 110_000_000, z: 0 });
}

#[test]
fn no_impulse_without_jump_input_or_in_air() {
    let (mut c, mut log) = controller();
    let cmds = c.run(&log, DT, &[], &[grounded(still())]);
    assert_eq!(cmds.len(), 2);
    log.push(InputEvent::ActionPressed("Jump".to_string()));
    let cmds = c.run(&log, DT, &[], &[airborne(still())]);
    assert!(cmds.iter().all(|c| matches!(c, PhysicsCommand::ApplyForce { .. })));
}

#[test]
fn force_follows_camera_right_axis() {
    let (mut c, mut log) = controller();
    log.push(InputEvent::ActionPressed("Left".to_string()));
    let cmds = c.run(&log, DT, &[CameraBasis::identity()], &[grounded(still())]);
    assert_eq!(
        cmds,
        vec![
            PhysicsCommand::ApplyForce { body: 0, force: Force { x: 600_000_000, y: 0, z: 0 } },
            PhysicsCommand::ApplyForce { body: 0, force: zero_force() },
        ]
    );
    let cmds = c.run(&log, DT, &[CameraBasis::identity()], &[airborne(still())]);
    assert_eq!(
        cmds[0],
        PhysicsCommand::ApplyForce { body: 0, force: Force { x: 120_000_000, y: 0, z: 0 } }
    );
}

#[test]
fn force_drops_vertical_part_of_tilted_camera() {
    let tilted = CameraBasis {
        right: Axis { x: 600_000, y: 800_000, z: 0 },
        up: Axis { x: -800_000, y: 600_000, z: 0 },
        back: Axis { x: 0, y: 0, z: 1_000_000 },
    };
    let d = character_motion::input::DirectionInput { x: 1, y: 0, z: -1 };
    assert_eq!(
        motion_force(&tilted, &d, 1_000_000),
        Force { x: 360_000_000, y: 0, z: -600_000_000 }
    );
}

#[test]
fn last_camera_steers() {
    let turned = CameraBasis {
        right: Axis { x: 0, y: 0, z: -1_000_000 },
        up: Axis { x: 0, y: 1_000_000, z: 0 },
        back: Axis { x: 1_000_000, y: 0, z: 0 },
    };
    assert_eq!(active_camera(&[]), CameraBasis::identity());
    assert_eq!(active_camera(&[CameraBasis::identity(), turned]), turned);
    let (mut c, mut log) = controller();
    log.push(InputEvent::ActionPressed("Left".to_string()));
    let cmds = c.run(&log, DT, &[CameraBasis::identity(), turned], &[grounded(still())]);
    assert_eq!(
        cmds[0],
        PhysicsCommand::ApplyForce { body: 0, force: Force { x: 0, y: 0, z: -600_000_000 } }
    );
}

#[test]
fn braking_force_values() {
    let v = Vec3 { x: 1_000_000, y: 2_000_000, z: -3_000_000 };
    assert_eq!(
        brake_force(&v, 16_000, 1_000_000, GroundState::Grounded),
        Force { x: -62_500_000, y: 0, z: 187_500_000 }
    );
    assert_eq!(
        brake_force(&v, 16_000, 1, GroundState::Airborne),
        Force { x: -62, y: -125, z: 187 }
    );
    let falling = Vec3 { x: 0, y: -2_000_000, z: 0 };
    assert_eq!(brake_force(&falling, 16_000, 1, GroundState::Airborne), zero_force());
}

#[test]
fn only_first_avatar_is_driven() {
    let (mut c, mut log) = controller();
    log.push(InputEvent::ActionPressed("Jump".to_string()));
    log.push(InputEvent::ActionPressed("Forward".to_string()));
    let avatars = [
        grounded(Vec3 { x: 1_000, y: 0, z: 0 }),
        grounded(Vec3 { x: 5_000, y: 0, z: 0 }),
    ];
    let cmds = c.run(&log, DT, &[CameraBasis::identity()], &avatars);
    assert_eq!(cmds.len(), 3);
    for cmd in &cmds {
        match cmd {
            PhysicsCommand::ApplyForce { body, .. } => assert_eq!(*body, 0),
            PhysicsCommand::ApplyImpulse { body, .. } => assert_eq!(*body, 0),
        }
    }
    assert_eq!(
        cmds[2],
        PhysicsCommand::ApplyForce { body: 0, force: Force { x: -62_500, y: 0, z: 0 } }
    );
}

#[test]
fn no_avatar_is_a_silent_tick() {
    let (mut c, mut log) = controller();
    log.push(InputEvent::ActionPressed("Backward".to_string()));
    let cmds = c.run(&log, DT, &[CameraBasis::identity()], &[]);
    assert!(cmds.is_empty());
    assert_eq!(c.airborne_timer(), 0);
    assert_eq!(c.direction(), character_motion::input::DirectionInput { x: 0, y: 0, z: 1 });
}

#[test]
fn markers_are_plain_tags() {
    assert_eq!(CameraBoomHandle::default(), CameraBoomHandle);
    assert_eq!(CharacterBody::default(), CharacterBody);
}

#[test]
fn shared_log_discards_what_both_systems_read() {
    let mut log = EventLog::new();
    let mut rig = CameraMotionSystem::new();
    let mut c = CharacterMotionControllerSystem::new();
    rig.setup(&log);
    c.setup(&log);
    log.push(InputEvent::ActionPressed("Forward".to_string()));
    log.push(InputEvent::MouseMoved { delta_x: 5_000, delta_y: 0 });
    let level = EulerAngles { pitch: 0, roll: 0 };
    let frame = rig.run(&log, DT, &[level]);
    assert_eq!(frame.step, Some(CameraStep { pitch: 0, yaw: -16_000 }));
    c.run(&log, DT, &[], &[grounded(still())]);
    let oldest = std::cmp::min(rig.reader_position(), c.reader_position());
    assert_eq!(oldest, 2);
    log.discard_before(oldest);
    log.push(InputEvent::ActionReleased("Forward".to_string()));
    let cmds = c.run(&log, DT, &[], &[grounded(still())]);
    assert_eq!(c.direction(), character_motion::input::DirectionInput { x: 0, y: 0, z: 0 });
    assert_eq!(cmds[0], PhysicsCommand::ApplyForce { body: 0, force: zero_force() });
    let frame = rig.run(&log, DT, &[level]);
    assert_eq!(frame.step, Some(CameraStep { pitch: 0, yaw: 0 }));
}
