use lets_bounce::apply_physics;
use lets_bounce::kinematics::LAUNCH_X;
use lets_bounce::kinematics::LAUNCH_Y;
use lets_bounce::kinematics::LAUNCH_Z;
use lets_bounce::kinematics::POSITION_SCALE;
use lets_bounce::kinematics::VELOCITY_SCALE;
use lets_bounce::physics::step;
use lets_bounce::Entity;
use lets_bounce::Kind;
use lets_bounce::Pool;
use lets_bounce::Position;
use lets_bounce::Velocity;

const SECOND: u64 = 1_000_000_000;

fn ball(velocity: Velocity) -> Kind {
    Kind::BounceBall { velocity }
}

#[test]
fn a_falling_ball_gains_speed_and_then_moves_at_its_new_speed() {
    let mut pool = Pool::new();
    let id = pool.spawn(
        Position { x: 0, y: -99 * POSITION_SCALE, z: 0 },
        ball(Velocity { x: 0, y: -50 * VELOCITY_SCALE, z: 0 }),
    );
    apply_physics(SECOND, &mut pool);
    let after = pool.get(id).unwrap();
    // -59.8 world units per second, and a height of -158.8 world units.
    assert_eq!(after.kind, ball(Velocity { x: 0, y: -598 * VELOCITY_SCALE / 10, z: 0 }));
    assert_eq!(after.position, Position { x: 0, y: -1588 * POSITION_SCALE / 10, z: 0 });
}

#[test]
fn a_launched_ball_moves_along_all_three_axes() {
    let mut pool = Pool::new();
    let start = Position { x: POSITION_SCALE, y: POSITION_SCALE / 2, z: -POSITION_SCALE };
    let id = pool.spawn(start, ball(Velocity { x: LAUNCH_X, y: LAUNCH_Y, z: LAUNCH_Z }));
    apply_physics(SECOND / 2, &mut pool);
    let after = pool.get(id).unwrap();
    // Half a second: the rise slows from 20 to 15.1, the rest is unchanged.
    let velocity = Velocity { x: LAUNCH_X, y: 151 * VELOCITY_SCALE / 10, z: LAUNCH_Z };
    assert_eq!(after.kind, ball(velocity));
    assert_eq!(
        after.position,
        Position {
            x: start.x + 25 * POSITION_SCALE / 10,
            y: start.y + 755 * POSITION_SCALE / 100,
            z: start.z + 15 * POSITION_SCALE / 10,
        }
    );
}

#[test]
fn a_step_of_one_nanosecond_is_exact() {
    let entity = Entity {
        id: 9,
        position: Position { x: 1, y: 2, z: 3 },
        kind: ball(Velocity { x: 10, y: 20, z: 30 }),
    };
    assert_eq!(
        step(entity, 1),
        Entity {
            id: 9,
            position: Position { x: 11, y: 2 - 78, z: 33 },
            kind: ball(Velocity { x: 10, y: 20 - 98, z: 30 }),
        }
    );
}

#[test]
fn two_half_steps_differ_from_one_whole_step() {
    let start = Entity {
        id: 0,
        position: Position { x: 0, y: 0, z: 0 },
        kind: ball(Velocity { x: 0, y: 0, z: 0 }),
    };
    let whole = step(start, SECOND);
    let halves = step(step(start, SECOND / 2), SECOND / 2);
    assert_eq!(whole.kind, halves.kind);
    assert_eq!(whole.position.y, -98 * POSITION_SCALE / 10);
    assert_eq!(halves.position.y, -735 * POSITION_SCALE / 100);
}

#[test]
fn a_frame_without_time_changes_nothing() {
    let mut pool = Pool::new();
    let start = Position { x: 4, y: 5, z: 6 };
    let kind = ball(Velocity { x: LAUNCH_X, y: LAUNCH_Y, z: LAUNCH_Z });
    let id = pool.spawn(start, kind);
    apply_physics(0, &mut pool);
    assert_eq!(pool.get(id), Some(Entity { id, position: start, kind }));
}

#[test]
fn only_balls_move() {
    let mut pool = Pool::new();
    let place = Position { x: 0, y: POSITION_SCALE / 2, z: 0 };
    let point = pool.spawn(place, Kind::Spawner);
    let ground = pool.spawn(Position { x: 0, y: 0, z: 0 }, Kind::Ground);
    let first = pool.spawn(place, ball(Velocity { x: LAUNCH_X, y: LAUNCH_Y, z: LAUNCH_Z }));
    let second = pool.spawn(place, ball(Velocity { x: 0, y: 0, z: 0 }));
    apply_physics(SECOND, &mut pool);
    assert_eq!(pool.len(), 4);
    assert_eq!(pool.get(point), Some(Entity { id: point, position: place, kind: Kind::Spawner }));
    assert_eq!(
        pool.get(ground),
        Some(Entity { id: ground, position: Position { x: 0, y: 0, z: 0 }, kind: Kind::Ground })
    );
    assert_eq!(
        pool.get(first),
        Some(Entity {
            id: first,
            position: Position {
                x: 5 * POSITION_SCALE,
                y: place.y + 102 * POSITION_SCALE / 10,
                z: 3 * POSITION_SCALE,
            },
            kind: ball(Velocity { x: LAUNCH_X, y: 102 * VELOCITY_SCALE / 10, z: LAUNCH_Z }),
        })
    );
    assert_eq!(
        pool.get(second),
        Some(Entity {
            id: second,
            position: Position { x: 0, y: place.y - 98 * POSITION_SCALE / 10, z: 0 },
            kind: ball(Velocity { x: 0, y: -98 * VELOCITY_SCALE / 10, z: 0 }),
        })
    );
    assert_eq!(pool.spare_ids(), u64::MAX - 4);
}

#[test]
fn a_step_stops_at_the_ends_of_the_range() {
    let entity = Entity {
        id: 1,
        position: Position { x: i128::MAX - 1, y: i128::MIN + 1, z: 0 },
        kind: ball(Velocity { x: 1, y: i64::MIN + 1, z: -1 }),
    };
    assert_eq!(
        step(entity, 2),
        Entity {
            id: 1,
            position: Position { x: i128::MAX, y: i128::MIN, z: -2 },
            kind: ball(Velocity { x: 1, y: i64::MIN, z: -1 }),
        }
    );
}

#[test]
fn a_step_leaves_other_kinds_alone() {
    let point = Entity { id: 3, position: Position { x: 1, y: 2, z: 3 }, kind: Kind::Spawner };
    let ground = Entity { id: 4, position: Position { x: 1, y: 2, z: 3 }, kind: Kind::Ground };
    assert_eq!(step(point, SECOND), point);
    assert_eq!(step(ground, u64::MAX), ground);
}
