use lets_bounce::kinematics::accelerate;
use lets_bounce::kinematics::displace;
use lets_bounce::kinematics::FLOOR;
use lets_bounce::kinematics::GRAVITY_X;
use lets_bounce::kinematics::GRAVITY_Y;
use lets_bounce::kinematics::GRAVITY_Z;
use lets_bounce::kinematics::LAUNCH_X;
use lets_bounce::kinematics::LAUNCH_Y;
use lets_bounce::kinematics::LAUNCH_Z;
use lets_bounce::kinematics::NANOS_PER_SECOND;
use lets_bounce::kinematics::POSITION_SCALE;
use lets_bounce::kinematics::VELOCITY_SCALE;

#[test]
fn the_scales_fit_together() {
    assert_eq!(POSITION_SCALE, VELOCITY_SCALE as i128 * NANOS_PER_SECOND as i128);
    assert_eq!(FLOOR, -1_000_000_000_000_000_000_000);
    assert_eq!((LAUNCH_X, LAUNCH_Y, LAUNCH_Z), (50_000_000_000, 200_000_000_000, 30_000_000_000));
}

#[test]
fn gravity_is_nine_point_eight_per_second_squared_downward() {
    assert_eq!((GRAVITY_X, GRAVITY_Z), (0, 0));
    // One second of gravity changes a velocity by -9.8 world units per second.
    assert_eq!(GRAVITY_Y as i128 * NANOS_PER_SECOND as i128 * 10, -98 * VELOCITY_SCALE as i128);
}

#[test]
fn accelerate_adds_acceleration_times_time() {
    assert_eq!(accelerate(-50 * VELOCITY_SCALE, GRAVITY_Y, NANOS_PER_SECOND), -598_000_000_000);
    assert_eq!(accelerate(LAUNCH_Y, GRAVITY_Y, 16_666_667), 200_000_000_000 - 98 * 16_666_667);
    assert_eq!(accelerate(7, 3, 5), 22);
    assert_eq!(accelerate(7, -3, 5), -8);
}

#[test]
fn accelerate_without_time_or_acceleration_changes_nothing() {
    assert_eq!(accelerate(123, GRAVITY_Y, 0), 123);
    assert_eq!(accelerate(-123, GRAVITY_X, u64::MAX), -123);
    assert_eq!(accelerate(i64::MIN, 0, 17), i64::MIN);
}

#[test]
fn accelerate_stops_at_the_ends_of_the_range() {
    assert_eq!(accelerate(0, GRAVITY_Y, u64::MAX), i64::MIN);
    assert_eq!(accelerate(i64::MIN + 97, GRAVITY_Y, 1), i64::MIN);
    assert_eq!(accelerate(i64::MIN + 98, GRAVITY_Y, 1), i64::MIN);
    assert_eq!(accelerate(i64::MIN + 99, GRAVITY_Y, 1), i64::MIN + 1);
    assert_eq!(accelerate(i64::MAX - 1, 1, 2), i64::MAX);
    assert_eq!(accelerate(i64::MAX, i64::MAX, u64::MAX), i64::MAX);
    assert_eq!(accelerate(i64::MIN, i64::MIN, u64::MAX), i64::MIN);
}

#[test]
fn displace_adds_velocity_times_time() {
    assert_eq!(
        displace(-99 * POSITION_SCALE, -598_000_000_000, NANOS_PER_SECOND),
        -1_588_000_000_000_000_000_000
    );
    assert_eq!(displace(0, LAUNCH_X, NANOS_PER_SECOND), 5 * POSITION_SCALE);
    assert_eq!(displace(10, 3, 4), 22);
    assert_eq!(displace(10, -3, 4), -2);
}

#[test]
fn displace_without_time_or_velocity_changes_nothing() {
    assert_eq!(displace(42, LAUNCH_X, 0), 42);
    assert_eq!(displace(-42, 0, u64::MAX), -42);
}

#[test]
fn displace_stops_at_the_ends_of_the_range() {
    assert_eq!(displace(i128::MAX - 5, 3, 2), i128::MAX);
    assert_eq!(displace(i128::MAX - 6, 3, 2), i128::MAX);
    assert_eq!(displace(i128::MAX - 7, 3, 2), i128::MAX - 1);
    assert_eq!(displace(i128::MIN + 5, -3, 2), i128::MIN);
    assert_eq!(displace(i128::MIN + 7, -3, 2), i128::MIN + 1);
    assert_eq!(displace(i128::MIN, i64::MIN, u64::MAX), i128::MIN);
    assert_eq!(displace(i128::MAX, i64::MAX, u64::MAX), i128::MAX);
    assert_eq!(
        displace(0, i64::MIN, u64::MAX),
        -(1i128 << 63) * (u64::MAX as i128)
    );
}
