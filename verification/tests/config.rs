use entity_core::config::Config;
use entity_core::geometry::Vector2;
use entity_core::scalar::Scalar;

#[test]
fn default_config_has_fifty_steps_and_a_tenth_of_gravity() {
    let config = Config::default();
    assert_eq!(config.target_update_fps, 50);
    assert_eq!(config.gravity_force, Scalar::from_raw(100_000));
}

#[test]
fn default_step_is_two_hundredths_of_a_second() {
    assert_eq!(Config::default().fixed_dt(), Scalar::from_raw(20_000));
    let seconds = Config::default().fixed_dt().raw() as f32 / 1.0e6;
    assert!((seconds - 0.02).abs() < 1.0e-6);
}

#[test]
fn step_is_the_reciprocal_of_the_rate_rounded_down() {
    let gravity_force = Scalar::zero();
    assert_eq!(Config { target_update_fps: 1, gravity_force }.fixed_dt(), Scalar::from_int(1));
    assert_eq!(Config { target_update_fps: 60, gravity_force }.fixed_dt(), Scalar::from_raw(16_666));
    assert_eq!(Config { target_update_fps: 3, gravity_force }.fixed_dt(), Scalar::from_raw(333_333));
    assert_eq!(Config { target_update_fps: 1_000_000, gravity_force }.fixed_dt(), Scalar::from_raw(1));
    assert_eq!(Config { target_update_fps: u32::MAX, gravity_force }.fixed_dt(), Scalar::from_raw(0));
}

#[test]
fn gravity_points_along_y() {
    assert_eq!(
        Config::default().gravity(),
        Vector2::new(Scalar::zero(), Scalar::from_raw(100_000))
    );
    let config = Config { target_update_fps: 50, gravity_force: Scalar::from_raw(-3) };
    assert_eq!(config.gravity(), Vector2::new(Scalar::zero(), Scalar::from_raw(-3)));
}
