use entity_core::geometry::{Rect, Vector2};
use entity_core::physics_system::player_physics_system::PlayerPhysicsSystem;
use entity_core::physics_system::PhysicsSystem;
use entity_core::scalar::Scalar;

fn s(raw: i64) -> Scalar {
    Scalar::from_raw(raw)
}

fn v(x: i64, y: i64) -> Vector2 {
    Vector2::new(s(x), s(y))
}

#[test]
fn player_physics_starts_at_rest() {
    let physics = PlayerPhysicsSystem::default();
    assert_eq!(physics.get_velocity(), Vector2::zero());
}

#[test]
fn player_physics_set_velocity_overwrites() {
    let mut physics = PlayerPhysicsSystem::default();
    physics.set_velocity(s(1_000_000), s(-2_000_000));
    assert_eq!(physics.get_velocity(), v(1_000_000, -2_000_000));
    physics.set_velocity(s(5), s(6));
    assert_eq!(physics.get_velocity(), v(5, 6));
}

#[test]
fn player_physics_force_is_added_to_the_velocity_as_it_is() {
    let mut physics = PlayerPhysicsSystem::default();
    physics.apply_force(&v(0, 100_000));
    assert_eq!(physics.get_velocity(), v(0, 100_000));
    physics.apply_force(&v(0, 100_000));
    assert_eq!(physics.get_velocity(), v(0, 200_000));
    physics.apply_force(&v(-50_000, -200_000));
    assert_eq!(physics.get_velocity(), v(-50_000, 0));
}

#[test]
fn player_physics_update_is_one_euler_step() {
    let mut physics = PlayerPhysicsSystem { velocity: v(1_000_000, -3_000_000) };
    let mut location = Rect::new(s(10_000_000), s(20_000_000), s(32_000_000), s(64_000_000));
    physics.update(&mut location, s(20_000));
    assert_eq!(location, Rect::new(s(10_020_000), s(19_940_000), s(32_000_000), s(64_000_000)));
    assert_eq!(physics.get_velocity(), v(1_000_000, -3_000_000));
    physics.update(&mut location, s(20_000));
    assert_eq!(location, Rect::new(s(10_040_000), s(19_880_000), s(32_000_000), s(64_000_000)));
}

#[test]
fn player_physics_at_rest_does_not_move() {
    let mut physics = PlayerPhysicsSystem::default();
    let mut location = Rect::new(s(1), s(2), s(3), s(4));
    physics.update(&mut location, s(20_000));
    assert_eq!(location, Rect::new(s(1), s(2), s(3), s(4)));
}

#[test]
fn player_physics_works_behind_a_trait_object() {
    let mut physics: Box<dyn PhysicsSystem> = Box::new(PlayerPhysicsSystem::default());
    physics.set_velocity(s(2_000_000), s(0));
    physics.apply_force(&v(0, 1_000_000));
    let mut location = Rect::new(s(0), s(0), s(0), s(0));
    physics.update(&mut location, s(500_000));
    assert_eq!(physics.get_velocity(), v(2_000_000, 1_000_000));
    assert_eq!(location.xy(), v(1_000_000, 500_000));
}
