use platformer::entity::{Entity, Event, EventType};
use platformer::fixed::Fixed;

fn units(v: i32) -> Fixed {
    Fixed::from_units(v)
}

fn milli(v: i64) -> Fixed {
    Fixed::from_milli(v)
}

fn block(x: i32, y: i32, width: u32, height: u32) -> Entity {
    Entity::new(units(x), units(y), width, height)
}

fn with_event(mut e: Entity, event_type: EventType, ids: Vec<String>) -> Entity {
    e.event = Some(Event { event_type, receiving_entity_ids: ids });
    e
}

#[test]
fn new_entity_has_default_materials() {
    let e = block(3, 4, 5, 6);
    assert_eq!(e.bounciness, milli(400));
    assert_eq!(e.slippiness, milli(800));
    assert_eq!(e.step_height, units(0));
    assert_eq!(e.velocity, (units(0), units(0)));
    assert_eq!(e.acceleration, (units(0), units(1)));
    assert_eq!(e.parallax, (units(1), units(1)));
    assert_eq!(e.position, (units(3), units(4)));
    assert_eq!(e.dimensions, (5, 6));
    assert!(e.id.is_none());
}

#[test]
fn grounded_friction_uses_the_larger_slippiness() {
    let mut floor = block(0, 10, 100, 10);
    floor.slippiness = milli(500);
    let obstacles = vec![floor];
    let mut e = block(10, 0, 10, 10).velocity_x(units(10));
    assert!(e.is_touching_ground(&obstacles));
    e.next_state(&obstacles);
    assert_eq!(e.velocity.0, units(8));
    assert_eq!(e.position.0, units(18));
}

#[test]
fn friction_needs_exact_contact() {
    let obstacles = vec![block(0, 11, 100, 10)];
    let mut e = block(10, 0, 10, 10).velocity_x(units(10));
    assert!(!e.is_touching_ground(&obstacles));
    e.next_state(&obstacles);
    assert_eq!(e.velocity.0, units(10));
}

#[test]
fn ground_must_reach_past_an_edge() {
    let inside = vec![block(12, 10, 5, 10)];
    let e = block(10, 0, 10, 10);
    assert!(!e.is_touching_ground(&inside));
    let past_right = vec![block(15, 10, 10, 10)];
    assert!(e.is_touching_ground(&past_right));
}

#[test]
fn falling_entity_bounces_off_the_floor() {
    let mut floor = block(-50, 12, 200, 10);
    floor.bounciness = units(1);
    let obstacles = vec![floor];
    let mut e = block(0, 0, 10, 10).velocity_y(units(5)).bounciness(milli(500));
    e.acceleration = (units(0), units(0));
    e.next_state(&obstacles);
    assert_eq!(e.velocity.1, milli(-2500));
    assert_eq!(e.position.1, units(2));
    assert_eq!(e.position.1.add(units(10)), units(12));
}

#[test]
fn rising_entity_bounces_off_the_ceiling() {
    let obstacles = vec![block(-50, -20, 200, 10)];
    let mut e = block(0, 0, 10, 10).velocity_y(units(-15));
    e.acceleration = (units(0), units(0));
    e.next_state(&obstacles);
    assert_eq!(e.position.1, units(-10));
    assert_eq!(e.velocity.1, milli(2400));
}

#[test]
fn grounded_entity_steps_onto_a_low_ledge() {
    let floor = block(-100, 20, 300, 10);
    let ledge = block(14, 15, 20, 5);
    let obstacles = vec![floor, ledge];
    let mut e = block(0, 10, 10, 10).velocity_x(units(5)).step_height(units(8));
    e.next_state(&obstacles);
    assert_eq!(e.position, (units(4), units(5)));
    assert_eq!(e.velocity.0, units(4));
}

#[test]
fn ledge_above_step_height_blocks() {
    let floor = block(-100, 20, 300, 10);
    let ledge = block(14, 15, 20, 5);
    let obstacles = vec![floor, ledge];
    let mut e = block(0, 10, 10, 10).velocity_x(units(5)).step_height(units(4));
    e.next_state(&obstacles);
    assert_eq!(e.position, (units(4), units(10)));
    assert_eq!(e.velocity.0, milli(-640));
}

#[test]
fn wall_on_the_left_pushes_back() {
    let obstacles = vec![block(-30, -100, 20, 300)];
    let mut e = block(0, 0, 10, 10).velocity_x(units(-15));
    e.acceleration = (units(0), units(0));
    e.next_state(&obstacles);
    assert_eq!(e.position.0, units(-10));
    assert_eq!(e.velocity.0, milli(2400));
}

#[test]
fn teleport_from_above_keeps_velocity() {
    let volume = with_event(block(-5, 12, 20, 20), EventType::Teleport(units(100), units(100)), vec![]);
    let obstacles = vec![volume];
    let mut e = block(0, 0, 10, 10).velocity_y(units(5));
    e.acceleration = (units(0), units(0));
    e.next_state(&obstacles);
    assert_eq!(e.position, (units(100), units(100)));
    assert_eq!(e.velocity, (units(0), units(5)));
}

#[test]
fn teleport_from_the_side_keeps_velocity() {
    let volume = with_event(block(12, -5, 20, 20), EventType::Teleport(units(100), units(100)), vec![]);
    let obstacles = vec![volume];
    let mut e = block(0, 0, 10, 10).velocity_x(units(5));
    e.acceleration = (units(0), units(0));
    e.next_state(&obstacles);
    assert_eq!(e.position, (units(100), units(100)));
    assert_eq!(e.velocity, (units(5), units(0)));
}

#[test]
fn events_only_reach_listed_ids() {
    let volume = with_event(block(-5, 12, 20, 20), EventType::Kill, vec!["hero".to_string()]);
    let obstacles = vec![volume];

    let mut stranger = block(0, 0, 10, 10).velocity_y(units(5)).id("ghost".to_string());
    stranger.acceleration = (units(0), units(0));
    stranger.next_state(&obstacles);
    assert_eq!(stranger.id.as_deref(), Some("ghost"));
    assert_eq!(stranger.position.1, units(2));

    let mut hero = block(0, 0, 10, 10).velocity_y(units(5)).id("hero".to_string());
    hero.acceleration = (units(0), units(0));
    hero.next_state(&obstacles);
    assert!(hero.is_dying());
    assert_eq!(hero.velocity.1, units(5));

    let mut nameless = block(0, 0, 10, 10).velocity_y(units(5));
    nameless.acceleration = (units(0), units(0));
    nameless.next_state(&obstacles);
    assert!(!nameless.is_dying());
}

#[test]
fn damaging_entity_dies_on_entity_with_health() {
    let mut target = block(-50, 12, 200, 10);
    target.health = Some(3);
    let obstacles = vec![target];
    let mut bullet = block(0, 0, 10, 10).velocity_y(units(5)).damage_factor(Some(units(1)));
    bullet.acceleration = (units(0), units(0));
    bullet.next_state(&obstacles);
    assert!(bullet.is_dying());
    assert_eq!(bullet.position.1, units(2));

    let mut harmless = block(0, 0, 10, 10).velocity_y(units(5));
    harmless.acceleration = (units(0), units(0));
    harmless.next_state(&obstacles);
    assert!(!harmless.is_dying());
}

#[test]
fn first_obstacle_in_order_wins() {
    let mut first = block(-50, 12, 200, 10);
    first.bounciness = units(1);
    let second = block(-50, 11, 200, 10);
    let obstacles = vec![first, second];
    let mut e = block(0, 0, 10, 10).velocity_y(units(5)).bounciness(units(1));
    e.acceleration = (units(0), units(0));
    e.next_state(&obstacles);
    assert_eq!(e.position.1, units(2));
    assert_eq!(e.velocity.1, units(-5));
}

#[test]
fn free_entity_integrates() {
    let mut e = block(0, 0, 10, 10).velocity_x(milli(1500));
    e.acceleration = (milli(250), units(1));
    e.next_state(&vec![]);
    assert_eq!(e.velocity, (milli(1750), units(1)));
    assert_eq!(e.position, (milli(1750), units(1)));
}

#[test]
fn inclusive_overlap_counts_touching_edges() {
    let a = block(0, 0, 10, 10);
    assert!(a.is_inside_entity(&block(10, 10, 5, 5)));
    assert!(!a.is_inside_entity(&block(11, 0, 5, 5)));
}

#[test]
fn run_event_teleports_and_kills() {
    let mut e = block(0, 0, 1, 1);
    e.run_event(&Event { event_type: EventType::Teleport(units(7), units(-3)), receiving_entity_ids: vec![] });
    assert_eq!(e.position, (units(7), units(-3)));
    assert!(!e.is_dying());
    e.run_event(&Event { event_type: EventType::Kill, receiving_entity_ids: vec![] });
    assert_eq!(e.id.as_deref(), Some("dying"));
}
