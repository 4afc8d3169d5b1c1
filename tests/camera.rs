use platformer::camera::Camera;
use platformer::fixed::Fixed;

fn units(v: i32) -> Fixed {
    Fixed::from_units(v)
}

#[test]
fn zoom_never_exceeds_the_largest_scale() {
    let mut camera = Camera::new((900, 600));
    for _ in 0..10 {
        camera.zoom(units(10));
        assert!(camera.scale.0.milli <= 25_000 && camera.scale.1.milli <= 25_000);
    }
    assert_eq!(camera.scale, (units(25), units(25)));
}

#[test]
fn zoom_never_drops_below_the_smallest_scale() {
    let mut camera = Camera::new((900, 600));
    for _ in 0..10 {
        camera.zoom(Fixed::from_milli(10));
        assert!(camera.scale.0.milli >= 10 && camera.scale.1.milli >= 10);
    }
    assert_eq!(camera.scale, (Fixed::from_milli(10), Fixed::from_milli(10)));
}

#[test]
fn zoom_multiplies_the_scale() {
    let mut camera = Camera::new((900, 600));
    camera.zoom(Fixed::from_milli(1030));
    camera.zoom(Fixed::from_milli(970));
    assert_eq!(camera.scale, (Fixed::from_milli(999), Fixed::from_milli(999)));
    assert_eq!(camera.position, (units(0), units(0)));
}

#[test]
fn set_zoom_clamps_and_keeps_position() {
    let mut camera = Camera::new((900, 600));
    camera.position = (units(12), units(-4));
    camera.set_zoom(units(100));
    assert_eq!(camera.scale, (units(25), units(25)));
    camera.set_zoom(Fixed::from_milli(700));
    assert_eq!(camera.scale, (Fixed::from_milli(700), Fixed::from_milli(700)));
    assert_eq!(camera.position, (units(12), units(-4)));
}

#[test]
fn full_rate_reaches_the_target() {
    let mut camera = Camera::new((900, 600));
    let mut target = Camera::new((900, 600));
    target.position = (Fixed::from_milli(123_456), units(-78));
    target.scale = (units(2), Fixed::from_milli(300));
    camera.to_target(&target, (units(1), units(1)));
    assert_eq!(camera.position, target.position);
    assert_eq!(camera.scale, target.scale);
}

#[test]
fn zero_rate_never_moves() {
    let mut camera = Camera::new((900, 600));
    let mut target = Camera::new((900, 600));
    target.position = (units(500), units(500));
    target.scale = (units(3), units(3));
    for _ in 0..5 {
        camera.to_target(&target, (units(0), units(0)));
    }
    assert_eq!(camera.position, (units(0), units(0)));
    assert_eq!(camera.scale, (units(1), units(1)));
}

#[test]
fn partial_rate_covers_a_fraction_of_the_distance() {
    let mut camera = Camera::new((900, 600));
    let mut target = Camera::new((900, 600));
    target.position = (units(100), units(-100));
    camera.to_target(&target, (Fixed::from_milli(300), Fixed::from_milli(30)));
    assert_eq!(camera.position, (units(30), units(-3)));
    assert_eq!(camera.scale, (units(1), units(1)));
}
