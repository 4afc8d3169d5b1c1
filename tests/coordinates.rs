use platformer::camera::Camera;
use platformer::entity::Entity;
use platformer::fixed::Fixed;

fn units(v: i32) -> Fixed {
    Fixed::from_units(v)
}

#[test]
fn window_entity_coordinates_vs_actual_coordinates_entity_at_center() {
    let mut camera = Camera::new((900, 600));
    camera.position.0 = units(-450);
    camera.position.1 = units(-300);

    let entity = Entity::new(units(0), units(0), 10, 10);
    let (x, y, width, height) = entity.to_canvas_coordinates(&camera, (450, 300));
    let entity_like_at_the_beginning =
        Entity::from_canvas_coordinates((x, y, width, height, units(1), units(1)), &camera, (450, 300));

    assert_eq!(x, units(900));
    assert_eq!(y, units(600));
    assert_eq!(width, 10);
    assert_eq!(height, 10);

    assert_eq!(entity.position.0, entity_like_at_the_beginning.position.0);
    assert_eq!(entity.position.1, entity_like_at_the_beginning.position.1);
    assert_eq!(entity.dimensions.0, entity_like_at_the_beginning.dimensions.0);
    assert_eq!(entity.dimensions.1, entity_like_at_the_beginning.dimensions.1);
}

#[test]
fn window_entity_coordinates_vs_actual_coordinates_entity_at_start() {
    let camera = Camera::new((900, 600));

    let entity = Entity::new(units(0), units(0), 10, 10);
    let (x, y, width, height) = entity.to_canvas_coordinates(&camera, (450, 300));
    let entity_like_at_the_beginning =
        Entity::from_canvas_coordinates((x, y, width, height, units(1), units(1)), &camera, (450, 300));

    assert_eq!(x, units(450));
    assert_eq!(y, units(300));
    assert_eq!(width, 10);
    assert_eq!(height, 10);

    assert_eq!(entity.position.0, entity_like_at_the_beginning.position.0);
    assert_eq!(entity.position.1, entity_like_at_the_beginning.position.1);
    assert_eq!(entity.dimensions.0, entity_like_at_the_beginning.dimensions.0);
    assert_eq!(entity.dimensions.1, entity_like_at_the_beginning.dimensions.1);
}

#[test]
fn window_entity_coordinates_vs_actual_coordinates() {
    let mut camera = Camera::new((900, 600));
    camera.position.0 = units(450);

    let entity = Entity::new(units(600), units(0), 10, 10);
    let (x, y, width, height) = entity.to_canvas_coordinates(&camera, (450, 300));
    let entity_like_at_the_beginning =
        Entity::from_canvas_coordinates((x, y, width, height, units(1), units(1)), &camera, (450, 300));

    assert_eq!(x, units(600));
    assert_eq!(y, units(300));
    assert_eq!(width, 10);
    assert_eq!(height, 10);

    assert_eq!(entity.position.0, entity_like_at_the_beginning.position.0);
    assert_eq!(entity.position.1, entity_like_at_the_beginning.position.1);
    assert_eq!(entity.dimensions.0, entity_like_at_the_beginning.dimensions.0);
    assert_eq!(entity.dimensions.1, entity_like_at_the_beginning.dimensions.1);
}

#[test]
fn window_entity_coordinates_vs_actual_coordinates_plus_scale() {
    let mut camera = Camera::new((900, 600));
    camera.zoom(units(2));
    camera.position.0 = units(450);

    let entity = Entity::new(units(600), units(0), 10, 10);
    let (x, y, width, height) = entity.to_canvas_coordinates(&camera, (450, 300));
    let entity_like_at_the_beginning =
        Entity::from_canvas_coordinates((x, y, width, height, units(1), units(1)), &camera, (450, 300));

    assert_eq!(x, units(750));
    assert_eq!(y, units(300));
    assert_eq!(width, 20);
    assert_eq!(height, 20);

    assert_eq!(entity.position.0, entity_like_at_the_beginning.position.0);
    assert_eq!(entity.position.1, entity_like_at_the_beginning.position.1);
    assert_eq!(entity.dimensions.0, entity_like_at_the_beginning.dimensions.0);
    assert_eq!(entity.dimensions.1, entity_like_at_the_beginning.dimensions.1);
}

#[test]
fn round_trip_at_origin_with_unit_scale() {
    let camera = Camera::new((900, 600));
    let entity = Entity::new(units(0), units(0), 10, 10);
    let (x, y, width, height) = entity.to_canvas_coordinates(&camera, (450, 300));
    assert_eq!((x, y, width, height), (units(450), units(300), 10, 10));
    let back = Entity::from_canvas_coordinates((x, y, width, height, units(1), units(1)), &camera, (450, 300));
    assert_eq!(back.position, (units(0), units(0)));
    assert_eq!(back.dimensions, (10, 10));
}

#[test]
fn round_trip_with_fractional_position_and_zoom() {
    let mut camera = Camera::new((900, 600));
    camera.set_zoom(Fixed::from_milli(1500));
    camera.position = (Fixed::from_milli(-12_250), units(40));
    let entity = Entity::new(Fixed::from_milli(37_500), Fixed::from_milli(-8_250), 40, 6);
    let (x, y, width, height) = entity.to_canvas_coordinates(&camera, (450, 300));
    assert_eq!(x, Fixed::from_milli(56_250 + 18_375 + 450_000));
    assert_eq!(y, Fixed::from_milli(-12_375 - 60_000 + 300_000));
    assert_eq!((width, height), (60, 9));
    let back = Entity::from_canvas_coordinates((x, y, width, height, units(1), units(1)), &camera, (450, 300));
    assert_eq!(back.position, entity.position);
    assert_eq!(back.dimensions, entity.dimensions);
}

#[test]
fn parallax_scrolls_slower_than_the_camera() {
    let mut camera = Camera::new((900, 600));
    camera.position.0 = units(100);
    let entity = Entity::new(units(0), units(0), 10, 10).parallax_x(Fixed::from_milli(500));
    let (x, _, _, _) = entity.to_canvas_coordinates(&camera, (0, 0));
    assert_eq!(x, units(-50));
}

#[test]
fn lengths_are_cut_to_whole_pixels() {
    let mut camera = Camera::new((900, 600));
    camera.set_zoom(Fixed::from_milli(970));
    let entity = Entity::new(units(0), units(0), 10, 3);
    let (_, _, width, height) = entity.to_canvas_coordinates(&camera, (0, 0));
    assert_eq!((width, height), (9, 2));
}

#[test]
fn visible_rect_centers_the_camera() {
    let camera = Camera::new((900, 600));
    let entity = Entity::new(Fixed::from_milli(10_700), units(-20), 10, 10);
    assert_eq!(camera.visible_rect(&entity), Some((460, 280, 10, 10)));
    let far = Entity::new(units(1000), units(0), 10, 10);
    assert_eq!(camera.visible_rect(&far), None);
    let left_edge = Entity::new(units(-460), units(0), 10, 10);
    assert_eq!(camera.visible_rect(&left_edge), Some((-10, 300, 10, 10)));
    let beyond_left = Entity::new(units(-461), units(0), 10, 10);
    assert_eq!(camera.visible_rect(&beyond_left), None);
}
