use platformer::text::get_text_texture_rects;

#[test]
fn letters_sit_in_two_rows() {
    assert_eq!(get_text_texture_rects('A'), (0, 0, 7, 9));
    assert_eq!(get_text_texture_rects('a'), (0, 9, 7, 9));
    assert_eq!(get_text_texture_rects('M'), (84, 0, 7, 9));
    assert_eq!(get_text_texture_rects('z'), (175, 9, 7, 9));
}

#[test]
fn digits_and_symbols_follow_the_letters() {
    assert_eq!(get_text_texture_rects('0'), (182, 0, 7, 9));
    assert_eq!(get_text_texture_rects('+'), (182, 9, 7, 9));
    assert_eq!(get_text_texture_rects('\\'), (203, 9, 7, 9));
    assert_eq!(get_text_texture_rects('9'), (245, 0, 7, 9));
    assert_eq!(get_text_texture_rects(','), (252, 0, 7, 9));
    assert_eq!(get_text_texture_rects(')'), (336, 0, 7, 9));
}

#[test]
fn space_is_empty_and_unknown_points_off_sheet() {
    assert_eq!(get_text_texture_rects(' '), (0, 0, 0, 0));
    assert_eq!(get_text_texture_rects('#'), (5000, 0, 7, 9));
    assert_eq!(get_text_texture_rects('é'), (5000, 0, 7, 9));
}
