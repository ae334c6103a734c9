use raytracer::coords::{as_triple, split_coordinates, Axis};

#[test]
fn point_text_with_three_coordinates_splits_in_three() {
    let parts = split_coordinates("-1.0,-2,3.0");
    assert_eq!(parts, vec!["-1.0", "-2", "3.0"]);
    let values: Vec<f64> = parts.iter().map(|p| p.parse::<f64>().unwrap()).collect();
    assert_eq!(as_triple(&values), Ok((-1.0, -2.0, 3.0)));
}

#[test]
fn point_text_with_two_coordinates_is_no_triple() {
    let parts = split_coordinates("-1.0,2");
    assert_eq!(parts, vec!["-1.0", "2"]);
    assert_eq!(as_triple(&vec![-1.0, 2.0]), Err(2));
}

#[test]
fn point_text_with_four_coordinates_is_no_triple() {
    let parts = split_coordinates("-1.0,2,3.0,-4");
    assert_eq!(parts.len(), 4);
    assert_eq!(as_triple(&vec![1, 2, 3, 4]), Err(4));
}

#[test]
fn point_text_loses_brackets_and_outer_whitespace() {
    assert_eq!(split_coordinates("  [1;2 3]\t\n"), vec!["1", "2", "3"]);
    assert_eq!(split_coordinates("(1,2,3)"), vec!["1", "2", "3"]);
    assert_eq!(split_coordinates("<1,{2},3>"), vec!["1", "2", "3"]);
}

#[test]
fn point_text_keeps_empty_pieces_between_adjacent_separators() {
    assert_eq!(split_coordinates("1, 2"), vec!["1", "", "2"]);
    assert_eq!(split_coordinates("1,,2;"), vec!["1", "", "2", ""]);
}

#[test]
fn empty_point_text_is_one_empty_piece() {
    assert_eq!(split_coordinates(""), vec![""]);
    assert_eq!(split_coordinates("   "), vec![""]);
}

#[test]
fn axes_name_their_slots() {
    assert_eq!(Axis::X.slot(), 0);
    assert_eq!(Axis::Y.slot(), 1);
    assert_eq!(Axis::Z.slot(), 2);
}
