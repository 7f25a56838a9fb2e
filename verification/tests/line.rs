use os_gaming::gui::line::line_points;

#[test]
fn line_points_follow_bresenham() {
    assert_eq!(line_points(0, 0, 3, 2), vec![(0, 0), (1, 1), (2, 1), (3, 2)]);
    assert_eq!(line_points(0, 0, 5, 4), vec![(0, 0), (1, 1), (2, 2), (3, 2), (4, 3), (5, 4)]);
}

#[test]
fn line_points_on_axes_and_backwards() {
    assert_eq!(line_points(0, 0, 0, 3), vec![(0, 0), (0, 1), (0, 2), (0, 3)]);
    assert_eq!(line_points(3, 0, 0, 0), vec![(3, 0), (2, 0), (1, 0), (0, 0)]);
    assert_eq!(line_points(2, 5, 2, 5), vec![(2, 5)]);
    assert_eq!(line_points(0, 0, -2, -4), vec![(0, 0), (0, -1), (-1, -2), (-1, -3), (-2, -4)]);
}
