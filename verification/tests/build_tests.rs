use line_series::{MatLineSeries, Primitive};

fn sole_path_points<X, Y>(prims: Vec<Primitive<X, Y>>) -> Vec<(X, Y)> {
    assert_eq!(prims.len(), 1);
    match prims.into_iter().next().unwrap() {
        Primitive::Path { points, .. } => points,
        Primitive::Marker { .. } => panic!("expected a path primitive"),
    }
}

#[test]
fn test_line_series() {
    let xs: Vec<i32> = (0..100).collect();
    let ys: Vec<i32> = (0..100).collect();
    let series = MatLineSeries::from_xy(xs, ys);
    let points = sole_path_points(series.emit());
    assert_eq!(points.len(), 100);
    for (i, p) in points.iter().enumerate() {
        assert_eq!(*p, (i as i32, i as i32));
    }
}

#[test]
fn from_xy_truncates_to_shorter() {
    let series = MatLineSeries::from_xy(vec![1, 2, 3, 4], vec![5, 6]);
    let points = sole_path_points(series.emit());
    assert_eq!(points, vec![(1, 5), (2, 6)]);
}

#[test]
fn from_xy_truncates_longer_y() {
    let series = MatLineSeries::from_xy(vec![1, 2], vec![5, 6, 7, 8, 9]);
    let points = sole_path_points(series.emit());
    assert_eq!(points, vec![(1, 5), (2, 6)]);
}

#[test]
fn from_xy_equal_lengths_keeps_everything() {
    let series = MatLineSeries::from_xy(vec![1, 2, 3], vec![4, 5, 6]);
    let points = sole_path_points(series.emit());
    assert_eq!(points, vec![(1, 4), (2, 5), (3, 6)]);
}

#[test]
fn from_xy_one_side_empty_builds_empty() {
    let series = MatLineSeries::from_xy(Vec::<i32>::new(), vec![5, 6, 7]);
    assert_eq!(series.emit().len(), 0);
    let series = MatLineSeries::from_xy(vec![1, 2, 3], Vec::<i32>::new());
    assert_eq!(series.emit().len(), 0);
}

#[test]
fn from_y_fitting_u8_axis_ascends() {
    let series = MatLineSeries::<u8, i32>::from_y(vec![10, 20, 30]);
    let points = sole_path_points(series.emit());
    assert_eq!(points, vec![(0u8, 10), (1u8, 20), (2u8, 30)]);
}

#[test]
fn from_y_u8_axis_exact_fit_has_no_repetition() {
    let ys: Vec<i32> = (0..256).collect();
    let series = MatLineSeries::<u8, i32>::from_y(ys);
    let points = sole_path_points(series.emit());
    assert_eq!(points.len(), 256);
    for (i, p) in points.iter().enumerate() {
        assert_eq!(p.0, i as u8);
        assert_eq!(p.1, i as i32);
    }
}

#[test]
fn from_y_overflowing_u8_axis_saturates() {
    let ys: Vec<i32> = (0..300).collect();
    let series = MatLineSeries::<u8, i32>::from_y(ys);
    let points = sole_path_points(series.emit());
    assert_eq!(points.len(), 300);
    for (i, p) in points.iter().enumerate() {
        let expected_x: u8 = if i < 256 { i as u8 } else { 255 };
        assert_eq!(p.0, expected_x);
        assert_eq!(p.1, i as i32);
    }
}

#[test]
fn from_y_overflowing_i8_axis_saturates() {
    let ys: Vec<u32> = (0..200).collect();
    let series = MatLineSeries::<i8, u32>::from_y(ys);
    let points = sole_path_points(series.emit());
    assert_eq!(points.len(), 200);
    for (i, p) in points.iter().enumerate() {
        let expected_x: i8 = if i < 128 { i as i8 } else { 127 };
        assert_eq!(p.0, expected_x);
        assert_eq!(p.1, i as u32);
    }
}

#[test]
fn from_y_wide_axes_ascend() {
    let points = sole_path_points(MatLineSeries::<u64, i32>::from_y(vec![7, 8, 9]).emit());
    assert_eq!(points, vec![(0u64, 7), (1u64, 8), (2u64, 9)]);
    let points = sole_path_points(MatLineSeries::<usize, i32>::from_y(vec![7, 8, 9]).emit());
    assert_eq!(points, vec![(0usize, 7), (1usize, 8), (2usize, 9)]);
    let points = sole_path_points(MatLineSeries::<i64, i32>::from_y(vec![7, 8, 9]).emit());
    assert_eq!(points, vec![(0i64, 7), (1i64, 8), (2i64, 9)]);
    let points = sole_path_points(MatLineSeries::<isize, i32>::from_y(vec![7, 8, 9]).emit());
    assert_eq!(points, vec![(0isize, 7), (1isize, 8), (2isize, 9)]);
    let points = sole_path_points(MatLineSeries::<u128, i32>::from_y(vec![7, 8, 9]).emit());
    assert_eq!(points, vec![(0u128, 7), (1u128, 8), (2u128, 9)]);
    let points = sole_path_points(MatLineSeries::<i128, i32>::from_y(vec![7, 8, 9]).emit());
    assert_eq!(points, vec![(0i128, 7), (1i128, 8), (2i128, 9)]);
}

#[test]
fn from_y_mid_width_axes_ascend() {
    let points = sole_path_points(MatLineSeries::<u16, i32>::from_y(vec![7, 8, 9]).emit());
    assert_eq!(points, vec![(0u16, 7), (1u16, 8), (2u16, 9)]);
    let points = sole_path_points(MatLineSeries::<u32, i32>::from_y(vec![7, 8, 9]).emit());
    assert_eq!(points, vec![(0u32, 7), (1u32, 8), (2u32, 9)]);
    let points = sole_path_points(MatLineSeries::<i16, i32>::from_y(vec![7, 8, 9]).emit());
    assert_eq!(points, vec![(0i16, 7), (1i16, 8), (2i16, 9)]);
    let points = sole_path_points(MatLineSeries::<i32, i32>::from_y(vec![7, 8, 9]).emit());
    assert_eq!(points, vec![(0i32, 7), (1i32, 8), (2i32, 9)]);
}

#[test]
fn from_y_empty_builds_empty() {
    let series = MatLineSeries::<u16, i32>::from_y(Vec::new());
    assert_eq!(series.emit().len(), 0);
}
