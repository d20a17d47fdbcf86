use term_chart::matrix::{Matrix, PointTrait, Row};
use term_chart::point::Point;

fn build_test_vec() -> Vec<Point> {
    vec![
        Point::new(0, 0),
        Point::new(1, 1),
        Point::new(2, 2),
        Point::new(10, 20),
        Point::new(12, 20),
        Point::new(14, 20),
        Point::new(11, 20),
        Point::new(99, 20),
        Point::new(100, 20),
        Point::new(101, 18),
    ]
}

fn build_min_test_vec() -> Vec<Point> {
    vec![
        Point::new(8, 10),
        Point::new(10, 4),
        Point::new(12, 5),
        Point::new(10, 20),
        Point::new(12, 20),
        Point::new(14, 20),
        Point::new(11, 20),
        Point::new(99, 20),
        Point::new(100, 20),
        Point::new(101, 18),
    ]
}

#[test]
fn matrix_is_empty_test() {
    {
        let matrix = Matrix::from_vec(build_test_vec());
        assert_eq!(false, matrix.is_empty());
    }
    {
        let matrix = Matrix::from_vec(build_min_test_vec());
        assert_eq!(false, matrix.is_empty());
    }
    {
        assert!(Matrix::<Point>::new(Vec::new()).is_empty());
    }
    {
        let mut rows = Vec::new();
        rows.push(Row::<Point>::new());
        rows.push(Row::<Point>::new());
        rows.push(Row::<Point>::new());
        rows.push(Row::<Point>::new());
        assert!(Matrix::new(rows).is_empty());
    }
}

#[test]
fn matrix_x_max_test() {
    let matrix = Matrix::from_vec(build_test_vec());
    assert_eq!(101, matrix.x_max().unwrap());
}

#[test]
fn matrix_y_max_test() {
    let matrix = Matrix::from_vec(build_test_vec());
    assert_eq!(20, matrix.y_max().unwrap());
}

#[test]
fn matrix_x_y_max_test() {
    let matrix = Matrix::from_vec(build_test_vec());
    assert_eq!((101, 20), matrix.x_y_max().unwrap());
}

#[test]
fn matrix_x_min_test() {
    let matrix = Matrix::from_vec(build_min_test_vec());
    assert_eq!(8, matrix.x_min().unwrap());
}

#[test]
fn matrix_y_min_test() {
    let matrix = Matrix::from_vec(build_min_test_vec());
    assert_eq!(4, matrix.y_min().unwrap());
}

#[test]
fn matrix_x_y_min_test() {
    let matrix = Matrix::from_vec(build_min_test_vec());
    assert_eq!((8, 4), matrix.x_y_min().unwrap());
}

#[test]
fn map_test() {
    let matrix = Matrix::from_vec(vec![Point::new(0, 10), Point::new(10, 20)])
        .map(|p: Point| Point::new(p.x + 5, p.y + 7));
    assert!(matrix.get(17, 5).is_some());
    assert!(matrix.get(27, 15).is_some());
}

#[test]
fn bounds_cover_every_point_test() {
    let points = build_min_test_vec();
    let matrix = Matrix::from_slice(&points);
    let (x_min, y_min) = matrix.x_y_min().unwrap();
    let (x_max, y_max) = matrix.x_y_max().unwrap();
    for point in &points {
        assert!(x_min <= point.x() && point.x() <= x_max);
        assert!(y_min <= point.y() && point.y() <= y_max);
    }
}

#[test]
fn empty_matrix_has_no_bounds_test() {
    let matrix = Matrix::<Point>::from_vec(Vec::new());
    assert!(matrix.is_empty());
    assert_eq!(None, matrix.x_min());
    assert_eq!(None, matrix.x_max());
    assert_eq!(None, matrix.y_min());
    assert_eq!(None, matrix.y_max());
    assert_eq!(None, matrix.x_y_min());
    assert_eq!(None, matrix.x_y_max());
}

#[test]
fn get_and_has_test() {
    let matrix = Matrix::from_vec(build_test_vec());
    assert_eq!(Some(Point::new(101, 18)), matrix.get(18, 101));
    assert_eq!(None, matrix.get(18, 100));
    assert_eq!(None, matrix.get(19, 101));
    assert!(matrix.has(20, 14));
    assert!(!matrix.has(14, 20));
}

#[test]
fn get_row_is_ordered_by_column_test() {
    let matrix = Matrix::from_vec(build_test_vec());
    let row = matrix.get_row(20).unwrap();
    let columns: Vec<u16> = row.cells.iter().map(|p| p.x).collect();
    assert_eq!(vec![10, 11, 12, 14, 99, 100], columns);
    assert_eq!(6, row.len());
    assert!(matrix.get_row(19).is_none());
}

#[test]
fn map_keeps_the_later_of_two_points_test() {
    let matrix = Matrix::from_vec(vec![Point::new(3, 1), Point::new(0, 0), Point::new(2, 1)])
        .map(|p: Point| p.with_x_y(p.x / 2, 7));
    assert_eq!(Some(Point::new(0, 7)), matrix.get(7, 0));
    assert_eq!(Some(Point::new(1, 7)), matrix.get(7, 1));
    assert_eq!(None, matrix.get(1, 3));
    assert_eq!(Some(0), matrix.x_min());
    assert_eq!(Some(1), matrix.x_max());
}

#[test]
fn duplicate_keeps_the_points_test() {
    let matrix = Matrix::from_vec(build_test_vec());
    let copy = matrix.duplicate();
    assert_eq!(matrix.x_y_min(), copy.x_y_min());
    assert_eq!(matrix.x_y_max(), copy.x_y_max());
    assert_eq!(Some(Point::new(2, 2)), copy.get(2, 2));
}

#[test]
fn point_to_text_test() {
    assert_eq!("Point 3x40", Point::new(3, 40).to_text());
    assert_eq!(Point::new(0, 0), Point::null());
    assert_eq!(Point::new(9, 2), Point::new(1, 2).with_x(9));
    assert_eq!(Point::new(1, 9), Point::new(1, 2).with_y(9));
}
