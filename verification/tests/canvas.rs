use term_chart::chart::canvas::Canvas;
use term_chart::chart::padding::Padding;
use term_chart::matrix::Matrix;
use term_chart::point::Point;

#[test]
fn canvas_draw_points_with_symbol_test() {
    let canvas = Canvas::new(10, 2, Padding::empty());

    assert_eq!(
        " .        \n.         \n",
        canvas.draw_points_with_symbol(
            Matrix::from_vec(vec![
                Point::new(0, 0),
                Point::new(1, 1),
                Point::new(2, 2),      // Will be clipped
                Point::new(10, 20),    // Will be clipped
                Point::new(12, 20),    // Will be clipped
                Point::new(14, 20),    // Will be clipped
                Point::new(11, 20),    // Will be clipped
                Point::new(99, 20),    // Will be clipped
                Point::new(100, 20),   // Will be clipped
                Point::new(101, 20)    // Will be clipped
            ]),
            ".",
        )
    );

    assert_eq!(
        " ðŸ˜Š        \nðŸ˜Š         \n",
        canvas.draw_points_with_symbol(
            Matrix::from_vec(vec![
                Point::new(0, 0),
                Point::new(1, 1),
                Point::new(2, 2),      // Will be clipped
                Point::new(10, 20),    // Will be clipped
                Point::new(12, 20),    // Will be clipped
                Point::new(14, 20),    // Will be clipped
                Point::new(11, 20),    // Will be clipped
                Point::new(99, 20),    // Will be clipped
                Point::new(100, 20),   // Will be clipped
                Point::new(101, 20)    // Will be clipped
            ]),
            "ðŸ˜Š",
        )
    );

    assert_eq!(
        " ðŸ˜Š       ðŸ˜Š\nðŸ˜Š         \n",
        canvas.draw_points_with_symbol(
            Matrix::from_vec(vec![
                Point::new(0, 0),
                Point::new(1, 1),
                Point::new(9, 1),
                Point::new(2, 2),      // Will be clipped
                Point::new(10, 20),    // Will be clipped
                Point::new(12, 20),    // Will be clipped
                Point::new(14, 20),    // Will be clipped
                Point::new(11, 20),    // Will be clipped
                Point::new(99, 20),    // Will be clipped
                Point::new(100, 20),   // Will be clipped
                Point::new(101, 20)    // Will be clipped
            ]),
            "ðŸ˜Š",
        )
    );
}

#[test]
fn canvas_draw_points_with_symbols_test() {
    let canvas = Canvas::new(10, 2, Padding::empty());

    assert_eq!(
        " .        \n.         \n",
        canvas.draw_points_with_symbols(
            Matrix::from_vec(vec![
                Point::new(0, 0),
                Point::new(1, 1),
                Point::new(2, 2),      // Will be clipped
                Point::new(10, 20),    // Will be clipped
                Point::new(12, 20),    // Will be clipped
                Point::new(14, 20),    // Will be clipped
                Point::new(11, 20),    // Will be clipped
                Point::new(99, 20),    // Will be clipped
                Point::new(100, 20),   // Will be clipped
                Point::new(101, 20)    // Will be clipped
            ]),
            ".",
            " ",
        )
    );

    assert_eq!(
        " ðŸ˜Š        \nðŸ˜Š         \n",
        canvas.draw_points_with_symbols(
            Matrix::from_vec(vec![
                Point::new(0, 0),
                Point::new(1, 1),
                Point::new(2, 2),      // Will be clipped
                Point::new(10, 20),    // Will be clipped
                Point::new(12, 20),    // Will be clipped
                Point::new(14, 20),    // Will be clipped
                Point::new(11, 20),    // Will be clipped
                Point::new(99, 20),    // Will be clipped
                Point::new(100, 20),   // Will be clipped
                Point::new(101, 20)    // Will be clipped
            ]),
            "ðŸ˜Š",
            " ",
        )
    );

    assert_eq!(
        "_ðŸ˜Š_______ðŸ˜Š\nðŸ˜Š_________\n",
        canvas.draw_points_with_symbols(
            Matrix::from_vec(vec![
                Point::new(0, 0),
                Point::new(1, 1),
                Point::new(9, 1),
                Point::new(2, 2),      // Will be clipped
                Point::new(10, 20),    // Will be clipped
                Point::new(12, 20),    // Will be clipped
                Point::new(14, 20),    // Will be clipped
                Point::new(11, 20),    // Will be clipped
                Point::new(99, 20),    // Will be clipped
                Point::new(100, 20),   // Will be clipped
                Point::new(101, 20)    // Will be clipped
            ]),
            "ðŸ˜Š",
            "_",
        )
    );
}

#[test]
fn canvas_draw_points_with_callback_test() {
    let canvas = Canvas::new(10, 2, Padding::empty());

    assert_eq!(
        "_x________\nx_________\n",
        canvas.draw_points_with_callback(
            Matrix::from_vec(vec![
                Point::new(0, 0),
                Point::new(1, 1),
                Point::new(2, 2),      // Will be clipped
                Point::new(10, 20),    // Will be clipped
                Point::new(12, 20),    // Will be clipped
                Point::new(14, 20),    // Will be clipped
                Point::new(11, 20),    // Will be clipped
                Point::new(99, 20),    // Will be clipped
                Point::new(100, 20),   // Will be clipped
                Point::new(101, 20)    // Will be clipped
            ]),
            |point: Option<Point>| {
                match point {
                    Some(_) => "x".to_string(),
                    None => "_".to_string(),
                }
            },
        )
    );
}
