use term_chart::chart::mode::Mode;
use term_chart::chart::Chart;
use term_chart::point::Point;

#[test]
fn mod_draw_points_with_symbol_test() {
    let canvas = Chart::new(10, 2, 0, 0, Mode::Truncate);

    assert_eq!(
        " .        \n.         \n",
        canvas.draw_points_with_symbol(
            vec![
                Point::new(0, 0),
                Point::new(1, 1),
                Point::new(2, 2),      // Will be clipped
                Point::new(10, 20),    // Will be clipped
                Point::new(12, 20),    // Will be clipped
                Point::new(14, 20),    // Will be clipped
                Point::new(11, 20),    // Will be clipped
                Point::new(99, 20),    // Will be clipped
                Point::new(100, 20),   // Will be clipped
                Point::new(101, 20)    // Will be clipped
            ],
            ".",
        )
    );

    assert_eq!(
        " 😊        \n😊         \n",
        canvas.draw_points_with_symbol(
            vec![
                Point::new(0, 0),
                Point::new(1, 1),
                Point::new(2, 2),      // Will be clipped
                Point::new(10, 20),    // Will be clipped
                Point::new(12, 20),    // Will be clipped
                Point::new(14, 20),    // Will be clipped
                Point::new(11, 20),    // Will be clipped
                Point::new(99, 20),    // Will be clipped
                Point::new(100, 20),   // Will be clipped
                Point::new(101, 20)    // Will be clipped
            ],
            "😊",
        )
    );

    assert_eq!(
        " 😊       😊\n😊         \n",
        canvas.draw_points_with_symbol(
            vec![
                Point::new(0, 0),
                Point::new(1, 1),
                Point::new(9, 1),
                Point::new(2, 2),      // Will be clipped
                Point::new(10, 20),    // Will be clipped
                Point::new(12, 20),    // Will be clipped
                Point::new(14, 20),    // Will be clipped
                Point::new(11, 20),    // Will be clipped
                Point::new(99, 20),    // Will be clipped
                Point::new(100, 20),   // Will be clipped
                Point::new(101, 20)    // Will be clipped
            ],
            "😊",
        )
    );
}

#[test]
fn mod_draw_points_with_symbols_test() {
    let canvas = Chart::new(10, 2, 0, 0, Mode::Truncate);

    assert_eq!(
        " .        \n.         \n",
        canvas.draw_points_with_symbols(
            vec![
                Point::new(0, 0),
                Point::new(1, 1),
                Point::new(2, 2),      // Will be clipped
                Point::new(10, 20),    // Will be clipped
                Point::new(12, 20),    // Will be clipped
                Point::new(14, 20),    // Will be clipped
                Point::new(11, 20),    // Will be clipped
                Point::new(99, 20),    // Will be clipped
                Point::new(100, 20),   // Will be clipped
                Point::new(101, 20)    // Will be clipped
            ],
            ".",
            " ",
        )
    );

    assert_eq!(
        " 😊        \n😊         \n",
        canvas.draw_points_with_symbols(
            vec![
                Point::new(0, 0),
                Point::new(1, 1),
                Point::new(2, 2),      // Will be clipped
                Point::new(10, 20),    // Will be clipped
                Point::new(12, 20),    // Will be clipped
                Point::new(14, 20),    // Will be clipped
                Point::new(11, 20),    // Will be clipped
                Point::new(99, 20),    // Will be clipped
                Point::new(100, 20),   // Will be clipped
                Point::new(101, 20)    // Will be clipped
            ],
            "😊",
            " ",
        )
    );

    assert_eq!(
        "_😊_______😊\n😊_________\n",
        canvas.draw_points_with_symbols(
            vec![
                Point::new(0, 0),
                Point::new(1, 1),
                Point::new(9, 1),
                Point::new(2, 2),      // Will be clipped
                Point::new(10, 20),    // Will be clipped
                Point::new(12, 20),    // Will be clipped
                Point::new(14, 20),    // Will be clipped
                Point::new(11, 20),    // Will be clipped
                Point::new(99, 20),    // Will be clipped
                Point::new(100, 20),   // Will be clipped
                Point::new(101, 20)    // Will be clipped
            ],
            "😊",
            "_",
        )
    );
}

#[test]
fn mod_draw_points_with_callback_test() {
    let canvas = Chart::new(10, 2, 0, 0, Mode::Truncate);

    assert_eq!(
        "_x________\nx_________\n",
        canvas.draw_points_with_callback(
            vec![
                Point::new(0, 0),
                Point::new(1, 1),
                Point::new(2, 2),      // Will be clipped
                Point::new(10, 20),    // Will be clipped
                Point::new(12, 20),    // Will be clipped
                Point::new(14, 20),    // Will be clipped
                Point::new(11, 20),    // Will be clipped
                Point::new(99, 20),    // Will be clipped
                Point::new(100, 20),   // Will be clipped
                Point::new(101, 20)    // Will be clipped
            ],
            |point: Option<Point>| {
                match point {
                    Some(_) => "x".to_string(),
                    None => "_".to_string(),
                }
            },
        )
    );
}

#[test]
fn scale_not_needed_test() {
    let chart_with_truncate = Chart::new(6, 6, 0, 0, Mode::Truncate).draw_points_with_symbols(
        vec![
            Point::new(0, 0),
            Point::new(5, 5),
        ],
        "x", "_",
    );
    let chart_with_scale = Chart::new(6, 6, 0, 0, Mode::Scale).draw_points_with_symbols(
        vec![
            Point::new(0, 0),
            Point::new(5, 5),
        ],
        "x", "_",
    );

    assert_eq!(
        chart_with_truncate,
        chart_with_scale
    );
}

#[test]
fn scale_test() {
    let chart_with_truncate = Chart::new(6, 6, 0, 0, Mode::Truncate).draw_points_with_symbols(
        vec![
            Point::new(0, 0),
            Point::new(2, 2),
            Point::new(5, 5),
        ],
        "x", "_",
    );
    let chart_with_scale = Chart::new(6, 6, 0, 0, Mode::Scale).draw_points_with_symbols(
        vec![
            Point::new(0, 0),
            Point::new(5, 5),
            Point::new(11, 11),
        ],
        "x", "_",
    );

    assert_eq!(
        chart_with_truncate,
        chart_with_scale
    );

    assert_eq!(
        chart_with_truncate,
        Chart::new(6, 6, 0, 0, Mode::ScaleDown).draw_points_with_symbols(
            vec![
                Point::new(0, 0),
                Point::new(5, 5),
                Point::new(11, 11),
            ],
            "x", "_",
        )
    );
}

#[test]
fn scale_down_test() {
    let chart_with_truncate = Chart::new(6, 6, 0, 0, Mode::Truncate).draw_points_with_symbols(
        vec![
            Point::new(0, 0),
            Point::new(2, 2),
            Point::new(5, 5),
        ],
        "x", "_",
    );

    assert_eq!(
        chart_with_truncate,
        Chart::new(6, 6, 0, 0, Mode::Scale).draw_points_with_symbols(
            vec![
                Point::new(0, 0),
                Point::new(5, 5),
                Point::new(11, 11),
            ],
            "x", "_",
        )
    );

    assert_eq!(
        chart_with_truncate,
        Chart::new(6, 6, 0, 0, Mode::ScaleDown).draw_points_with_symbols(
            vec![
                Point::new(0, 0),
                Point::new(5, 5),
                Point::new(11, 11),
            ],
            "x", "_",
        )
    );
}

#[test]
fn do_not_scale_up_test() {
    assert_eq!(
        Chart::new(6, 6, 0, 0, Mode::Truncate).draw_points_with_symbols(
            vec![
                Point::new(0, 0),
                Point::new(2, 2),
            ],
            "x", "_",
        ),
        Chart::new(6, 6, 0, 0, Mode::ScaleDown).draw_points_with_symbols(
            vec![
                Point::new(0, 0),
                Point::new(2, 2),
            ],
            "x", "_",
        )
    );
    assert_ne!(
        Chart::new(6, 6, 0, 0, Mode::Truncate).draw_points_with_symbols(
            vec![
                Point::new(0, 0),
                Point::new(2, 2),
            ],
            "x", "_",
        ),
        Chart::new(6, 6, 0, 0, Mode::Scale).draw_points_with_symbols(
            vec![
                Point::new(0, 0),
                Point::new(2, 2),
            ],
            "x", "_",
        )
    );
}
