use term_chart::matrix::PointTrait;
use term_chart::point::Point;
use term_chart::ui::element::Element;
use term_chart::ui::error::Error;
use term_chart::ui::medium::{terminal_frame, MediumTrait};
use term_chart::ui::pixel::Pixel;
use term_chart::ui::pixel_sequence::{parse_elements, PixelSequence, PixelSequenceTrait};
use term_chart::ui::screen::{count_newlines, Screen};
use term_chart::ui::screen_buffer::{build_contents, wrap_pixel, ScreenBuffer};
use term_chart::ui::size::Size;
use term_chart::ui::style::{wrap, wrap_char, Attribute, Background, Foreground, StyleTrait, Styles};

struct Quiet;

impl MediumTrait for Quiet {
    fn draw(&self, _output: &str) -> Result<(), Error> {
        Ok(())
    }

    fn flush(&self) -> Result<(), Error> {
        Ok(())
    }
}

struct Broken;

impl MediumTrait for Broken {
    fn draw(&self, output: &str) -> Result<(), Error> {
        Err(Error::OutputError(format!("cannot write {} bytes", output.len())))
    }

    fn flush(&self) -> Result<(), Error> {
        Err(Error::OutputError("cannot flush".to_string()))
    }
}

fn screen(width: u16, height: u16) -> Screen<Quiet> {
    Screen::new(Size::new(width, height), Pixel::placeholder(0, 0), Quiet).unwrap()
}

#[test]
fn draw_pixel_right_of_the_screen_fails_test() {
    for (width, height) in [(1u16, 1u16), (10, 3), (3200, 2)] {
        let mut buffer = ScreenBuffer::with_size(Size::new(width, height)).unwrap();
        let result = buffer.draw_pixel(Pixel::normal('x', width, 0));
        assert!(matches!(result, Err(Error::SizeError(_))));
        assert_eq!(0, buffer.len());
        assert_eq!(Ok(()), buffer.draw_pixel(Pixel::normal('x', width - 1, height - 1)));
        assert_eq!(width as usize * height as usize, buffer.len());
    }
}

#[test]
fn draw_pixel_below_the_screen_fails_test() {
    let mut buffer = ScreenBuffer::with_size(Size::new(4, 2)).unwrap();
    assert_eq!(
        Err(Error::SizeError(
            "The point's `y` coordinate (2) is bigger than the screen's height (2) for character 'q'"
                .to_string()
        )),
        buffer.draw_pixel(Pixel::normal('q', 3, 2))
    );
    assert_eq!(
        Err(Error::SizeError(
            "The point's `y` coordinate (2) is bigger than the screen's height (2)".to_string()
        )),
        buffer.get_pixel_at(3, 2)
    );
    assert_eq!(
        Err(Error::SizeError(
            "The point's `x` coordinate (4) is bigger than the screen's width (4)".to_string()
        )),
        buffer.get_content_at(4, 0)
    );
}

#[test]
fn fresh_buffer_contents_test() {
    let buffer = ScreenBuffer::with_size(Size::new(3, 2)).unwrap();
    assert_eq!("   \n   \n", buffer.get_contents());
    let dotted = ScreenBuffer::new(Size::new(4, 3), Pixel::placeholder_with_character(0, 0, '.')).unwrap();
    assert_eq!("....\n....\n....\n", dotted.get_contents());
    let styled = Pixel::new(Element::new('#', Styles::normal().with_foreground(Foreground::Red)), 0, 0);
    let red = ScreenBuffer::new(Size::new(2, 1), styled).unwrap();
    let cell = "\u{1b}[0m\u{1b}[49m\u{1b}[31m#\u{1b}[0m";
    assert_eq!(format!("{}{}\n", cell, cell), red.get_contents());
    assert_eq!("##\n", build_contents(&red, false));
}

#[test]
fn buffer_size_errors_test() {
    assert_eq!(
        Error::SizeError("The screen size 0x5 is too small".to_string()),
        ScreenBuffer::with_size(Size { width: 0, height: 5 }).unwrap_err()
    );
    assert_eq!(
        Error::SizeError("The screen size 7x0 is too small".to_string()),
        ScreenBuffer::new(Size { width: 7, height: 0 }, Pixel::blank(0, 0)).unwrap_err()
    );
    assert!(Screen::new(Size { width: 0, height: 0 }, Pixel::blank(0, 0), Quiet).is_err());
    let buffer = ScreenBuffer::with_size(Size::new(65535, 65535)).unwrap();
    assert_eq!(65535, buffer.width());
    assert_eq!(65535, buffer.height());
    assert_eq!(Size::new(65535, 65535), buffer.size());
}

#[test]
fn gaps_are_filled_with_placeholders_test() {
    let mut buffer = ScreenBuffer::with_size(Size::new(3, 3)).unwrap();
    assert!(buffer.draw_point(&Point::new(1, 1), 'x').is_ok());
    assert_eq!(5, buffer.len());
    assert_eq!(Ok(Pixel::placeholder(0, 0)), buffer.get_pixel_at(0, 0));
    assert_eq!(Ok(Pixel::placeholder(2, 0)), buffer.get_pixel_at(2, 0));
    assert_eq!(Ok(Pixel::placeholder(0, 1)), buffer.get_pixel_at(0, 1));
    assert_eq!(Ok(Pixel::normal('x', 1, 1)), buffer.get_pixel_at_point(&Point::new(1, 1)));
    assert!(buffer.draw_pixel(Pixel::normal('y', 0, 0)).is_ok());
    assert_eq!(5, buffer.len());
    assert_eq!(Ok('y'), buffer.get_content_at(0, 0));
    assert_eq!(Some(4), buffer.last_index());
    assert_eq!(9, buffer.max_index());
    buffer.clear();
    assert_eq!(0, buffer.len());
    assert_eq!(None, buffer.last_index());
}

#[test]
fn undrawn_cell_reads_as_the_blank_pixel_test() {
    let blank = Pixel::placeholder_with_character(7, 9, '~');
    let buffer = ScreenBuffer::new(Size::new(5, 5), blank).unwrap();
    assert_eq!(Ok(blank), buffer.get_pixel_at(3, 4));
    assert_eq!(Ok('~'), buffer.get_content_at_point(&Point::new(0, 0)));
}

#[test]
fn draw_element_beyond_the_coordinates_test() {
    let mut buffer = ScreenBuffer::with_size(Size::new(5, 5)).unwrap();
    assert_eq!(
        Err(Error::SizeError(
            "The point's `y` coordinate (70000) is bigger than the screen's height (5) for character 'a'"
                .to_string()
        )),
        buffer.draw_element(Element::normal('a'), 1, 70000)
    );
    assert_eq!(
        Err(Error::SizeError(
            "The point's `x` coordinate (65536) is bigger than the screen's width (5) for character 'a'"
                .to_string()
        )),
        buffer.draw_element(Element::normal('a'), 65536, 70000)
    );
    assert_eq!(Ok(()), buffer.draw_element(Element::normal('a'), 4, 4));
    assert_eq!(Ok('a'), buffer.get_content_at(4, 4));
}

#[test]
fn draw_text_rejects_newline_anywhere_test() {
    for text in ["\nabc", "a\nbc", "abc\n", "\n"] {
        let mut screen = screen(10, 5);
        assert_eq!(
            Err(Error::InputTextError(
                "Newline character must not appear in `draw_text()`".to_string()
            )),
            screen.draw_text(&Point::new(0, 0), text)
        );
        assert_eq!("          \n          \n          \n          \n          \n", screen.get_contents());
    }
}

#[test]
fn draw_text_keeps_what_was_drawn_before_a_failure_test() {
    let mut screen = screen(10, 5);
    assert!(screen.draw_text(&Point::new(7, 2), "hello").is_err());
    assert_eq!("          \n          \n       hel\n          \n          \n", screen.get_contents());
}

#[test]
fn draw_multi_line_text_test() {
    let mut screen = screen(10, 5);
    assert_eq!(Ok(()), screen.draw_multi_line_text(&Point::new(2, 1), "ab\ncd\n\nef"));
    assert_eq!("          \n  ab      \n  cd      \n          \n  ef      \n", screen.get_contents());
}

#[test]
fn draw_multi_line_text_does_not_wrap_test() {
    let mut screen = screen(10, 5);
    assert_eq!(
        Err(Error::SizeError(
            "The point's `x` coordinate (10) is bigger than the screen's width (10) for character 'l'"
                .to_string()
        )),
        screen.draw_multi_line_text(&Point::new(7, 2), "hello")
    );
}

#[test]
fn too_many_lines_test() {
    let mut screen = screen(10, 2);
    assert_eq!(
        Err(Error::SizeError(
            "Buffer height is 2 but the input text contains 3 lines".to_string()
        )),
        screen.draw_multi_line_text(&Point::new(0, 0), "a\nb\nc\n")
    );
    assert_eq!(
        Err(Error::SizeError(
            "Buffer height is 2 but the input text contains 3 lines".to_string()
        )),
        screen.draw_text_wrapping(&Point::new(0, 0), "\n\n\n")
    );
    assert_eq!("          \n          \n", screen.get_contents());
    assert_eq!(3, count_newlines("a\nb\nc\n"));
    assert_eq!(0, count_newlines(""));
}

#[test]
fn wrapping_absorbs_a_newline_at_the_boundary_test() {
    let mut screen = screen(3, 3);
    assert_eq!(Ok(()), screen.draw_text_wrapping(&Point::new(0, 0), "abc\ndef"));
    assert_eq!("abc\ndef\n   \n", screen.get_contents());
    let mut plain = self::screen(3, 3);
    assert_eq!(Ok(()), plain.draw_multi_line_text_wrapping(&Point::new(0, 0), "abc\ndef", false));
    assert_eq!("abc\ndef\n   \n", plain.get_contents());
}

#[test]
fn styled_text_keeps_its_styles_test() {
    let mut screen = screen(5, 1);
    let text = "a\u{1b}[31mb\u{1b}[0mc";
    assert_eq!(Ok(()), screen.draw_text(&Point::new(1, 0), text));
    assert_eq!(" a\u{1b}[0m\u{1b}[49m\u{1b}[31mb\u{1b}[0mc \n", screen.get_contents());
    assert_eq!(Size::new(5, 1), screen.size());
    assert_eq!(Ok(()), screen.flush());
}

#[test]
fn unknown_codes_leave_the_style_unchanged_test() {
    let elements = parse_elements("\u{1b}[32ma\u{1b}[99mb\u{1b}[mc\u{1b}[1;31md");
    let green = Styles::normal().with_foreground(Foreground::Green);
    assert_eq!(
        vec![
            Element::new('a', green),
            Element::new('b', green),
            Element::new('c', green),
            Element::new('d', green),
        ],
        elements
    );
    let reset = parse_elements("\u{1b}[44ma\u{1b}[0mb\tskipped mc");
    assert_eq!(
        vec![
            Element::new('a', Styles::normal().with_background(Background::Blue)),
            Element::normal('b'),
            Element::normal('c'),
        ],
        reset
    );
}

#[test]
fn pixel_sequence_from_str_test() {
    let sequence = PixelSequence::from_str("ab\n\u{1b}[7mc");
    let reverse = Styles::normal().with_attribute(Attribute::Reverse);
    assert_eq!(
        vec![
            Pixel::normal('a', 0, 0),
            Pixel::normal('b', 1, 0),
            Pixel::normal('\n', 2, 0),
            Pixel::new(Element::new('c', reverse), 0, 1),
        ],
        sequence
    );
    assert_eq!(0, PixelSequence::from_str("").len());
}

#[test]
fn wrapped_style_is_read_back_test() {
    let styles = [
        Styles::normal().with_foreground(Foreground::LightCyan),
        Styles::normal().with_foreground(Foreground::Black),
        Styles::normal().with_foreground(Foreground::White),
    ];
    for style in styles {
        let text = wrap("x", style);
        let sequence = PixelSequence::from_str(&text);
        assert_eq!(1, sequence.len());
        assert_eq!('x', sequence[0].character());
        assert_eq!(style, sequence[0].styles());
    }
    assert_eq!("\u{1b}[7m\u{1b}[42m\u{1b}[93mhi\u{1b}[0m", wrap(
        "hi",
        Styles::normal()
            .with_attribute(Attribute::Reverse)
            .with_background(Background::Green)
            .with_foreground(Foreground::LightYellow),
    ));
    assert_eq!("\u{1b}[0m\u{1b}[49m\u{1b}[39mz\u{1b}[0m", wrap_char('z', Styles::normal()));
    assert_eq!("z", wrap_pixel(&Pixel::normal('z', 0, 0)));
}

#[test]
fn codes_round_trip_test() {
    let mut known = 0;
    for code in 0..=255u8 {
        if let Some(attribute) = Attribute::from_u8(code) {
            assert_eq!(code, attribute.code());
            assert_eq!(Some(Styles::normal().with_attribute(attribute)), Styles::from_u8(code));
            known += 1;
        } else if let Some(foreground) = Foreground::from_u8(code) {
            assert_eq!(code, foreground.code());
            assert_eq!(Some(Styles::normal().with_foreground(foreground)), Styles::from_u8(code));
            known += 1;
        } else if let Some(background) = Background::from_u8(code) {
            assert_eq!(code, background.code());
            assert_eq!(Some(Styles::normal().with_background(background)), Styles::from_u8(code));
            known += 1;
        } else {
            assert_eq!(None, Styles::from_u8(code));
        }
    }
    assert_eq!(7 + 17 + 17, known);
    assert_eq!(Some(Background::Red), Background::from_str("41"));
    assert_eq!(Some(Styles::normal().with_background(Background::Red)), Styles::from_str("41"));
    assert_eq!(None, Styles::from_str("3"));
    assert_eq!(None, Foreground::from_str("red"));
    assert_eq!(Some(Attribute::Hidden), Attribute::from_str("+8"));
    assert!(Styles::normal().is_normal());
    assert!(!Styles::normal().with_attribute(Attribute::Dim).is_normal());
}

#[test]
fn flush_hands_the_result_of_the_medium_on_test() {
    let screen = Screen::new(Size::new(2, 2), Pixel::placeholder(0, 0), Broken).unwrap();
    assert_eq!(Err(Error::OutputError("cannot write 6 bytes".to_string())), screen.flush());
    assert_eq!("\u{1b}[0;0Habc", terminal_frame("abc"));
}

#[test]
fn pixel_constructors_test() {
    let point = Point::new(3, 4);
    let bold = Styles::normal().with_attribute(Attribute::BoldBright);
    assert_eq!(Pixel::new(Element::new('a', bold), 3, 4), Pixel::with_point_and_styles('a', &point, bold));
    assert_eq!(Pixel::new(Element::new('a', bold), 3, 4), Pixel::with_element_and_point(Element::new('a', bold), &point));
    assert_eq!(Pixel::normal('a', 3, 4), Pixel::normal_with_point('a', &point));
    assert_eq!(Pixel::blank(1, 2), Pixel::placeholder(1, 2));
    assert_eq!(bold, Pixel::with_point_and_styles('a', &point, bold).styles());
    assert_eq!(3, Pixel::normal('a', 3, 4).x());
    assert!(Pixel::placeholder(0, 0).placeholder);
}
