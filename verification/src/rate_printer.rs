//! The pieces of the rate display that are computed from plain values.

use vstd::prelude::*;
use vstd::string::StringExecFns;
use vstd::string::StrSliceExecFns;
use crate::matrix::PointTrait;
use crate::text::push_char;
use crate::ui::pixel_sequence::parse_elements;
use crate::ui::pixel_sequence::parsed;
use crate::util::left_padded;
use crate::util::str_left_pad;
use crate::term_style::bg_red;
use crate::term_style::dark_gray;
use crate::term_style::green;
use crate::term_style::red;
use crate::term_style::BG_DEFAULT_BACKGROUND;
use crate::term_style::BG_RED;
use crate::term_style::DARK_GRAY;
use crate::term_style::DEFAULT_FOREGROUND;
use crate::term_style::GREEN;
use crate::term_style::RED;
use crate::ui::style_code::wrap_spec;

verus! {

/// The sign of a trend: -1 falling, 1 rising, 0 unchanged, anything else
/// unknown.
pub open spec fn spec_trend_sign(trend: i8, colors: bool) -> Seq<char> {
    if colors {
        if trend == -1 {
            wrap_spec(seq!['\u{25bc}'], RED, DEFAULT_FOREGROUND)
        } else if trend == 1 {
            wrap_spec(seq!['\u{25b2}'], GREEN, DEFAULT_FOREGROUND)
        } else {
            seq![' ']
        }
    } else {
        if trend == -1 {
            seq!['\u{25bc}']
        } else if trend == 1 {
            seq!['\u{25b2}']
        } else if trend == 0 {
            seq![' ']
        } else {
            seq!['x']
        }
    }
}

/// The sign that shows a trend, in colour or plain.
pub fn get_trend_sign(trend: i8, colors: bool) -> (r: String)
    ensures
        r@ == spec_trend_sign(trend, colors),
{
    proof {
        reveal_strlit("\u{25bc}");
        reveal_strlit("\u{25b2}");
        reveal_strlit(" ");
        reveal_strlit("x");
        assert("\u{25bc}"@ =~= seq!['\u{25bc}']);
        assert("\u{25b2}"@ =~= seq!['\u{25b2}']);
        assert(" "@ =~= seq![' ']);
        assert("x"@ =~= seq!['x']);
    }
    if colors {
        if trend == -1 {
            red("\u{25bc}")
        } else if trend == 1 {
            green("\u{25b2}")
        } else {
            String::from_str(" ")
        }
    } else {
        if trend == -1 {
            String::from_str("\u{25bc}")
        } else if trend == 1 {
            String::from_str("\u{25b2}")
        } else if trend == 0 {
            String::from_str(" ")
        } else {
            String::from_str("x")
        }
    }
}

/// The text of a cell with a point, coloured by the trend: red for falling,
/// green for rising, dark gray for unchanged, on red where it is unknown.
pub open spec fn spec_trend_fill(trend: i8, fill: Seq<char>) -> Seq<char> {
    if trend == -1 {
        wrap_spec(fill, RED, DEFAULT_FOREGROUND)
    } else if trend == 1 {
        wrap_spec(fill, GREEN, DEFAULT_FOREGROUND)
    } else if trend == 0 {
        wrap_spec(fill, DARK_GRAY, DEFAULT_FOREGROUND)
    } else {
        wrap_spec(fill, BG_RED, BG_DEFAULT_BACKGROUND)
    }
}

/// The text of a cell with a point, coloured by the trend.
pub fn trend_fill(trend: i8, fill: &str) -> (r: String)
    ensures
        r@ == spec_trend_fill(trend, fill@),
{
    if trend == -1 {
        red(fill)
    } else if trend == 1 {
        green(fill)
    } else if trend == 0 {
        dark_gray(fill)
    } else {
        bg_red(fill)
    }
}

/// The values of a series as points: the value at place `k` is moved to
/// column `k`.
pub fn build_points_from_time_series<T: PointTrait>(data: &Vec<T>) -> (r: Vec<T>)
    requires
        data@.len() <= u16::MAX + 1,
    ensures
        r@.len() == data@.len(),
        forall|k: int|
            0 <= k < r@.len() ==> #[trigger] r@[k] == data@[k].spec_with_x_y(
                k as u16,
                data@[k].spec_y(),
            ),
{
    let mut points: Vec<T> = Vec::new();
    let mut index: usize = 0;
    while index < data.len()
        invariant
            index <= data.len(),
            data@.len() <= u16::MAX + 1,
            points@.len() == index,
            forall|k: int|
                0 <= k < index ==> #[trigger] points@[k] == data@[k].spec_with_x_y(
                    k as u16,
                    data@[k].spec_y(),
                ),
        decreases data.len() - index,
    {
        points.push(data[index].with_x(index as u16));
        index += 1;
    }
    points
}

/// How many values the series of a chart keeps: the given number, or the
/// width that the chart has for its points; `None` where that is zero.
pub fn history_size(chart_width: u16, y_scala_width: u16, given: Option<usize>) -> (r: Option<
    usize,
>)
    ensures
        r == match given {
            Some(size) => if size > 0 {
                Some(size)
            } else {
                None::<usize>
            },
            None => if chart_width <= y_scala_width {
                None::<usize>
            } else {
                Some((chart_width - y_scala_width) as usize)
            },
        },
{
    match given {
        Some(size) => if size > 0 {
            Some(size)
        } else {
            None
        },
        None => if chart_width <= y_scala_width {
            None
        } else {
            Some((chart_width - y_scala_width) as usize)
        },
    }
}

/// The footer under a chart that is `chart_width` wide. It starts with the
/// first three columns, separated by spaces. The fourth column follows
/// where the space left of the width, counted in shown characters, holds
/// it. The name of the source in brackets closes the line, moved to the
/// right edge, where the space that is then left holds it.
pub open spec fn spec_footer(
    col_1: Seq<char>,
    col_2: Seq<char>,
    col_3: Seq<char>,
    col_4: Seq<char>,
    provider_name: Seq<char>,
    chart_width: u16,
) -> Seq<char> {
    let base = col_1 + seq![' '] + col_2 + seq![' '] + col_3;
    let space_left = chart_width - parsed(base).len();
    let with_value = if space_left >= col_4.len() {
        base + col_4
    } else {
        base
    };
    let rest = space_left - 1 - col_4.len();
    let col_5 = seq!['['] + provider_name + seq![']'];
    if rest >= col_5.len() {
        with_value + left_padded(col_5, rest, ' ')
    } else {
        with_value
    }
}

/// Puts the columns of the footer together.
pub fn compose_footer(
    col_1: &str,
    col_2: &str,
    col_3: &str,
    col_4: &str,
    provider_name: &str,
    chart_width: u16,
) -> (r: String)
    ensures
        r@ == spec_footer(col_1@, col_2@, col_3@, col_4@, provider_name@, chart_width),
{
    let mut footer = String::new();
    footer.append(col_1);
    push_char(&mut footer, ' ');
    footer.append(col_2);
    push_char(&mut footer, ' ');
    footer.append(col_3);
    let ghost base = footer@;
    proof {
        assert(base =~= col_1@ + seq![' '] + col_2@ + seq![' '] + col_3@);
    }
    let shown: usize = parse_elements(footer.as_str()).len();
    let value_length: usize = col_4.unicode_len();
    let space_left: i128 = chart_width as i128 - shown as i128;
    if space_left >= value_length as i128 {
        footer.append(col_4);
    }
    let rest: i128 = space_left - 1 - value_length as i128;
    let mut col_5 = String::new();
    push_char(&mut col_5, '[');
    col_5.append(provider_name);
    push_char(&mut col_5, ']');
    proof {
        assert(col_5@ =~= seq!['['] + provider_name@ + seq![']']);
    }
    if rest >= col_5.as_str().unicode_len() as i128 {
        let padded = str_left_pad(col_5.as_str(), rest as usize, ' ');
        footer.append(padded.as_str());
    }
    footer
}

} // verus!
