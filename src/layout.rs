use vstd::prelude::*;
use vstd::string::*;

use crate::date::{rows_for, title_of, calendar_title, CalendarFacts};
use crate::text::{decimal, decimal_text};
use crate::theme::Theme;
use crate::ConfigError;

verus! {

/// Where and how a widget is placed on the image.
#[derive(Debug, Clone)]
pub struct Config {
    pub file_in: String,
    /// Left edge, or right margin when `right` is set.
    pub start_x: i32,
    /// Top edge, or bottom margin when `bottom` is set.
    pub start_y: i32,
    /// Font size in pixels for a 1920x1080 image.
    pub font_size: u16,
    pub right: bool,
    pub bottom: bool,
    pub center: bool,
    pub theme: Theme,
    pub file_out: String,
}

/// Pixel area of a 1920x1080 image.
pub open spec fn full_hd_area() -> int {
    2073600
}

/// The squared font size, scaled by the image area relative to a 1920x1080
/// image, rounded down.
pub open spec fn scaled_square(font_size: int, img_width: int, img_height: int) -> int {
    font_size * font_size * img_width * img_height / full_hd_area()
}

/// `r` is the integer square root of `x`.
pub open spec fn is_isqrt(r: int, x: int) -> bool {
    r * r <= x < (r + 1) * (r + 1)
}

/// Integer square root of a value below 2^96.
fn isqrt(x: u128) -> (r: u64)
    requires
        x < 0x1_0000_0000_0000_0000_0000_0000,
    ensures
        is_isqrt(r as int, x as int),
        r < 0x1_0000_0000_0000,
{
    let mut lo: u128 = 0;
    let mut hi: u128 = 0x1_0000_0000_0000;
    assert(hi * hi == 0x1_0000_0000_0000_0000_0000_0000) by (nonlinear_arith)
        requires hi == 0x1_0000_0000_0000;
    while hi - lo > 1
        invariant
            lo < hi <= 0x1_0000_0000_0000,
            lo * lo <= x,
            x < hi * hi,
        decreases hi - lo,
    {
        let mid = lo + (hi - lo) / 2;
        assert(mid * mid <= 0x1_0000_0000_0000 * 0x1_0000_0000_0000) by (nonlinear_arith)
            requires mid <= 0x1_0000_0000_0000;
        if mid * mid <= x {
            lo = mid;
        } else {
            hi = mid;
        }
    }
    lo as u64
}

/// Font size for an image, scaled by the square root of the image's area
/// relative to 1920x1080 and rounded down; an empty image is an error.
pub fn effective_font_size(font_size: u16, img_width: u32, img_height: u32) -> (r: Result<
    u64,
    ConfigError,
>)
    ensures
        (img_width == 0 || img_height == 0) <==> r is Err,
        r is Err ==> r == Err::<u64, ConfigError>(ConfigError::EmptyImage),
        r is Ok ==> is_isqrt(
            r.unwrap() as int,
            scaled_square(font_size as int, img_width as int, img_height as int),
        ),
{
    if img_width == 0 || img_height == 0 {
        return Err(ConfigError::EmptyImage);
    }
    let f = font_size as u128;
    let w = img_width as u128;
    let h = img_height as u128;
    assert(w * h <= 0xffff_ffff * 0xffff_ffff) by (nonlinear_arith)
        requires w <= 0xffff_ffff, h <= 0xffff_ffff;
    let area = w * h;
    assert(f * f <= 0xffff * 0xffff) by (nonlinear_arith)
        requires f <= 0xffff;
    let sq = f * f;
    assert(sq * area <= (0xffff * 0xffff) * (0xffff_ffff * 0xffff_ffff)) by (nonlinear_arith)
        requires sq <= 0xffff * 0xffff, area <= 0xffff_ffff * 0xffff_ffff;
    let x = sq * area / 2073600;
    assert(x as int == scaled_square(font_size as int, img_width as int, img_height as int)) by (nonlinear_arith)
        requires
            sq == f * f,
            area == w * h,
            w == img_width,
            h == img_height,
            f == font_size,
            x == sq * area / 2073600,
    ;
    Ok(isqrt(x))
}

/// Floor of `a / b`.
fn floor_div(a: i128, b: i128) -> (r: i128)
    requires
        0 < b <= 0x1_0000_0000,
        -0x1000_0000_0000_0000_0000_0000_0000_0000 <= a <= 0x1000_0000_0000_0000_0000_0000_0000_0000,
    ensures
        r == a / b,
{
    if a >= 0 {
        a / b
    } else {
        let q = (b - 1 - a) / b;
        proof {
            let qi = q as int;
            let ai = a as int;
            let bi = b as int;
            assert(qi * bi <= bi - 1 - ai < qi * bi + bi) by (nonlinear_arith)
                requires qi == (bi - 1 - ai) / bi, bi > 0;
            assert(-qi * bi <= ai < -qi * bi + bi) by (nonlinear_arith)
                requires qi * bi <= bi - 1 - ai < qi * bi + bi;
            vstd::arithmetic::div_mod::lemma_div_basics(ai);
            vstd::arithmetic::div_mod::lemma_fundamental_div_mod(ai, bi);
            let fq = ai / bi;
            assert(fq * bi <= ai < fq * bi + bi);
            assert(fq == -qi) by (nonlinear_arith)
                requires
                    fq * bi <= ai < fq * bi + bi,
                    -qi * bi <= ai < -qi * bi + bi,
                    bi > 0,
            ;
        }
        -q
    }
}

/// Left edge of a widget: centered, against the right edge with `start_x` as
/// margin, or at `start_x`; centering comes first.
pub open spec fn anchor_x(conf: Config, img_width: int, widget_width: int) -> int {
    if conf.center {
        (img_width - widget_width) / 2
    } else if conf.right {
        img_width - widget_width - conf.start_x
    } else {
        conf.start_x as int
    }
}

/// Top edge of a widget: centered, against the bottom edge with `start_y` as
/// margin, or at `start_y`; centering comes first.
pub open spec fn anchor_y(conf: Config, img_height: int, widget_height: int) -> int {
    if conf.center {
        (img_height - widget_height) / 2
    } else if conf.bottom {
        img_height - widget_height - conf.start_y
    } else {
        conf.start_y as int
    }
}

/// Top-left corner of a widget of the given size on an image of the given size.
pub fn anchor_resolve(
    conf: &Config,
    img_width: u32,
    img_height: u32,
    widget_width: u32,
    widget_height: u64,
) -> (r: (i128, i128))
    ensures
        r.0 == anchor_x(*conf, img_width as int, widget_width as int),
        r.1 == anchor_y(*conf, img_height as int, widget_height as int),
{
    let x = if conf.center {
        floor_div(img_width as i128 - widget_width as i128, 2)
    } else if conf.right {
        img_width as i128 - widget_width as i128 - conf.start_x as i128
    } else {
        conf.start_x as i128
    };
    let y = if conf.center {
        floor_div(img_height as i128 - widget_height as i128, 2)
    } else if conf.bottom {
        img_height as i128 - widget_height as i128 - conf.start_y as i128
    } else {
        conf.start_y as i128
    };
    (x, y)
}

/// A centered widget has equal left and right margins, up to one pixel of
/// rounding on the right.
pub proof fn centering_is_symmetric(conf: Config, img_width: int, widget_width: int)
    requires
        conf.center,
    ensures
        ({
            let x = anchor_x(conf, img_width, widget_width);
            let right_margin = img_width - widget_width - x;
            right_margin == x || right_margin == x + 1
        }),
{
}

/// Font weight of a text run.
#[derive(Debug, Clone, Copy, PartialEq, Eq, Structural)]
pub enum Weight {
    Regular,
    Bold,
}

/// One text run to paint: its text, top-left pixel position, color and weight.
#[derive(Debug, Clone)]
pub struct DrawInstruction {
    pub text: String,
    pub x: i128,
    pub y: i128,
    pub color: [u8; 3],
    pub weight: Weight,
}

/// A draw instruction as mathematical values.
pub struct DrawSpec {
    pub text: Seq<char>,
    pub x: int,
    pub y: int,
    pub color: [u8; 3],
    pub weight: Weight,
}

impl View for DrawInstruction {
    type V = DrawSpec;

    open spec fn view(&self) -> DrawSpec {
        DrawSpec {
            text: self.text@,
            x: self.x as int,
            y: self.y as int,
            color: self.color,
            weight: self.weight,
        }
    }
}

/// Measured sizes, in pixels, of the texts the calendar draws.
#[derive(Debug, Clone)]
pub struct CalendarMetrics {
    /// Width of the weekday header, in the bold face.
    pub week_width: u32,
    /// Width of the title, in the regular face.
    pub title_width: u32,
    pub bold_height: u32,
    pub regular_height: u32,
    /// Width of each day number, day 1 first, in the regular face.
    pub day_widths: Vec<u32>,
}

/// Vertical distance between two lines of a widget.
pub open spec fn line_step(font_size: int) -> int {
    font_size + 10
}

/// The weekday header of the calendar.
pub open spec fn week_days() -> Seq<char> {
    "Mon Tue Wed Thu Fri Sat Sun"@
}

/// Height of the calendar widget: the header and one regular line for the
/// title and for each reserved grid row, each with a gap of 10 pixels.
pub open spec fn calendar_height(facts: CalendarFacts, metrics: CalendarMetrics) -> int {
    let rows = rows_for(facts.first_weekday_offset as int, facts.days_in_month as int);
    metrics.bold_height + (metrics.regular_height + 10) * (rows + 1)
}

/// Left edge of a text of width `slave` centered over a span of width `master`
/// starting at `start`, rounded down.
pub open spec fn centered_in(master: int, slave: int, start: int) -> int {
    start + (master - slave) / 2
}

/// Grid position of a day: its index among the cells, counting the blank
/// leading cells of the first row.
pub open spec fn cell_index(facts: CalendarFacts, day: int) -> int {
    facts.first_weekday_offset - 1 + day - 1
}

/// Left edge of a day number, centered in its cell of width `week_width / 7`,
/// rounded down.
pub open spec fn day_x(start_x: int, week_width: int, column: int, number_width: int) -> int {
    start_x + (week_width * (2 * column + 1) - 7 * number_width) / 14
}

pub open spec fn day_color(theme: Theme, facts: CalendarFacts, day: int) -> [u8; 3] {
    if day == facts.current_day {
        theme.color_highlighted
    } else {
        theme.color_text
    }
}

/// The `i`-th instruction of the calendar: the title, then the header, then
/// each day of the month in order.
pub open spec fn calendar_instruction(
    conf: Config,
    font_size: int,
    img_width: int,
    img_height: int,
    facts: CalendarFacts,
    metrics: CalendarMetrics,
    i: int,
) -> DrawSpec {
    let sx = anchor_x(conf, img_width, metrics.week_width as int);
    let sy = anchor_y(conf, img_height, calendar_height(facts, metrics));
    let step = line_step(font_size);
    if i == 0 {
        DrawSpec {
            text: title_of(facts),
            x: centered_in(metrics.week_width as int, metrics.title_width as int, sx),
            y: sy,
            color: conf.theme.color_highlighted,
            weight: Weight::Regular,
        }
    } else if i == 1 {
        DrawSpec {
            text: week_days(),
            x: sx,
            y: sy + step,
            color: conf.theme.color_headline,
            weight: Weight::Bold,
        }
    } else {
        let day = i - 1;
        let p = cell_index(facts, day);
        DrawSpec {
            text: decimal(day),
            x: day_x(sx, metrics.week_width as int, p % 7, metrics.day_widths@[day - 1] as int),
            y: sy + (p / 7 + 2) * step,
            color: day_color(conf.theme, facts, day),
            weight: Weight::Bold,
        }
    }
}

/// The calendar's draw instructions are exactly `calendar_instruction` for
/// each index: the title, the header, and one per day.
pub open spec fn is_calendar_layout(
    r: Seq<DrawInstruction>,
    conf: Config,
    font_size: int,
    img_width: int,
    img_height: int,
    facts: CalendarFacts,
    metrics: CalendarMetrics,
) -> bool {
    &&& r.len() == facts.days_in_month + 2
    &&& forall|i: int|
        0 <= i < r.len() ==> #[trigger] r[i]@ == calendar_instruction(
            conf,
            font_size,
            img_width,
            img_height,
            facts,
            metrics,
            i,
        )
}

/// Lays out the month calendar: the title centered over the weekday header,
/// the header, then the day numbers in a grid of seven columns from Monday,
/// today in the highlight color.
pub fn layout_calendar(
    conf: &Config,
    font_size: u64,
    img_width: u32,
    img_height: u32,
    facts: &CalendarFacts,
    metrics: &CalendarMetrics,
) -> (r: Vec<DrawInstruction>)
    requires
        facts.has_valid_grid(),
        metrics.day_widths@.len() == facts.days_in_month,
    ensures
        is_calendar_layout(r@, *conf, font_size as int, img_width as int, img_height as int, *facts, *metrics),
{
    let rows = crate::date::rows_in_month(facts.first_weekday_offset, facts.days_in_month);
    let rh = metrics.regular_height as u64 + 10;
    let rc = rows as u64 + 1;
    assert(rh * rc <= 0x1_0000_0010 * 7) by (nonlinear_arith)
        requires rh <= 0x1_0000_0010, rc <= 7;
    let height = metrics.bold_height as u64 + rh * rc;
    assert(height == calendar_height(*facts, *metrics));
    let (sx, sy) = anchor_resolve(conf, img_width, img_height, metrics.week_width, height);
    let step = font_size as i128 + 10;
    let ww = metrics.week_width as i128;
    let mut out: Vec<DrawInstruction> = Vec::new();
    let title_x = sx + floor_div(ww - metrics.title_width as i128, 2);
    out.push(
        DrawInstruction {
            text: calendar_title(facts),
            x: title_x,
            y: sy,
            color: conf.theme.color_highlighted,
            weight: Weight::Regular,
        },
    );
    out.push(
        DrawInstruction {
            text: String::from_str("Mon Tue Wed Thu Fri Sat Sun"),
            x: sx,
            y: sy + step,
            color: conf.theme.color_headline,
            weight: Weight::Bold,
        },
    );
    let mut day: u32 = 1;
    while day <= facts.days_in_month
        invariant
            facts.has_valid_grid(),
            metrics.day_widths@.len() == facts.days_in_month,
            1 <= day <= facts.days_in_month + 1,
            out@.len() == day + 1,
            step == font_size + 10,
            ww == metrics.week_width,
            sx == anchor_x(*conf, img_width as int, metrics.week_width as int),
            sy == anchor_y(*conf, img_height as int, calendar_height(*facts, *metrics)),
            -0x1_0000_0000_0000 <= sx <= 0x1_0000_0000_0000,
            -0x1_0000_0000_0000 <= sy <= 0x1_0000_0000_0000,
            forall|i: int|
                0 <= i < out@.len() ==> #[trigger] out@[i]@ == calendar_instruction(
                    *conf,
                    font_size as int,
                    img_width as int,
                    img_height as int,
                    *facts,
                    *metrics,
                    i,
                ),
        decreases facts.days_in_month + 1 - day,
    {
        let p = facts.first_weekday_offset - 1 + day - 1;
        let row = (p / 7) as i128;
        let col = (p % 7) as i128;
        let nw = metrics.day_widths[(day - 1) as usize] as i128;
        assert(ww * (2 * col + 1) <= 0xffff_ffff * 13) by (nonlinear_arith)
            requires 0 <= ww <= 0xffff_ffff, 0 <= col < 7;
        assert(ww * (2 * col + 1) >= 0) by (nonlinear_arith)
            requires 0 <= ww, 0 <= col;
        let x = sx + floor_div(ww * (2 * col + 1) - 7 * nw, 14);
        assert(row <= 5);
        assert((row + 2) * step <= 7 * 0x1_0000_0000_0000_0010) by (nonlinear_arith)
            requires 0 <= row <= 5, 0 <= step <= 0x1_0000_0000_0000_0010;
        assert((row + 2) * step >= 0) by (nonlinear_arith)
            requires 0 <= row, 0 <= step;
        let y = sy + (row + 2) * step;
        let color = if day == facts.current_day {
            conf.theme.color_highlighted
        } else {
            conf.theme.color_text
        };
        let ins = DrawInstruction {
            text: decimal_text(day as i64),
            x,
            y,
            color,
            weight: Weight::Bold,
        };
        assert(ins@ == calendar_instruction(
            *conf,
            font_size as int,
            img_width as int,
            img_height as int,
            *facts,
            *metrics,
            day + 1,
        ));
        out.push(ins);
        day = day + 1;
    }
    out
}

/// Laying out the calendar twice on the same inputs gives the same
/// instructions, one for one.
pub proof fn calendar_layout_is_idempotent(
    first: Seq<DrawInstruction>,
    second: Seq<DrawInstruction>,
    conf: Config,
    font_size: int,
    img_width: int,
    img_height: int,
    facts: CalendarFacts,
    metrics: CalendarMetrics,
)
    requires
        is_calendar_layout(first, conf, font_size, img_width, img_height, facts, metrics),
        is_calendar_layout(second, conf, font_size, img_width, img_height, facts, metrics),
    ensures
        first.len() == second.len(),
        forall|i: int| 0 <= i < first.len() ==> #[trigger] first[i]@ == second[i]@,
{
    assert forall|i: int| 0 <= i < first.len() implies #[trigger] first[i]@ == second[i]@ by {
        assert(first[i]@ == calendar_instruction(conf, font_size, img_width, img_height, facts, metrics, i));
        assert(second[i]@ == calendar_instruction(conf, font_size, img_width, img_height, facts, metrics, i));
    }
}

/// In the calendar grid, today's day number is the only one in the highlight
/// color; every other day is in the text color.
pub proof fn only_today_is_highlighted(
    r: Seq<DrawInstruction>,
    conf: Config,
    font_size: int,
    img_width: int,
    img_height: int,
    facts: CalendarFacts,
    metrics: CalendarMetrics,
    day: int,
)
    requires
        is_calendar_layout(r, conf, font_size, img_width, img_height, facts, metrics),
        conf.theme.color_text != conf.theme.color_highlighted,
        1 <= day <= facts.days_in_month,
    ensures
        r[day + 1]@.text == decimal(day),
        r[day + 1]@.color == conf.theme.color_highlighted <==> day == facts.current_day,
        day != facts.current_day ==> r[day + 1]@.color == conf.theme.color_text,
{
    assert(r[day + 1]@ == calendar_instruction(conf, font_size, img_width, img_height, facts, metrics, day + 1));
}

/// The widest of a list of widths, 0 for none.
pub open spec fn max_width(widths: Seq<u32>) -> int
    decreases widths.len(),
{
    if widths.len() == 0 {
        0
    } else {
        let m = max_width(widths.drop_last());
        if widths.last() > m {
            widths.last() as int
        } else {
            m
        }
    }
}

/// The `i`-th line of a status widget: left-aligned, one line step below the
/// previous, in the text color.
pub open spec fn status_instruction(
    conf: Config,
    font_size: int,
    img_width: int,
    img_height: int,
    lines: Seq<String>,
    widths: Seq<u32>,
    weight: Weight,
    i: int,
) -> DrawSpec {
    let step = line_step(font_size);
    let sx = anchor_x(conf, img_width, max_width(widths));
    let sy = anchor_y(conf, img_height, lines.len() * step);
    DrawSpec { text: lines[i]@, x: sx, y: sy + i * step, color: conf.theme.color_text, weight }
}

/// The status widget's draw instructions are exactly `status_instruction`
/// for each line.
pub open spec fn is_status_layout(
    r: Seq<DrawInstruction>,
    conf: Config,
    font_size: int,
    img_width: int,
    img_height: int,
    lines: Seq<String>,
    widths: Seq<u32>,
    weight: Weight,
) -> bool {
    &&& r.len() == lines.len()
    &&& forall|i: int|
        0 <= i < r.len() ==> #[trigger] r[i]@ == status_instruction(
            conf,
            font_size,
            img_width,
            img_height,
            lines,
            widths,
            weight,
            i,
        )
}

/// Lays out a status widget: the lines stacked one line step apart, as wide as
/// the widest line and one line step high per line.
pub fn layout_status(
    conf: &Config,
    font_size: u64,
    img_width: u32,
    img_height: u32,
    lines: &Vec<String>,
    widths: &Vec<u32>,
    weight: Weight,
) -> (r: Vec<DrawInstruction>)
    requires
        widths@.len() == lines@.len(),
        lines@.len() * (font_size + 10) <= u64::MAX,
    ensures
        is_status_layout(r@, *conf, font_size as int, img_width as int, img_height as int, lines@, widths@, weight),
{
    let n = lines.len();
    let mut widest: u32 = 0;
    let mut k: usize = 0;
    while k < n
        invariant
            n == widths@.len(),
            k <= n,
            widest == max_width(widths@.subrange(0, k as int)),
        decreases n - k,
    {
        assert(widths@.subrange(0, k + 1).drop_last() == widths@.subrange(0, k as int));
        if widths[k] > widest {
            widest = widths[k];
        }
        k = k + 1;
    }
    assert(widths@.subrange(0, n as int) == widths@);
    let step = font_size as i128 + 10;
    assert((n as int) * (font_size + 10) <= u64::MAX);
    let stepu = font_size as u128 + 10;
    assert((n as u128) * stepu <= u64::MAX);
    let height = ((n as u128) * stepu) as u64;
    let (sx, sy) = anchor_resolve(conf, img_width, img_height, widest, height);
    let mut out: Vec<DrawInstruction> = Vec::new();
    let mut i: usize = 0;
    while i < n
        invariant
            n == lines@.len(),
            n == widths@.len(),
            i <= n,
            out@.len() == i,
            step == font_size + 10,
            (n as int) * step <= u64::MAX,
            sx == anchor_x(*conf, img_width as int, max_width(widths@)),
            sy == anchor_y(*conf, img_height as int, (n as int) * step),
            -0x4_0000_0000_0000_0000 <= sy <= 0x4_0000_0000_0000_0000,
            forall|j: int|
                0 <= j < out@.len() ==> #[trigger] out@[j]@ == status_instruction(
                    *conf,
                    font_size as int,
                    img_width as int,
                    img_height as int,
                    lines@,
                    widths@,
                    weight,
                    j,
                ),
        decreases n - i,
    {
        assert((i as int) * step <= (n as int) * step) by (nonlinear_arith)
            requires i <= n, step >= 0;
        assert((i as int) * step >= 0) by (nonlinear_arith)
            requires i >= 0, step >= 0;
        let ins = DrawInstruction {
            text: lines[i].clone(),
            x: sx,
            y: sy + (i as i128) * step,
            color: conf.theme.color_text,
            weight,
        };
        out.push(ins);
        i = i + 1;
    }
    out
}

/// A widget with its content: the month calendar, or lines of status text
/// (network or disk) with their measured widths.
pub enum Widget {
    Calendar { facts: CalendarFacts, metrics: CalendarMetrics },
    Status { lines: Vec<String>, widths: Vec<u32>, weight: Weight },
}

impl Widget {
    /// The content can be laid out on an image at the given font size.
    pub open spec fn fits(&self, font_size: int) -> bool {
        match *self {
            Widget::Calendar { facts, metrics } => {
                &&& facts.has_valid_grid()
                &&& metrics.day_widths@.len() == facts.days_in_month
            },
            Widget::Status { lines, widths, weight } => {
                &&& widths@.len() == lines@.len()
                &&& lines@.len() * (font_size + 10) <= u64::MAX
            },
        }
    }
}

/// Lays out any widget on an image: placement and line spacing are shared, the
/// content decides the rest.
pub fn layout_widget(
    conf: &Config,
    font_size: u64,
    img_width: u32,
    img_height: u32,
    widget: &Widget,
) -> (r: Vec<DrawInstruction>)
    requires
        widget.fits(font_size as int),
    ensures
        match *widget {
            Widget::Calendar { facts, metrics } => is_calendar_layout(
                r@,
                *conf,
                font_size as int,
                img_width as int,
                img_height as int,
                facts,
                metrics,
            ),
            Widget::Status { lines, widths, weight } => is_status_layout(
                r@,
                *conf,
                font_size as int,
                img_width as int,
                img_height as int,
                lines@,
                widths@,
                weight,
            ),
        },
{
    match widget {
        Widget::Calendar { facts, metrics } => layout_calendar(
            conf,
            font_size,
            img_width,
            img_height,
            facts,
            metrics,
        ),
        Widget::Status { lines, widths, weight } => layout_status(
            conf,
            font_size,
            img_width,
            img_height,
            lines,
            widths,
            *weight,
        ),
    }
}

} // verus!
