//! Layout geometry and the range calculator.
use vstd::prelude::*;

verus! {

/// Number of three-hour samples that make up one day.
pub const SLOTS_PER_DAY: usize = 8;

/// Degrees added below the minimum and above the maximum of the plotted range.
pub const MARGIN: i32 = 5;

/// Largest magnitude accepted for a temperature in whole degrees.
pub const MAX_DEGREES: i32 = 10000;

/// Largest magnitude accepted for a configured pixel quantity.
pub const MAX_PIXELS: i32 = 10000;

/// Largest combined slot index `day * 8 + slot` accepted by `pos_x`.
pub const MAX_SLOT_INDEX: usize = 10000;

/// Largest magnitude of a coordinate that `pos_x` or `pos_y` returns.
pub const MAX_COORD: i32 = 400000000;

/// Largest magnitude of a `Range` offset that `Range::new` can produce.
pub const MAX_OFFSET: i32 = 200000000;

/// Layout parameters of one physical display. Exactly one such value is in
/// use per display; all pixel quantities are relative to the canvas.
#[derive(Clone, Copy, Debug, PartialEq, Eq, Structural)]
pub struct LayoutConfig {
    /// Vertical pixel budget of the temperature graph.
    pub graph_height: i32,
    /// Horizontal pixels per three-hour slot.
    pub horizontal_multiplier: i32,
    /// Horizontal anchor of the curve and the gridlines.
    pub x_anchor: i32,
    /// Distance of the graph's bottom edge from the bottom of the canvas.
    pub y_anchor: i32,
    /// Lowest candidate gridline value, in whole degrees.
    pub gridline_low: i32,
    /// Highest candidate gridline value, in whole degrees.
    pub gridline_high: i32,
    /// Distance between candidate gridline values, in whole degrees.
    pub gridline_step: i32,
    /// Horizontal nudge of a day's icon from its mid-day slot.
    pub icon_dx: i32,
    /// Vertical position of a day's icon, relative to the canvas bottom.
    pub icon_dy: i32,
    /// Horizontal nudge of a day's min/max text from its mid-day slot.
    pub label_dx: i32,
    /// Vertical position of a day's min/max text, relative to the canvas bottom.
    pub label_dy: i32,
    /// Vertical position of a day's weekday name, relative to the canvas
    /// bottom; `None` where the display shows no weekday.
    pub weekday_dy: Option<i32>,
    /// Whether the temperature curve goes to the chromatic plane.
    pub curve_on_chromatic: bool,
}

pub open spec fn pixel_ok(v: int) -> bool {
    -MAX_PIXELS <= v <= MAX_PIXELS
}

pub open spec fn degrees_ok(v: int) -> bool {
    -MAX_DEGREES <= v <= MAX_DEGREES
}

impl LayoutConfig {
    /// Every quantity is within the bounds that keep the layout arithmetic exact.
    pub open spec fn wf(&self) -> bool {
        &&& 1 <= self.graph_height <= MAX_PIXELS
        &&& 1 <= self.horizontal_multiplier <= MAX_PIXELS
        &&& pixel_ok(self.x_anchor as int)
        &&& pixel_ok(self.y_anchor as int)
        &&& degrees_ok(self.gridline_low as int)
        &&& degrees_ok(self.gridline_high as int)
        &&& self.gridline_low <= self.gridline_high
        &&& 1 <= self.gridline_step <= MAX_DEGREES
        &&& pixel_ok(self.icon_dx as int)
        &&& pixel_ok(self.icon_dy as int)
        &&& pixel_ok(self.label_dx as int)
        &&& pixel_ok(self.label_dy as int)
        &&& (self.weekday_dy matches Some(d) ==> pixel_ok(d as int))
    }

    /// Layout of the 4.2 inch black and white panel.
    pub fn epd4in2() -> (r: LayoutConfig)
        ensures
            r.wf(),
            r.graph_height == 120,
            r.horizontal_multiplier == 10,
            r.x_anchor == 35,
            r.y_anchor == 25,
            r.gridline_low == -30 && r.gridline_high == 50 && r.gridline_step == 10,
            r.icon_dx == -30 && r.icon_dy == -30,
            r.label_dx == 0 && r.label_dy == -20,
            r.weekday_dy is None,
            !r.curve_on_chromatic,
    {
        LayoutConfig {
            graph_height: 120,
            horizontal_multiplier: 10,
            x_anchor: 35,
            y_anchor: 25,
            gridline_low: -30,
            gridline_high: 50,
            gridline_step: 10,
            icon_dx: -30,
            icon_dy: -30,
            label_dx: 0,
            label_dy: -20,
            weekday_dy: None,
            curve_on_chromatic: false,
        }
    }

    /// Layout of the 7.5 inch panel with a black and a chromatic plane.
    pub fn epd7in5bc() -> (r: LayoutConfig)
        ensures
            r.wf(),
            r.graph_height == 160,
            r.horizontal_multiplier == 20,
            r.x_anchor == 35,
            r.y_anchor == 80,
            r.gridline_low == -20 && r.gridline_high == 40 && r.gridline_step == 10,
            r.icon_dx == -50 && r.icon_dy == -60,
            r.label_dx == 15 && r.label_dy == -40,
            r.weekday_dy == Some(-70i32),
            r.curve_on_chromatic,
    {
        LayoutConfig {
            graph_height: 160,
            horizontal_multiplier: 20,
            x_anchor: 35,
            y_anchor: 80,
            gridline_low: -20,
            gridline_high: 40,
            gridline_step: 10,
            icon_dx: -50,
            icon_dy: -60,
            label_dx: 15,
            label_dy: -40,
            weekday_dy: Some(-70),
            curve_on_chromatic: true,
        }
    }
}

/// The graph height budget of a display.
pub fn tmp_graph_height(config: &LayoutConfig) -> (r: i32)
    ensures
        r == config.graph_height,
{
    config.graph_height
}

/// `scale` as a mathematical function: the graph height divided by the padded
/// temperature span, clamped to at least one pixel per degree.
pub open spec fn scale_spec(min: int, max: int, graph_height: int) -> int {
    let span = (max + MARGIN) - (min - MARGIN);
    if span <= 0 {
        1
    } else if graph_height / span <= 1 {
        1
    } else {
        graph_height / span
    }
}

/// Vertical pixels per degree for a plotted range `[min, max]` (whole degrees)
/// and a graph height budget. Inverted or degenerate ranges give 1.
pub fn scale(min: i32, max: i32, graph_height: i32) -> (r: i32)
    requires
        1 <= graph_height <= MAX_PIXELS,
    ensures
        r == scale_spec(min as int, max as int, graph_height as int),
        1 <= r <= graph_height,
{
    let span: i64 = (max as i64 + MARGIN as i64) - (min as i64 - MARGIN as i64);
    if span <= 0 {
        1
    } else {
        let q: i64 = graph_height as i64 / span;
        assert(q <= graph_height) by (nonlinear_arith)
            requires
                span >= 1,
                graph_height >= 1,
                q == graph_height as int / span as int,
        ;
        if q <= 1 {
            1
        } else {
            q as i32
        }
    }
}

/// Horizontal position of a slot: its index over the whole horizon times the
/// display's multiplier.
pub open spec fn pos_x_spec(mul: int, day: int, slot: int) -> int {
    (day * SLOTS_PER_DAY + slot) * mul
}

/// Horizontal pixel position of three-hour slot `slot` of day `day`.
pub fn pos_x(config: &LayoutConfig, day: usize, slot: usize) -> (r: i32)
    requires
        config.wf(),
        day * SLOTS_PER_DAY + slot <= MAX_SLOT_INDEX,
    ensures
        r == pos_x_spec(config.horizontal_multiplier as int, day as int, slot as int),
        0 <= r <= MAX_COORD,
{
    let index: usize = day * SLOTS_PER_DAY + slot;
    let mul: i32 = config.horizontal_multiplier;
    assert(index as int * mul as int <= MAX_SLOT_INDEX as int * MAX_PIXELS as int)
        by (nonlinear_arith)
        requires
            0 <= index <= MAX_SLOT_INDEX,
            1 <= mul <= MAX_PIXELS,
    ;
    index as i32 * mul
}

/// Scale and offset that map a temperature to a vertical pixel coordinate.
#[derive(Clone, Copy, Debug, PartialEq, Eq, Structural)]
pub struct Range {
    /// Pixels per degree, at least one.
    pub scale: i32,
    /// Pixel bias: the base offset plus a correction for negative minima.
    pub offset: i32,
}

/// The offset of the range built from `min`: the base offset, shifted by the
/// padded minimum times the scale when the minimum is below zero.
pub open spec fn offset_spec(min: int, base: int, scale: int) -> int {
    base + if min < 0 {
        (MARGIN - min) * scale
    } else {
        0
    }
}

/// A temperature in centidegrees rounded to whole degrees, halves away from zero.
pub open spec fn round_degrees(t: int) -> int {
    if t >= 0 {
        (t + 50) / 100
    } else {
        -((50 - t) / 100)
    }
}

/// Vertical position of a temperature: higher temperatures are more negative.
pub open spec fn pos_y_spec(r: Range, t: int) -> int {
    -(round_degrees(t) * r.scale) - r.offset
}

/// Largest magnitude accepted for a temperature in centidegrees.
pub open spec fn centi_ok(t: int) -> bool {
    -MAX_DEGREES * 100 <= t <= MAX_DEGREES * 100
}

impl Range {
    pub open spec fn wf(&self) -> bool {
        &&& 1 <= self.scale <= MAX_PIXELS
        &&& -MAX_OFFSET <= self.offset <= MAX_OFFSET
    }

    /// The range for plotting whole-degree temperatures between `min` and
    /// `max` in a graph `graph_height` pixels high.
    pub fn new(min: i32, max: i32, basic_offset: Option<i32>, graph_height: i32) -> (r: Range)
        requires
            degrees_ok(min as int),
            basic_offset matches Some(b) ==> pixel_ok(b as int),
            1 <= graph_height <= MAX_PIXELS,
        ensures
            r.wf(),
            r.scale == scale_spec(min as int, max as int, graph_height as int),
            r.offset == offset_spec(
                min as int,
                match basic_offset {
                    Some(b) => b as int,
                    None => 0,
                },
                r.scale as int,
            ),
    {
        let scale = scale(min, max, graph_height);
        let base: i32 = match basic_offset {
            Some(b) => b,
            None => 0,
        };
        let shift: i32 = if min < 0 {
            let padded: i32 = MARGIN - min;
            assert(padded as int * scale as int <= (MAX_DEGREES + MARGIN) as int * MAX_PIXELS as int)
                by (nonlinear_arith)
                requires
                    0 <= padded <= MAX_DEGREES + MARGIN,
                    1 <= scale <= MAX_PIXELS,
            ;
            padded * scale
        } else {
            0
        };
        Range { scale, offset: base + shift }
    }

    /// Vertical pixel coordinate of a temperature given in centidegrees,
    /// before the caller's vertical anchor is added.
    pub fn pos_y(&self, temp: i32) -> (r: i32)
        requires
            self.wf(),
            centi_ok(temp as int),
        ensures
            r == pos_y_spec(*self, temp as int),
            -MAX_COORD <= r <= MAX_COORD,
    {
        let degrees: i32 = if temp >= 0 {
            (temp + 50) / 100
        } else {
            -((50 - temp) / 100)
        };
        assert(-MAX_DEGREES - 1 <= degrees <= MAX_DEGREES + 1);
        let s: i32 = self.scale;
        assert(-(MAX_DEGREES + 1) * MAX_PIXELS <= degrees as int * s as int <= (MAX_DEGREES + 1)
            * MAX_PIXELS) by (nonlinear_arith)
            requires
                -MAX_DEGREES - 1 <= degrees <= MAX_DEGREES + 1,
                1 <= s <= MAX_PIXELS,
        ;
        -(degrees * s) - self.offset
    }
}

/// `x` is a candidate gridline value of the display (within its gridline
/// range, on its step) and lies in the padded plotted range `[min, max]`.
pub open spec fn is_gridline(config: LayoutConfig, min: int, max: int, x: int) -> bool {
    &&& config.gridline_low <= x <= config.gridline_high
    &&& (x - config.gridline_low) % (config.gridline_step as int) == 0
    &&& min - MARGIN <= x <= max + MARGIN
}

/// The gridline values, in whole degrees, for a plotted range `[min, max]`:
/// exactly the candidates of the display that lie in the padded range, in
/// increasing order.
pub fn gridlines(config: &LayoutConfig, min: i32, max: i32) -> (r: Vec<i32>)
    requires
        config.wf(),
        degrees_ok(min as int),
        degrees_ok(max as int),
    ensures
        forall|i: int| 0 <= i < r.len() ==> is_gridline(*config, min as int, max as int, #[trigger] r[i] as int),
        forall|i: int, j: int| 0 <= i < j < r.len() ==> r[i] < r[j],
        forall|x: int| is_gridline(*config, min as int, max as int, x) ==> r@.contains(x as i32),
{
    let low: i32 = config.gridline_low;
    let high: i32 = config.gridline_high;
    let step: i32 = config.gridline_step;
    let lo: i32 = min - MARGIN;
    let hi: i32 = max + MARGIN;
    let mut r: Vec<i32> = Vec::new();
    let mut x: i32 = low;
    let ghost mut k: int = 0;
    while x <= high
        invariant
            config.wf(),
            low == config.gridline_low,
            high == config.gridline_high,
            step == config.gridline_step,
            1 <= step <= MAX_DEGREES,
            lo == min - MARGIN,
            hi == max + MARGIN,
            k >= 0,
            x == low + k * step,
            low <= x,
            x <= high + step,
            forall|i: int| 0 <= i < r.len() ==> is_gridline(*config, min as int, max as int, #[trigger] r[i] as int),
            forall|i: int| 0 <= i < r.len() ==> #[trigger] r[i] < x,
            forall|i: int, j: int| 0 <= i < j < r.len() ==> r[i] < r[j],
            forall|y: int| #[trigger] is_gridline(*config, min as int, max as int, y) && y < x ==> r@.contains(y as i32),
        decreases high + step - x,
    {
        proof {
            assert((x - low) % (step as int) == 0) by {
                vstd::arithmetic::div_mod::lemma_mod_multiples_basic(k, step as int);
            }
        }
        let ghost before = r@;
        if lo <= x && x <= hi {
            r.push(x);
            proof {
                assert(r@.last() == x);
                assert forall|y: int| #[trigger] is_gridline(*config, min as int, max as int, y) && y < x implies r@.contains(y as i32) by {
                    {
                        assert(before.contains(y as i32));
                        let t = choose|t: int| 0 <= t < before.len() && before[t] == y as i32;
                        assert(r@[t] == y as i32);
                    }
                }
            }
        }
        proof {
            assert forall|y: int| #[trigger] is_gridline(*config, min as int, max as int, y) && y < x + step implies r@.contains(y as i32) by {
                if y >= x {
                    let q = (y - low) / (step as int);
                    vstd::arithmetic::div_mod::lemma_fundamental_div_mod(y - low, step as int);
                    assert(y - low == step * q);
                    assert(y == x) by (nonlinear_arith)
                        requires
                            step >= 1,
                            y - low == step * q,
                            x - low == k * step,
                            x <= y < x + step,
                    ;
                    assert(r@[r.len() - 1] == x);
                }
            }
        }
        proof {
            assert(low + (k + 1) * step == x + step) by (nonlinear_arith)
                requires
                    x == low + k * step,
            ;
            k = k + 1;
        }
        x = x + step;
    }
    r
}

/// The scale of a range is never below one pixel per degree.
pub proof fn lemma_scale_at_least_one(min: int, max: int, graph_height: int)
    requires
        min <= max,
    ensures
        scale_spec(min, max, graph_height) >= 1,
{
}

/// A higher temperature is never plotted lower than a colder one: `pos_y`
/// does not increase with the temperature.
pub proof fn lemma_pos_y_non_increasing(r: Range, t1: int, t2: int)
    requires
        r.wf(),
        t1 <= t2,
    ensures
        pos_y_spec(r, t2) <= pos_y_spec(r, t1),
{
    let d1 = round_degrees(t1);
    let d2 = round_degrees(t2);
    assert(d1 <= d2);
    let s = r.scale as int;
    assert(d1 * s <= d2 * s) by (nonlinear_arith)
        requires
            d1 <= d2,
            s >= 1,
    ;
}

/// `pos_x` is strictly increasing in the combined slot index `day * 8 + slot`,
/// and two positions with the same combined index coincide.
pub proof fn lemma_pos_x_strictly_increasing(
    config: LayoutConfig,
    day1: int,
    slot1: int,
    day2: int,
    slot2: int,
)
    requires
        config.wf(),
    ensures
        day1 * SLOTS_PER_DAY + slot1 < day2 * SLOTS_PER_DAY + slot2 ==> pos_x_spec(
            config.horizontal_multiplier as int,
            day1,
            slot1,
        ) < pos_x_spec(config.horizontal_multiplier as int, day2, slot2),
        day1 * SLOTS_PER_DAY + slot1 == day2 * SLOTS_PER_DAY + slot2 ==> pos_x_spec(
            config.horizontal_multiplier as int,
            day1,
            slot1,
        ) == pos_x_spec(config.horizontal_multiplier as int, day2, slot2),
{
    let m = config.horizontal_multiplier as int;
    let i1 = day1 * SLOTS_PER_DAY + slot1;
    let i2 = day2 * SLOTS_PER_DAY + slot2;
    if i1 < i2 {
        assert(i1 * m < i2 * m) by (nonlinear_arith)
            requires
                i1 < i2,
                m >= 1,
        ;
    }
}

} // verus!
