//! The graph renderer and the per-day annotator: everything that the panel
//! draws for a forecast, as positioned elements for a drawing surface.
use vstd::prelude::*;
use crate::forecast::{
    aggregate_forecast, chunk, day_count, global_bounds, global_high, global_low, min_int,
    summarizes, temps_of, trunc_degrees,
    whole_degrees, DaySummary, Forecast, Sample, MAX_DAYS,
};
use crate::icons::{icon_of, icon_result, weather_icon, Icon, IconError};
use crate::layout::{
    centi_ok, gridlines, is_gridline, offset_spec, pos_x, pos_x_spec, pos_y_spec, scale_spec,
    LayoutConfig, Range, MAX_PIXELS, SLOTS_PER_DAY,
};

verus! {

/// Slot of a day whose position places that day's icon and text.
pub const MID_DAY_SLOT: usize = 4;

/// Size of the drawing surface in pixels.
#[derive(Clone, Copy, Debug, PartialEq, Eq, Structural)]
pub struct Canvas {
    pub width: i32,
    pub height: i32,
}

impl Canvas {
    pub open spec fn wf(&self) -> bool {
        0 <= self.width <= MAX_PIXELS && 0 <= self.height <= MAX_PIXELS
    }
}

/// Which plane of the display an element goes to.
#[derive(Clone, Copy, Debug, PartialEq, Eq, Structural)]
pub enum Plane {
    Black,
    Chromatic,
}

/// A line, or a rectangle by two opposite corners.
#[derive(Clone, Copy, Debug, PartialEq, Eq, Structural)]
pub struct Segment {
    pub x0: i32,
    pub y0: i32,
    pub x1: i32,
    pub y1: i32,
}

/// What is drawn for one day: its icon, its min/max text and its weekday.
#[derive(Clone, Copy, Debug)]
pub struct DayBlock {
    /// The icon of the day's condition, or why there is none.
    pub icon: Result<Icon, IconError>,
    pub icon_x: i32,
    pub icon_y: i32,
    /// Position of the min/max text.
    pub label_x: i32,
    pub label_y: i32,
    /// The day's extremes, in centidegrees.
    pub min: i32,
    pub max: i32,
    /// Weekday of the day, Monday being 0.
    pub weekday: u8,
    /// Position of the weekday name, on the chromatic plane; `None` where
    /// the display shows no weekday.
    pub weekday_x: i32,
    pub weekday_y: Option<i32>,
}

/// A horizontal gridline at a whole-degree value, with its label.
#[derive(Clone, Copy, Debug, PartialEq, Eq, Structural)]
pub struct Gridline {
    pub degrees: i32,
    pub label_x: i32,
    pub label_y: i32,
    pub line: Segment,
}

/// Everything drawn for a forecast.
#[derive(Clone, Debug)]
pub struct ForecastPlan {
    pub forecast: Forecast,
    /// One block per summarized day, in order.
    pub blocks: Vec<DayBlock>,
    /// Lowest and highest temperature shown, in whole degrees.
    pub min_degrees: i32,
    pub max_degrees: i32,
    pub range: Range,
    /// The bounding rectangle of the graph.
    pub frame: Segment,
    /// The temperature curve, one segment per plotted sample.
    pub curve: Vec<Segment>,
    pub curve_plane: Plane,
    /// Gridlines in increasing order of value.
    pub gridlines: Vec<Gridline>,
}

/// `b` is the block of day `d` with summary `s`.
pub open spec fn block_matches(
    b: DayBlock,
    config: LayoutConfig,
    canvas: Canvas,
    d: int,
    s: DaySummary,
) -> bool {
    let mid = pos_x_spec(config.horizontal_multiplier as int, d, MID_DAY_SLOT as int);
    &&& b.icon == icon_result(s.condition)
    &&& b.icon_x == mid + config.icon_dx
    &&& b.icon_y == canvas.height + config.icon_dy
    &&& b.label_x == mid + config.label_dx
    &&& b.label_y == canvas.height + config.label_dy
    &&& b.min == s.min
    &&& b.max == s.max
    &&& b.weekday == s.weekday
    &&& b.weekday_x == mid
    &&& b.weekday_y == match config.weekday_dy {
        Some(dy) => Some((canvas.height + dy) as i32),
        None => None::<i32>,
    }
}

/// `g` is the segment of the curve from `prev` to `next` (centidegrees)
/// between slots `i` and `i + 1` of the horizon.
pub open spec fn segment_matches(
    g: Segment,
    config: LayoutConfig,
    canvas: Canvas,
    r: Range,
    i: int,
    prev: int,
    next: int,
) -> bool {
    let mul = config.horizontal_multiplier as int;
    &&& g.x0 == pos_x_spec(mul, 0, i) + config.x_anchor
    &&& g.y0 == pos_y_spec(r, prev) + canvas.height
    &&& g.x1 == pos_x_spec(mul, 0, i + 1) + config.x_anchor
    &&& g.y1 == pos_y_spec(r, next) + canvas.height
}

/// `g` is the gridline at its value: a label at the left edge and a line
/// across the four days' horizon.
pub open spec fn gridline_matches(g: Gridline, config: LayoutConfig, canvas: Canvas, r: Range) -> bool {
    let mul = config.horizontal_multiplier as int;
    let y = pos_y_spec(r, g.degrees * 100) + canvas.height;
    &&& g.label_x == 0
    &&& g.label_y == y
    &&& g.line.x0 == pos_x_spec(mul, 0, 0) + config.x_anchor
    &&& g.line.y0 == y
    &&& g.line.x1 == pos_x_spec(mul, MAX_DAYS - 1, SLOTS_PER_DAY as int) + config.x_anchor
    &&& g.line.y1 == y
}

/// The value that the curve comes from at sample `i` of series `t`.
pub open spec fn curve_prev(current: int, t: Seq<i32>, i: int) -> int {
    if i == 0 {
        current
    } else {
        t[i - 1] as int
    }
}

/// The block of each summarized day: its icon (or the icon error of that
/// day alone), its min/max text and its weekday, placed at its mid-day slot.
pub fn day_blocks(config: &LayoutConfig, canvas: Canvas, days: &Vec<DaySummary>) -> (r: Vec<DayBlock>)
    requires
        config.wf(),
        canvas.wf(),
        days.len() <= MAX_DAYS,
    ensures
        r.len() == days.len(),
        forall|d: int| 0 <= d < r.len() ==> block_matches(#[trigger] r[d], *config, canvas, d, days[d]),
{
    let mut r: Vec<DayBlock> = Vec::new();
    let mut d: usize = 0;
    while d < days.len()
        invariant
            config.wf(),
            canvas.wf(),
            days.len() <= MAX_DAYS,
            d <= days.len(),
            r.len() == d,
            forall|e: int| 0 <= e < d ==> block_matches(#[trigger] r[e], *config, canvas, e, days[e]),
        decreases days.len() - d,
    {
        let day = &days[d];
        let mid: i32 = pos_x(config, d, MID_DAY_SLOT);
        let weekday_y: Option<i32> = match config.weekday_dy {
            Some(dy) => Some(canvas.height + dy),
            None => None,
        };
        let block = DayBlock {
            icon: weather_icon(day.condition),
            icon_x: mid + config.icon_dx,
            icon_y: canvas.height + config.icon_dy,
            label_x: mid + config.label_dx,
            label_y: canvas.height + config.label_dy,
            min: day.min,
            max: day.max,
            weekday: day.weekday,
            weekday_x: mid,
            weekday_y,
        };
        r.push(block);
        d = d + 1;
    }
    r
}

/// The temperature curve: segment `i` runs from the previous value (the
/// current reading for the first) to `temps[i]`, one slot further right.
pub fn curve(config: &LayoutConfig, canvas: Canvas, range: &Range, current: i32, temps: &Vec<i32>) -> (r: Vec<Segment>)
    requires
        config.wf(),
        canvas.wf(),
        range.wf(),
        centi_ok(current as int),
        temps.len() <= SLOTS_PER_DAY * MAX_DAYS,
        forall|i: int| 0 <= i < temps.len() ==> centi_ok(#[trigger] temps[i] as int),
    ensures
        r.len() == temps.len(),
        forall|i: int|
            0 <= i < r.len() ==> segment_matches(
                #[trigger] r[i],
                *config,
                canvas,
                *range,
                i,
                curve_prev(current as int, temps@, i),
                temps[i] as int,
            ),
{
    let mut r: Vec<Segment> = Vec::new();
    let mut prev: i32 = current;
    let mut i: usize = 0;
    while i < temps.len()
        invariant
            config.wf(),
            canvas.wf(),
            range.wf(),
            temps.len() <= SLOTS_PER_DAY * MAX_DAYS,
            forall|j: int| 0 <= j < temps.len() ==> centi_ok(#[trigger] temps[j] as int),
            i <= temps.len(),
            r.len() == i,
            prev == curve_prev(current as int, temps@, i as int),
            centi_ok(prev as int),
            forall|j: int|
                0 <= j < i ==> segment_matches(
                    #[trigger] r[j],
                    *config,
                    canvas,
                    *range,
                    j,
                    curve_prev(current as int, temps@, j),
                    temps[j] as int,
                ),
        decreases temps.len() - i,
    {
        let next: i32 = temps[i];
        let seg = Segment {
            x0: pos_x(config, 0, i) + config.x_anchor,
            y0: range.pos_y(prev) + canvas.height,
            x1: pos_x(config, 0, i + 1) + config.x_anchor,
            y1: range.pos_y(next) + canvas.height,
        };
        r.push(seg);
        prev = next;
        i = i + 1;
    }
    r
}

/// The gridlines of a plotted range `[min, max]` (whole degrees), each with
/// its label position and its line across the horizon.
pub fn gridline_marks(config: &LayoutConfig, canvas: Canvas, range: &Range, min: i32, max: i32) -> (r: Vec<Gridline>)
    requires
        config.wf(),
        canvas.wf(),
        range.wf(),
        crate::layout::degrees_ok(min as int),
        crate::layout::degrees_ok(max as int),
    ensures
        forall|i: int| 0 <= i < r.len() ==> is_gridline(*config, min as int, max as int, #[trigger] r[i].degrees as int),
        forall|i: int| 0 <= i < r.len() ==> gridline_matches(#[trigger] r[i], *config, canvas, *range),
        forall|i: int, j: int| 0 <= i < j < r.len() ==> r[i].degrees < r[j].degrees,
        forall|x: int|
            #[trigger] is_gridline(*config, min as int, max as int, x) ==> exists|i: int|
                0 <= i < r.len() && #[trigger] r[i].degrees == x,
{
    let values = gridlines(config, min, max);
    let mut r: Vec<Gridline> = Vec::new();
    let mut i: usize = 0;
    while i < values.len()
        invariant
            config.wf(),
            canvas.wf(),
            range.wf(),
            forall|j: int| 0 <= j < values.len() ==> is_gridline(*config, min as int, max as int, #[trigger] values[j] as int),
            i <= values.len(),
            r.len() == i,
            forall|j: int| 0 <= j < i ==> (#[trigger] r[j]).degrees == values[j],
            forall|j: int| 0 <= j < i ==> gridline_matches(#[trigger] r[j], *config, canvas, *range),
        decreases values.len() - i,
    {
        let v: i32 = values[i];
        assert(is_gridline(*config, min as int, max as int, v as int));
        let y: i32 = range.pos_y(v * 100) + canvas.height;
        let g = Gridline {
            degrees: v,
            label_x: 0,
            label_y: y,
            line: Segment {
                x0: pos_x(config, 0, 0) + config.x_anchor,
                y0: y,
                x1: pos_x(config, MAX_DAYS - 1, SLOTS_PER_DAY) + config.x_anchor,
                y1: y,
            },
        };
        r.push(g);
        i = i + 1;
    }
    proof {
        assert forall|x: int| is_gridline(*config, min as int, max as int, x) implies exists|i: int|
            0 <= i < r.len() && #[trigger] r[i].degrees == x by {
            let k = choose|k: int| 0 <= k < values.len() && values@[k] == x as i32;
            assert(r[k].degrees == x);
        }
    }
    r
}

/// The bounding rectangle of the graph: as high as the graph budget, its
/// bottom edge `y_anchor` pixels above the canvas bottom, as wide as the canvas.
pub fn frame(config: &LayoutConfig, canvas: Canvas) -> (r: Segment)
    requires
        config.wf(),
        canvas.wf(),
    ensures
        r.x0 == 0,
        r.y0 == canvas.height - config.graph_height - config.y_anchor,
        r.x1 == canvas.width,
        r.y1 == canvas.height - config.y_anchor,
{
    Segment {
        x0: 0,
        y0: canvas.height - config.graph_height - config.y_anchor,
        x1: canvas.width,
        y1: canvas.height - config.y_anchor,
    }
}

/// Lays out a forecast: summarizes up to four days of samples, derives the
/// range from their extremes and the current reading (`current_temp`, in
/// centidegrees), and places each day's block, the frame, the curve from the
/// current reading through every summarized sample, and the gridlines.
/// A day whose condition code has no icon keeps its error in its own block.
pub fn weather_forecast(config: &LayoutConfig, canvas: Canvas, current_temp: i32, samples: &Vec<Sample>) -> (r: ForecastPlan)
    requires
        config.wf(),
        canvas.wf(),
        centi_ok(current_temp as int),
        forall|i: int| 0 <= i < samples.len() ==> (#[trigger] samples[i]).wf(),
    ensures
        r.forecast.days.len() == day_count(samples.len() as int, MAX_DAYS as int),
        forall|d: int|
            0 <= d < r.forecast.days.len() ==> summarizes(#[trigger] r.forecast.days[d], chunk(samples@, d)),
        r.forecast.temps@ == temps_of(
            samples@.take(
                min_int(samples.len() as int, SLOTS_PER_DAY * day_count(samples.len() as int, MAX_DAYS as int)),
            ),
        ),
        r.min_degrees == trunc_degrees(global_low(current_temp as int, r.forecast.days@)),
        r.max_degrees == trunc_degrees(global_high(current_temp as int, r.forecast.days@)),
        r.range.scale == scale_spec(r.min_degrees as int, r.max_degrees as int, config.graph_height as int),
        r.range.offset == offset_spec(r.min_degrees as int, config.y_anchor as int, r.range.scale as int),
        r.blocks.len() == r.forecast.days.len(),
        forall|d: int|
            0 <= d < r.blocks.len() ==> block_matches(#[trigger] r.blocks[d], *config, canvas, d, r.forecast.days[d]),
        r.frame.x0 == 0,
        r.frame.y0 == canvas.height - config.graph_height - config.y_anchor,
        r.frame.x1 == canvas.width,
        r.frame.y1 == canvas.height - config.y_anchor,
        r.curve.len() == r.forecast.temps.len(),
        forall|i: int|
            0 <= i < r.curve.len() ==> segment_matches(
                #[trigger] r.curve[i],
                *config,
                canvas,
                r.range,
                i,
                curve_prev(current_temp as int, r.forecast.temps@, i),
                r.forecast.temps[i] as int,
            ),
        r.curve_plane == (if config.curve_on_chromatic {
            Plane::Chromatic
        } else {
            Plane::Black
        }),
        forall|i: int|
            0 <= i < r.gridlines.len() ==> is_gridline(
                *config,
                r.min_degrees as int,
                r.max_degrees as int,
                #[trigger] r.gridlines[i].degrees as int,
            ),
        forall|i: int| 0 <= i < r.gridlines.len() ==> gridline_matches(#[trigger] r.gridlines[i], *config, canvas, r.range),
        forall|i: int, j: int| 0 <= i < j < r.gridlines.len() ==> r.gridlines[i].degrees < r.gridlines[j].degrees,
        forall|x: int|
            #[trigger] is_gridline(*config, r.min_degrees as int, r.max_degrees as int, x) ==> exists|i: int|
                0 <= i < r.gridlines.len() && #[trigger] r.gridlines[i].degrees == x,
{
    let forecast = aggregate_forecast(samples, MAX_DAYS);
    let (low, high) = global_bounds(current_temp, &forecast.days);
    let min_degrees = whole_degrees(low);
    let max_degrees = whole_degrees(high);
    let range = Range::new(min_degrees, max_degrees, Some(config.y_anchor), config.graph_height);
    let blocks = day_blocks(config, canvas, &forecast.days);
    let frame = frame(config, canvas);
    let curve = curve(config, canvas, &range, current_temp, &forecast.temps);
    let curve_plane = if config.curve_on_chromatic {
        Plane::Chromatic
    } else {
        Plane::Black
    };
    let gridlines = gridline_marks(config, canvas, &range, min_degrees, max_degrees);
    let r = ForecastPlan { forecast, blocks, min_degrees, max_degrees, range, frame, curve, curve_plane, gridlines };
    assert forall|x: int| #[trigger] is_gridline(*config, r.min_degrees as int, r.max_degrees as int, x) implies exists|i: int|
        0 <= i < r.gridlines.len() && #[trigger] r.gridlines[i].degrees == x by {
        assert(is_gridline(*config, min_degrees as int, max_degrees as int, x));
        let i = choose|i: int| 0 <= i < r.gridlines.len() && #[trigger] r.gridlines[i].degrees == x;
        assert(r.gridlines[i].degrees == x);
    }
    r
}

/// A condition code without an icon is an error of its own day only: that
/// day's block carries `UnknownCode` with the code, and still its position,
/// extremes and weekday, as every other day's block does.
pub proof fn lemma_unknown_icon_stays_in_its_day(
    b: DayBlock,
    config: LayoutConfig,
    canvas: Canvas,
    d: int,
    s: DaySummary,
)
    requires
        block_matches(b, config, canvas, d, s),
        icon_of(s.condition) is None,
    ensures
        b.icon == Err::<Icon, IconError>(IconError::UnknownCode(s.condition)),
        b.min == s.min,
        b.max == s.max,
        b.weekday == s.weekday,
        b.label_x == pos_x_spec(config.horizontal_multiplier as int, d, MID_DAY_SLOT as int) + config.label_dx,
{
}

} // verus!
