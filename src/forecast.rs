//! The forecast aggregator: three-hour samples to per-day summaries and the
//! flattened temperature series of the graph.
use vstd::prelude::*;
use crate::layout::{centi_ok, SLOTS_PER_DAY};

verus! {

/// Most days that a forecast is summarized into.
pub const MAX_DAYS: usize = 4;

/// Seconds in one day.
pub const SECONDS_PER_DAY: u64 = 86400;

/// One three-hour forecast sample. Temperatures are in centidegrees.
#[derive(Clone, Copy, Debug, PartialEq, Eq, Structural)]
pub struct Sample {
    /// Unix timestamp of the sample, in seconds.
    pub dt: u64,
    /// Instantaneous temperature.
    pub temp: i32,
    /// Local minimum temperature.
    pub temp_min: i32,
    /// Local maximum temperature.
    pub temp_max: i32,
    /// Weather condition code of the sample's first condition.
    pub condition: u32,
}

impl Sample {
    pub open spec fn wf(&self) -> bool {
        &&& centi_ok(self.temp as int)
        &&& centi_ok(self.temp_min as int)
        &&& centi_ok(self.temp_max as int)
    }
}

/// Summary of one day of samples. Temperatures are in centidegrees.
#[derive(Clone, Debug)]
pub struct DaySummary {
    /// Lowest local minimum of the day's samples.
    pub min: i32,
    /// Highest local maximum of the day's samples.
    pub max: i32,
    /// Condition code of the day's first sample.
    pub condition: u32,
    /// Weekday of the day's first sample in UTC, Monday being 0.
    pub weekday: u8,
    /// The day's instantaneous temperatures, in order.
    pub temps: Vec<i32>,
}

impl DaySummary {
    /// The day's extremes are within the accepted temperature range.
    pub open spec fn wf(&self) -> bool {
        centi_ok(self.min as int) && centi_ok(self.max as int)
    }
}

/// The summarized days and the temperature series that the graph plots.
#[derive(Clone, Debug)]
pub struct Forecast {
    pub days: Vec<DaySummary>,
    /// Instantaneous temperatures of all summarized samples, in order.
    pub temps: Vec<i32>,
}

pub open spec fn min_int(a: int, b: int) -> int {
    if a <= b {
        a
    } else {
        b
    }
}

pub open spec fn max_int(a: int, b: int) -> int {
    if a >= b {
        a
    } else {
        b
    }
}

/// Lowest local minimum of a non-empty run of samples.
pub open spec fn low_of(s: Seq<Sample>) -> int
    decreases s.len(),
{
    if s.len() <= 1 {
        if s.len() == 1 {
            s[0].temp_min as int
        } else {
            0
        }
    } else {
        min_int(low_of(s.drop_last()), s.last().temp_min as int)
    }
}

/// Highest local maximum of a non-empty run of samples.
pub open spec fn high_of(s: Seq<Sample>) -> int
    decreases s.len(),
{
    if s.len() <= 1 {
        if s.len() == 1 {
            s[0].temp_max as int
        } else {
            0
        }
    } else {
        max_int(high_of(s.drop_last()), s.last().temp_max as int)
    }
}

/// The instantaneous temperatures of a run of samples.
pub open spec fn temps_of(s: Seq<Sample>) -> Seq<i32> {
    s.map_values(|x: Sample| x.temp)
}

/// Weekday of a Unix timestamp in UTC, Monday being 0 (the epoch was a Thursday).
pub open spec fn weekday_of(dt: int) -> int {
    (dt / SECONDS_PER_DAY as int + 3) % 7
}

/// Number of days summarized from `n` samples when `requested` are asked for.
pub open spec fn day_count(n: int, requested: int) -> int {
    min_int(min_int(requested, MAX_DAYS as int), (n + 7) / 8)
}

/// The samples of day `d`: the `d`-th run of eight, shorter at the end.
pub open spec fn chunk(s: Seq<Sample>, d: int) -> Seq<Sample> {
    s.subrange(d * 8, min_int(d * 8 + 8, s.len() as int))
}

/// `d` is the summary of the non-empty run `c`.
pub open spec fn summarizes(d: DaySummary, c: Seq<Sample>) -> bool {
    &&& d.min == low_of(c)
    &&& d.max == high_of(c)
    &&& d.condition == c[0].condition
    &&& d.weekday == weekday_of(c[0].dt as int)
    &&& d.temps@ == temps_of(c)
}

/// Weekday of a Unix timestamp in UTC, Monday being 0.
pub fn weekday(dt: u64) -> (r: u8)
    ensures
        r == weekday_of(dt as int),
        r < 7,
{
    ((dt / SECONDS_PER_DAY + 3) % 7) as u8
}

proof fn lemma_low_bounded(s: Seq<Sample>)
    requires
        s.len() >= 1,
        forall|i: int| 0 <= i < s.len() ==> (#[trigger] s[i]).wf(),
    ensures
        centi_ok(low_of(s)),
        centi_ok(high_of(s)),
    decreases s.len(),
{
    if s.len() > 1 {
        lemma_low_bounded(s.drop_last());
    }
}

/// Summary of the samples `s[start..end]`, a non-empty run.
fn summarize(s: &Vec<Sample>, start: usize, end: usize) -> (r: DaySummary)
    requires
        start < end <= s.len(),
    ensures
        summarizes(r, s@.subrange(start as int, end as int)),
{
    let first: Sample = s[start];
    let mut min: i32 = first.temp_min;
    let mut max: i32 = first.temp_max;
    let mut temps: Vec<i32> = Vec::new();
    temps.push(first.temp);
    let mut j: usize = start + 1;
    proof {
        assert(temps@ =~= temps_of(s@.subrange(start as int, j as int)));
    }
    while j < end
        invariant
            start < j <= end <= s.len(),
            min == low_of(s@.subrange(start as int, j as int)),
            max == high_of(s@.subrange(start as int, j as int)),
            temps@ == temps_of(s@.subrange(start as int, j as int)),
        decreases end - j,
    {
        let x: Sample = s[j];
        proof {
            let next = s@.subrange(start as int, j + 1);
            assert(next.drop_last() =~= s@.subrange(start as int, j as int));
            assert(next.last() == x);
        }
        if x.temp_min < min {
            min = x.temp_min;
        }
        if x.temp_max > max {
            max = x.temp_max;
        }
        temps.push(x.temp);
        j = j + 1;
        proof {
            assert(temps@ =~= temps_of(s@.subrange(start as int, j as int)));
        }
    }
    DaySummary { min, max, condition: first.condition, weekday: weekday(first.dt), temps }
}

/// Splits the samples into days of eight and summarizes up to
/// `min(days, 4)` of them; the series holds every summarized sample's
/// instantaneous temperature in order.
pub fn aggregate_forecast(samples: &Vec<Sample>, days: usize) -> (r: Forecast)
    requires
        forall|i: int| 0 <= i < samples.len() ==> (#[trigger] samples[i]).wf(),
    ensures
        r.days.len() == day_count(samples.len() as int, days as int),
        forall|d: int|
            0 <= d < r.days.len() ==> summarizes(#[trigger] r.days[d], chunk(samples@, d)),
        forall|d: int| 0 <= d < r.days.len() ==> (#[trigger] r.days[d]).wf(),
        forall|i: int| 0 <= i < r.temps.len() ==> centi_ok(#[trigger] r.temps[i] as int),
        r.temps.len() <= SLOTS_PER_DAY * MAX_DAYS,
        r.temps@ == temps_of(
            samples@.take(
                min_int(samples.len() as int, SLOTS_PER_DAY * day_count(samples.len() as int, days as int)),
            ),
        ),
{
    let n: usize = samples.len();
    let wanted: usize = if days < MAX_DAYS {
        days
    } else {
        MAX_DAYS
    };
    let mut out: Vec<DaySummary> = Vec::new();
    let mut temps: Vec<i32> = Vec::new();
    let mut d: usize = 0;
    let mut start: usize = 0;
    while d < wanted && start < n
        invariant
            n == samples.len(),
            wanted == min_int(days as int, MAX_DAYS as int),
            d <= wanted,
            start == min_int(d * SLOTS_PER_DAY, n as int),
            d <= day_count(n as int, days as int),
            out.len() == d,
            forall|e: int| 0 <= e < d ==> summarizes(#[trigger] out[e], chunk(samples@, e)),
            forall|e: int| 0 <= e < d ==> (#[trigger] out[e]).wf(),
            forall|i: int| 0 <= i < samples.len() ==> (#[trigger] samples[i]).wf(),
            temps@ == temps_of(samples@.take(start as int)),
        decreases wanted - d,
    {
        let end: usize = if n - start < SLOTS_PER_DAY {
            n
        } else {
            start + SLOTS_PER_DAY
        };
        let day = summarize(samples, start, end);
        proof {
            let c = samples@.subrange(start as int, end as int);
            assert forall|i: int| 0 <= i < c.len() implies (#[trigger] c[i]).wf() by {
                assert(c[i] == samples[start + i]);
            }
            lemma_low_bounded(c);
            assert(samples@.subrange(start as int, end as int) =~= chunk(samples@, d as int));
        }
        let mut j: usize = start;
        while j < end
            invariant
                start <= j <= end <= n,
                n == samples.len(),
                temps@ == temps_of(samples@.take(j as int)),
            decreases end - j,
        {
            temps.push(samples[j].temp);
            j = j + 1;
            proof {
                assert(temps@ =~= temps_of(samples@.take(j as int)));
            }
        }
        out.push(day);
        d = d + 1;
        start = end;
    }
    proof {
        assert(d == day_count(n as int, days as int));
        assert(start == min_int(n as int, SLOTS_PER_DAY * d));
    }
    Forecast { days: out, temps }
}

/// Lowest of the current temperature and the days' minima.
pub open spec fn global_low(current: int, days: Seq<DaySummary>) -> int
    decreases days.len(),
{
    if days.len() == 0 {
        current
    } else {
        min_int(global_low(current, days.drop_last()), days.last().min as int)
    }
}

/// Highest of the current temperature and the days' maxima.
pub open spec fn global_high(current: int, days: Seq<DaySummary>) -> int
    decreases days.len(),
{
    if days.len() == 0 {
        current
    } else {
        max_int(global_high(current, days.drop_last()), days.last().max as int)
    }
}

/// The lowest and highest temperature that the graph must show: the days'
/// extremes together with the current reading, in centidegrees.
pub fn global_bounds(current: i32, days: &Vec<DaySummary>) -> (r: (i32, i32))
    ensures
        r.0 == global_low(current as int, days@),
        r.1 == global_high(current as int, days@),
        centi_ok(current as int) && (forall|d: int| 0 <= d < days.len() ==> (#[trigger] days[d]).wf())
            ==> centi_ok(r.0 as int) && centi_ok(r.1 as int),
{
    let mut lo: i32 = current;
    let mut hi: i32 = current;
    let mut i: usize = 0;
    proof {
        assert(days@.take(0).len() == 0);
    }
    while i < days.len()
        invariant
            i <= days.len(),
            lo == global_low(current as int, days@.take(i as int)),
            hi == global_high(current as int, days@.take(i as int)),
            lo == current || exists|d: int| 0 <= d < i && lo == days[d].min,
            hi == current || exists|d: int| 0 <= d < i && hi == days[d].max,
        decreases days.len() - i,
    {
        proof {
            assert(days@.take(i + 1).drop_last() =~= days@.take(i as int));
        }
        if days[i].min < lo {
            lo = days[i].min;
        }
        if days[i].max > hi {
            hi = days[i].max;
        }
        i = i + 1;
    }
    proof {
        assert(days@.take(i as int) =~= days@);
    }
    (lo, hi)
}

/// A temperature in centidegrees cut to whole degrees, toward zero.
pub open spec fn trunc_degrees(t: int) -> int {
    if t >= 0 {
        t / 100
    } else {
        -((-t) / 100)
    }
}

/// Whole degrees of a temperature in centidegrees, cut toward zero.
pub fn whole_degrees(t: i32) -> (r: i32)
    requires
        centi_ok(t as int),
    ensures
        r == trunc_degrees(t as int),
        crate::layout::degrees_ok(r as int),
{
    if t >= 0 {
        t / 100
    } else {
        -((-t) / 100)
    }
}

/// The three-letter English name of a weekday, Monday being 0.
pub open spec fn weekday_name_of(d: int) -> Seq<char> {
    if d == 0 {
        "Mon"@
    } else if d == 1 {
        "Tue"@
    } else if d == 2 {
        "Wed"@
    } else if d == 3 {
        "Thu"@
    } else if d == 4 {
        "Fri"@
    } else if d == 5 {
        "Sat"@
    } else {
        "Sun"@
    }
}

/// The three-letter English name of a weekday (0 to 6, Monday being 0).
pub fn weekday_name(d: u8) -> (r: &'static str)
    requires
        d < 7,
    ensures
        r@ == weekday_name_of(d as int),
{
    if d == 0 {
        "Mon"
    } else if d == 1 {
        "Tue"
    } else if d == 2 {
        "Wed"
    } else if d == 3 {
        "Thu"
    } else if d == 4 {
        "Fri"
    } else if d == 5 {
        "Sat"
    } else {
        "Sun"
    }
}

/// A forecast of exactly four full days is summarized into four days, day
/// `d` over samples `8 * d` to `8 * d + 7`, and its series is every sample's
/// instantaneous temperature in the original order.
pub proof fn lemma_four_full_days(samples: Seq<Sample>)
    requires
        samples.len() == SLOTS_PER_DAY * MAX_DAYS,
    ensures
        day_count(samples.len() as int, MAX_DAYS as int) == MAX_DAYS,
        forall|d: int|
            0 <= d < MAX_DAYS ==> #[trigger] chunk(samples, d) == samples.subrange(d * 8, d * 8 + 8),
        temps_of(
            samples.take(min_int(samples.len() as int, SLOTS_PER_DAY * day_count(samples.len() as int, MAX_DAYS as int))),
        ).len() == samples.len(),
        forall|i: int|
            0 <= i < samples.len() ==> #[trigger] temps_of(
                samples.take(min_int(samples.len() as int, SLOTS_PER_DAY * day_count(samples.len() as int, MAX_DAYS as int))),
            )[i] == samples[i].temp,
{
    assert(samples.take(32) =~= samples);
}

} // verus!
