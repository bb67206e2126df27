use weather_panel::forecast::{
    aggregate_forecast, global_bounds, weekday, weekday_name, whole_degrees, Sample,
};
use weather_panel::icons::{Icon, IconError};
use weather_panel::layout::LayoutConfig;
use weather_panel::render::{weather_forecast, Canvas, Plane};

const START: u64 = 1_700_000_000;

fn sample(index: usize, temp: i32, temp_min: i32, temp_max: i32, condition: u32) -> Sample {
    Sample { dt: START + index as u64 * 10_800, temp, temp_min, temp_max, condition }
}

/// Four days of eight samples; day `d`, slot `s` has temperature
/// `100 * d + 10 * s`, local minimum 50 + s below it and local maximum 70 + s above.
fn four_days(conditions: [u32; 4]) -> Vec<Sample> {
    let mut v = Vec::new();
    for d in 0..4 {
        for s in 0..8 {
            let t = 100 * d as i32 + 10 * s as i32;
            v.push(sample(d * 8 + s, t, t - 50 - s as i32, t + 70 + s as i32, conditions[d]));
        }
    }
    v
}

#[test]
fn aggregation_round_trip_of_four_full_days() {
    let samples = four_days([800, 500, 601, 804]);
    let f = aggregate_forecast(&samples, 4);
    assert_eq!(f.days.len(), 4);
    let expected = [(-50, 147), (50, 247), (150, 347), (250, 447)];
    for (d, (min, max)) in expected.iter().enumerate() {
        assert_eq!(f.days[d].min, *min);
        assert_eq!(f.days[d].max, *max);
        assert_eq!(f.days[d].temps.len(), 8);
    }
    assert_eq!(f.days[2].condition, 601);
    assert_eq!(f.temps.len(), 32);
    let all: Vec<i32> = samples.iter().map(|s| s.temp).collect();
    assert_eq!(f.temps, all);
}

#[test]
fn aggregation_folds_local_extremes_not_instantaneous() {
    let samples = vec![sample(0, 100, 90, 300, 800), sample(1, 500, -20, 510, 800)];
    let f = aggregate_forecast(&samples, 4);
    assert_eq!(f.days.len(), 1);
    assert_eq!(f.days[0].min, -20);
    assert_eq!(f.days[0].max, 510);
    assert_eq!(f.days[0].temps, vec![100, 500]);
}

#[test]
fn aggregation_of_a_short_last_day() {
    let mut samples = four_days([800, 800, 800, 800]);
    samples.truncate(10);
    let f = aggregate_forecast(&samples, 4);
    assert_eq!(f.days.len(), 2);
    assert_eq!(f.days[1].temps, vec![100, 110]);
    assert_eq!(f.days[1].min, 50);
    assert_eq!(f.days[1].max, 181);
    assert_eq!(f.temps.len(), 10);
}

#[test]
fn aggregation_stops_at_four_days_and_at_the_request() {
    let mut samples = four_days([800, 800, 800, 800]);
    let extra = four_days([801, 801, 801, 801]);
    samples.extend(extra.into_iter().take(8));
    let f = aggregate_forecast(&samples, 10);
    assert_eq!(f.days.len(), 4);
    assert_eq!(f.temps.len(), 32);
    let f = aggregate_forecast(&samples, 2);
    assert_eq!(f.days.len(), 2);
    assert_eq!(f.temps.len(), 16);
    let f = aggregate_forecast(&Vec::new(), 4);
    assert_eq!(f.days.len(), 0);
    assert_eq!(f.temps.len(), 0);
}

#[test]
fn weekdays_of_timestamps() {
    assert_eq!(weekday(0), 3);
    assert_eq!(weekday(START), 1);
    assert_eq!(weekday(START + 86_400), 2);
    assert_eq!(weekday_name(3), "Thu");
    assert_eq!(weekday_name(0), "Mon");
    assert_eq!(weekday_name(6), "Sun");
    let f = aggregate_forecast(&four_days([800, 800, 800, 800]), 4);
    assert_eq!(f.days[0].weekday, 1);
    assert_eq!(f.days[3].weekday, 4);
}

#[test]
fn bounds_include_the_current_reading() {
    let f = aggregate_forecast(&four_days([800, 800, 800, 800]), 4);
    assert_eq!(global_bounds(0, &f.days), (-50, 447));
    assert_eq!(global_bounds(-900, &f.days), (-900, 447));
    assert_eq!(global_bounds(2000, &f.days), (-50, 2000));
    assert_eq!(global_bounds(1234, &Vec::new()), (1234, 1234));
}

#[test]
fn whole_degrees_cut_toward_zero() {
    assert_eq!(whole_degrees(599), 5);
    assert_eq!(whole_degrees(-599), -5);
    assert_eq!(whole_degrees(-50), 0);
    assert_eq!(whole_degrees(2000), 20);
}

#[test]
fn missing_icon_code_affects_only_its_day() {
    let samples = four_days([800, 999, 500, 804]);
    let c = LayoutConfig::epd4in2();
    let plan = weather_forecast(&c, Canvas { width: 400, height: 300 }, 500, &samples);
    assert_eq!(plan.forecast.days.len(), 4);
    assert_eq!(plan.blocks.len(), 4);
    assert_eq!(plan.blocks[0].icon, Ok(Icon::DaySunny));
    assert_eq!(plan.blocks[1].icon, Err(IconError::UnknownCode(999)));
    assert_eq!(plan.blocks[2].icon, Ok(Icon::DaySprinkle));
    assert_eq!(plan.blocks[3].icon, Ok(Icon::DayCloudy));
    assert_eq!(plan.blocks[1].min, 50);
    assert_eq!(plan.blocks[1].max, 247);
}

#[test]
fn plan_of_the_small_display() {
    let samples = four_days([800, 800, 800, 800]);
    let c = LayoutConfig::epd4in2();
    let plan = weather_forecast(&c, Canvas { width: 400, height: 300 }, -500, &samples);
    assert_eq!((plan.min_degrees, plan.max_degrees), (-5, 4));
    assert_eq!(plan.range.scale, 6);
    assert_eq!(plan.range.offset, 25 + 10 * 6);
    assert_eq!((plan.frame.x0, plan.frame.y0, plan.frame.x1, plan.frame.y1), (0, 155, 400, 275));
    assert_eq!(plan.curve.len(), 32);
    assert_eq!(plan.curve_plane, Plane::Black);
    let first = plan.curve[0];
    assert_eq!((first.x0, first.y0, first.x1, first.y1), (35, 300 + 30 - 85, 45, 300 - 85));
    let last = plan.curve[31];
    assert_eq!((last.x0, last.x1), (35 + 310, 35 + 320));
    let values: Vec<i32> = plan.gridlines.iter().map(|g| g.degrees).collect();
    assert_eq!(values, vec![-10, 0]);
    let g = plan.gridlines[1];
    assert_eq!((g.label_x, g.label_y), (0, 300 - 85));
    assert_eq!((g.line.x0, g.line.x1, g.line.y0, g.line.y1), (35, 355, 215, 215));
    let b = plan.blocks[1];
    assert_eq!((b.icon_x, b.icon_y, b.label_x, b.label_y), (90, 270, 120, 280));
    assert_eq!(b.weekday_y, None);
}

#[test]
fn plan_of_the_large_display() {
    let samples = four_days([800, 800, 800, 800]);
    let c = LayoutConfig::epd7in5bc();
    let plan = weather_forecast(&c, Canvas { width: 640, height: 384 }, 1000, &samples);
    assert_eq!((plan.min_degrees, plan.max_degrees), (0, 10));
    assert_eq!(plan.range.scale, 8);
    assert_eq!(plan.range.offset, 80);
    assert_eq!(plan.curve_plane, Plane::Chromatic);
    let values: Vec<i32> = plan.gridlines.iter().map(|g| g.degrees).collect();
    assert_eq!(values, vec![0, 10]);
    let b = plan.blocks[2];
    assert_eq!((b.icon_x, b.icon_y, b.label_x, b.label_y), (350, 324, 415, 344));
    assert_eq!((b.weekday_x, b.weekday_y), (400, Some(314)));
    assert_eq!(b.weekday, 3);
}
