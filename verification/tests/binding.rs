//! Scale computation and chart data binding, exercised on concrete batches.

use templog_chart::chart::{
    humidity_config, initial_chart_state, temperature_config, update_data, ChartState, Measurement,
};
use templog_chart::scale::compute_scale;

/// A floating-point reading as the library carries it: thousandths of a unit.
fn milli(value: f64) -> i64 {
    (value * 1000.0).round() as i64
}

fn measurement(temperature: f64, humidity: f64, timestamp_ms: i64) -> Measurement {
    Measurement {
        temperature_milli: milli(temperature),
        humidity_milli: milli(humidity),
        timestamp_ms,
    }
}

fn bind(measurements: &Vec<Measurement>) -> ChartState {
    let mut state = initial_chart_state();
    update_data(&mut state, measurements);
    state
}

#[test]
fn scale_of_two_samples_pads_extrema_by_one_step() {
    let samples: Vec<i64> = vec![milli(14.0), milli(22.0)];
    let cfg = temperature_config();
    let scale = compute_scale(&samples, &cfg);
    assert_eq!(scale.min, milli(12.0));
    assert_eq!(scale.max, milli(24.0));
    assert_eq!(scale.step, milli(2.0));
}

#[test]
fn scale_of_non_empty_samples_is_at_least_two_steps_wide() {
    let cases: Vec<Vec<i64>> = vec![
        vec![milli(20.0)],
        vec![milli(14.0), milli(22.0)],
        vec![milli(-3.5), milli(0.0), milli(40.25)],
    ];
    for samples in cases {
        let cfg = temperature_config();
        let scale = compute_scale(&samples, &cfg);
        assert!(scale.max - scale.min >= 2 * cfg.step);
        for sample in samples {
            assert!(scale.min <= sample && sample <= scale.max);
        }
    }
}

#[test]
fn scale_of_empty_samples_is_the_default_exactly() {
    let samples: Vec<i64> = vec![];
    let temperature = compute_scale(&samples, &temperature_config());
    assert_eq!(temperature.min, milli(8.0));
    assert_eq!(temperature.max, milli(34.0));
    assert_eq!(temperature.step, milli(2.0));
    let humidity = compute_scale(&samples, &humidity_config());
    assert_eq!(humidity.min, milli(0.0));
    assert_eq!(humidity.max, milli(100.0));
    assert_eq!(humidity.step, milli(20.0));
}

#[test]
fn scale_of_a_single_sample_never_degenerates() {
    let samples: Vec<i64> = vec![milli(20.0)];
    let cfg = temperature_config();
    let scale = compute_scale(&samples, &cfg);
    assert_eq!(scale.min, milli(18.0));
    assert_eq!(scale.max, milli(22.0));
    assert_eq!(scale.max - scale.min, 2 * cfg.step);
}

#[test]
fn binding_keeps_one_point_per_record_in_order() {
    let batch = vec![
        measurement(14.0, 42.0, 100),
        measurement(22.0, 65.0, 50),
        measurement(18.5, 55.0, 200),
    ];
    let state = bind(&batch);
    assert_eq!(state.temperature_points.len(), batch.len());
    assert_eq!(state.humidity_points.len(), batch.len());
    for (i, record) in batch.iter().enumerate() {
        assert_eq!(state.temperature_points[i].timestamp_ms, record.timestamp_ms);
        assert_eq!(state.temperature_points[i].value_milli, record.temperature_milli);
        assert_eq!(state.temperature_points[i].label, None);
        assert_eq!(state.humidity_points[i].timestamp_ms, record.timestamp_ms);
        assert_eq!(state.humidity_points[i].value_milli, record.humidity_milli);
        assert_eq!(state.humidity_points[i].label, None);
    }
}

#[test]
fn humidity_outlier_leaves_temperature_scale_alone() {
    let plain = vec![measurement(14.0, 42.0, 0), measurement(22.0, 65.0, 1)];
    let outlier = vec![measurement(14.0, 1.0, 0), measurement(22.0, 99.5, 1)];
    let state_plain = bind(&plain);
    let state_outlier = bind(&outlier);
    assert_eq!(state_plain.temperature_scale, state_outlier.temperature_scale);
    assert_ne!(state_plain.humidity_scale, state_outlier.humidity_scale);
}

#[test]
fn temperature_outlier_leaves_humidity_scale_alone() {
    let plain = vec![measurement(14.0, 42.0, 0), measurement(22.0, 65.0, 1)];
    let outlier = vec![measurement(-40.0, 42.0, 0), measurement(85.0, 65.0, 1)];
    let state_plain = bind(&plain);
    let state_outlier = bind(&outlier);
    assert_eq!(state_plain.humidity_scale, state_outlier.humidity_scale);
    assert_ne!(state_plain.temperature_scale, state_outlier.temperature_scale);
}

#[test]
fn binding_the_same_batch_twice_is_identical() {
    let batch = vec![
        measurement(14.0, 42.0, 0),
        measurement(22.0, 65.0, 86_400_000),
        measurement(16.25, 58.5, 172_800_000),
    ];
    let mut once = initial_chart_state();
    update_data(&mut once, &batch);
    let mut twice = initial_chart_state();
    update_data(&mut twice, &batch);
    update_data(&mut twice, &batch);
    assert_eq!(once, twice);
}

#[test]
fn two_record_batch_scales_and_series() {
    let day0: i64 = 0;
    let day1: i64 = 86_400_000;
    let batch = vec![measurement(14.0, 42.0, day0), measurement(22.0, 65.0, day1)];
    let state = bind(&batch);
    assert_eq!(state.temperature_scale.min, milli(12.0));
    assert_eq!(state.temperature_scale.max, milli(24.0));
    assert_eq!(state.temperature_scale.step, milli(2.0));
    assert_eq!(state.humidity_scale.min, milli(22.0));
    assert_eq!(state.humidity_scale.max, milli(85.0));
    assert_eq!(state.humidity_scale.step, milli(20.0));
    assert_eq!(state.temperature_points.len(), 2);
    assert_eq!(state.humidity_points.len(), 2);
    assert_eq!(state.temperature_points[0].value_milli, milli(14.0));
    assert_eq!(state.temperature_points[1].value_milli, milli(22.0));
    assert_eq!(state.humidity_points[0].value_milli, milli(42.0));
    assert_eq!(state.humidity_points[1].value_milli, milli(65.0));
}

#[test]
fn empty_batch_falls_back_to_default_scales() {
    let state = bind(&vec![]);
    assert_eq!(state.temperature_scale.min, milli(8.0));
    assert_eq!(state.temperature_scale.max, milli(34.0));
    assert_eq!(state.humidity_scale.min, milli(0.0));
    assert_eq!(state.humidity_scale.max, milli(100.0));
    assert!(state.temperature_points.is_empty());
    assert!(state.humidity_points.is_empty());
}

#[test]
fn single_record_batch_scales() {
    let batch = vec![measurement(20.0, 50.0, 0)];
    let state = bind(&batch);
    assert_eq!(state.temperature_scale.min, milli(18.0));
    assert_eq!(state.temperature_scale.max, milli(22.0));
    assert_eq!(state.humidity_scale.min, milli(30.0));
    assert_eq!(state.humidity_scale.max, milli(70.0));
}
