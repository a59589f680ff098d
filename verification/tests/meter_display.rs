use tone_meter::level_meter::{
    format_level_reading, format_tenths, BlockAction, LevelReading, SampleProcessor,
};
use tone_meter::events::EventType;

/// The classification the analysis thread applies to a computed dBFS value
/// before it hands the reading to the library: non-finite values stay
/// non-finite, a value between -0.1 and 0 reads as zero, anything else is
/// rounded to tenths of a decibel.
fn classify(value: f64) -> LevelReading {
    if !value.is_finite() {
        LevelReading::NonFinite
    } else if value > -0.1 && value < 0.0 {
        LevelReading::Tenths(0)
    } else {
        LevelReading::Tenths((value * 10.0).round() as i64)
    }
}

#[test]
fn format_dash_for_positive_infinity() {
    assert_eq!(format_level_reading(classify(f64::INFINITY), 0, false), "-");
}

#[test]
fn format_dash_for_negative_infinity() {
    assert_eq!(format_level_reading(classify(f64::NEG_INFINITY), 0, false), "-");
}

#[test]
fn format_dash_for_nan() {
    assert_eq!(format_level_reading(classify(f64::NAN), 0, false), "-");
}

#[test]
fn format_small_negative_value_as_plain_zero() {
    assert_eq!(format_level_reading(classify(-0.05), 0, false), "0.0");
}

#[test]
fn format_value_above_one_tenth_with_plus_sign() {
    assert_eq!(format_level_reading(classify(0.15), 0, false), "+0.2");
}

#[test]
fn format_one_tenth_without_plus_sign() {
    assert_eq!(format_level_reading(classify(0.1), 0, false), "0.1");
}

#[test]
fn format_negative_level_with_minus_sign() {
    assert_eq!(format_level_reading(classify(-6.02), 0, false), "-6.0");
}

#[test]
fn format_exact_zero_as_zero() {
    assert_eq!(format_level_reading(classify(0.0), 0, false), "0.0");
}

#[test]
fn format_tenths_renders_whole_and_fraction() {
    assert_eq!(format_tenths(-180), "-18.0");
    assert_eq!(format_tenths(-181), "-18.1");
    assert_eq!(format_tenths(123), "+12.3");
    assert_eq!(format_tenths(1), "0.1");
    assert_eq!(format_tenths(2), "+0.2");
    assert_eq!(format_tenths(0), "0.0");
    assert_eq!(format_tenths(-1), "-0.1");
}

#[test]
fn delta_mode_shifts_display_by_exactly_the_reference_level() {
    let reading = classify(-20.0);
    let absolute = format_level_reading(reading, -18, false);
    let relative = format_level_reading(reading, -18, true);
    assert_eq!(absolute, "-20.0");
    assert_eq!(relative, "-2.0");
}

#[test]
fn delta_mode_leaves_nonfinite_readings_alone() {
    assert_eq!(format_level_reading(LevelReading::NonFinite, -18, true), "-");
    assert_eq!(format_level_reading(LevelReading::NonFinite, -18, false), "-");
}

#[test]
fn window_analysis_triggers_after_the_block_threshold() {
    let mut processor = SampleProcessor::new(-18, false);
    for _ in 0..21 {
        assert_eq!(processor.on_block(true), BlockAction::Collect);
    }
    assert_eq!(processor.on_block(true), BlockAction::AnalyzeWindow);
    assert_eq!(processor.blocks_collected, 1);
}

#[test]
fn repeated_readings_are_not_reemitted() {
    let mut processor = SampleProcessor::new(-18, false);
    let first = processor.on_window_measured(classify(-20.0), classify(-21.0));
    let (left, right) = first.unwrap();
    assert_eq!(left, "-20.0");
    assert_eq!(right, "-21.0");
    let second = processor.on_window_measured(classify(-20.0), classify(-21.0));
    assert!(second.is_none());
    let third = processor.on_window_measured(classify(-20.0), classify(-21.5));
    assert!(third.is_some());
}

#[test]
fn toggling_delta_mode_changes_subsequent_displayed_values_by_the_reference_level() {
    let mut processor = SampleProcessor::new(-18, false);
    let absolute = processor.on_window_measured(classify(-20.0), classify(-20.0)).unwrap();
    assert_eq!(absolute.0, "-20.0");
    processor.apply_control_event(&EventType::MeterModeUpdate(true));
    let relative = processor.on_window_measured(classify(-19.0), classify(-19.0)).unwrap();
    assert_eq!(relative.0, "-1.0");
}

#[test]
fn dead_block_raises_fatal_and_later_blocks_are_ignored() {
    let mut processor = SampleProcessor::new(-18, false);
    assert_eq!(processor.on_block(false), BlockAction::Fatal);
    assert_eq!(processor.on_block(true), BlockAction::Ignore);
}

#[test]
fn fatal_notification_wraps_the_producer_message() {
    let event = SampleProcessor::fatal_notification(&"device unplugged".to_string());
    match event {
        EventType::FatalError(text) => assert_eq!(
            text,
            "Error Reading Input Samples from Buffer: device unplugged"
        ),
        _ => panic!("expected a fatal error event"),
    }
}

#[test]
fn reference_level_update_reaches_the_processor() {
    let mut processor = SampleProcessor::new(-18, false);
    processor.apply_control_event(&EventType::ToneLevelUpdate(-12));
    processor.apply_control_event(&EventType::MeterModeUpdate(true));
    let shown = processor.on_window_measured(classify(-20.0), classify(-20.0)).unwrap();
    assert_eq!(shown.0, "-8.0");
}
