use note_sequencer::timing::{BeatValue, Time, TimeBuilder, TimeValue, TimingError};

fn reading(h: u16, m: u16, s: u16, ms: u16) -> Time {
    Time { h: Some(h), m: Some(m), s: Some(s), ms: Some(ms) }
}

#[test]
fn bar_at_120_beats_per_minute_lasts_500_ms() {
    let beat = BeatValue::from_bpm(120_000).unwrap();
    assert_eq!(beat.u64_from_beats(1, 1), Ok(500));
}

#[test]
fn bar_at_60_beats_per_minute_lasts_1000_ms() {
    let beat = BeatValue::from_bpm(60_000).unwrap();
    assert_eq!(beat.u64_from_beats(1, 1), Ok(1000));
}

#[test]
fn tempo_of_zero_is_refused() {
    assert_eq!(BeatValue::from_bpm(0), Err(TimingError::InvalidTempo));
}

#[test]
fn bar_length_is_rounded_down() {
    assert_eq!(BeatValue::from_bpm(130_000).unwrap().u64_from_beats(1, 1), Ok(461));
    assert_eq!(BeatValue::from_bpm(126_000).unwrap().u64_from_beats(1, 1), Ok(476));
    assert_eq!(BeatValue::from_bpm(126_500).unwrap().u64_from_beats(1, 1), Ok(474));
    assert_eq!(BeatValue::from_bpm(7).unwrap().u64_from_beats(1, 1), Ok(8_571_428));
}

#[test]
fn bar_length_at_the_ends_of_the_tempo_range() {
    assert_eq!(BeatValue::from_bpm(1).unwrap().u64_from_beats(1, 1), Ok(60_000_000));
    assert_eq!(BeatValue::from_bpm(60_000_000).unwrap().u64_from_beats(1, 1), Ok(1));
    assert_eq!(BeatValue::from_bpm(60_000_001).unwrap().u64_from_beats(1, 1), Ok(0));
    assert_eq!(BeatValue::from_bpm(u64::MAX).unwrap().u64_from_beats(1, 1), Ok(0));
}

#[test]
fn bar_of_a_tempo_is_the_reading_of_its_length() {
    assert_eq!(BeatValue::from_bpm(120_000), Ok(BeatValue::new(reading(0, 0, 0, 500))));
    assert_eq!(BeatValue::from_bpm(1_000), Ok(BeatValue::new(reading(0, 1, 0, 0))));
    assert_eq!(BeatValue::from_bpm(1), Ok(BeatValue::new(reading(16, 40, 0, 0))));
}

#[test]
fn second_quarter_of_a_500_ms_bar_is_at_250_ms() {
    let beat = BeatValue::from_bpm(120_000).unwrap();
    assert_eq!(beat.u64_from_beats(4, 2), Ok(250));
}

#[test]
fn division_into_zero_parts_is_refused() {
    let beat = BeatValue::from_bpm(120_000).unwrap();
    assert_eq!(beat.u64_from_beats(0, 0), Err(TimingError::DivisionByZero));
    assert_eq!(beat.u64_from_beats(0, 1), Err(TimingError::DivisionByZero));
    assert_eq!(beat.u64_from_beats(0, u64::MAX), Err(TimingError::DivisionByZero));
}

#[test]
fn division_into_zero_parts_is_refused_before_anything_else() {
    let unknown = BeatValue::new(Time::new());
    assert_eq!(unknown.u64_from_beats(0, 3), Err(TimingError::DivisionByZero));
}

#[test]
fn length_of_a_part_is_rounded_down_before_it_is_multiplied() {
    let beat = BeatValue::from_bpm(120_000).unwrap();
    assert_eq!(beat.u64_from_beats(3, 1), Ok(166));
    assert_eq!(beat.u64_from_beats(3, 2), Ok(332));
    assert_eq!(beat.u64_from_beats(3, 3), Ok(498));
    assert_eq!(beat.u64_from_beats(7, 7), Ok(497));
    assert_eq!(beat.u64_from_beats(501, 5), Ok(0));
    assert_eq!(beat.u64_from_beats(500, 5), Ok(5));
}

#[test]
fn offset_of_part_zero_is_zero() {
    let beat = BeatValue::from_bpm(120_000).unwrap();
    assert_eq!(beat.u64_from_beats(4, 0), Ok(0));
    assert_eq!(beat.u64_from_beats(1, 0), Ok(0));
}

#[test]
fn offset_may_lie_beyond_the_bar() {
    let beat = BeatValue::from_bpm(120_000).unwrap();
    assert_eq!(beat.u64_from_beats(4, 4), Ok(500));
    assert_eq!(beat.u64_from_beats(4, 9), Ok(1125));
}

#[test]
fn offset_that_does_not_fit_is_refused() {
    let beat = BeatValue::from_bpm(120_000).unwrap();
    assert_eq!(beat.u64_from_beats(1, 36_893_488_147_419_103), Ok(18_446_744_073_709_551_500));
    assert_eq!(beat.u64_from_beats(1, 36_893_488_147_419_104), Err(TimingError::Overflow));
    assert_eq!(beat.u64_from_beats(1, u64::MAX), Err(TimingError::Overflow));
    assert_eq!(beat.u64_from_beats(500, u64::MAX), Ok(u64::MAX));
}

#[test]
fn bar_of_unknown_length_gives_no_offset() {
    let unknown = BeatValue::new(Time::new());
    assert_eq!(unknown.u64_from_beats(4, 2), Err(TimingError::IncompleteTime));
    let partly = BeatValue::new(Time { h: Some(0), m: Some(0), s: None, ms: Some(500) });
    assert_eq!(partly.u64_from_beats(1, 1), Err(TimingError::IncompleteTime));
}

#[test]
fn bar_made_of_a_reading_has_its_length() {
    let beat = BeatValue::new(reading(0, 0, 2, 0));
    assert_eq!(beat.u64_from_beats(1, 1), Ok(2000));
    assert_eq!(beat.u64_from_beats(8, 3), Ok(750));
}

#[test]
fn reading_in_milliseconds_weighs_each_field() {
    assert_eq!(reading(0, 0, 0, 0).as_ms(), Some(0));
    assert_eq!(reading(0, 0, 0, 999).as_ms(), Some(999));
    assert_eq!(reading(0, 0, 1, 0).as_ms(), Some(1000));
    assert_eq!(reading(0, 1, 0, 0).as_ms(), Some(60_000));
    assert_eq!(reading(1, 0, 0, 0).as_ms(), Some(3_600_000));
    assert_eq!(reading(1, 2, 3, 4).as_ms(), Some(3_723_004));
}

#[test]
fn reading_with_fields_out_of_range_is_still_weighed() {
    assert_eq!(reading(0, 75, 0, 0).as_ms(), Some(4_500_000));
    assert_eq!(reading(0, 0, 0, 1500).as_ms(), Some(1500));
    assert_eq!(reading(65_535, 65_535, 65_535, 65_535).as_ms(), Some(239_923_700_535));
}

#[test]
fn reading_that_lacks_a_field_has_no_milliseconds() {
    assert_eq!(Time::new().as_ms(), None);
    assert_eq!(Time { h: None, m: Some(1), s: Some(1), ms: Some(1) }.as_ms(), None);
    assert_eq!(Time { h: Some(1), m: None, s: Some(1), ms: Some(1) }.as_ms(), None);
    assert_eq!(Time { h: Some(1), m: Some(1), s: None, ms: Some(1) }.as_ms(), None);
    assert_eq!(Time { h: Some(1), m: Some(1), s: Some(1), ms: None }.as_ms(), None);
}

#[test]
fn milliseconds_are_split_into_fields() {
    assert_eq!(Time::from_ms(0), reading(0, 0, 0, 0));
    assert_eq!(Time::from_ms(999), reading(0, 0, 0, 999));
    assert_eq!(Time::from_ms(1000), reading(0, 0, 1, 0));
    assert_eq!(Time::from_ms(59_999), reading(0, 0, 59, 999));
    assert_eq!(Time::from_ms(60_000), reading(0, 1, 0, 0));
    assert_eq!(Time::from_ms(3_599_999), reading(0, 59, 59, 999));
    assert_eq!(Time::from_ms(3_600_000), reading(1, 0, 0, 0));
    assert_eq!(Time::from_ms(3_723_004), reading(1, 2, 3, 4));
}

#[test]
fn hours_wrap_at_their_limit() {
    assert_eq!(Time::from_ms(235_929_599_999), reading(65_535, 59, 59, 999));
    assert_eq!(Time::from_ms(235_929_600_000), reading(0, 0, 0, 0));
    assert_eq!(Time::from_ms(235_929_600_005), reading(0, 0, 0, 5));
    assert_eq!(Time::from_ms(u64::MAX), reading(34_782, 25, 51, 615));
}

#[test]
fn milliseconds_come_back_from_their_reading() {
    for value in [0u64, 1, 999, 1000, 1001, 59_999, 60_000, 3_599_999, 3_600_000, 86_400_000, 235_929_599_999] {
        assert_eq!(Time::from_ms(value).as_ms(), Some(value));
    }
}

#[test]
fn a_normal_reading_comes_back_from_its_milliseconds() {
    for time in [reading(0, 0, 0, 0), reading(1, 2, 3, 4), reading(23, 59, 59, 999), reading(65_535, 0, 0, 1)] {
        assert_eq!(Time::from_ms(time.as_ms().unwrap()), time);
    }
}

#[test]
fn a_reading_is_complete_when_every_field_is_set() {
    assert!(reading(0, 0, 0, 0).check_completion());
    assert!(!Time::new().check_completion());
    assert!(!Time { h: Some(1), m: None, s: None, ms: None }.check_completion());
    assert!(!Time { h: None, m: Some(1), s: Some(1), ms: Some(1) }.check_completion());
    assert!(!Time { h: Some(1), m: Some(1), s: Some(1), ms: None }.check_completion());
}

#[test]
fn a_new_reading_has_no_field_set() {
    assert_eq!(Time::new(), Time { h: None, m: None, s: None, ms: None });
}

#[test]
fn a_fresh_time_builder_builds_an_incomplete_reading() {
    assert_eq!(TimeBuilder::new().build(), TimeValue::Incomplete(Time::new()));
}

#[test]
fn a_time_builder_with_every_field_builds_a_complete_reading() {
    let builder = TimeBuilder::new().h(1).m(2).s(3).ms(4);
    assert_eq!(builder.build(), TimeValue::Complete(reading(1, 2, 3, 4)));
}

#[test]
fn a_time_builder_that_lacks_a_field_builds_an_incomplete_reading() {
    let builder = TimeBuilder::new().h(1).s(3).ms(4);
    assert_eq!(
        builder.build(),
        TimeValue::Incomplete(Time { h: Some(1), m: None, s: Some(3), ms: Some(4) })
    );
}

#[test]
fn a_time_builder_keeps_the_last_value_of_a_field() {
    let builder = TimeBuilder::new().ms(10).ms(20);
    assert_eq!(builder.safe_build(), reading(0, 0, 0, 20));
}

#[test]
fn a_time_builder_fills_missing_fields_with_zero() {
    assert_eq!(TimeBuilder::new().safe_build(), reading(0, 0, 0, 0));
    assert_eq!(TimeBuilder::new().m(7).safe_build(), reading(0, 7, 0, 0));
    assert_eq!(TimeBuilder::new().h(1).m(2).s(3).ms(4).safe_build(), reading(1, 2, 3, 4));
    assert_eq!(TimeBuilder::new().s(61).safe_build(), reading(0, 0, 61, 0));
}

#[test]
fn filling_with_zero_is_repeatable() {
    let builder = TimeBuilder::new().h(5).ms(6);
    assert_eq!(builder.safe_build(), builder.safe_build());
    assert_eq!(builder.build(), builder.build());
}
