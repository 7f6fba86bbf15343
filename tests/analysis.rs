use backspace_analyzer::{
    classify, perform_analysis, respond, BoundaryError, CorrectionPattern, EditingStats, Prediction,
    Ratio, Response,
};

fn value(r: Ratio) -> f64 {
    r.num as f64 / r.den as f64
}

fn stats(total: u32, backspace: u32, delete: u32, chars: u32, ms: u64) -> EditingStats {
    EditingStats {
        total_keystrokes: total,
        backspace_count: backspace,
        delete_count: delete,
        characters_typed: chars,
        edit_duration_ms: ms,
    }
}

#[test]
fn test_new_editing_stats() {
    let stats = EditingStats::new();
    assert_eq!(stats.total_keystrokes, 0);
    assert_eq!(stats.backspace_count, 0);
}

#[test]
fn test_backspace_ratio() {
    let mut stats = EditingStats::new();
    stats.total_keystrokes = 100;
    stats.backspace_count = 10;

    assert_eq!(value(stats.backspace_ratio()), 0.1);
}

#[test]
fn test_analyze_editing_pattern() {
    let stats = stats(1000, 5, 2, 993, 60000);
    let analysis = perform_analysis(&stats);
    assert_eq!(analysis.prediction.label(), "AI");
    assert!(value(analysis.confidence) > 0.7);
}

#[test]
fn fast_accurate_typing_is_ai_at_top_confidence() {
    let analysis = perform_analysis(&stats(1000, 5, 2, 993, 60000));
    assert_eq!(analysis.prediction, Prediction::AI);
    assert_eq!(value(analysis.backspace_ratio), 0.005);
    assert_eq!(value(analysis.typing_speed), 993.0);
    assert_eq!(value(analysis.confidence), 0.95);
    assert_eq!(analysis.metrics.correction_patterns, vec![CorrectionPattern::VeryFastTyping]);
}

#[test]
fn moderate_corrections_are_human() {
    let analysis = perform_analysis(&stats(100, 10, 0, 90, 60000));
    assert_eq!(value(analysis.backspace_ratio), 0.1);
    assert_eq!(value(analysis.typing_speed), 90.0);
    assert_eq!(analysis.prediction, Prediction::Human);
    assert_eq!(value(analysis.confidence), 0.7);
    assert!(analysis.metrics.correction_patterns.is_empty());
}

#[test]
fn all_zero_stats_follow_the_rules() {
    // a zero backspace ratio is below 0.05 and a zero efficiency below 0.7
    let analysis = perform_analysis(&EditingStats::new());
    assert_eq!(value(analysis.backspace_ratio), 0.0);
    assert_eq!(value(analysis.typing_speed), 0.0);
    assert_eq!(value(analysis.metrics.correction_frequency), 0.0);
    assert_eq!(value(analysis.metrics.character_efficiency), 0.0);
    assert_eq!(analysis.prediction, Prediction::AI);
    assert_eq!(value(analysis.confidence), 0.8);
    assert_eq!(analysis.metrics.correction_patterns, vec![CorrectionPattern::LowEfficiency]);
}

#[test]
fn no_keystrokes_gives_zero_ratios() {
    let s = stats(0, 7, 3, 50, 1000);
    assert_eq!(value(s.backspace_ratio()), 0.0);
    assert_eq!(value(s.delete_ratio()), 0.0);
    assert_eq!(value(s.correction_ratio()), 0.0);
}

#[test]
fn no_duration_gives_zero_speed() {
    assert_eq!(value(stats(100, 1, 1, 98, 0).typing_speed()), 0.0);
}

#[test]
fn no_characters_gives_zero_efficiency() {
    assert_eq!(value(stats(100, 10, 5, 0, 1000).character_efficiency()), 0.0);
}

#[test]
fn ratios_follow_the_formulas() {
    let s = stats(200, 10, 30, 150, 30000);
    assert_eq!(value(s.delete_ratio()), 0.15);
    assert_eq!(value(s.correction_ratio()), 0.2);
    assert_eq!(value(s.typing_speed()), 300.0);
    assert_eq!(s.character_efficiency(), Ratio { num: 110, den: 150 });
}

#[test]
fn efficiency_goes_negative_when_corrections_exceed_characters() {
    let s = stats(100, 30, 20, 10, 60000);
    assert_eq!(s.character_efficiency(), Ratio { num: -40, den: 10 });
    let analysis = perform_analysis(&s);
    assert_eq!(
        analysis.metrics.correction_patterns,
        vec![CorrectionPattern::FrequentCorrections, CorrectionPattern::LowEfficiency]
    );
}

#[test]
fn largest_counters_do_not_overflow() {
    let s = stats(u32::MAX, u32::MAX, u32::MAX, u32::MAX, u64::MAX);
    assert_eq!(s.correction_ratio(), Ratio { num: 2 * u32::MAX as i64, den: u32::MAX as u64 });
    assert_eq!(s.typing_speed(), Ratio { num: u32::MAX as i64 * 60000, den: u64::MAX });
    let analysis = perform_analysis(&s);
    assert_eq!(analysis.prediction, Prediction::Human);
}

#[test]
fn ratio_of_exactly_eight_hundredths_is_neutral() {
    let analysis = perform_analysis(&stats(100, 8, 0, 92, 60000));
    assert_eq!(analysis.prediction, Prediction::Unknown);
    assert_eq!(value(analysis.confidence), 0.5);
}

#[test]
fn ratio_of_exactly_five_hundredths_is_neutral() {
    let analysis = perform_analysis(&stats(100, 5, 0, 95, 60000));
    assert_eq!(analysis.prediction, Prediction::Unknown);
    assert_eq!(value(analysis.confidence), 0.5);
}

#[test]
fn speed_pass_overrides_human_verdict() {
    // ratio 0.06: neither first-pass branch; fast typing decides AI at 0.8
    let analysis = perform_analysis(&stats(100, 6, 0, 700, 60000));
    assert_eq!(analysis.prediction, Prediction::AI);
    assert_eq!(value(analysis.confidence), 0.8);
}

#[test]
fn slow_heavy_correction_is_human() {
    // ratio 0.3: 0.5 + 0.2 + 0.1, then max with 0.7
    let analysis = perform_analysis(&stats(100, 30, 0, 100, 60000));
    assert_eq!(analysis.prediction, Prediction::Human);
    assert_eq!(value(analysis.confidence), 0.8);
    assert_eq!(
        analysis.metrics.correction_patterns,
        vec![CorrectionPattern::FrequentCorrections]
    );
}

#[test]
fn low_ratio_slow_typing_is_ai_without_speed_bonus() {
    let analysis = perform_analysis(&stats(100, 1, 0, 100, 60000));
    assert_eq!(analysis.prediction, Prediction::AI);
    assert_eq!(value(analysis.confidence), 0.8);
}

#[test]
fn confidence_stays_in_range() {
    for &(t, b, c, ms) in &[(100u32, 0u32, 5000u32, 1000u64), (100, 50, 1, 60000), (10, 9, 1, 1)] {
        let analysis = perform_analysis(&stats(t, b, 0, c, ms));
        let c = value(analysis.confidence);
        assert!(0.5 <= c && c <= 0.95);
    }
}

#[test]
fn undecodable_request_is_an_error() {
    let response = respond(None);
    assert!(response.is_error());
    match response {
        Response::Failure(e) => {
            assert_eq!(e, BoundaryError::Decode);
            assert_eq!(e.message(), "Failed to parse editing stats");
        },
        Response::Success(_) => panic!("expected an error envelope"),
    }
}

#[test]
fn decoded_request_is_analysed() {
    let response = respond(Some(stats(100, 10, 0, 90, 60000)));
    assert!(!response.is_error());
    match response {
        Response::Success(a) => assert_eq!(a.prediction, Prediction::Human),
        Response::Failure(_) => panic!("expected a result"),
    }
}

#[test]
fn labels_are_the_text_forms() {
    assert_eq!(Prediction::Human.label(), "Human");
    assert_eq!(Prediction::Unknown.label(), "Unknown");
    assert_eq!(CorrectionPattern::FrequentCorrections.label(), "Frequent corrections");
    assert_eq!(CorrectionPattern::VeryFastTyping.label(), "Very fast typing");
    assert_eq!(CorrectionPattern::LowEfficiency.label(), "Low efficiency");
    assert_eq!(BoundaryError::Encode.message(), "Failed to serialize analysis results");
}

#[test]
fn classify_thresholds_are_strict() {
    let per_minute = |n: i64| Ratio { num: n, den: 1 };
    let hundredths = |n: i64| Ratio { num: n, den: 100 };
    // exactly 0.15: the extra 0.1 needs a ratio above 0.15
    let v = classify(&hundredths(15), &per_minute(400));
    assert_eq!((v.prediction, v.confidence), (Prediction::Human, hundredths(70)));
    // just above 0.15
    let v = classify(&Ratio { num: 151, den: 1000 }, &per_minute(400));
    assert_eq!((v.prediction, v.confidence), (Prediction::Human, hundredths(80)));
    // exactly 400 characters per minute earns no speed bonus
    let v = classify(&hundredths(1), &per_minute(400));
    assert_eq!((v.prediction, v.confidence), (Prediction::AI, hundredths(80)));
    let v = classify(&hundredths(1), &per_minute(401));
    assert_eq!((v.prediction, v.confidence), (Prediction::AI, hundredths(95)));
    // exactly 0.05 above 600 characters per minute: the second pass decides AI
    let v = classify(&hundredths(5), &per_minute(601));
    assert_eq!((v.prediction, v.confidence), (Prediction::AI, hundredths(80)));
}

#[test]
fn fast_typing_tag_needs_more_than_500_per_minute() {
    let at = perform_analysis(&stats(1000, 50, 0, 500, 60000));
    assert!(!at.metrics.correction_patterns.contains(&CorrectionPattern::VeryFastTyping));
    let above = perform_analysis(&stats(1000, 50, 0, 501, 60000));
    assert!(above.metrics.correction_patterns.contains(&CorrectionPattern::VeryFastTyping));
}
