//! The threshold rules that turn derived metrics into a verdict.
use vstd::prelude::*;

use crate::ratio::Ratio;
use crate::stats::EditingStats;

verus! {

/// Who most likely produced the keystrokes.
#[derive(Clone, Copy, Debug, PartialEq, Eq, Structural)]
pub enum Prediction {
    AI,
    Human,
    Unknown,
}

impl Prediction {
    pub open spec fn spec_label(self) -> Seq<char> {
        match self {
            Prediction::AI => "AI"@,
            Prediction::Human => "Human"@,
            Prediction::Unknown => "Unknown"@,
        }
    }

    /// The text form of the prediction.
    pub fn label(&self) -> (r: &'static str)
        ensures
            r@ == self.spec_label(),
    {
        match self {
            Prediction::AI => "AI",
            Prediction::Human => "Human",
            Prediction::Unknown => "Unknown",
        }
    }
}

/// A qualitative tag attached to an analysis.
#[derive(Clone, Copy, Debug, PartialEq, Eq, Structural)]
pub enum CorrectionPattern {
    FrequentCorrections,
    VeryFastTyping,
    LowEfficiency,
}

impl CorrectionPattern {
    pub open spec fn spec_label(self) -> Seq<char> {
        match self {
            CorrectionPattern::FrequentCorrections => "Frequent corrections"@,
            CorrectionPattern::VeryFastTyping => "Very fast typing"@,
            CorrectionPattern::LowEfficiency => "Low efficiency"@,
        }
    }

    /// The text form of the tag.
    pub fn label(&self) -> (r: &'static str)
        ensures
            r@ == self.spec_label(),
    {
        match self {
            CorrectionPattern::FrequentCorrections => "Frequent corrections",
            CorrectionPattern::VeryFastTyping => "Very fast typing",
            CorrectionPattern::LowEfficiency => "Low efficiency",
        }
    }
}

/// A prediction with its confidence, in hundredths (denominator 100).
#[derive(Clone, Copy, Debug, PartialEq, Eq, Structural)]
pub struct Verdict {
    pub prediction: Prediction,
    pub confidence: Ratio,
}

/// Secondary metrics of an analysis.
#[derive(Clone, Debug)]
pub struct EditingMetrics {
    pub correction_frequency: Ratio,
    pub character_efficiency: Ratio,
    pub correction_patterns: Vec<CorrectionPattern>,
}

/// The full outcome of analysing one editing burst.
#[derive(Clone, Debug)]
pub struct AnalysisResult {
    pub prediction: Prediction,
    pub confidence: Ratio,
    pub backspace_ratio: Ratio,
    pub typing_speed: Ratio,
    pub metrics: EditingMetrics,
}

pub open spec fn max_int(a: int, b: int) -> int {
    if a >= b { a } else { b }
}

pub open spec fn min_int(a: int, b: int) -> int {
    if a <= b { a } else { b }
}

/// The first pass: a verdict from the backspace ratio alone, starting from
/// `Unknown` at 50 hundredths.
pub open spec fn ratio_pass(backspace_ratio: Ratio, typing_speed: Ratio) -> (Prediction, int) {
    if backspace_ratio.lt_frac(5, 100) {
        (Prediction::AI, 80 + if typing_speed.gt_frac(400, 1) { 20int } else { 0int })
    } else if backspace_ratio.gt_frac(8, 100) {
        (Prediction::Human, 70 + if backspace_ratio.gt_frac(15, 100) { 10int } else { 0int })
    } else {
        (Prediction::Unknown, 50)
    }
}

/// The second pass: typing speed together with the backspace ratio may
/// override the first verdict and raise its confidence.
pub open spec fn speed_pass(
    backspace_ratio: Ratio,
    typing_speed: Ratio,
    first: (Prediction, int),
) -> (Prediction, int) {
    if typing_speed.gt_frac(600, 1) && backspace_ratio.lt_frac(7, 100) {
        (Prediction::AI, max_int(first.1, 80))
    } else if typing_speed.lt_frac(300, 1) && backspace_ratio.gt_frac(10, 100) {
        (Prediction::Human, max_int(first.1, 70))
    } else {
        first
    }
}

/// Both passes, with the confidence clamped to `[50, 95]` hundredths.
pub open spec fn spec_classify(backspace_ratio: Ratio, typing_speed: Ratio) -> Verdict {
    let (prediction, raw) = speed_pass(
        backspace_ratio,
        typing_speed,
        ratio_pass(backspace_ratio, typing_speed),
    );
    Verdict {
        prediction,
        confidence: Ratio { num: max_int(min_int(raw, 95), 50) as i64, den: 100 },
    }
}

/// The tags that hold, in the order: frequent corrections (backspace ratio
/// above 0.2), very fast typing (above 500 characters per minute), low
/// efficiency (below 0.7).
pub open spec fn spec_patterns(
    backspace_ratio: Ratio,
    typing_speed: Ratio,
    character_efficiency: Ratio,
) -> Seq<CorrectionPattern> {
    (if backspace_ratio.gt_frac(2, 10) {
        seq![CorrectionPattern::FrequentCorrections]
    } else {
        Seq::empty()
    }) + (if typing_speed.gt_frac(500, 1) {
        seq![CorrectionPattern::VeryFastTyping]
    } else {
        Seq::empty()
    }) + (if character_efficiency.lt_frac(7, 10) {
        seq![CorrectionPattern::LowEfficiency]
    } else {
        Seq::empty()
    })
}

/// Applies the two passes of threshold rules and clamps the confidence.
pub fn classify(backspace_ratio: &Ratio, typing_speed: &Ratio) -> (r: Verdict)
    ensures
        r == spec_classify(*backspace_ratio, *typing_speed),
        r.confidence.den == 100,
        50 <= r.confidence.num <= 95,
{
    let mut confidence: i64 = 50;
    let mut prediction = Prediction::Unknown;

    if backspace_ratio.less_than(5, 100) {
        confidence = confidence + 30;
        if typing_speed.greater_than(400, 1) {
            confidence = confidence + 20;
        }
        prediction = Prediction::AI;
    } else if backspace_ratio.greater_than(8, 100) {
        confidence = confidence + 20;
        if backspace_ratio.greater_than(15, 100) {
            confidence = confidence + 10;
        }
        prediction = Prediction::Human;
    }

    if typing_speed.greater_than(600, 1) && backspace_ratio.less_than(7, 100) {
        if confidence < 80 {
            confidence = 80;
        }
        prediction = Prediction::AI;
    } else if typing_speed.less_than(300, 1) && backspace_ratio.greater_than(10, 100) {
        if confidence < 70 {
            confidence = 70;
        }
        prediction = Prediction::Human;
    }

    if confidence > 95 {
        confidence = 95;
    }
    if confidence < 50 {
        confidence = 50;
    }
    Verdict { prediction, confidence: Ratio { num: confidence, den: 100 } }
}

/// The tags of [`spec_patterns`], in that order.
pub fn correction_patterns(
    backspace_ratio: &Ratio,
    typing_speed: &Ratio,
    character_efficiency: &Ratio,
) -> (r: Vec<CorrectionPattern>)
    ensures
        r@ == spec_patterns(*backspace_ratio, *typing_speed, *character_efficiency),
{
    let mut patterns: Vec<CorrectionPattern> = Vec::new();
    if backspace_ratio.greater_than(2, 10) {
        patterns.push(CorrectionPattern::FrequentCorrections);
    }
    if typing_speed.greater_than(500, 1) {
        patterns.push(CorrectionPattern::VeryFastTyping);
    }
    if character_efficiency.less_than(7, 10) {
        patterns.push(CorrectionPattern::LowEfficiency);
    }
    assert(patterns@ =~= spec_patterns(*backspace_ratio, *typing_speed, *character_efficiency));
    patterns
}

/// `r` holds the metrics of `stats`, their verdict and their tags.
pub open spec fn is_analysis_of(r: AnalysisResult, stats: EditingStats) -> bool {
    &&& r.backspace_ratio == stats.spec_backspace_ratio()
    &&& r.typing_speed == stats.spec_typing_speed()
    &&& r.metrics.correction_frequency == stats.spec_correction_ratio()
    &&& r.metrics.character_efficiency == stats.spec_character_efficiency()
    &&& r.prediction == spec_classify(
        stats.spec_backspace_ratio(),
        stats.spec_typing_speed(),
    ).prediction
    &&& r.confidence == spec_classify(
        stats.spec_backspace_ratio(),
        stats.spec_typing_speed(),
    ).confidence
    &&& r.metrics.correction_patterns@ == spec_patterns(
        stats.spec_backspace_ratio(),
        stats.spec_typing_speed(),
        stats.spec_character_efficiency(),
    )
}

/// Derives the metrics of `stats` and classifies them.
pub fn perform_analysis(stats: &EditingStats) -> (r: AnalysisResult)
    ensures
        is_analysis_of(r, *stats),
        r.backspace_ratio == stats.spec_backspace_ratio(),
        r.typing_speed == stats.spec_typing_speed(),
        r.metrics.correction_frequency == stats.spec_correction_ratio(),
        r.metrics.character_efficiency == stats.spec_character_efficiency(),
        r.prediction == spec_classify(
            stats.spec_backspace_ratio(),
            stats.spec_typing_speed(),
        ).prediction,
        r.confidence == spec_classify(
            stats.spec_backspace_ratio(),
            stats.spec_typing_speed(),
        ).confidence,
        r.metrics.correction_patterns@ == spec_patterns(
            stats.spec_backspace_ratio(),
            stats.spec_typing_speed(),
            stats.spec_character_efficiency(),
        ),
{
    let backspace_ratio = stats.backspace_ratio();
    let typing_speed = stats.typing_speed();
    let verdict = classify(&backspace_ratio, &typing_speed);
    let character_efficiency = stats.character_efficiency();
    let patterns = correction_patterns(&backspace_ratio, &typing_speed, &character_efficiency);
    AnalysisResult {
        prediction: verdict.prediction,
        confidence: verdict.confidence,
        backspace_ratio,
        typing_speed,
        metrics: EditingMetrics {
            correction_frequency: stats.correction_ratio(),
            character_efficiency,
            correction_patterns: patterns,
        },
    }
}

} // verus!
