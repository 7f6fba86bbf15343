//! Properties of the metrics and the classifier that hold for every input.
use vstd::prelude::*;

use crate::analysis::{spec_classify, CorrectionPattern, Prediction, Verdict};
use crate::ratio::Ratio;
use crate::stats::EditingStats;

verus! {

/// With no keystrokes, the backspace, delete and correction ratios are all zero.
pub proof fn lemma_no_keystrokes_zero_ratios(stats: EditingStats)
    requires
        stats.total_keystrokes == 0,
    ensures
        stats.spec_backspace_ratio() == Ratio::spec_zero(),
        stats.spec_delete_ratio() == Ratio::spec_zero(),
        stats.spec_correction_ratio() == Ratio::spec_zero(),
{
}

/// With no elapsed time, the typing speed is zero.
pub proof fn lemma_no_duration_zero_speed(stats: EditingStats)
    requires
        stats.edit_duration_ms == 0,
    ensures
        stats.spec_typing_speed() == Ratio::spec_zero(),
{
}

/// With no characters typed, the character efficiency is zero.
pub proof fn lemma_no_characters_zero_efficiency(stats: EditingStats)
    requires
        stats.characters_typed == 0,
    ensures
        stats.spec_character_efficiency() == Ratio::spec_zero(),
{
}

/// Whatever the metrics, the confidence lies between 0.5 and 0.95.
pub proof fn lemma_confidence_bounded(backspace_ratio: Ratio, typing_speed: Ratio)
    ensures
        spec_classify(backspace_ratio, typing_speed).confidence.den == 100,
        50 <= spec_classify(backspace_ratio, typing_speed).confidence.num <= 95,
{
}

/// A backspace ratio of exactly 0.08, or of exactly 0.05 at no more than 600
/// characters per minute, is neutral: `Unknown` at confidence 0.5. (At 0.05
/// and a faster speed the second pass still decides `AI`.)
pub proof fn lemma_neutral_band(backspace_ratio: Ratio, typing_speed: Ratio)
    requires
        backspace_ratio.wf(),
        typing_speed.wf(),
        backspace_ratio.eq_frac(8, 100) || (backspace_ratio.eq_frac(5, 100)
            && !typing_speed.gt_frac(600, 1)),
    ensures
        spec_classify(backspace_ratio, typing_speed) == (Verdict {
            prediction: Prediction::Unknown,
            confidence: Ratio { num: 50, den: 100 },
        }),
{
}

/// Distinct predictions have distinct text forms, so a prediction is read
/// back from its text unchanged.
pub proof fn lemma_prediction_label_injective(a: Prediction, b: Prediction)
    ensures
        a.spec_label() == b.spec_label() ==> a == b,
{
    reveal_strlit("AI");
    reveal_strlit("Human");
    reveal_strlit("Unknown");
    assert("AI"@.len() != "Human"@.len());
    assert("AI"@.len() != "Unknown"@.len());
    assert("Human"@.len() != "Unknown"@.len());
}

/// Distinct tags have distinct text forms, so a tag is read back from its
/// text unchanged.
pub proof fn lemma_pattern_label_injective(a: CorrectionPattern, b: CorrectionPattern)
    ensures
        a.spec_label() == b.spec_label() ==> a == b,
{
    reveal_strlit("Frequent corrections");
    reveal_strlit("Very fast typing");
    reveal_strlit("Low efficiency");
    assert("Frequent corrections"@.len() != "Very fast typing"@.len());
    assert("Frequent corrections"@.len() != "Low efficiency"@.len());
    assert("Very fast typing"@.len() != "Low efficiency"@.len());
}

} // verus!
