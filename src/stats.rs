//! Raw keystroke counters and the metrics derived from them.
use vstd::prelude::*;

use crate::ratio::Ratio;

verus! {

/// Milliseconds in one minute.
pub const MS_PER_MINUTE: u64 = 60000;

/// Counters aggregated over one editing burst.
#[derive(Clone, Copy, Debug, PartialEq, Eq, Structural)]
pub struct EditingStats {
    pub total_keystrokes: u32,
    pub backspace_count: u32,
    pub delete_count: u32,
    pub characters_typed: u32,
    pub edit_duration_ms: u64,
}

/// `num / den`, or `0 / 1` when `den` is zero.
pub open spec fn ratio_or_zero(num: int, den: int) -> Ratio {
    if den == 0 {
        Ratio::spec_zero()
    } else {
        Ratio { num: num as i64, den: den as u64 }
    }
}

impl EditingStats {
    /// Backspaces per keystroke.
    pub open spec fn spec_backspace_ratio(self) -> Ratio {
        ratio_or_zero(self.backspace_count as int, self.total_keystrokes as int)
    }

    /// Deletes per keystroke.
    pub open spec fn spec_delete_ratio(self) -> Ratio {
        ratio_or_zero(self.delete_count as int, self.total_keystrokes as int)
    }

    /// Corrections (backspaces and deletes) per keystroke.
    pub open spec fn spec_correction_ratio(self) -> Ratio {
        ratio_or_zero(
            self.backspace_count + self.delete_count,
            self.total_keystrokes as int,
        )
    }

    /// Characters per minute: `characters_typed / (edit_duration_ms / 60000)`.
    pub open spec fn spec_typing_speed(self) -> Ratio {
        ratio_or_zero(
            self.characters_typed * MS_PER_MINUTE,
            self.edit_duration_ms as int,
        )
    }

    /// Share of typed characters that were not corrected; negative when the
    /// corrections outnumber the characters.
    pub open spec fn spec_character_efficiency(self) -> Ratio {
        ratio_or_zero(
            self.characters_typed - self.backspace_count - self.delete_count,
            self.characters_typed as int,
        )
    }

    /// All counters zero.
    pub fn new() -> (r: EditingStats)
        ensures
            r.total_keystrokes == 0,
            r.backspace_count == 0,
            r.delete_count == 0,
            r.characters_typed == 0,
            r.edit_duration_ms == 0,
    {
        EditingStats {
            total_keystrokes: 0,
            backspace_count: 0,
            delete_count: 0,
            characters_typed: 0,
            edit_duration_ms: 0,
        }
    }

    pub fn backspace_ratio(&self) -> (r: Ratio)
        ensures
            r == self.spec_backspace_ratio(),
            r.wf(),
    {
        if self.total_keystrokes == 0 {
            return Ratio::zero();
        }
        Ratio { num: self.backspace_count as i64, den: self.total_keystrokes as u64 }
    }

    pub fn delete_ratio(&self) -> (r: Ratio)
        ensures
            r == self.spec_delete_ratio(),
            r.wf(),
    {
        if self.total_keystrokes == 0 {
            return Ratio::zero();
        }
        Ratio { num: self.delete_count as i64, den: self.total_keystrokes as u64 }
    }

    pub fn correction_ratio(&self) -> (r: Ratio)
        ensures
            r == self.spec_correction_ratio(),
            r.wf(),
    {
        if self.total_keystrokes == 0 {
            return Ratio::zero();
        }
        let corrections: i64 = self.backspace_count as i64 + self.delete_count as i64;
        Ratio { num: corrections, den: self.total_keystrokes as u64 }
    }

    pub fn typing_speed(&self) -> (r: Ratio)
        ensures
            r == self.spec_typing_speed(),
            r.wf(),
    {
        if self.edit_duration_ms == 0 {
            return Ratio::zero();
        }
        let chars: i64 = self.characters_typed as i64;
        assert(chars * 60000 <= 0xffff_ffff * 60000) by (nonlinear_arith)
            requires
                0 <= chars <= 0xffff_ffff,
        ;
        let scaled: i64 = chars * MS_PER_MINUTE as i64;
        Ratio { num: scaled, den: self.edit_duration_ms }
    }

    pub fn character_efficiency(&self) -> (r: Ratio)
        ensures
            r == self.spec_character_efficiency(),
            r.wf(),
    {
        if self.characters_typed == 0 {
            return Ratio::zero();
        }
        let kept: i64 = self.characters_typed as i64 - self.backspace_count as i64
            - self.delete_count as i64;
        Ratio { num: kept, den: self.characters_typed as u64 }
    }
}

} // verus!
