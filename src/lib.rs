//! Classifies a burst of keystroke telemetry as human or automated editing.
//!
//! Every derived quantity is an exact fraction of integers ([`Ratio`]), so the
//! threshold rules of the classifier are decided without rounding.
pub mod ratio;
pub mod stats;
pub mod analysis;
pub mod boundary;
pub mod laws;

pub use analysis::{
    classify, perform_analysis, AnalysisResult, CorrectionPattern, EditingMetrics, Prediction,
    Verdict,
};
pub use boundary::{respond, BoundaryError, Response};
pub use ratio::Ratio;
pub use stats::EditingStats;
