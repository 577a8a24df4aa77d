pub mod generalization;
pub mod pattern_detector;
