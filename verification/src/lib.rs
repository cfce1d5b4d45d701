//! Integer core of a stadium audio equalizer: configuration, the pipeline's
//! state machine, a ring buffer, the Bark band layout and the bookkeeping of
//! the minimum-statistics noise estimator.

pub mod types;
pub mod bands;
pub mod frame;
pub mod config;
pub mod pipeline;
pub mod noise;
pub mod weights;
pub mod calibration;
pub mod framing;
