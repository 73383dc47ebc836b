//! A streaming audio decode/resample pipeline.
//!
//! The library models the pull-based state machine that feeds compressed
//! packets to a decoder, forwards decoded frames through a resampler, and
//! accumulates the converted samples in order until a two-phase shutdown
//! (decoder flush, then resampler drain) completes. The decoder and the
//! resampler themselves are outside capabilities; what is verified here is
//! every decision the pipeline makes: configuration validation, the
//! normalization of the decoder's control signals (need-more-input and the
//! two end-of-stream shapes), channel selection, the order in which samples
//! are accumulated, and the encoding hand-off to the sink.

pub mod config;
pub mod signal;
pub mod frame;
pub mod driver;
pub mod sink;
