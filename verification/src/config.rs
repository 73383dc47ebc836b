//! Stream and output-format configuration, and the errors the pipeline can
//! surface. A channel count other than mono or stereo has no layout mapping
//! and is rejected before any packet is read.

use vstd::prelude::*;

verus! {

/// The errors that abort the pipeline. The decoder's "needs more input"
/// signal and the two end-of-stream shapes are control signals, not errors,
/// and are handled in `signal`.
#[derive(Clone, Copy, Debug, PartialEq, Eq, Structural)]
pub enum PipelineError {
    /// No channel layout exists for this channel count: only mono and stereo
    /// are supported.
    UnsupportedChannelCount(u16),
    /// A negative decode or demux code that is not a recognized end-of-stream
    /// shape; carries the underlying numeric code.
    FatalDecode(i32),
    /// The sink was asked for an output it cannot represent, or failed to
    /// encode it.
    Sink,
}

/// Properties of the input stream, derived once at startup and immutable.
#[derive(Clone, Copy, Debug, PartialEq, Eq, Structural)]
pub struct StreamDescriptor {
    pub sample_rate: u32,
    pub channels: u16,
}

/// The target rate, channel count and bit depth of the output, one structure
/// instead of scattered constants.
#[derive(Clone, Copy, Debug, PartialEq, Eq, Structural)]
pub struct OutputConfig {
    pub target_sample_rate: u32,
    pub target_channels: u16,
    pub target_bit_depth: u16,
}

impl OutputConfig {
    /// The formats the sink can carry: mono or stereo, 16-bit integer
    /// samples, and a positive rate small enough that the byte rate fits the
    /// header's 32-bit field.
    pub open spec fn valid(self) -> bool {
        &&& 1 <= self.target_channels <= 2
        &&& self.target_bit_depth == 16
        &&& 1 <= self.target_sample_rate <= 0x3FFF_FFFF
    }

    /// Runtime check of `valid`.
    pub fn is_valid(&self) -> (r: bool)
        ensures
            r == self.valid(),
    {
        1 <= self.target_channels && self.target_channels <= 2
            && self.target_bit_depth == 16
            && 1 <= self.target_sample_rate && self.target_sample_rate <= 0x3FFF_FFFF
    }
}

/// The channel layout chosen for a supported channel count.
#[derive(Clone, Copy, Debug, PartialEq, Eq, Structural)]
pub enum ChannelLayoutChoice {
    Mono,
    Stereo,
}

/// What `select_channel_layout` returns, as a function of the channel count
/// alone: the rejection of an unsupported count depends on no stream content.
pub open spec fn spec_select_channel_layout(channels: u16) -> Result<
    ChannelLayoutChoice,
    PipelineError,
> {
    if channels == 1 {
        Ok(ChannelLayoutChoice::Mono)
    } else if channels == 2 {
        Ok(ChannelLayoutChoice::Stereo)
    } else {
        Err(PipelineError::UnsupportedChannelCount(channels))
    }
}

/// Map a channel count to its layout, or reject it. This runs before any
/// packet is read: a stream with any other channel count never starts
/// decoding.
pub fn select_channel_layout(channels: u16) -> (r: Result<ChannelLayoutChoice, PipelineError>)
    ensures
        r == spec_select_channel_layout(channels),
        (r matches Ok(_)) <==> (channels == 1 || channels == 2),
{
    if channels == 1 {
        Ok(ChannelLayoutChoice::Mono)
    } else if channels == 2 {
        Ok(ChannelLayoutChoice::Stereo)
    } else {
        Err(PipelineError::UnsupportedChannelCount(channels))
    }
}

impl StreamDescriptor {
    /// The startup invariant: the stream's channel count has a layout —
    /// it is mono or stereo.
    pub open spec fn valid(self) -> bool {
        spec_select_channel_layout(self.channels) is Ok
    }

    /// Validate the descriptor before any packet is read: the layout chosen
    /// for its channel count, or the configuration error naming that count.
    pub fn validate(&self) -> (r: Result<ChannelLayoutChoice, PipelineError>)
        ensures
            r == spec_select_channel_layout(self.channels),
            (r is Ok) <==> self.valid(),
    {
        select_channel_layout(self.channels)
    }
}

/// Law: rejecting an unsupported channel count is unconditional and stable —
/// every call on such a count yields the same configuration error, whatever
/// else happens, so the failure precedes any packet read.
pub proof fn lemma_config_rejection_idempotent(channels: u16)
    ensures
        channels != 1 && channels != 2 ==> spec_select_channel_layout(channels) == Err::<
            ChannelLayoutChoice,
            PipelineError,
        >(PipelineError::UnsupportedChannelCount(channels)),
        channels == 1 || channels == 2 ==> spec_select_channel_layout(channels) is Ok,
{
}

} // verus!
