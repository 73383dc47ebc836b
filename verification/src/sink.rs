//! The sink boundary: turning the accumulated samples into a finalized,
//! header-correct wav file image.
//!
//! The encoder is the outside wav crate, driven over an in-memory cursor;
//! what it produces for given arguments is named, not restated. Writing the
//! finished bytes to their destination is plain output and lives outside the
//! library. The image is finalized even when the sample sequence is empty.

use vstd::prelude::*;

use crate::config::OutputConfig;
use crate::config::PipelineError;

verus! {

/// The error type of the wav encoder crate.
#[verifier::external_type_specification]
#[verifier::external_body]
pub struct ExHoundError(hound::Error);

/// The finalized wav file image that the encoder writes for this rate,
/// channel count and sample sequence (16-bit integer samples): a function of
/// the arguments alone.
pub uninterp spec fn wav_bytes_of(sample_rate: u32, channels: u16, samples: Seq<i16>) -> Seq<u8>;

/// Relies on hound::WavWriter: `new` over an in-memory cursor writes the
/// 44-byte PCMWAVEFORMAT header (the only shape for at most two channels at
/// 16 bits), `write_sample::<i16>` appends two bytes per sample, and
/// `finalize` patches the length fields. Writes into a cursor over a byte
/// vector cannot fail, 16-bit integer is a supported format, and a sample
/// count that is a multiple of the channel count finalizes cleanly, so the
/// call succeeds and its bytes depend on the arguments alone. The length
/// bound keeps the 32-bit file-size field in range: it counts the two data
/// bytes per sample plus the 36 header bytes that follow its own position.
#[verifier::external_body]
fn encode_wav(sample_rate: u32, channels: u16, samples: &Vec<i16>) -> (r: Result<
    Vec<u8>,
    hound::Error,
>)
    requires
        1 <= channels <= 2,
        1 <= sample_rate <= 0x3FFF_FFFF,
        samples@.len() % (channels as nat) == 0,
        2 * samples@.len() + 36 <= 0xFFFF_FFFF,
    ensures
        r is Ok,
        r matches Ok(b) ==> b@ == wav_bytes_of(sample_rate, channels, samples@) && b@.len() == 44
            + 2 * samples@.len(),
{
    let spec = hound::WavSpec {
        channels,
        sample_rate,
        bits_per_sample: 16,
        sample_format: hound::SampleFormat::Int,
    };
    let mut bytes: Vec<u8> = Vec::new();
    let mut writer = hound::WavWriter::new(std::io::Cursor::new(&mut bytes), spec)?;
    for s in samples.iter() {
        writer.write_sample(*s)?;
    }
    writer.finalize()?;
    Ok(bytes)
}

/// Encode the accumulated samples as a finalized wav file image in the given
/// output format: the header, then every sample in order, then finalization —
/// also when the sequence is empty. Succeeds exactly when the format is one
/// the sink can carry, the sample count fills whole sample groups, and the
/// data together with the header fits the format's 32-bit size fields;
/// everything else is rejected as a sink error.
pub fn encode_output(config: &OutputConfig, samples: &Vec<i16>) -> (r: Result<
    Vec<u8>,
    PipelineError,
>)
    ensures
        (r is Ok) <==> (config.valid() && samples@.len() % (config.target_channels as nat) == 0
            && samples@.len() <= 0x7FFF_FFED),
        r matches Ok(b) ==> b@ == wav_bytes_of(
            config.target_sample_rate,
            config.target_channels,
            samples@,
        ) && b@.len() == 44 + 2 * samples@.len(),
        r is Err ==> r == Err::<Vec<u8>, PipelineError>(PipelineError::Sink),
{
    if !config.is_valid() {
        return Err(PipelineError::Sink);
    }
    if samples.len() > 0x7FFF_FFED {
        return Err(PipelineError::Sink);
    }
    if samples.len() % (config.target_channels as usize) != 0 {
        return Err(PipelineError::Sink);
    }
    match encode_wav(config.target_sample_rate, config.target_channels, samples) {
        Ok(bytes) => Ok(bytes),
        Err(_) => Err(PipelineError::Sink),
    }
}

} // verus!
