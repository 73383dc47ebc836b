//! The frame model and the downmix-by-selection policy.
//!
//! A converted frame is a buffer of interleaved 16-bit samples together with
//! its channel count. When the frame is multi-channel, the pipeline keeps
//! only the samples of the first channel — those at indices that are
//! multiples of the channel count — and discards the rest; this is a
//! deliberate selection policy, not averaging.

use vstd::prelude::*;

verus! {

/// How many samples channel selection keeps out of `len` interleaved
/// samples with the given stride: one per full or partial group.
pub open spec fn select_len(len: int, stride: int) -> int {
    if stride <= 0 {
        0
    } else {
        (len + stride - 1) / stride
    }
}

/// The first-channel samples of an interleaved buffer: the elements at
/// indices 0, stride, 2 * stride, ... in their original order.
pub open spec fn select_channel(s: Seq<i16>, stride: int) -> Seq<i16> {
    Seq::new(select_len(s.len() as int, stride) as nat, |i: int| s[i * stride])
}

/// A buffer of interleaved samples in a known channel layout.
#[derive(Clone, Debug, PartialEq, Eq)]
pub struct AudioFrame {
    /// Interleaved samples: for stereo, left and right alternate.
    pub samples: Vec<i16>,
    /// The number of interleaved channels.
    pub channels: u16,
}

impl AudioFrame {
    /// Only mono and stereo layouts exist in this pipeline.
    pub open spec fn wf(self) -> bool {
        1 <= self.channels <= 2
    }

    /// The samples this frame contributes to the output: its first channel.
    pub open spec fn selected(self) -> Seq<i16> {
        select_channel(self.samples@, self.channels as int)
    }
}

/// Copy the first channel's samples out of an interleaved frame, in order,
/// discarding the other channel's samples.
pub fn first_channel_samples(frame: &AudioFrame) -> (out: Vec<i16>)
    requires
        frame.wf(),
    ensures
        out@ == frame.selected(),
{
    let len = frame.samples.len();
    let mut out: Vec<i16> = Vec::new();
    let mut i: usize = 0;
    if frame.channels == 1 {
        while i < len
            invariant
                len == frame.samples@.len(),
                i <= len,
                out@ == frame.samples@.take(i as int),
            decreases len - i,
        {
            out.push(frame.samples[i]);
            i += 1;
            assert(out@ =~= frame.samples@.take(i as int));
        }
        proof {
            lemma_mono_selection_is_identity(frame.samples@);
            assert(frame.samples@.take(len as int) =~= frame.samples@);
        }
    } else {
        while i < len
            invariant
                frame.channels == 2,
                len == frame.samples@.len(),
                i <= len,
                i % 2 == 0 || i == len,
                out@ == select_channel(frame.samples@.take(i as int), 2),
            decreases len - i,
        {
            out.push(frame.samples[i]);
            i += 1;
            if i < len {
                i += 1;
            }
            assert(out@ =~= select_channel(frame.samples@.take(i as int), 2));
        }
        proof {
            assert(frame.samples@.take(len as int) =~= frame.samples@);
        }
    }
    out
}

/// Law: selection from a mono frame keeps every sample unchanged — nothing
/// is lost when there is no other channel to discard.
pub proof fn lemma_mono_selection_is_identity(s: Seq<i16>)
    ensures
        select_channel(s, 1) == s,
{
    assert(select_channel(s, 1) =~= s);
}

/// Law: selection from a stereo frame keeps exactly the even-index (first
/// channel) samples, each at its original relative position, and nothing
/// else — every output element is a first-channel sample, and every
/// first-channel sample reaches the output.
pub proof fn lemma_stereo_selection_keeps_left_channel(s: Seq<i16>)
    ensures
        select_channel(s, 2).len() == (s.len() + 1) / 2,
        forall|i: int|
            0 <= i < select_channel(s, 2).len() ==> select_channel(s, 2)[i] == s[2 * i],
        forall|k: int|
            0 <= k < s.len() && k % 2 == 0 ==> select_channel(s, 2)[k / 2] == s[k],
{
    assert forall|k: int| 0 <= k < s.len() && k % 2 == 0 implies select_channel(s, 2)[k / 2]
        == s[k] by {
        assert((k / 2) * 2 == k);
        assert(0 <= k / 2 < select_len(s.len() as int, 2));
    }
}

} // verus!
