//! How interleaved samples fall into frames, one sample of each channel per frame.
use vstd::arithmetic::div_mod::{lemma_fundamental_div_mod, lemma_fundamental_div_mod_converse};
use vstd::prelude::*;

verus! {

/// The number of frames that samples of so many channels fall into; the last may be short.
pub open spec fn frame_count(len: int, channels: int) -> int {
    (len + channels - 1) / channels
}

/// Where a frame begins.
pub open spec fn frame_start(frame: int, channels: int) -> int {
    frame * channels
}

/// Where a frame ends.
pub open spec fn frame_end(frame: int, channels: int, len: int) -> int {
    if (frame + 1) * channels < len {
        (frame + 1) * channels
    } else {
        len
    }
}

/// So many frames cover the samples: all but the last are full, and the last is not empty.
pub(crate) proof fn lemma_frame_count(frames: int, len: int, channels: int)
    requires
        channels > 0,
        frames >= 0,
        frames > 0 ==> (frames - 1) * channels < len,
        0 <= len <= frames * channels,
    ensures
        frame_count(len, channels) == frames,
{
    let r = len + channels - 1 - frames * channels;
    assert(0 <= r < channels) by (nonlinear_arith)
        requires
            r == len + channels - 1 - frames * channels,
            channels > 0,
            frames > 0 ==> (frames - 1) * channels < len,
            0 <= len <= frames * channels,
            frames >= 0,
    ;
    lemma_fundamental_div_mod_converse(len + channels - 1, channels, frames, r);
}

/// A sample between the bounds of a frame belongs to that frame.
pub(crate) proof fn lemma_frame_of(i: int, frame: int, channels: int)
    requires
        channels > 0,
        frame * channels <= i < (frame + 1) * channels,
    ensures
        i / channels == frame,
{
    assert((frame + 1) * channels == frame * channels + channels) by (nonlinear_arith);
    lemma_fundamental_div_mod_converse(i, channels, frame, i - frame * channels);
}

/// The frames divide the samples among them: they lie one behind the other from the first sample to
/// the last, each has a sample, all but the last have one for every channel, and there is no frame
/// more.
pub proof fn frames_divide_the_samples(len: int, channels: int, frame: int)
    requires
        channels > 0,
        len >= 0,
        0 <= frame < frame_count(len, channels),
    ensures
        frame_start(0, channels) == 0,
        frame_start(frame, channels) < frame_end(frame, channels, len) <= len,
        frame_end(frame, channels, len) - frame_start(frame, channels) <= channels,
        frame + 1 < frame_count(len, channels) ==> frame_end(frame, channels, len) == frame_start(
            frame + 1,
            channels,
        ) && frame_end(frame, channels, len) - frame_start(frame, channels) == channels,
        frame + 1 == frame_count(len, channels) ==> frame_end(frame, channels, len) == len,
{
    let count = frame_count(len, channels);
    lemma_fundamental_div_mod(len + channels - 1, channels);
    let rest = (len + channels - 1) % channels;
    assert(frame_start(frame, channels) < len && (frame + 1 < count ==> (frame + 1) * channels
        < len) && (frame + 1 == count ==> (frame + 1) * channels >= len) && (frame + 1) * channels
        == frame * channels + channels && 0 * channels == 0) by (nonlinear_arith)
        requires
            frame_start(frame, channels) == frame * channels,
            len + channels - 1 == channels * count + rest,
            0 <= rest < channels,
            0 <= frame < count,
            channels > 0,
    ;
}

/// No samples fall into no frames, and one more sample makes one more frame exactly where the
/// frames before are full.
pub proof fn frames_are_as_few_as_can_be(len: int, channels: int)
    requires
        channels > 0,
        len >= 0,
    ensures
        frame_count(0, channels) == 0,
        frame_count(len, channels) * channels >= len,
        len > 0 ==> (frame_count(len, channels) - 1) * channels < len,
{
    let count = frame_count(len, channels);
    lemma_fundamental_div_mod(len + channels - 1, channels);
    let rest = (len + channels - 1) % channels;
    assert(count * channels >= len && (count - 1) * channels < len || len == 0)
        by (nonlinear_arith)
        requires
            len + channels - 1 == channels * count + rest,
            0 <= rest < channels,
            len >= 0,
    ;
    assert(count * channels >= len) by (nonlinear_arith)
        requires
            len + channels - 1 == channels * count + rest,
            0 <= rest < channels,
    ;
    lemma_frame_count(0, 0, channels);
}

}
