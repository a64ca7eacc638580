//! From decoded frames to the loudspeaker: decoded samples are queued, and played once enough of
//! them have been gathered.
use vstd::prelude::*;

use crate::audio::{frame_size, samples_per_frame};
use crate::capture::{lemma_nothing_offered, lemma_offered_one_more, offered_all};
use crate::frames::{frame_count, lemma_frame_count, lemma_frame_of};
use crate::ring::{
    accepted, consumer_count, delivered, lemma_one_more, lemma_still, newly_answered, newly_taken,
    offer, producer_count, take, went_on, SampleConsumer, SampleProducer,
};

verus! {

/// The size of the buffer that frames are decoded into: two frames.
pub fn decode_buffer_len(sample_rate: u32) -> (r: usize)
    ensures
        r == 2 * samples_per_frame(sample_rate),
{
    frame_size(sample_rate) * 2
}

/// Queues the first `len` of the decoded samples, and tells how many found room. What finds no
/// room is dropped.
pub fn queue_decoded(pcm: &Vec<i16>, len: usize, producer: &mut SampleProducer) -> (queued: usize)
    requires
        len <= pcm@.len(),
    ensures
        exists|taken: Seq<bool>| #[trigger]
            offered_all(*old(producer), *final(producer), pcm@.take(len as int), taken),
        queued == accepted(*final(producer)).len() - accepted(*old(producer)).len(),
{
    let ghost before = *producer;
    let ghost mut taken: Seq<bool> = seq![];
    let mut queued: usize = 0;
    let mut i: usize = 0;
    proof {
        lemma_nothing_offered(before);
        assert(pcm@.take(0) =~= seq![]);
    }
    while i < len
        invariant
            i <= len <= pcm@.len(),
            queued <= i,
            queued == accepted(*producer).len() - accepted(before).len(),
            offered_all(before, *producer, pcm@.take(i as int), taken),
        decreases len - i,
    {
        let sample: i16 = pcm[i];
        let ghost last = *producer;
        let ok: bool = offer(producer, sample);
        proof {
            let had = pcm@.take(i as int);
            lemma_offered_one_more(before, last, *producer, had, taken, sample, ok);
            assert(pcm@.take(i + 1) =~= had.push(sample));
            taken = taken.push(ok);
        }
        if ok {
            queued = queued + 1;
        }
        i = i + 1;
    }
    queued
}

/// What a turn of playback comes to: whether playback has started, and how many queued samples
/// were played.
#[derive(Debug, Clone, Copy, PartialEq, Eq)]
pub struct Rendered {
    pub started: bool,
    pub taken: usize,
}

/// The sample that is played: the one that was taken, or silence.
pub open spec fn played(taken: Option<i16>) -> i16 {
    match taken {
        Some(sample) => sample,
        None => 0,
    }
}

/// Every sample of the output is the converted sample of its frame: frame `k` plays what the queue
/// gave as answer `k`, or silence where that is nothing.
pub open spec fn plays<T, F: Fn(i16) -> T>(
    convert: F,
    data: Seq<T>,
    channels: int,
    answers: Seq<Option<i16>>,
) -> bool {
    forall|i: int|
        0 <= i < data.len() ==> call_ensures(
            convert,
            (played(answers[i / channels]),),
            #[trigger] data[i],
        )
}

/// The queue is not asked.
pub open spec fn unasked(frames: int) -> Seq<Option<i16>> {
    Seq::new(frames as nat, |k: int| None)
}

/// All channels of a frame get the same sample.
pub open spec fn frames_are_uniform<T>(data: Seq<T>, channels: int) -> bool {
    forall|i: int, j: int|
        0 <= i < data.len() && 0 <= j < data.len() && i / channels == j / channels
            ==> #[trigger] data[i] == #[trigger] data[j]
}

/// Playback goes on once it has started, and starts when enough samples have been gathered.
pub open spec fn has_started(started: bool, available: usize, min_samples: usize) -> bool {
    started || available >= min_samples
}

/// Fills an output buffer of interleaved samples, `output_channels` to a frame. Before playback
/// has started all is silence. Then each frame plays the next queued sample on all its channels,
/// or silence where the queue is empty. `convert` makes an output sample of a queued one;
/// `available` is how many samples have been gathered.
pub fn render_output_samples<T: Copy, F: Fn(i16) -> T>(
    data: &mut [T],
    output_channels: usize,
    target_channels: u16,
    consumer: &mut SampleConsumer,
    available: usize,
    started: bool,
    min_samples: usize,
    convert: F,
) -> (r: Rendered)
    requires
        forall|sample: i16| #[trigger] call_requires(convert, (sample,)),
    ensures
        output_channels == 0 || target_channels == 0 ==> {
            &&& final(data)@ == old(data)@
            &&& *final(consumer) == *old(consumer)
            &&& r == (Rendered { started, taken: 0 })
        },
        output_channels > 0 && target_channels > 0 ==> {
            &&& final(data)@.len() == old(data)@.len()
            &&& r.started == has_started(started, available, min_samples)
            &&& available >= min_samples ==> r.started
            &&& !started && available < min_samples ==> !r.started
            &&& frames_are_uniform(final(data)@, output_channels as int)
            &&& went_on(*old(consumer), *final(consumer))
            &&& r.taken == newly_taken(*old(consumer), *final(consumer)).len()
            &&& r.started ==> {
                let answers = newly_answered(*old(consumer), *final(consumer));
                &&& answers.len() == frame_count(old(data)@.len() as int, output_channels as int)
                &&& plays(convert, final(data)@, output_channels as int, answers)
            }
            &&& !r.started ==> {
                let frames = frame_count(old(data)@.len() as int, output_channels as int);
                &&& *final(consumer) == *old(consumer)
                &&& plays(convert, final(data)@, output_channels as int, unasked(frames))
            }
        },
{
    if output_channels == 0 || target_channels == 0 {
        return Rendered { started, taken: 0 };
    }
    let playing: bool = started || available >= min_samples;
    let ghost channels = output_channels as int;
    let ghost from = *consumer;
    let len: usize = data.len();
    let mut count: usize = 0;
    let ghost mut taken: Seq<Option<i16>> = seq![];
    let mut start: usize = 0;
    proof {
        lemma_still(from);
    }
    while start < len
        invariant
            output_channels > 0,
            channels == output_channels,
            len == data@.len(),
            start <= len,
            start == len || start == taken.len() * channels,
            taken.len() > 0 ==> (taken.len() - 1) * channels < len,
            start == len ==> len <= taken.len() * channels,
            count <= start,
            count == newly_taken(from, *consumer).len(),
            !playing ==> *consumer == from,
            playing ==> newly_answered(from, *consumer) == taken,
            !playing ==> taken == unasked(taken.len() as int),
            went_on(from, *consumer),
            forall|sample: i16| #[trigger] call_requires(convert, (sample,)),
            forall|i: int|
                0 <= i < start ==> call_ensures(
                    convert,
                    (played(taken[i / channels]),),
                    #[trigger] data@[i],
                ),
            forall|i: int| 0 <= i < start ==> 0 <= #[trigger] (i / channels) < taken.len(),
            forall|i: int, j: int|
                0 <= i < start && 0 <= j < start && i / channels == j / channels
                    ==> #[trigger] data@[i] == #[trigger] data@[j],
        decreases len - start,
    {
        let ghost last = *consumer;
        let popped: Option<i16> = if playing {
            take(consumer)
        } else {
            None
        };
        proof {
            if playing {
                lemma_one_more(from, last, *consumer, popped);
            } else {
                assert(taken.push(popped) =~= unasked((taken.len() + 1) as int));
            }
        }
        let sample: i16 = match popped {
            Some(value) => {
                count = count + 1;
                value
            },
            None => 0,
        };
        let converted: T = convert(sample);
        let end: usize = if len - start < output_channels {
            len
        } else {
            start + output_channels
        };
        let ghost frame = taken.len() as int;
        let ghost before = data@;
        proof {
            assert((frame + 1) * channels == frame * channels + channels) by (nonlinear_arith);
            assert forall|i: int| start <= i < end implies #[trigger] (i / channels) == frame by {
                lemma_frame_of(i, frame, channels);
            }
        }
        let mut k: usize = start;
        while k < end
            invariant
                start <= k <= end <= len,
                len == data@.len() == before.len(),
                forall|i: int| 0 <= i < start ==> #[trigger] data@[i] == before[i],
                forall|i: int| start <= i < k ==> #[trigger] data@[i] == converted,
            decreases end - k,
        {
            data[k] = converted;
            k = k + 1;
        }
        proof {
            taken = taken.push(popped);
        }
        start = end;
    }
    proof {
        lemma_frame_count(taken.len() as int, len as int, channels);
        assert(plays(convert, data@, channels, taken));
    }
    Rendered { started: playing, taken: count }
}

/// The level is how many of the samples put into the queue have not been taken out.
pub open spec fn is_level(level: int, producer: SampleProducer, consumer: SampleConsumer) -> bool {
    level == accepted(producer).len() - delivered(consumer).len()
}

/// Playback that has started goes on for good: it does not wait again, however few samples there
/// are.
pub proof fn playback_goes_on(available: usize, min_samples: usize)
    ensures
        has_started(true, available, min_samples),
{
}

/// Counting up what is queued and down what is played keeps the level right.
pub proof fn level_stays_right(
    level: int,
    producer: SampleProducer,
    producer_after: SampleProducer,
    queued: usize,
    consumer: SampleConsumer,
    consumer_after: SampleConsumer,
    taken: usize,
)
    requires
        is_level(level, producer, consumer),
        queued == accepted(producer_after).len() - accepted(producer).len(),
        went_on(consumer, consumer_after),
        taken == newly_taken(consumer, consumer_after).len(),
    ensures
        is_level(level + queued - taken, producer_after, consumer_after),
{
}

/// Playback that has not started starts exactly when no fewer samples than the threshold have been
/// gathered; with more of them it starts all the more.
pub proof fn playback_starts_at_the_threshold(
    started: bool,
    available: usize,
    more: usize,
    min_samples: usize,
)
    ensures
        available >= min_samples ==> has_started(started, available, min_samples),
        !started && available < min_samples ==> !has_started(started, available, min_samples),
        available <= more && has_started(started, available, min_samples) ==> has_started(
            started,
            more,
            min_samples,
        ),
{
}

/// What is played of each frame: the sample that the queue gave for it, and zero where it gave
/// none.
pub proof fn frames_play_their_answers<T, F: Fn(i16) -> T>(
    convert: F,
    data: Seq<T>,
    channels: int,
    answers: Seq<Option<i16>>,
    i: int,
)
    requires
        plays(convert, data, channels, answers),
        0 <= i < data.len(),
    ensures
        answers[i / channels] matches Some(sample) ==> call_ensures(convert, (sample,), data[i]),
        answers[i / channels] is None ==> call_ensures(convert, (0i16,), data[i]),
{
    assert(call_ensures(convert, (played(answers[i / channels]),), data[i]));
}

/// Frame by frame, the channels of the output get one and the same sample.
pub proof fn channels_play_alike<T>(data: Seq<T>, channels: int, frame: int, i: int, j: int)
    requires
        frames_are_uniform(data, channels),
        channels > 0,
        0 <= frame,
        frame * channels <= i < (frame + 1) * channels,
        frame * channels <= j < (frame + 1) * channels,
        i < data.len(),
        j < data.len(),
    ensures
        data[i] == data[j],
{
    lemma_frame_of(i, frame, channels);
    lemma_frame_of(j, frame, channels);
    assert(0 <= frame * channels) by (nonlinear_arith)
        requires
            0 <= frame,
            channels > 0,
    ;
}

/// Before playback has started, nothing but silence is played.
pub proof fn waiting_is_silent(frames: int, k: int)
    requires
        0 <= k < frames,
    ensures
        unasked(frames).len() == frames,
        unasked(frames)[k] is None,
{
}

/// The level counts the samples that were put into the queue and not taken out of it.
pub proof fn level_counts_what_is_queued(
    level: int,
    producer: SampleProducer,
    consumer: SampleConsumer,
)
    requires
        is_level(level, producer, consumer),
    ensures
        level + consumer_count(consumer) == producer_count(producer),
{
}

}
