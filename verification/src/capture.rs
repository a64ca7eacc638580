//! From the microphone to encoded frames: captured samples are queued, cut into frames of equal
//! length, silenced while the microphone is off, and numbered.
use vstd::arithmetic::div_mod::lemma_add_mod_noop_right;
use vstd::prelude::*;

use crate::audio::{frame_size, samples_per_frame, EncodedFrame};
use crate::frames::{frame_count, frame_end, frame_start, lemma_frame_count};
use crate::ring::{
    accepted, lemma_one_more, lemma_still, newly_answered, newly_taken, offer, producer_capacity,
    producer_count, producer_offered, producer_samples, take, went_on, SampleConsumer,
    SampleProducer,
};

verus! {

/// Those of the offered samples that were taken.
pub open spec fn kept(offered: Seq<i16>, taken: Seq<bool>) -> Seq<i16>
    decreases offered.len(),
{
    if offered.len() == 0 || taken.len() == 0 {
        seq![]
    } else {
        let before = kept(offered.drop_last(), taken.drop_last());
        if taken.last() {
            before.push(offered.last())
        } else {
            before
        }
    }
}

/// Each sample as often as told, in order.
pub open spec fn repeated(samples: Seq<i16>, times: nat) -> Seq<i16>
    decreases samples.len(),
{
    if samples.len() == 0 {
        seq![]
    } else {
        repeated(samples.drop_last(), times) + Seq::new(times, |i: int| samples.last())
    }
}

/// Each of the samples was offered to the queue once, in order, and those that found room are in
/// it, in order. While the queue cannot be full, a sample finds room.
pub open spec fn offered_all(
    before: SampleProducer,
    after: SampleProducer,
    offered: Seq<i16>,
    taken: Seq<bool>,
) -> bool {
    &&& taken.len() == offered.len()
    &&& producer_offered(after) == producer_offered(before) + offers(offered, taken)
    &&& accepted(after) == accepted(before) + kept(offered, taken)
    &&& producer_samples(after) == producer_samples(before)
    &&& producer_capacity(after) == producer_capacity(before)
    &&& forall|i: int|
        0 <= i < taken.len() && producer_count(before) + i < producer_capacity(before)
            ==> #[trigger] taken[i]
}

/// Each of the samples with whether it found room.
pub open spec fn offers(offered: Seq<i16>, taken: Seq<bool>) -> Seq<(i16, bool)> {
    Seq::new(offered.len(), |i: int| (offered[i], taken[i]))
}

/// Each of the samples is what mixing the channels of the frame at its place gives.
pub open spec fn mixes<F: Fn(usize, usize) -> i16>(
    mix: F,
    mono: Seq<i16>,
    len: int,
    channels: int,
) -> bool {
    forall|k: int|
        0 <= k < mono.len() ==> call_ensures(
            mix,
            (frame_start(k, channels) as usize, frame_end(k, channels, len) as usize),
            #[trigger] mono[k],
        )
}

/// No more samples are taken than are offered.
pub(crate) proof fn lemma_kept_len(offered: Seq<i16>, taken: Seq<bool>)
    ensures
        kept(offered, taken).len() <= offered.len(),
    decreases offered.len(),
{
    if offered.len() > 0 && taken.len() > 0 {
        lemma_kept_len(offered.drop_last(), taken.drop_last());
    }
}

/// Nothing has been offered yet.
pub(crate) proof fn lemma_nothing_offered(producer: SampleProducer)
    ensures
        offered_all(producer, producer, seq![], seq![]),
{
    assert(producer_offered(producer) =~= producer_offered(producer) + offers(seq![], seq![]));
    assert(accepted(producer) =~= accepted(producer) + kept(seq![], seq![]));
}

/// One more sample has been offered.
pub(crate) proof fn lemma_offered_one_more(
    from: SampleProducer,
    before: SampleProducer,
    after: SampleProducer,
    offered: Seq<i16>,
    taken: Seq<bool>,
    sample: i16,
    ok: bool,
)
    requires
        offered_all(from, before, offered, taken),
        producer_samples(after) == producer_samples(before),
        producer_capacity(after) == producer_capacity(before),
        producer_offered(after) == producer_offered(before).push((sample, ok)),
        producer_count(before) < producer_capacity(before) ==> ok,
        ok ==> accepted(after) == accepted(before).push(sample),
        !ok ==> accepted(after) == accepted(before),
    ensures
        offered_all(from, after, offered.push(sample), taken.push(ok)),
{
    let all = offered.push(sample);
    let told = taken.push(ok);
    assert(all.drop_last() =~= offered);
    assert(told.drop_last() =~= taken);
    assert(producer_offered(after) =~= producer_offered(from) + offers(all, told));
    assert(accepted(after) =~= accepted(from) + kept(all, told));
    lemma_kept_len(offered, taken);
    assert(accepted(before).len() == producer_count(before));
    assert(accepted(from).len() == producer_count(from));
}

/// Offers one sample as often as told.
fn offer_copies(producer: &mut SampleProducer, sample: i16, copies: usize) -> (r: Ghost<Seq<bool>>)
    ensures
        offered_all(
            *old(producer),
            *final(producer),
            Seq::new(copies as nat, |i: int| sample),
            r@,
        ),
{
    let ghost mut taken: Seq<bool> = seq![];
    let ghost start = *producer;
    let mut j: usize = 0;
    proof {
        lemma_nothing_offered(start);
        assert(Seq::<i16>::new(0, |i: int| sample) =~= seq![]);
    }
    while j < copies
        invariant
            j <= copies,
            offered_all(start, *producer, Seq::new(j as nat, |i: int| sample), taken),
        decreases copies - j,
    {
        let ghost before = *producer;
        let ok: bool = offer(producer, sample);
        proof {
            let offered = Seq::<i16>::new(j as nat, |i: int| sample);
            lemma_offered_one_more(start, before, *producer, offered, taken, sample, ok);
            assert(Seq::<i16>::new((j + 1) as nat, |i: int| sample) =~= offered.push(sample));
            taken = taken.push(ok);
        }
        j = j + 1;
    }
    Ghost(taken)
}

/// What was taken of two offers in turn is what was taken of each.
proof fn lemma_kept_concat(a: Seq<i16>, ta: Seq<bool>, b: Seq<i16>, tb: Seq<bool>)
    requires
        a.len() == ta.len(),
        b.len() == tb.len(),
    ensures
        kept(a + b, ta + tb) == kept(a, ta) + kept(b, tb),
    decreases b.len(),
{
    if b.len() == 0 {
        assert(a + b =~= a);
        assert(ta + tb =~= ta);
        assert(kept(a, ta) + kept(b, tb) =~= kept(a, ta));
    } else {
        lemma_kept_concat(a, ta, b.drop_last(), tb.drop_last());
        assert((a + b).drop_last() =~= a + b.drop_last());
        assert((ta + tb).drop_last() =~= ta + tb.drop_last());
        assert(kept(a + b, ta + tb) =~= kept(a, ta) + kept(b, tb));
    }
}

/// Offers in turn add up: what is queued of some samples and then of some more is what is queued of
/// all of them, in order of arrival.
pub proof fn offers_add_up(
    first: SampleProducer,
    second: SampleProducer,
    third: SampleProducer,
    a: Seq<i16>,
    ta: Seq<bool>,
    b: Seq<i16>,
    tb: Seq<bool>,
)
    requires
        offered_all(first, second, a, ta),
        offered_all(second, third, b, tb),
    ensures
        offered_all(first, third, a + b, ta + tb),
{
    lemma_kept_concat(a, ta, b, tb);
    lemma_kept_len(a, ta);
    assert(accepted(third) =~= accepted(first) + kept(a + b, ta + tb));
    assert(producer_offered(third) =~= producer_offered(first) + offers(a + b, ta + tb));
    assert(accepted(first).len() == producer_count(first));
    assert(accepted(second).len() == producer_count(second));
    assert forall|i: int|
        0 <= i < (ta + tb).len() && producer_count(first) + i < producer_capacity(
            first,
        ) implies #[trigger] (ta + tb)[i] by {
        if i < ta.len() {
            assert(ta[i]);
        } else {
            assert(tb[i - ta.len()]);
        }
    }
}

/// A full queue drops the newest samples: where there is room for `n` samples and nobody makes
/// more, so that the first `n` find room and the others do not, those first ones are queued.
pub proof fn overflow_drops_the_newest(offered: Seq<i16>, taken: Seq<bool>, n: int)
    requires
        0 <= n,
        taken.len() == offered.len(),
        forall|i: int| 0 <= i < taken.len() ==> (#[trigger] taken[i] <==> i < n),
    ensures
        kept(offered, taken) == offered.take(
            if n < offered.len() {
                n
            } else {
                offered.len() as int
            },
        ),
    decreases offered.len(),
{
    if offered.len() > 0 {
        let less = taken.drop_last();
        assert forall|i: int| 0 <= i < less.len() implies (#[trigger] less[i] <==> i < n) by {
            assert(less[i] == taken[i]);
        }
        overflow_drops_the_newest(offered.drop_last(), less, n);
        assert(taken[taken.len() - 1] == taken.last());
    }
    assert(kept(offered, taken) =~= offered.take(
        if n < offered.len() {
            n
        } else {
            offered.len() as int
        },
    ));
}

/// Queues what a microphone has captured. The `len` samples lie interleaved, `input_channels` to
/// a frame; `mix` makes one sample of those from its first argument up to its second. Each mixed
/// sample is queued once for every channel that is sent. What finds no room is dropped.
pub fn push_input_samples<F: Fn(usize, usize) -> i16>(
    len: usize,
    input_channels: usize,
    target_channels: u16,
    mix: F,
    producer: &mut SampleProducer,
)
    requires
        forall|start: usize, end: usize| start < end <= len ==> call_requires(mix, (start, end)),
    ensures
        input_channels == 0 || target_channels == 0 ==> *final(producer) == *old(producer),
        input_channels > 0 && target_channels > 0 ==> exists|mono: Seq<i16>, taken: Seq<bool>|
            {
                &&& mono.len() == frame_count(len as int, input_channels as int)
                &&& mixes(mix, mono, len as int, input_channels as int)
                &&& #[trigger] offered_all(
                    *old(producer),
                    *final(producer),
                    repeated(mono, target_channels as nat),
                    taken,
                )
            },
{
    if input_channels == 0 || target_channels == 0 {
        return;
    }
    let ghost channels = input_channels as int;
    let ghost before = *producer;
    let ghost mut mono: Seq<i16> = seq![];
    let ghost mut offered: Seq<i16> = seq![];
    let ghost mut taken: Seq<bool> = seq![];
    let mut start: usize = 0;
    proof {
        lemma_nothing_offered(before);
    }
    while start < len
        invariant
            input_channels > 0,
            target_channels > 0,
            channels == input_channels,
            start <= len,
            start == len || start == mono.len() * channels,
            mono.len() > 0 ==> (mono.len() - 1) * channels < len,
            start == len ==> len <= mono.len() * channels,
            mixes(mix, mono, len as int, channels),
            forall|start: usize, end: usize| start < end <= len ==> call_requires(
                mix,
                (start, end),
            ),
            offered == repeated(mono, target_channels as nat),
            offered_all(before, *producer, offered, taken),
        decreases len - start,
    {
        let end: usize = if len - start < input_channels {
            len
        } else {
            start + input_channels
        };
        assert((mono.len() + 1) * channels == mono.len() * channels + channels)
            by (nonlinear_arith);
        assert(start == frame_start(mono.len() as int, channels));
        assert(end == frame_end(mono.len() as int, channels, len as int));
        let sample: i16 = mix(start, end);
        let ghost middle = *producer;
        let added: Ghost<Seq<bool>> = offer_copies(producer, sample, target_channels as usize);
        proof {
            let copies = Seq::<i16>::new(target_channels as nat, |i: int| sample);
            offers_add_up(before, middle, *producer, offered, taken, copies, added@);
            assert(mono.push(sample).drop_last() =~= mono);
            assert(repeated(mono.push(sample), target_channels as nat) =~= offered + copies);
            offered = offered + copies;
            taken = taken + added@;
            mono = mono.push(sample);
        }
        start = end;
    }
    proof {
        if len == 0 {
            assert(mono.len() == 0 || (mono.len() - 1) * channels >= 0) by (nonlinear_arith)
                requires
                    channels > 0,
                    mono.len() >= 0,
            ;
        }
        lemma_frame_count(mono.len() as int, len as int, channels);
    }
}

/// The size of the buffer that a frame is encoded into.
pub const PACKET_BUFFER_LEN: usize = 4000;

/// Cuts the captured samples into frames and numbers the encoded frames.
pub struct FrameAssembler {
    pcm: Vec<i16>,
    filled: usize,
    timestamp: u32,
}

/// The mathematical value of a [`FrameAssembler`].
pub struct AssemblerView {
    /// The number of samples in a frame.
    pub frame_size: nat,
    /// The samples of the current frame, as far as they have come.
    pub samples: Seq<i16>,
    /// The number of the first sample of the current frame.
    pub timestamp: u32,
}

impl View for FrameAssembler {
    type V = AssemblerView;

    closed spec fn view(&self) -> AssemblerView {
        AssemblerView {
            frame_size: self.pcm@.len(),
            samples: self.pcm@.take(self.filled as int),
            timestamp: self.timestamp,
        }
    }
}

/// The number that follows a number of so many samples, in 32 bits.
pub open spec fn next_timestamp(timestamp: int, frame_size: nat) -> int {
    (timestamp + frame_size) % 0x1_0000_0000
}

/// An empty frame of so many samples, the first of all.
pub open spec fn first_frame(frame_size: nat) -> AssemblerView {
    AssemblerView { frame_size, samples: seq![], timestamp: 0 }
}

/// The current frame with more samples.
pub open spec fn filled(m: AssemblerView, taken: Seq<i16>) -> AssemblerView {
    AssemblerView { samples: m.samples + taken, ..m }
}

/// The current frame as it is handed out: silent while the microphone is off.
pub open spec fn handed_out(m: AssemblerView, muted: bool) -> AssemblerView {
    AssemblerView {
        samples: if muted {
            silence(m.samples.len())
        } else {
            m.samples
        },
        ..m
    }
}

/// The frame after the current one, empty.
pub open spec fn next_frame(m: AssemblerView) -> AssemblerView {
    AssemblerView {
        frame_size: m.frame_size,
        samples: seq![],
        timestamp: next_timestamp(m.timestamp as int, m.frame_size) as u32,
    }
}

/// Answers that are all samples.
pub open spec fn all_given(samples: Seq<i16>) -> Seq<Option<i16>> {
    samples.map_values(|sample: i16| Some(sample))
}

/// So many samples of silence.
pub open spec fn silence(len: nat) -> Seq<i16> {
    Seq::new(len, |i: int| 0i16)
}

impl FrameAssembler {
    /// The current frame is within its bounds.
    pub closed spec fn wf(&self) -> bool {
        self.filled <= self.pcm@.len() <= u32::MAX
    }

    /// Starts with an empty frame for the given rate.
    pub fn new(sample_rate: u32) -> (r: Self)
        ensures
            r.wf(),
            r@ == first_frame(samples_per_frame(sample_rate) as nat),
    {
        let size: usize = frame_size(sample_rate);
        let mut pcm: Vec<i16> = Vec::new();
        pcm.resize(size, 0i16);
        let r: FrameAssembler = FrameAssembler { pcm, filled: 0, timestamp: 0 };
        assert(r@.samples =~= Seq::<i16>::empty());
        r
    }

    /// Moves samples from the queue into the current frame, until it is full or the queue is
    /// found empty; tells whether it is full.
    pub fn fill(&mut self, consumer: &mut SampleConsumer) -> (full: bool)
        requires
            old(self).wf(),
        ensures
            final(self).wf(),
            went_on(*old(consumer), *final(consumer)),
            final(self)@ == filled(
                old(self)@,
                newly_taken(*old(consumer), *final(consumer)),
            ),
            final(self)@.samples.len() <= final(self)@.frame_size,
            full == (final(self)@.samples.len() == final(self)@.frame_size),
            newly_answered(*old(consumer), *final(consumer)) == all_given(
                newly_taken(*old(consumer), *final(consumer)),
            ) + if full {
                seq![]
            } else {
                seq![None]
            },
    {
        let ghost from = *consumer;
        let ghost view = self@;
        let size: usize = self.pcm.len();
        proof {
            lemma_still(from);
            assert(self@.samples =~= view.samples + newly_taken(from, *consumer));
            assert(newly_answered(from, *consumer) =~= all_given(newly_taken(from, *consumer)));
        }
        while self.filled < size
            invariant
                self.wf(),
                from == *old(consumer),
                view == old(self)@,
                size == self.pcm@.len(),
                went_on(from, *consumer),
                newly_answered(from, *consumer) == all_given(newly_taken(from, *consumer)),
                self@ == (AssemblerView {
                    samples: view.samples + newly_taken(from, *consumer),
                    ..view
                }),
            decreases size - self.filled,
        {
            let ghost last = *consumer;
            let ghost had = self@.samples;
            let answer: Option<i16> = take(consumer);
            proof {
                lemma_one_more(from, last, *consumer, answer);
            }
            match answer {
                Some(sample) => {
                    let at: usize = self.filled;
                    self.pcm[at] = sample;
                    self.filled = at + 1;
                    assert(self@.samples =~= had.push(sample));
                    assert(self@.samples =~= view.samples + newly_taken(from, *consumer));
                    assert(newly_answered(from, *consumer) =~= all_given(
                        newly_taken(from, *consumer),
                    ));
                },
                None => {
                    assert(newly_answered(from, *consumer) =~= all_given(
                        newly_taken(from, *consumer),
                    ) + seq![None]);
                    return false;
                },
            }
        }
        assert(newly_answered(from, *consumer) =~= all_given(newly_taken(from, *consumer))
            + seq![]);
        true
    }

    /// Silences the current frame where the microphone is off.
    fn apply_mute(&mut self, muted: bool)
        requires
            old(self).wf(),
        ensures
            final(self).wf(),
            final(self)@ == handed_out(old(self)@, muted),
    {
        if muted {
            let ghost view = self@;
            let size: usize = self.pcm.len();
            let filled: usize = self.filled;
            let timestamp: u32 = self.timestamp;
            let mut i: usize = 0;
            while i < size
                invariant
                    i <= size,
                    size == self.pcm@.len(),
                    self.filled == filled,
                    self.timestamp == timestamp,
                    forall|k: int| 0 <= k < i ==> self.pcm@[k] == 0,
                decreases size - i,
            {
                self.pcm[i] = 0;
                i = i + 1;
            }
            assert(self@.samples =~= silence(view.samples.len()));
        }
    }

    /// Hands out the samples of the current frame, which is full, for encoding. While the
    /// microphone is off they are silence, and nothing of what was captured is left in the frame.
    pub fn frame(&mut self, muted: bool) -> (r: &Vec<i16>)
        requires
            old(self).wf(),
            old(self)@.samples.len() == old(self)@.frame_size,
        ensures
            final(self).wf(),
            r@ == if muted {
                silence(old(self)@.frame_size)
            } else {
                old(self)@.samples
            },
            final(self)@ == handed_out(old(self)@, muted),
    {
        self.apply_mute(muted);
        assert(self@.samples =~= self.pcm@);
        &self.pcm
    }

    /// Finishes the current frame, which has been encoded into the first `len` bytes of the
    /// buffer, and starts the next one.
    pub fn finish(&mut self, buffer: Vec<u8>, len: usize) -> (r: EncodedFrame)
        requires
            old(self).wf(),
        ensures
            final(self).wf(),
            r.payload@ == if len <= buffer@.len() {
                buffer@.take(len as int)
            } else {
                buffer@
            },
            r.timestamp == old(self)@.timestamp,
            final(self)@ == next_frame(old(self)@),
    {
        let mut payload: Vec<u8> = buffer;
        payload.truncate(len);
        let r: EncodedFrame = EncodedFrame { payload, timestamp: self.timestamp };
        self.timestamp = self.timestamp.wrapping_add(self.pcm.len() as u32);
        self.filled = 0;
        assert(self@.samples =~= Seq::<i16>::empty());
        r
    }
}

/// The number of the first sample of the n-th frame.
pub open spec fn timestamp_of(n: nat, frame_size: nat) -> int
    decreases n,
{
    if n == 0 {
        0
    } else {
        next_timestamp(timestamp_of((n - 1) as nat, frame_size), frame_size)
    }
}

/// Frames are numbered without gaps: the n-th frame has the number of samples before it, in 32
/// bits.
pub proof fn timestamps_count_samples(n: nat, frame_size: nat)
    ensures
        timestamp_of(n, frame_size) == (n * frame_size) % 0x1_0000_0000,
    decreases n,
{
    if n > 0 {
        let before = (n - 1) as nat;
        timestamps_count_samples(before, frame_size);
        assert(n * frame_size == before * frame_size + frame_size) by (nonlinear_arith)
            requires
                n == before + 1,
        ;
        lemma_add_mod_noop_right(frame_size as int, (before * frame_size) as int, 0x1_0000_0000);
    } else {
        assert(n * frame_size == 0) by (nonlinear_arith)
            requires
                n == 0,
        ;
    }
}

/// Filling a frame in two turns fills it with what was taken in both.
pub proof fn fills_add_up(m: AssemblerView, first: Seq<i16>, second: Seq<i16>)
    ensures
        filled(filled(m, first), second) == filled(m, first + second),
{
    assert(m.samples + first + second =~= m.samples + (first + second));
}

/// The making of one frame: the samples taken for it, and whether the microphone was off.
pub struct Turn {
    pub taken: Seq<i16>,
    pub muted: bool,
}

/// The frame of a turn as it is handed out for encoding.
pub open spec fn encoded_in(m: AssemblerView, turn: Turn) -> AssemblerView {
    handed_out(filled(m, turn.taken), turn.muted)
}

/// The assembler after some turns.
pub open spec fn after_turns(frame_size: nat, turns: Seq<Turn>) -> AssemblerView
    decreases turns.len(),
{
    if turns.len() == 0 {
        first_frame(frame_size)
    } else {
        next_frame(encoded_in(after_turns(frame_size, turns.drop_last()), turns.last()))
    }
}

/// What is sent in turn `k`: the samples that are encoded, and the number of the frame.
pub open spec fn sent(frame_size: nat, turns: Seq<Turn>, k: int) -> (Seq<i16>, u32) {
    let frame = encoded_in(after_turns(frame_size, turns.take(k)), turns[k]);
    (frame.samples, frame.timestamp)
}

/// Every frame was full when it was handed out.
pub open spec fn all_full(frame_size: nat, turns: Seq<Turn>) -> bool {
    forall|k: int| 0 <= k < turns.len() ==> (#[trigger] turns[k]).taken.len() == frame_size
}

/// All samples taken, in order.
pub open spec fn captured(turns: Seq<Turn>) -> Seq<i16>
    decreases turns.len(),
{
    if turns.len() == 0 {
        seq![]
    } else {
        captured(turns.drop_last()) + turns.last().taken
    }
}

/// Between turns the frame is empty, and its number is that of so many frames.
proof fn lemma_after_turns(frame_size: nat, turns: Seq<Turn>)
    ensures
        after_turns(frame_size, turns).frame_size == frame_size,
        after_turns(frame_size, turns).samples == Seq::<i16>::empty(),
        after_turns(frame_size, turns).timestamp == timestamp_of(turns.len(), frame_size),
    decreases turns.len(),
{
    if turns.len() > 0 {
        lemma_after_turns(frame_size, turns.drop_last());
    }
}

/// The samples of full frames lie one after the other.
proof fn lemma_captured(frame_size: nat, turns: Seq<Turn>, k: int)
    requires
        all_full(frame_size, turns),
        0 <= k < turns.len(),
    ensures
        captured(turns).len() == turns.len() * frame_size,
        0 <= k * frame_size <= (k + 1) * frame_size <= captured(turns).len(),
        captured(turns).subrange(k * frame_size, (k + 1) * frame_size) == turns[k].taken,
    decreases turns.len(),
{
    let before = turns.drop_last();
    let n = before.len() as int;
    assert(all_full(frame_size, before));
    assert(turns[n].taken.len() == frame_size);
    if n > 0 {
        lemma_captured(
            frame_size,
            before,
            if k < n {
                k
            } else {
                0
            },
        );
    } else {
        assert(captured(before).len() == 0);
    }
    assert(captured(before).len() == n * frame_size) by (nonlinear_arith)
        requires
            n > 0 ==> captured(before).len() == n * frame_size,
            n == 0 ==> captured(before).len() == 0,
            n >= 0,
    ;
    assert((n + 1) * frame_size == n * frame_size + frame_size && 0 <= k * frame_size <= (k + 1)
        * frame_size && (k < n ==> (k + 1) * frame_size <= n * frame_size)) by (nonlinear_arith)
        requires
            0 <= k,
    ;
    let part = captured(turns).subrange(k * frame_size, (k + 1) * frame_size);
    if k < n {
        assert(part =~= captured(before).subrange(k * frame_size, (k + 1) * frame_size));
        assert(before[k] == turns[k]);
    } else {
        assert(part =~= turns[k].taken);
    }
}

/// The frames cut what was captured, without gaps: of the samples taken, in order, frame `k` holds
/// those from `k * frame_size` up to `(k + 1) * frame_size`, or silence where the microphone was
/// off; and its number counts the samples before it, in 32 bits.
pub proof fn frames_cut_the_capture(frame_size: nat, turns: Seq<Turn>, k: int)
    requires
        all_full(frame_size, turns),
        0 <= k < turns.len(),
    ensures
        0 <= k * frame_size <= (k + 1) * frame_size <= captured(turns).len(),
        sent(frame_size, turns, k).0 == if turns[k].muted {
            silence(frame_size)
        } else {
            captured(turns).subrange(k * frame_size, (k + 1) * frame_size)
        },
        sent(frame_size, turns, k).1 == (k * frame_size) % 0x1_0000_0000,
{
    lemma_captured(frame_size, turns, k);
    lemma_after_turns(frame_size, turns.take(k));
    timestamps_count_samples(k as nat, frame_size);
    let frame = filled(after_turns(frame_size, turns.take(k)), turns[k].taken);
    assert(frame.samples =~= turns[k].taken);
}

/// Nothing of the microphone gets out while it is off: two runs whose captured samples differ only
/// within frames for which the microphone was off send the same frames with the same numbers, one
/// for every turn.
pub proof fn muted_frames_tell_nothing(frame_size: nat, one: Seq<Turn>, other: Seq<Turn>, k: int)
    requires
        all_full(frame_size, one),
        all_full(frame_size, other),
        one.len() == other.len(),
        forall|i: int| 0 <= i < one.len() ==> (#[trigger] one[i]).muted == other[i].muted,
        forall|i: int|
            0 <= i < one.len() && !(#[trigger] one[i]).muted ==> captured(one).subrange(
                i * frame_size,
                (i + 1) * frame_size,
            ) == captured(other).subrange(i * frame_size, (i + 1) * frame_size),
        0 <= k < one.len(),
    ensures
        sent(frame_size, one, k) == sent(frame_size, other, k),
{
    frames_cut_the_capture(frame_size, one, k);
    frames_cut_the_capture(frame_size, other, k);
    assert(one[k].muted == other[k].muted);
}

/// Repeating gives each sample so many times in a row, and no other.
pub proof fn repeated_samples_come_in_a_row(samples: Seq<i16>, times: nat, k: int, j: int)
    requires
        0 <= k < samples.len(),
        0 <= j < times,
    ensures
        repeated(samples, times).len() == samples.len() * times,
        0 <= k * times + j < repeated(samples, times).len(),
        repeated(samples, times)[k * times + j] == samples[k],
    decreases samples.len(),
{
    let before = samples.drop_last();
    let n = before.len() as int;
    if k < n {
        repeated_samples_come_in_a_row(before, times, k, j);
        assert(before[k] == samples[k]);
    } else if n > 0 {
        repeated_samples_come_in_a_row(before, times, 0, 0);
    }
    assert(n == 0 ==> repeated(before, times).len() == 0);
    assert(n * times + times == (n + 1) * times && 0 <= k * times + j < (k + 1) * times && (k + 1)
        * times <= (n + 1) * times && (k < n ==> (k + 1) * times <= n * times) && (n == 0 ==> n
        * times == 0)) by (nonlinear_arith)
        requires
            0 <= k <= n,
            0 <= j < times,
    ;
}

/// While there is room for all of them, all samples that are offered are queued, in order.
pub proof fn nothing_is_dropped_while_there_is_room(
    before: SampleProducer,
    after: SampleProducer,
    offered: Seq<i16>,
    taken: Seq<bool>,
)
    requires
        offered_all(before, after, offered, taken),
        producer_count(before) + offered.len() <= producer_capacity(before),
    ensures
        accepted(after) == accepted(before) + offered,
        producer_count(after) == producer_count(before) + offered.len(),
{
    overflow_drops_the_newest(offered, taken, offered.len() as int);
    assert(offered.take(offered.len() as int) =~= offered);
    assert(accepted(after).len() == producer_count(after));
    assert(accepted(before).len() == producer_count(before));
}

/// Each sample is offered at its turn, and told to have found room where it did.
pub proof fn every_sample_is_offered_at_its_turn(
    before: SampleProducer,
    after: SampleProducer,
    offered: Seq<i16>,
    taken: Seq<bool>,
    i: int,
)
    requires
        offered_all(before, after, offered, taken),
        0 <= i < offered.len(),
    ensures
        producer_offered(after).len() == producer_offered(before).len() + offered.len(),
        producer_offered(after)[producer_offered(before).len() + i] == (offered[i], taken[i]),
{
}

/// What is queued for a frame of channels is what mixing those channels gives, of the samples that
/// belong to the frame and no others.
pub proof fn frames_are_mixed_whole<F: Fn(usize, usize) -> i16>(
    mix: F,
    mono: Seq<i16>,
    len: usize,
    channels: usize,
    k: int,
)
    requires
        mixes(mix, mono, len as int, channels as int),
        channels > 0,
        0 <= k < mono.len(),
    ensures
        call_ensures(
            mix,
            (
                (k * channels) as usize,
                (if k * channels + channels < len {
                    k * channels + channels
                } else {
                    len as int
                }) as usize,
            ),
            mono[k],
        ),
{
    assert((k + 1) * channels == k * channels + channels) by (nonlinear_arith);
}

/// Silence is as long as asked for, and all zero.
pub proof fn silence_is_silent(len: nat, i: int)
    requires
        0 <= i < len,
    ensures
        silence(len).len() == len,
        silence(len)[i] == 0,
{
}

/// One frame after another: a frame starts empty, holds what is taken for it in order, is handed
/// out as it is or, while the microphone is off, as zeros, and is followed by an empty one whose
/// number is higher by the size of a frame, in 32 bits.
pub proof fn frame_takes_its_course(m: AssemblerView, taken: Seq<i16>, muted: bool, i: int)
    ensures
        first_frame(m.frame_size).samples.len() == 0,
        first_frame(m.frame_size).timestamp == 0,
        first_frame(m.frame_size).frame_size == m.frame_size,
        filled(m, taken).samples == m.samples + taken,
        filled(m, taken).timestamp == m.timestamp,
        filled(m, taken).frame_size == m.frame_size,
        handed_out(m, muted).samples.len() == m.samples.len(),
        0 <= i < m.samples.len() ==> handed_out(m, muted).samples[i] == if muted {
            0
        } else {
            m.samples[i]
        },
        handed_out(m, muted).timestamp == m.timestamp,
        handed_out(m, muted).frame_size == m.frame_size,
        next_frame(m).samples.len() == 0,
        next_frame(m).frame_size == m.frame_size,
        next_frame(m).timestamp == (m.timestamp + m.frame_size) % 0x1_0000_0000,
{
}

/// The answers of a queue that had a sample each time are those samples, in order.
pub proof fn given_samples_are_answers(samples: Seq<i16>, i: int)
    requires
        0 <= i < samples.len(),
    ensures
        all_given(samples).len() == samples.len(),
        all_given(samples)[i] == Some(samples[i]),
{
}

}
