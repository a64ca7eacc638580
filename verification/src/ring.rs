//! The two ends of the sample queue that joins an audio device to the codec.
//!
//! Both ends are used at the same time by different threads, so neither can tell what the queue
//! holds at a given moment. What each end can tell is its own past: the samples that the producing
//! end was offered and which of them found room, and the answers that the consuming end gave.
use ringbuf::{HeapConsumer, HeapProducer, HeapRb};
use vstd::prelude::*;

verus! {

/// The end of a sample queue that samples are put into.
#[verifier::external_body]
pub struct SampleProducer {
    inner: HeapProducer<i16>,
}

/// The end of a sample queue that samples are taken from.
#[verifier::external_body]
pub struct SampleConsumer {
    inner: HeapConsumer<i16>,
}

/// The samples that pass through the queue of this end, by their number in order of acceptance.
pub uninterp spec fn producer_samples(producer: SampleProducer) -> Map<int, i16>;

/// How many samples this end has got accepted.
pub uninterp spec fn producer_count(producer: SampleProducer) -> nat;

/// The samples that have been offered to this end, in order, each with whether it found room.
pub uninterp spec fn producer_offered(producer: SampleProducer) -> Seq<(i16, bool)>;

/// How many samples the queue of this end can hold.
pub uninterp spec fn producer_capacity(producer: SampleProducer) -> nat;

/// The samples that pass through the queue of this end, by their number in order of acceptance.
pub uninterp spec fn consumer_samples(consumer: SampleConsumer) -> Map<int, i16>;

/// How many samples this end has taken.
pub uninterp spec fn consumer_count(consumer: SampleConsumer) -> nat;

/// The answers of this end, in order: a sample, or `None` where there was none.
pub uninterp spec fn consumer_answers(consumer: SampleConsumer) -> Seq<Option<i16>>;

/// The samples that a producing end has got accepted, in order.
pub open spec fn accepted(producer: SampleProducer) -> Seq<i16> {
    Seq::new(producer_count(producer), |i: int| producer_samples(producer)[i])
}

/// The samples that a consuming end has taken, in order.
pub open spec fn delivered(consumer: SampleConsumer) -> Seq<i16> {
    Seq::new(consumer_count(consumer), |i: int| consumer_samples(consumer)[i])
}

/// The samples that a consuming end has taken between two moments.
pub open spec fn newly_taken(before: SampleConsumer, after: SampleConsumer) -> Seq<i16> {
    delivered(after).skip(delivered(before).len() as int)
}

/// The answers of a consuming end between two moments.
pub open spec fn newly_answered(before: SampleConsumer, after: SampleConsumer) -> Seq<Option<i16>> {
    consumer_answers(after).skip(consumer_answers(before).len() as int)
}

/// The samples among some answers.
pub open spec fn present(answers: Seq<Option<i16>>) -> Seq<i16>
    decreases answers.len(),
{
    if answers.len() == 0 {
        seq![]
    } else {
        match answers.last() {
            Some(sample) => present(answers.drop_last()).push(sample),
            None => present(answers.drop_last()),
        }
    }
}

/// A consuming end has gone on: it gave more answers, and took the samples among them.
pub open spec fn went_on(before: SampleConsumer, after: SampleConsumer) -> bool {
    &&& consumer_samples(after) == consumer_samples(before)
    &&& delivered(before).is_prefix_of(delivered(after))
    &&& consumer_answers(before).is_prefix_of(consumer_answers(after))
    &&& newly_taken(before, after) == present(newly_answered(before, after))
}

/// The two ends belong to one queue.
pub open spec fn same_queue(producer: SampleProducer, consumer: SampleConsumer) -> bool {
    producer_samples(producer) == consumer_samples(consumer)
}

/// `HeapRb::new` and `SharedRb::split`: the two ends of a new, empty queue of the given capacity.
/// `HeapRb::new` panics on a capacity of zero and on one whose storage exceeds `isize::MAX` bytes.
#[verifier::external_body]
pub(crate) fn new_queue(capacity: usize) -> (r: (SampleProducer, SampleConsumer))
    requires
        0 < capacity,
        capacity * 2 <= isize::MAX,
    ensures
        producer_samples(r.0) == consumer_samples(r.1),
        producer_count(r.0) == 0,
        producer_offered(r.0) == Seq::<(i16, bool)>::empty(),
        producer_capacity(r.0) == capacity,
        consumer_count(r.1) == 0,
        consumer_answers(r.1) == Seq::<Option<i16>>::empty(),
{
    let (producer, consumer) = HeapRb::<i16>::new(capacity).split();
    (SampleProducer { inner: producer }, SampleConsumer { inner: consumer })
}

/// `Producer::push`: puts a sample into the queue, behind all earlier ones, unless the queue is
/// full; then the sample comes back. A queue that has never accepted as many samples as it can
/// hold is not full. Whether a later sample finds room depends on how far the other end has got.
#[verifier::external_body]
pub(crate) fn push(producer: &mut SampleProducer, sample: i16) -> (r: Result<(), i16>)
    ensures
        producer_samples(*final(producer)) == producer_samples(*old(producer)),
        producer_capacity(*final(producer)) == producer_capacity(*old(producer)),
        producer_offered(*final(producer)) == producer_offered(*old(producer)).push(
            (sample, r is Ok),
        ),
        producer_count(*old(producer)) < producer_capacity(*old(producer)) ==> r is Ok,
        r is Ok ==> producer_count(*final(producer)) == producer_count(*old(producer)) + 1,
        r is Ok ==> producer_samples(*final(producer))[producer_count(*old(producer)) as int]
            == sample,
        r matches Err(back) ==> back == sample && producer_count(*final(producer))
            == producer_count(*old(producer)),
{
    producer.inner.push(sample)
}

/// `Consumer::pop`: takes the oldest sample out of the queue, or `None` where the queue is empty.
/// Whether it is empty depends on how far the other end has got.
#[verifier::external_body]
pub(crate) fn pop(consumer: &mut SampleConsumer) -> (r: Option<i16>)
    ensures
        consumer_samples(*final(consumer)) == consumer_samples(*old(consumer)),
        consumer_answers(*final(consumer)) == consumer_answers(*old(consumer)).push(r),
        r matches Some(sample) ==> sample == consumer_samples(*old(consumer))[consumer_count(
            *old(consumer),
        ) as int] && consumer_count(*final(consumer)) == consumer_count(*old(consumer)) + 1,
        r is None ==> consumer_count(*final(consumer)) == consumer_count(*old(consumer)),
{
    consumer.inner.pop()
}

/// Puts a sample into the queue; tells whether it found room.
pub fn offer(producer: &mut SampleProducer, sample: i16) -> (taken: bool)
    ensures
        producer_samples(*final(producer)) == producer_samples(*old(producer)),
        producer_capacity(*final(producer)) == producer_capacity(*old(producer)),
        producer_offered(*final(producer)) == producer_offered(*old(producer)).push(
            (sample, taken),
        ),
        producer_count(*old(producer)) < producer_capacity(*old(producer)) ==> taken,
        taken ==> accepted(*final(producer)) == accepted(*old(producer)).push(sample),
        !taken ==> accepted(*final(producer)) == accepted(*old(producer)),
{
    let r: Result<(), i16> = push(producer, sample);
    match r {
        Ok(_) => {
            assert(accepted(*producer) =~= accepted(*old(producer)).push(sample));
            true
        },
        Err(_) => {
            assert(accepted(*producer) =~= accepted(*old(producer)));
            false
        },
    }
}

/// Takes the oldest sample out of the queue, if there is one.
pub fn take(consumer: &mut SampleConsumer) -> (r: Option<i16>)
    ensures
        consumer_samples(*final(consumer)) == consumer_samples(*old(consumer)),
        consumer_answers(*final(consumer)) == consumer_answers(*old(consumer)).push(r),
        r matches Some(sample) ==> delivered(*final(consumer)) == delivered(*old(consumer)).push(
            sample,
        ),
        r is None ==> delivered(*final(consumer)) == delivered(*old(consumer)),
{
    let r: Option<i16> = pop(consumer);
    match r {
        Some(sample) => {
            assert(delivered(*consumer) =~= delivered(*old(consumer)).push(sample));
        },
        None => {
            assert(delivered(*consumer) =~= delivered(*old(consumer)));
        },
    }
    r
}

/// The two ends of one queue agree: what the consuming end took as its k-th sample is what the
/// producing end got accepted as its k-th. Nothing is lost, altered or put out of order in between.
pub proof fn queue_keeps_order(producer: SampleProducer, consumer: SampleConsumer, k: int)
    requires
        same_queue(producer, consumer),
        0 <= k < accepted(producer).len(),
        k < delivered(consumer).len(),
    ensures
        delivered(consumer)[k] == accepted(producer)[k],
{
}

/// What there is among the answers of two turns is what there is among those of each.
proof fn lemma_present_concat(a: Seq<Option<i16>>, b: Seq<Option<i16>>)
    ensures
        present(a + b) == present(a) + present(b),
    decreases b.len(),
{
    if b.len() == 0 {
        assert(a + b =~= a);
        assert(present(a) + present(b) =~= present(a));
    } else {
        lemma_present_concat(a, b.drop_last());
        assert((a + b).drop_last() =~= a + b.drop_last());
        assert(present(a + b) =~= present(a) + present(b));
    }
}

/// An end that has not been asked has gone on by nothing.
pub(crate) proof fn lemma_still(consumer: SampleConsumer)
    ensures
        went_on(consumer, consumer),
        newly_taken(consumer, consumer) == Seq::<i16>::empty(),
        newly_answered(consumer, consumer) == Seq::<Option<i16>>::empty(),
{
    assert(newly_taken(consumer, consumer) =~= Seq::<i16>::empty());
    assert(newly_answered(consumer, consumer) =~= Seq::<Option<i16>>::empty());
}

/// One more answer, and the sample in it if there is one.
pub(crate) proof fn lemma_one_more(
    from: SampleConsumer,
    before: SampleConsumer,
    after: SampleConsumer,
    answer: Option<i16>,
)
    requires
        went_on(from, before),
        consumer_samples(after) == consumer_samples(before),
        consumer_answers(after) == consumer_answers(before).push(answer),
        answer matches Some(sample) ==> delivered(after) == delivered(before).push(sample),
        answer is None ==> delivered(after) == delivered(before),
    ensures
        went_on(from, after),
        newly_answered(from, after) == newly_answered(from, before).push(answer),
        newly_taken(from, after) == match answer {
            Some(sample) => newly_taken(from, before).push(sample),
            None => newly_taken(from, before),
        },
{
    assert(newly_answered(from, after) =~= newly_answered(from, before).push(answer));
    assert(newly_answered(from, after).drop_last() =~= newly_answered(from, before));
    match answer {
        Some(sample) => {
            assert(newly_taken(from, after) =~= newly_taken(from, before).push(sample));
        },
        None => {},
    }
}

/// Taking in turns loses nothing: what a consuming end answers and takes in two turns, one after
/// the other, is what it answers and takes in all, in order.
pub proof fn turns_add_up(first: SampleConsumer, second: SampleConsumer, third: SampleConsumer)
    requires
        went_on(first, second),
        went_on(second, third),
    ensures
        went_on(first, third),
        newly_answered(first, third) == newly_answered(first, second) + newly_answered(
            second,
            third,
        ),
        newly_taken(first, third) == newly_taken(first, second) + newly_taken(second, third),
{
    assert(newly_answered(first, third) =~= newly_answered(first, second) + newly_answered(
        second,
        third,
    ));
    assert(newly_taken(first, third) =~= newly_taken(first, second) + newly_taken(second, third));
    lemma_present_concat(newly_answered(first, second), newly_answered(second, third));
}

/// A queue that runs dry gives its samples first: where the first `n` answers are samples and the
/// others are not, what was taken is those samples, in order, and no more.
pub proof fn dry_queue_gives_its_samples_first(answers: Seq<Option<i16>>, n: int)
    requires
        0 <= n,
        forall|k: int| 0 <= k < answers.len() ==> ((#[trigger] answers[k]) is Some <==> k < n),
    ensures
        present(answers).len() == if n < answers.len() {
            n
        } else {
            answers.len() as int
        },
        forall|k: int|
            0 <= k < present(answers).len() ==> answers[k] == Some(#[trigger] present(answers)[k]),
    decreases answers.len(),
{
    if answers.len() > 0 {
        let before = answers.drop_last();
        assert forall|k: int| 0 <= k < before.len() implies ((#[trigger] before[k]) is Some <==> k
            < n) by {
            assert(before[k] == answers[k]);
        }
        dry_queue_gives_its_samples_first(before, n);
        assert forall|k: int| 0 <= k < present(answers).len() implies answers[k] == Some(
            #[trigger] present(answers)[k],
        ) by {
            if k < present(before).len() {
                assert(present(answers)[k] == present(before)[k]);
                assert(before[k] == answers[k]);
            }
        }
    }
}

}
