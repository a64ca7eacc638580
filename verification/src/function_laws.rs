//! What holds of every call of the functions of the library, and how one call relates to another.
use iroh_base::{NodeAddr, SecretKey};
use std::path::PathBuf;
use vstd::prelude::*;

use crate::audio::{
    build_input_stream, build_output_stream, frame_size, list_devices, opus_supports,
    plan_pipeline, resolve_input_device, resolve_output_device, select_best_config,
    AudioDeviceList, AudioPipeline, ConfigRange, DeviceChoice, EncodedFrame, InputStreamParts,
    OutputStreamParts, PipelinePlan, SampleFormat, StreamConfig,
};
use crate::call::{
    views, Action, ActionView, CallActor, CallCommand, CallEvent, CallState, EventView,
    InternalEvent, StateView,
};
use crate::capture::{
    frames_are_mixed_whole, mixes, nothing_is_dropped_while_there_is_room, offered_all,
    push_input_samples, repeated, repeated_samples_come_in_a_row, FrameAssembler,
};
use crate::endpoint::{
    config_dir_or_default, identity_contents, load_or_create_secret_key, load_secret_key, node_id,
    secret_key_bytes, Identity, Platform,
};
use crate::error::VoiceError;
use crate::gui::{Effect, Message, VoiceApp};
use crate::frames::{frame_count, frames_are_as_few_as_can_be, lemma_frame_of};
use crate::playback::{
    decode_buffer_len, frames_play_their_answers, queue_decoded, render_output_samples,
    unasked, Rendered,
};
use crate::qr::build_qr;
use crate::ring::{
    accepted, consumer_answers, delivered, lemma_still, newly_answered, offer, producer_capacity,
    producer_count, producer_offered, take, SampleConsumer, SampleProducer,
};
use crate::text::blank;
use crate::ticket::{
    addressed_node_id, create_ticket, node_details, parse_ticket, ticket_leads_back, NodeDetails,
};
use crate::transport::{AudioReceiver, AudioSender, AudioTransport, RtpPacket};

verus! {

/// A connection that dialing brought is what a call is opened over, in every state of the actor:
/// asking for that is the last action, with that connection and the devices in use, the connection
/// is not dropped, and the answer is outstanding.
pub proof fn dialed_connection_is_opened<C, A>(
    actor: &mut CallActor<C, A>,
    connection: C,
    r: Vec<Action<C, A>>,
    i: int,
)
    requires
        call_ensures(
            CallActor::<C, A>::handle_internal,
            (actor, InternalEvent::DialResult(Ok(connection))),
            r,
        ),
    ensures
        r@.len() > 0,
        r@.last()@ == (ActionView::<C, A>::OpenCall {
            connection,
            selection: old(actor)@.selection,
        }),
        0 <= i < r@.len() ==> !(r@[i] is DropConnection),
        final(actor)@.opening,
        final(actor)@.requested == old(actor)@.requested,
        final(actor)@.pending == old(actor)@.pending,
        final(actor)@.active == old(actor)@.active,
{
    assert(views(r@).last() == r@.last()@);
    if 0 <= i < r@.len() {
        assert(views(r@)[i] == r@[i]@);
    }
}

/// A call that was opened is in use: it is the active one, the state says so, and the user is told.
pub proof fn opened_call_is_in_use<C, A>(
    actor: &mut CallActor<C, A>,
    call: A,
    info: crate::audio::AudioDeviceInfo,
    r: Vec<Action<C, A>>,
)
    requires
        call_ensures(CallActor::<C, A>::call_opened, (actor, Ok((call, info))), r),
    ensures
        final(actor)@.active == Some(call),
        final(actor)@.state is InCall,
        !final(actor)@.opening,
        final(actor)@.requested == old(actor)@.requested,
        r@.len() > 0,
        r@.last()@ == ActionView::<C, A>::Emit(EventView::CallState(StateView::InCall)),
{
    assert(views(r@).last() == r@.last()@);
}

/// A caller who comes to an actor without a call and without a waiting caller is kept and shown by
/// name, and nothing else happens; any other caller is let go, and nothing else happens.
pub proof fn caller_is_kept_or_let_go<C, A>(
    actor: &mut CallActor<C, A>,
    connection: C,
    remote: Option<String>,
    r: Vec<Action<C, A>>,
)
    requires
        call_ensures(
            CallActor::<C, A>::handle_internal,
            (actor, InternalEvent::Incoming { connection, remote }),
            r,
        ),
    ensures
        r@.len() == 1,
        ({
            let free = old(actor)@.active is None && old(actor)@.pending is None;
            let state = StateView::IncomingCall {
                from: match remote {
                    Some(name) => name@,
                    None => "Unknown"@,
                },
            };
            if free {
                &&& final(actor)@.pending == Some(connection)
                &&& final(actor)@.state == state
                &&& r@[0]@ == ActionView::<C, A>::Emit(EventView::CallState(state))
            } else {
                &&& final(actor)@ == old(actor)@
                &&& r@[0]@ == ActionView::<C, A>::DropConnection(connection)
            }
        }),
{
    assert(views(r@).len() == r@.len());
    assert(views(r@)[0] == r@[0]@);
}

/// Only the user's own words on listening change what the user wants.
pub proof fn commands_keep_the_wish<C, A>(
    actor: &mut CallActor<C, A>,
    command: CallCommand,
    r: Vec<Action<C, A>>,
)
    requires
        call_ensures(CallActor::<C, A>::handle_command, (actor, command), r),
    ensures
        command is StartListening ==> final(actor)@.requested,
        command is StopListening ==> !final(actor)@.requested,
        !(command is StartListening) && !(command is StopListening) ==> final(actor)@.requested
            == old(actor)@.requested,
{
}

/// Hanging up without wishing to listen starts no listener, and leaves the actor idle.
pub proof fn hanging_up_listens_for_nobody<C, A>(
    actor: &mut CallActor<C, A>,
    r: Vec<Action<C, A>>,
    i: int,
)
    requires
        call_ensures(CallActor::<C, A>::handle_command, (actor, CallCommand::HangUp), r),
        !actor@.requested,
    ensures
        final(actor)@.state is Idle,
        final(actor)@.active is None,
        final(actor)@.listening == old(actor)@.listening,
        0 <= i < r@.len() ==> !(r@[i] is SpawnListener),
{
    if 0 <= i < r@.len() {
        assert(views(r@)[i] == r@[i]@);
    }
}

/// A state that the core tells leaves the error on the screen, and an error leaves the state.
pub proof fn state_and_error_are_shown_side_by_side(
    window: &mut VoiceApp,
    state: CallState,
    other: &mut VoiceApp,
    text: String,
    r: (),
)
    requires
        call_ensures(VoiceApp::apply_event, (window, CallEvent::CallState(state)), r),
        call_ensures(VoiceApp::apply_event, (other, CallEvent::Error(text)), r),
    ensures
        final(window)@.call_state == state@,
        final(window)@.last_error == old(window)@.last_error,
        final(window)@.audio_info == old(window)@.audio_info,
        final(other)@.last_error == Some(text@),
        final(other)@.call_state == old(other)@.call_state,
        final(other)@.muted == old(other)@.muted,
{
}

/// A press of a button changes nothing that the core tells: neither the state that is shown, nor
/// the error, nor the devices.
pub proof fn buttons_leave_what_is_shown(
    window: &mut VoiceApp,
    message: Message,
    r: Option<Effect>,
)
    requires
        call_ensures(VoiceApp::update, (window, message), r),
        !(message is CoreEvent),
    ensures
        final(window)@.call_state == old(window)@.call_state,
        final(window)@.last_error == old(window)@.last_error,
        final(window)@.audio_info == old(window)@.audio_info,
        final(window)@.local_ticket == old(window)@.local_ticket,
        !(message is ToggleMute) ==> final(window)@.muted == old(window)@.muted,
        !old(window)@.has_core && !(message is CopyTicket) ==> r is None,
{
}

/// A pipeline can be had exactly where both streams have one rate and Opus works at it, whichever
/// way round the streams are; its frames are those of the rate, and it sends one channel.
pub proof fn pipeline_needs_one_opus_rate(
    input: &StreamConfig,
    output: &StreamConfig,
    input_name: Option<String>,
    output_name: Option<String>,
    r: Result<PipelinePlan, VoiceError>,
    turned: Result<PipelinePlan, VoiceError>,
    supported: bool,
    size: usize,
)
    requires
        call_ensures(plan_pipeline, (input, output, input_name, output_name), r),
        call_ensures(plan_pipeline, (output, input, output_name, input_name), turned),
        call_ensures(opus_supports, (input.sample_rate,), supported),
        call_ensures(frame_size, (input.sample_rate,), size),
    ensures
        r is Ok <==> input.sample_rate == output.sample_rate && supported,
        r is Ok <==> turned is Ok,
        r matches Ok(plan) ==> {
            &&& plan.frame_size == size
            &&& plan.device_info.sample_rate == input.sample_rate
            &&& plan.device_info.sample_rate == output.sample_rate
            &&& plan.device_info.channels == 1
            &&& input_name matches Some(name) ==> plan.device_info.input_name@ == name@
            &&& output_name matches Some(name) ==> plan.device_info.output_name@ == name@
            &&& input_name is None ==> plan.device_info.input_name@ == "Input"@
            &&& output_name is None ==> plan.device_info.output_name@ == "Output"@
        },
        r is Err ==> r->Err_0 is Audio,
{
}

/// A stream is built for each of the three formats and for no other, with a queue of two seconds
/// that takes what is put into it and starts empty; playback waits for no more than the queue
/// holds.
pub proof fn streams_are_built_for_known_formats(
    config: &StreamConfig,
    input: Result<InputStreamParts, VoiceError>,
    output: Result<OutputStreamParts, VoiceError>,
)
    requires
        config.sample_rate > 0,
        call_ensures(build_input_stream, (config,), input),
        call_ensures(build_output_stream, (config,), output),
    ensures
        input is Ok <==> config.sample_format == SampleFormat::F32 || config.sample_format
            == SampleFormat::I16 || config.sample_format == SampleFormat::U16,
        output is Ok <==> input is Ok,
        input matches Ok(parts) ==> parts.channels == config.channels && producer_capacity(
            parts.producer,
        ) == 2 * config.sample_rate && producer_count(parts.producer) == 0,
        output matches Ok(parts) ==> parts.channels == config.channels && producer_capacity(
            parts.producer,
        ) == 2 * config.sample_rate && producer_count(parts.producer) == 0 && parts.min_samples
            < producer_capacity(parts.producer) && 1000 * parts.min_samples <= 120
            * config.sample_rate < 1000 * parts.min_samples + 1000,
{
}

/// A listing lists a device under the names of its own side, and fails where either side does.
pub proof fn listing_needs_both_sides(
    inputs: &Option<Vec<Option<String>>>,
    outputs: &Option<Vec<Option<String>>>,
    r: Result<AudioDeviceList, VoiceError>,
)
    requires
        call_ensures(list_devices, (inputs, outputs), r),
    ensures
        r is Ok <==> inputs is Some && outputs is Some,
        r matches Ok(list) ==> {
            &&& list@.inputs == crate::audio::known_names(inputs->0@)
            &&& list@.outputs == crate::audio::known_names(outputs->0@)
        },
        r is Err ==> r->Err_0 is Other,
{
}

/// Both sides find their devices alike.
pub proof fn both_sides_resolve_alike(
    requested: &Option<String>,
    names: &Vec<Option<String>>,
    default_present: bool,
    input: Result<DeviceChoice, VoiceError>,
    output: Result<DeviceChoice, VoiceError>,
)
    requires
        call_ensures(resolve_input_device, (requested, names, default_present), input),
        call_ensures(resolve_output_device, (requested, names, default_present), output),
    ensures
        input is Ok <==> output is Ok,
        input is Ok ==> input->Ok_0 == output->Ok_0,
        default_present ==> input is Ok,
        requested is None ==> (input is Ok <==> default_present) && (input is Ok ==> input->Ok_0
            is Default),
{
}

/// A configuration is chosen one way only.
pub proof fn choice_is_settled(
    ranges: &Vec<ConfigRange>,
    one: Result<StreamConfig, VoiceError>,
    other: Result<StreamConfig, VoiceError>,
)
    requires
        call_ensures(select_best_config, (ranges,), one),
        call_ensures(select_best_config, (ranges,), other),
        one is Ok,
        other is Ok,
    ensures
        one->Ok_0 == other->Ok_0,
{
    let i = choose|i: int| #[trigger] crate::audio::takes_range(ranges@, i, one->Ok_0);
    let j = choose|j: int| #[trigger] crate::audio::takes_range(ranges@, j, other->Ok_0);
    crate::audio::best_is_unique(
        ranges@,
        i,
        one->Ok_0.sample_rate,
        j,
        other->Ok_0.sample_rate,
    );
}

/// The buffer for decoding has room for two frames.
pub proof fn decoding_has_room_for_two_frames(rate: u32, room: usize, size: usize)
    requires
        call_ensures(decode_buffer_len, (rate,), room),
        call_ensures(frame_size, (rate,), size),
    ensures
        room == 2 * size,
{
}

/// The outgoing frames are taken once: the first time they are handed over, and after that there is
/// an error; the other ends stay.
pub proof fn outgoing_is_taken_once<R, S, M>(
    first: &mut AudioPipeline<R, S, M>,
    one: Result<R, VoiceError>,
    second: &mut AudioPipeline<R, S, M>,
    two: Result<R, VoiceError>,
)
    requires
        call_ensures(AudioPipeline::<R, S, M>::take_outgoing, (first,), one),
        call_ensures(AudioPipeline::<R, S, M>::take_outgoing, (second,), two),
        *second == *final(first),
    ensures
        old(first).outgoing() matches Some(end) ==> one == Ok::<R, VoiceError>(end),
        two is Err,
        final(second).incoming() == old(first).incoming(),
        final(second).mute() == old(first).mute(),
        final(second).info() == old(first).info(),
{
}

/// A frame that was encoded is sent as it was encoded: the payload is the beginning of the buffer,
/// as long as the encoder said; its number is that of the frame, and the next frame is empty.
pub proof fn encoded_frame_is_sent_whole(
    frames: &mut FrameAssembler,
    buffer: Vec<u8>,
    len: usize,
    r: EncodedFrame,
)
    requires
        call_ensures(FrameAssembler::finish, (frames, buffer, len), r),
        len <= buffer@.len(),
    ensures
        r.payload@.len() == len,
        r.payload@.is_prefix_of(buffer@),
        r.timestamp == old(frames)@.timestamp,
        final(frames)@.samples.len() == 0,
        final(frames)@.frame_size == old(frames)@.frame_size,
        final(frames)@.timestamp == (old(frames)@.timestamp + old(frames)@.frame_size)
            % 0x1_0000_0000,
{
}

/// A frame that is handed out while the microphone is off is all zero, and else it is what was
/// captured; it has the size of a frame either way.
pub proof fn muted_frame_is_zero(
    frames: &mut FrameAssembler,
    muted: bool,
    r: &Vec<i16>,
    i: int,
)
    requires
        call_ensures(FrameAssembler::frame, (frames, muted), r),
        frames@.samples.len() == frames@.frame_size,
        0 <= i < frames@.frame_size,
    ensures
        r@.len() == old(frames)@.frame_size,
        muted ==> r@[i] == 0,
        !muted ==> r@[i] == old(frames)@.samples[i],
{
}

/// Playing a turn: it plays exactly where playback had started or enough samples have been
/// gathered. Then the queue is asked once for every frame, and each channel of a frame plays what
/// the queue gave for it, or zero; else the queue is left alone, and all is zero. Nothing is played
/// where there is no channel.
pub proof fn turn_plays_what_the_queue_gave<T: Copy, F: Fn(i16) -> T>(
    data: &mut [T],
    output_channels: usize,
    target_channels: u16,
    consumer: &mut SampleConsumer,
    available: usize,
    started: bool,
    min_samples: usize,
    convert: F,
    r: Rendered,
    frame: int,
    i: int,
)
    requires
        call_ensures(
            render_output_samples::<T, F>,
            (
                data,
                output_channels,
                target_channels,
                consumer,
                available,
                started,
                min_samples,
                convert,
            ),
            r,
        ),
        output_channels > 0,
        target_channels > 0,
        0 <= frame,
        frame * output_channels <= i < (frame + 1) * output_channels,
        i < data@.len(),
    ensures
        final(data)@.len() == old(data)@.len(),
        r.started <==> started || available >= min_samples,
        r.started ==> {
            let before = consumer_answers(*old(consumer));
            let now = consumer_answers(*final(consumer));
            &&& before.is_prefix_of(now)
            &&& before.len() + frame < now.len()
            &&& (now.len() - before.len() - 1) * output_channels < old(data)@.len()
            &&& now[before.len() + frame] matches Some(sample) ==> call_ensures(
                convert,
                (sample,),
                final(data)@[i],
            )
            &&& now[before.len() + frame] is None ==> call_ensures(
                convert,
                (0i16,),
                final(data)@[i],
            )
        },
        !r.started ==> *final(consumer) == *old(consumer) && r.taken == 0 && call_ensures(
            convert,
            (0i16,),
            final(data)@[i],
        ),
        delivered(*final(consumer)).len() == delivered(*old(consumer)).len() + r.taken,
{
    let channels = output_channels as int;
    let len = old(data)@.len() as int;
    lemma_frame_of(i, frame, channels);
    assert(0 <= frame * channels) by (nonlinear_arith)
        requires
            0 <= frame,
            channels > 0,
    ;
    frames_are_as_few_as_can_be(len, channels);
    let count = frame_count(len, channels);
    assert(frame < count) by (nonlinear_arith)
        requires
            frame * channels <= i < len,
            count * channels >= len,
            channels > 0,
    ;
    if r.started {
        frames_play_their_answers(
            convert,
            final(data)@,
            channels,
            newly_answered(*old(consumer), *final(consumer)),
            i,
        );
    } else {
        frames_play_their_answers(convert, final(data)@, channels, unasked(count), i);
        lemma_still(*old(consumer));
    }
}

/// Capturing where there is room queues, for every frame of channels, its mixed sample once for
/// each channel that is sent, behind what was queued before; and nothing where there is no channel.
pub proof fn captured_frames_are_queued<F: Fn(usize, usize) -> i16>(
    len: usize,
    input_channels: usize,
    target_channels: u16,
    mix: F,
    producer: &mut SampleProducer,
    r: (),
    frame: int,
    copy: int,
)
    requires
        call_ensures(
            push_input_samples::<F>,
            (len, input_channels, target_channels, mix, producer),
            r,
        ),
        input_channels > 0,
        0 <= copy < target_channels,
        0 <= frame < frame_count(len as int, input_channels as int),
        producer_count(*producer) + frame_count(len as int, input_channels as int)
            * target_channels <= producer_capacity(*producer),
    ensures
        accepted(*old(producer)).is_prefix_of(accepted(*final(producer))),
        accepted(*final(producer)).len() == accepted(*old(producer)).len() + frame_count(
            len as int,
            input_channels as int,
        ) * target_channels,
        call_ensures(
            mix,
            (
                (frame * input_channels) as usize,
                (if frame * input_channels + input_channels < len {
                    frame * input_channels + input_channels
                } else {
                    len as int
                }) as usize,
            ),
            accepted(*final(producer))[accepted(*old(producer)).len() + frame * target_channels
                + copy],
        ),
{
    let channels = input_channels as int;
    let (mono, taken) = choose|mono: Seq<i16>, taken: Seq<bool>|
        {
            &&& mono.len() == frame_count(len as int, input_channels as int)
            &&& mixes(mix, mono, len as int, input_channels as int)
            &&& #[trigger] offered_all(
                *old(producer),
                *final(producer),
                repeated(mono, target_channels as nat),
                taken,
            )
        };
    repeated_samples_come_in_a_row(mono, target_channels as nat, frame, copy);
    nothing_is_dropped_while_there_is_room(
        *old(producer),
        *final(producer),
        repeated(mono, target_channels as nat),
        taken,
    );
    frames_are_mixed_whole(mix, mono, len, input_channels, frame);
}

/// Filling asks the queue until the frame is full or the queue has nothing, and puts what it gave
/// behind what the frame held.
pub proof fn filling_stops_at_a_full_frame_or_an_empty_queue(
    frames: &mut FrameAssembler,
    consumer: &mut SampleConsumer,
    full: bool,
)
    requires
        call_ensures(FrameAssembler::fill, (frames, consumer), full),
    ensures
        old(frames)@.samples.is_prefix_of(final(frames)@.samples),
        final(frames)@.timestamp == old(frames)@.timestamp,
        final(frames)@.frame_size == old(frames)@.frame_size,
        full <==> final(frames)@.samples.len() == final(frames)@.frame_size,
        !full ==> consumer_answers(*final(consumer)).len() > 0 && consumer_answers(
            *final(consumer),
        ).last() is None,
        final(frames)@.samples.len() - old(frames)@.samples.len() == delivered(
            *final(consumer),
        ).len() - delivered(*old(consumer)).len(),
{
    let answers = newly_answered(*old(consumer), *final(consumer));
    if !full {
        assert(answers.last() is None);
        assert(consumer_answers(*final(consumer)).last() == answers.last());
    }
}

/// Queueing decoded samples tells how many were queued, which is no more than there were, and all
/// of them where there is room.
pub proof fn queueing_tells_how_many(
    pcm: &Vec<i16>,
    len: usize,
    producer: &mut SampleProducer,
    queued: usize,
)
    requires
        len <= pcm@.len(),
        call_ensures(queue_decoded, (pcm, len, producer), queued),
    ensures
        accepted(*final(producer)).len() == accepted(*old(producer)).len() + queued,
        queued <= len,
        producer_offered(*final(producer)).len() == producer_offered(*old(producer)).len() + len,
        producer_count(*old(producer)) + len <= producer_capacity(*old(producer)) ==> queued == len
            && accepted(*final(producer)) == accepted(*old(producer)) + pcm@.take(len as int),
{
    let taken = choose|taken: Seq<bool>| #[trigger]
        offered_all(*old(producer), *final(producer), pcm@.take(len as int), taken);
    crate::capture::lemma_kept_len(pcm@.take(len as int), taken);
    if producer_count(*old(producer)) + len <= producer_capacity(*old(producer)) {
        nothing_is_dropped_while_there_is_room(
            *old(producer),
            *final(producer),
            pcm@.take(len as int),
            taken,
        );
    }
}

/// One sample is offered, and one is asked for: what was accepted before stays, and what comes out
/// is put behind what came out before.
pub proof fn queue_ends_go_on(
    producer: &mut SampleProducer,
    sample: i16,
    taken: bool,
    consumer: &mut SampleConsumer,
    r: Option<i16>,
)
    requires
        call_ensures(offer, (producer, sample), taken),
        call_ensures(take, (consumer,), r),
    ensures
        accepted(*old(producer)).is_prefix_of(accepted(*final(producer))),
        taken ==> accepted(*final(producer)).len() == accepted(*old(producer)).len() + 1,
        taken ==> accepted(*final(producer)).last() == sample,
        !taken ==> accepted(*final(producer)) == accepted(*old(producer)),
        consumer_answers(*final(consumer)).len() == consumer_answers(*old(consumer)).len() + 1,
        consumer_answers(*final(consumer)).last() == r,
{
}

/// What is sent arrives: the frame that is unpacked is the one that was packed, and the sender goes
/// on in its stream.
pub proof fn packing_and_unpacking_keep_the_frame(
    sender: &mut AudioSender,
    frame: EncodedFrame,
    packet: RtpPacket,
    receiver: &AudioReceiver,
    received: EncodedFrame,
)
    requires
        call_ensures(AudioSender::next_packet, (sender, frame), packet),
        call_ensures(AudioReceiver::frame, (receiver, packet), received),
    ensures
        received.payload@ == frame.payload@,
        received.timestamp == frame.timestamp,
        packet.ssrc == old(sender).ssrc,
        packet.sequence_number == old(sender).sequence,
        final(sender).ssrc == old(sender).ssrc,
        final(sender).sequence as int == (old(sender).sequence + 1) % 0x1_0000,
{
}

/// The numbers that a stream starts with come from the words it is given.
pub proof fn stream_starts_with_its_words(
    ssrc: u32,
    word: u32,
    r: (AudioSender, AudioReceiver),
)
    requires
        call_ensures(AudioTransport::with_words, (ssrc, word), r),
    ensures
        r.0.ssrc == ssrc,
        r.0.sequence as int == word as int % 0x1_0000,
{
}

/// An identity that was made once is the identity of every later start: what is to be kept of it is
/// read as a key of the same node.
pub proof fn made_identity_is_found_again(
    made: Result<Identity, VoiceError>,
    found: Result<Identity, VoiceError>,
    first_id: String,
    later_id: String,
)
    requires
        call_ensures(load_or_create_secret_key, (None,), made),
        made is Ok && made->Ok_0 is New,
        call_ensures(load_or_create_secret_key, (Some(made->Ok_0->contents),), found),
        call_ensures(node_id, (&made->Ok_0->key,), first_id),
        found is Ok && found->Ok_0 is Kept ==> call_ensures(node_id, (&found->Ok_0->0,), later_id),
    ensures
        found is Ok,
        found->Ok_0 is Kept,
        secret_key_bytes(found->Ok_0->0) == secret_key_bytes(made->Ok_0->key),
        later_id@ == first_id@,
{
}

/// A start without an identity makes one, and a start with one makes none.
pub proof fn identity_is_made_where_there_is_none(
    stored: Option<Vec<u8>>,
    r: Result<Identity, VoiceError>,
)
    requires
        call_ensures(load_or_create_secret_key, (stored,), r),
    ensures
        stored is None ==> r is Ok && r->Ok_0 is New,
        stored matches Some(contents) ==> (r is Ok <==> contents@.len() == 32),
        stored is Some && r is Ok ==> r->Ok_0 is Kept,
{
}

/// Keeping a key and reading it back gives the key.
pub proof fn kept_key_is_read_back(
    key: &SecretKey,
    contents: Vec<u8>,
    r: Result<SecretKey, VoiceError>,
)
    requires
        call_ensures(identity_contents, (key,), contents),
        call_ensures(load_secret_key, (&contents,), r),
    ensures
        r is Ok,
        secret_key_bytes(r->Ok_0) == secret_key_bytes(*key),
{
}

/// A directory that is configured is used, whatever the platform has.
pub proof fn configured_directory_is_used(
    dir: PathBuf,
    platform: Platform,
    base: Option<PathBuf>,
    r: Result<PathBuf, VoiceError>,
    other: Result<PathBuf, VoiceError>,
)
    requires
        call_ensures(config_dir_or_default, (Some(dir), platform, base), r),
        call_ensures(config_dir_or_default, (None, platform, base), other),
    ensures
        r == Ok::<PathBuf, VoiceError>(dir),
        other is Ok <==> base is Some,
{
}

/// A ticket that is made of an address and read again gives an address of the same node; and where
/// it was foretold that it leads back, it can be read, and tells all that the address told.
pub proof fn ticket_is_read_as_it_was_made(
    addr: NodeAddr,
    told: NodeDetails,
    foretold: bool,
    ticket: Result<String, VoiceError>,
    read: Result<NodeAddr, VoiceError>,
    again: NodeDetails,
    shown: String,
    shown_again: String,
)
    requires
        call_ensures(node_details, (&addr,), told),
        call_ensures(ticket_leads_back, (&addr,), foretold),
        call_ensures(addressed_node_id, (&addr,), shown),
        call_ensures(create_ticket, (Some(addr),), ticket),
        ticket is Ok ==> forall|text: &str|
            #![trigger text@]
            text@ == ticket->Ok_0@ ==> call_ensures(parse_ticket, (text,), read),
        exists|text: &str| #![trigger text@] text@ == ticket->Ok_0@,
        read matches Ok(a) ==> call_ensures(node_details, (&a,), again) && call_ensures(
            addressed_node_id,
            (&a,),
            shown_again,
        ),
    ensures
        ticket is Ok,
        foretold ==> read is Ok && again@ == told@,
        read is Ok ==> shown_again@ == shown@,
        read is Ok && !foretold ==> again@ != told@,
{
    let text: &str = choose|text: &str| #![trigger text@] text@ == ticket->Ok_0@;
    assert(call_ensures(parse_ticket, (text,), read));
}

/// A text of nothing but white space has no picture.
pub proof fn blank_text_has_no_picture(ticket: &str, r: Option<Vec<u8>>)
    requires
        call_ensures(build_qr, (ticket,), r),
        blank(ticket@),
    ensures
        r is None,
{
}

/// The text of an error ends with its cause, whatever that is.
pub proof fn message_ends_with_the_cause(cause: String, audio: String, other: String)
    requires
        call_ensures(VoiceError::message, (&VoiceError::Audio(cause),), audio),
        call_ensures(VoiceError::message, (&VoiceError::Other(cause),), other),
    ensures
        other@ == cause@,
        audio@ == "Audio error: "@ + cause@,
{
}

}
