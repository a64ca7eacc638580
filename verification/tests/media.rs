use accord_voice::audio::{build_output_stream, EncodedFrame, SampleFormat, StreamConfig};
use accord_voice::capture::{push_input_samples, FrameAssembler, PACKET_BUFFER_LEN};
use accord_voice::playback::{decode_buffer_len, queue_decoded, render_output_samples, Rendered};
use accord_voice::ring::{offer, take, SampleConsumer, SampleProducer};
use accord_voice::transport::{AudioReceiver, AudioSender, AudioTransport, RtpPacket};

fn queue(rate: u32) -> (SampleProducer, SampleConsumer) {
    let config =
        StreamConfig { channels: 1, sample_rate: rate, sample_format: SampleFormat::F32 };
    let parts = build_output_stream(&config).ok().unwrap();
    (parts.producer, parts.consumer)
}

fn drain(consumer: &mut SampleConsumer) -> Vec<i16> {
    let mut out = Vec::new();
    while let Some(sample) = take(consumer) {
        out.push(sample);
    }
    out
}

#[test]
fn queue_keeps_the_order() {
    let (mut producer, mut consumer) = queue(10);
    for i in 0..20i16 {
        assert!(offer(&mut producer, i));
    }
    assert!(!offer(&mut producer, 99));
    assert_eq!(drain(&mut consumer), (0..20i16).collect::<Vec<_>>());
    assert!(offer(&mut producer, 100));
    assert_eq!(take(&mut consumer), Some(100));
    assert_eq!(take(&mut consumer), None);
}

#[test]
fn captured_frames_are_mixed_and_queued() {
    let data = [1i16, 3, 10, 20, 7];
    let mix = |start: usize, end: usize| data[start..end].iter().sum::<i16>();
    let (mut producer, mut consumer) = queue(10);
    push_input_samples(data.len(), 2, 1, mix, &mut producer);
    assert_eq!(drain(&mut consumer), vec![4, 30, 7]);
    push_input_samples(data.len(), 3, 2, mix, &mut producer);
    assert_eq!(drain(&mut consumer), vec![14, 14, 27, 27]);
    push_input_samples(data.len(), 9, 1, mix, &mut producer);
    assert_eq!(drain(&mut consumer), vec![41]);
}

#[test]
fn captured_frames_need_channels() {
    let mix = |_: usize, _: usize| 5i16;
    let (mut producer, mut consumer) = queue(10);
    push_input_samples(4, 0, 1, mix, &mut producer);
    push_input_samples(4, 2, 0, mix, &mut producer);
    push_input_samples(0, 2, 1, mix, &mut producer);
    assert_eq!(take(&mut consumer), None);
}

#[test]
fn captured_samples_without_room_are_dropped() {
    let mix = |start: usize, _: usize| start as i16;
    let (mut producer, mut consumer) = queue(2);
    push_input_samples(6, 1, 1, mix, &mut producer);
    assert_eq!(drain(&mut consumer), vec![0, 1, 2, 3]);
}

#[test]
fn frames_are_assembled() {
    let (mut producer, mut consumer) = queue(200);
    let mut frames = FrameAssembler::new(200);
    for i in 1..4i16 {
        offer(&mut producer, i);
    }
    assert!(!frames.fill(&mut consumer));
    for i in 4..10i16 {
        offer(&mut producer, i);
    }
    assert!(frames.fill(&mut consumer));
    assert_eq!(frames.frame(false), &vec![1i16, 2, 3, 4]);
    let first = frames.finish(vec![9u8; PACKET_BUFFER_LEN], 3);
    assert_eq!(first, EncodedFrame { payload: vec![9, 9, 9], timestamp: 0 });
    assert!(frames.fill(&mut consumer));
    assert_eq!(frames.frame(false), &vec![5i16, 6, 7, 8]);
    let second = frames.finish(vec![1, 2], 0);
    assert_eq!(second, EncodedFrame { payload: vec![], timestamp: 4 });
    assert!(!frames.fill(&mut consumer));
    let third = frames.finish(vec![1, 2], 7);
    assert_eq!(third, EncodedFrame { payload: vec![1, 2], timestamp: 8 });
}

#[test]
fn muted_frames_are_silent() {
    let (mut producer, mut consumer) = queue(100);
    let mut frames = FrameAssembler::new(100);
    offer(&mut producer, 5);
    offer(&mut producer, -6);
    assert!(frames.fill(&mut consumer));
    assert_eq!(frames.frame(true), &vec![0i16, 0]);
    assert_eq!(frames.frame(false), &vec![0i16, 0]);
    frames.finish(vec![], 0);
    offer(&mut producer, 7);
    offer(&mut producer, 8);
    assert!(frames.fill(&mut consumer));
    assert_eq!(frames.frame(false), &vec![7i16, 8]);
}

fn sent_frames(samples: &[i16], muted: &[bool]) -> Vec<(Vec<i16>, u32)> {
    let (mut producer, mut consumer) = queue(200);
    let mut frames = FrameAssembler::new(200);
    for sample in samples {
        assert!(offer(&mut producer, *sample));
    }
    let mut sent = Vec::new();
    for off in muted {
        assert!(frames.fill(&mut consumer));
        let pcm = frames.frame(*off).clone();
        sent.push((pcm, frames.finish(vec![], 0).timestamp));
    }
    sent
}

#[test]
fn muted_frames_give_nothing_away() {
    let muted = [false, true, false];
    let one = sent_frames(&[1, 2, 3, 4, 5, 6, 7, 8, 9, 10, 11, 12], &muted);
    let other = sent_frames(&[1, 2, 3, 4, -5, -6, -7, -8, 9, 10, 11, 12], &muted);
    assert_eq!(one, other);
    assert_eq!(
        one,
        vec![
            (vec![1, 2, 3, 4], 0),
            (vec![0, 0, 0, 0], 4),
            (vec![9, 10, 11, 12], 8),
        ]
    );
}

#[test]
fn timestamps_wrap() {
    let rate = u32::MAX;
    let size = rate / 50;
    let mut frames = FrameAssembler::new(rate);
    let mut last: u32 = 0;
    for n in 0..60u64 {
        let frame = frames.finish(vec![], 0);
        assert_eq!(frame.timestamp as u64, (n * size as u64) % (1 << 32));
        last = frame.timestamp;
    }
    assert!(last < u32::MAX / 2);
}

#[test]
fn decoded_samples_are_queued() {
    assert_eq!(decode_buffer_len(48_000), 1_920);
    assert_eq!(decode_buffer_len(8_000), 320);
    let (mut producer, mut consumer) = queue(2);
    assert_eq!(queue_decoded(&vec![1, 2, 3], 2, &mut producer), 2);
    assert_eq!(queue_decoded(&vec![4, 5, 6], 3, &mut producer), 2);
    assert_eq!(drain(&mut consumer), vec![1, 2, 4, 5]);
    assert_eq!(queue_decoded(&vec![4, 5, 6], 0, &mut producer), 0);
    assert_eq!(take(&mut consumer), None);
}

#[test]
fn playback_waits_for_enough_samples() {
    let (mut producer, mut consumer) = queue(100);
    queue_decoded(&vec![1, 2, 3], 3, &mut producer);
    let convert = |sample: i16| sample as i32 * 10;
    let mut data = [7i32; 4];
    let r = render_output_samples(&mut data, 2, 1, &mut consumer, 3, false, 4, convert);
    assert_eq!(r, Rendered { started: false, taken: 0 });
    assert_eq!(data, [0, 0, 0, 0]);
    let r = render_output_samples(&mut data, 2, 1, &mut consumer, 3, false, 3, convert);
    assert_eq!(r, Rendered { started: true, taken: 2 });
    assert_eq!(data, [10, 10, 20, 20]);
    let mut odd = [7i32; 5];
    let r = render_output_samples(&mut odd, 2, 1, &mut consumer, 0, true, 3, convert);
    assert_eq!(r, Rendered { started: true, taken: 1 });
    assert_eq!(odd, [30, 30, 0, 0, 0]);
}

#[test]
fn short_queue_is_played_out() {
    let (mut producer, mut consumer) = queue(100);
    queue_decoded(&vec![32767, -32767, 0], 3, &mut producer);
    let convert = |sample: i16| sample as f32 / i16::MAX as f32;
    let mut data = [9.0f32; 7];
    let r = render_output_samples(&mut data, 2, 1, &mut consumer, 3, false, 3, convert);
    assert_eq!(r, Rendered { started: true, taken: 3 });
    assert_eq!(data, [1.0, 1.0, -1.0, -1.0, 0.0, 0.0, 0.0]);
    assert_eq!(take(&mut consumer), None);
    let r = render_output_samples(&mut data, 2, 1, &mut consumer, 0, r.started, 3, convert);
    assert_eq!(r, Rendered { started: true, taken: 0 });
    assert_eq!(data, [0.0; 7]);
}

#[test]
fn overflow_keeps_the_oldest() {
    let (mut producer, mut consumer) = queue(3);
    assert!(offer(&mut producer, 100));
    push_input_samples(4, 1, 2, |start: usize, _: usize| start as i16, &mut producer);
    assert_eq!(drain(&mut consumer), vec![100, 0, 0, 1, 1, 2]);
}

#[test]
fn frames_are_queued_in_order_of_arrival() {
    let (mut producer, mut consumer) = queue(2);
    assert_eq!(queue_decoded(&vec![1, 2, 3], 3, &mut producer), 3);
    assert_eq!(queue_decoded(&vec![4, 5], 2, &mut producer), 1);
    assert_eq!(take(&mut consumer), Some(1));
    assert_eq!(queue_decoded(&vec![6, 7], 2, &mut producer), 1);
    assert_eq!(drain(&mut consumer), vec![2, 3, 4, 6]);
}

#[test]
fn playback_needs_channels() {
    let (mut producer, mut consumer) = queue(100);
    queue_decoded(&vec![1, 2, 3], 3, &mut producer);
    let convert = |sample: i16| sample;
    let mut data = [7i16; 2];
    let r = render_output_samples(&mut data, 0, 1, &mut consumer, 3, false, 1, convert);
    assert_eq!(r, Rendered { started: false, taken: 0 });
    let r = render_output_samples(&mut data, 2, 0, &mut consumer, 3, true, 1, convert);
    assert_eq!(r, Rendered { started: true, taken: 0 });
    assert_eq!(data, [7, 7]);
    assert_eq!(drain(&mut consumer), vec![1, 2, 3]);
}

#[test]
fn level_counts_what_is_queued() {
    let (mut producer, mut consumer) = queue(100);
    let mut level = 0usize;
    level += queue_decoded(&vec![5; 7], 7, &mut producer);
    let mut data = [0i16; 3];
    let r = render_output_samples(&mut data, 1, 1, &mut consumer, level, false, 7, |s| s);
    assert!(r.started);
    level -= r.taken;
    assert_eq!(level, 4);
    assert_eq!(drain(&mut consumer).len(), 4);
}

#[test]
fn packets_carry_frames() {
    let (mut sender, receiver) = AudioTransport::with_words(77, 0xABCD_FFFF);
    assert_eq!(sender, AudioSender { sequence: 0xFFFF, ssrc: 77 });
    let frame = EncodedFrame { payload: vec![1, 2, 3], timestamp: 960 };
    let packet = sender.next_packet(frame.clone());
    assert_eq!(
        packet,
        RtpPacket {
            version: 2,
            payload_type: 111,
            sequence_number: 0xFFFF,
            timestamp: 960,
            ssrc: 77,
            payload: vec![1, 2, 3],
        }
    );
    assert_eq!(receiver.frame(packet), frame);
    let next = sender.next_packet(EncodedFrame { payload: vec![], timestamp: 1_920 });
    assert_eq!(next.sequence_number, 0);
    assert_eq!(next.ssrc, 77);
    assert_eq!(sender.sequence, 1);
}

#[test]
fn streams_start_at_random() {
    let mut seen = Vec::new();
    for _ in 0..8 {
        let (sender, receiver) = AudioTransport::new();
        assert_eq!(receiver, AudioReceiver);
        seen.push((sender.ssrc, sender.sequence));
    }
    let first = seen[0];
    assert!(seen.iter().any(|words| *words != first));
}
