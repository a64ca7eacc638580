//! Carrying encoded frames in RTP packets.
use rand_core::{OsRng, RngCore};
use vstd::prelude::*;

use crate::audio::EncodedFrame;

verus! {

/// The flow that audio is sent on.
pub const AUDIO_FLOW_ID: u32 = 1;

/// The RTP payload type of Opus.
pub const RTP_PAYLOAD_TYPE_OPUS: u8 = 111;

/// The version of RTP.
pub const RTP_VERSION: u8 = 2;

/// The parts of an RTP packet that this application sets; all others keep their defaults.
#[derive(Debug, PartialEq, Eq)]
pub struct RtpPacket {
    pub version: u8,
    pub payload_type: u8,
    pub sequence_number: u16,
    pub timestamp: u32,
    pub ssrc: u32,
    pub payload: Vec<u8>,
}

/// Makes the packets of one stream.
#[derive(Debug, Clone, Copy, PartialEq, Eq)]
pub struct AudioSender {
    /// The number of the next packet.
    pub sequence: u16,
    /// The number of the stream.
    pub ssrc: u32,
}

/// Reads the packets of one stream.
#[derive(Debug, Clone, Copy, PartialEq, Eq)]
pub struct AudioReceiver;

/// The two directions of audio between two nodes.
#[derive(Debug, Clone, Copy, PartialEq, Eq)]
pub struct AudioTransport;

/// `OsRng::next_u32`: some number, from the random numbers of the operating system.
#[verifier::external_body]
fn random_word() -> u32 {
    OsRng.next_u32()
}

impl AudioTransport {
    /// A sender with a random stream number and a random first packet number, and a receiver. Any
    /// sender may come out.
    pub fn new() -> (r: (AudioSender, AudioReceiver))
        ensures
            exists|ssrc: u32, word: u32| #[trigger]
                sender_from(ssrc, word) == r.0,
    {
        let ssrc: u32 = random_word();
        let word: u32 = random_word();
        let r: (AudioSender, AudioReceiver) = AudioTransport::with_words(ssrc, word);
        assert(sender_from(ssrc, word) == r.0);
        r
    }

    /// A sender with the given stream number, whose first packet number is the low half of the
    /// given word, and a receiver.
    pub fn with_words(ssrc: u32, word: u32) -> (r: (AudioSender, AudioReceiver))
        ensures
            r.0 == sender_from(ssrc, word),
    {
        let low: u32 = word & 0xFFFF;
        assert(low == word % 0x1_0000 && low < 0x1_0000) by (bit_vector)
            requires
                low == word & 0xFFFF,
        ;
        (AudioSender { sequence: low as u16, ssrc }, AudioReceiver)
    }
}

/// The sender that two random words lead to.
pub open spec fn sender_from(ssrc: u32, word: u32) -> AudioSender {
    AudioSender { sequence: (word % 0x1_0000) as u16, ssrc }
}

/// The packet carries the frame in the stream of the sender.
pub open spec fn carries(sender: AudioSender, frame: EncodedFrame, packet: RtpPacket) -> bool {
    &&& packet.version == RTP_VERSION
    &&& packet.payload_type == RTP_PAYLOAD_TYPE_OPUS
    &&& packet.sequence_number == sender.sequence
    &&& packet.timestamp == frame.timestamp
    &&& packet.ssrc == sender.ssrc
    &&& packet.payload@ == frame.payload@
}

/// The frame is what the packet carries.
pub open spec fn carried(packet: RtpPacket, frame: EncodedFrame) -> bool {
    &&& frame.timestamp == packet.timestamp
    &&& frame.payload@ == packet.payload@
}

/// The sender after so many packets.
pub open spec fn sender_after(sender: AudioSender, packets: nat) -> AudioSender
    decreases packets,
{
    if packets == 0 {
        sender
    } else {
        next_sender(sender_after(sender, (packets - 1) as nat))
    }
}

/// The sender after one packet: the packet number goes up by one, and from its end back to zero.
pub open spec fn next_sender(sender: AudioSender) -> AudioSender {
    AudioSender { sequence: ((sender.sequence + 1) % 0x1_0000) as u16, ssrc: sender.ssrc }
}

impl AudioSender {
    /// Packs a frame into the next packet.
    pub fn next_packet(&mut self, frame: EncodedFrame) -> (r: RtpPacket)
        ensures
            carries(*old(self), frame, r),
            *final(self) == next_sender(*old(self)),
    {
        let packet: RtpPacket = RtpPacket {
            version: RTP_VERSION,
            payload_type: RTP_PAYLOAD_TYPE_OPUS,
            sequence_number: self.sequence,
            timestamp: frame.timestamp,
            ssrc: self.ssrc,
            payload: frame.payload,
        };
        self.sequence = self.sequence.wrapping_add(1);
        packet
    }
}

impl AudioReceiver {
    /// Unpacks the frame of a packet.
    pub fn frame(&self, packet: RtpPacket) -> (r: EncodedFrame)
        ensures
            carried(packet, r),
    {
        EncodedFrame { payload: packet.payload, timestamp: packet.timestamp }
    }
}

/// What arrives is what was sent: the frame that a packet carries is the frame packed into it.
pub proof fn frames_arrive_unchanged(
    sender: AudioSender,
    sent: EncodedFrame,
    packet: RtpPacket,
    received: EncodedFrame,
)
    requires
        carries(sender, sent, packet),
        carried(packet, received),
    ensures
        received.timestamp == sent.timestamp,
        received.payload@ == sent.payload@,
{
}

/// Packets are numbered without gaps: the n-th packet of a stream has the first number plus n, in
/// 16 bits, and the number of the stream does not change.
pub proof fn packets_are_numbered(sender: AudioSender, n: nat)
    ensures
        sender_after(sender, n).sequence == (sender.sequence + n) % 0x1_0000,
        sender_after(sender, n).ssrc == sender.ssrc,
    decreases n,
{
    if n > 0 {
        packets_are_numbered(sender, (n - 1) as nat);
    }
}

/// A packet tells its stream, its number and its kind, and holds the frame whole.
pub proof fn packet_tells_its_stream(sender: AudioSender, frame: EncodedFrame, packet: RtpPacket)
    requires
        carries(sender, frame, packet),
    ensures
        packet.version == 2,
        packet.payload_type == 111,
        packet.sequence_number == sender.sequence,
        packet.ssrc == sender.ssrc,
        packet.timestamp == frame.timestamp,
        packet.payload@ == frame.payload@,
{
}

/// The words that a sender is made from become its numbers: the first is the number of the stream,
/// and the second, in 16 bits, that of the first packet. Every sender can come out.
pub proof fn words_become_numbers(ssrc: u32, word: u32, sequence: u16)
    ensures
        sender_from(ssrc, word).ssrc == ssrc,
        sender_from(ssrc, word).sequence as int == word as int % 0x1_0000,
        sender_from(ssrc, sequence as u32) == (AudioSender { sequence, ssrc }),
{
}

/// One packet after another: the number goes up by one, and from the highest back to zero; the
/// stream stays.
pub proof fn next_number_follows(sender: AudioSender)
    ensures
        sender.sequence < 0xFFFF ==> next_sender(sender).sequence == sender.sequence + 1,
        sender.sequence == 0xFFFF ==> next_sender(sender).sequence == 0,
        next_sender(sender).ssrc == sender.ssrc,
{
}

}
