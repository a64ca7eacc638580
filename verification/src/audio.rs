//! Audio devices and stream configurations: which device is used, at which rate, and how large
//! the frames and queues of the pipeline are.
use vstd::prelude::*;
use vstd::string::*;

use crate::error::{ErrorView, VoiceError};
use crate::ring::{
    consumer_answers, consumer_count, new_queue, producer_capacity, producer_count,
    producer_offered, same_queue, SampleConsumer, SampleProducer,
};
use crate::text::{copy_list, copy_opt, decimal, decimal_text, joined, opt_text, texts};

verus! {

/// How long one audio frame lasts, in milliseconds.
pub const FRAME_TIME_MS: u32 = 20;

/// How much audio is gathered before playback starts, in milliseconds.
pub const OUTPUT_JITTER_MS: u32 = 120;

/// The number of channels that are sent.
pub const CHANNELS_MONO: u16 = 1;

/// The audio devices the user has chosen, by name.
#[derive(Debug)]
pub struct AudioDeviceSelection {
    pub input: Option<String>,
    pub output: Option<String>,
}

/// The mathematical value of an [`AudioDeviceSelection`].
pub struct SelectionView {
    pub input: Option<Seq<char>>,
    pub output: Option<Seq<char>>,
}

impl View for AudioDeviceSelection {
    type V = SelectionView;

    open spec fn view(&self) -> SelectionView {
        SelectionView { input: opt_text(self.input), output: opt_text(self.output) }
    }
}

impl Default for AudioDeviceSelection {
    fn default() -> (r: Self)
        ensures
            r@ == (SelectionView { input: None, output: None }),
    {
        AudioDeviceSelection { input: None, output: None }
    }
}

impl Clone for AudioDeviceSelection {
    fn clone(&self) -> (r: Self)
        ensures
            r@ == self@,
    {
        AudioDeviceSelection { input: copy_opt(&self.input), output: copy_opt(&self.output) }
    }
}

/// The names of the audio devices that are present.
#[derive(Debug)]
pub struct AudioDeviceList {
    pub inputs: Vec<String>,
    pub outputs: Vec<String>,
}

/// The mathematical value of an [`AudioDeviceList`].
#[verifier::ext_equal]
pub struct DeviceListView {
    pub inputs: Seq<Seq<char>>,
    pub outputs: Seq<Seq<char>>,
}

impl View for AudioDeviceList {
    type V = DeviceListView;

    open spec fn view(&self) -> DeviceListView {
        DeviceListView { inputs: texts(self.inputs@), outputs: texts(self.outputs@) }
    }
}

impl Clone for AudioDeviceList {
    fn clone(&self) -> (r: Self)
        ensures
            r@ == self@,
    {
        AudioDeviceList { inputs: copy_list(&self.inputs), outputs: copy_list(&self.outputs) }
    }
}

impl Default for AudioDeviceList {
    fn default() -> (r: Self)
        ensures
            r@ == (DeviceListView { inputs: seq![], outputs: seq![] }),
    {
        let r: AudioDeviceList = AudioDeviceList { inputs: Vec::new(), outputs: Vec::new() };
        assert(r@ =~= (DeviceListView { inputs: seq![], outputs: seq![] }));
        r
    }
}

/// The devices and format that a running pipeline uses.
#[derive(Debug)]
pub struct AudioDeviceInfo {
    pub input_name: String,
    pub output_name: String,
    pub sample_rate: u32,
    pub channels: u16,
}

/// The mathematical value of an [`AudioDeviceInfo`].
pub struct DeviceInfoView {
    pub input_name: Seq<char>,
    pub output_name: Seq<char>,
    pub sample_rate: u32,
    pub channels: u16,
}

impl View for AudioDeviceInfo {
    type V = DeviceInfoView;

    open spec fn view(&self) -> DeviceInfoView {
        DeviceInfoView {
            input_name: self.input_name@,
            output_name: self.output_name@,
            sample_rate: self.sample_rate,
            channels: self.channels,
        }
    }
}

impl Clone for AudioDeviceInfo {
    fn clone(&self) -> (r: Self)
        ensures
            r@ == self@,
    {
        AudioDeviceInfo {
            input_name: self.input_name.clone(),
            output_name: self.output_name.clone(),
            sample_rate: self.sample_rate,
            channels: self.channels,
        }
    }
}

/// One encoded frame of audio and the number of its first sample.
#[derive(Debug, PartialEq, Eq)]
pub struct EncodedFrame {
    pub payload: Vec<u8>,
    pub timestamp: u32,
}

impl Clone for EncodedFrame {
    fn clone(&self) -> (r: Self)
        ensures
            r.payload@ == self.payload@,
            r.timestamp == self.timestamp,
    {
        EncodedFrame { payload: self.payload.clone(), timestamp: self.timestamp }
    }
}

/// The sample formats that matter for choosing and opening a stream.
#[derive(Debug, Clone, Copy, PartialEq, Eq, Structural)]
pub enum SampleFormat {
    F32,
    I16,
    U16,
    /// Any format that no stream can be opened with.
    Other,
}

/// A range of configurations that a device supports.
#[derive(Debug, Clone, Copy, PartialEq, Eq)]
pub struct ConfigRange {
    pub channels: u16,
    pub min_sample_rate: u32,
    pub max_sample_rate: u32,
    pub sample_format: SampleFormat,
}

/// The configuration and sample format that a stream is opened with.
#[derive(Debug, Clone, Copy, PartialEq, Eq)]
pub struct StreamConfig {
    pub channels: u16,
    pub sample_rate: u32,
    pub sample_format: SampleFormat,
}

/// The sample rates that Opus works at.
pub open spec fn is_opus_rate(rate: u32) -> bool {
    rate == 48_000 || rate == 24_000 || rate == 16_000 || rate == 12_000 || rate == 8_000
}

/// Whether Opus works at the given sample rate.
pub fn opus_supports(rate: u32) -> (r: bool)
    ensures
        r == is_opus_rate(rate),
{
    rate == 48_000 || rate == 24_000 || rate == 16_000 || rate == 12_000 || rate == 8_000
}

/// A device with this range of configurations can be used at this rate.
pub open spec fn supports(range: ConfigRange, rate: u32) -> bool {
    &&& range.channels > 0
    &&& is_opus_rate(rate)
    &&& range.min_sample_rate <= rate <= range.max_sample_rate
}

/// The rate is one of the range's, and none of its usable rates is higher.
pub open spec fn is_highest_rate(range: ConfigRange, rate: u32) -> bool {
    &&& supports(range, rate)
    &&& forall|other: u32| #[trigger] supports(range, other) ==> other <= rate
}

/// The highest usable rate of a range.
fn highest_rate(range: &ConfigRange) -> (r: Option<u32>)
    ensures
        match r {
            Some(rate) => is_highest_rate(*range, rate),
            None => forall|rate: u32| !#[trigger] supports(*range, rate),
        },
{
    if range.channels == 0 {
        return None;
    }
    let rates: [u32; 5] = [48_000, 24_000, 16_000, 12_000, 8_000];
    let mut k: usize = 0;
    while k < 5
        invariant
            k <= 5,
            range.channels > 0,
            rates@ == seq![48_000u32, 24_000, 16_000, 12_000, 8_000],
            forall|rate: u32| #[trigger] supports(*range, rate) ==> exists|j: int|
                k <= j < 5 && rate == #[trigger] rates@[j],
        decreases 5 - k,
    {
        let rate: u32 = rates[k];
        if rate >= range.min_sample_rate && rate <= range.max_sample_rate {
            return Some(rate);
        }
        k = k + 1;
    }
    None
}

/// Range `i` at the given rate is the one to use: no range has a higher usable rate; among the
/// ranges with that rate those with `f32` samples go first, and among equals the earliest.
pub open spec fn is_best(ranges: Seq<ConfigRange>, i: int, rate: u32) -> bool {
    &&& 0 <= i < ranges.len()
    &&& supports(ranges[i], rate)
    &&& forall|j: int, other: u32|
        0 <= j < ranges.len() && #[trigger] supports(ranges[j], other) ==> other <= rate
    &&& forall|j: int|
        0 <= j < ranges.len() && #[trigger] supports(ranges[j], rate) && ranges[j].sample_format
            == SampleFormat::F32 ==> ranges[i].sample_format == SampleFormat::F32 && i <= j
    &&& ranges[i].sample_format != SampleFormat::F32 ==> forall|j: int|
        0 <= j < ranges.len() && #[trigger] supports(ranges[j], rate) ==> i <= j
}

/// No range can be used at any rate.
pub open spec fn none_usable(ranges: Seq<ConfigRange>) -> bool {
    forall|j: int, rate: u32| 0 <= j < ranges.len() ==> !#[trigger] supports(ranges[j], rate)
}

/// The configuration is that of the best range, which is range `i`.
pub open spec fn takes_range(ranges: Seq<ConfigRange>, i: int, config: StreamConfig) -> bool {
    &&& is_best(ranges, i, config.sample_rate)
    &&& config.channels == ranges[i].channels
    &&& config.sample_format == ranges[i].sample_format
}

/// What the choice among the ranges of a device comes to.
pub open spec fn chosen_config(
    ranges: Seq<ConfigRange>,
    r: Result<StreamConfig, VoiceError>,
) -> bool {
    match r {
        Ok(config) => exists|i: int| #[trigger] takes_range(ranges, i, config),
        Err(error) => none_usable(ranges) && error@ == ErrorView::Audio(
            "No compatible audio configuration"@,
        ),
    }
}

/// Chooses the configuration to open a stream with among those a device supports.
pub fn select_best_config(ranges: &Vec<ConfigRange>) -> (r: Result<StreamConfig, VoiceError>)
    ensures
        chosen_config(ranges@, r),
{
    let mut best: Option<(usize, u32)> = None;
    let mut i: usize = 0;
    while i < ranges.len()
        invariant
            i <= ranges.len(),
            match best {
                Some((at, rate)) => is_best(ranges@.take(i as int), at as int, rate),
                None => none_usable(ranges@.take(i as int)),
            },
        decreases ranges.len() - i,
    {
        let range: ConfigRange = ranges[i];
        let ghost before = ranges@.take(i as int);
        let ghost after = ranges@.take(i + 1);
        assert(after =~= before.push(range));
        assert forall|j: int| 0 <= j < i implies after[j] == before[j] by {}
        match highest_rate(&range) {
            None => {},
            Some(rate) => {
                let replace: bool = match best {
                    None => true,
                    Some((at, best_rate)) => {
                        rate > best_rate || (rate == best_rate && range.sample_format
                            == SampleFormat::F32 && ranges[at].sample_format != SampleFormat::F32)
                    },
                };
                if replace {
                    best = Some((i, rate));
                }
            },
        }
        i = i + 1;
    }
    assert(ranges@.take(i as int) =~= ranges@);
    match best {
        Some((at, rate)) => {
            let range: ConfigRange = ranges[at];
            let config: StreamConfig = StreamConfig {
                channels: range.channels,
                sample_rate: rate,
                sample_format: range.sample_format,
            };
            assert(takes_range(ranges@, at as int, config));
            Ok(config)
        },
        None => Err(VoiceError::Audio("No compatible audio configuration".to_owned())),
    }
}

/// There is at most one best range, and it is used at one rate.
pub proof fn best_is_unique(ranges: Seq<ConfigRange>, i: int, rate: u32, j: int, other: u32)
    requires
        is_best(ranges, i, rate),
        is_best(ranges, j, other),
    ensures
        i == j,
        rate == other,
{
}

/// A configuration that was chosen can be opened: it has a channel, and Opus works at its rate.
pub proof fn chosen_config_is_usable(ranges: Seq<ConfigRange>, config: StreamConfig)
    requires
        chosen_config(ranges, Ok(config)),
    ensures
        config.channels > 0,
        is_opus_rate(config.sample_rate),
{
}

/// The configuration that a listing of ranges leads to; the listing is absent where the device
/// could not give one, and then the error says so.
pub open spec fn selected_config(
    listing: Option<Seq<ConfigRange>>,
    missing: Seq<char>,
    r: Result<StreamConfig, VoiceError>,
) -> bool {
    match listing {
        Some(ranges) => chosen_config(ranges, r),
        None => r matches Err(error) && error@ == ErrorView::Other(missing),
    }
}

/// The ranges of an optional listing.
pub open spec fn opt_ranges(listing: Option<Vec<ConfigRange>>) -> Option<Seq<ConfigRange>> {
    match listing {
        Some(ranges) => Some(ranges@),
        None => None,
    }
}

/// Chooses the configuration of the input stream.
pub fn select_input_stream_config(listing: &Option<Vec<ConfigRange>>) -> (r: Result<
    StreamConfig,
    VoiceError,
>)
    ensures
        selected_config(opt_ranges(*listing), "No supported input configs"@, r),
{
    match listing {
        Some(ranges) => select_best_config(ranges),
        None => Err(VoiceError::Other("No supported input configs".to_owned())),
    }
}

/// Chooses the configuration of the output stream.
pub fn select_output_stream_config(listing: &Option<Vec<ConfigRange>>) -> (r: Result<
    StreamConfig,
    VoiceError,
>)
    ensures
        selected_config(opt_ranges(*listing), "No supported output configs"@, r),
{
    match listing {
        Some(ranges) => select_best_config(ranges),
        None => Err(VoiceError::Other("No supported output configs".to_owned())),
    }
}

/// The number of samples in one frame.
pub open spec fn samples_per_frame(sample_rate: u32) -> int {
    sample_rate as int / 50
}

/// The number of samples in one frame at the given rate.
pub fn frame_size(sample_rate: u32) -> (r: usize)
    ensures
        r == samples_per_frame(sample_rate),
{
    (sample_rate / (1000 / FRAME_TIME_MS)) as usize
}

/// What a pipeline runs with.
pub struct PipelinePlan {
    pub frame_size: usize,
    pub device_info: AudioDeviceInfo,
}

/// The name of a device, or what stands for it where the device did not tell its name.
pub open spec fn name_or(name: Option<Seq<char>>, otherwise: Seq<char>) -> Seq<char> {
    match name {
        Some(text) => text,
        None => otherwise,
    }
}

/// Settles what a pipeline between the two streams runs with. Both must have one rate, and it
/// must be a rate of Opus.
pub fn plan_pipeline(
    input: &StreamConfig,
    output: &StreamConfig,
    input_name: Option<String>,
    output_name: Option<String>,
) -> (r: Result<PipelinePlan, VoiceError>)
    ensures
        match r {
            Ok(plan) => {
                &&& input.sample_rate == output.sample_rate
                &&& is_opus_rate(input.sample_rate)
                &&& plan.frame_size == samples_per_frame(input.sample_rate)
                &&& plan.device_info@ == DeviceInfoView {
                    input_name: name_or(opt_text(input_name), "Input"@),
                    output_name: name_or(opt_text(output_name), "Output"@),
                    sample_rate: input.sample_rate,
                    channels: CHANNELS_MONO,
                }
            },
            Err(error) => if input.sample_rate != output.sample_rate {
                error@ == ErrorView::Audio("Input/output sample rates must match in this build"@)
            } else {
                &&& !is_opus_rate(input.sample_rate)
                &&& error@ == ErrorView::Audio(
                    "Unsupported sample rate for Opus: "@ + decimal(input.sample_rate as nat),
                )
            },
        },
{
    if input.sample_rate != output.sample_rate {
        return Err(
            VoiceError::Audio("Input/output sample rates must match in this build".to_owned()),
        );
    }
    let sample_rate: u32 = input.sample_rate;
    if !opus_supports(sample_rate) {
        let number: String = decimal_text(sample_rate);
        return Err(
            VoiceError::Audio(joined("Unsupported sample rate for Opus: ", number.as_str())),
        );
    }
    let input_name: String = match input_name {
        Some(name) => name,
        None => "Input".to_owned(),
    };
    let output_name: String = match output_name {
        Some(name) => name,
        None => "Output".to_owned(),
    };
    Ok(
        PipelinePlan {
            frame_size: frame_size(sample_rate),
            device_info: AudioDeviceInfo {
                input_name,
                output_name,
                sample_rate,
                channels: CHANNELS_MONO,
            },
        },
    )
}

/// What an input stream is built from: its queue and how its samples lie.
pub struct InputStreamParts {
    pub producer: SampleProducer,
    pub consumer: SampleConsumer,
    pub channels: usize,
}

/// What an output stream is built from: its queue, how its samples lie, and how many of them
/// must have been gathered before playback starts.
pub struct OutputStreamParts {
    pub producer: SampleProducer,
    pub consumer: SampleConsumer,
    pub channels: usize,
    pub min_samples: usize,
}

/// A queue between the two ends that holds two seconds of audio and nothing yet.
pub open spec fn fresh_queue(
    producer: SampleProducer,
    consumer: SampleConsumer,
    sample_rate: u32,
) -> bool {
    &&& same_queue(producer, consumer)
    &&& producer_capacity(producer) == 2 * sample_rate
    &&& producer_count(producer) == 0
    &&& producer_offered(producer) == Seq::<(i16, bool)>::empty()
    &&& consumer_count(consumer) == 0
    &&& consumer_answers(consumer) == Seq::<Option<i16>>::empty()
}

/// Prepares the input stream. Samples of another format than the three known ones are refused.
pub fn build_input_stream(config: &StreamConfig) -> (r: Result<InputStreamParts, VoiceError>)
    requires
        config.sample_rate > 0,
        4 * config.sample_rate <= isize::MAX,
    ensures
        match r {
            Ok(parts) => {
                &&& config.sample_format != SampleFormat::Other
                &&& fresh_queue(parts.producer, parts.consumer, config.sample_rate)
                &&& parts.channels == config.channels
            },
            Err(error) => {
                &&& config.sample_format == SampleFormat::Other
                &&& error@ == ErrorView::Audio("Unsupported input sample format"@)
            },
        },
{
    let capacity: usize = config.sample_rate as usize * 2;
    let (producer, consumer) = new_queue(capacity);
    if config.sample_format == SampleFormat::Other {
        return Err(VoiceError::Audio("Unsupported input sample format".to_owned()));
    }
    Ok(InputStreamParts { producer, consumer, channels: config.channels as usize })
}

/// The number of samples that must have been gathered before playback starts.
pub open spec fn jitter_samples(sample_rate: u32) -> int {
    sample_rate * 120 / 1000
}

/// Prepares the output stream. Samples of another format than the three known ones are refused.
pub fn build_output_stream(config: &StreamConfig) -> (r: Result<OutputStreamParts, VoiceError>)
    requires
        config.sample_rate > 0,
        4 * config.sample_rate <= isize::MAX,
    ensures
        match r {
            Ok(parts) => {
                &&& config.sample_format != SampleFormat::Other
                &&& fresh_queue(parts.producer, parts.consumer, config.sample_rate)
                &&& parts.channels == config.channels
                &&& parts.min_samples == jitter_samples(config.sample_rate)
            },
            Err(error) => {
                &&& config.sample_format == SampleFormat::Other
                &&& error@ == ErrorView::Audio("Unsupported output sample format"@)
            },
        },
{
    let capacity: usize = config.sample_rate as usize * 2;
    let (producer, consumer) = new_queue(capacity);
    let min_samples: usize = ((config.sample_rate as u64 * OUTPUT_JITTER_MS as u64)
        / 1000) as usize;
    if config.sample_format == SampleFormat::Other {
        return Err(VoiceError::Audio("Unsupported output sample format".to_owned()));
    }
    Ok(OutputStreamParts { producer, consumer, channels: config.channels as usize, min_samples })
}

/// The playback threshold is below what the queue holds, so playback can always start.
pub proof fn playback_can_start(sample_rate: u32)
    requires
        sample_rate > 0,
    ensures
        jitter_samples(sample_rate) < 2 * sample_rate,
{
}

/// The names that are known, in the order of the devices.
pub open spec fn known_names(names: Seq<Option<String>>) -> Seq<Seq<char>>
    decreases names.len(),
{
    if names.len() == 0 {
        seq![]
    } else {
        match names.last() {
            Some(name) => known_names(names.drop_last()).push(name@),
            None => known_names(names.drop_last()),
        }
    }
}

/// Keeps the names of the devices that told theirs.
fn keep_known(names: &Vec<Option<String>>) -> (r: Vec<String>)
    ensures
        texts(r@) == known_names(names@),
{
    let mut kept: Vec<String> = Vec::new();
    let mut i: usize = 0;
    assert(texts(kept@) =~= known_names(names@.take(0)));
    while i < names.len()
        invariant
            i <= names.len(),
            texts(kept@) == known_names(names@.take(i as int)),
        decreases names.len() - i,
    {
        let ghost before = kept@;
        assert(names@.take(i + 1).drop_last() =~= names@.take(i as int));
        assert(names@.take(i + 1).last() == names@[i as int]);
        match &names[i] {
            Some(name) => {
                kept.push(name.clone());
                assert(texts(kept@) =~= texts(before).push(name@));
            },
            None => {},
        }
        i = i + 1;
    }
    assert(names@.take(i as int) =~= names@);
    kept
}

/// Lists the audio devices by name. A device that does not tell its name is left out. A listing
/// that the host could not give is an error.
pub fn list_devices(
    inputs: &Option<Vec<Option<String>>>,
    outputs: &Option<Vec<Option<String>>>,
) -> (r: Result<AudioDeviceList, VoiceError>)
    ensures
        match (*inputs, *outputs) {
            (Some(ins), Some(outs)) => r matches Ok(list) && list@ == (DeviceListView {
                inputs: known_names(ins@),
                outputs: known_names(outs@),
            }),
            (None, _) => r matches Err(error) && error@ == ErrorView::Other(
                "Failed to enumerate input devices"@,
            ),
            (Some(_), None) => r matches Err(error) && error@ == ErrorView::Other(
                "Failed to enumerate output devices"@,
            ),
        },
{
    let inputs: Vec<String> = match inputs {
        Some(names) => keep_known(names),
        None => {
            return Err(VoiceError::Other("Failed to enumerate input devices".to_owned()));
        },
    };
    let outputs: Vec<String> = match outputs {
        Some(names) => keep_known(names),
        None => {
            return Err(VoiceError::Other("Failed to enumerate output devices".to_owned()));
        },
    };
    Ok(AudioDeviceList { inputs, outputs })
}

/// Which device is opened: one of those listed, by its place, or the default one.
#[derive(Debug, Clone, Copy, PartialEq, Eq)]
pub enum DeviceChoice {
    Listed(usize),
    Default,
}

/// No device of the list has the requested name.
pub open spec fn not_listed(requested: Option<Seq<char>>, names: Seq<Option<String>>) -> bool {
    requested is Some ==> forall|j: int|
        0 <= j < names.len() ==> opt_text(#[trigger] names[j]) != requested
}

/// The device that a requested name leads to: the first of that name, or else the default one,
/// or none where there is no default either.
pub open spec fn resolved(
    requested: Option<Seq<char>>,
    names: Seq<Option<String>>,
    default_present: bool,
    choice: Option<DeviceChoice>,
) -> bool {
    match choice {
        Some(DeviceChoice::Listed(i)) => {
            &&& requested is Some
            &&& i < names.len()
            &&& opt_text(names[i as int]) == requested
            &&& forall|j: int| 0 <= j < i ==> opt_text(#[trigger] names[j]) != requested
        },
        Some(DeviceChoice::Default) => default_present && not_listed(requested, names),
        None => !default_present && not_listed(requested, names),
    }
}

/// Finds the device for a requested name.
fn resolve_device(
    requested: &Option<String>,
    names: &Vec<Option<String>>,
    default_present: bool,
) -> (r: Option<DeviceChoice>)
    ensures
        resolved(opt_text(*requested), names@, default_present, r),
{
    match requested {
        Some(wanted) => {
            let mut i: usize = 0;
            while i < names.len()
                invariant
                    i <= names.len(),
                    opt_text(*requested) == Some(wanted@),
                    forall|j: int|
                        0 <= j < i ==> opt_text(#[trigger] names@[j]) != Some(wanted@),
                decreases names.len() - i,
            {
                match &names[i] {
                    Some(name) => {
                        if *name == *wanted {
                            return Some(DeviceChoice::Listed(i));
                        }
                    },
                    None => {},
                }
                i = i + 1;
            }
        },
        None => {},
    }
    if default_present {
        Some(DeviceChoice::Default)
    } else {
        None
    }
}

/// Finds the input device to use: the requested one if it is listed, else the default one.
pub fn resolve_input_device(
    requested: &Option<String>,
    names: &Vec<Option<String>>,
    default_present: bool,
) -> (r: Result<DeviceChoice, VoiceError>)
    ensures
        match r {
            Ok(choice) => resolved(opt_text(*requested), names@, default_present, Some(choice)),
            Err(error) => resolved(opt_text(*requested), names@, default_present, None) && error@
                == ErrorView::Audio("No input device available"@),
        },
{
    match resolve_device(requested, names, default_present) {
        Some(choice) => Ok(choice),
        None => Err(VoiceError::Audio("No input device available".to_owned())),
    }
}

/// Finds the output device to use: the requested one if it is listed, else the default one.
pub fn resolve_output_device(
    requested: &Option<String>,
    names: &Vec<Option<String>>,
    default_present: bool,
) -> (r: Result<DeviceChoice, VoiceError>)
    ensures
        match r {
            Ok(choice) => resolved(opt_text(*requested), names@, default_present, Some(choice)),
            Err(error) => resolved(opt_text(*requested), names@, default_present, None) && error@
                == ErrorView::Audio("No output device available"@),
        },
{
    match resolve_device(requested, names, default_present) {
        Some(choice) => Ok(choice),
        None => Err(VoiceError::Audio("No output device available".to_owned())),
    }
}

/// The ends of a running audio pipeline: `R` receives the encoded frames to send, `S` takes the
/// frames that arrive, `M` switches the microphone off and on.
pub struct AudioPipeline<R, S, M> {
    outgoing: Option<R>,
    incoming: S,
    mute: M,
    device_info: AudioDeviceInfo,
}

impl<R, S, M> AudioPipeline<R, S, M> {
    /// The receiving end of the outgoing frames, while it has not been taken.
    pub closed spec fn outgoing(&self) -> Option<R> {
        self.outgoing
    }

    /// The sending end of the incoming frames.
    pub closed spec fn incoming(&self) -> S {
        self.incoming
    }

    /// The switch of the microphone.
    pub closed spec fn mute(&self) -> M {
        self.mute
    }

    /// The devices in use.
    pub closed spec fn info(&self) -> DeviceInfoView {
        self.device_info@
    }

    /// The ends of a pipeline that runs with the given devices.
    pub fn new(outgoing: R, incoming: S, mute: M, device_info: AudioDeviceInfo) -> (r: Self)
        ensures
            r.outgoing() == Some(outgoing),
            r.incoming() == incoming,
            r.mute() == mute,
            r.info() == device_info@,
    {
        AudioPipeline { outgoing: Some(outgoing), incoming, mute, device_info }
    }

    /// Takes the receiving end of the outgoing frames. It can be taken once.
    pub fn take_outgoing(&mut self) -> (r: Result<R, VoiceError>)
        ensures
            match old(self).outgoing() {
                Some(end) => r == Ok::<R, VoiceError>(end),
                None => r matches Err(error) && error@ == ErrorView::InvalidState(
                    "Outgoing audio already taken"@,
                ),
            },
            final(self).outgoing() is None,
            final(self).incoming() == old(self).incoming(),
            final(self).mute() == old(self).mute(),
            final(self).info() == old(self).info(),
    {
        match self.outgoing.take() {
            Some(end) => Ok(end),
            None => Err(VoiceError::InvalidState("Outgoing audio already taken".to_owned())),
        }
    }

    /// Another sending end for incoming frames.
    pub fn incoming_sender(&self) -> (r: S) where S: Clone
        ensures
            cloned(self.incoming(), r),
    {
        self.incoming.clone()
    }

    /// Another handle of the microphone switch.
    pub fn mute_handle(&self) -> (r: M) where M: Clone
        ensures
            cloned(self.mute(), r),
    {
        self.mute.clone()
    }

    /// The devices in use.
    pub fn device_info(&self) -> (r: AudioDeviceInfo)
        ensures
            r@ == self.info(),
    {
        self.device_info.clone()
    }
}

/// Opus works at 48 kHz and at a half, a third, a quarter and a sixth of it, and at no other rate.
pub proof fn opus_rates_divide_the_highest(rate: u32)
    ensures
        is_opus_rate(rate) <==> rate == 48_000 || 2 * rate == 48_000 || 3 * rate == 48_000 || 4
            * rate == 48_000 || 6 * rate == 48_000,
{
}

/// No usable rate of any range is higher than the one that was chosen; the chosen configuration is
/// that of a range that has it; and where a range has floating point samples at that rate, so has
/// the choice.
pub proof fn choice_is_the_best_there_is(
    ranges: Seq<ConfigRange>,
    config: StreamConfig,
    j: int,
    rate: u32,
)
    requires
        chosen_config(ranges, Ok(config)),
        0 <= j < ranges.len(),
        ranges[j].channels > 0,
        ranges[j].min_sample_rate <= rate <= ranges[j].max_sample_rate,
        rate == 48_000 || rate == 24_000 || rate == 16_000 || rate == 12_000 || rate == 8_000,
    ensures
        rate <= config.sample_rate,
        rate == config.sample_rate && ranges[j].sample_format == SampleFormat::F32
            ==> config.sample_format == SampleFormat::F32,
        exists|i: int|
            0 <= i < ranges.len() && (#[trigger] ranges[i]).channels == config.channels && ranges[i]
                .sample_format == config.sample_format && ranges[i].min_sample_rate
                <= config.sample_rate <= ranges[i].max_sample_rate,
{
    let i = choose|i: int| #[trigger] takes_range(ranges, i, config);
    assert(supports(ranges[j], rate));
    assert(supports(ranges[i], config.sample_rate));
    if rate == config.sample_rate {
        assert(supports(ranges[j], config.sample_rate));
    }
}

/// Among ranges that are equally good the first is chosen.
pub proof fn choice_is_the_first_of_equals(
    ranges: Seq<ConfigRange>,
    i: int,
    config: StreamConfig,
    j: int,
)
    requires
        takes_range(ranges, i, config),
        0 <= j < ranges.len(),
        ranges[j].channels > 0,
        ranges[j].min_sample_rate <= config.sample_rate <= ranges[j].max_sample_rate,
        ranges[j].sample_format == SampleFormat::F32 <==> config.sample_format == SampleFormat::F32,
    ensures
        i <= j,
{
    assert(supports(ranges[i], config.sample_rate));
    assert(supports(ranges[j], config.sample_rate));
}

/// A configuration is refused only where no range has a channel and a rate that Opus works at.
pub proof fn refusal_means_nothing_fits(
    ranges: Seq<ConfigRange>,
    error: VoiceError,
    j: int,
    rate: u32,
)
    requires
        chosen_config(ranges, Err(error)),
        0 <= j < ranges.len(),
        ranges[j].channels > 0,
        ranges[j].min_sample_rate <= rate <= ranges[j].max_sample_rate,
    ensures
        rate != 48_000 && rate != 24_000 && rate != 16_000 && rate != 12_000 && rate != 8_000,
        error@ == ErrorView::Audio("No compatible audio configuration"@),
{
    assert(!supports(ranges[j], rate));
}

/// A listing that a device gave is chosen from; one that it could not give is an error that says
/// so.
pub proof fn listing_decides(
    listing: Option<Vec<ConfigRange>>,
    missing: Seq<char>,
    r: Result<StreamConfig, VoiceError>,
)
    requires
        selected_config(opt_ranges(listing), missing, r),
    ensures
        listing matches Some(ranges) ==> chosen_config(ranges@, r),
        listing is None ==> r is Err && r->Err_0@ == ErrorView::Other(missing),
{
}

/// A frame lasts a fiftieth of a second: fifty frames are a second but for a part of a frame, and
/// at the rates of Opus exactly.
pub proof fn fifty_frames_are_a_second(rate: u32)
    ensures
        50 * samples_per_frame(rate) <= rate < 50 * samples_per_frame(rate) + 50,
        is_opus_rate(rate) ==> 50 * samples_per_frame(rate) == rate,
{
}

/// Playback waits for 120 milliseconds of audio, which at the rates of Opus is six frames.
pub proof fn playback_waits_for_six_frames(rate: u32)
    ensures
        1000 * jitter_samples(rate) <= 120 * rate < 1000 * jitter_samples(rate) + 1000,
        is_opus_rate(rate) ==> jitter_samples(rate) == 6 * samples_per_frame(rate),
{
}

/// A new queue holds two seconds of audio, and has none yet.
pub proof fn new_queue_is_empty(producer: SampleProducer, consumer: SampleConsumer, rate: u32)
    requires
        fresh_queue(producer, consumer, rate),
    ensures
        producer_capacity(producer) == 2 * rate,
        producer_count(producer) == 0,
        consumer_count(consumer) == 0,
        producer_offered(producer).len() == 0,
        consumer_answers(consumer).len() == 0,
        same_queue(producer, consumer),
{
}

/// A device that told its name is called by it, and any other by what stands for it.
pub proof fn device_is_called_by_its_name(name: Seq<char>, otherwise: Seq<char>)
    ensures
        name_or(Some(name), otherwise) == name,
        name_or(None, otherwise) == otherwise,
{
}

/// Listing devices keeps the names of those that told theirs, all of them and in order, and leaves
/// out the others: it can be done part by part, and of one device it leaves its name or nothing.
pub proof fn names_are_kept_in_order(first: Seq<Option<String>>, second: Seq<Option<String>>)
    ensures
        known_names(first + second) == known_names(first) + known_names(second),
        first.len() == 1 && first[0] is Some ==> known_names(first) == seq![first[0]->0@],
        first.len() == 1 && first[0] is None ==> known_names(first).len() == 0,
        first.len() == 0 ==> known_names(first).len() == 0,
    decreases second.len(),
{
    if second.len() == 0 {
        assert(first + second =~= first);
        assert(known_names(first) + known_names(second) =~= known_names(first));
    } else {
        names_are_kept_in_order(first, second.drop_last());
        assert((first + second).drop_last() =~= first + second.drop_last());
        assert(known_names(first + second) =~= known_names(first) + known_names(second));
    }
    reveal_with_fuel(known_names, 2);
    if first.len() == 1 {
        assert(first.drop_last() =~= seq![]);
        assert(first.last() == first[0]);
        if first[0] is Some {
            assert(known_names(first) =~= seq![first[0]->0@]);
        }
    }
}

/// A device that is asked for and present is used, the first of its name; one that is not present,
/// or not asked for, gives way to the default one; and there is none only where there is no
/// default.
pub proof fn device_asked_for_is_used(
    requested: Option<Seq<char>>,
    names: Seq<Option<String>>,
    default_present: bool,
    choice: Option<DeviceChoice>,
    j: int,
)
    requires
        resolved(requested, names, default_present, choice),
    ensures
        requested is Some && 0 <= j < names.len() && opt_text(names[j]) == requested ==> {
            &&& choice is Some && choice->0 is Listed
            &&& choice->0->0 <= j
            &&& opt_text(names[choice->0->0 as int]) == requested
        },
        requested is None || (forall|k: int|
            0 <= k < names.len() ==> opt_text(#[trigger] names[k]) != requested) ==> choice
            == if default_present {
            Some(DeviceChoice::Default)
        } else {
            None
        },
{
}

}
