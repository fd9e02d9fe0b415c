//! Driver-independent parts of the audio subsystem: driver descriptions and
//! errors, the control logic of the streaming decoder, and the bookkeeping
//! of the telemetry tap that meters each playback.

use vstd::prelude::*;

use crate::model::{CueId, ScalarBits, ScalarBits32};

verus! {

// ─── Commands and events ────────────────────────────────────────────────

/// Commands for the audio subsystem.
#[derive(Clone, Debug, PartialEq, Eq)]
pub enum DSPCommand {
    /// Open the named output device.
    SetAudioDevice { device_name: String },
    /// Start playing a cue's media file. The level is the binary64 pattern
    /// of the cue's volume setting, which the driver takes in decibels.
    Play { cue_id: CueId, file_path: String, volume_db: ScalarBits, looping: bool },
    /// Move a playing cue to a position (binary32 pattern of seconds).
    Seek { cue_id: CueId, position_sec: ScalarBits32 },
    /// Pause a playing cue.
    Pause { cue_id: CueId },
    /// Stop a playing cue.
    Stop { cue_id: CueId },
}

/// Events reported by the audio subsystem.
#[derive(Clone, Debug, PartialEq, Eq)]
pub enum AudioEvent {
    /// The playback started for a cue has ended.
    PlaybackFinished { cue_id: CueId },
    /// The output device failed.
    DeviceLost { device_name: Option<String>, error_message: String },
}

// ─── Drivers ────────────────────────────────────────────────────────────

/// What an audio driver can do.
#[derive(Debug, Clone, Copy, PartialEq, Eq, Structural)]
pub struct DriverCapabilities {
    pub supports_matrix_routing: bool,
    pub supports_hot_swapping: bool,
}

/// The available audio drivers.
#[derive(Clone, Copy, Debug, PartialEq, Eq, Structural)]
pub enum DriverType {
    Rodio,
    CpalCustom,
}

/// Failures reported by an audio driver.
#[derive(Debug, Clone, PartialEq, Eq)]
pub enum AudioDriverError {
    MatrixRoutingUnsupported,
    DeviceError(String),
    PlaybackError(String),
}

/// The message of a driver failure.
pub open spec fn driver_error_text(e: AudioDriverError) -> Seq<char> {
    match e {
        AudioDriverError::MatrixRoutingUnsupported =>
            "Matrix routing is not supported by the active audio driver"@,
        AudioDriverError::DeviceError(detail) => "Device switch failed: "@ + detail@,
        AudioDriverError::PlaybackError(detail) => "Audio playback error: "@ + detail@,
    }
}

impl AudioDriverError {
    /// The message of the failure.
    pub fn to_string(&self) -> (text: String)
        ensures
            text@ == driver_error_text(*self),
    {
        match self {
            AudioDriverError::MatrixRoutingUnsupported => String::from_str(
                "Matrix routing is not supported by the active audio driver",
            ),
            AudioDriverError::DeviceError(detail) => {
                let mut text = String::from_str("Device switch failed: ");
                text.append(detail.as_str());
                text
            },
            AudioDriverError::PlaybackError(detail) => {
                let mut text = String::from_str("Audio playback error: ");
                text.append(detail.as_str());
                text
            },
        }
    }
}

/// The message reported when switching to a named device fails.
pub open spec fn switch_failure_text(device_name: Seq<char>, cause: AudioDriverError) -> Seq<char> {
    "Failed to switch to device '"@ + device_name + "': "@ + driver_error_text(cause)
}

/// The message reported when switching to a named device fails with the
/// given cause.
pub fn switch_failure_message(device_name: &str, cause: &AudioDriverError) -> (text: String)
    ensures
        text@ == switch_failure_text(device_name@, *cause),
{
    let mut text = String::from_str("Failed to switch to device '");
    text.append(device_name);
    text.append("': ");
    let detail = cause.to_string();
    text.append(detail.as_str());
    text
}

// ─── Streaming decoder control ──────────────────────────────────────────

/// A playback position in seconds, held as the IEEE 754 binary32 bit
/// pattern of the number; the decoder passes it on unchanged.
#[derive(Debug, Clone, Copy, PartialEq, Eq, Structural)]
pub struct SeekPosition(pub u32);

/// Controls sent from the output callback to a streaming decoder.
#[derive(Debug, Clone, Copy, PartialEq, Eq, Structural)]
pub enum DecoderControl {
    SeekTo(SeekPosition),
    Stop,
}

/// What the decoder observes next.
#[derive(Debug, Clone, Copy, PartialEq, Eq, Structural)]
pub enum DecoderEvent {
    /// A control taken from the queue before decoding the next sample.
    Control(DecoderControl),
    /// The control queue is empty.
    ControlsDrained,
    /// The decoded stream has no further sample.
    EndOfStream,
    /// A control taken from the queue while waiting for room in the full
    /// sample buffer.
    ControlWhileBlocked(DecoderControl),
}

/// What the decoder does next.
#[derive(Debug, Clone, Copy, PartialEq, Eq, Structural)]
pub enum DecoderAction {
    /// Keep reading controls (or keep waiting for buffer room).
    Continue,
    /// Decode and deliver the next sample.
    DecodeNext,
    /// Open the file again, skipping to the position (from the start when
    /// there is none).
    Reopen(Option<SeekPosition>),
    /// Mark the playback finished and end.
    Finish,
}

/// The decoder's state between events: the seek requested by the controls
/// read so far, and the next action.
#[derive(Debug, Clone, Copy, PartialEq, Eq, Structural)]
pub struct DecoderStep {
    pub pending_seek: Option<SeekPosition>,
    pub action: DecoderAction,
}

/// The decision of the streaming decoder for one event.
pub open spec fn decoder_step_of(
    looping: bool,
    pending_seek: Option<SeekPosition>,
    event: DecoderEvent,
) -> DecoderStep {
    match event {
        DecoderEvent::Control(DecoderControl::Stop) => DecoderStep {
            pending_seek,
            action: DecoderAction::Finish,
        },
        DecoderEvent::Control(DecoderControl::SeekTo(p)) => DecoderStep {
            pending_seek: Some(p),
            action: DecoderAction::Continue,
        },
        DecoderEvent::ControlsDrained => match pending_seek {
            Some(p) => DecoderStep { pending_seek: None, action: DecoderAction::Reopen(Some(p)) },
            None => DecoderStep { pending_seek: None, action: DecoderAction::DecodeNext },
        },
        DecoderEvent::EndOfStream => if looping {
            DecoderStep { pending_seek: None, action: DecoderAction::Reopen(None) }
        } else {
            DecoderStep { pending_seek: None, action: DecoderAction::Finish }
        },
        DecoderEvent::ControlWhileBlocked(DecoderControl::Stop) => DecoderStep {
            pending_seek,
            action: DecoderAction::Finish,
        },
        DecoderEvent::ControlWhileBlocked(DecoderControl::SeekTo(_)) => DecoderStep {
            pending_seek,
            action: DecoderAction::Continue,
        },
    }
}

/// Decides the streaming decoder's next action: a stop ends the playback
/// at once; seeks read before a sample is decoded reopen the stream at the
/// last requested position; a seek read while the sample buffer is full is
/// dropped; at the end of the stream a looping playback restarts from the
/// beginning and any other playback finishes.
pub fn decoder_step(looping: bool, pending_seek: Option<SeekPosition>, event: DecoderEvent) -> (step:
    DecoderStep)
    ensures
        step == decoder_step_of(looping, pending_seek, event),
{
    match event {
        DecoderEvent::Control(DecoderControl::Stop) => DecoderStep {
            pending_seek,
            action: DecoderAction::Finish,
        },
        DecoderEvent::Control(DecoderControl::SeekTo(p)) => DecoderStep {
            pending_seek: Some(p),
            action: DecoderAction::Continue,
        },
        DecoderEvent::ControlsDrained => match pending_seek {
            Some(p) => DecoderStep { pending_seek: None, action: DecoderAction::Reopen(Some(p)) },
            None => DecoderStep { pending_seek: None, action: DecoderAction::DecodeNext },
        },
        DecoderEvent::EndOfStream => {
            if looping {
                DecoderStep { pending_seek: None, action: DecoderAction::Reopen(None) }
            } else {
                DecoderStep { pending_seek: None, action: DecoderAction::Finish }
            }
        },
        DecoderEvent::ControlWhileBlocked(DecoderControl::Stop) => DecoderStep {
            pending_seek,
            action: DecoderAction::Finish,
        },
        DecoderEvent::ControlWhileBlocked(DecoderControl::SeekTo(_)) => DecoderStep {
            pending_seek,
            action: DecoderAction::Continue,
        },
    }
}

/// The decoder state after reading a batch of controls, one by one, from
/// the given pending seek: `None` when one of them stops the decoder,
/// otherwise the pending seek afterwards.
pub open spec fn after_controls(
    pending_seek: Option<SeekPosition>,
    controls: Seq<DecoderControl>,
) -> Option<Option<SeekPosition>>
    decreases controls.len(),
{
    if controls.len() == 0 {
        Some(pending_seek)
    } else {
        match after_controls(pending_seek, controls.drop_last()) {
            None => None,
            Some(p) => {
                let step = decoder_step_of(false, p, DecoderEvent::Control(controls.last()));
                if step.action == DecoderAction::Finish {
                    None
                } else {
                    Some(step.pending_seek)
                }
            },
        }
    }
}

/// Of a batch of controls without a stop, the last seek wins: the pending
/// seek afterwards is the last seek of the batch (or the earlier pending
/// seek when the batch holds none).
pub proof fn lemma_last_seek_wins(
    pending_seek: Option<SeekPosition>,
    controls: Seq<DecoderControl>,
    p: SeekPosition,
)
    requires
        forall|i: int| 0 <= i < controls.len() ==> #[trigger] controls[i] != DecoderControl::Stop,
    ensures
        after_controls(pending_seek, controls.push(DecoderControl::SeekTo(p))) == Some(Some(p)),
{
    let all = controls.push(DecoderControl::SeekTo(p));
    assert(all.drop_last() =~= controls);
    lemma_no_stop_keeps_running(pending_seek, controls);
}

/// A batch of controls without a stop never finishes the decoder.
pub proof fn lemma_no_stop_keeps_running(
    pending_seek: Option<SeekPosition>,
    controls: Seq<DecoderControl>,
)
    requires
        forall|i: int| 0 <= i < controls.len() ==> #[trigger] controls[i] != DecoderControl::Stop,
    ensures
        after_controls(pending_seek, controls).is_some(),
    decreases controls.len(),
{
    if controls.len() > 0 {
        let rest = controls.drop_last();
        assert forall|i: int| 0 <= i < rest.len() implies #[trigger] rest[i] != DecoderControl::Stop by {
            assert(rest[i] == controls[i]);
        }
        lemma_no_stop_keeps_running(pending_seek, rest);
        assert(controls[controls.len() - 1] != DecoderControl::Stop);
    }
}

/// A stop anywhere in a batch of controls finishes the decoder.
pub proof fn lemma_stop_finishes(
    pending_seek: Option<SeekPosition>,
    controls: Seq<DecoderControl>,
    i: int,
)
    requires
        0 <= i < controls.len(),
        controls[i] == DecoderControl::Stop,
    ensures
        after_controls(pending_seek, controls).is_none(),
    decreases controls.len(),
{
    if i < controls.len() - 1 {
        let rest = controls.drop_last();
        assert(rest[i] == DecoderControl::Stop);
        lemma_stop_finishes(pending_seek, rest, i);
    }
}

// ─── Telemetry tap ──────────────────────────────────────────────────────

/// Which peak accumulator a sample feeds.
#[derive(Debug, Clone, Copy, PartialEq, Eq, Structural)]
pub enum PeakChannel {
    /// A mono stream: the sample feeds the left peak, and the right peak
    /// follows the left one.
    Mono,
    Left,
    Right,
}

/// The accumulator for the sample that follows `samples_in_window` samples
/// of the current metering window: mono streams feed both sides; otherwise
/// the first channel of each frame feeds the left peak and every other
/// channel the right one.
pub open spec fn peak_channel_of(channels: u16, samples_in_window: usize) -> PeakChannel {
    if channels == 1 {
        PeakChannel::Mono
    } else if samples_in_window % (channels as usize) == 0 {
        PeakChannel::Left
    } else {
        PeakChannel::Right
    }
}

/// In an interleaved stream of two or more channels, the first sample of
/// every frame feeds the left peak and every other sample of the frame the
/// right peak; a mono stream feeds both sides from every sample.
pub proof fn lemma_first_channel_feeds_left(channels: u16, frame: int, k: int)
    requires
        0 <= frame,
        0 <= k < channels,
        frame * channels + k <= usize::MAX,
    ensures
        channels == 1 ==> peak_channel_of(channels, (frame * channels + k) as usize)
            == PeakChannel::Mono,
        channels >= 2 && k == 0 ==> peak_channel_of(channels, (frame * channels + k) as usize)
            == PeakChannel::Left,
        channels >= 2 && k > 0 ==> peak_channel_of(channels, (frame * channels + k) as usize)
            == PeakChannel::Right,
{
    let n = frame * channels + k;
    vstd::arithmetic::div_mod::lemma_fundamental_div_mod_converse(n, channels as int, frame, k);
    assert(((n as usize) % (channels as usize)) as int == n % (channels as int));
}

/// Chooses the peak accumulator fed by the next sample of an interleaved
/// stream.
pub fn peak_channel(channels: u16, samples_in_window: usize) -> (c: PeakChannel)
    requires
        channels > 0,
    ensures
        c == peak_channel_of(channels, samples_in_window),
{
    if channels == 1 {
        PeakChannel::Mono
    } else if samples_in_window % (channels as usize) == 0 {
        PeakChannel::Left
    } else {
        PeakChannel::Right
    }
}

/// The number of samples in one metering window: one sixtieth of a second
/// of interleaved samples, and at least one.
pub open spec fn telemetry_interval_of(sample_rate: u32, channels: u16) -> int {
    let n = (sample_rate as int * channels as int) / 60;
    if n >= 1 {
        n
    } else {
        1
    }
}

/// The number of samples after which the tap publishes a telemetry update.
pub fn telemetry_interval(sample_rate: u32, channels: u16) -> (n: usize)
    requires
        (sample_rate as int * channels as int) / 60 <= usize::MAX,
    ensures
        n == telemetry_interval_of(sample_rate, channels),
{
    assert((sample_rate as int) * (channels as int) <= 0xffff_ffff * 0xffff) by (nonlinear_arith)
        requires
            sample_rate <= 0xffff_ffff,
            channels <= 0xffff,
    ;
    let total: u64 = (sample_rate as u64) * (channels as u64);
    let per_window: u64 = total / 60;
    if per_window >= 1 {
        per_window as usize
    } else {
        1
    }
}

/// The number of whole frames in the samples played so far.
pub fn frames_played(samples_played: u64, channels: u16) -> (frames: u64)
    requires
        channels > 0,
    ensures
        frames == samples_played / (channels as u64),
{
    samples_played / (channels as u64)
}

// ─── Output callback voices ─────────────────────────────────────────────

/// A command taken by the output callback, as it concerns the list of
/// voices (one voice per playing cue, in the order they were started).
#[derive(Debug, Clone, Copy, PartialEq, Eq, Structural)]
pub enum VoiceCommand {
    /// A new voice is handed over.
    Play,
    /// Move the cue's voice to another position.
    Seek(CueId),
    /// Stop every voice of the cue.
    Stop(CueId),
}

/// How the output callback updates its voices for a command.
#[derive(Debug, Clone, PartialEq, Eq)]
pub enum VoicePlan {
    /// Append the new voice after the others.
    Append,
    /// Empty the sample queue of the voice at this position and send it the
    /// seek (with a negative position raised to zero).
    SeekVoice(usize),
    /// No voice plays the cue: the seek is dropped.
    Ignore,
    /// Keep the voices marked `true`, in order; send a stop to each of the
    /// others and drop it.
    Retain(Vec<bool>),
}

/// `i` is the first position of the cue among the voices.
pub open spec fn is_first_voice(voices: Seq<CueId>, cue_id: CueId, i: int) -> bool {
    &&& 0 <= i < voices.len()
    &&& voices[i] == cue_id
    &&& forall|j: int| 0 <= j < i ==> voices[j] != cue_id
}

/// The update of the voices for a command.
pub open spec fn voice_plan_of(voices: Seq<CueId>, command: VoiceCommand, plan: VoicePlan) -> bool {
    match command {
        VoiceCommand::Play => plan == VoicePlan::Append,
        VoiceCommand::Seek(cue_id) => match plan {
            VoicePlan::SeekVoice(i) => is_first_voice(voices, cue_id, i as int),
            VoicePlan::Ignore => !voices.contains(cue_id),
            _ => false,
        },
        VoiceCommand::Stop(cue_id) => match plan {
            VoicePlan::Retain(keep) => keep@.len() == voices.len() && forall|i: int|
                0 <= i < voices.len() ==> #[trigger] keep@[i] == (voices[i] != cue_id),
            _ => false,
        },
    }
}

/// Decides how the voices change for a command: a new voice goes last; a
/// seek goes to the first voice of its cue, if any; a stop ends every voice
/// of its cue and keeps the others in order.
pub fn voice_plan(voices: &Vec<CueId>, command: VoiceCommand) -> (plan: VoicePlan)
    ensures
        voice_plan_of(voices@, command, plan),
{
    match command {
        VoiceCommand::Play => VoicePlan::Append,
        VoiceCommand::Seek(cue_id) => {
            let mut i: usize = 0;
            while i < voices.len()
                invariant
                    command == VoiceCommand::Seek(cue_id),
                    i <= voices@.len(),
                    forall|j: int| 0 <= j < i ==> voices@[j] != cue_id,
                decreases voices@.len() - i,
            {
                if voices[i] == cue_id {
                    return VoicePlan::SeekVoice(i);
                }
                i = i + 1;
            }
            proof {
                if voices@.contains(cue_id) {
                    let k = choose|k: int| 0 <= k < voices@.len() && voices@[k] == cue_id;
                    assert(voices@[k] != cue_id);
                }
            }
            VoicePlan::Ignore
        },
        VoiceCommand::Stop(cue_id) => {
            let mut keep: Vec<bool> = Vec::new();
            let mut i: usize = 0;
            while i < voices.len()
                invariant
                    i <= voices@.len(),
                    keep@.len() == i,
                    forall|j: int| 0 <= j < i ==> #[trigger] keep@[j] == (voices@[j] != cue_id),
                decreases voices@.len() - i,
            {
                keep.push(voices[i] != cue_id);
                i = i + 1;
            }
            VoicePlan::Retain(keep)
        },
    }
}

// ─── Driver router ──────────────────────────────────────────────────────

/// A request to the active audio driver.
#[derive(Clone, Debug, PartialEq, Eq)]
pub enum DriverRequest {
    SetDevice { device_name: String },
    PlayCue { cue_id: CueId, file_path: String, volume_db: ScalarBits, looping: bool },
    SeekCue { cue_id: CueId, position_sec: ScalarBits32 },
    StopCue { cue_id: CueId },
}

/// The driver request for a command: each command goes to the driver
/// operation of the same name, and a pause stops the cue (the drivers have
/// no pause).
pub open spec fn request_for(command: DSPCommand) -> DriverRequest {
    match command {
        DSPCommand::SetAudioDevice { device_name } => DriverRequest::SetDevice { device_name },
        DSPCommand::Play { cue_id, file_path, volume_db, looping } => DriverRequest::PlayCue {
            cue_id,
            file_path,
            volume_db,
            looping,
        },
        DSPCommand::Seek { cue_id, position_sec } => DriverRequest::SeekCue { cue_id, position_sec },
        DSPCommand::Pause { cue_id } => DriverRequest::StopCue { cue_id },
        DSPCommand::Stop { cue_id } => DriverRequest::StopCue { cue_id },
    }
}

/// Routes a command of the audio subsystem to the driver.
pub fn driver_request(command: DSPCommand) -> (request: DriverRequest)
    ensures
        request == request_for(command),
{
    match command {
        DSPCommand::SetAudioDevice { device_name } => DriverRequest::SetDevice { device_name },
        DSPCommand::Play { cue_id, file_path, volume_db, looping } => DriverRequest::PlayCue {
            cue_id,
            file_path,
            volume_db,
            looping,
        },
        DSPCommand::Seek { cue_id, position_sec } => DriverRequest::SeekCue { cue_id, position_sec },
        DSPCommand::Pause { cue_id } => DriverRequest::StopCue { cue_id },
        DSPCommand::Stop { cue_id } => DriverRequest::StopCue { cue_id },
    }
}

} // verus!
