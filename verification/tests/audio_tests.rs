use articuelate::audio::{
    decoder_step, frames_played, peak_channel, switch_failure_message, telemetry_interval,
    AudioDriverError, DecoderAction, DecoderControl, DecoderEvent, DecoderStep, DriverCapabilities,
    DriverType, PeakChannel, SeekPosition,
};
use articuelate::metrics::AtomicCueMetrics;

#[test]
fn driver_error_messages() {
    assert_eq!(
        AudioDriverError::MatrixRoutingUnsupported.to_string(),
        "Matrix routing is not supported by the active audio driver"
    );
    assert_eq!(
        AudioDriverError::DeviceError("no such device".to_string()).to_string(),
        "Device switch failed: no such device"
    );
    assert_eq!(
        AudioDriverError::PlaybackError("decode failed".to_string()).to_string(),
        "Audio playback error: decode failed"
    );
}

#[test]
fn switch_failure_names_the_device() {
    let cause = AudioDriverError::DeviceError("busy".to_string());
    assert_eq!(
        switch_failure_message("USB Interface", &cause),
        "Failed to switch to device 'USB Interface': Device switch failed: busy"
    );
}

#[test]
fn driver_descriptions() {
    let caps = DriverCapabilities { supports_matrix_routing: false, supports_hot_swapping: true };
    assert!(!caps.supports_matrix_routing);
    assert_ne!(DriverType::Rodio, DriverType::CpalCustom);
}

fn seek(secs: f32) -> SeekPosition {
    SeekPosition(secs.to_bits())
}

#[test]
fn decoder_stops_at_once() {
    let step = decoder_step(true, Some(seek(1.0)), DecoderEvent::Control(DecoderControl::Stop));
    assert_eq!(step.action, DecoderAction::Finish);
    let step = decoder_step(false, None, DecoderEvent::ControlWhileBlocked(DecoderControl::Stop));
    assert_eq!(step.action, DecoderAction::Finish);
}

#[test]
fn decoder_reopens_at_the_last_seek() {
    let mut pending = None;
    for control in [DecoderControl::SeekTo(seek(1.0)), DecoderControl::SeekTo(seek(4.5))] {
        let step = decoder_step(false, pending, DecoderEvent::Control(control));
        assert_eq!(step.action, DecoderAction::Continue);
        pending = step.pending_seek;
    }
    let step = decoder_step(false, pending, DecoderEvent::ControlsDrained);
    assert_eq!(step, DecoderStep { pending_seek: None, action: DecoderAction::Reopen(Some(seek(4.5))) });
}

#[test]
fn decoder_decodes_when_nothing_is_pending() {
    let step = decoder_step(false, None, DecoderEvent::ControlsDrained);
    assert_eq!(step, DecoderStep { pending_seek: None, action: DecoderAction::DecodeNext });
}

#[test]
fn decoder_drops_a_seek_while_blocked() {
    let step = decoder_step(
        false,
        None,
        DecoderEvent::ControlWhileBlocked(DecoderControl::SeekTo(seek(2.0))),
    );
    assert_eq!(step, DecoderStep { pending_seek: None, action: DecoderAction::Continue });
}

#[test]
fn decoder_loops_or_finishes_at_end_of_stream() {
    let step = decoder_step(true, None, DecoderEvent::EndOfStream);
    assert_eq!(step.action, DecoderAction::Reopen(None));
    let step = decoder_step(false, None, DecoderEvent::EndOfStream);
    assert_eq!(step.action, DecoderAction::Finish);
}

#[test]
fn peak_channels_of_interleaved_samples() {
    assert_eq!(peak_channel(1, 0), PeakChannel::Mono);
    assert_eq!(peak_channel(1, 7), PeakChannel::Mono);
    assert_eq!(peak_channel(2, 0), PeakChannel::Left);
    assert_eq!(peak_channel(2, 1), PeakChannel::Right);
    assert_eq!(peak_channel(2, 4), PeakChannel::Left);
    assert_eq!(peak_channel(6, 5), PeakChannel::Right);
    assert_eq!(peak_channel(6, 12), PeakChannel::Left);
}

#[test]
fn telemetry_interval_is_a_sixtieth_of_a_second() {
    assert_eq!(telemetry_interval(48000, 2), 1600);
    assert_eq!(telemetry_interval(44100, 1), 735);
    assert_eq!(telemetry_interval(30, 1), 1);
    assert_eq!(telemetry_interval(0, 2), 1);
}

#[test]
fn frames_from_samples() {
    assert_eq!(frames_played(96000, 2), 48000);
    assert_eq!(frames_played(7, 2), 3);
    assert_eq!(frames_played(5, 1), 5);
}

#[test]
fn metrics_read_back_what_was_stored() {
    let m = AtomicCueMetrics::new();
    assert_eq!(m.current_time_bits(), 0);
    assert_eq!(m.left_peak_bits(), 0);
    m.store_bits(1.5f64.to_bits(), 10.0f64.to_bits(), 0.25f32.to_bits(), 0.5f32.to_bits());
    assert_eq!(f64::from_bits(m.current_time_bits()), 1.5);
    assert_eq!(f64::from_bits(m.total_duration_bits()), 10.0);
    assert_eq!(f32::from_bits(m.left_peak_bits()), 0.25);
    assert_eq!(f32::from_bits(m.right_peak_bits()), 0.5);
}

use articuelate::audio::{driver_request, voice_plan, DSPCommand, DriverRequest, VoiceCommand, VoicePlan};
use articuelate::model::{CueId, ScalarBits, ScalarBits32};

#[test]
fn voices_for_play_seek_and_stop() {
    let voices = vec![CueId(1), CueId(2), CueId(1), CueId(3)];
    assert_eq!(voice_plan(&voices, VoiceCommand::Play), VoicePlan::Append);
    assert_eq!(voice_plan(&voices, VoiceCommand::Seek(CueId(1))), VoicePlan::SeekVoice(0));
    assert_eq!(voice_plan(&voices, VoiceCommand::Seek(CueId(3))), VoicePlan::SeekVoice(3));
    assert_eq!(voice_plan(&voices, VoiceCommand::Seek(CueId(9))), VoicePlan::Ignore);
    assert_eq!(
        voice_plan(&voices, VoiceCommand::Stop(CueId(1))),
        VoicePlan::Retain(vec![false, true, false, true])
    );
    assert_eq!(voice_plan(&vec![], VoiceCommand::Stop(CueId(1))), VoicePlan::Retain(vec![]));
}

#[test]
fn router_sends_each_command_to_its_driver_operation() {
    let play = DSPCommand::Play {
        cue_id: CueId(4),
        file_path: "a.wav".to_string(),
        volume_db: ScalarBits((-6.0f64).to_bits()),
        looping: true,
    };
    assert_eq!(
        driver_request(play),
        DriverRequest::PlayCue {
            cue_id: CueId(4),
            file_path: "a.wav".to_string(),
            volume_db: ScalarBits((-6.0f64).to_bits()),
            looping: true,
        }
    );
    assert_eq!(
        driver_request(DSPCommand::SetAudioDevice { device_name: "USB".to_string() }),
        DriverRequest::SetDevice { device_name: "USB".to_string() }
    );
    let at = ScalarBits32(2.5f32.to_bits());
    assert_eq!(
        driver_request(DSPCommand::Seek { cue_id: CueId(4), position_sec: at }),
        DriverRequest::SeekCue { cue_id: CueId(4), position_sec: at }
    );
    assert_eq!(driver_request(DSPCommand::Pause { cue_id: CueId(4) }), DriverRequest::StopCue { cue_id: CueId(4) });
    assert_eq!(driver_request(DSPCommand::Stop { cue_id: CueId(4) }), DriverRequest::StopCue { cue_id: CueId(4) });
}
