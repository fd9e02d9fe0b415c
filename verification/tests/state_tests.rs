use articuelate::cuelist::Cuelist;
use articuelate::model::{CueColor, CueKind, ScalarBits, TimeSpan};
use articuelate::state::{
    sample_cues, sample_execution_state, CueExecutionState, ExecutionState, PlaybackStatus,
    Playhead, WorkspaceState,
};

#[test]
fn sample_show_has_six_audio_cues() {
    let cues = sample_cues();
    assert_eq!(cues.len(), 6);
    let names: Vec<&str> = cues.iter().map(|c| c.name.as_str()).collect();
    assert_eq!(
        names,
        vec!["Preshow Music", "Act 1 Intro", "Thunderclap", "Rain Ambience", "Distant Rumble", "Curtain Call"]
    );
    match &cues[0].kind {
        CueKind::Audio { file_path, volume, looping, fade_in_sec, fade_out_sec } => {
            assert_eq!(file_path, "preshow_loop.wav");
            assert_eq!(f64::from_bits(volume.0), 0.7);
            assert!(*looping);
            assert_eq!(f64::from_bits(fade_in_sec.0), 3.0);
            assert_eq!(f64::from_bits(fade_out_sec.0), 5.0);
        }
        _ => panic!("expected an audio cue"),
    }
    assert_eq!(cues[1].post_wait, TimeSpan::from_secs(2));
    assert_eq!(cues[2].pre_wait, TimeSpan::from_secs(3));
    assert_eq!(cues[5].pre_wait, TimeSpan::from_secs(5));
    assert_eq!(cues[0].color, CueColor::Orange);
    assert_eq!(cues[5].color, CueColor::Purple);
    if let CueKind::Audio { volume, .. } = &cues[3].kind {
        assert_eq!(f64::from_bits(volume.0), 0.62);
    }
    assert_eq!(cues[0].kind, CueKind::Audio {
        file_path: "preshow_loop.wav".into(),
        volume: ScalarBits(0.7f64.to_bits()),
        looping: true,
        fade_in_sec: ScalarBits(3.0f64.to_bits()),
        fade_out_sec: ScalarBits(5.0f64.to_bits()),
    });
}

#[test]
fn sample_execution_marks_first_cues() {
    let cues = sample_cues();
    let ids: Vec<_> = cues.iter().map(|c| c.id).collect();
    let list = Cuelist::new(cues);
    let state = sample_execution_state(&list);
    assert_eq!(state.playhead, Playhead::Playing(ids[2]));
    let status = |i: usize| state.cue_execution_state.get(&ids[i].0).map(|s| s.status);
    assert_eq!(status(0), Some(PlaybackStatus::Playing));
    assert_eq!(status(1), Some(PlaybackStatus::Standby));
    assert_eq!(status(2), Some(PlaybackStatus::Idle));
    assert_eq!(status(3), Some(PlaybackStatus::Playing));
    assert_eq!(status(4), Some(PlaybackStatus::Playing));
    assert_eq!(status(5), Some(PlaybackStatus::Idle));
    assert_eq!(state.cue_execution_state.len(), 6);
}

#[test]
fn short_chain_has_stopped_playhead() {
    let cues: Vec<_> = sample_cues().into_iter().take(2).collect();
    let list = Cuelist::new(cues);
    let state = sample_execution_state(&list);
    assert_eq!(state.playhead, Playhead::Stopped);
    assert_eq!(state.cue_execution_state.len(), 2);
}

#[test]
fn defaults() {
    assert_eq!(PlaybackStatus::default(), PlaybackStatus::Idle);
    assert_eq!(Playhead::default(), Playhead::Stopped);
    let idle = CueExecutionState::default();
    assert_eq!(idle.status, PlaybackStatus::Idle);
    assert_eq!(idle.pre_wait_elapsed, TimeSpan::zero());
    let exec = ExecutionState::default();
    assert_eq!(exec.playhead, Playhead::Stopped);
    assert!(exec.cue_execution_state.is_empty());
    let copy = exec.clone();
    assert_eq!(copy, exec);
    let ws = WorkspaceState::default();
    assert!(ws.cuelist.is_empty());
    assert_eq!(ws.clone(), ws);
}

#[test]
fn cue_state_falls_back_to_idle() {
    let cues = sample_cues();
    let ids: Vec<_> = cues.iter().map(|c| c.id).collect();
    let list = Cuelist::new(cues);
    let state = sample_execution_state(&list);
    assert_eq!(state.cue_state(ids[0]).status, PlaybackStatus::Playing);
    assert_eq!(state.cue_state(ids[1]).status, PlaybackStatus::Standby);
    let unknown = articuelate::model::CueId(0xdead_beef);
    assert_eq!(state.cue_state(unknown), CueExecutionState::default());
    assert_eq!(ExecutionState::default().cue_state(ids[0]), CueExecutionState::default());
}

#[test]
fn sample_ids_are_version_seven() {
    for cue in sample_cues() {
        let v = cue.id.0;
        assert_eq!((v >> 76) & 0xf, 7);
        assert_eq!((v >> 62) & 0x3, 2);
    }
}
