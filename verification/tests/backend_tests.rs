use articuelate::backend::{sample_cues, Cue, CueStatus, FadeCurve, FollowMode, Task};
use articuelate::layout::{PanelVisible, TabPosition};

#[test]
fn default_task_fades_the_bgm() {
    let t = Task::default();
    assert_eq!(t.target_name, "BGM");
    assert_eq!(t.property, "Volume");
    assert_eq!(f32::from_bits(t.target_value.0), -24.0);
    assert_eq!(f32::from_bits(t.duration_secs.0), 3.0);
    assert_eq!(t.curve, FadeCurve::Linear);
    assert_eq!(t.output.name, "Main L/R");
}

#[test]
fn default_cue_is_a_ready_manual_cue() {
    let c = Cue::default();
    assert_eq!(f64::from_bits(c.number.0), 1.0);
    assert_eq!(c.name, "New Cue");
    assert!(c.tasks.is_empty());
    assert_eq!(c.status, CueStatus::Ready);
    assert_eq!(c.follow_mode, FollowMode::Manual);
    assert_eq!(f32::from_bits(c.pre_wait_secs.0), 0.0);
    assert!(!c.indented);
    assert_eq!(c.audio_file_name, None);
}

#[test]
fn storm_show() {
    let cues = sample_cues();
    assert_eq!(cues.len(), 3);
    let numbers: Vec<f64> = cues.iter().map(|c| f64::from_bits(c.number.0)).collect();
    assert_eq!(numbers, vec![1.0, 2.0, 3.0]);
    assert_eq!(cues[0].name, "Storm Intro");
    assert_eq!(cues[0].tasks.len(), 2);
    assert_eq!(cues[0].tasks[0], Task::default());
    assert_eq!(cues[0].tasks[1].target_name, "Player");
    assert_eq!(cues[0].tasks[1].property, "Play");
    assert_eq!(f32::from_bits(cues[0].tasks[1].target_value.0), 0.0);
    assert_eq!(cues[0].audio_file_name.as_deref(), Some("Wind_Loop.wav"));
    assert_eq!(cues[1].name, "Thunder Strike");
    assert!(cues[1].indented);
    assert_eq!(cues[1].audio_file_name.as_deref(), Some("Thunder.wav"));
    assert_eq!(cues[2].name, "Storm Outro");
    assert_eq!(cues[2].follow_mode, FollowMode::AutoFollow);
    assert_eq!(cues[2].audio_file_name, None);
}

#[test]
fn layout_defaults() {
    let v = PanelVisible::default();
    assert!(!v.left && !v.right && !v.bottom);
    assert_ne!(TabPosition::Top, TabPosition::Bottom);
}

use articuelate::backend::{curve_index, curve_of_index, follow_badge, status_icon};

#[test]
fn cue_row_glyphs_and_badges() {
    assert_eq!(status_icon(CueStatus::Playing), "▶");
    assert_eq!(status_icon(CueStatus::Paused), "⏸");
    assert_eq!(status_icon(CueStatus::Complete), "✓");
    assert_eq!(status_icon(CueStatus::Ready), "○");
    assert_eq!(follow_badge(FollowMode::Manual), "");
    assert_eq!(follow_badge(FollowMode::AutoContinue), " (Auto-Continue)");
    assert_eq!(follow_badge(FollowMode::AutoFollow), " (Auto-Follow)");
}

#[test]
fn curve_selector_round_trips() {
    for curve in [FadeCurve::Linear, FadeCurve::Logarithmic, FadeCurve::Exponential] {
        assert_eq!(curve_of_index(curve_index(curve)), curve);
    }
    assert_eq!(curve_index(FadeCurve::Logarithmic), 1);
    assert_eq!(curve_of_index(7), FadeCurve::Exponential);
}
