use articuelate::cuelist::Cuelist;
use articuelate::model::{Cue, CueColor, CueId, CueKind, ScalarBits, TimeSpan, TriggerCondition};
use articuelate::state::PlaybackStatus;
use articuelate::ui::{
    cue_number_label, fmt_duration, initial_bottom_sizes, initial_horizontal_sizes,
    is_running_status, kind_icon, strip_type, AppIcon, PanelFlags, PanelLocation, PanelSizes,
};

fn group_cue(id: u128) -> Cue {
    Cue {
        id: CueId(id),
        name: format!("cue {id}"),
        notes: String::new(),
        kind: CueKind::Group,
        trigger_condition: TriggerCondition::Playhead,
        pre_wait: TimeSpan::zero(),
        post_wait: TimeSpan::zero(),
        color: CueColor::NoColor,
    }
}

#[test]
fn durations_are_minutes_and_seconds() {
    assert_eq!(fmt_duration(TimeSpan::zero()), "00:00");
    assert_eq!(fmt_duration(TimeSpan::from_secs(65)), "01:05");
    assert_eq!(fmt_duration(TimeSpan { secs: 59, nanos: 999_999_999 }), "00:59");
    assert_eq!(fmt_duration(TimeSpan::from_secs(3600)), "60:00");
    assert_eq!(fmt_duration(TimeSpan::from_secs(6000)), "100:00");
}

#[test]
fn strip_type_drops_the_kind_prefix() {
    assert_eq!(strip_type("audio · thunder.wav"), " thunder.wav");
    assert_eq!(strip_type("osc · /go"), " /go");
    assert_eq!(strip_type("group"), "group");
    assert_eq!(strip_type("a · b · c"), " b · c");
    assert_eq!(strip_type(""), "");
}

#[test]
fn cue_numbers_count_from_one() {
    let list = Cuelist::new(vec![group_cue(10), group_cue(20), group_cue(30)]);
    assert_eq!(cue_number_label(&list, CueId(10)), "1");
    assert_eq!(cue_number_label(&list, CueId(30)), "3");
    assert_eq!(cue_number_label(&list, CueId(99)), "?");
}

#[test]
fn running_statuses() {
    assert!(is_running_status(PlaybackStatus::Playing));
    assert!(is_running_status(PlaybackStatus::Standby));
    assert!(!is_running_status(PlaybackStatus::Idle));
    assert!(!is_running_status(PlaybackStatus::Paused));
}

#[test]
fn icons_by_kind() {
    assert_eq!(kind_icon(&CueKind::Group), AppIcon::Folder);
    let control = CueKind::Control { target: "lights".to_string(), value: "1".to_string() };
    assert_eq!(kind_icon(&control), AppIcon::ListVideo);
    let fade = CueKind::Fade {
        target: "BGM".to_string(),
        property: "Volume".to_string(),
        target_value: ScalarBits((-24.0f64).to_bits()),
        duration_sec: ScalarBits(3.0f64.to_bits()),
    };
    assert_eq!(kind_icon(&fade), AppIcon::Spline);
    let osc = CueKind::Osc { task: "go".to_string(), host: "localhost".to_string(), port: 53000 };
    assert_eq!(kind_icon(&osc), AppIcon::Network);
    let audio = CueKind::Audio {
        file_path: "a.wav".to_string(),
        volume: ScalarBits(1.0f64.to_bits()),
        looping: false,
        fade_in_sec: ScalarBits(0),
        fade_out_sec: ScalarBits(0),
    };
    assert_eq!(kind_icon(&audio), AppIcon::Music);
}

#[test]
fn toggling_a_panel_flips_only_that_panel() {
    let mut flags = PanelFlags::default();
    assert!(!flags.get(PanelLocation::Left));
    flags.toggle(PanelLocation::Left);
    assert!(flags.get(PanelLocation::Left));
    assert!(!flags.get(PanelLocation::Right));
    assert!(!flags.get(PanelLocation::Bottom));
    flags.toggle(PanelLocation::Left);
    assert_eq!(flags, PanelFlags::default());
}

#[test]
fn initial_sizes_follow_the_visible_panes() {
    let w = ScalarBits(240.0f64.to_bits());
    let r = ScalarBits(300.0f64.to_bits());
    let sizes = PanelSizes { left: Some(w), right: Some(r), bottom: None };
    let both = PanelFlags { left: true, right: true, bottom: false };
    assert_eq!(initial_horizontal_sizes(both, sizes), vec![(0, w), (2, r)]);
    let right_only = PanelFlags { left: false, right: true, bottom: false };
    assert_eq!(initial_horizontal_sizes(right_only, sizes), vec![(1, r)]);
    let left_only = PanelFlags { left: true, right: false, bottom: false };
    assert_eq!(initial_horizontal_sizes(left_only, sizes), vec![(0, w)]);
    assert_eq!(initial_horizontal_sizes(PanelFlags::default(), sizes), vec![]);
    assert_eq!(initial_bottom_sizes(sizes), vec![]);
    let h = ScalarBits(180.0f64.to_bits());
    let with_bottom = PanelSizes { left: None, right: None, bottom: Some(h) };
    assert_eq!(initial_bottom_sizes(with_bottom), vec![(1, h)]);
}

use articuelate::ui::{shown_panes, size_source_child};

#[test]
fn shown_panes_need_visibility_and_a_window() {
    let visible = PanelFlags { left: true, right: true, bottom: false };
    let registered = PanelFlags { left: false, right: true, bottom: true };
    assert_eq!(shown_panes(visible, registered), PanelFlags { left: false, right: true, bottom: false });
}

#[test]
fn hidden_panel_sizes_come_from_the_edge_panes() {
    assert_eq!(size_source_child(PanelLocation::Left, 3), Some(0));
    assert_eq!(size_source_child(PanelLocation::Right, 3), Some(2));
    assert_eq!(size_source_child(PanelLocation::Bottom, 2), Some(1));
    assert_eq!(size_source_child(PanelLocation::Right, 0), None);
    let mut sizes = PanelSizes::unset();
    sizes.record(PanelLocation::Right, ScalarBits(320.0f64.to_bits()));
    assert_eq!(sizes.right, Some(ScalarBits(320.0f64.to_bits())));
    assert_eq!(sizes.left, None);
    assert_eq!(sizes.bottom, None);
}

use articuelate::ui::{cue_settings_title, detail_tabs, tab_label, DetailTab};

#[test]
fn detail_tabs_follow_the_cue_kind() {
    assert_eq!(detail_tabs(None), vec![DetailTab::General]);
    assert_eq!(detail_tabs(Some(&CueKind::Group)), vec![DetailTab::General]);
    let osc = CueKind::Osc { task: "go".to_string(), host: "10.0.0.2".to_string(), port: 53000 };
    assert_eq!(detail_tabs(Some(&osc)), vec![DetailTab::General, DetailTab::Osc]);
    let audio = CueKind::Audio {
        file_path: "a.wav".to_string(),
        volume: ScalarBits(1.0f64.to_bits()),
        looping: false,
        fade_in_sec: ScalarBits(0),
        fade_out_sec: ScalarBits(0),
    };
    assert_eq!(detail_tabs(Some(&audio)), vec![DetailTab::General, DetailTab::Audio]);
    assert_eq!(tab_label(DetailTab::General), "General");
    assert_eq!(tab_label(DetailTab::Audio), "Audio");
    assert_eq!(tab_label(DetailTab::Osc), "OSC");
}

#[test]
fn settings_title_names_the_cue() {
    let mut cue = group_cue(0x0192_3456_789a_7bcd_8ef0_1234_5678_9abc);
    cue.name = "Storm".to_string();
    assert_eq!(cue_settings_title(&cue), "01923456-789a-7bcd-8ef0-123456789abc · Storm");
}

use articuelate::state::{sample_cues, sample_execution_state, ExecutionState, Playhead};
use articuelate::ui::{conductor, running_cues, Conductor};

#[test]
fn conductor_shows_playing_and_next_cue() {
    let list = Cuelist::new(vec![group_cue(1), group_cue(2), group_cue(3)]);
    assert_eq!(conductor(Playhead::Stopped, &list), Conductor { current: None, next: None });
    assert_eq!(
        conductor(Playhead::Playing(CueId(1)), &list),
        Conductor { current: Some(CueId(1)), next: Some(CueId(2)) }
    );
    assert_eq!(
        conductor(Playhead::Playing(CueId(3)), &list),
        Conductor { current: Some(CueId(3)), next: None }
    );
    assert_eq!(conductor(Playhead::Playing(CueId(9)), &list), Conductor { current: None, next: None });
}

#[test]
fn media_panel_lists_running_cues() {
    let cues = sample_cues();
    let ids: Vec<CueId> = cues.iter().map(|c| c.id).collect();
    let list = Cuelist::new(cues);
    let state = sample_execution_state(&list);
    let mut running = running_cues(&state, &list);
    running.sort_by_key(|id| ids.iter().position(|x| x == id));
    assert_eq!(running, vec![ids[0], ids[1], ids[3], ids[4]]);
    assert!(running_cues(&ExecutionState::default(), &list).is_empty());
    assert!(running_cues(&state, &Cuelist::new(vec![])).is_empty());
}

#[test]
fn conductor_next_skips_with_cues() {
    let mut with = group_cue(2);
    with.trigger_condition = TriggerCondition::WithCue { target: CueId(1) };
    let list = Cuelist::new(vec![group_cue(1), with, group_cue(3)]);
    assert_eq!(
        conductor(Playhead::Playing(CueId(1)), &list),
        Conductor { current: Some(CueId(1)), next: Some(CueId(3)) }
    );
}

use articuelate::model::CueColor as Colour;
use articuelate::ui::{color_tone, cue_row_style, RowBackground, RowStyle, StatusTone};

#[test]
fn cue_row_colours() {
    let group = CueKind::Group;
    let running = cue_row_style(PlaybackStatus::Playing, true, 3, &group, Colour::NoColor);
    assert_eq!(
        running,
        RowStyle {
            background: RowBackground::RunningTint,
            left_stripe: Some(StatusTone::Group),
            playhead_marker: Some(StatusTone::Running),
            number_running: true,
        }
    );
    let standby = cue_row_style(PlaybackStatus::Standby, false, 2, &group, Colour::Red);
    assert_eq!(standby.background, RowBackground::Surface);
    assert_eq!(standby.left_stripe, Some(StatusTone::Error));
    assert_eq!(standby.playhead_marker, Some(StatusTone::Standby));
    let fade = CueKind::Control { target: "x".to_string(), value: "y".to_string() };
    let idle = cue_row_style(PlaybackStatus::Idle, false, 1, &fade, Colour::NoColor);
    assert_eq!(idle.background, RowBackground::Raised);
    assert_eq!(idle.left_stripe, None);
    assert_eq!(idle.playhead_marker, None);
    assert!(!idle.number_running);
    let selected = cue_row_style(PlaybackStatus::Idle, true, 1, &fade, Colour::NoColor);
    assert_eq!(selected.background, RowBackground::Selection);
    let on_standby = cue_row_style(PlaybackStatus::Standby, false, 1, &fade, Colour::NoColor);
    assert_eq!(on_standby.left_stripe, Some(StatusTone::Standby));
    assert_eq!(color_tone(Colour::Blue), Some(StatusTone::Playhead));
    assert_eq!(color_tone(Colour::Purple), Some(StatusTone::Standby));
}
