use articuelate::cuelist::Cuelist;
use articuelate::audio::{AudioEvent, DSPCommand};
use articuelate::exec::{engine_step, EngineInput, EngineStep, UiEvent};
use articuelate::model::{Cue, CueColor, CueId, CueKind, ScalarBits, TimeSpan, TriggerCondition};
use articuelate::state::Playhead;

fn cue(id: u128, name: &str, kind: CueKind) -> Cue {
    Cue {
        id: CueId(id),
        name: name.to_string(),
        notes: String::new(),
        kind,
        trigger_condition: TriggerCondition::Playhead,
        pre_wait: TimeSpan::zero(),
        post_wait: TimeSpan::zero(),
        color: CueColor::NoColor,
    }
}

fn audio(path: &str) -> CueKind {
    CueKind::Audio {
        file_path: path.to_string(),
        volume: ScalarBits(0.8f64.to_bits()),
        looping: true,
        fade_in_sec: ScalarBits(0),
        fade_out_sec: ScalarBits(0),
    }
}

fn names(list: &Cuelist) -> Vec<String> {
    list.iter().iter().map(|c| c.name.clone()).collect()
}

fn show() -> Cuelist {
    Cuelist::new(vec![
        cue(1, "one", audio("one.wav")),
        cue(2, "two", CueKind::Group),
        cue(3, "three", audio("three.wav")),
    ])
}

#[test]
fn new_keeps_show_order() {
    let list = show();
    assert_eq!(list.len(), 3);
    assert!(!list.is_empty());
    assert_eq!(names(&list), vec!["one", "two", "three"]);
    assert!(Cuelist::new(vec![]).is_empty());
    assert_eq!(Cuelist::default().len(), 0);
}

#[test]
fn lookup_by_id() {
    let list = show();
    assert_eq!(list.get_cue(CueId(2)).map(|c| c.name.clone()), Some("two".to_string()));
    assert!(list.get_cue(CueId(9)).is_none());
    assert_eq!(list.position_of(CueId(1)), Some(1));
    assert_eq!(list.position_of(CueId(3)), Some(3));
    assert_eq!(list.position_of(CueId(9)), None);
}

#[test]
fn iter_after_gives_the_rest() {
    let list = show();
    let rest: Vec<String> = list.iter_after(CueId(1)).unwrap().iter().map(|c| c.name.clone()).collect();
    assert_eq!(rest, vec!["two", "three"]);
    assert_eq!(list.iter_after(CueId(3)).unwrap().len(), 0);
    assert!(list.iter_after(CueId(9)).is_none());
}

#[test]
fn adding_an_existing_id_replaces_everywhere() {
    let mut list = show();
    list.add_cue(cue(2, "two again", CueKind::Group));
    assert_eq!(list.len(), 4);
    assert_eq!(names(&list), vec!["one", "two again", "three", "two again"]);
    assert_eq!(list.get_cue(CueId(2)).unwrap().name, "two again");
    assert_eq!(list.position_of(CueId(2)), Some(2));
}

#[test]
fn add_then_get_reads_the_write() {
    let mut list = Cuelist::default();
    list.add_cue(cue(5, "five", CueKind::Group));
    assert_eq!(list.get_cue(CueId(5)).unwrap().name, "five");
    assert_eq!(list.position_of(CueId(5)), Some(1));
    list.add_cues(vec![cue(6, "six", CueKind::Group), cue(7, "seven", CueKind::Group)]);
    assert_eq!(names(&list), vec!["five", "six", "seven"]);
    let copy = list.clone();
    assert_eq!(copy, list);
}

fn go(playhead: Playhead, list: &Cuelist) -> EngineStep {
    engine_step(playhead, list, EngineInput::User(UiEvent::Go))
}

#[test]
fn go_walks_the_chain() {
    let list = show();
    let first = go(Playhead::Stopped, &list);
    assert_eq!(first.playhead, Playhead::Playing(CueId(1)));
    assert!(first.publish);
    assert_eq!(
        first.command,
        Some(DSPCommand::Play {
            cue_id: CueId(1),
            file_path: "one.wav".to_string(),
            volume_db: ScalarBits(0.8f64.to_bits()),
            looping: true,
        })
    );
    let second = go(first.playhead, &list);
    assert_eq!(second.playhead, Playhead::Playing(CueId(2)));
    assert!(second.publish);
    assert_eq!(second.command, None);
    let third = go(second.playhead, &list);
    assert_eq!(third.playhead, Playhead::Playing(CueId(3)));
    let fourth = go(third.playhead, &list);
    assert_eq!(fourth, EngineStep { playhead: Playhead::Playing(CueId(3)), publish: false, command: None });
}

#[test]
fn go_on_empty_or_unknown_changes_nothing() {
    let empty = Cuelist::default();
    assert_eq!(
        go(Playhead::Stopped, &empty),
        EngineStep { playhead: Playhead::Stopped, publish: false, command: None }
    );
    let list = show();
    assert_eq!(
        go(Playhead::Playing(CueId(42)), &list),
        EngineStep { playhead: Playhead::Playing(CueId(42)), publish: false, command: None }
    );
}

#[test]
fn finish_stops_only_the_playing_cue() {
    let list = show();
    let finished = |id| EngineInput::Audio(AudioEvent::PlaybackFinished { cue_id: CueId(id) });
    assert_eq!(
        engine_step(Playhead::Playing(CueId(1)), &list, finished(1)),
        EngineStep { playhead: Playhead::Stopped, publish: true, command: None }
    );
    assert_eq!(
        engine_step(Playhead::Playing(CueId(1)), &list, finished(2)),
        EngineStep { playhead: Playhead::Playing(CueId(1)), publish: false, command: None }
    );
    assert_eq!(
        engine_step(Playhead::Stopped, &list, finished(2)),
        EngineStep { playhead: Playhead::Stopped, publish: false, command: None }
    );
}

#[test]
fn panic_is_not_acted_on() {
    let list = show();
    assert_eq!(
        engine_step(Playhead::Playing(CueId(1)), &list, EngineInput::User(UiEvent::Panic)),
        EngineStep { playhead: Playhead::Playing(CueId(1)), publish: false, command: None }
    );
}

#[test]
fn device_events_route_to_audio() {
    let list = show();
    assert_eq!(
        engine_step(Playhead::Stopped, &list, EngineInput::User(UiEvent::SetAudioDevice("USB".into()))),
        EngineStep {
            playhead: Playhead::Stopped,
            publish: false,
            command: Some(DSPCommand::SetAudioDevice { device_name: "USB".into() }),
        }
    );
    let lost = AudioEvent::DeviceLost { device_name: Some("USB".into()), error_message: "gone".into() };
    assert_eq!(
        engine_step(Playhead::Playing(CueId(3)), &list, EngineInput::Audio(lost)),
        EngineStep {
            playhead: Playhead::Playing(CueId(3)),
            publish: false,
            command: Some(DSPCommand::SetAudioDevice { device_name: "USB".into() }),
        }
    );
    let unnamed = AudioEvent::DeviceLost { device_name: None, error_message: "gone".into() };
    assert_eq!(
        engine_step(Playhead::Playing(CueId(3)), &list, EngineInput::Audio(unnamed)),
        EngineStep { playhead: Playhead::Playing(CueId(3)), publish: false, command: None }
    );
}

fn triggered(id: u128, trigger: TriggerCondition) -> Cue {
    let mut c = cue(id, &format!("cue {id}"), audio(&format!("c{id}.wav")));
    c.trigger_condition = trigger;
    c
}

#[test]
fn go_skips_cues_triggered_with_another() {
    let list = Cuelist::new(vec![
        triggered(1, TriggerCondition::Playhead),
        triggered(2, TriggerCondition::WithCue { target: CueId(1) }),
        triggered(3, TriggerCondition::AfterCue { target: CueId(1) }),
        triggered(4, TriggerCondition::Playhead),
    ]);
    let first = go(Playhead::Stopped, &list);
    assert_eq!(first.playhead, Playhead::Playing(CueId(1)));
    let second = go(first.playhead, &list);
    assert_eq!(second.playhead, Playhead::Playing(CueId(3)));
    assert!(matches!(second.command, Some(DSPCommand::Play { cue_id: CueId(3), .. })));
    let third = go(second.playhead, &list);
    assert_eq!(third.playhead, Playhead::Playing(CueId(4)));
    let fourth = go(third.playhead, &list);
    assert_eq!(fourth.playhead, Playhead::Playing(CueId(4)));
    assert!(!fourth.publish);
}

#[test]
fn go_from_stopped_skips_leading_with_cues() {
    let list = Cuelist::new(vec![
        triggered(1, TriggerCondition::WithCue { target: CueId(9) }),
        triggered(2, TriggerCondition::Playhead),
    ]);
    assert_eq!(go(Playhead::Stopped, &list).playhead, Playhead::Playing(CueId(2)));
    let only_with = Cuelist::new(vec![triggered(1, TriggerCondition::WithCue { target: CueId(9) })]);
    let step = go(Playhead::Stopped, &only_with);
    assert_eq!(step.playhead, Playhead::Stopped);
    assert!(!step.publish);
}

#[test]
fn iter_gives_cues_in_the_order_added() {
    let mut list = Cuelist::new(vec![cue(5, "five", CueKind::Group), cue(3, "three", CueKind::Group)]);
    list.add_cue(cue(9, "nine", CueKind::Group));
    list.add_cues(vec![cue(1, "one", CueKind::Group), cue(7, "seven", CueKind::Group)]);
    let ids: Vec<u128> = list.iter().iter().map(|c| c.id.0).collect();
    assert_eq!(ids, vec![5, 3, 9, 1, 7]);
    assert_eq!(list.iter().len(), list.len());
    for c in list.iter() {
        assert_eq!(list.get_cue(c.id).map(|found| found.name.clone()), Some(c.name.clone()));
    }
    assert_eq!(names(&list), names(&list));
}
