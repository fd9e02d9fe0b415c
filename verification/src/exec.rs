//! Decisions of the execution engine.
//!
//! The engine waits for operator intents and audio events. Each one is
//! turned, against the current show file and playhead, into the next
//! playhead, whether the new execution state is published to the UI, and at
//! most one command for the audio subsystem. The event loop that receives
//! the inputs and sends the commands lives with the program; the decision
//! of each step is made here.

use std::sync::Arc;

use vstd::prelude::*;

use crate::cuelist::{
    first_index, has_id, ids_distinct, is_first_index, lemma_first_index, lemma_found_first, Cuelist,
};
use crate::audio::{AudioEvent, DSPCommand};
use crate::model::{Cue, CueId, CueKind, TriggerCondition};
use crate::state::Playhead;

verus! {

/// Discrete intents pushed from the UI onto the event bus. Only `Go` and
/// the device selection are acted on; `Panic` is reserved for a later
/// stop-all.
#[derive(Clone, Debug, PartialEq, Eq)]
pub enum UiEvent {
    /// The operator pressed GO.
    Go,
    /// The operator pressed Panic (stop all).
    Panic,
    /// The operator chose an output device.
    SetAudioDevice(String),
}

/// One input of the engine's event loop.
#[derive(Clone, Debug, PartialEq, Eq)]
pub enum EngineInput {
    User(UiEvent),
    Audio(AudioEvent),
}

/// The outcome of one step of the engine.
#[derive(Clone, Debug, PartialEq, Eq)]
pub struct EngineStep {
    /// The playhead after the step.
    pub playhead: Playhead,
    /// Whether the execution state is published to the UI.
    pub publish: bool,
    /// The command sent to the audio subsystem, if any.
    pub command: Option<DSPCommand>,
}

/// A cue the playhead can land on: one that is not fired together with
/// another cue by a `WithCue` trigger.
pub open spec fn is_independent(c: Cue) -> bool {
    !(c.trigger_condition is WithCue)
}

/// `j` is the first position at or after `from` that holds an independent
/// cue.
pub open spec fn is_next_independent(chain: Seq<Cue>, from: int, j: int) -> bool {
    &&& 0 <= from <= j < chain.len()
    &&& is_independent(chain[j])
    &&& forall|m: int| from <= m < j ==> !is_independent(#[trigger] chain[m])
}

/// The first position at or after `from` that holds an independent cue, if
/// any.
pub open spec fn independent_from(chain: Seq<Cue>, from: int) -> Option<int> {
    if exists|j: int| is_next_independent(chain, from, j) {
        Some(choose|j: int| is_next_independent(chain, from, j))
    } else {
        None
    }
}

/// The first independent position at or after `from` is unique.
pub proof fn lemma_next_independent_unique(chain: Seq<Cue>, from: int, j: int)
    requires
        is_next_independent(chain, from, j),
    ensures
        independent_from(chain, from) == Some(j),
{
    let c = choose|c: int| is_next_independent(chain, from, c);
    if c < j {
        assert(!is_independent(chain[c]));
    } else if j < c {
        assert(!is_independent(chain[j]));
    }
}

/// The cue that GO fires: the first independent cue of the chain when the
/// playhead is stopped, otherwise the first independent cue after the first
/// occurrence of the playing cue. Cues triggered with another cue are
/// skipped: they fire together with the cue they follow.
pub open spec fn next_cue(chain: Seq<Cue>, playhead: Playhead) -> Option<Cue> {
    match playhead {
        Playhead::Stopped => match independent_from(chain, 0) {
            Some(j) => Some(chain[j]),
            None => None,
        },
        Playhead::Playing(active) => if has_id(chain, active) {
            match independent_from(chain, first_index(chain, active) + 1) {
                Some(j) => Some(chain[j]),
                None => None,
            }
        } else {
            None
        },
    }
}

/// The command that firing a cue sends: playback for an audio cue, nothing
/// for the other kinds.
pub open spec fn play_command(cue: Cue) -> Option<DSPCommand> {
    match cue.kind {
        CueKind::Audio { file_path, volume, looping, .. } => Some(
            DSPCommand::Play { cue_id: cue.id, file_path, volume_db: volume, looping },
        ),
        _ => None,
    }
}

/// A step that changes nothing.
pub open spec fn no_change(playhead: Playhead) -> EngineStep {
    EngineStep { playhead, publish: false, command: None }
}

/// The engine's decision for one input.
pub open spec fn step_of(playhead: Playhead, chain: Seq<Cue>, input: EngineInput) -> EngineStep {
    match input {
        EngineInput::User(UiEvent::SetAudioDevice(device_name)) => EngineStep {
            playhead,
            publish: false,
            command: Some(DSPCommand::SetAudioDevice { device_name }),
        },
        EngineInput::User(UiEvent::Go) => match next_cue(chain, playhead) {
            Some(cue) => EngineStep {
                playhead: Playhead::Playing(cue.id),
                publish: true,
                command: play_command(cue),
            },
            None => no_change(playhead),
        },
        EngineInput::User(UiEvent::Panic) => no_change(playhead),
        EngineInput::Audio(AudioEvent::PlaybackFinished { cue_id }) => if playhead
            == Playhead::Playing(cue_id) {
            EngineStep { playhead: Playhead::Stopped, publish: true, command: None }
        } else {
            no_change(playhead)
        },
        EngineInput::Audio(AudioEvent::DeviceLost { device_name, .. }) => match device_name {
            Some(name) => EngineStep {
                playhead,
                publish: false,
                command: Some(DSPCommand::SetAudioDevice { device_name: name }),
            },
            None => no_change(playhead),
        },
    }
}

/// The command for firing a cue.
fn command_for(cue: &Arc<Cue>) -> (command: Option<DSPCommand>)
    ensures
        command == play_command(**cue),
{
    match &cue.kind {
        CueKind::Audio { file_path, volume, looping, .. } => Some(
            DSPCommand::Play {
                cue_id: cue.id,
                file_path: file_path.clone(),
                volume_db: *volume,
                looping: *looping,
            },
        ),
        _ => None,
    }
}

/// Whether a cue is independent (not triggered with another cue).
fn independent(cue: &Cue) -> (b: bool)
    ensures
        b == is_independent(*cue),
{
    match cue.trigger_condition {
        TriggerCondition::WithCue { .. } => false,
        _ => true,
    }
}

/// The position of the first independent cue of a list, if any.
pub(crate) fn first_independent(cues: &Vec<Arc<Cue>>) -> (found: Option<usize>)
    ensures
        match found {
            Some(j) => j < cues@.len() && is_independent(*cues@[j as int]) && forall|m: int|
                0 <= m < j ==> !is_independent(*#[trigger] cues@[m]),
            None => forall|m: int| 0 <= m < cues@.len() ==> !is_independent(*#[trigger] cues@[m]),
        },
{
    let mut i: usize = 0;
    while i < cues.len()
        invariant
            i <= cues@.len(),
            forall|m: int| 0 <= m < i ==> !is_independent(*#[trigger] cues@[m]),
        decreases cues@.len() - i,
    {
        if independent(&cues[i]) {
            return Some(i);
        }
        i = i + 1;
    }
    None
}

/// The cue that GO fires from the given playhead.
fn fire_target(playhead: Playhead, cuelist: &Cuelist) -> (cue: Option<Arc<Cue>>)
    ensures
        match cue {
            Some(c) => next_cue(cuelist@, playhead) == Some(*c),
            None => next_cue(cuelist@, playhead).is_none(),
        },
{
    let ghost chain = cuelist@;
    match playhead {
        Playhead::Stopped => {
            let mut all = cuelist.iter();
            match first_independent(&all) {
                Some(j) => {
                    proof {
                        assert forall|m: int| 0 <= m < j implies !is_independent(
                            #[trigger] chain[m],
                        ) by {
                            assert(*all@[m] == chain[m]);
                        }
                        assert(*all@[j as int] == chain[j as int]);
                        assert(is_next_independent(chain, 0, j as int));
                        lemma_next_independent_unique(chain, 0, j as int);
                    }
                    Some(all.swap_remove(j))
                },
                None => {
                    proof {
                        if exists|k: int| is_next_independent(chain, 0, k) {
                            let k = choose|k: int| is_next_independent(chain, 0, k);
                            assert(!is_independent(*all@[k]));
                        }
                    }
                    None
                },
            }
        },
        Playhead::Playing(active) => match cuelist.iter_after(active) {
            Some(mut rest) => {
                let ghost from = first_index(chain, active) + 1;
                proof {
                    lemma_first_index(chain, active);
                }
                match first_independent(&rest) {
                    Some(j) => {
                        proof {
                            assert forall|m: int| from <= m < from + j implies !is_independent(
                                #[trigger] chain[m],
                            ) by {
                                assert(*rest@[m - from] == chain[m]);
                            }
                            assert(*rest@[j as int] == chain[from + j]);
                            assert(is_next_independent(chain, from, from + j));
                            lemma_next_independent_unique(chain, from, from + j);
                        }
                        Some(rest.swap_remove(j))
                    },
                    None => {
                        proof {
                            if exists|k: int| is_next_independent(chain, from, k) {
                                let k = choose|k: int| is_next_independent(chain, from, k);
                                assert(*rest@[k - from] == chain[k]);
                            }
                        }
                        None
                    },
                }
            },
            None => None,
        },
    }
}

/// Decides one step of the execution engine: the next playhead, whether to
/// publish the execution state, and the command for the audio subsystem.
pub fn engine_step(playhead: Playhead, cuelist: &Cuelist, input: EngineInput) -> (step:
    EngineStep)
    ensures
        step == step_of(playhead, cuelist@, input),
{
    match input {
        EngineInput::User(UiEvent::SetAudioDevice(device_name)) => EngineStep {
            playhead,
            publish: false,
            command: Some(DSPCommand::SetAudioDevice { device_name }),
        },
        EngineInput::User(UiEvent::Go) => match fire_target(playhead, cuelist) {
            Some(cue) => EngineStep {
                playhead: Playhead::Playing(cue.id),
                publish: true,
                command: command_for(&cue),
            },
            None => EngineStep { playhead, publish: false, command: None },
        },
        EngineInput::User(UiEvent::Panic) => EngineStep { playhead, publish: false, command: None },
        EngineInput::Audio(AudioEvent::PlaybackFinished { cue_id }) => {
            if playhead == Playhead::Playing(cue_id) {
                EngineStep { playhead: Playhead::Stopped, publish: true, command: None }
            } else {
                EngineStep { playhead, publish: false, command: None }
            }
        },
        EngineInput::Audio(AudioEvent::DeviceLost { device_name, .. }) => match device_name {
            Some(name) => EngineStep {
                playhead,
                publish: false,
                command: Some(DSPCommand::SetAudioDevice { device_name: name }),
            },
            None => EngineStep { playhead, publish: false, command: None },
        },
    }
}

// ─── Laws of the engine ─────────────────────────────────────────────────

/// The playhead after pressing GO `n` times, starting stopped.
pub open spec fn after_gos(chain: Seq<Cue>, n: nat) -> Playhead
    decreases n,
{
    if n == 0 {
        Playhead::Stopped
    } else {
        step_of(after_gos(chain, (n - 1) as nat), chain, EngineInput::User(UiEvent::Go)).playhead
    }
}

/// In a chain of distinct identities, a cue's own position is its first.
proof fn lemma_distinct_position(chain: Seq<Cue>, i: int)
    requires
        ids_distinct(chain),
        0 <= i < chain.len(),
    ensures
        has_id(chain, chain[i].id),
        first_index(chain, chain[i].id) == i,
{
    assert forall|j: int| 0 <= j < i implies #[trigger] chain[j].id != chain[i].id by {
        assert(chain[j].id != chain[i].id);
    }
    lemma_found_first(chain, chain[i].id, i);
}

/// GO from a stopped playhead fires the first cue of the chain when it is
/// independent; on a chain without any independent cue it does nothing.
pub proof fn lemma_go_from_stopped(chain: Seq<Cue>)
    ensures
        chain.len() > 0 && is_independent(chain[0]) ==> step_of(
            Playhead::Stopped,
            chain,
            EngineInput::User(UiEvent::Go),
        ) == (EngineStep {
            playhead: Playhead::Playing(chain[0].id),
            publish: true,
            command: play_command(chain[0]),
        }),
        (forall|m: int| 0 <= m < chain.len() ==> !is_independent(#[trigger] chain[m])) ==> step_of(
            Playhead::Stopped,
            chain,
            EngineInput::User(UiEvent::Go),
        ) == no_change(Playhead::Stopped),
{
    if chain.len() > 0 && is_independent(chain[0]) {
        lemma_next_independent_unique(chain, 0, 0);
    }
}

/// GO advances the playhead from a cue to the first independent cue after
/// its first occurrence, skipping the cues triggered with another cue in
/// between, and fires that cue.
pub proof fn lemma_go_advances(chain: Seq<Cue>, i: int, j: int)
    requires
        is_first_index(chain, chain[i].id, i),
        is_next_independent(chain, i + 1, j),
    ensures
        step_of(Playhead::Playing(chain[i].id), chain, EngineInput::User(UiEvent::Go)) == (
        EngineStep {
            playhead: Playhead::Playing(chain[j].id),
            publish: true,
            command: play_command(chain[j]),
        }),
{
    lemma_found_first(chain, chain[i].id, i);
    lemma_next_independent_unique(chain, i + 1, j);
}

/// GO never lands on a cue triggered with another cue.
pub proof fn lemma_go_skips_with_cues(chain: Seq<Cue>, playhead: Playhead)
    ensures
        match next_cue(chain, playhead) {
            Some(c) => is_independent(c),
            None => true,
        },
{
}

/// GO when no independent cue follows the playing cue, or on a cue that is
/// no longer in the chain, changes nothing.
pub proof fn lemma_go_at_end(chain: Seq<Cue>, active: CueId)
    requires
        !has_id(chain, active) || independent_from(chain, first_index(chain, active) + 1).is_none(),
    ensures
        step_of(Playhead::Playing(active), chain, EngineInput::User(UiEvent::Go)) == no_change(
            Playhead::Playing(active),
        ),
{
}

/// The position the `n`-th GO from a stopped playhead lands on: the first
/// independent cue, then each time the next independent cue after it.
pub open spec fn go_position(chain: Seq<Cue>, n: nat) -> Option<int>
    decreases n,
{
    if n <= 1 {
        independent_from(chain, 0)
    } else {
        match go_position(chain, (n - 1) as nat) {
            Some(p) => independent_from(chain, p + 1),
            None => None,
        }
    }
}

/// Pressing GO repeatedly from a stopped playhead walks the independent
/// cues of the chain in show order, skipping the cues triggered with
/// another cue: after the `n`-th GO the playhead is on the `n`-th
/// independent cue.
pub proof fn lemma_go_walks_chain(chain: Seq<Cue>, n: nat, p: int)
    requires
        ids_distinct(chain),
        n >= 1,
        go_position(chain, n) == Some(p),
    ensures
        0 <= p < chain.len(),
        after_gos(chain, n) == Playhead::Playing(chain[p].id),
    decreases n,
{
    if n > 1 {
        let q = go_position(chain, (n - 1) as nat)->0;
        lemma_go_walks_chain(chain, (n - 1) as nat, q);
        lemma_distinct_position(chain, q);
    } else {
        assert(after_gos(chain, 0) == Playhead::Stopped);
    }
}

/// Once the playhead reaches the last independent cue, further GOs leave
/// it there.
pub proof fn lemma_go_stays_on_last(chain: Seq<Cue>, n: nat, p: int, m: nat)
    requires
        ids_distinct(chain),
        n >= 1,
        go_position(chain, n) == Some(p),
        independent_from(chain, p + 1).is_none(),
        m >= n,
    ensures
        after_gos(chain, m) == Playhead::Playing(chain[p].id),
    decreases m,
{
    lemma_go_walks_chain(chain, n, p);
    if m > n {
        lemma_go_stays_on_last(chain, n, p, (m - 1) as nat);
        lemma_distinct_position(chain, p);
    }
}

/// A GO sends a playback command exactly when the cue it fires is an audio
/// cue, and the command carries that cue's file, volume and looping flag.
pub proof fn lemma_play_only_for_audio(chain: Seq<Cue>, playhead: Playhead)
    ensures
        ({
            let step = step_of(playhead, chain, EngineInput::User(UiEvent::Go));
            step.command.is_some() <==> (next_cue(chain, playhead).is_some() && next_cue(
                chain,
                playhead,
            ).unwrap().kind is Audio)
        }),
{
}

/// When the playing cue finishes, the playhead stops and the state is
/// published; a finish reported for any other cue changes nothing.
pub proof fn lemma_finish_stops_playing_cue(chain: Seq<Cue>, playhead: Playhead, finished: CueId)
    ensures
        playhead == Playhead::Playing(finished) ==> step_of(
            playhead,
            chain,
            EngineInput::Audio(AudioEvent::PlaybackFinished { cue_id: finished }),
        ) == (EngineStep { playhead: Playhead::Stopped, publish: true, command: None }),
        playhead != Playhead::Playing(finished) ==> step_of(
            playhead,
            chain,
            EngineInput::Audio(AudioEvent::PlaybackFinished { cue_id: finished }),
        ) == no_change(playhead),
{
}

/// Panic is not acted on: the playhead stays, nothing is published or sent.
pub proof fn lemma_panic_changes_nothing(chain: Seq<Cue>, playhead: Playhead)
    ensures
        step_of(playhead, chain, EngineInput::User(UiEvent::Panic)) == no_change(playhead),
{
}

/// Device selection and loss only reroute the output: the playhead stays
/// and nothing is published.
pub proof fn lemma_device_events_keep_playhead(chain: Seq<Cue>, playhead: Playhead, input: EngineInput)
    requires
        input is User && input->User_0 is SetAudioDevice || input is Audio && input->Audio_0 is DeviceLost,
    ensures
        step_of(playhead, chain, input).playhead == playhead,
        !step_of(playhead, chain, input).publish,
{
}

} // verus!
