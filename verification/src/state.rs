//! Runtime state of a show (the playhead and each cue's playback state),
//! the workspace handed to the execution engine, and sample show data.

use std::sync::Arc;

use vstd::prelude::*;

use crate::cuelist::Cuelist;
use crate::model::{
    share, uuid_variant, uuid_version, Cue, CueColor, CueId, CueKind, ScalarBits, TimeSpan,
    TriggerCondition,
};

verus! {

// ─── Runtime state ──────────────────────────────────────────────────────

/// Playback status of a single cue.
#[derive(Debug, Clone, Copy, PartialEq, Eq, Structural)]
pub enum PlaybackStatus {
    Idle,
    Standby,
    Playing,
    Paused,
    Error,
}

impl Default for PlaybackStatus {
    fn default() -> (s: Self)
        ensures
            s == PlaybackStatus::Idle,
    {
        PlaybackStatus::Idle
    }
}

/// The playback state of one cue.
#[derive(Debug, Clone, Copy, PartialEq, Eq, Structural)]
pub struct CueExecutionState {
    pub status: PlaybackStatus,
    pub pre_wait_elapsed: TimeSpan,
    pub post_wait_elapsed: TimeSpan,
}

/// An idle cue with no wait time elapsed.
pub open spec fn idle_cue_state() -> CueExecutionState {
    CueExecutionState {
        status: PlaybackStatus::Idle,
        pre_wait_elapsed: TimeSpan { secs: 0, nanos: 0 },
        post_wait_elapsed: TimeSpan { secs: 0, nanos: 0 },
    }
}

impl Default for CueExecutionState {
    fn default() -> (s: Self)
        ensures
            s == idle_cue_state(),
    {
        CueExecutionState {
            status: PlaybackStatus::Idle,
            pre_wait_elapsed: TimeSpan::zero(),
            post_wait_elapsed: TimeSpan::zero(),
        }
    }
}

/// Where the playhead stands.
#[derive(Debug, Clone, Copy, PartialEq, Eq, Structural)]
pub enum Playhead {
    Stopped,
    Playing(CueId),
}

impl Default for Playhead {
    fn default() -> (p: Self)
        ensures
            p == Playhead::Stopped,
    {
        Playhead::Stopped
    }
}

#[verifier::external_type_specification]
#[verifier::external_body]
#[verifier::reject_recursive_types(K)]
#[verifier::reject_recursive_types(V)]
#[verifier::reject_recursive_types(S)]
pub struct ExPersistentHashMap<K, V, S>(im::HashMap<K, V, S>);

/// A persistent map from cue identities (their 128-bit values) to playback
/// states.
pub type PersistentCueStates = im::HashMap<u128, CueExecutionState>;

/// The entries of a persistent map from cue identities (their 128-bit
/// values) to playback states.
pub uninterp spec fn cue_state_entries(m: PersistentCueStates) -> Map<u128, CueExecutionState>;

/// No entry at all.
pub open spec fn no_cue_states() -> Map<u128, CueExecutionState> {
    Map::empty()
}

/// `im::HashMap::new`: a map with no entry.
#[verifier::external_body]
fn empty_cue_states() -> (states: PersistentCueStates)
    ensures
        cue_state_entries(states) == no_cue_states(),
{
    im::HashMap::new()
}

/// `im::HashMap::insert`: afterwards the map holds the value under the key,
/// in place of any earlier value; the other entries stay.
#[verifier::external_body]
fn insert_cue_state(
    m: &mut PersistentCueStates,
    key: u128,
    value: CueExecutionState,
)
    ensures
        cue_state_entries(*final(m)) == cue_state_entries(*old(m)).insert(key, value),
{
    m.insert(key, value);
}

/// `im::HashMap::get`: the value stored under the key, if any.
#[verifier::external_body]
fn get_cue_state(m: &PersistentCueStates, key: u128) -> (found: Option<CueExecutionState>)
    ensures
        found == (if cue_state_entries(*m).contains_key(key) {
            Some(cue_state_entries(*m)[key])
        } else {
            None::<CueExecutionState>
        }),
{
    m.get(&key).copied()
}

/// `im::HashMap::iter`, each entry copied out: every entry exactly once.
/// The order follows the map's hasher and is not stated.
#[verifier::external_body]
pub(crate) fn cue_state_items(m: &PersistentCueStates) -> (items: Vec<(u128, CueExecutionState)>)
    ensures
        forall|i: int|
            0 <= i < items@.len() ==> cue_state_entries(*m).contains_key(#[trigger] items@[i].0)
                && cue_state_entries(*m)[items@[i].0] == items@[i].1,
        forall|k: u128|
            cue_state_entries(*m).contains_key(k) ==> exists|i: int|
                0 <= i < items@.len() && #[trigger] items@[i].0 == k,
        items@.map_values(|p: (u128, CueExecutionState)| p.0).no_duplicates(),
{
    m.iter().map(|(k, v)| (*k, *v)).collect()
}

/// `Clone` of `im::HashMap`: a map with the same entries.
#[verifier::external_body]
fn clone_cue_states(m: &PersistentCueStates) -> (copy: PersistentCueStates)
    ensures
        cue_state_entries(copy) == cue_state_entries(*m),
{
    m.clone()
}

/// Ephemeral playback state: the playhead and the state of each cue, keyed
/// by the 128-bit value of the cue's identity.
#[derive(Debug, PartialEq)]
pub struct ExecutionState {
    pub playhead: Playhead,
    pub cue_execution_state: PersistentCueStates,
}

impl Clone for ExecutionState {
    fn clone(&self) -> (copy: Self)
        ensures
            copy.playhead == self.playhead,
            cue_state_entries(copy.cue_execution_state) == cue_state_entries(
                self.cue_execution_state,
            ),
    {
        ExecutionState {
            playhead: self.playhead,
            cue_execution_state: clone_cue_states(&self.cue_execution_state),
        }
    }
}

impl ExecutionState {
    /// The playback state shown for a cue: its recorded state, or an idle
    /// state when none is recorded.
    pub fn cue_state(&self, id: CueId) -> (state: CueExecutionState)
        ensures
            state == (if cue_state_entries(self.cue_execution_state).contains_key(id.0) {
                cue_state_entries(self.cue_execution_state)[id.0]
            } else {
                idle_cue_state()
            }),
    {
        match get_cue_state(&self.cue_execution_state, id.0) {
            Some(state) => state,
            None => CueExecutionState::default(),
        }
    }
}

impl Default for ExecutionState {
    fn default() -> (s: Self)
        ensures
            s.playhead == Playhead::Stopped,
            cue_state_entries(s.cue_execution_state) == no_cue_states(),
    {
        ExecutionState { playhead: Playhead::Stopped, cue_execution_state: empty_cue_states() }
    }
}

// ─── Workspace ──────────────────────────────────────────────────────────

/// The show file handed to the execution engine.
#[derive(Debug, PartialEq)]
pub struct WorkspaceState {
    pub cuelist: Arc<Cuelist>,
}

impl Clone for WorkspaceState {
    fn clone(&self) -> (copy: Self)
        ensures
            copy.cuelist@ == self.cuelist@,
    {
        WorkspaceState { cuelist: share(&self.cuelist) }
    }
}

impl Default for WorkspaceState {
    fn default() -> (w: Self)
        ensures
            w.cuelist@ == Seq::<Cue>::empty(),
    {
        WorkspaceState { cuelist: Arc::new(Cuelist::default()) }
    }
}

// ─── Sample data ────────────────────────────────────────────────────────

/// An audio cue of the sample show with the given settings, under a fresh
/// time-ordered identity (a version 7 UUID of the RFC 4122 variant).
pub open spec fn is_sample_audio(
    c: Cue,
    name: Seq<char>,
    notes: Seq<char>,
    file: Seq<char>,
    volume: u64,
    looping: bool,
    fade_in: u64,
    fade_out: u64,
    pre_wait_secs: u64,
    post_wait_secs: u64,
    color: CueColor,
) -> bool {
    &&& uuid_version(c.id.0) == 7
    &&& uuid_variant(c.id.0) == 2
    &&& c.name@ == name
    &&& c.notes@ == notes
    &&& match c.kind {
        CueKind::Audio { file_path, volume: v, looping: l, fade_in_sec, fade_out_sec } => {
            &&& file_path@ == file
            &&& v == ScalarBits(volume)
            &&& l == looping
            &&& fade_in_sec == ScalarBits(fade_in)
            &&& fade_out_sec == ScalarBits(fade_out)
        },
        _ => false,
    }
    &&& c.trigger_condition == TriggerCondition::Playhead
    &&& c.pre_wait == TimeSpan { secs: pre_wait_secs, nanos: 0 }
    &&& c.post_wait == TimeSpan { secs: post_wait_secs, nanos: 0 }
    &&& c.color == color
}

/// The sample show: six audio cues. Volumes and fade times are binary64
/// bit patterns (0.7, 0.85, 1.0, 0.62, 0.4, 0.9 and 0, 1, 2, 3, 4, 5).
pub open spec fn is_sample_show(cues: Seq<Cue>) -> bool {
    &&& cues.len() == 6
    &&& is_sample_audio(cues[0], "Preshow Music"@, "House playlist — start 30 min before doors."@,
        "preshow_loop.wav"@, 0x3fe6666666666666, true, 0x4008000000000000, 0x4014000000000000, 0, 0,
        CueColor::Orange)
    &&& is_sample_audio(cues[1], "Act 1 Intro"@, "Fade in under the announcement."@,
        "act1_intro.wav"@, 0x3feb333333333333, false, 0x4000000000000000, 0x4008000000000000, 0, 2,
        CueColor::Blue)
    &&& is_sample_audio(cues[2], "Thunderclap"@, "Hard hit on the lightning flash."@,
        "thunder_01.wav"@, 0x3ff0000000000000, false, 0, 0, 3, 0, CueColor::NoColor)
    &&& is_sample_audio(cues[3], "Rain Ambience"@, "Loop through the storm scene."@,
        "rain_loop.wav"@, 0x3fe3d70a3d70a3d7, true, 0, 0, 0, 0, CueColor::Green)
    &&& is_sample_audio(cues[4], "Distant Rumble"@, "Under-bed rumble, triggered with rain."@,
        "rumble_lo.wav"@, 0x3fd999999999999a, false, 0, 0, 0, 0, CueColor::NoColor)
    &&& is_sample_audio(cues[5], "Curtain Call"@, "Final bows and exit music."@,
        "curtain_call.wav"@, 0x3feccccccccccccd, false, 0x3ff0000000000000, 0x4010000000000000, 5,
        0, CueColor::Purple)
}

fn sample_audio(
    name: &str,
    notes: &str,
    file: &str,
    volume: u64,
    looping: bool,
    fade_in: u64,
    fade_out: u64,
    pre_wait_secs: u64,
    post_wait_secs: u64,
    color: CueColor,
) -> (c: Cue)
    ensures
        is_sample_audio(
            c,
            name@,
            notes@,
            file@,
            volume,
            looping,
            fade_in,
            fade_out,
            pre_wait_secs,
            post_wait_secs,
            color,
        ),
{
    Cue {
        id: CueId::new(),
        name: String::from_str(name),
        notes: String::from_str(notes),
        kind: CueKind::Audio {
            file_path: String::from_str(file),
            volume: ScalarBits(volume),
            looping,
            fade_in_sec: ScalarBits(fade_in),
            fade_out_sec: ScalarBits(fade_out),
        },
        trigger_condition: TriggerCondition::Playhead,
        pre_wait: TimeSpan::from_secs(pre_wait_secs),
        post_wait: TimeSpan::from_secs(post_wait_secs),
        color,
    }
}

/// Builds a sample show file with a variety of cues, each under a fresh
/// identity.
pub fn sample_cues() -> (cues: Vec<Cue>)
    ensures
        is_sample_show(cues@),
{
    let mut cues: Vec<Cue> = Vec::new();
    cues.push(
        sample_audio(
            "Preshow Music",
            "House playlist — start 30 min before doors.",
            "preshow_loop.wav",
            0x3fe6666666666666,
            true,
            0x4008000000000000,
            0x4014000000000000,
            0,
            0,
            CueColor::Orange,
        ),
    );
    cues.push(
        sample_audio(
            "Act 1 Intro",
            "Fade in under the announcement.",
            "act1_intro.wav",
            0x3feb333333333333,
            false,
            0x4000000000000000,
            0x4008000000000000,
            0,
            2,
            CueColor::Blue,
        ),
    );
    cues.push(
        sample_audio(
            "Thunderclap",
            "Hard hit on the lightning flash.",
            "thunder_01.wav",
            0x3ff0000000000000,
            false,
            0,
            0,
            3,
            0,
            CueColor::NoColor,
        ),
    );
    cues.push(
        sample_audio(
            "Rain Ambience",
            "Loop through the storm scene.",
            "rain_loop.wav",
            0x3fe3d70a3d70a3d7,
            true,
            0,
            0,
            0,
            0,
            CueColor::Green,
        ),
    );
    cues.push(
        sample_audio(
            "Distant Rumble",
            "Under-bed rumble, triggered with rain.",
            "rumble_lo.wav",
            0x3fd999999999999a,
            false,
            0,
            0,
            0,
            0,
            CueColor::NoColor,
        ),
    );
    cues.push(
        sample_audio(
            "Curtain Call",
            "Final bows and exit music.",
            "curtain_call.wav",
            0x3feccccccccccccd,
            false,
            0x3ff0000000000000,
            0x4010000000000000,
            5,
            0,
            CueColor::Purple,
        ),
    );
    cues
}

/// The sample status of the cue at a position of the chain.
pub open spec fn sample_status(i: int) -> PlaybackStatus {
    if i == 0 || i == 3 || i == 4 {
        PlaybackStatus::Playing
    } else if i == 1 {
        PlaybackStatus::Standby
    } else {
        PlaybackStatus::Idle
    }
}

/// The sample states: each cue of the chain under its identity, with the
/// status of its position; a later position overrides an earlier one with
/// the same identity.
pub open spec fn sample_states(chain: Seq<Cue>) -> Map<u128, CueExecutionState>
    decreases chain.len(),
{
    if chain.len() == 0 {
        Map::empty()
    } else {
        sample_states(chain.drop_last()).insert(
            chain.last().id.0,
            CueExecutionState {
                status: sample_status(chain.len() - 1),
                pre_wait_elapsed: TimeSpan { secs: 0, nanos: 0 },
                post_wait_elapsed: TimeSpan { secs: 0, nanos: 0 },
            },
        )
    }
}

fn sample_status_at(i: usize) -> (s: PlaybackStatus)
    ensures
        s == sample_status(i as int),
{
    if i == 0 || i == 3 || i == 4 {
        PlaybackStatus::Playing
    } else if i == 1 {
        PlaybackStatus::Standby
    } else {
        PlaybackStatus::Idle
    }
}

/// Builds a sample execution state for a chain: the first cues marked as
/// playing or standby, and the playhead on the third cue (stopped when the
/// chain has fewer than three cues).
pub fn sample_execution_state(cuelist: &Cuelist) -> (s: ExecutionState)
    ensures
        cue_state_entries(s.cue_execution_state) == sample_states(cuelist@),
        s.playhead == (if cuelist@.len() > 2 {
            Playhead::Playing(cuelist@[2].id)
        } else {
            Playhead::Stopped
        }),
{
    let cues = cuelist.iter();
    let ghost chain = cuelist@;
    let mut states = empty_cue_states();
    let n = cues.len();
    let mut i: usize = 0;
    while i < n
        invariant
            n == cues@.len(),
            n == chain.len(),
            i <= n,
            forall|j: int| 0 <= j < n ==> *#[trigger] cues@[j] == chain[j],
            cue_state_entries(states) == sample_states(chain.take(i as int)),
        decreases n - i,
    {
        let id = cues[i].id;
        let state = CueExecutionState {
            status: sample_status_at(i),
            pre_wait_elapsed: TimeSpan::zero(),
            post_wait_elapsed: TimeSpan::zero(),
        };
        insert_cue_state(&mut states, id.0, state);
        proof {
            let next = chain.take(i + 1);
            assert(next.drop_last() =~= chain.take(i as int));
            assert(next.last() == chain[i as int]);
        }
        i = i + 1;
    }
    assert(chain.take(n as int) =~= chain);
    let playhead = if n > 2 {
        Playhead::Playing(cues[2].id)
    } else {
        Playhead::Stopped
    };
    ExecutionState { playhead, cue_execution_state: states }
}

} // verus!
