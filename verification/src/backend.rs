//! The cue model of the desktop shell: cues made of parameter tasks, with
//! a follow mode that chains them.

use vstd::prelude::*;

use crate::model::{ScalarBits, ScalarBits32};

verus! {

/// How a cue transitions after completing its tasks.
#[derive(Debug, Clone, Copy, PartialEq, Eq, Structural)]
pub enum FollowMode {
    /// Waits for a manual GO press.
    Manual,
    /// Automatically continues after the current tasks finish, with no delay.
    AutoContinue,
    /// Automatically fires after a specified duration.
    AutoFollow,
}

/// The overall state of a cue in the playback lifecycle.
#[derive(Debug, Clone, Copy, PartialEq, Eq, Structural)]
pub enum CueStatus {
    /// Loaded and ready, awaiting the standby / fire signal.
    Ready,
    /// Playback is in progress.
    Playing,
    /// Paused mid-playback.
    Paused,
    /// Finished or released.
    Complete,
}

/// A fade curve applied to a volume or parameter ramp.
#[derive(Debug, Clone, Copy, PartialEq, Eq, Structural)]
pub enum FadeCurve {
    Linear,
    Logarithmic,
    Exponential,
}

/// A routing target for audio output.
#[derive(Debug, Clone, PartialEq, Eq)]
pub struct OutputTarget {
    pub name: String,
}

/// A single parameter instruction inside a cue, e.g. "fade BGM volume to
/// -24 dB over 3 s". The target value and the duration (seconds) are
/// binary32 bit patterns.
#[derive(Debug, Clone, PartialEq)]
pub struct Task {
    pub target_name: String,
    pub property: String,
    pub target_value: ScalarBits32,
    pub duration_secs: ScalarBits32,
    pub curve: FadeCurve,
    pub output: OutputTarget,
}

/// A single cue in the flat chain. The cue number is a binary64 bit
/// pattern, the waits (seconds) binary32 bit patterns.
#[derive(Debug, Clone, PartialEq)]
pub struct Cue {
    pub number: ScalarBits,
    pub name: String,
    pub tasks: Vec<Task>,
    pub status: CueStatus,
    pub follow_mode: FollowMode,
    pub pre_wait_secs: ScalarBits32,
    pub post_wait_secs: ScalarBits32,
    pub notes: String,
    /// Whether this cue is logically grouped under its parent
    /// (Auto-Follow / Auto-Continue).
    pub indented: bool,
    pub audio_file_name: Option<String>,
}

/// The binary32 pattern of -24.0.
pub open spec fn minus_24_bits() -> u32 {
    0xc1c00000
}

/// The binary32 pattern of 3.0.
pub open spec fn three_bits() -> u32 {
    0x40400000
}

/// A task with the given settings.
pub open spec fn is_task(
    t: Task,
    target_name: Seq<char>,
    property: Seq<char>,
    target_value: u32,
    duration: u32,
    output: Seq<char>,
) -> bool {
    &&& t.target_name@ == target_name
    &&& t.property@ == property
    &&& t.target_value == ScalarBits32(target_value)
    &&& t.duration_secs == ScalarBits32(duration)
    &&& t.curve == FadeCurve::Linear
    &&& t.output.name@ == output
}

/// A cue with the given settings and no wait, no notes.
pub open spec fn is_plain_cue(
    c: Cue,
    number: u64,
    name: Seq<char>,
    follow_mode: FollowMode,
    indented: bool,
    audio_file_name: Option<Seq<char>>,
) -> bool {
    &&& c.number == ScalarBits(number)
    &&& c.name@ == name
    &&& c.status == CueStatus::Ready
    &&& c.follow_mode == follow_mode
    &&& c.pre_wait_secs == ScalarBits32(0)
    &&& c.post_wait_secs == ScalarBits32(0)
    &&& c.notes@ == Seq::<char>::empty()
    &&& c.indented == indented
    &&& match c.audio_file_name {
        Some(f) => audio_file_name == Some(f@),
        None => audio_file_name.is_none(),
    }
}

impl Default for Task {
    /// Fade the BGM volume to -24 dB over 3 s, linearly, on the main
    /// outputs.
    fn default() -> (t: Self)
        ensures
            is_task(t, "BGM"@, "Volume"@, minus_24_bits(), three_bits(), "Main L/R"@),
    {
        Task {
            target_name: String::from_str("BGM"),
            property: String::from_str("Volume"),
            target_value: ScalarBits32(0xc1c00000),
            duration_secs: ScalarBits32(0x40400000),
            curve: FadeCurve::Linear,
            output: OutputTarget { name: String::from_str("Main L/R") },
        }
    }
}

impl Default for Cue {
    /// Cue 1, "New Cue": ready, manual, no task, no wait.
    fn default() -> (c: Self)
        ensures
            is_plain_cue(c, 0x3ff0000000000000, "New Cue"@, FollowMode::Manual, false, None),
            c.tasks@.len() == 0,
    {
        Cue {
            number: ScalarBits(0x3ff0000000000000),
            name: String::from_str("New Cue"),
            tasks: Vec::new(),
            status: CueStatus::Ready,
            follow_mode: FollowMode::Manual,
            pre_wait_secs: ScalarBits32(0),
            post_wait_secs: ScalarBits32(0),
            notes: String::new(),
            indented: false,
            audio_file_name: None,
        }
    }
}

fn task(target_name: &str, property: &str, target_value: u32, duration: u32) -> (t: Task)
    ensures
        is_task(t, target_name@, property@, target_value, duration, "Main L/R"@),
{
    Task {
        target_name: String::from_str(target_name),
        property: String::from_str(property),
        target_value: ScalarBits32(target_value),
        duration_secs: ScalarBits32(duration),
        curve: FadeCurve::Linear,
        output: OutputTarget { name: String::from_str("Main L/R") },
    }
}

fn plain_cue(
    number: u64,
    name: &str,
    follow_mode: FollowMode,
    indented: bool,
    audio_file_name: Option<&str>,
    tasks: Vec<Task>,
) -> (c: Cue)
    ensures
        is_plain_cue(
            c,
            number,
            name@,
            follow_mode,
            indented,
            match audio_file_name {
                Some(f) => Some(f@),
                None => None,
            },
        ),
        c.tasks@ == tasks@,
{
    Cue {
        number: ScalarBits(number),
        name: String::from_str(name),
        tasks,
        status: CueStatus::Ready,
        follow_mode,
        pre_wait_secs: ScalarBits32(0),
        post_wait_secs: ScalarBits32(0),
        notes: String::new(),
        indented,
        audio_file_name: match audio_file_name {
            Some(f) => Some(String::from_str(f)),
            None => None,
        },
    }
}

/// The placeholder show of the desktop shell: a storm in three cues.
pub open spec fn is_storm_show(cues: Seq<Cue>) -> bool {
    &&& cues.len() == 3
    &&& is_plain_cue(cues[0], 0x3ff0000000000000, "Storm Intro"@, FollowMode::Manual, false,
        Some("Wind_Loop.wav"@))
    &&& cues[0].tasks@.len() == 2
    &&& is_task(cues[0].tasks@[0], "BGM"@, "Volume"@, minus_24_bits(), three_bits(), "Main L/R"@)
    &&& is_task(cues[0].tasks@[1], "Player"@, "Play"@, 0, 0, "Main L/R"@)
    &&& is_plain_cue(cues[1], 0x4000000000000000, "Thunder Strike"@, FollowMode::Manual, true,
        Some("Thunder.wav"@))
    &&& cues[1].tasks@.len() == 0
    &&& is_plain_cue(cues[2], 0x4008000000000000, "Storm Outro"@, FollowMode::AutoFollow, true,
        None)
    &&& cues[2].tasks@.len() == 0
}

/// The placeholder show of the desktop shell (cue numbers 1, 2, 3 as
/// binary64 patterns).
pub fn sample_cues() -> (cues: Vec<Cue>)
    ensures
        is_storm_show(cues@),
{
    let mut intro_tasks: Vec<Task> = Vec::new();
    intro_tasks.push(task("BGM", "Volume", 0xc1c00000, 0x40400000));
    intro_tasks.push(task("Player", "Play", 0, 0));
    let mut cues: Vec<Cue> = Vec::new();
    cues.push(
        plain_cue(
            0x3ff0000000000000,
            "Storm Intro",
            FollowMode::Manual,
            false,
            Some("Wind_Loop.wav"),
            intro_tasks,
        ),
    );
    cues.push(
        plain_cue(
            0x4000000000000000,
            "Thunder Strike",
            FollowMode::Manual,
            true,
            Some("Thunder.wav"),
            Vec::new(),
        ),
    );
    cues.push(
        plain_cue(
            0x4008000000000000,
            "Storm Outro",
            FollowMode::AutoFollow,
            true,
            None,
            Vec::new(),
        ),
    );
    cues
}

// ─── Display of the desktop panels ──────────────────────────────────────

/// The glyph shown for each status in the cue list.
pub open spec fn status_glyph(status: CueStatus) -> Seq<char> {
    match status {
        CueStatus::Playing => "\u{25b6}"@,
        CueStatus::Paused => "\u{23f8}"@,
        CueStatus::Complete => "\u{2713}"@,
        CueStatus::Ready => "\u{25cb}"@,
    }
}

/// The status glyph of a cue row: play, pause, check mark, or an open
/// circle for a ready cue.
pub fn status_icon(status: CueStatus) -> (glyph: &'static str)
    ensures
        glyph@ == status_glyph(status),
{
    match status {
        CueStatus::Playing => "\u{25b6}",
        CueStatus::Paused => "\u{23f8}",
        CueStatus::Complete => "\u{2713}",
        CueStatus::Ready => "\u{25cb}",
    }
}

/// The badge shown after a cue's name for each follow mode.
pub open spec fn follow_badge_text(mode: FollowMode) -> Seq<char> {
    match mode {
        FollowMode::Manual => ""@,
        FollowMode::AutoContinue => " (Auto-Continue)"@,
        FollowMode::AutoFollow => " (Auto-Follow)"@,
    }
}

/// The follow-mode badge of a cue row; empty (no badge) for a manual cue.
pub fn follow_badge(mode: FollowMode) -> (badge: &'static str)
    ensures
        badge@ == follow_badge_text(mode),
{
    match mode {
        FollowMode::Manual => "",
        FollowMode::AutoContinue => " (Auto-Continue)",
        FollowMode::AutoFollow => " (Auto-Follow)",
    }
}

/// The position of a curve among the choices of the curve selector
/// (linear, logarithmic, exponential).
pub open spec fn curve_position(curve: FadeCurve) -> usize {
    match curve {
        FadeCurve::Linear => 0,
        FadeCurve::Logarithmic => 1,
        FadeCurve::Exponential => 2,
    }
}

/// The curve chosen at a position of the selector: positions past the
/// second all choose the exponential curve.
pub open spec fn curve_at_position(index: usize) -> FadeCurve {
    if index == 0 {
        FadeCurve::Linear
    } else if index == 1 {
        FadeCurve::Logarithmic
    } else {
        FadeCurve::Exponential
    }
}

/// The selector position of a curve.
pub fn curve_index(curve: FadeCurve) -> (index: usize)
    ensures
        index == curve_position(curve),
{
    match curve {
        FadeCurve::Linear => 0,
        FadeCurve::Logarithmic => 1,
        FadeCurve::Exponential => 2,
    }
}

/// The curve chosen at a selector position.
pub fn curve_of_index(index: usize) -> (curve: FadeCurve)
    ensures
        curve == curve_at_position(index),
{
    if index == 0 {
        FadeCurve::Linear
    } else if index == 1 {
        FadeCurve::Logarithmic
    } else {
        FadeCurve::Exponential
    }
}

/// Choosing the selector position of a curve gives back that curve.
pub proof fn lemma_curve_round_trip(curve: FadeCurve)
    ensures
        curve_at_position(curve_position(curve)) == curve,
{
}

} // verus!
