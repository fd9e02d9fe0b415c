//! Data model of the cue system: cue identities, colours, triggers, cue kinds
//! and the cues of a show file.

use std::sync::Arc;

use vstd::arithmetic::power::pow;
use vstd::prelude::*;

use crate::text::{decimal, push_decimal};

verus! {

// ─── Identities ─────────────────────────────────────────────────────────

/// Identity of a cue: the 128-bit value of a UUID, most significant byte
/// first (the big-endian reading of the UUID's sixteen bytes).
#[derive(Debug, Clone, Copy, PartialEq, Eq, Structural, Hash)]
pub struct CueId(pub u128);

/// The version field of a UUID (the high nibble of its seventh byte).
pub open spec fn uuid_version(v: u128) -> int {
    (v as int / pow(2, 76)) % 16
}

/// The variant field of a UUID (the two high bits of its ninth byte).
pub open spec fn uuid_variant(v: u128) -> int {
    (v as int / pow(2, 62)) % 4
}

/// The lowercase hexadecimal digit of a value below sixteen.
pub open spec fn hex_digit_char(d: int) -> char {
    if d < 10 {
        (d + 48) as char
    } else {
        (d + 87) as char
    }
}

/// The `k`-th hexadecimal digit of a UUID, counting from the most
/// significant one (`k` in `0..32`).
pub open spec fn uuid_nibble(v: u128, k: int) -> int {
    (v as int / pow(16, (31 - k) as nat)) % 16
}

/// How many hyphens precede position `j` of the hyphenated form.
pub open spec fn hyphens_before(j: int) -> int {
    (if j > 8 { 1int } else { 0int }) + (if j > 13 { 1int } else { 0int }) + (if j > 18 {
        1int
    } else {
        0int
    }) + (if j > 23 { 1int } else { 0int })
}

/// The hyphenated lowercase text of a UUID: thirty-two hexadecimal digits,
/// most significant first, in groups of 8-4-4-4-12 joined by hyphens.
pub open spec fn uuid_text(v: u128) -> Seq<char> {
    Seq::new(
        36,
        |j: int|
            if j == 8 || j == 13 || j == 18 || j == 23 {
                '-'
            } else {
                hex_digit_char(uuid_nibble(v, j - hyphens_before(j)))
            },
    )
}

/// A fresh time-ordered UUID (`uuid::Uuid::now_v7`), as its 128-bit value.
/// Stated: the value carries version 7 and the RFC 4122 variant, as the
/// crate's encoder sets those fields. The other bits come from the clock and
/// a random source, so nothing is stated of them.
#[verifier::external_body]
fn now_v7_value() -> (v: u128)
    ensures
        uuid_version(v) == 7,
        uuid_variant(v) == 2,
{
    uuid::Uuid::now_v7().as_u128()
}

/// The text of a UUID (`Display` of `uuid::Uuid`, which writes the
/// hyphenated lowercase form of the sixteen bytes).
#[verifier::external_body]
fn uuid_display(v: u128) -> (s: String)
    ensures
        s@ == uuid_text(v),
{
    uuid::Uuid::from_u128(v).to_string()
}

impl CueId {
    /// A fresh, time-ordered identity (a version 7 UUID).
    pub fn new() -> (id: Self)
        ensures
            uuid_version(id.0) == 7,
            uuid_variant(id.0) == 2,
    {
        CueId(now_v7_value())
    }

    /// The hyphenated UUID text of the identity.
    pub fn to_string(&self) -> (s: String)
        ensures
            s@ == uuid_text(self.0),
    {
        uuid_display(self.0)
    }
}

/// Another handle on a shared value (`Arc::clone`): it points at the same
/// value.
#[verifier::external_body]
pub(crate) fn share<T>(value: &Arc<T>) -> (shared: Arc<T>)
    ensures
        *shared == **value,
{
    Arc::clone(value)
}

// ─── Colours and triggers ───────────────────────────────────────────────

/// Highlight colour swatch for a cue row.
#[derive(Debug, Clone, Copy, PartialEq, Eq, Structural)]
pub enum CueColor {
    NoColor,
    Red,
    Orange,
    Green,
    Blue,
    Purple,
}

/// The label of each colour, as shown to the operator.
pub open spec fn color_label(c: CueColor) -> Seq<char> {
    match c {
        CueColor::NoColor => "none"@,
        CueColor::Red => "red"@,
        CueColor::Orange => "orange"@,
        CueColor::Green => "green"@,
        CueColor::Blue => "blue"@,
        CueColor::Purple => "purple"@,
    }
}

impl CueColor {
    /// Human-readable label of the colour.
    pub fn as_str(&self) -> (label: &'static str)
        ensures
            label@ == color_label(*self),
    {
        match self {
            CueColor::NoColor => "none",
            CueColor::Red => "red",
            CueColor::Orange => "orange",
            CueColor::Green => "green",
            CueColor::Blue => "blue",
            CueColor::Purple => "purple",
        }
    }
}

impl Default for CueColor {
    fn default() -> (c: Self)
        ensures
            c == CueColor::NoColor,
    {
        CueColor::NoColor
    }
}

/// When a cue fires.
#[derive(Debug, Clone, Copy, PartialEq, Eq, Structural)]
pub enum TriggerCondition {
    /// The cue fires when the playhead reaches it.
    Playhead,
    /// The cue fires together with the target cue.
    WithCue { target: CueId },
    /// The cue fires after the target cue finishes.
    AfterCue { target: CueId },
}

impl TriggerCondition {
    /// Discriminant tag for selectors that do not need the target:
    /// 0 for `Playhead`, 1 for `WithCue`, 2 for `AfterCue`.
    pub fn discriminant_tag(&self) -> (tag: u8)
        ensures
            tag == match *self {
                TriggerCondition::Playhead => 0u8,
                TriggerCondition::WithCue { .. } => 1u8,
                TriggerCondition::AfterCue { .. } => 2u8,
            },
    {
        match self {
            TriggerCondition::Playhead => 0,
            TriggerCondition::WithCue { .. } => 1,
            TriggerCondition::AfterCue { .. } => 2,
        }
    }
}

impl Default for TriggerCondition {
    fn default() -> (t: Self)
        ensures
            t == TriggerCondition::Playhead,
    {
        TriggerCondition::Playhead
    }
}

// ─── Quantities ─────────────────────────────────────────────────────────

/// A real-valued setting (a volume, a fade time in seconds, a target
/// value), held as the IEEE 754 binary64 bit pattern of the number. The
/// cue logic carries these values from the show file to the audio engine
/// unchanged and never computes with them.
#[derive(Debug, Clone, Copy, PartialEq, Eq, Structural)]
pub struct ScalarBits(pub u64);

/// A real-valued setting held as the IEEE 754 binary32 bit pattern of the
/// number; carried unchanged, never computed with.
#[derive(Debug, Clone, Copy, PartialEq, Eq, Structural)]
pub struct ScalarBits32(pub u32);

/// A span of time: whole seconds plus the nanoseconds below one second.
#[derive(Debug, Clone, Copy, PartialEq, Eq, Structural)]
pub struct TimeSpan {
    pub secs: u64,
    pub nanos: u32,
}

impl TimeSpan {
    /// The empty span.
    pub fn zero() -> (t: Self)
        ensures
            t.secs == 0 && t.nanos == 0,
    {
        TimeSpan { secs: 0, nanos: 0 }
    }

    /// A span of whole seconds.
    pub fn from_secs(secs: u64) -> (t: Self)
        ensures
            t.secs == secs && t.nanos == 0,
    {
        TimeSpan { secs, nanos: 0 }
    }
}

impl Default for TimeSpan {
    fn default() -> (t: Self)
        ensures
            t.secs == 0 && t.nanos == 0,
    {
        TimeSpan::zero()
    }
}

// ─── Cue kinds ──────────────────────────────────────────────────────────

/// A path whose components are read the same way on every platform: it
/// holds no `\\` and no `:`, and does not start with two `/` (so it has no
/// drive, network or device prefix, and `/` is its only separator).
pub open spec fn is_portable_path(path: Seq<char>) -> bool {
    &&& !path.contains('\\')
    &&& !path.contains(':')
    &&& !(path.len() >= 2 && path[0] == '/' && path[1] == '/')
}

/// The path without what follows its last component: trailing `/` and
/// trailing `.` components are dropped (a lone `.` leaves nothing).
pub open spec fn trim_tail(p: Seq<char>) -> Seq<char>
    decreases p.len(),
{
    if p.len() > 0 && p.last() == '/' {
        trim_tail(p.drop_last())
    } else if p == seq!['.'] {
        Seq::empty()
    } else if p.len() >= 2 && p.last() == '.' && p[p.len() - 2] == '/' {
        trim_tail(p.subrange(0, p.len() - 2))
    } else {
        p
    }
}

/// The characters after the last `/` of a text (all of it when it holds
/// none).
pub open spec fn last_segment(t: Seq<char>) -> Seq<char>
    decreases t.len(),
{
    if t.len() == 0 || t.last() == '/' {
        Seq::empty()
    } else {
        last_segment(t.drop_last()).push(t.last())
    }
}

/// The file name of a portable path: its last component once trailing
/// separators and `.` components are dropped, unless there is none or it is
/// `..`.
pub open spec fn portable_file_name(path: Seq<char>) -> Option<Seq<char>> {
    let last = last_segment(trim_tail(path));
    if last.len() == 0 || last == seq!['.', '.'] {
        None
    } else {
        Some(last)
    }
}

/// A file name taken from a path: it holds no `/` and stands in the path as
/// a contiguous run of characters (or is empty when the path names no
/// file); for a portable path it is exactly its last component (empty when
/// the path names no file).
pub open spec fn is_file_name_part(name: Seq<char>, path: Seq<char>) -> bool {
    &&& !name.contains('/')
    &&& (name.len() == 0 || exists|i: int|
        0 <= i && i + name.len() <= path.len() && #[trigger] path.subrange(i, i + name.len())
            == name)
    &&& is_portable_path(path) ==> name == match portable_file_name(path) {
        Some(n) => n,
        None => Seq::<char>::empty(),
    }
}

/// The file name of a path (`std::path::Path::file_name`, as text). Stated:
/// a name holds no `/` and is a non-empty contiguous run of the path; on a
/// portable path it is the last component once trailing separators and `.`
/// components are dropped, and there is none when that component is `..` or
/// missing. How paths with `\\`, `:` or a leading `//` split depends on the
/// platform (drive, network and device prefixes on Windows), so nothing more
/// is stated of them.
#[verifier::external_body]
fn path_file_name(path: &str) -> (name: Option<String>)
    ensures
        name is Some ==> !name->0@.contains('/') && name->0@.len() > 0,
        name is Some ==> exists|i: int|
            0 <= i && i + name->0@.len() <= path@.len() && #[trigger] path@.subrange(
                i,
                i + name->0@.len(),
            ) == name->0@,
        is_portable_path(path@) ==> portable_file_name(path@) == (if name is Some {
            Some(name->0@)
        } else {
            None
        }),
{
    std::path::Path::new(path).file_name().map(|n| n.to_string_lossy().into_owned())
}

/// The file name of a path as text; empty when the path has no file name.
fn file_name_of(path: &str) -> (name: String)
    ensures
        is_file_name_part(name@, path@),
{
    match path_file_name(path) {
        Some(n) => n,
        None => String::new(),
    }
}

/// Kind of cue: determines which settings are relevant.
#[derive(Debug, Clone, PartialEq)]
pub enum CueKind {
    Audio {
        file_path: String,
        volume: ScalarBits,
        looping: bool,
        fade_in_sec: ScalarBits,
        fade_out_sec: ScalarBits,
    },
    Group,
    Control { target: String, value: String },
    Osc { task: String, host: String, port: u16 },
    Fade {
        target: String,
        property: String,
        target_value: ScalarBits,
        duration_sec: ScalarBits,
    },
}

/// The label of the cuelist's target column for a cue kind: `label` is it.
/// For an audio cue the label is `audio · ` followed by the file name of
/// its path.
pub open spec fn is_target_label(kind: CueKind, label: Seq<char>) -> bool {
    match kind {
        CueKind::Audio { file_path, .. } => exists|name: Seq<char>|
            #[trigger] is_file_name_part(name, file_path@) && label == "audio · "@ + name,
        CueKind::Group => label == "group"@,
        CueKind::Control { target, value } => label == "control · "@ + target@ + ":"@ + value@,
        CueKind::Osc { host, port, .. } => label == "osc · "@ + host@ + ":"@ + decimal(
            port as nat,
        ),
        CueKind::Fade { target, property, .. } => label == "fade · "@ + target@ + ":"@
            + property@,
    }
}

impl CueKind {
    /// Human-readable target label for the cuelist's target column.
    pub fn target_label(&self) -> (label: String)
        ensures
            is_target_label(*self, label@),
    {
        match self {
            CueKind::Audio { file_path, .. } => {
                let name = file_name_of(file_path.as_str());
                let mut label = String::from_str("audio · ");
                label.append(name.as_str());
                assert(is_file_name_part(name@, file_path@));
                label
            },
            CueKind::Group => String::from_str("group"),
            CueKind::Control { target, value } => {
                let mut label = String::from_str("control · ");
                label.append(target.as_str());
                label.append(":");
                label.append(value.as_str());
                label
            },
            CueKind::Osc { host, port, .. } => {
                let mut label = String::from_str("osc · ");
                label.append(host.as_str());
                label.append(":");
                push_decimal(&mut label, *port as u64);
                label
            },
            CueKind::Fade { target, property, .. } => {
                let mut label = String::from_str("fade · ");
                label.append(target.as_str());
                label.append(":");
                label.append(property.as_str());
                label
            },
        }
    }

    /// The media file path, if this is an audio cue.
    pub fn media_file(&self) -> (path: Option<&String>)
        ensures
            match *self {
                CueKind::Audio { file_path, .. } => path == Some(&file_path),
                _ => path.is_none(),
            },
    {
        match self {
            CueKind::Audio { file_path, .. } => Some(file_path),
            _ => None,
        }
    }
}

// ─── Cues ───────────────────────────────────────────────────────────────

/// A single cue in the show file.
#[derive(Debug, Clone, PartialEq)]
pub struct Cue {
    pub id: CueId,
    pub name: String,
    pub notes: String,
    pub kind: CueKind,
    pub trigger_condition: TriggerCondition,
    pub pre_wait: TimeSpan,
    pub post_wait: TimeSpan,
    pub color: CueColor,
}

} // verus!
