//! The decisions behind the workspace views: the texts of the cue table,
//! the icon of each cue kind, and the bookkeeping of the resizable panels.

use vstd::prelude::*;

use crate::cuelist::{first_index, has_id, lemma_first_index, Cuelist};
use crate::model::{uuid_text, Cue, CueColor, CueId, CueKind, ScalarBits, TimeSpan};
use crate::exec::{
    first_independent, independent_from, is_independent, is_next_independent,
    lemma_next_independent_unique, next_cue,
};
use crate::state::{
    cue_state_entries, cue_state_items, CueExecutionState, ExecutionState, PlaybackStatus, Playhead,
};
use crate::text::{decimal, push_char, push_decimal, push_two_digits, zero_padded};

verus! {

// ─── Cue table texts ────────────────────────────────────────────────────

/// `mm:ss` of a span: whole minutes and the remaining seconds, each
/// zero-padded to two digits (minutes may run longer).
pub open spec fn duration_text(d: TimeSpan) -> Seq<char> {
    zero_padded((d.secs / 60) as nat, 2) + seq![':'] + zero_padded((d.secs % 60) as nat, 2)
}

/// Formats a span as `mm:ss`, dropping the sub-second part.
pub fn fmt_duration(d: TimeSpan) -> (text: String)
    ensures
        text@ == duration_text(d),
{
    let mut text = String::new();
    push_two_digits(&mut text, d.secs / 60);
    push_char(&mut text, ':');
    push_two_digits(&mut text, d.secs % 60);
    proof {
        assert(text@ =~= duration_text(d));
    }
    text
}

/// The kind separator ` · ` starts at position `i`.
pub open spec fn separator_at(s: Seq<char>, i: int) -> bool {
    &&& 0 <= i
    &&& i + 3 <= s.len()
    &&& s[i] == ' '
    &&& s[i + 1] == '\u{b7}'
    &&& s[i + 2] == ' '
}

/// The first position of the separator.
pub open spec fn is_first_separator(s: Seq<char>, i: int) -> bool {
    &&& separator_at(s, i)
    &&& forall|j: int| 0 <= j < i ==> !#[trigger] separator_at(s, j)
}

/// A target label without its kind prefix: everything from the second
/// space of the first ` · ` separator on (so the result keeps that one
/// leading space), or the whole label when it has no separator.
pub open spec fn type_stripped(s: Seq<char>) -> Seq<char> {
    if exists|i: int| is_first_separator(s, i) {
        s.skip((choose|i: int| is_first_separator(s, i)) + 2)
    } else {
        s
    }
}

proof fn lemma_first_separator_unique(s: Seq<char>, i: int, k: int)
    requires
        is_first_separator(s, i),
        is_first_separator(s, k),
    ensures
        i == k,
{
    if i < k {
        assert(!separator_at(s, i));
    } else if k < i {
        assert(!separator_at(s, k));
    }
}

/// Strips the kind prefix (`audio · `, `osc · `, ...) of a target label.
pub fn strip_type(target: &str) -> (stripped: String)
    ensures
        stripped@ == type_stripped(target@),
{
    let n = target.unicode_len();
    let mut i: usize = 0;
    while i < n && n - i >= 3
        invariant
            n == target@.len(),
            i <= n,
            forall|j: int| 0 <= j < i ==> !#[trigger] separator_at(target@, j),
        decreases n - i,
    {
        if target.get_char(i) == ' ' && target.get_char(i + 1) == '\u{b7}' && target.get_char(i + 2)
            == ' ' {
            proof {
                assert(is_first_separator(target@, i as int));
                let c = choose|k: int| is_first_separator(target@, k);
                lemma_first_separator_unique(target@, i as int, c);
            }
            let rest = target.substring_char(i + 2, n);
            return String::from_str(rest);
        }
        i = i + 1;
    }
    proof {
        if exists|k: int| is_first_separator(target@, k) {
            let k = choose|k: int| is_first_separator(target@, k);
            if k < i {
                assert(!separator_at(target@, k));
            }
        }
    }
    String::from_str(target)
}

/// The label of a cue's number column: its position in the chain
/// (counting from 1), or `?` when the cue is not in the chain.
pub open spec fn cue_number_text(chain: Seq<Cue>, id: CueId) -> Seq<char> {
    if has_id(chain, id) {
        decimal((first_index(chain, id) + 1) as nat)
    } else {
        "?"@
    }
}

/// The number label of a cue row.
pub fn cue_number_label(cuelist: &Cuelist, id: CueId) -> (label: String)
    ensures
        label@ == cue_number_text(cuelist@, id),
{
    match cuelist.position_of(id) {
        Some(p) => {
            let mut label = String::new();
            push_decimal(&mut label, p as u64);
            assert(label@ =~= decimal(p as nat));
            label
        },
        None => String::from_str("?"),
    }
}

/// Whether a cue in this state is shown among the running media: it is
/// playing or standing by.
pub fn is_running_status(status: PlaybackStatus) -> (shown: bool)
    ensures
        shown == (status == PlaybackStatus::Playing || status == PlaybackStatus::Standby),
{
    match status {
        PlaybackStatus::Playing | PlaybackStatus::Standby => true,
        _ => false,
    }
}

// ─── Icons ──────────────────────────────────────────────────────────────

/// All icons used in the application.
#[derive(Debug, Clone, Copy, PartialEq, Eq, Structural)]
pub enum AppIcon {
    // Transport
    Play,
    Pause,
    Stop,
    Panic,
    SkipBack,
    Go,
    // Cue types
    Music,
    Folder,
    ListVideo,
    Network,
    Spline,
    // Actions
    Plus,
    Trash2,
    Pencil,
    Copy,
    FileAudio,
    // UI
    Settings,
    Save,
    Columns2,
    Rows2,
    Clock,
    MousePointerClick,
    ChevronDown,
    GripVertical,
    EllipsisVertical,
    // Panel
    PanelBottom,
    PanelLeft,
    PanelRight,
}

/// The icon of each cue kind.
pub open spec fn kind_icon_of(kind: CueKind) -> AppIcon {
    match kind {
        CueKind::Group => AppIcon::Folder,
        CueKind::Audio { .. } => AppIcon::Music,
        CueKind::Control { .. } => AppIcon::ListVideo,
        CueKind::Osc { .. } => AppIcon::Network,
        CueKind::Fade { .. } => AppIcon::Spline,
    }
}

/// The icon shown for a cue kind.
pub fn kind_icon(kind: &CueKind) -> (icon: AppIcon)
    ensures
        icon == kind_icon_of(*kind),
{
    match kind {
        CueKind::Group => AppIcon::Folder,
        CueKind::Audio { .. } => AppIcon::Music,
        CueKind::Control { .. } => AppIcon::ListVideo,
        CueKind::Osc { .. } => AppIcon::Network,
        CueKind::Fade { .. } => AppIcon::Spline,
    }
}

// ─── Resizable panels ───────────────────────────────────────────────────

/// Where an optional panel lives in the workspace.
#[derive(Clone, Copy, PartialEq, Eq, Debug, Structural)]
pub enum PanelLocation {
    Left,
    Right,
    Bottom,
}

/// Visibility of the optional panels (the main view is always shown).
#[derive(Debug, Clone, Copy, PartialEq, Eq, Structural)]
pub struct PanelFlags {
    pub left: bool,
    pub right: bool,
    pub bottom: bool,
}

/// The flag of one panel.
pub open spec fn flag_of(flags: PanelFlags, which: PanelLocation) -> bool {
    match which {
        PanelLocation::Left => flags.left,
        PanelLocation::Right => flags.right,
        PanelLocation::Bottom => flags.bottom,
    }
}

/// The flags with one panel's flag flipped.
pub open spec fn toggled(flags: PanelFlags, which: PanelLocation) -> PanelFlags {
    match which {
        PanelLocation::Left => PanelFlags { left: !flags.left, ..flags },
        PanelLocation::Right => PanelFlags { right: !flags.right, ..flags },
        PanelLocation::Bottom => PanelFlags { bottom: !flags.bottom, ..flags },
    }
}

/// Toggling a panel twice restores the flags.
pub proof fn lemma_toggle_twice(flags: PanelFlags, which: PanelLocation)
    ensures
        toggled(toggled(flags, which), which) == flags,
{
}

impl Default for PanelFlags {
    fn default() -> (flags: Self)
        ensures
            !flags.left && !flags.right && !flags.bottom,
    {
        PanelFlags { left: false, right: false, bottom: false }
    }
}

impl PanelFlags {
    /// The flag of one panel.
    pub fn get(&self, which: PanelLocation) -> (on: bool)
        ensures
            on == flag_of(*self, which),
    {
        match which {
            PanelLocation::Left => self.left,
            PanelLocation::Right => self.right,
            PanelLocation::Bottom => self.bottom,
        }
    }

    /// Flips the flag of one panel and leaves the others.
    pub fn toggle(&mut self, which: PanelLocation)
        ensures
            *final(self) == toggled(*old(self), which),
            flag_of(*final(self), which) == !flag_of(*old(self), which),
            forall|other: PanelLocation|
                other != which ==> flag_of(*final(self), other) == flag_of(*old(self), other),
    {
        match which {
            PanelLocation::Left => self.left = !self.left,
            PanelLocation::Right => self.right = !self.right,
            PanelLocation::Bottom => self.bottom = !self.bottom,
        }
    }
}

/// Remembered sizes of the optional panels (binary64 patterns of pixel
/// sizes); `None` lets the layout choose.
#[derive(Debug, Clone, Copy, PartialEq, Eq, Structural)]
pub struct PanelSizes {
    pub left: Option<ScalarBits>,
    pub right: Option<ScalarBits>,
    pub bottom: Option<ScalarBits>,
}

/// The pane index paired with each remembered size in a row
/// `[left?, main, right?]` of the visible panes.
pub open spec fn horizontal_sizes_of(flags: PanelFlags, sizes: PanelSizes) -> Seq<(usize, ScalarBits)> {
    let left = match sizes.left {
        Some(w) => seq![(0usize, w)],
        None => Seq::empty(),
    };
    if flags.left && flags.right {
        left + match sizes.right {
            Some(w) => seq![(2usize, w)],
            None => Seq::empty(),
        }
    } else if flags.left {
        left
    } else if flags.right {
        match sizes.right {
            Some(w) => seq![(1usize, w)],
            None => Seq::empty(),
        }
    } else {
        Seq::empty()
    }
}

/// The initial pane sizes of the horizontal row of visible panes, each
/// paired with the pane's index in the row.
pub fn initial_horizontal_sizes(flags: PanelFlags, sizes: PanelSizes) -> (out: Vec<(usize, ScalarBits)>)
    ensures
        out@ == horizontal_sizes_of(flags, sizes),
{
    let mut out: Vec<(usize, ScalarBits)> = Vec::new();
    if flags.left {
        if let Some(w) = sizes.left {
            out.push((0, w));
        }
        if flags.right {
            if let Some(w) = sizes.right {
                out.push((2, w));
            }
        }
    } else if flags.right {
        if let Some(w) = sizes.right {
            out.push((1, w));
        }
    }
    proof {
        assert(out@ =~= horizontal_sizes_of(flags, sizes));
    }
    out
}

/// The initial size of the bottom pane, paired with its index (1) below
/// the centre row.
pub fn initial_bottom_sizes(sizes: PanelSizes) -> (out: Vec<(usize, ScalarBits)>)
    ensures
        out@ == match sizes.bottom {
            Some(h) => seq![(1usize, h)],
            None => Seq::<(usize, ScalarBits)>::empty(),
        },
{
    let mut out: Vec<(usize, ScalarBits)> = Vec::new();
    if let Some(h) = sizes.bottom {
        out.push((1, h));
    }
    proof {
        assert(out@ =~= match sizes.bottom {
            Some(h) => seq![(1usize, h)],
            None => Seq::<(usize, ScalarBits)>::empty(),
        });
    }
    out
}

/// The panes laid out: a panel is shown when it is visible and a window is
/// registered for it.
pub fn shown_panes(visible: PanelFlags, registered: PanelFlags) -> (shown: PanelFlags)
    ensures
        shown.left == (visible.left && registered.left),
        shown.right == (visible.right && registered.right),
        shown.bottom == (visible.bottom && registered.bottom),
{
    PanelFlags {
        left: visible.left && registered.left,
        right: visible.right && registered.right,
        bottom: visible.bottom && registered.bottom,
    }
}

/// The child whose size is remembered when a panel is hidden: the first
/// pane of the centre row for the left panel, the last pane of that row for
/// the right one, and the last pane of the column for the bottom one; none
/// when the container has no child.
pub fn size_source_child(which: PanelLocation, child_count: usize) -> (child: Option<usize>)
    ensures
        child_count == 0 ==> child.is_none(),
        child_count > 0 ==> child == Some(
            if which == PanelLocation::Left {
                0usize
            } else {
                (child_count - 1) as usize
            },
        ),
{
    if child_count == 0 {
        None
    } else {
        match which {
            PanelLocation::Left => Some(0),
            PanelLocation::Right | PanelLocation::Bottom => Some(child_count - 1),
        }
    }
}

/// The remembered size of one panel.
pub open spec fn size_of(sizes: PanelSizes, which: PanelLocation) -> Option<ScalarBits> {
    match which {
        PanelLocation::Left => sizes.left,
        PanelLocation::Right => sizes.right,
        PanelLocation::Bottom => sizes.bottom,
    }
}

impl PanelSizes {
    /// No size remembered: the layout chooses.
    pub fn unset() -> (sizes: Self)
        ensures
            sizes.left.is_none() && sizes.right.is_none() && sizes.bottom.is_none(),
    {
        PanelSizes { left: None, right: None, bottom: None }
    }

    /// Remembers the size of one panel and leaves the others.
    pub fn record(&mut self, which: PanelLocation, size: ScalarBits)
        ensures
            size_of(*final(self), which) == Some(size),
            forall|other: PanelLocation|
                other != which ==> size_of(*final(self), other) == size_of(*old(self), other),
    {
        match which {
            PanelLocation::Left => self.left = Some(size),
            PanelLocation::Right => self.right = Some(size),
            PanelLocation::Bottom => self.bottom = Some(size),
        }
    }
}

// ─── Detail panel ───────────────────────────────────────────────────────

/// A tab of the cue settings panel.
#[derive(Debug, Clone, Copy, PartialEq, Eq, Structural)]
pub enum DetailTab {
    General,
    Audio,
    Osc,
}

/// The tabs offered for the selected cue: the general settings always, then
/// the audio settings of an audio cue or the OSC settings of an OSC cue.
pub open spec fn tabs_for(selected: Option<CueKind>) -> Seq<DetailTab> {
    match selected {
        Some(CueKind::Audio { .. }) => seq![DetailTab::General, DetailTab::Audio],
        Some(CueKind::Osc { .. }) => seq![DetailTab::General, DetailTab::Osc],
        _ => seq![DetailTab::General],
    }
}

/// The tabs of the cue settings panel for the kind of the selected cue, if
/// any.
pub fn detail_tabs(selected: Option<&CueKind>) -> (tabs: Vec<DetailTab>)
    ensures
        tabs@ == tabs_for(
            match selected {
                Some(k) => Some(*k),
                None => None,
            },
        ),
{
    let mut tabs: Vec<DetailTab> = Vec::new();
    tabs.push(DetailTab::General);
    match selected {
        Some(CueKind::Audio { .. }) => tabs.push(DetailTab::Audio),
        Some(CueKind::Osc { .. }) => tabs.push(DetailTab::Osc),
        _ => {},
    }
    proof {
        assert(tabs@ =~= tabs_for(
            match selected {
                Some(k) => Some(*k),
                None => None,
            },
        ));
    }
    tabs
}

/// The label of each tab.
pub open spec fn tab_label_text(tab: DetailTab) -> Seq<char> {
    match tab {
        DetailTab::General => "General"@,
        DetailTab::Audio => "Audio"@,
        DetailTab::Osc => "OSC"@,
    }
}

/// The label of a tab of the cue settings panel.
pub fn tab_label(tab: DetailTab) -> (label: &'static str)
    ensures
        label@ == tab_label_text(tab),
{
    match tab {
        DetailTab::General => "General",
        DetailTab::Audio => "Audio",
        DetailTab::Osc => "OSC",
    }
}

/// The line naming the selected cue in the settings header: its identity
/// (the hyphenated UUID text) and its name, joined by ` · `.
pub fn cue_settings_title(cue: &Cue) -> (title: String)
    ensures
        title@ == uuid_text(cue.id.0) + " \u{b7} "@ + cue.name@,
{
    let mut title = cue.id.to_string();
    title.append(" \u{b7} ");
    title.append(cue.name.as_str());
    title
}

// ─── Conductor and running cues ─────────────────────────────────────────

/// The cues of the conductor panel: the one the playhead is on and the one
/// after it in the chain.
#[derive(Debug, Clone, Copy, PartialEq, Eq, Structural)]
pub struct Conductor {
    pub current: Option<CueId>,
    pub next: Option<CueId>,
}

/// The conductor for a playhead: nothing while stopped or when the playing
/// cue is no longer in the chain; otherwise the playing cue and the first
/// independent cue after its first occurrence, if any (cues triggered with
/// another cue are skipped, as GO skips them).
pub open spec fn conductor_of(chain: Seq<Cue>, playhead: Playhead) -> Conductor {
    match playhead {
        Playhead::Playing(id) => if has_id(chain, id) {
            Conductor {
                current: Some(id),
                next: match independent_from(chain, first_index(chain, id) + 1) {
                    Some(j) => Some(chain[j].id),
                    None => None,
                },
            }
        } else {
            Conductor { current: None, next: None }
        },
        Playhead::Stopped => Conductor { current: None, next: None },
    }
}

/// The current and next cues shown by the conductor panel.
pub fn conductor(playhead: Playhead, cuelist: &Cuelist) -> (c: Conductor)
    ensures
        c == conductor_of(cuelist@, playhead),
{
    match playhead {
        Playhead::Stopped => Conductor { current: None, next: None },
        Playhead::Playing(id) => match cuelist.iter_after(id) {
            Some(rest) => {
                let ghost chain = cuelist@;
                let ghost from = first_index(chain, id) + 1;
                proof {
                    lemma_first_index(chain, id);
                }
                let next = match first_independent(&rest) {
                    Some(j) => {
                        proof {
                            assert forall|m: int| from <= m < from + j implies !is_independent(
                                #[trigger] chain[m],
                            ) by {
                                assert(*rest@[m - from] == chain[m]);
                            }
                            assert(*rest@[j as int] == chain[from + j]);
                            lemma_next_independent_unique(chain, from, from + j);
                        }
                        Some(rest[j].id)
                    },
                    None => {
                        proof {
                            if exists|k: int| is_next_independent(chain, from, k) {
                                let k = choose|k: int| is_next_independent(chain, from, k);
                                assert(*rest@[k - from] == chain[k]);
                            }
                        }
                        None
                    },
                };
                Conductor { current: Some(id), next }
            },
            None => Conductor { current: None, next: None },
        },
    }
}

/// While a cue plays, the next cue the conductor shows is the cue that GO
/// fires.
pub proof fn lemma_next_shown_is_next_fired(chain: Seq<Cue>, id: CueId)
    ensures
        conductor_of(chain, Playhead::Playing(id)).next == match next_cue(
            chain,
            Playhead::Playing(id),
        ) {
            Some(c) => Some(c.id),
            None => None::<CueId>,
        },
{
}

/// A cue state that the media panel lists: playing or standing by.
pub open spec fn is_running_state(s: CueExecutionState) -> bool {
    s.status == PlaybackStatus::Playing || s.status == PlaybackStatus::Standby
}

/// The cues listed by the media panel: each cue of the chain whose recorded
/// state is running, once (in no stated order).
pub fn running_cues(state: &ExecutionState, cuelist: &Cuelist) -> (ids: Vec<CueId>)
    ensures
        forall|i: int|
            0 <= i < ids@.len() ==> {
                let k = #[trigger] ids@[i];
                &&& cue_state_entries(state.cue_execution_state).contains_key(k.0)
                &&& is_running_state(cue_state_entries(state.cue_execution_state)[k.0])
                &&& has_id(cuelist@, k)
            },
        forall|k: CueId|
            cue_state_entries(state.cue_execution_state).contains_key(k.0) && is_running_state(
                cue_state_entries(state.cue_execution_state)[k.0],
            ) && has_id(cuelist@, k) ==> ids@.contains(k),
        ids@.no_duplicates(),
{
    let items = cue_state_items(&state.cue_execution_state);
    let ghost entries = cue_state_entries(state.cue_execution_state);
    let ghost keys = items@.map_values(|p: (u128, CueExecutionState)| p.0);
    let mut ids: Vec<CueId> = Vec::new();
    let mut i: usize = 0;
    while i < items.len()
        invariant
            i <= items@.len(),
            entries == cue_state_entries(state.cue_execution_state),
            keys == items@.map_values(|p: (u128, CueExecutionState)| p.0),
            keys.no_duplicates(),
            forall|j: int|
                0 <= j < items@.len() ==> entries.contains_key(#[trigger] items@[j].0)
                    && entries[items@[j].0] == items@[j].1,
            forall|j: int|
                0 <= j < ids@.len() ==> {
                    let k = #[trigger] ids@[j];
                    &&& entries.contains_key(k.0)
                    &&& is_running_state(entries[k.0])
                    &&& has_id(cuelist@, k)
                    &&& exists|m: int| 0 <= m < i && #[trigger] items@[m].0 == k.0
                },
            forall|m: int|
                0 <= m < i && is_running_state(#[trigger] items@[m].1) && has_id(
                    cuelist@,
                    CueId(items@[m].0),
                ) ==> ids@.contains(CueId(items@[m].0)),
            ids@.no_duplicates(),
        decreases items@.len() - i,
    {
        let ghost old_ids = ids@;
        let (key, cue_state) = items[i];
        let id = CueId(key);
        let running = match cue_state.status {
            PlaybackStatus::Playing | PlaybackStatus::Standby => true,
            _ => false,
        };
        if running && cuelist.position_of(id).is_some() {
            proof {
                assert forall|j: int| 0 <= j < ids@.len() implies ids@[j] != id by {
                    let m = choose|m: int| 0 <= m < i && #[trigger] items@[m].0 == ids@[j].0;
                    assert(keys[m] == items@[m].0);
                    assert(keys[i as int] == items@[i as int].0);
                }
            }
            ids.push(id);
        }
        proof {
            assert forall|m: int|
                0 <= m < i + 1 && is_running_state(#[trigger] items@[m].1) && has_id(
                    cuelist@,
                    CueId(items@[m].0),
                ) implies ids@.contains(CueId(items@[m].0)) by {
                if m == i {
                    assert(ids@[ids@.len() - 1] == id);
                } else {
                    assert(old_ids.contains(CueId(items@[m].0)));
                    let j = choose|j: int| 0 <= j < old_ids.len() && old_ids[j] == CueId(items@[m].0);
                    assert(ids@[j] == old_ids[j]);
                }
            }
        }
        i = i + 1;
    }
    proof {
        assert forall|k: CueId|
            entries.contains_key(k.0) && is_running_state(entries[k.0]) && has_id(cuelist@, k)
                implies ids@.contains(k) by {
            let m = choose|m: int| 0 <= m < items@.len() && #[trigger] items@[m].0 == k.0;
            assert(CueId(items@[m].0) == k);
        }
    }
    ids
}

// ─── Cue row colours ────────────────────────────────────────────────────

/// The status colours of the theme that the cue rows use.
#[derive(Debug, Clone, Copy, PartialEq, Eq, Structural)]
pub enum StatusTone {
    Error,
    Group,
    Running,
    Playhead,
    Standby,
}

/// The background of a cue row.
#[derive(Debug, Clone, Copy, PartialEq, Eq, Structural)]
pub enum RowBackground {
    /// The faint running tint.
    RunningTint,
    /// The selection colour.
    Selection,
    /// The raised surface of odd rows.
    Raised,
    /// The plain surface of even rows.
    Surface,
}

/// How a cue row is coloured.
#[derive(Debug, Clone, Copy, PartialEq, Eq, Structural)]
pub struct RowStyle {
    /// The row's background.
    pub background: RowBackground,
    /// The colour of the stripe along the row's left edge, if any.
    pub left_stripe: Option<StatusTone>,
    /// The colour of the play marker in the playhead column, if any.
    pub playhead_marker: Option<StatusTone>,
    /// Whether the cue number is drawn in the running colour.
    pub number_running: bool,
}

/// The status colour that stands for a cue colour (none for an uncoloured
/// cue).
pub open spec fn color_tone_of(color: CueColor) -> Option<StatusTone> {
    match color {
        CueColor::NoColor => None,
        CueColor::Red => Some(StatusTone::Error),
        CueColor::Orange => Some(StatusTone::Group),
        CueColor::Green => Some(StatusTone::Running),
        CueColor::Blue => Some(StatusTone::Playhead),
        CueColor::Purple => Some(StatusTone::Standby),
    }
}

/// The colouring of a cue row: a running cue is tinted, else a selected one
/// shows the selection, else rows alternate by position; the left stripe
/// takes the cue's colour, else the standby colour for a cue on standby,
/// else the group colour for a group; a cue on standby or running shows a
/// play marker in its status colour; the number of a running cue is drawn
/// in the running colour.
pub open spec fn row_style_of(
    status: PlaybackStatus,
    selected: bool,
    position: usize,
    kind: CueKind,
    color: CueColor,
) -> RowStyle {
    let running = status == PlaybackStatus::Playing;
    let standby = status == PlaybackStatus::Standby;
    RowStyle {
        background: if running {
            RowBackground::RunningTint
        } else if selected {
            RowBackground::Selection
        } else if position % 2 == 1 {
            RowBackground::Raised
        } else {
            RowBackground::Surface
        },
        left_stripe: if color_tone_of(color).is_some() {
            color_tone_of(color)
        } else if standby {
            Some(StatusTone::Standby)
        } else if kind is Group {
            Some(StatusTone::Group)
        } else {
            None
        },
        playhead_marker: if standby {
            Some(StatusTone::Standby)
        } else if running {
            Some(StatusTone::Running)
        } else {
            None
        },
        number_running: running,
    }
}

/// The status colour of a cue colour.
pub fn color_tone(color: CueColor) -> (tone: Option<StatusTone>)
    ensures
        tone == color_tone_of(color),
{
    match color {
        CueColor::NoColor => None,
        CueColor::Red => Some(StatusTone::Error),
        CueColor::Orange => Some(StatusTone::Group),
        CueColor::Green => Some(StatusTone::Running),
        CueColor::Blue => Some(StatusTone::Playhead),
        CueColor::Purple => Some(StatusTone::Standby),
    }
}

/// The colouring of the row of a cue in the cue table (`position` counts
/// the rows from 1).
pub fn cue_row_style(
    status: PlaybackStatus,
    selected: bool,
    position: usize,
    kind: &CueKind,
    color: CueColor,
) -> (style: RowStyle)
    ensures
        style == row_style_of(status, selected, position, *kind, color),
{
    let running = match status {
        PlaybackStatus::Playing => true,
        _ => false,
    };
    let standby = match status {
        PlaybackStatus::Standby => true,
        _ => false,
    };
    let is_group = match kind {
        CueKind::Group => true,
        _ => false,
    };
    let background = if running {
        RowBackground::RunningTint
    } else if selected {
        RowBackground::Selection
    } else if position % 2 == 1 {
        RowBackground::Raised
    } else {
        RowBackground::Surface
    };
    let tone = color_tone(color);
    let left_stripe = if tone.is_some() {
        tone
    } else if standby {
        Some(StatusTone::Standby)
    } else if is_group {
        Some(StatusTone::Group)
    } else {
        None
    };
    let playhead_marker = if standby {
        Some(StatusTone::Standby)
    } else if running {
        Some(StatusTone::Running)
    } else {
        None
    };
    RowStyle { background, left_stripe, playhead_marker, number_running: running }
}

// ─── Laws of the views ──────────────────────────────────────────────────

/// The settings tabs always start with the general tab; the audio tab is
/// offered exactly for an audio cue and the OSC tab exactly for an OSC cue;
/// any other selection offers the general tab alone.
pub proof fn lemma_tabs_follow_the_cue_kind(selected: Option<CueKind>)
    ensures
        tabs_for(selected).len() >= 1,
        tabs_for(selected)[0] == DetailTab::General,
        tabs_for(selected).contains(DetailTab::Audio) <==> (selected is Some && selected->0 is Audio),
        tabs_for(selected).contains(DetailTab::Osc) <==> (selected is Some && selected->0 is Osc),
        !(selected is Some && (selected->0 is Audio || selected->0 is Osc)) ==> tabs_for(selected)
            == seq![DetailTab::General],
{
    let t = tabs_for(selected);
    if selected is Some && selected->0 is Audio {
        assert(t[1] == DetailTab::Audio);
        assert(forall|i: int| 0 <= i < t.len() ==> t[i] != DetailTab::Osc);
    } else if selected is Some && selected->0 is Osc {
        assert(t[1] == DetailTab::Osc);
        assert(forall|i: int| 0 <= i < t.len() ==> t[i] != DetailTab::Audio);
    } else {
        assert(forall|i: int| 0 <= i < t.len() ==> t[i] == DetailTab::General);
    }
}

/// Each cue colour is drawn in the status colour of the same hue: red as
/// the error colour, orange as the group colour, green as the running
/// colour, blue as the playhead colour, purple as the standby colour; an
/// uncoloured cue has none.
pub proof fn lemma_colour_tones()
    ensures
        color_tone_of(CueColor::Red) == Some(StatusTone::Error),
        color_tone_of(CueColor::Orange) == Some(StatusTone::Group),
        color_tone_of(CueColor::Green) == Some(StatusTone::Running),
        color_tone_of(CueColor::Blue) == Some(StatusTone::Playhead),
        color_tone_of(CueColor::Purple) == Some(StatusTone::Standby),
        color_tone_of(CueColor::NoColor) == None::<StatusTone>,
{
}

/// A coloured cue's row carries the stripe of its colour's hue, whatever
/// its status, kind, selection or position.
pub proof fn lemma_coloured_rows_show_their_hue(
    status: PlaybackStatus,
    selected: bool,
    position: usize,
    kind: CueKind,
)
    ensures
        row_style_of(status, selected, position, kind, CueColor::Red).left_stripe == Some(
            StatusTone::Error,
        ),
        row_style_of(status, selected, position, kind, CueColor::Orange).left_stripe == Some(
            StatusTone::Group,
        ),
        row_style_of(status, selected, position, kind, CueColor::Green).left_stripe == Some(
            StatusTone::Running,
        ),
        row_style_of(status, selected, position, kind, CueColor::Blue).left_stripe == Some(
            StatusTone::Playhead,
        ),
        row_style_of(status, selected, position, kind, CueColor::Purple).left_stripe == Some(
            StatusTone::Standby,
        ),
{
}

/// The index of a side panel's pane in the row of visible panes
/// `[left, main, right]`: the left pane comes first; the right pane comes
/// after the main pane, which follows the left pane when that is shown.
pub open spec fn side_pane_index(flags: PanelFlags, which: PanelLocation) -> usize {
    match which {
        PanelLocation::Left => 0,
        _ => if flags.left {
            2
        } else {
            1
        },
    }
}

/// The initial sizes go to the panes they belong to: a remembered width of
/// a visible side panel is paired with that panel's index in the row, each
/// independently of the other panel's width, and nothing else is sized.
pub proof fn lemma_sizes_go_to_their_panes(flags: PanelFlags, sizes: PanelSizes)
    ensures
        forall|w: ScalarBits|
            #![trigger horizontal_sizes_of(flags, sizes).contains((0usize, w))]
            horizontal_sizes_of(flags, sizes).contains((0usize, w)) <==> (flags.left && sizes.left
                == Some(w)),
        forall|w: ScalarBits|
            #![trigger horizontal_sizes_of(flags, sizes).contains((side_pane_index(flags, PanelLocation::Right), w))]
            horizontal_sizes_of(flags, sizes).contains(
                (side_pane_index(flags, PanelLocation::Right), w),
            ) <==> (flags.right && sizes.right == Some(w)),
        forall|i: int|
            0 <= i < horizontal_sizes_of(flags, sizes).len() ==> {
                let (pane, w) = #[trigger] horizontal_sizes_of(flags, sizes)[i];
                ||| pane == 0 && flags.left && sizes.left == Some(w)
                ||| pane == side_pane_index(flags, PanelLocation::Right) && flags.right
                    && sizes.right == Some(w)
            },
{
    let r = horizontal_sizes_of(flags, sizes);
    let ri = side_pane_index(flags, PanelLocation::Right);
    assert forall|w: ScalarBits| r.contains((0usize, w)) <==> (flags.left && sizes.left == Some(w)) by {
        if flags.left && sizes.left == Some(w) {
            assert(r[0] == (0usize, w));
        }
        if r.contains((0usize, w)) {
            let i = choose|i: int| 0 <= i < r.len() && r[i] == (0usize, w);
            assert(r[i] == (0usize, w));
        }
    }
    assert forall|w: ScalarBits| r.contains((ri, w)) <==> (flags.right && sizes.right == Some(w)) by {
        if flags.right && sizes.right == Some(w) {
            assert(r[r.len() - 1] == (ri, w));
        }
        if r.contains((ri, w)) {
            let i = choose|i: int| 0 <= i < r.len() && r[i] == (ri, w);
            assert(r[i] == (ri, w));
        }
    }
}

} // verus!
