//! Backend-neutral values: what every multiplexer backend speaks to the rest of
//! the daemon.

use vstd::prelude::*;
use vstd::string::*;

verus! {

/// Outcome of a control action.
#[derive(Debug, Clone, PartialEq, Eq)]
pub struct ActionAck {
    pub ok: bool,
    pub error: Option<String>,
    pub info: Option<String>,
}

impl ActionAck {
    /// Whether the ack reports plain success.
    pub open spec fn is_success(&self) -> bool {
        self.ok && self.error is None && self.info is None
    }

    /// Whether the ack reports a failure with this message.
    pub open spec fn is_failure(&self, message: Seq<char>) -> bool {
        !self.ok && self.info is None && (self.error matches Some(e) && e@ == message)
    }
}

/// A pane as a client sees it.
#[derive(Debug, Clone, PartialEq, Eq)]
pub struct PaneSnapshot {
    pub id: u32,
    pub title: String,
    pub is_focused: bool,
    pub is_floating: bool,
    pub exited: bool,
    pub command: String,
    pub cwd: String,
    pub x: u32,
    pub y: u32,
    pub rows: u32,
    pub cols: u32,
    pub is_plugin: bool,
    pub is_fullscreen: bool,
}

/// What a [`PaneSnapshot`] is mathematically.
pub struct PaneSnapshotModel {
    pub id: u32,
    pub title: Seq<char>,
    pub is_focused: bool,
    pub is_floating: bool,
    pub exited: bool,
    pub command: Seq<char>,
    pub cwd: Seq<char>,
    pub x: u32,
    pub y: u32,
    pub rows: u32,
    pub cols: u32,
    pub is_plugin: bool,
    pub is_fullscreen: bool,
}

impl View for PaneSnapshot {
    type V = PaneSnapshotModel;

    open spec fn view(&self) -> PaneSnapshotModel {
        PaneSnapshotModel {
            id: self.id,
            title: self.title@,
            is_focused: self.is_focused,
            is_floating: self.is_floating,
            exited: self.exited,
            command: self.command@,
            cwd: self.cwd@,
            x: self.x,
            y: self.y,
            rows: self.rows,
            cols: self.cols,
            is_plugin: self.is_plugin,
            is_fullscreen: self.is_fullscreen,
        }
    }
}

/// A tab as a client sees it.
#[derive(Debug, Clone, PartialEq, Eq)]
pub struct TabSnapshot {
    pub tab_id: u64,
    pub position: u32,
    pub name: String,
    pub active: bool,
    pub has_bell: bool,
    pub panes_to_hide: u32,
    pub fullscreen_active: bool,
    pub floating_panes_visible: bool,
    pub panes: Vec<PaneSnapshot>,
}

/// What a [`TabSnapshot`] is mathematically.
pub struct TabSnapshotModel {
    pub tab_id: u64,
    pub position: u32,
    pub name: Seq<char>,
    pub active: bool,
    pub has_bell: bool,
    pub panes_to_hide: u32,
    pub fullscreen_active: bool,
    pub floating_panes_visible: bool,
    pub panes: Seq<PaneSnapshotModel>,
}

/// The views of a sequence of panes.
pub open spec fn pane_views(panes: Seq<PaneSnapshot>) -> Seq<PaneSnapshotModel> {
    panes.map_values(|p: PaneSnapshot| p@)
}

impl View for TabSnapshot {
    type V = TabSnapshotModel;

    open spec fn view(&self) -> TabSnapshotModel {
        TabSnapshotModel {
            tab_id: self.tab_id,
            position: self.position,
            name: self.name@,
            active: self.active,
            has_bell: self.has_bell,
            panes_to_hide: self.panes_to_hide,
            fullscreen_active: self.fullscreen_active,
            floating_panes_visible: self.floating_panes_visible,
            panes: pane_views(self.panes@),
        }
    }
}

/// A session's tabs and panes.
#[derive(Debug, Clone, PartialEq, Eq)]
pub struct LayoutSnapshot {
    pub tabs: Vec<TabSnapshot>,
}

/// The views of a sequence of tabs.
pub open spec fn tab_views(tabs: Seq<TabSnapshot>) -> Seq<TabSnapshotModel> {
    tabs.map_values(|t: TabSnapshot| t@)
}

impl View for LayoutSnapshot {
    type V = Seq<TabSnapshotModel>;

    open spec fn view(&self) -> Seq<TabSnapshotModel> {
        tab_views(self.tabs@)
    }
}

/// The space that a request named does not exist.
#[derive(Debug, Clone, PartialEq, Eq)]
pub struct UnknownSpace {
    pub space_id: String,
}

/// Address of a pane.
#[derive(Debug, Clone, Copy, PartialEq, Eq, Structural)]
pub struct PaneRef {
    pub id: u32,
    pub is_plugin: bool,
}

impl PaneRef {
    /// A terminal pane.
    pub fn terminal(id: u32) -> (p: PaneRef)
        ensures
            p == (PaneRef { id, is_plugin: false }),
    {
        PaneRef { id, is_plugin: false }
    }
}

/// Where a reconnecting client was. Every part is a hint.
#[derive(Debug, Clone, PartialEq, Eq)]
pub struct ResumeTarget {
    pub space_id: Option<String>,
    pub tab_id: Option<u64>,
    pub pane_id: Option<u32>,
}

impl ResumeTarget {
    /// Whether the client gave no hint at all.
    pub open spec fn gives_nothing(&self) -> bool {
        self.space_id is None && self.tab_id is None && self.pane_id is None
    }

    /// Whether the client gave no hint at all.
    pub fn is_empty(&self) -> (empty: bool)
        ensures
            empty == self.gives_nothing(),
    {
        self.space_id.is_none() && self.tab_id.is_none() && self.pane_id.is_none()
    }
}

/// The view that an attach landed on.
#[derive(Debug, Clone, PartialEq, Eq)]
pub struct ResumedView {
    pub space_id: String,
    pub tab_id: u64,
    pub pane: PaneRef,
}

/// Something that happened on the render stream besides output.
#[derive(Debug, Clone, PartialEq, Eq)]
pub enum MuxStreamEvent {
    /// The multiplexer is going away.
    Exit { reason: String },
}

/// One message of the render stream.
#[derive(Debug, Clone, PartialEq, Eq)]
pub enum MuxServerMsg {
    /// Bytes for the terminal.
    Render(Vec<u8>),
    /// An event.
    Event(MuxStreamEvent),
    /// Drained without effect.
    Other,
}

/// A wheel movement.
#[derive(Debug, Clone, Copy, PartialEq, Eq, Structural)]
pub enum MuxMouseKind {
    WheelUp,
    WheelDown,
}

// ----------------------------------------------------------------------- laws

/// A resume target is empty exactly if it has neither a space, nor a tab, nor a pane.
pub proof fn law_a_single_hint_is_a_hint(t: &ResumeTarget, empty: bool)
    requires
        call_ensures(ResumeTarget::is_empty, (t,), empty),
    ensures
        t.space_id is Some ==> !empty,
        t.tab_id is Some ==> !empty,
        t.pane_id is Some ==> !empty,
        !empty ==> t.space_id is Some || t.tab_id is Some || t.pane_id is Some,
{
}

/// The address of a terminal pane has its id and is no plugin's.
pub proof fn law_a_terminal_is_no_plugin(id: u32, p: PaneRef)
    requires
        call_ensures(PaneRef::terminal, (id,), p),
    ensures
        p.id == id,
        !p.is_plugin,
{
}

/// What a client sees of a pane and of a tab is all there in what is said of them: two
/// panes of which the same is said agree in every part, and so do two tabs.
pub proof fn law_nothing_of_a_snapshot_is_left_unsaid(
    a: PaneSnapshot,
    b: PaneSnapshot,
    s: TabSnapshot,
    t: TabSnapshot,
)
    ensures
        a@ == b@ ==> a.id == b.id && a.title@ == b.title@ && a.is_focused == b.is_focused
            && a.is_floating == b.is_floating && a.exited == b.exited && a.command@ == b.command@
            && a.cwd@ == b.cwd@ && a.x == b.x && a.y == b.y && a.rows == b.rows && a.cols == b.cols
            && a.is_plugin == b.is_plugin && a.is_fullscreen == b.is_fullscreen,
        s@ == t@ ==> s.tab_id == t.tab_id && s.position == t.position && s.name@ == t.name@
            && s.active == t.active && s.has_bell == t.has_bell && s.panes_to_hide
            == t.panes_to_hide && s.fullscreen_active == t.fullscreen_active
            && s.floating_panes_visible == t.floating_panes_visible && s.panes@.len()
            == t.panes@.len() && forall|i: int|
            0 <= i < s.panes@.len() ==> (#[trigger] s.panes@[i])@ == t.panes@[i]@,
{
    if s@ == t@ {
        assert(pane_views(s.panes@).len() == s.panes@.len());
        assert(pane_views(t.panes@).len() == t.panes@.len());
        assert forall|i: int| 0 <= i < s.panes@.len() implies (#[trigger] s.panes@[i])@
            == t.panes@[i]@ by {
            assert(pane_views(s.panes@)[i] == s.panes@[i]@);
            assert(pane_views(t.panes@)[i] == t.panes@[i]@);
        }
    }
}

} // verus!
