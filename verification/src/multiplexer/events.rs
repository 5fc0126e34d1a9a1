//! Neutral events that backends publish.

use vstd::prelude::*;
use vstd::string::*;

verus! {

/// How many events the bus holds for a slow subscriber.
pub const EVENT_BUS_CAPACITY: usize = 256;

/// Activity of an agent.
#[derive(Debug, Clone, Copy, PartialEq, Eq, Structural)]
pub enum AgentStatus {
    Idle,
    Working,
    Blocked,
    Done,
    Unknown,
}

/// An agent's status changed.
#[derive(Debug, Clone, PartialEq, Eq)]
pub struct AgentStatusChanged {
    /// The pane that the agent runs in.
    pub pane: u32,
    pub workspace_id: String,
    pub workspace_name: Option<String>,
    pub status: AgentStatus,
    pub title: Option<String>,
    /// Observed after the fact, by asking, rather than pushed.
    pub synthetic: bool,
}

/// What an [`AgentStatusChanged`] is mathematically.
pub struct StatusChange {
    pub pane: u32,
    pub workspace_id: Seq<char>,
    pub workspace_name: Option<Seq<char>>,
    pub status: AgentStatus,
    pub title: Option<Seq<char>>,
    pub synthetic: bool,
}

/// An optional text, mathematically.
pub open spec fn opt_view(o: Option<String>) -> Option<Seq<char>> {
    match o {
        Some(t) => Some(t@),
        None => None,
    }
}

impl View for AgentStatusChanged {
    type V = StatusChange;

    open spec fn view(&self) -> StatusChange {
        StatusChange {
            pane: self.pane,
            workspace_id: self.workspace_id@,
            workspace_name: opt_view(self.workspace_name),
            status: self.status,
            title: opt_view(self.title),
            synthetic: self.synthetic,
        }
    }
}

/// The layout of a tab changed.
#[derive(Debug, Clone, PartialEq, Eq)]
pub struct LayoutChanged {
    pub workspace_id: String,
    pub tab: u64,
}

/// An event on the bus.
#[derive(Debug, Clone, PartialEq, Eq)]
pub enum MuxEvent {
    AgentStatusChanged(AgentStatusChanged),
    LayoutChanged(LayoutChanged),
}

// ----------------------------------------------------------------------- laws

/// What happened is all there in what is said of it: two status changes of which the same
/// is said agree in every part, and an absent text is told from an empty one.
pub proof fn law_nothing_of_a_status_change_is_left_unsaid(
    a: AgentStatusChanged,
    b: AgentStatusChanged,
    o: Option<String>,
)
    ensures
        a@ == b@ ==> a.pane == b.pane && a.workspace_id@ == b.workspace_id@ && a.status == b.status
            && a.synthetic == b.synthetic && (a.workspace_name is Some <==> b.workspace_name is Some)
            && (a.title is Some <==> b.title is Some) && (a.workspace_name matches Some(x) ==> (
        b.workspace_name matches Some(y) && x@ == y@)) && (a.title matches Some(x) ==> (
        b.title matches Some(y) && x@ == y@)),
        opt_view(o) is Some <==> o is Some,
        o matches Some(t) ==> opt_view(o) == Some(t@),
{
}

/// A slow subscriber may fall this far behind on the bus.
pub proof fn law_the_room_on_the_bus()
    ensures
        EVENT_BUS_CAPACITY == 256,
{
}

} // verus!
