//! The terminal relay: which pane an attach lands on, the handshake, and moving a
//! stream to another pane.
//!
//! herdr streams one pane per connection. Moving to another pane therefore releases
//! the old connection and opens a fresh one: re-pointing a connection would leave
//! the old pane locked at this client's size. While the connection is swapped, the
//! reader's end of stream is not the end of the relay; it waits for the new
//! connection, but only for as long as a swap is under way and never longer than
//! [`SWAP_GRACE_SECS`].

use vstd::prelude::*;
use vstd::string::*;

use super::api::{opt_text, text_field, ApiRequest, HerdrServerInfo, PaneInfo, PaneZoomMode};
use super::codec::Wire;
use super::control::{request_id, unknown_pane_text, HerdrControl, Outgoing};
use super::json::ParamModel;
use super::layout::{info_of, listed_keys, pane_in, refs, register_listed, register_seq, values};
use super::query::LayoutQuery;
use super::registry::{
    pane_entry, pane_id_of, tab_entry, tab_id_of, with_pane, with_tab, HerdrPaneRegistry,
    HerdrTabRegistry, PaneKey,
};
use super::wire::{
    after_frame, frame_meaning, read_server_message, AttachScrollDirection,
    AttachScrollSource, ClientMessage, FrameRead, FramingError, RenderEncoding, ServerMessage,
    WireFrame, HERDR_MAX_TESTED_PROTOCOL, HERDR_MIN_PROTOCOL,
};
use super::wire_format::ServerMessageModel;
use crate::multiplexer::types::{
    ActionAck, MuxMouseKind, MuxServerMsg, MuxStreamEvent, PaneRef, ResumeTarget, ResumedView,
};
use crate::multiplexer::DualHandle;
use crate::seqs::{
    first_index, first_where, last_index, last_where, lemma_filter_step, lemma_first_index,
    lemma_last_index_step,
};
use crate::text::{decimal, decimal_text, text_eq};

verus! {

/// Bound on each handshake operation and each write, in seconds.
pub const WIRE_TIMEOUT_SECS: u64 = 3;

/// Cell size that turns graphics negotiation off.
pub const CELL_PX_DISABLED: u32 = 0;

/// How often a swap tries to connect before it gives up. The old terminal is
/// already released by then, so one transient failure must not end the stream.
pub const RECONNECT_ATTEMPTS: u64 = 2;

/// Allowance for one connect, in seconds.
pub const CONNECT_SLACK_SECS: u64 = 1;

/// Allowance on top of all attempts, in seconds.
pub const SWAP_SLACK_SECS: u64 = 1;

/// How long the reader waits for a swap that is under way, in seconds.
pub const SWAP_GRACE_SECS: u64 = RECONNECT_ATTEMPTS * (3 * WIRE_TIMEOUT_SECS + CONNECT_SLACK_SECS)
    + SWAP_SLACK_SECS;

/// The grace outlasts the slowest swap: every attempt may spend its connect
/// allowance and three bounded operations.
pub proof fn law_the_grace_covers_the_slowest_swap()
    ensures
        SWAP_GRACE_SECS >= RECONNECT_ATTEMPTS * (3 * WIRE_TIMEOUT_SECS + CONNECT_SLACK_SECS),
        SWAP_GRACE_SECS > 3 * WIRE_TIMEOUT_SECS,
{
    assert(SWAP_GRACE_SECS == 21);
}

// ------------------------------------------------------------- choosing a pane

/// Whether a pane has the focus.
pub open spec fn has_focus() -> spec_fn(PaneInfo) -> bool {
    |p: PaneInfo| p.focused
}

/// The pane with the focus (the last listed one, if several claim it), else the
/// first one.
pub open spec fn focused_or_first_of(panes: Seq<PaneInfo>) -> Option<PaneInfo> {
    match last_where(panes, has_focus()) {
        Some(p) => Some(p),
        None => if panes.len() > 0 {
            Some(panes[0])
        } else {
            None
        },
    }
}

/// The pane with the focus, else the first one.
pub fn focused_or_first<'a>(panes: &Vec<&'a PaneInfo>) -> (r: Option<&'a PaneInfo>)
    ensures
        match r {
            Some(p) => focused_or_first_of(values(panes@)) == Some(*p),
            None => focused_or_first_of(values(panes@)) is None,
        },
        r is None <==> panes@.len() == 0,
{
    let n: usize = panes.len();
    let mut found: Option<&'a PaneInfo> = None;
    let mut i: usize = 0;
    proof {
        assert(values(panes@).take(0) =~= Seq::empty());
    }
    while i < n
        invariant
            i <= n,
            n == panes@.len(),
            match found {
                Some(p) => 0 <= last_index(values(panes@).take(i as int), has_focus()) < i && *p
                    == values(panes@)[last_index(values(panes@).take(i as int), has_focus())],
                None => last_index(values(panes@).take(i as int), has_focus()) < 0,
            },
        decreases n - i,
    {
        proof {
            lemma_last_index_step(values(panes@), has_focus(), i as int);
            assert(values(panes@)[i as int] == *panes@[i as int]);
        }
        if panes[i].focused {
            found = Some(panes[i]);
        }
        i = i + 1;
    }
    proof {
        assert(values(panes@).take(n as int) =~= values(panes@));
    }
    match found {
        Some(p) => Some(p),
        None => if n > 0 {
            Some(panes[0])
        } else {
            None
        },
    }
}

/// The panes of `tab`.
fn panes_of_tab<'a>(panes: &'a Vec<PaneInfo>, tab: &str) -> (r: Vec<&'a PaneInfo>)
    ensures
        values(r@) == panes@.filter(pane_in(tab@)),
{
    let mut r: Vec<&'a PaneInfo> = Vec::new();
    let n: usize = panes.len();
    let mut i: usize = 0;
    proof {
        reveal(Seq::filter);
        assert(panes@.take(0) =~= Seq::empty());
        assert(values(r@) =~= panes@.take(0).filter(pane_in(tab@)));
    }
    while i < n
        invariant
            i <= n,
            n == panes@.len(),
            values(r@) == panes@.take(i as int).filter(pane_in(tab@)),
        decreases n - i,
    {
        proof {
            lemma_filter_step(panes@, pane_in(tab@), i as int);
        }
        if text_eq(panes[i].tab_id.as_str(), tab) {
            let ghost known = values(r@);
            r.push(&panes[i]);
            proof {
                assert(values(r@) =~= known.push(panes@[i as int]));
            }
        }
        i = i + 1;
    }
    proof {
        assert(panes@.take(n as int) =~= panes@);
    }
    r
}

/// The first record of `pane`.
fn first_record<'a>(panes: &'a Vec<PaneInfo>, pane: &str) -> (r: Option<&'a PaneInfo>)
    ensures
        match r {
            Some(p) => first_where(panes@, info_of(pane@)) == Some(*p),
            None => first_where(panes@, info_of(pane@)) is None,
        },
{
    let n: usize = panes.len();
    let mut i: usize = 0;
    while i < n
        invariant
            i <= n,
            n == panes@.len(),
            forall|j: int| 0 <= j < i ==> !info_of(pane@)(#[trigger] panes@[j]),
        decreases n - i,
    {
        if text_eq(panes[i].pane_id.as_str(), pane) {
            proof {
                lemma_first_index(panes@, info_of(pane@), i as int);
            }
            return Some(&panes[i]);
        }
        i = i + 1;
    }
    proof {
        lemma_first_index(panes@, info_of(pane@), n as int);
    }
    None
}

/// What is said of a workspace without panes.
pub open spec fn no_panes_text(ws: Seq<char>) -> Seq<char> {
    "herdr workspace '"@ + ws + "' has no panes to attach"@
}

/// What is said of a tab without panes.
pub open spec fn no_tab_panes_text(tab: Seq<char>, ws: Seq<char>) -> Seq<char> {
    "herdr tab '"@ + tab + "' (ws '"@ + ws + "') has no panes to attach"@
}

fn no_panes(ws: &str) -> (t: String)
    ensures
        t@ == no_panes_text(ws@),
{
    let mut t = "herdr workspace '".to_owned();
    t.append(ws);
    t.append("' has no panes to attach");
    t
}

/// The registry after a pane list was read: every pane of it is registered, on
/// whatever tab it is.
pub open spec fn after_listing(reg: Seq<PaneKey>, panes: Seq<PaneInfo>) -> Seq<PaneKey> {
    register_seq(reg, listed_keys(panes))
}

fn register_list(panes: &Vec<PaneInfo>, reg: &mut HerdrPaneRegistry)
    requires
        old(reg).wf(),
    ensures
        final(reg).wf(),
        final(reg)@ == after_listing(old(reg)@, panes@),
{
    let all = refs(panes);
    register_listed(&all, reg);
}

fn held_id(reg: &HerdrPaneRegistry, pane: &str) -> (id: u32)
    requires
        reg.wf(),
    ensures
        id == pane_id_of(reg@, pane@),
{
    match reg.id_for_herdr_pane(pane) {
        Some(n) => n,
        None => 0,
    }
}

/// Whether a result is the id and attach key of the chosen pane.
pub open spec fn chose(
    r: Result<(u32, String), String>,
    pane: Option<PaneInfo>,
    reg: Seq<PaneKey>,
    otherwise: Seq<char>,
) -> bool {
    match pane {
        Some(p) => r matches Ok(c) && c.0 == pane_id_of(reg, p.pane_id@) && c.1@ == p.terminal_id@,
        None => r matches Err(t) && t@ == otherwise,
    }
}

/// Picks the focused pane of a workspace, else its first one, and registers all of
/// its panes.
pub fn resolve_focused_terminal(
    panes: &Vec<PaneInfo>,
    reg: &mut HerdrPaneRegistry,
    workspace_id: &str,
) -> (r: Result<(u32, String), String>)
    requires
        old(reg).wf(),
    ensures
        final(reg).wf(),
        final(reg)@ == after_listing(old(reg)@, panes@),
        chose(r, focused_or_first_of(panes@), final(reg)@, no_panes_text(workspace_id@)),
{
    register_list(panes, reg);
    let all = refs(panes);
    match focused_or_first(&all) {
        Some(p) => Ok((held_id(reg, p.pane_id.as_str()), p.terminal_id.clone())),
        None => Err(no_panes(workspace_id)),
    }
}

/// Picks the focused pane of a tab, else its first one, and registers all panes of
/// the workspace, so that panes on other tabs can be focused later.
pub fn pick_tab_pane(
    panes: &Vec<PaneInfo>,
    reg: &mut HerdrPaneRegistry,
    workspace_id: &str,
    herdr_tab_id: &str,
) -> (r: Result<(u32, String), String>)
    requires
        old(reg).wf(),
    ensures
        final(reg).wf(),
        final(reg)@ == after_listing(old(reg)@, panes@),
        chose(
            r,
            focused_or_first_of(panes@.filter(pane_in(herdr_tab_id@))),
            final(reg)@,
            no_tab_panes_text(herdr_tab_id@, workspace_id@),
        ),
{
    register_list(panes, reg);
    let of_tab = panes_of_tab(panes, herdr_tab_id);
    match focused_or_first(&of_tab) {
        Some(p) => Ok((held_id(reg, p.pane_id.as_str()), p.terminal_id.clone())),
        None => {
            let mut t = "herdr tab '".to_owned();
            t.append(herdr_tab_id);
            t.append("' (ws '");
            t.append(workspace_id);
            t.append("') has no panes to attach");
            Err(t)
        },
    }
}

// --------------------------------------------------------- resuming an attach

/// The pane that an attach lands on.
#[derive(Debug, Clone, PartialEq, Eq)]
pub struct AttachTarget {
    /// herdr's workspace.
    pub workspace_id: String,
    /// Id of the pane's tab.
    pub tab_id: u64,
    /// Id of the pane.
    pub pane_id: u32,
    /// Attach key.
    pub terminal_id: String,
}

/// An optional text, mathematically.
pub open spec fn hint(o: Option<&str>) -> Option<Seq<char>> {
    match o {
        Some(t) => Some(t@),
        None => None,
    }
}

/// The pane that a resumed attach lands on within one workspace: the hinted pane if
/// it is still there, else the hinted tab's focused or first pane, else the
/// workspace's. A stale hint falls through; only a workspace without panes has none.
pub open spec fn resume_choice(
    panes: Seq<PaneInfo>,
    hint_pane: Option<Seq<char>>,
    hint_tab: Option<Seq<char>>,
) -> Option<PaneInfo> {
    let by_pane = match hint_pane {
        Some(p) => first_where(panes, info_of(p)),
        None => None,
    };
    let by_tab = match hint_tab {
        Some(t) => focused_or_first_of(panes.filter(pane_in(t))),
        None => None,
    };
    if by_pane is Some {
        by_pane
    } else if by_tab is Some {
        by_tab
    } else {
        focused_or_first_of(panes)
    }
}

/// Whether an attach lands on `pane` of workspace `ws`.
pub open spec fn lands_on(
    t: AttachTarget,
    ws: Seq<char>,
    pane: PaneInfo,
    pane_reg: Seq<PaneKey>,
    tab_reg: Seq<Seq<char>>,
) -> bool {
    &&& t.workspace_id@ == ws
    &&& t.tab_id == tab_id_of(tab_reg, pane.tab_id@)
    &&& t.pane_id == pane_id_of(pane_reg, pane.pane_id@)
    &&& t.terminal_id@ == pane.terminal_id@
}

/// The pane registry after an attach landed on one of the listed panes.
pub open spec fn panes_after_landing(
    reg: Seq<PaneKey>,
    panes: Seq<PaneInfo>,
    pane: Option<PaneInfo>,
) -> Seq<PaneKey> {
    match pane {
        Some(p) => with_pane(after_listing(reg, panes), p.pane_id@, p.terminal_id@),
        None => after_listing(reg, panes),
    }
}

/// The tab registry after an attach landed on a pane.
pub open spec fn tabs_after_landing(reg: Seq<Seq<char>>, pane: Option<PaneInfo>) -> Seq<Seq<char>> {
    match pane {
        Some(p) => with_tab(reg, p.tab_id@),
        None => reg,
    }
}

/// Picks the pane of a workspace that a resumed attach lands on, and registers all
/// of its panes.
pub fn pick_resume_pane(
    panes: &Vec<PaneInfo>,
    pane_reg: &mut HerdrPaneRegistry,
    tab_reg: &mut HerdrTabRegistry,
    workspace_id: &str,
    hint_pane: Option<&str>,
    hint_tab: Option<&str>,
) -> (r: Result<AttachTarget, String>)
    requires
        old(pane_reg).wf(),
        old(tab_reg).wf(),
    ensures
        final(pane_reg).wf(),
        final(tab_reg).wf(),
        final(pane_reg)@ == panes_after_landing(
            old(pane_reg)@,
            panes@,
            resume_choice(panes@, hint(hint_pane), hint(hint_tab)),
        ),
        final(tab_reg)@ == tabs_after_landing(
            old(tab_reg)@,
            resume_choice(panes@, hint(hint_pane), hint(hint_tab)),
        ),
        r is Ok <==> panes@.len() > 0,
        match resume_choice(panes@, hint(hint_pane), hint(hint_tab)) {
            Some(p) => r matches Ok(t) && lands_on(
                t,
                workspace_id@,
                p,
                final(pane_reg)@,
                final(tab_reg)@,
            ),
            None => r matches Err(t) && t@ == no_panes_text(workspace_id@),
        },
{
    register_list(panes, pane_reg);
    let by_pane = match hint_pane {
        Some(p) => first_record(panes, p),
        None => None,
    };
    let of_tab = match hint_tab {
        Some(t) => panes_of_tab(panes, t),
        None => {
            let none: Vec<&PaneInfo> = Vec::new();
            none
        },
    };
    let by_tab = match hint_tab {
        Some(_) => focused_or_first(&of_tab),
        None => None,
    };
    let all = refs(panes);
    let by_workspace = focused_or_first(&all);
    let chosen = match by_pane {
        Some(p) => Some(p),
        None => match by_tab {
            Some(p) => Some(p),
            None => by_workspace,
        },
    };
    proof {
        if let Some(name) = hint_pane {
            crate::seqs::lemma_first_index_meaning(panes@, info_of(name@));
        }
        if let Some(name) = hint_tab {
            crate::seqs::lemma_filter_meaning(panes@, pane_in(name@));
            if panes@.len() == 0 {
                reveal(Seq::filter);
                assert(panes@.filter(pane_in(name@)).len() == 0);
            }
        }
    }
    match chosen {
        Some(p) => {
            proof {
                super::registry::lemma_with_tab(tab_reg@, p.tab_id@);
            }
            let tab_id: u64 = tab_reg.assign_or_get(p.tab_id.as_str());
            let _id: u32 = pane_reg.assign_or_get(p.pane_id.as_str(), p.terminal_id.as_str());
            Ok(
                AttachTarget {
                    workspace_id: workspace_id.to_owned(),
                    tab_id,
                    pane_id: held_id(pane_reg, p.pane_id.as_str()),
                    terminal_id: p.terminal_id.clone(),
                },
            )
        },
        None => Err(no_panes(workspace_id)),
    }
}

/// Translates the numeric hints of a resume target. Nothing is registered: an id
/// that was handed out by an earlier process means nothing here and is dropped,
/// rather than taken for whatever pane has that number now.
pub fn hint_ids(
    pane_reg: &HerdrPaneRegistry,
    tab_reg: &HerdrTabRegistry,
    resume: &ResumeTarget,
) -> (r: (Option<String>, Option<String>))
    ensures
        match resume.pane_id {
            Some(id) => match pane_entry(pane_reg@, id) {
                Some(k) => r.0 matches Some(p) && p@ == k.pane_id,
                None => r.0 is None,
            },
            None => r.0 is None,
        },
        match resume.tab_id {
            Some(id) => match tab_entry(tab_reg@, id) {
                Some(tab) => r.1 matches Some(t) && t@ == tab,
                None => r.1 is None,
            },
            None => r.1 is None,
        },
{
    let pane = match resume.pane_id {
        Some(id) => pane_reg.herdr_pane_id(id),
        None => None,
    };
    let tab = match resume.tab_id {
        Some(id) => tab_reg.herdr_tab_id(id),
        None => None,
    };
    (pane, tab)
}

/// Whether `r` is what an attempt in workspace `ws` comes to when its pane list is
/// `list`: the landing, or why there is none. The registries go from `before` to
/// `after`.
pub open spec fn attempt(
    r: Result<AttachTarget, String>,
    ws: Seq<char>,
    list: Result<Vec<PaneInfo>, String>,
    hint_pane: Option<Seq<char>>,
    hint_tab: Option<Seq<char>>,
    before: (Seq<PaneKey>, Seq<Seq<char>>),
    after: (Seq<PaneKey>, Seq<Seq<char>>),
) -> bool {
    match list {
        Err(e) => after == before && (r matches Err(t) && t@ == e@),
        Ok(panes) => {
            let choice = resume_choice(panes@, hint_pane, hint_tab);
            &&& after.0 == panes_after_landing(before.0, panes@, choice)
            &&& after.1 == tabs_after_landing(before.1, choice)
            &&& r is Ok <==> panes@.len() > 0
            &&& match choice {
                Some(p) => r matches Ok(t) && lands_on(t, ws, p, after.0, after.1),
                None => r matches Err(t) && t@ == no_panes_text(ws),
            }
        },
    }
}

/// The workspace that is tried before the default one: the hinted one, unless it is
/// the default one.
pub open spec fn tried_first(default: Seq<char>, space: Option<Seq<char>>) -> Option<Seq<char>> {
    match space {
        Some(s) => if s == default {
            None
        } else {
            Some(s)
        },
        None => None,
    }
}

/// A search for the pane that a fresh attach lands on. It waits for the panes of one
/// workspace.
#[derive(Debug)]
pub struct AttachSearch {
    default_workspace: String,
    /// The hinted workspace, while it is the one in question.
    hinted: Option<String>,
    hint_pane: Option<String>,
    hint_tab: Option<String>,
}

/// What an [`AttachSearch`] is mathematically.
#[verifier::ext_equal]
pub struct Search {
    pub default: Seq<char>,
    /// The hinted workspace, while it is the one in question.
    pub hinted: Option<Seq<char>>,
    pub hint_pane: Option<Seq<char>>,
    pub hint_tab: Option<Seq<char>>,
}

impl Search {
    /// The workspace whose panes the search waits for.
    pub open spec fn asked(&self) -> Seq<char> {
        match self.hinted {
            Some(space) => space,
            None => self.default,
        }
    }
}

impl View for AttachSearch {
    type V = Search;

    closed spec fn view(&self) -> Search {
        Search {
            default: self.default_workspace@,
            hinted: opt_text(self.hinted),
            hint_pane: opt_text(self.hint_pane),
            hint_tab: opt_text(self.hint_tab),
        }
    }
}

/// A search that has not listed anything yet: it waits for the hinted workspace, unless
/// there is none or it is the default one.
pub open spec fn search_begun(
    default: Seq<char>,
    hint_space: Option<Seq<char>>,
    hint_pane: Option<Seq<char>>,
    hint_tab: Option<Seq<char>>,
) -> Search {
    Search { default, hinted: tried_first(default, hint_space), hint_pane, hint_tab }
}

/// Whether an attach can land in a workspace with this pane list.
pub open spec fn usable(list: Result<Vec<PaneInfo>, String>) -> bool {
    list matches Ok(panes) && panes@.len() > 0
}

/// What comes next in a search.
#[derive(Debug)]
pub enum AttachStep {
    /// List the panes of this search's workspace, for [`AttachSearch::listed`].
    Ask(AttachSearch),
    /// The search is over.
    Finished(Result<AttachTarget, String>),
}

/// What follows a pane list. An unusable hinted workspace leads to the default one, with
/// the registries as they were; everything else ends the search.
pub open spec fn search_goes_on(
    step: AttachStep,
    search: Search,
    list: Result<Vec<PaneInfo>, String>,
    before: (Seq<PaneKey>, Seq<Seq<char>>),
    after: (Seq<PaneKey>, Seq<Seq<char>>),
) -> bool {
    if search.hinted is Some && !usable(list) {
        &&& step matches AttachStep::Ask(next) && next@ == (Search { hinted: None, ..search })
        &&& after == before
    } else {
        step matches AttachStep::Finished(r) && attempt(
            r,
            search.asked(),
            list,
            search.hint_pane,
            search.hint_tab,
            before,
            after,
        )
    }
}

fn owned(o: Option<&str>) -> (r: Option<String>)
    ensures
        opt_text(r) == hint(o),
{
    match o {
        Some(t) => Some(t.to_owned()),
        None => None,
    }
}

fn borrowed<'a>(o: &'a Option<String>) -> (r: Option<&'a str>)
    ensures
        hint(r) == opt_text(*o),
{
    match o {
        Some(t) => Some(t.as_str()),
        None => None,
    }
}

impl AttachSearch {
    /// Begins a search.
    pub fn begin(
        default_workspace: &str,
        hint_space: Option<&str>,
        hint_pane: Option<&str>,
        hint_tab: Option<&str>,
    ) -> (s: Self)
        ensures
            s@ == search_begun(
                default_workspace@,
                hint(hint_space),
                hint(hint_pane),
                hint(hint_tab),
            ),
    {
        let hinted = match hint_space {
            Some(space) => if text_eq(space, default_workspace) {
                None
            } else {
                Some(space.to_owned())
            },
            None => None,
        };
        AttachSearch {
            default_workspace: default_workspace.to_owned(),
            hinted,
            hint_pane: owned(hint_pane),
            hint_tab: owned(hint_tab),
        }
    }

    /// The workspace whose panes are to be listed.
    pub fn workspace(&self) -> (ws: &str)
        ensures
            ws@ == self@.asked(),
    {
        match &self.hinted {
            Some(space) => space.as_str(),
            None => self.default_workspace.as_str(),
        }
    }

    /// Takes the panes of that workspace, or why they could not be listed.
    pub fn listed(
        self,
        list: Result<Vec<PaneInfo>, String>,
        pane_reg: &mut HerdrPaneRegistry,
        tab_reg: &mut HerdrTabRegistry,
    ) -> (step: AttachStep)
        requires
            old(pane_reg).wf(),
            old(tab_reg).wf(),
        ensures
            final(pane_reg).wf(),
            final(tab_reg).wf(),
            search_goes_on(
                step,
                self@,
                list,
                (old(pane_reg)@, old(tab_reg)@),
                (final(pane_reg)@, final(tab_reg)@),
            ),
    {
        match list {
            Ok(panes) => {
                if self.hinted.is_some() && panes.len() == 0 {
                    return AttachStep::Ask(AttachSearch { hinted: None, ..self });
                }
                AttachStep::Finished(
                    pick_resume_pane(
                        &panes,
                        pane_reg,
                        tab_reg,
                        self.workspace(),
                        borrowed(&self.hint_pane),
                        borrowed(&self.hint_tab),
                    ),
                )
            },
            Err(e) => {
                if self.hinted.is_some() {
                    AttachStep::Ask(AttachSearch { hinted: None, ..self })
                } else {
                    AttachStep::Finished(Err(e))
                }
            },
        }
    }
}

/// Whether `list_panes` can have given this list for workspace `ws`.
pub open spec fn listed_by<F: Fn(&str) -> Result<Vec<PaneInfo>, String>>(
    list_panes: F,
    ws: Seq<char>,
    list: Result<Vec<PaneInfo>, String>,
) -> bool {
    exists|name: &str| name@ == ws && #[trigger] call_ensures(list_panes, (name,), list)
}

/// Whether a search comes to `r`: the hinted workspace decides where it is usable, and
/// the default one elsewhere.
pub open spec fn resolved<F: Fn(&str) -> Result<Vec<PaneInfo>, String>>(
    list_panes: F,
    default: Seq<char>,
    hint_space: Option<Seq<char>>,
    hint_pane: Option<Seq<char>>,
    hint_tab: Option<Seq<char>>,
    r: Result<AttachTarget, String>,
    before: (Seq<PaneKey>, Seq<Seq<char>>),
    after: (Seq<PaneKey>, Seq<Seq<char>>),
) -> bool {
    match tried_first(default, hint_space) {
        Some(space) => exists|list: Result<Vec<PaneInfo>, String>|
            {
                &&& #[trigger] listed_by(list_panes, space, list)
                &&& if usable(list) {
                    attempt(r, space, list, hint_pane, hint_tab, before, after)
                } else {
                    exists|second: Result<Vec<PaneInfo>, String>| #[trigger]
                        listed_by(list_panes, default, second) && attempt(
                            r,
                            default,
                            second,
                            hint_pane,
                            hint_tab,
                            before,
                            after,
                        )
                }
            },
        None => exists|list: Result<Vec<PaneInfo>, String>| #[trigger]
            listed_by(list_panes, default, list) && attempt(
                r,
                default,
                list,
                hint_pane,
                hint_tab,
                before,
                after,
            ),
    }
}

/// Resolves the pane that a fresh attach lands on, by running an [`AttachSearch`]. The
/// hinted workspace is tried first; if its panes cannot be listed, or it has none, the
/// default workspace is tried, where the pane and tab hints still count. Only the default
/// workspace can fail the attach: no hint can.
pub fn resolve_attach_target_with<F: Fn(&str) -> Result<Vec<PaneInfo>, String>>(
    list_panes: F,
    pane_reg: &mut HerdrPaneRegistry,
    tab_reg: &mut HerdrTabRegistry,
    default_workspace: &str,
    hint_space: Option<&str>,
    hint_pane: Option<&str>,
    hint_tab: Option<&str>,
) -> (r: Result<AttachTarget, String>)
    requires
        old(pane_reg).wf(),
        old(tab_reg).wf(),
        forall|ws: &str| #[trigger] call_requires(list_panes, (ws,)),
    ensures
        final(pane_reg).wf(),
        final(tab_reg).wf(),
        exists|run: Seq<PaneListing>|
            {
                &&& #[trigger] is_search(
                    search_begun(
                        default_workspace@,
                        hint(hint_space),
                        hint(hint_pane),
                        hint(hint_tab),
                    ),
                    run,
                )
                &&& forall|i: int|
                    0 <= i < run.len() ==> listed_by(
                        list_panes,
                        (#[trigger] run[i]).search.asked(),
                        run[i].list,
                    )
                &&& run[0].before == (old(pane_reg)@, old(tab_reg)@)
                &&& run.last().after == (final(pane_reg)@, final(tab_reg)@)
                &&& run.last().step == AttachStep::Finished(r)
            },
        resolved(
            list_panes,
            default_workspace@,
            hint(hint_space),
            hint(hint_pane),
            hint(hint_tab),
            r,
            (old(pane_reg)@, old(tab_reg)@),
            (final(pane_reg)@, final(tab_reg)@),
        ),
{
    let mut search = AttachSearch::begin(default_workspace, hint_space, hint_pane, hint_tab);
    let ghost mut run: Seq<PaneListing> = Seq::empty();
    let ghost begun = search@;
    loop
        invariant
            pane_reg.wf(),
            tab_reg.wf(),
            forall|ws: &str| #[trigger] call_requires(list_panes, (ws,)),
            begun == search_begun(
                default_workspace@,
                hint(hint_space),
                hint(hint_pane),
                hint(hint_tab),
            ),
            is_part_of_search(begun, run, search@, (pane_reg@, tab_reg@)),
            run.len() == 0 ==> (pane_reg@, tab_reg@) == (old(pane_reg)@, old(tab_reg)@),
            run.len() > 0 ==> run[0].before == (old(pane_reg)@, old(tab_reg)@),
            forall|i: int|
                0 <= i < run.len() ==> listed_by(
                    list_panes,
                    (#[trigger] run[i]).search.asked(),
                    run[i].list,
                ),
        decreases
                if search@.hinted is Some {
                    1int
                } else {
                    0int
                },
    {
        let ghost state = search@;
        let ghost before = (pane_reg@, tab_reg@);
        let name = search.workspace();
        let list = list_panes(name);
        proof {
            assert(call_ensures(list_panes, (name,), list));
            assert(listed_by(list_panes, state.asked(), list));
        }
        let ghost given = list;
        let step = search.listed(list, pane_reg, tab_reg);
        let ghost earlier = run;
        proof {
            run = run.push(
                PaneListing {
                    search: state,
                    list: given,
                    before,
                    after: (pane_reg@, tab_reg@),
                    step,
                },
            );
            assert(forall|i: int| 0 <= i < earlier.len() ==> run[i] == earlier[i]);
            assert forall|i: int| 0 <= i < run.len() - 1 implies (#[trigger] run[i]).leads_to(
                run[i + 1].search,
                run[i + 1].before,
            ) by {
                assert(run[i] == earlier[i]);
            }
        }
        match step {
            AttachStep::Ask(next) => {
                search = next;
            },
            AttachStep::Finished(r) => {
                proof {
                    assert(run.last().is_one());
                    assert(is_search(begun, run));
                    law_each_workspace_is_listed_at_most_once(
                        default_workspace@,
                        hint(hint_space),
                        hint(hint_pane),
                        hint(hint_tab),
                        run,
                    );
                    assert(listed_by(list_panes, run[0].search.asked(), run[0].list));
                    assert(listed_by(list_panes, run.last().search.asked(), run.last().list));
                }
                return r;
            },
        }
    }
}

/// One listing of a search: what was asked, the pane list, the registries before and
/// after it, and what comes next.
pub struct PaneListing {
    pub search: Search,
    pub list: Result<Vec<PaneInfo>, String>,
    pub before: (Seq<PaneKey>, Seq<Seq<char>>),
    pub after: (Seq<PaneKey>, Seq<Seq<char>>),
    pub step: AttachStep,
}

impl PaneListing {
    /// The listing goes as the search says.
    pub open spec fn is_one(&self) -> bool {
        search_goes_on(self.step, self.search, self.list, self.before, self.after)
    }

    /// The listing leads on to a search in this state.
    pub open spec fn leads_to(
        &self,
        next: Search,
        registries: (Seq<PaneKey>, Seq<Seq<char>>),
    ) -> bool {
        self.step matches AttachStep::Ask(s) && s@ == next && self.after == registries
    }
}

/// The listings of a search that began in state `begun` and stands at `now`.
pub open spec fn is_part_of_search(
    begun: Search,
    run: Seq<PaneListing>,
    now: Search,
    registries: (Seq<PaneKey>, Seq<Seq<char>>),
) -> bool {
    &&& run.len() == 0 ==> now == begun
    &&& run.len() > 0 ==> run[0].search == begun && run.last().leads_to(now, registries)
    &&& forall|i: int| 0 <= i < run.len() ==> (#[trigger] run[i]).is_one()
    &&& forall|i: int|
        0 <= i < run.len() - 1 ==> (#[trigger] run[i]).leads_to(run[i + 1].search, run[i + 1].before)
}

/// The listings of a whole search that began in state `begun`.
pub open spec fn is_search(begun: Search, run: Seq<PaneListing>) -> bool {
    &&& run.len() > 0
    &&& run[0].search == begun
    &&& forall|i: int| 0 <= i < run.len() ==> (#[trigger] run[i]).is_one()
    &&& forall|i: int|
        0 <= i < run.len() - 1 ==> (#[trigger] run[i]).leads_to(run[i + 1].search, run[i + 1].before)
    &&& run.last().step is Finished
}

/// Each workspace is listed at most once, and in order. A search lists the hinted
/// workspace first, and the default one only if there is no other hint or the hinted one
/// is unusable; nothing is listed after that. It comes to what the last list gives, in the
/// registries that the search began with, and fails exactly if that list is unusable and
/// the default workspace's: no pane or tab hint decides it.
pub proof fn law_each_workspace_is_listed_at_most_once(
    default: Seq<char>,
    hint_space: Option<Seq<char>>,
    hint_pane: Option<Seq<char>>,
    hint_tab: Option<Seq<char>>,
    run: Seq<PaneListing>,
)
    requires
        is_search(search_begun(default, hint_space, hint_pane, hint_tab), run),
    ensures
        match tried_first(default, hint_space) {
            Some(space) => {
                &&& space != default
                &&& run[0].search.asked() == space
                &&& run.len() == if usable(run[0].list) {
                    1int
                } else {
                    2
                }
                &&& run.len() == 2 ==> run[1].search.asked() == default
            },
            None => run.len() == 1 && run[0].search.asked() == default,
        },
        run.last().step matches AttachStep::Finished(r) && attempt(
            r,
            run.last().search.asked(),
            run.last().list,
            hint_pane,
            hint_tab,
            run[0].before,
            run.last().after,
        ) && (r is Err <==> run.last().search.asked() == default && !usable(run.last().list)),
{
    assert(run[0].is_one());
    if run.len() > 1 {
        assert(run[0].leads_to(run[1].search, run[1].before));
        assert(run[1].is_one());
        if run.len() > 2 {
            assert(run[1].leads_to(run[2].search, run[2].before));
        }
    }
    assert(run.last().is_one());
}

/// Without hints an attach lands where it always has: on the focused pane of the
/// workspace, else its first.
pub proof fn law_no_hints_land_on_the_focused_pane(panes: Seq<PaneInfo>)
    ensures
        resume_choice(panes, None, None) == focused_or_first_of(panes),
{
}

/// No hint can fail an attach: in a workspace with panes, every combination of
/// hints, stale or not, lands on one of its panes.
pub proof fn law_no_hint_fails_an_attach(
    panes: Seq<PaneInfo>,
    hint_pane: Option<Seq<char>>,
    hint_tab: Option<Seq<char>>,
)
    requires
        panes.len() > 0,
    ensures
        resume_choice(panes, hint_pane, hint_tab) matches Some(p) && panes.contains(p),
{
    lemma_choice_is_listed(panes);
    if let Some(name) = hint_pane {
        crate::seqs::lemma_first_index_meaning(panes, info_of(name));
        if first_index(panes, info_of(name)) < panes.len() {
            assert(panes.contains(panes[first_index(panes, info_of(name))]));
        }
    }
    if let Some(name) = hint_tab {
        let of_tab = panes.filter(pane_in(name));
        crate::seqs::lemma_filter_meaning(panes, pane_in(name));
        if of_tab.len() > 0 {
            lemma_choice_is_listed(of_tab);
        } else {
            crate::seqs::lemma_last_index_meaning(of_tab, has_focus());
        }
    }
}

proof fn lemma_choice_is_listed(panes: Seq<PaneInfo>)
    requires
        panes.len() > 0,
    ensures
        focused_or_first_of(panes) matches Some(p) && panes.contains(p),
{
    crate::seqs::lemma_last_index_meaning(panes, has_focus());
    let k = last_index(panes, has_focus());
    if k >= 0 {
        assert(panes.contains(panes[k]));
    } else {
        assert(panes.contains(panes[0]));
    }
}

/// A pane hint that is still in the workspace beats the tab hint and the focus.
pub proof fn law_a_live_pane_hint_wins(
    panes: Seq<PaneInfo>,
    pane: PaneInfo,
    hint_tab: Option<Seq<char>>,
)
    requires
        panes.contains(pane),
    ensures
        resume_choice(panes, Some(pane.pane_id@), hint_tab) matches Some(p) && p.pane_id@
            == pane.pane_id@,
{
    let named = info_of(pane.pane_id@);
    crate::seqs::lemma_first_index_meaning(panes, named);
    let i = panes.index_of(pane);
    assert(named(panes[i]));
}

// ----------------------------------------------------------------- handshake

/// How a server's protocol relates to the ones this layout is known for. A
/// diagnostic: whatever it is, the attach goes ahead.
#[derive(Debug, Clone, Copy, PartialEq, Eq, Structural)]
pub enum ProtocolNote {
    Older,
    Known,
    Newer,
}

/// The protocol version to send in the handshake: the one that the server itself
/// reports, whichever it is.
pub fn discover_protocol(info: &HerdrServerInfo) -> (r: (u32, ProtocolNote))
    ensures
        r.0 == info.protocol,
        r.1 == (if info.protocol < HERDR_MIN_PROTOCOL {
            ProtocolNote::Older
        } else if info.protocol > HERDR_MAX_TESTED_PROTOCOL {
            ProtocolNote::Newer
        } else {
            ProtocolNote::Known
        }),
{
    let note = if info.protocol < HERDR_MIN_PROTOCOL {
        ProtocolNote::Older
    } else if info.protocol > HERDR_MAX_TESTED_PROTOCOL {
        ProtocolNote::Newer
    } else {
        ProtocolNote::Known
    };
    (info.protocol, note)
}

/// The messages of one connection's handshake: the hello, and the attach that
/// follows once the welcome was accepted.
#[derive(Debug)]
pub struct Handshake {
    pub hello: ClientMessage,
    pub attach: ClientMessage,
}

/// The handshake that attaches `terminal_id` at this size.
pub fn handshake(rows: u16, cols: u16, terminal_id: &str, protocol: u32) -> (h: Handshake)
    ensures
        h.hello == (ClientMessage::TerminalHello {
            version: protocol,
            cols,
            rows,
            cell_width_px: CELL_PX_DISABLED,
            cell_height_px: CELL_PX_DISABLED,
            pixel_mouse: false,
        }),
        h.attach matches ClientMessage::AttachTerminal { terminal_id: t, takeover } && t@
            == terminal_id@ && takeover,
{
    Handshake {
        hello: ClientMessage::TerminalHello {
            version: protocol,
            cols,
            rows,
            cell_width_px: CELL_PX_DISABLED,
            cell_height_px: CELL_PX_DISABLED,
            pixel_mouse: false,
        },
        attach: ClientMessage::AttachTerminal {
            terminal_id: terminal_id.to_owned(),
            takeover: true,
        },
    }
}

/// What the server's first message leads to.
pub open spec fn welcomed(msg: ServerMessage, r: Result<bool, String>) -> bool {
    match msg {
        ServerMessage::Welcome { encoding, error, .. } => match error {
            Some(e) => r matches Err(t) && t@ == "herdr rejected the handshake: "@ + e@,
            None => r == Ok::<bool, String>(encoding == RenderEncoding::TerminalAnsi),
        },
        _ => r matches Err(t) && t@
            == "herdr handshake: expected Welcome, got a different message first"@,
    }
}

/// Accepts the server's first message: it must be a welcome without an error. The
/// version in it does not matter: herdr itself checks versions and reports a
/// mismatch as the error. The result says whether the encoding is the expected one,
/// which is worth a warning but no refusal.
pub fn assert_welcome(msg: &ServerMessage) -> (r: Result<bool, String>)
    ensures
        welcomed(*msg, r),
{
    match msg {
        ServerMessage::Welcome { encoding, error, .. } => match error {
            Some(e) => Err("herdr rejected the handshake: ".to_owned().concat(e.as_str())),
            None => Ok(*encoding == RenderEncoding::TerminalAnsi),
        },
        _ => Err("herdr handshake: expected Welcome, got a different message first".to_owned()),
    }
}

/// Accepts the frame that answers the hello.
pub fn welcome_reply(frame: &Result<WireFrame, FramingError>) -> (r: Result<bool, String>)
    ensures
        match frame {
            Err(e) => r matches Err(t) && t@ == "read herdr Welcome: "@ + e.text(),
            Ok(WireFrame::Unknown { tag, .. }) => r matches Err(t) && t@
                == "herdr handshake: expected Welcome, got an unknown frame (tag "@ + decimal(
                *tag as nat,
            ) + ") — the server's wire layout is not one muxrd can interpret"@,
            Ok(WireFrame::Message(m)) => welcomed(**m, r),
        },
{
    match frame {
        Err(e) => Err("read herdr Welcome: ".to_owned().concat(e.message().as_str())),
        Ok(WireFrame::Unknown { tag, .. }) => {
            let mut t = "herdr handshake: expected Welcome, got an unknown frame (tag ".to_owned();
            t.append(decimal_text(*tag as u64).as_str());
            t.append(") — the server's wire layout is not one muxrd can interpret");
            Err(t)
        },
        Ok(WireFrame::Message(m)) => assert_welcome(m),
    }
}

// ---------------------------------------------------------- the sending half

/// The sending half of an attach: what it is attached to, and at which size.
#[derive(Debug)]
pub struct HerdrMuxSender {
    /// Workspace that this attach shows.
    pub workspace_id: String,
    /// Terminal that the stream is attached to.
    pub current_terminal_id: String,
    /// Whether the connection is being swapped.
    pub swap_pending: bool,
    /// Rows of the client.
    pub rows: u16,
    /// Columns of the client.
    pub cols: u16,
    /// Protocol version of the current connection.
    pub protocol: u32,
}

/// The receiving half of an attach.
#[derive(Debug)]
pub struct HerdrMuxReceiver {
    /// How long it waits for a swap under way, in seconds.
    pub grace_secs: u64,
}

/// Puts an attach together once its connection stands. The resolved view is reported
/// only to a client that asked to resume.
pub fn open_attach(
    target: AttachTarget,
    protocol: u32,
    session_name: String,
    rows: u16,
    cols: u16,
    resume: &ResumeTarget,
) -> (h: DualHandle<HerdrMuxSender, HerdrMuxReceiver>)
    ensures
        h.sender.workspace_id@ == target.workspace_id@,
        h.sender.current_terminal_id@ == target.terminal_id@,
        !h.sender.swap_pending,
        h.sender.rows == rows,
        h.sender.cols == cols,
        h.sender.protocol == protocol,
        h.receiver.grace_secs == SWAP_GRACE_SECS,
        h.session_name == session_name,
        h.resumed_view is None <==> resume.gives_nothing(),
        h.resumed_view matches Some(v) ==> v.space_id@ == target.workspace_id@ && v.tab_id
            == target.tab_id && v.pane == (PaneRef { id: target.pane_id, is_plugin: false }),
{
    let resumed_view = if resume.is_empty() {
        None
    } else {
        Some(
            ResumedView {
                space_id: target.workspace_id.clone(),
                tab_id: target.tab_id,
                pane: PaneRef::terminal(target.pane_id),
            },
        )
    };
    DualHandle {
        sender: HerdrMuxSender {
            workspace_id: target.workspace_id,
            current_terminal_id: target.terminal_id,
            swap_pending: false,
            rows,
            cols,
            protocol,
        },
        receiver: HerdrMuxReceiver { grace_secs: SWAP_GRACE_SECS },
        session_name,
        resumed_view,
    }
}

/// A swap to another terminal, under way.
#[derive(Debug)]
pub struct Reattach {
    /// Terminal that the stream moves to.
    pub terminal_id: String,
    /// Attempts that have failed.
    pub failed: u64,
}

/// What follows an attempt to connect.
#[derive(Debug, PartialEq, Eq)]
pub enum AttemptNext {
    /// The connection stands: hand its reading half to the reader.
    HandOver,
    /// Try once more.
    TryAgain,
    /// Tell the reader that no connection will come, and end with this error.
    GiveUp(String),
}

/// The sender before an attempt: it takes the protocol that was discovered, or keeps
/// the one it has.
pub open spec fn prepared(
    before: HerdrMuxSender,
    after: HerdrMuxSender,
    discovered: Option<u32>,
) -> bool {
    &&& after.protocol == match discovered {
        Some(p) => p,
        None => before.protocol,
    }
    &&& after.workspace_id == before.workspace_id
    &&& after.current_terminal_id == before.current_terminal_id
    &&& after.rows == before.rows
    &&& after.cols == before.cols
    &&& after.swap_pending == before.swap_pending
}

/// What an attempt leads to: success moves the attach to the new terminal; a failure
/// leaves it where it was, and the last one ends the swap.
pub open spec fn attempted(
    before: HerdrMuxSender,
    after: HerdrMuxSender,
    swap: Reattach,
    swap_after: Reattach,
    outcome: Result<(), String>,
    next: AttemptNext,
) -> bool {
    &&& swap_after.terminal_id == swap.terminal_id
    &&& after.workspace_id == before.workspace_id
    &&& after.rows == before.rows
    &&& after.cols == before.cols
    &&& after.protocol == before.protocol
    &&& match outcome {
        Ok(_) => {
            &&& next is HandOver
            &&& swap_after.failed == swap.failed
            &&& after.current_terminal_id@ == swap.terminal_id@
            &&& after.swap_pending == before.swap_pending
        },
        Err(e) => {
            &&& swap_after.failed == swap.failed + 1
            &&& after.current_terminal_id == before.current_terminal_id
            &&& if swap_after.failed < RECONNECT_ATTEMPTS {
                next is TryAgain && after.swap_pending == before.swap_pending
            } else {
                next == AttemptNext::GiveUp(e) && !after.swap_pending
            }
        },
    }
}

impl HerdrMuxSender {
    /// Whether `self` and `other` differ in nothing but the swap flag.
    pub open spec fn same_but_swap(&self, other: &HerdrMuxSender) -> bool {
        &&& self.workspace_id == other.workspace_id
        &&& self.current_terminal_id == other.current_terminal_id
        &&& self.rows == other.rows
        &&& self.cols == other.cols
        &&& self.protocol == other.protocol
    }

    /// Starts a swap to `terminal_id`. From here on the reader takes the end of its
    /// stream for a swap; the caller now sends the returned message on the old
    /// connection and shuts it down, whether or not either works.
    pub fn begin_reattach(&mut self, terminal_id: String) -> (r: (Reattach, ClientMessage))
        ensures
            final(self).swap_pending,
            final(self).same_but_swap(old(self)),
            r.0.terminal_id == terminal_id,
            r.0.failed == 0,
            r.1 is Detach,
    {
        self.swap_pending = true;
        (Reattach { terminal_id, failed: 0 }, ClientMessage::Detach)
    }

    /// The handshake of the next attempt. The server may have been replaced since, so
    /// the protocol is asked for again; if that fails, the one in use is tried.
    pub fn next_attempt(&mut self, swap: &Reattach, discovered: Option<u32>) -> (h: Handshake)
        ensures
            prepared(*old(self), *final(self), discovered),
            h.hello == (ClientMessage::TerminalHello {
                version: final(self).protocol,
                cols: old(self).cols,
                rows: old(self).rows,
                cell_width_px: CELL_PX_DISABLED,
                cell_height_px: CELL_PX_DISABLED,
                pixel_mouse: false,
            }),
            h.attach matches ClientMessage::AttachTerminal { terminal_id: t, takeover } && t@
                == swap.terminal_id@ && takeover,
    {
        if let Some(p) = discovered {
            self.protocol = p;
        }
        handshake(self.rows, self.cols, swap.terminal_id.as_str(), self.protocol)
    }

    /// Takes the outcome of an attempt. Success moves the attach to the new terminal;
    /// a failure leaves it where it was.
    pub fn attempt_done(&mut self, swap: &mut Reattach, outcome: Result<(), String>) -> (next:
        AttemptNext)
        requires
            old(swap).failed < RECONNECT_ATTEMPTS,
        ensures
            attempted(*old(self), *final(self), *old(swap), *final(swap), outcome, next),
    {
        match outcome {
            Ok(_) => {
                self.current_terminal_id = swap.terminal_id.clone();
                AttemptNext::HandOver
            },
            Err(e) => {
                swap.failed = swap.failed + 1;
                if swap.failed < RECONNECT_ATTEMPTS {
                    AttemptNext::TryAgain
                } else {
                    self.swap_pending = false;
                    AttemptNext::GiveUp(e)
                }
            },
        }
    }

    /// Ends a swap whose connection stands; `delivered` says whether the reader was
    /// still there to take it.
    pub fn handed_over(&mut self, delivered: bool) -> (r: Result<(), String>)
        ensures
            !final(self).swap_pending,
            final(self).same_but_swap(old(self)),
            r is Ok <==> delivered,
            r matches Err(t) ==> t@
                == "herdr reattach: relay reader gone, cannot adopt new connection"@,
    {
        self.swap_pending = false;
        if delivered {
            Ok(())
        } else {
            Err("herdr reattach: relay reader gone, cannot adopt new connection".to_owned())
        }
    }

    /// herdr's id of the tab to move to. The move itself lists the workspace's panes,
    /// picks the tab's pane with [`pick_tab_pane`] and swaps to it; herdr's own focus
    /// stays where it is.
    pub fn go_to_tab(&self, tabs: &HerdrTabRegistry, tab_id: u64) -> (r: Result<String, String>)
        ensures
            match tab_entry(tabs@, tab_id) {
                Some(tab) => r matches Ok(t) && t@ == tab,
                None => r matches Err(t) && t@ == "herdr go_to_tab: unknown tab id "@ + decimal(
                    tab_id as nat,
                ),
            },
    {
        match tabs.herdr_tab_id(tab_id) {
            Some(t) => Ok(t),
            None => Err(
                "herdr go_to_tab: unknown tab id ".to_owned().concat(
                    decimal_text(tab_id).as_str(),
                ),
            ),
        }
    }

    /// The terminal to swap to when a pane gets the focus.
    pub fn focus_pane(&self, panes: &HerdrPaneRegistry, pane: PaneRef) -> (r: Result<
        String,
        String,
    >)
        ensures
            match pane_entry(panes@, pane.id) {
                Some(key) => r matches Ok(t) && t@ == key.terminal_id,
                None => r matches Err(t) && t@ == "herdr focus_pane: unknown pane id "@ + decimal(
                    pane.id as nat,
                ),
            },
    {
        match panes.terminal_id(pane.id) {
            Some(t) => Ok(t),
            None => Err(
                "herdr focus_pane: unknown pane id ".to_owned().concat(
                    decimal_text(pane.id as u64).as_str(),
                ),
            ),
        }
    }

    /// Takes the outcome of the swap that a change of space asked for. Only a swap
    /// that worked makes the space the current one.
    pub fn switch_space(&mut self, space_id: &str, swapped: &Result<(), String>)
        ensures
            swapped is Ok ==> final(self).workspace_id@ == space_id@,
            swapped is Err ==> final(self).workspace_id == old(self).workspace_id,
            final(self).current_terminal_id == old(self).current_terminal_id,
            final(self).swap_pending == old(self).swap_pending,
            final(self).rows == old(self).rows,
            final(self).cols == old(self).cols,
            final(self).protocol == old(self).protocol,
    {
        if swapped.is_ok() {
            self.workspace_id = space_id.to_owned();
        }
    }

    /// Layouts are answered over the control socket, never in the stream.
    pub fn has_sync_layout(&self) -> (yes: bool)
        ensures
            yes,
    {
        true
    }

    /// Asks for the layout of the workspace that this attach shows.
    pub fn query_layout_result(&self, control: &mut HerdrControl) -> (r: (LayoutQuery, ApiRequest))
        ensures
            r.0.workspace_id@ == self.workspace_id@,
            r.0.phase is Snapshot,
            r.1.id@ == request_id(old(control).next_number()),
            r.1.asks("session.snapshot"@, Seq::<(Seq<char>, ParamModel)>::empty()),
            final(control).one_request_after(old(control)),
    {
        control.query_layout(self.workspace_id.as_str())
    }

    /// Zooms a pane, or ends that. herdr has no floating panes, so there is nothing else
    /// to it.
    pub fn toggle_fullscreen(&self, control: &mut HerdrControl, pane: PaneRef) -> (r: Outgoing)
        ensures
            match pane_entry(old(control).panes()@, pane.id) {
                Some(key) => r.sends(
                    request_id(old(control).next_number()),
                    "pane.zoom"@,
                    text_field("pane_id"@, key.pane_id) + text_field(
                        "mode"@,
                        PaneZoomMode::Toggle.wire_name(),
                    ),
                ) && final(control).one_request_after(old(control)),
                None => r.fails(unknown_pane_text(pane.id)) && *final(control) == *old(control),
            },
    {
        control.zoom_pane(Some(pane.id), PaneZoomMode::Toggle)
    }

    /// What came of it: a refusal by herdr is passed over, a failed exchange is not.
    pub fn fullscreen_toggled(&self, ack: Result<ActionAck, String>) -> (r: Result<(), String>)
        ensures
            match ack {
                Ok(_) => r is Ok,
                Err(e) => r == Err::<(), String>(e),
            },
    {
        match ack {
            Ok(_) => Ok(()),
            Err(e) => Err(e),
        }
    }

    /// Text input.
    pub fn send_input_chars(&self, text: &str) -> (m: ClientMessage)
        ensures
            m matches ClientMessage::Input { data } && data@ == vstd::utf8::encode_utf8(text@),
    {
        ClientMessage::Input { data: vstd::slice::slice_to_vec(text.as_bytes()) }
    }

    /// Raw input.
    pub fn send_input_bytes(&self, bytes: Vec<u8>) -> (m: ClientMessage)
        ensures
            m == (ClientMessage::Input { data: bytes }),
    {
        ClientMessage::Input { data: bytes }
    }

    /// A wheel movement of one line at a cell. In direct attach mode only the scroll
    /// message has an effect.
    pub fn send_mouse(&self, kind: MuxMouseKind, col: u16, row: u16) -> (m: ClientMessage)
        ensures
            m == (ClientMessage::AttachScroll {
                source: AttachScrollSource::Wheel,
                direction: match kind {
                    MuxMouseKind::WheelUp => AttachScrollDirection::Up,
                    MuxMouseKind::WheelDown => AttachScrollDirection::Down,
                },
                lines: 1,
                column: Some(col),
                row: Some(row),
                modifiers: 0,
            }),
    {
        let direction = match kind {
            MuxMouseKind::WheelUp => AttachScrollDirection::Up,
            MuxMouseKind::WheelDown => AttachScrollDirection::Down,
        };
        ClientMessage::AttachScroll {
            source: AttachScrollSource::Wheel,
            direction,
            lines: 1,
            column: Some(col),
            row: Some(row),
            modifiers: 0,
        }
    }

    /// A new size. It is remembered, so that the next handshake opens at it.
    pub fn send_resize(&mut self, rows: u16, cols: u16) -> (m: ClientMessage)
        ensures
            final(self).rows == rows,
            final(self).cols == cols,
            final(self).workspace_id == old(self).workspace_id,
            final(self).current_terminal_id == old(self).current_terminal_id,
            final(self).swap_pending == old(self).swap_pending,
            final(self).protocol == old(self).protocol,
            m == (ClientMessage::Resize {
                cols,
                rows,
                cell_width_px: CELL_PX_DISABLED,
                cell_height_px: CELL_PX_DISABLED,
                pixel_mouse: false,
            }),
    {
        self.rows = rows;
        self.cols = cols;
        ClientMessage::Resize {
            cols,
            rows,
            cell_width_px: CELL_PX_DISABLED,
            cell_height_px: CELL_PX_DISABLED,
            pixel_mouse: false,
        }
    }

    /// The last message of a connection; the caller then shuts it down itself, for
    /// herdr does not.
    pub fn send_client_exited(&self) -> (m: ClientMessage)
        ensures
            m is Detach,
    {
        ClientMessage::Detach
    }
}

// -------------------------------------------------------- the receiving half

/// What the channel that hands over connections holds.
#[derive(Debug, Clone, Copy, PartialEq, Eq, Structural)]
pub enum SwapPoll {
    /// A connection.
    Connection,
    /// Word that a swap failed for good.
    Failed,
    /// Nothing, and nothing will ever come.
    Closed,
    /// Nothing yet; a bounded wait that ends so has timed out.
    Empty,
}

/// What the reader does at the end of its stream.
#[derive(Debug, Clone, Copy, PartialEq, Eq, Structural)]
pub enum AdoptStep {
    /// Go on with the connection.
    Adopt,
    /// Wait for a connection, no longer than the grace.
    Wait,
    /// End the relay: the swap failed.
    EndFailed,
    /// End the relay: the swap took too long.
    EndTimedOut,
    /// End the relay: nothing is left to read.
    EndQuiet,
}

impl HerdrMuxReceiver {
    /// Decides at the end of the stream. A connection that has come is adopted. With
    /// none there, the reader waits only while a swap is under way: a plain
    /// disconnect ends the relay at once.
    pub fn try_adopt_swap(&self, polled: SwapPoll, swap_pending: bool) -> (step: AdoptStep)
        ensures
            step == (match polled {
                SwapPoll::Connection => AdoptStep::Adopt,
                SwapPoll::Failed => AdoptStep::EndFailed,
                SwapPoll::Closed => AdoptStep::EndQuiet,
                SwapPoll::Empty => if swap_pending {
                    AdoptStep::Wait
                } else {
                    AdoptStep::EndQuiet
                },
            }),
    {
        match polled {
            SwapPoll::Connection => AdoptStep::Adopt,
            SwapPoll::Failed => AdoptStep::EndFailed,
            SwapPoll::Closed => AdoptStep::EndQuiet,
            SwapPoll::Empty => if swap_pending {
                AdoptStep::Wait
            } else {
                AdoptStep::EndQuiet
            },
        }
    }

    /// Decides after a bounded wait.
    pub fn try_adopt_swap_within(&self, waited: SwapPoll) -> (step: AdoptStep)
        ensures
            step == (match waited {
                SwapPoll::Connection => AdoptStep::Adopt,
                SwapPoll::Failed => AdoptStep::EndFailed,
                SwapPoll::Closed => AdoptStep::EndQuiet,
                SwapPoll::Empty => AdoptStep::EndTimedOut,
            }),
    {
        match waited {
            SwapPoll::Connection => AdoptStep::Adopt,
            SwapPoll::Failed => AdoptStep::EndFailed,
            SwapPoll::Closed => AdoptStep::EndQuiet,
            SwapPoll::Empty => AdoptStep::EndTimedOut,
        }
    }
}

/// Whether `out` is what `msg` is to the rest of the daemon: terminal bytes as they
/// are, a shutdown as an exit, anything else drained.
pub open spec fn shows(out: MuxServerMsg, msg: ServerMessageModel) -> bool {
    match msg {
        ServerMessageModel::Terminal(f) => out matches MuxServerMsg::Render(b) && b@ == f.bytes,
        ServerMessageModel::ServerShutdown { reason } => out matches MuxServerMsg::Event(
            MuxStreamEvent::Exit { reason: t },
        ) && t@ == (match reason {
            Some(r) => r,
            None => Seq::<char>::empty(),
        }),
        _ => out is Other,
    }
}

/// What a server message is to the rest of the daemon.
pub fn map_server_message(msg: ServerMessage) -> (out: MuxServerMsg)
    ensures
        shows(out, msg.model()),
        msg matches ServerMessage::Terminal(f) ==> (out matches MuxServerMsg::Render(b) && b@
            == f.bytes@),
{
    match msg {
        ServerMessage::Terminal(f) => {
            proof {
                assert(f.bytes.model() =~= f.bytes@);
            }
            MuxServerMsg::Render(f.bytes)
        },
        ServerMessage::ServerShutdown { reason } => {
            let reason = match reason {
                Some(r) => r,
                None => String::new(),
            };
            MuxServerMsg::Event(MuxStreamEvent::Exit { reason })
        },
        _ => MuxServerMsg::Other,
    }
}

/// What a read of a frame gives the relay. A frame that is skipped is drained like any
/// message without effect: it must not end the relay. The end of the stream does, and
/// so does a frame that cannot be read.
pub fn received(frame: Result<WireFrame, FramingError>) -> (out: Option<MuxServerMsg>)
    ensures
        match frame {
            Ok(WireFrame::Message(m)) => out matches Some(x) && shows(x, (*m).model()),
            Ok(WireFrame::Unknown { .. }) => out == Some(MuxServerMsg::Other),
            Err(_) => out is None,
        },
{
    match frame {
        Ok(WireFrame::Message(msg)) => Some(map_server_message(*msg)),
        Ok(WireFrame::Unknown { .. }) => Some(MuxServerMsg::Other),
        Err(_) => None,
    }
}

/// Reads the next message off a stream; none ends the relay.
pub fn recv_from<'a>(reader: &mut &'a [u8]) -> (out: Option<MuxServerMsg>)
    ensures
        (*final(reader))@ == after_frame((*old(reader))@),
        match frame_meaning((*old(reader))@) {
            FrameRead::Message(m) => out matches Some(x) && shows(x, m),
            FrameRead::Unknown { .. } => out == Some(MuxServerMsg::Other),
            _ => out is None,
        },
{
    received(read_server_message(reader, |_payload: &[u8]| -> String { String::new() }))
}

/// One attempt of a swap, as it went.
pub struct Attempt {
    pub discovered: Option<u32>,
    pub ready: HerdrMuxSender,
    pub after: HerdrMuxSender,
    pub swap: Reattach,
    pub outcome: Result<(), String>,
    pub next: AttemptNext,
}

/// Whether attempts follow each other, from a sender that just began to swap.
pub open spec fn run_of(begun: HerdrMuxSender, swap: Reattach, run: Seq<Attempt>) -> bool {
    forall|i: int|
        0 <= i < run.len() ==> {
            let before = if i == 0 {
                begun
            } else {
                run[i - 1].after
            };
            let held = if i == 0 {
                swap
            } else {
                run[i - 1].swap
            };
            let a = #[trigger] run[i];
            &&& prepared(before, a.ready, a.discovered)
            &&& attempted(a.ready, a.after, held, a.swap, a.outcome, a.next)
        }
}

/// A sender is given up only after every attempt failed, and then it is as it was
/// before the swap, with its old target; an earlier failure only leads to the next
/// attempt.
pub proof fn law_a_swap_is_given_up_only_after_every_attempt(
    begun: HerdrMuxSender,
    swap: Reattach,
    run: Seq<Attempt>,
)
    requires
        swap.failed == 0,
        1 <= run.len() <= RECONNECT_ATTEMPTS,
        run_of(begun, swap, run),
        forall|i: int| 0 <= i < run.len() ==> (#[trigger] run[i]).outcome is Err,
    ensures
        run.last().swap.failed == run.len(),
        run.last().after.current_terminal_id == begun.current_terminal_id,
        run.last().after.rows == begun.rows,
        run.last().after.cols == begun.cols,
        run.len() < RECONNECT_ATTEMPTS ==> run.last().next is TryAgain
            && run.last().after.swap_pending == begun.swap_pending,
        run.len() == RECONNECT_ATTEMPTS ==> !run.last().after.swap_pending && run.last().next
            == AttemptNext::GiveUp(run.last().outcome->Err_0),
    decreases run.len(),
{
    let n = run.len();
    let a = run[n - 1];
    if n > 1 {
        let init = run.drop_last();
        assert forall|i: int| 0 <= i < init.len() implies (#[trigger] init[i]).outcome is Err by {
            assert(init[i] == run[i]);
        }
        assert(run_of(begun, swap, init)) by {
            assert forall|i: int| 0 <= i < init.len() implies {
                let before = if i == 0 {
                    begun
                } else {
                    init[i - 1].after
                };
                let held = if i == 0 {
                    swap
                } else {
                    init[i - 1].swap
                };
                let a = #[trigger] init[i];
                &&& prepared(before, a.ready, a.discovered)
                &&& attempted(a.ready, a.after, held, a.swap, a.outcome, a.next)
            } by {
                assert(init[i] == run[i]);
            }
        }
        law_a_swap_is_given_up_only_after_every_attempt(begun, swap, init);
        assert(init.last() == run[n - 2]);
    }
    assert(a.outcome is Err);
}

/// A swap that succeeds, at whatever attempt, ends at the new terminal.
pub proof fn law_a_successful_swap_ends_at_the_new_terminal(
    begun: HerdrMuxSender,
    swap: Reattach,
    run: Seq<Attempt>,
)
    requires
        run.len() >= 1,
        run_of(begun, swap, run),
        run.last().outcome is Ok,
    ensures
        run.last().next is HandOver,
        run.last().after.current_terminal_id@ == swap.terminal_id@,
{
    lemma_swap_keeps_its_target(begun, swap, run);
    assert(run[run.len() - 1].outcome is Ok);
}

proof fn lemma_swap_keeps_its_target(begun: HerdrMuxSender, swap: Reattach, run: Seq<Attempt>)
    requires
        run_of(begun, swap, run),
    ensures
        forall|i: int| 0 <= i < run.len() ==> (#[trigger] run[i]).swap.terminal_id@
            == swap.terminal_id@,
    decreases run.len(),
{
    if run.len() > 0 {
        let init = run.drop_last();
        assert(run_of(begun, swap, init)) by {
            assert forall|i: int| 0 <= i < init.len() implies {
                let before = if i == 0 {
                    begun
                } else {
                    init[i - 1].after
                };
                let held = if i == 0 {
                    swap
                } else {
                    init[i - 1].swap
                };
                let a = #[trigger] init[i];
                &&& prepared(before, a.ready, a.discovered)
                &&& attempted(a.ready, a.after, held, a.swap, a.outcome, a.next)
            } by {
                assert(init[i] == run[i]);
            }
        }
        lemma_swap_keeps_its_target(begun, swap, init);
        assert forall|i: int| 0 <= i < run.len() implies (#[trigger] run[i]).swap.terminal_id@
            == swap.terminal_id@ by {
            if i < init.len() {
                assert(init[i] == run[i]);
            } else if i > 0 {
                assert(init[i - 1] == run[i - 1]);
            }
        }
    }
}

} // verus!
