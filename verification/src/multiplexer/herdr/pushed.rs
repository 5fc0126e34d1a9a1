//! Lines of herdr's event streams: requests that open a subscription, the
//! acknowledgement, and pushed events.
//!
//! herdr's two kinds of events disagree on the form of their names, one dotted and
//! one underscored; both are understood for every event.

use vstd::prelude::*;
use vstd::string::*;

use super::api::{AgentStatus as HerdrAgentStatus, ApiRequest};
use super::json::{
    json_text_at, json_value_at, pairs_view, params_view, request_json, rows_view, string_at,
    value_at, ParamModel, ParamValue,
};
use super::registry::{knows_pane, pane_id_of, pane_number, with_pane, HerdrPaneRegistry, PaneKey};
use crate::multiplexer::events::{opt_view, AgentStatus, AgentStatusChanged, StatusChange};
use crate::text::text_eq;

verus! {

// ------------------------------------------------------------------- requests

/// Entry type for an agent's status, one per pane.
pub const SUBSCRIBE_AGENT_STATUS_TYPE: &'static str = "pane.agent_status_changed";

/// Entry type for new panes.
pub const SUBSCRIBE_PANE_CREATED_TYPE: &'static str = "pane.created";

/// Entry type for closed panes.
pub const SUBSCRIBE_PANE_CLOSED_TYPE: &'static str = "pane.closed";

/// Entry type for panes whose program ended.
pub const SUBSCRIBE_PANE_EXITED_TYPE: &'static str = "pane.exited";

/// Request id of the lifecycle connection.
pub const LIFECYCLE_REQUEST_ID: &'static str = "muxrd-events-lifecycle";

/// Request id of the agent-status connection.
pub const AGENT_STATUS_REQUEST_ID: &'static str = "muxrd-events-agent-status";

/// A subscription entry that takes no pane.
pub open spec fn bare_entry(kind: Seq<char>) -> Seq<(Seq<char>, Seq<char>)> {
    seq![("type"@, kind)]
}

/// A subscription entry for one pane.
pub open spec fn pane_entry_of(pane: Seq<char>) -> Seq<(Seq<char>, Seq<char>)> {
    seq![("type"@, SUBSCRIBE_AGENT_STATUS_TYPE@), ("pane_id"@, pane)]
}

/// The line that opens a subscription with these entries.
pub open spec fn subscribe_line(
    id: Seq<char>,
    entries: Seq<Seq<(Seq<char>, Seq<char>)>>,
) -> Seq<char> {
    request_json(
        id,
        "events.subscribe"@,
        seq![("subscriptions"@, ParamModel::Rows(entries))],
    ) + "\n"@
}

/// The entries of the lifecycle connection. None takes a pane, so the subscription
/// is complete once it is acknowledged and never has to widen.
pub open spec fn lifecycle_entries() -> Seq<Seq<(Seq<char>, Seq<char>)>> {
    seq![
        bare_entry(SUBSCRIBE_PANE_CREATED_TYPE@),
        bare_entry(SUBSCRIBE_PANE_CLOSED_TYPE@),
        bare_entry(SUBSCRIBE_PANE_EXITED_TYPE@),
    ]
}

/// The entries of the agent-status connection: one per pane, in order. herdr has no
/// entry for all panes.
pub open spec fn agent_status_entries(panes: Seq<Seq<char>>) -> Seq<Seq<(Seq<char>, Seq<char>)>> {
    panes.map_values(|p: Seq<char>| pane_entry_of(p))
}

/// The texts of a sequence.
pub open spec fn texts(s: Seq<String>) -> Seq<Seq<char>> {
    s.map_values(|t: String| t@)
}

fn one_field(value: &str) -> (e: Vec<(String, String)>)
    ensures
        pairs_view(e@) == bare_entry(value@),
{
    let mut e: Vec<(String, String)> = Vec::new();
    e.push(("type".to_owned(), value.to_owned()));
    proof {
        assert(pairs_view(e@) =~= bare_entry(value@));
    }
    e
}

/// The line of one `events.subscribe` request.
fn request_line(id: &str, entries: Vec<Vec<(String, String)>>) -> (line: String)
    ensures
        line@ == subscribe_line(id@, rows_view(entries@)),
{
    let ghost rows = rows_view(entries@);
    let mut params: Vec<(String, ParamValue)> = Vec::new();
    params.push(("subscriptions".to_owned(), ParamValue::Rows(entries)));
    proof {
        assert(params_view(params@) =~= seq![("subscriptions"@, ParamModel::Rows(rows))]);
    }
    ApiRequest::new(id.to_owned(), "events.subscribe".to_owned(), params).line()
}

/// The line that opens the lifecycle connection.
pub fn lifecycle_request_line() -> (line: String)
    ensures
        line@ == subscribe_line(LIFECYCLE_REQUEST_ID@, lifecycle_entries()),
{
    let mut entries: Vec<Vec<(String, String)>> = Vec::new();
    entries.push(one_field(SUBSCRIBE_PANE_CREATED_TYPE));
    entries.push(one_field(SUBSCRIBE_PANE_CLOSED_TYPE));
    entries.push(one_field(SUBSCRIBE_PANE_EXITED_TYPE));
    proof {
        assert(rows_view(entries@) =~= lifecycle_entries());
    }
    request_line(LIFECYCLE_REQUEST_ID, entries)
}

/// The line that opens the agent-status connection for these panes.
pub fn agent_status_request_line(pane_ids: &Vec<String>) -> (line: String)
    ensures
        line@ == subscribe_line(AGENT_STATUS_REQUEST_ID@, agent_status_entries(texts(pane_ids@))),
{
    let mut entries: Vec<Vec<(String, String)>> = Vec::new();
    let n: usize = pane_ids.len();
    let mut i: usize = 0;
    while i < n
        invariant
            i <= n,
            n == pane_ids@.len(),
            entries@.len() == i,
            forall|j: int|
                0 <= j < i ==> pairs_view((#[trigger] entries@[j])@) == pane_entry_of(
                    pane_ids@[j]@,
                ),
        decreases n - i,
    {
        let mut e = one_field(SUBSCRIBE_AGENT_STATUS_TYPE);
        let ghost before = e@;
        e.push(("pane_id".to_owned(), pane_ids[i].clone()));
        proof {
            assert(before.len() == pairs_view(before).len());
            assert(pairs_view(e@) =~= pairs_view(before).push(("pane_id"@, pane_ids@[i as int]@)));
        }
        entries.push(e);
        i = i + 1;
    }
    proof {
        assert(rows_view(entries@) =~= agent_status_entries(texts(pane_ids@)));
    }
    request_line(AGENT_STATUS_REQUEST_ID, entries)
}

/// Whether a line acknowledges a subscription.
pub open spec fn acknowledges(line: Seq<char>) -> bool {
    json_text_at(line, "/result/type"@) == Some("subscription_started"@)
}

/// Whether a line acknowledges a subscription.
pub fn is_subscription_ack(line: &str) -> (yes: bool)
    ensures
        yes == acknowledges(line@),
{
    match string_at(line, "/result/type") {
        Some(t) => text_eq(t.as_str(), "subscription_started"),
        None => false,
    }
}

/// herdr's refusal in a line, if it is one.
pub fn subscribe_error(line: &str) -> (e: Option<String>)
    ensures
        match e {
            Some(t) => json_value_at(line@, "/error"@) == Some(t@),
            None => json_value_at(line@, "/error"@) is None,
        },
{
    value_at(line, "/error")
}

// --------------------------------------------------------------------- events

/// An event name with every dot as an underscore.
pub open spec fn canonical(name: Seq<char>) -> Seq<char> {
    name.map_values(
        |c: char|
            if c == '.' {
                '_'
            } else {
                c
            },
    )
}

/// Whether `event` is called `name`, dots and underscores being the same.
pub fn is_called(event: &str, name: &str) -> (yes: bool)
    ensures
        yes == (canonical(event@) == name@),
{
    let n: usize = event.unicode_len();
    if n != name.unicode_len() {
        return false;
    }
    let mut i: usize = 0;
    while i < n
        invariant
            i <= n,
            n == event@.len(),
            n == name@.len(),
            forall|j: int| 0 <= j < i ==> canonical(event@)[j] == name@[j],
        decreases n - i,
    {
        let c = event.get_char(i);
        let d = if c == '.' {
            '_'
        } else {
            c
        };
        if d != name.get_char(i) {
            proof {
                assert(canonical(event@)[i as int] != name@[i as int]);
            }
            return false;
        }
        i = i + 1;
    }
    proof {
        assert(canonical(event@) =~= name@);
    }
    true
}

/// What is read out of a pushed line.
#[derive(Debug)]
pub struct PushedFields {
    /// The event's name.
    pub event: Option<String>,
    /// `pane_id` of the payload.
    pub pane_id: Option<String>,
    /// `pane_id` of the pane inside the payload.
    pub nested_pane_id: Option<String>,
    pub workspace_id: Option<String>,
    pub title: Option<String>,
    /// `agent_status` of the payload, as compact JSON.
    pub agent_status: Option<String>,
}

/// What a [`PushedFields`] is mathematically.
pub struct Fields {
    pub event: Option<Seq<char>>,
    pub pane_id: Option<Seq<char>>,
    pub nested_pane_id: Option<Seq<char>>,
    pub workspace_id: Option<Seq<char>>,
    pub title: Option<Seq<char>>,
    pub agent_status: Option<Seq<char>>,
}

impl View for PushedFields {
    type V = Fields;

    open spec fn view(&self) -> Fields {
        Fields {
            event: opt_view(self.event),
            pane_id: opt_view(self.pane_id),
            nested_pane_id: opt_view(self.nested_pane_id),
            workspace_id: opt_view(self.workspace_id),
            title: opt_view(self.title),
            agent_status: opt_view(self.agent_status),
        }
    }
}

/// What a pushed line holds.
pub open spec fn fields_of(line: Seq<char>) -> Fields {
    Fields {
        event: json_text_at(line, "/event"@),
        pane_id: json_text_at(line, "/data/pane_id"@),
        nested_pane_id: json_text_at(line, "/data/pane/pane_id"@),
        workspace_id: json_text_at(line, "/data/workspace_id"@),
        title: json_text_at(line, "/data/title"@),
        agent_status: json_value_at(line, "/data/agent_status"@),
    }
}

/// Reads a pushed line.
pub fn pushed_envelope(line: &str) -> (f: PushedFields)
    ensures
        f@ == fields_of(line@),
        line@.len() == 0 ==> f.event is None,
{
    PushedFields {
        event: string_at(line, "/event"),
        pane_id: string_at(line, "/data/pane_id"),
        nested_pane_id: string_at(line, "/data/pane/pane_id"),
        workspace_id: string_at(line, "/data/workspace_id"),
        title: string_at(line, "/data/title"),
        agent_status: value_at(line, "/data/agent_status"),
    }
}

/// The pane that a `pane.created` is about: the one inside the payload, else the one
/// at its top.
pub open spec fn created_pane(f: Fields) -> Option<Seq<char>> {
    if f.nested_pane_id is Some {
        f.nested_pane_id
    } else {
        f.pane_id
    }
}

/// The pane that a `pane.closed` or `pane.exited` is about: the one at the top of the
/// payload, else the one inside it.
pub open spec fn gone_pane(f: Fields) -> Option<Seq<char>> {
    if f.pane_id is Some {
        f.pane_id
    } else {
        f.nested_pane_id
    }
}

fn opt_clone(o: &Option<String>) -> (r: Option<String>)
    ensures
        opt_view(r) == opt_view(*o),
{
    match o {
        Some(t) => Some(t.clone()),
        None => None,
    }
}

/// The pane that a `pane.created` is about.
pub fn pane_created_id(f: &PushedFields) -> (r: Option<String>)
    ensures
        opt_view(r) == created_pane(f@),
{
    if f.nested_pane_id.is_some() {
        opt_clone(&f.nested_pane_id)
    } else {
        opt_clone(&f.pane_id)
    }
}

/// The pane that a `pane.closed` or `pane.exited` is about.
pub fn pane_gone_id(f: &PushedFields) -> (r: Option<String>)
    ensures
        opt_view(r) == gone_pane(f@),
{
    if f.pane_id.is_some() {
        opt_clone(&f.pane_id)
    } else {
        opt_clone(&f.nested_pane_id)
    }
}

/// The status that a JSON value names: the name as a string, or as the only member
/// of an object, with the value `null`.
pub open spec fn status_named(json: Seq<char>) -> Option<HerdrAgentStatus> {
    if json == "\"idle\""@ || json == "{\"idle\":null}"@ {
        Some(HerdrAgentStatus::Idle)
    } else if json == "\"working\""@ || json == "{\"working\":null}"@ {
        Some(HerdrAgentStatus::Working)
    } else if json == "\"blocked\""@ || json == "{\"blocked\":null}"@ {
        Some(HerdrAgentStatus::Blocked)
    } else if json == "\"done\""@ || json == "{\"done\":null}"@ {
        Some(HerdrAgentStatus::Done)
    } else if json == "\"unknown\""@ || json == "{\"unknown\":null}"@ {
        Some(HerdrAgentStatus::Unknown)
    } else {
        None
    }
}

/// The status that a JSON value names.
pub fn parse_status(json: &str) -> (s: Option<HerdrAgentStatus>)
    ensures
        s == status_named(json@),
{
    if text_eq(json, "\"idle\"") || text_eq(json, "{\"idle\":null}") {
        Some(HerdrAgentStatus::Idle)
    } else if text_eq(json, "\"working\"") || text_eq(json, "{\"working\":null}") {
        Some(HerdrAgentStatus::Working)
    } else if text_eq(json, "\"blocked\"") || text_eq(json, "{\"blocked\":null}") {
        Some(HerdrAgentStatus::Blocked)
    } else if text_eq(json, "\"done\"") || text_eq(json, "{\"done\":null}") {
        Some(HerdrAgentStatus::Done)
    } else if text_eq(json, "\"unknown\"") || text_eq(json, "{\"unknown\":null}") {
        Some(HerdrAgentStatus::Unknown)
    } else {
        None
    }
}

/// herdr's status in neutral terms.
pub open spec fn neutral(status: HerdrAgentStatus) -> AgentStatus {
    match status {
        HerdrAgentStatus::Idle => AgentStatus::Idle,
        HerdrAgentStatus::Working => AgentStatus::Working,
        HerdrAgentStatus::Blocked => AgentStatus::Blocked,
        HerdrAgentStatus::Done => AgentStatus::Done,
        HerdrAgentStatus::Unknown => AgentStatus::Unknown,
    }
}

/// herdr's status in neutral terms.
pub fn map_status(status: HerdrAgentStatus) -> (s: AgentStatus)
    ensures
        s == neutral(status),
{
    match status {
        HerdrAgentStatus::Idle => AgentStatus::Idle,
        HerdrAgentStatus::Working => AgentStatus::Working,
        HerdrAgentStatus::Blocked => AgentStatus::Blocked,
        HerdrAgentStatus::Done => AgentStatus::Done,
        HerdrAgentStatus::Unknown => AgentStatus::Unknown,
    }
}

/// The registry after a pane was named in an event: a known pane keeps its attach
/// key, a new one gets the one that came along.
pub open spec fn translated(reg: Seq<PaneKey>, pane: Seq<char>, terminal: Seq<char>) -> Seq<PaneKey> {
    if knows_pane(reg, pane) {
        reg
    } else {
        with_pane(reg, pane, terminal)
    }
}

/// The id of a pane that an event names. An event may come without an attach key, so
/// the key of a known pane is never touched.
pub fn translate_pane(
    panes: &mut HerdrPaneRegistry,
    herdr_pane_id: &str,
    terminal_id: Option<&str>,
) -> (id: u32)
    requires
        old(panes).wf(),
    ensures
        final(panes).wf(),
        id == pane_number(old(panes)@, herdr_pane_id@),
        final(panes)@ == translated(
            old(panes)@,
            herdr_pane_id@,
            (match terminal_id {
                Some(t) => t@,
                None => Seq::<char>::empty(),
            }),
        ),
{
    if let Some(id) = panes.id_for_herdr_pane(herdr_pane_id) {
        return id;
    }
    match terminal_id {
        Some(t) => panes.assign_or_get(herdr_pane_id, t),
        None => {
            let none = String::new();
            proof {
                assert(none@ =~= Seq::<char>::empty());
            }
            panes.assign_or_get(herdr_pane_id, none.as_str())
        },
    }
}

/// What a pushed line means.
#[derive(Debug)]
pub enum Pushed {
    /// An agent's status changed.
    AgentStatus(AgentStatusChanged),
    /// A pane was created; the pane, if the line names it.
    PaneCreated(Option<String>),
    /// A pane is gone: herdr's id, and the daemon's if the pane is registered.
    PaneGone { herdr_pane_id: Option<String>, pane: Option<u32> },
    /// Nothing that counts.
    Ignored,
}

/// What a [`Pushed`] is mathematically.
pub enum Meaning {
    AgentStatus(StatusChange),
    PaneCreated(Option<Seq<char>>),
    PaneGone { herdr_pane_id: Option<Seq<char>>, pane: Option<u32> },
    Ignored,
}

impl View for Pushed {
    type V = Meaning;

    open spec fn view(&self) -> Meaning {
        match self {
            Pushed::AgentStatus(e) => Meaning::AgentStatus(e@),
            Pushed::PaneCreated(p) => Meaning::PaneCreated(opt_view(*p)),
            Pushed::PaneGone { herdr_pane_id, pane } => Meaning::PaneGone {
                herdr_pane_id: opt_view(*herdr_pane_id),
                pane: *pane,
            },
            Pushed::Ignored => Meaning::Ignored,
        }
    }
}

/// Whether an event is called `name`.
pub open spec fn called(f: Fields, name: Seq<char>) -> bool {
    f.event matches Some(e) && canonical(e) == name
}

/// Whether an event says that a pane is gone.
pub open spec fn says_gone(f: Fields) -> bool {
    called(f, "pane_closed"@) || called(f, "pane_exited"@)
}

/// The status change that an event reports: it must name the pane, the workspace and
/// a known status. It is pushed, so it is never synthetic; it carries no workspace
/// name.
pub open spec fn reported(f: Fields, reg: Seq<PaneKey>) -> Option<StatusChange> {
    match (f.pane_id, f.workspace_id, f.agent_status) {
        (Some(pane), Some(ws), Some(json)) => match status_named(json) {
            Some(status) => Some(
                StatusChange {
                    pane: pane_number(reg, pane) as u32,
                    workspace_id: ws,
                    workspace_name: None,
                    status: neutral(status),
                    title: f.title,
                    synthetic: false,
                },
            ),
            None => None,
        },
        _ => None,
    }
}

/// What an event means.
pub open spec fn meaning(f: Fields, reg: Seq<PaneKey>) -> Meaning {
    if called(f, "pane_agent_status_changed"@) {
        match reported(f, reg) {
            Some(c) => Meaning::AgentStatus(c),
            None => Meaning::Ignored,
        }
    } else if called(f, "pane_created"@) {
        Meaning::PaneCreated(created_pane(f))
    } else if says_gone(f) {
        match gone_pane(f) {
            Some(p) => Meaning::PaneGone {
                herdr_pane_id: Some(p),
                pane: if knows_pane(reg, p) {
                    Some(pane_id_of(reg, p) as u32)
                } else {
                    None
                },
            },
            None => Meaning::Ignored,
        }
    } else {
        Meaning::Ignored
    }
}

/// The registry after an event: only a status change can add a pane.
pub open spec fn registry_after(f: Fields, reg: Seq<PaneKey>) -> Seq<PaneKey> {
    if called(f, "pane_agent_status_changed"@) && reported(f, reg) is Some {
        translated(reg, f.pane_id->0, Seq::empty())
    } else {
        reg
    }
}

/// Takes the status change out of an event.
fn parse_agent_status(f: &PushedFields, panes: &mut HerdrPaneRegistry) -> (r: Pushed)
    requires
        old(panes).wf(),
    ensures
        final(panes).wf(),
        match reported(f@, old(panes)@) {
            Some(c) => r@ == Meaning::AgentStatus(c) && final(panes)@ == translated(
                old(panes)@,
                f@.pane_id->0,
                Seq::empty(),
            ),
            None => r@ == Meaning::Ignored && final(panes)@ == old(panes)@,
        },
{
    match (&f.pane_id, &f.workspace_id, &f.agent_status) {
        (Some(pane_id), Some(workspace_id), Some(json)) => match parse_status(json.as_str()) {
            Some(status) => {
                let pane: u32 = translate_pane(panes, pane_id.as_str(), None);
                Pushed::AgentStatus(
                    AgentStatusChanged {
                        pane,
                        workspace_id: workspace_id.clone(),
                        workspace_name: None,
                        status: map_status(status),
                        title: opt_clone(&f.title),
                        synthetic: false,
                    },
                )
            },
            None => Pushed::Ignored,
        },
        _ => Pushed::Ignored,
    }
}

/// Takes both ids of a pane that is gone out of an event.
fn parse_pane_gone(f: &PushedFields, panes: &HerdrPaneRegistry) -> (r: Pushed)
    requires
        panes.wf(),
    ensures
        match gone_pane(f@) {
            Some(p) => r@ == (Meaning::PaneGone {
                herdr_pane_id: Some(p),
                pane: if knows_pane(panes@, p) {
                    Some(pane_id_of(panes@, p) as u32)
                } else {
                    None
                },
            }),
            None => r@ == Meaning::Ignored,
        },
{
    match pane_gone_id(f) {
        Some(p) => {
            let pane = panes.id_for_herdr_pane(p.as_str());
            Pushed::PaneGone { herdr_pane_id: Some(p), pane }
        },
        None => Pushed::Ignored,
    }
}

/// Says what an event means, once it was read.
pub fn classify_fields(f: &PushedFields, panes: &mut HerdrPaneRegistry) -> (r: Pushed)
    requires
        old(panes).wf(),
    ensures
        final(panes).wf(),
        r@ == meaning(f@, old(panes)@),
        final(panes)@ == registry_after(f@, old(panes)@),
{
    match &f.event {
        None => Pushed::Ignored,
        Some(event) => {
            let name = event.as_str();
            if is_called(name, "pane_agent_status_changed") {
                return parse_agent_status(f, panes);
            }
            if is_called(name, "pane_created") {
                return Pushed::PaneCreated(pane_created_id(f));
            }
            if is_called(name, "pane_closed") || is_called(name, "pane_exited") {
                return parse_pane_gone(f, panes);
            }
            Pushed::Ignored
        },
    }
}

/// Says what a line of an event stream means.
pub fn classify_pushed(line: &str, panes: &mut HerdrPaneRegistry) -> (r: Pushed)
    requires
        old(panes).wf(),
    ensures
        final(panes).wf(),
        r@ == meaning(fields_of(line@), old(panes)@),
        final(panes)@ == registry_after(fields_of(line@), old(panes)@),
{
    let f = pushed_envelope(line);
    classify_fields(&f, panes)
}

/// A change of the set of panes.
#[derive(Debug, Clone, PartialEq, Eq)]
pub enum PaneChange {
    Created(Option<String>),
    Gone(Option<String>),
}

/// What a [`PaneChange`] is mathematically.
pub enum Change {
    Created(Option<Seq<char>>),
    Gone(Option<Seq<char>>),
}

/// An optional change, mathematically.
pub open spec fn change_view(c: Option<PaneChange>) -> Option<Change> {
    match c {
        Some(PaneChange::Created(p)) => Some(Change::Created(opt_view(p))),
        Some(PaneChange::Gone(p)) => Some(Change::Gone(opt_view(p))),
        None => None,
    }
}

/// The change of the set of panes that an event reports.
pub open spec fn change_in(f: Fields) -> Option<Change> {
    if called(f, "pane_created"@) {
        Some(Change::Created(created_pane(f)))
    } else if says_gone(f) {
        Some(Change::Gone(gone_pane(f)))
    } else {
        None
    }
}

/// The change of the set of panes that an event reports.
pub fn change_of_fields(f: &PushedFields) -> (c: Option<PaneChange>)
    ensures
        change_view(c) == change_in(f@),
{
    match &f.event {
        None => None,
        Some(event) => {
            let name = event.as_str();
            if is_called(name, "pane_created") {
                return Some(PaneChange::Created(pane_created_id(f)));
            }
            if is_called(name, "pane_closed") || is_called(name, "pane_exited") {
                return Some(PaneChange::Gone(pane_gone_id(f)));
            }
            None
        },
    }
}

/// The change of the set of panes that a line reports. No registry is involved.
pub fn lifecycle_change(line: &str) -> (c: Option<PaneChange>)
    ensures
        change_view(c) == change_in(fields_of(line@)),
{
    let f = pushed_envelope(line);
    change_of_fields(&f)
}

// ----------------------------------------------------------------------- laws

/// A pushed event never changes the attach key of a registered pane, nor the id of
/// any.
pub proof fn law_a_push_keeps_attach_keys(f: Fields, reg: Seq<PaneKey>, i: int)
    requires
        super::registry::panes_wf(reg),
        0 <= i < reg.len(),
    ensures
        i < registry_after(f, reg).len(),
        registry_after(f, reg)[i] == reg[i],
{
    if called(f, "pane_agent_status_changed"@) && reported(f, reg) is Some {
        super::registry::lemma_with_pane(reg, f.pane_id->0, Seq::empty());
    }
}

/// The dotted and the underscored form of an event's name mean the same.
pub proof fn law_both_name_forms_mean_the_same(f: Fields, g: Fields, reg: Seq<PaneKey>)
    requires
        f.event matches Some(a) && g.event matches Some(b) && canonical(a) == canonical(b),
        f.pane_id == g.pane_id,
        f.nested_pane_id == g.nested_pane_id,
        f.workspace_id == g.workspace_id,
        f.title == g.title,
        f.agent_status == g.agent_status,
    ensures
        meaning(f, reg) == meaning(g, reg),
        change_in(f) == change_in(g),
        registry_after(f, reg) == registry_after(g, reg),
{
}

/// The agent-status subscription names each pane once per listing, in order, and
/// nothing else.
pub proof fn law_one_entry_per_pane(panes: Seq<Seq<char>>, i: int)
    requires
        0 <= i < panes.len(),
    ensures
        agent_status_entries(panes).len() == panes.len(),
        agent_status_entries(panes)[i] == pane_entry_of(panes[i]),
{
}

} // verus!
