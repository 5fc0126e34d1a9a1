//! What herdr's event lines mean, stated over the calls that read them, name by name.

use vstd::prelude::*;
use vstd::string::*;

use super::api::AgentStatus as HerdrAgentStatus;
use super::json::{json_text_at, json_value_at, object_json, ParamModel};
use super::pushed::{
    agent_status_entries, agent_status_request_line, canonical, change_of_fields, classify_fields,
    classify_pushed, is_called, is_subscription_ack, lifecycle_change, lifecycle_entries,
    lifecycle_request_line, map_status, pane_created_id, pane_entry_of, pane_gone_id, parse_status,
    pushed_envelope, status_named, subscribe_error, texts, translate_pane, PaneChange, Pushed,
    PushedFields,
};
use super::registry::{is_pane, knows_pane, HerdrPaneRegistry};
use crate::multiplexer::events::{opt_view, AgentStatus};
use crate::seqs::lemma_first_index_meaning;

verus! {

// ----------------------------------------------------------------------- statuses

proof fn lemma_status_names()
    ensures
        status_named("\"idle\""@) == Some(HerdrAgentStatus::Idle),
        status_named("{\"idle\":null}"@) == Some(HerdrAgentStatus::Idle),
        status_named("\"working\""@) == Some(HerdrAgentStatus::Working),
        status_named("{\"working\":null}"@) == Some(HerdrAgentStatus::Working),
        status_named("\"blocked\""@) == Some(HerdrAgentStatus::Blocked),
        status_named("{\"blocked\":null}"@) == Some(HerdrAgentStatus::Blocked),
        status_named("\"done\""@) == Some(HerdrAgentStatus::Done),
        status_named("{\"done\":null}"@) == Some(HerdrAgentStatus::Done),
        status_named("\"unknown\""@) == Some(HerdrAgentStatus::Unknown),
        status_named("{\"unknown\":null}"@) == Some(HerdrAgentStatus::Unknown),
{
    reveal_strlit("\"idle\"");
    reveal_strlit("\"working\"");
    reveal_strlit("\"blocked\"");
    reveal_strlit("\"done\"");
    reveal_strlit("\"unknown\"");
    reveal_strlit("{\"idle\":null}");
    reveal_strlit("{\"working\":null}");
    reveal_strlit("{\"blocked\":null}");
    reveal_strlit("{\"done\":null}");
    reveal_strlit("{\"unknown\":null}");
    assert("\"idle\""@[0] == '"' && "\"idle\""@[1] == 'i');
    assert("\"working\""@[0] == '"' && "\"working\""@[1] == 'w');
    assert("\"blocked\""@[0] == '"' && "\"blocked\""@[1] == 'b');
    assert("\"done\""@[0] == '"' && "\"done\""@[1] == 'd');
    assert("\"unknown\""@[0] == '"' && "\"unknown\""@[1] == 'u');
    assert("{\"idle\":null}"@[0] == '{' && "{\"idle\":null}"@[2] == 'i');
    assert("{\"working\":null}"@[0] == '{' && "{\"working\":null}"@[2] == 'w');
    assert("{\"blocked\":null}"@[0] == '{' && "{\"blocked\":null}"@[2] == 'b');
    assert("{\"done\":null}"@[0] == '{' && "{\"done\":null}"@[2] == 'd');
    assert("{\"unknown\":null}"@[0] == '{' && "{\"unknown\":null}"@[2] == 'u');
}

/// Each status has a name of its own, as a JSON string or as the only member of an
/// object, and is read from that name and from no other text.
pub proof fn law_each_status_is_read_from_its_own_name(json: &str, s: Option<HerdrAgentStatus>)
    requires
        call_ensures(parse_status, (json,), s),
    ensures
        s == Some(HerdrAgentStatus::Idle) <==> json@ == "\"idle\""@ || json@
            == "{\"idle\":null}"@,
        s == Some(HerdrAgentStatus::Working) <==> json@ == "\"working\""@ || json@
            == "{\"working\":null}"@,
        s == Some(HerdrAgentStatus::Blocked) <==> json@ == "\"blocked\""@ || json@
            == "{\"blocked\":null}"@,
        s == Some(HerdrAgentStatus::Done) <==> json@ == "\"done\""@ || json@ == "{\"done\":null}"@,
        s == Some(HerdrAgentStatus::Unknown) <==> json@ == "\"unknown\""@ || json@
            == "{\"unknown\":null}"@,
{
    lemma_status_names();
}

/// herdr's word for a status keeps its meaning in the daemon's.
pub proof fn law_a_status_keeps_its_meaning(status: HerdrAgentStatus, s: AgentStatus)
    requires
        call_ensures(map_status, (status,), s),
    ensures
        s is Idle <==> status is Idle,
        s is Working <==> status is Working,
        s is Blocked <==> status is Blocked,
        s is Done <==> status is Done,
        s is Unknown <==> status is Unknown,
{
}

// -------------------------------------------------------------------------- names

/// Whether a text is a name with any of its underscores as dots.
pub open spec fn reads(event: Seq<char>, name: Seq<char>) -> bool {
    &&& event.len() == name.len()
    &&& forall|i: int|
        0 <= i < name.len() ==> #[trigger] name[i] == if event[i] == '.' {
            '_'
        } else {
            event[i]
        }
}

/// An event is called by a name exactly if it is that name, dots and underscores being
/// the same.
pub proof fn law_dots_and_underscores_are_the_same(event: &str, name: &str, yes: bool)
    requires
        call_ensures(is_called, (event, name), yes),
    ensures
        yes <==> reads(event@, name@),
{
    lemma_reads(event@, name@);
}

proof fn lemma_reads(event: Seq<char>, name: Seq<char>)
    ensures
        canonical(event) == name <==> reads(event, name),
{
    if reads(event, name) {
        assert(canonical(event) =~= name);
    } else if canonical(event) == name {
        assert(event.len() == name.len());
        assert forall|i: int| 0 <= i < name.len() implies #[trigger] name[i] == if event[i]
            == '.' {
            '_'
        } else {
            event[i]
        } by {
            assert(canonical(event)[i] == name[i]);
        }
    }
}

proof fn lemma_event_names()
    ensures
        "pane_created"@ != "pane_closed"@,
        "pane_created"@ != "pane_exited"@,
        "pane_created"@ != "pane_agent_status_changed"@,
        "pane_closed"@ != "pane_agent_status_changed"@,
        "pane_exited"@ != "pane_agent_status_changed"@,
        canonical("pane.created"@) == "pane_created"@,
        canonical("pane.closed"@) == "pane_closed"@,
        canonical("pane.exited"@) == "pane_exited"@,
        canonical("pane.agent_status_changed"@) == "pane_agent_status_changed"@,
{
    reveal_strlit("pane_created");
    reveal_strlit("pane_closed");
    reveal_strlit("pane_exited");
    reveal_strlit("pane_agent_status_changed");
    reveal_strlit("pane.created");
    reveal_strlit("pane.closed");
    reveal_strlit("pane.exited");
    reveal_strlit("pane.agent_status_changed");
    assert("pane_created"@.len() == 12);
    assert("pane_closed"@.len() == 11);
    assert("pane_exited"@.len() == 11);
    assert("pane_agent_status_changed"@.len() == 25);
    assert(canonical("pane.created"@) =~= "pane_created"@);
    assert(canonical("pane.closed"@) =~= "pane_closed"@);
    assert(canonical("pane.exited"@) =~= "pane_exited"@);
    assert(canonical("pane.agent_status_changed"@) =~= "pane_agent_status_changed"@);
}

// ------------------------------------------------------------------------- events

/// The fields of a pushed line are read where herdr puts them.
pub proof fn law_a_pushed_line_is_read_where_herdr_writes(line: &str, f: PushedFields)
    requires
        call_ensures(pushed_envelope, (line,), f),
    ensures
        opt_view(f.event) == json_text_at(line@, "/event"@),
        opt_view(f.pane_id) == json_text_at(line@, "/data/pane_id"@),
        opt_view(f.nested_pane_id) == json_text_at(line@, "/data/pane/pane_id"@),
        opt_view(f.workspace_id) == json_text_at(line@, "/data/workspace_id"@),
        opt_view(f.title) == json_text_at(line@, "/data/title"@),
        opt_view(f.agent_status) == json_value_at(line@, "/data/agent_status"@),
{
}

/// A new pane is announced under either form of its event's name. It is the pane inside
/// the payload, and the one at its top only where there is none inside.
pub proof fn law_a_new_pane_is_announced(
    f: &PushedFields,
    panes: &mut HerdrPaneRegistry,
    r: Pushed,
)
    requires
        call_ensures(classify_fields, (f, panes), r),
        f.event matches Some(e) && (e@ == "pane.created"@ || e@ == "pane_created"@),
    ensures
        r matches Pushed::PaneCreated(p) && match (f.nested_pane_id, f.pane_id) {
            (Some(inside), _) => p matches Some(x) && x@ == inside@,
            (None, Some(top)) => p matches Some(x) && x@ == top@,
            (None, None) => p is None,
        },
        final(panes)@ == old(panes)@,
{
    lemma_event_names();
    lemma_underscored();
}

/// A name without dots is its own underscored form.
proof fn lemma_underscored()
    ensures
        canonical("pane_created"@) == "pane_created"@,
        canonical("pane_closed"@) == "pane_closed"@,
        canonical("pane_exited"@) == "pane_exited"@,
        canonical("pane_agent_status_changed"@) == "pane_agent_status_changed"@,
{
    reveal_strlit("pane_created");
    reveal_strlit("pane_closed");
    reveal_strlit("pane_exited");
    reveal_strlit("pane_agent_status_changed");
    assert(canonical("pane_created"@) =~= "pane_created"@);
    assert(canonical("pane_closed"@) =~= "pane_closed"@);
    assert(canonical("pane_exited"@) =~= "pane_exited"@);
    assert(canonical("pane_agent_status_changed"@) =~= "pane_agent_status_changed"@);
}

/// A pane that closed or whose program ended is gone, under either form of the event's
/// name. It is the pane at the top of the payload, and the one inside only where there is
/// none at the top; its id comes along if it has one. Nothing is registered.
pub proof fn law_a_pane_is_reported_gone(
    f: &PushedFields,
    panes: &mut HerdrPaneRegistry,
    r: Pushed,
)
    requires
        call_ensures(classify_fields, (f, panes), r),
        f.event matches Some(e) && (e@ == "pane.closed"@ || e@ == "pane_closed"@ || e@
            == "pane.exited"@ || e@ == "pane_exited"@),
        old(panes)@.len() <= u32::MAX,
    ensures
        final(panes)@ == old(panes)@,
        f.pane_id is None && f.nested_pane_id is None ==> r is Ignored,
        ({
            let gone = match f.pane_id {
                Some(top) => Some(top@),
                None => opt_view(f.nested_pane_id),
            };
            gone matches Some(name) ==> (r matches Pushed::PaneGone { herdr_pane_id, pane } && (
            herdr_pane_id matches Some(x) && x@ == name) && (pane matches Some(id) ==> 1 <= id
                <= old(panes)@.len() && old(panes)@[id - 1].pane_id == name) && (pane is None
                ==> forall|i: int|
                0 <= i < old(panes)@.len() ==> (#[trigger] old(panes)@[i]).pane_id != name))
        }),
{
    lemma_event_names();
    lemma_underscored();
    let gone = match f.pane_id {
        Some(top) => Some(top@),
        None => opt_view(f.nested_pane_id),
    };
    if let Some(name) = gone {
        lemma_first_index_meaning(old(panes)@, is_pane(name));
        assert forall|i: int|
            0 <= i < old(panes)@.len() && !knows_pane(old(panes)@, name) implies (
        #[trigger] old(panes)@[i]).pane_id != name by {
            assert(!is_pane(name)(old(panes)@[i]));
        }
    }
}

/// A status change is reported exactly if the line names the pane, the workspace and one
/// of the statuses, and then with that very status: it is blocked only where the payload
/// says blocked, and done only where it says done. It is about the pane that the line
/// names, it is pushed and not observed after the fact, and it brings the line's workspace
/// and title along.
pub proof fn law_a_status_change_is_reported_as_it_was_sent(
    f: &PushedFields,
    panes: &mut HerdrPaneRegistry,
    r: Pushed,
)
    requires
        call_ensures(classify_fields, (f, panes), r),
        f.event matches Some(e) && (e@ == "pane.agent_status_changed"@ || e@
            == "pane_agent_status_changed"@),
    ensures
        r is AgentStatus || r is Ignored,
        r matches Pushed::AgentStatus(c) ==> (f.workspace_id matches Some(ws) && c.workspace_id@
            == ws@) && f.pane_id is Some && opt_view(c.title) == opt_view(f.title)
            && c.workspace_name is None && !c.synthetic && (f.agent_status matches Some(json) && (
        c.status is Idle <==> json@ == "\"idle\""@ || json@ == "{\"idle\":null}"@) && (
        c.status is Working <==> json@ == "\"working\""@ || json@ == "{\"working\":null}"@) && (
        c.status is Blocked <==> json@ == "\"blocked\""@ || json@ == "{\"blocked\":null}"@) && (
        c.status is Done <==> json@ == "\"done\""@ || json@ == "{\"done\":null}"@) && (
        c.status is Unknown <==> json@ == "\"unknown\""@ || json@ == "{\"unknown\":null}"@)),
        r is Ignored ==> f.pane_id is None || f.workspace_id is None || (match f.agent_status {
            Some(json) => json@ != "\"idle\""@ && json@ != "\"working\""@ && json@
                != "\"blocked\""@ && json@ != "\"done\""@ && json@ != "\"unknown\""@ && json@
                != "{\"idle\":null}"@ && json@ != "{\"working\":null}"@ && json@
                != "{\"blocked\":null}"@ && json@ != "{\"done\":null}"@ && json@
                != "{\"unknown\":null}"@,
            None => true,
        }),
        r is Ignored ==> final(panes)@ == old(panes)@,
        old(panes)@.len() < u32::MAX ==> (r matches Pushed::AgentStatus(c) ==> 1 <= c.pane
            <= final(panes)@.len() && final(panes)@[c.pane - 1].pane_id == f.pane_id->0@),
        forall|i: int| 0 <= i < old(panes)@.len() ==> #[trigger] final(panes)@[i] == old(panes)@[i],
{
    lemma_event_names();
    lemma_underscored();
    lemma_status_names();
    if let Some(pane) = f.pane_id {
        lemma_first_index_meaning(old(panes)@, is_pane(pane@));
    }
}

/// An event under any other name, or under none, means nothing and changes nothing.
pub proof fn law_other_events_mean_nothing(
    f: &PushedFields,
    panes: &mut HerdrPaneRegistry,
    r: Pushed,
)
    requires
        call_ensures(classify_fields, (f, panes), r),
        f.event matches Some(e) ==> !reads(e@, "pane_created"@) && !reads(e@, "pane_closed"@)
            && !reads(e@, "pane_exited"@) && !reads(e@, "pane_agent_status_changed"@),
    ensures
        r is Ignored,
        final(panes)@ == old(panes)@,
{
    if let Some(e) = f.event {
        lemma_reads(e@, "pane_created"@);
        lemma_reads(e@, "pane_closed"@);
        lemma_reads(e@, "pane_exited"@);
        lemma_reads(e@, "pane_agent_status_changed"@);
    }
}

/// What an event changes about the set of panes: one that was created, one that closed or
/// exited, and nothing for any other event.
pub proof fn law_only_panes_that_come_or_go_change_the_set(
    f: &PushedFields,
    c: Option<PaneChange>,
)
    requires
        call_ensures(change_of_fields, (f,), c),
    ensures
        c matches Some(PaneChange::Created(_)) <==> (f.event matches Some(e) && reads(
            e@,
            "pane_created"@,
        )),
        c matches Some(PaneChange::Gone(_)) <==> (f.event matches Some(e) && (reads(
            e@,
            "pane_closed"@,
        ) || reads(e@, "pane_exited"@))),
        c matches Some(PaneChange::Created(p)) ==> opt_view(p) == (match f.nested_pane_id {
            Some(inside) => Some(inside@),
            None => opt_view(f.pane_id),
        }),
        c matches Some(PaneChange::Gone(p)) ==> opt_view(p) == (match f.pane_id {
            Some(top) => Some(top@),
            None => opt_view(f.nested_pane_id),
        }),
{
    lemma_event_names();
    if let Some(e) = f.event {
        lemma_reads(e@, "pane_created"@);
        lemma_reads(e@, "pane_closed"@);
        lemma_reads(e@, "pane_exited"@);
    }
}

/// The id of a pane that an event names is the one it has. A pane that has none gets the
/// next one, with the attach key that came along; nothing else in the registry changes.
pub proof fn law_an_event_gives_a_new_pane_the_next_id(
    panes: &mut HerdrPaneRegistry,
    pane: &str,
    terminal: Option<&str>,
    id: u32,
)
    requires
        old(panes)@.len() < u32::MAX,
        call_ensures(translate_pane, (panes, pane, terminal), id),
    ensures
        1 <= id <= final(panes)@.len(),
        final(panes)@[id - 1].pane_id == pane@,
        forall|i: int| 0 <= i < old(panes)@.len() ==> #[trigger] final(panes)@[i] == old(panes)@[i],
        id <= old(panes)@.len() ==> final(panes)@ == old(panes)@,
        id > old(panes)@.len() ==> final(panes)@.len() == old(panes)@.len() + 1 && id == old(panes)@.len() + 1 && final(panes)@[id - 1].terminal_id == (match terminal {
            Some(t) => t@,
            None => Seq::<char>::empty(),
        }),
{
    lemma_first_index_meaning(old(panes)@, is_pane(pane@));
}

// ------------------------------------------------------------------ subscriptions

/// The lifecycle connection asks for panes that are created, that close and that exit.
pub proof fn law_the_lifecycle_connection_asks_for_all_three(line: String)
    requires
        call_ensures(lifecycle_request_line, (), line),
    ensures
        line@ == object_json(
            seq![("id"@, "muxrd-events-lifecycle"@), ("method"@, "events.subscribe"@)],
            "params"@,
            seq![
                (
                    "subscriptions"@,
                    ParamModel::Rows(
                        seq![
                            seq![("type"@, "pane.created"@)],
                            seq![("type"@, "pane.closed"@)],
                            seq![("type"@, "pane.exited"@)],
                        ],
                    ),
                ),
            ],
        ) + "\n"@,
{
    assert(lifecycle_entries() =~= seq![
        seq![("type"@, "pane.created"@)],
        seq![("type"@, "pane.closed"@)],
        seq![("type"@, "pane.exited"@)],
    ]);
}

/// The agent-status connection asks for the status of each pane by its own id, in order,
/// and of no other pane.
pub proof fn law_the_status_connection_asks_for_every_pane(panes: &Vec<String>, line: String)
    requires
        call_ensures(agent_status_request_line, (panes,), line),
    ensures
        ({
            let rows = Seq::new(
                panes@.len(),
                |i: int|
                    seq![("type"@, "pane.agent_status_changed"@), ("pane_id"@, panes@[i]@)],
            );
            line@ == object_json(
                seq![("id"@, "muxrd-events-agent-status"@), ("method"@, "events.subscribe"@)],
                "params"@,
                seq![("subscriptions"@, ParamModel::Rows(rows))],
            ) + "\n"@
        }),
{
    let rows = Seq::new(
        panes@.len(),
        |i: int| seq![("type"@, "pane.agent_status_changed"@), ("pane_id"@, panes@[i]@)],
    );
    let entries = agent_status_entries(texts(panes@));
    assert forall|i: int| 0 <= i < rows.len() implies #[trigger] rows[i] == entries[i] by {
        assert(entries[i] == pane_entry_of(panes@[i]@));
    }
    assert(rows =~= entries);
}

/// A line acknowledges a subscription exactly if its result says that it has started.
pub proof fn law_only_a_started_subscription_is_acknowledged(line: &str, yes: bool)
    requires
        call_ensures(is_subscription_ack, (line,), yes),
    ensures
        yes <==> json_text_at(line@, "/result/type"@) == Some("subscription_started"@),
{
}

/// What a refusal says is read where herdr writes it; a line without one is no refusal.
pub proof fn law_a_refusal_is_read_where_herdr_writes_it(line: &str, e: Option<String>)
    requires
        call_ensures(subscribe_error, (line,), e),
    ensures
        opt_view(e) == json_value_at(line@, "/error"@),
{
}

// -------------------------------------------------------------------- whole lines

/// A new pane is the one inside the payload, else the one at its top; a pane that is gone
/// is the one at the top, else the one inside.
pub proof fn law_which_pane_an_event_is_about(
    f: &PushedFields,
    created: Option<String>,
    gone: Option<String>,
)
    requires
        call_ensures(pane_created_id, (f,), created),
        call_ensures(pane_gone_id, (f,), gone),
    ensures
        f.nested_pane_id matches Some(inside) ==> (created matches Some(x) && x@ == inside@),
        f.pane_id matches Some(top) ==> (gone matches Some(x) && x@ == top@),
        f.nested_pane_id is None ==> (match (created, f.pane_id) {
            (Some(x), Some(top)) => x@ == top@,
            (None, None) => true,
            _ => false,
        }),
        f.pane_id is None ==> (match (gone, f.nested_pane_id) {
            (Some(x), Some(inside)) => x@ == inside@,
            (None, None) => true,
            _ => false,
        }),
{
}

/// A line means what the fields in it mean: reading it at once and reading its fields first
/// come to the same.
pub proof fn law_a_line_means_what_its_fields_mean(
    line: &str,
    f: PushedFields,
    panes: &mut HerdrPaneRegistry,
    whole: Pushed,
    others: &mut HerdrPaneRegistry,
    parts: Pushed,
    change: Option<PaneChange>,
    in_parts: Option<PaneChange>,
)
    requires
        call_ensures(pushed_envelope, (line,), f),
        old(panes)@ == old(others)@,
        call_ensures(classify_pushed, (line, panes), whole),
        call_ensures(classify_fields, (&f, others), parts),
        call_ensures(lifecycle_change, (line,), change),
        call_ensures(change_of_fields, (&f,), in_parts),
    ensures
        final(panes)@ == final(others)@,
        match (whole, parts) {
            (Pushed::AgentStatus(a), Pushed::AgentStatus(b)) => a.pane == b.pane && a.workspace_id@
                == b.workspace_id@ && a.status == b.status && a.synthetic == b.synthetic
                && opt_view(a.workspace_name) == opt_view(b.workspace_name) && opt_view(a.title)
                == opt_view(b.title),
            (Pushed::PaneCreated(a), Pushed::PaneCreated(b)) => opt_view(a) == opt_view(b),
            (
                Pushed::PaneGone { herdr_pane_id: a, pane: m },
                Pushed::PaneGone { herdr_pane_id: b, pane: n },
            ) => opt_view(a) == opt_view(b) && m == n,
            (Pushed::Ignored, Pushed::Ignored) => true,
            _ => false,
        },
        match (change, in_parts) {
            (Some(PaneChange::Created(a)), Some(PaneChange::Created(b))) => opt_view(a) == opt_view(
                b,
            ),
            (Some(PaneChange::Gone(a)), Some(PaneChange::Gone(b))) => opt_view(a) == opt_view(b),
            (None, None) => true,
            _ => false,
        },
{
}

} // verus!
