//! What is learnt by asking, stated over the calls: how a listing is put together, which
//! panes are subscribed to, what a resync reports and what a probe concludes.

use vstd::prelude::*;
use vstd::string::*;

use std::collections::HashMap;

use super::api::{
    AgentStatus as HerdrAgentStatus, ApiRequest, ApiResponseBody, ApiResult, PaneInfo,
    WorkspaceInfo,
};
use super::control::HerdrControl;
use super::control_laws::{is_next_request, text_at};
use super::json::params_view;
use super::listing::{
    inner, law_a_listing_is_complete, AllPanes, Listing, ListingStep, Purpose,
};
use super::panes::{
    apply_changes, bootstrap_pane_set, change_views, changes_of,
    law_no_pane_is_missed_during_enumeration, pane_needs_widening, pane_set_after, with_created,
    PaneSet,
};
use super::pushed::{lifecycle_change, texts, Change, PaneChange};
use super::registry::{panes_wf, HerdrPaneRegistry};
use super::resync::{
    build_resync_events, change_seq, distinct_panes, has_id, known_after,
    law_a_known_status_gets_no_event, lemma_observe_all, listed_views, moved, number_in,
    observe_all, observed_event, owed, settled, unannounced, watchdog_verdict, ProbePane,
    ResyncPane, Verdict,
};
use crate::multiplexer::events::{opt_view, AgentStatus, AgentStatusChanged};

verus! {

/// Whether the daemon's word for a status means the same as herdr's.
pub open spec fn same_status(s: AgentStatus, h: HerdrAgentStatus) -> bool {
    &&& s is Idle <==> h is Idle
    &&& s is Working <==> h is Working
    &&& s is Blocked <==> h is Blocked
    &&& s is Done <==> h is Done
    &&& s is Unknown <==> h is Unknown
}

// ------------------------------------------------------------------------ listing

/// A listing asks for the panes of each workspace in order, keeps what it was told, and is
/// over once every workspace has its panes.
pub proof fn law_a_listing_goes_through_every_workspace(
    control: &mut HerdrControl,
    listing: Listing,
    reply: Result<ApiResponseBody, String>,
    panes: Vec<PaneInfo>,
    printed: String,
    step: ListingStep,
)
    requires
        listing.wf(),
        listing.so_far is Some,
        reply == Ok::<ApiResponseBody, String>(
            (ApiResponseBody::Success { result: Ok(ApiResult::PaneList { panes }), printed }),
        ),
        call_ensures(HerdrControl::list_all_reply, (control, listing, reply), step),
    ensures
        ({
            let a = listing.so_far->0;
            let n = a.panes@.len() as int;
            &&& n + 1 < a.workspaces@.len() ==> (step matches ListingStep::Ask(l, r)
                && is_next_request(r, *old(control), *final(control)) && r.method@ == "pane.list"@
                && r.params@.len() == 1 && text_at(
                r,
                0,
                "workspace_id"@,
                a.workspaces@[n + 1].workspace_id@,
            ) && l.purpose == listing.purpose && (l.so_far matches Some(b) && b.workspaces@
                == a.workspaces@ && b.panes@.len() == n + 1 && b.panes@[n]@ == panes@ && forall|
                i: int,
            |
                0 <= i < n ==> (#[trigger] b.panes@[i])@ == a.panes@[i]@))
            &&& n + 1 == a.workspaces@.len() ==> (step matches ListingStep::Finished(Ok(b))
                && b.workspaces@ == a.workspaces@ && b.panes@.len() == n + 1 && b.panes@[n]@
                == panes@ && forall|i: int|
                0 <= i < n ==> (#[trigger] b.panes@[i])@ == a.panes@[i]@)
        }),
{
    let a = listing.so_far->0;
    let n = a.panes@.len() as int;
    let all = inner(a.panes@).push(panes@);
    match step {
        ListingStep::Ask(l, r) => {
            let b = l.so_far->0;
            assert(inner(b.panes@) == all);
            assert(inner(b.panes@).len() == b.panes@.len());
            assert forall|i: int| 0 <= i <= n implies (#[trigger] b.panes@[i])@ == all[i] by {
                assert(inner(b.panes@)[i] == b.panes@[i]@);
            }
            assert forall|i: int| 0 <= i < n implies (#[trigger] b.panes@[i])@ == a.panes@[i]@ by {
                assert(all[i] == a.panes@[i]@);
            }
            assert(params_view(r.params@).len() == r.params@.len());
            assert(params_view(r.params@)[0] == (r.params@[0].0@, r.params@[0].1@));
        },
        ListingStep::Finished(Ok(b)) => {
            assert(inner(b.panes@) == all);
            assert(inner(b.panes@).len() == b.panes@.len());
            assert forall|i: int| 0 <= i <= n implies (#[trigger] b.panes@[i])@ == all[i] by {
                assert(inner(b.panes@)[i] == b.panes@[i]@);
            }
            assert forall|i: int| 0 <= i < n implies (#[trigger] b.panes@[i])@ == a.panes@[i]@ by {
                assert(all[i] == a.panes@[i]@);
            }
        },
        _ => {},
    }
}

/// A listing begins with the workspaces that herdr lists, goes on with the first of them,
/// and is over at once if there is none.
pub proof fn law_a_listing_begins_with_the_first_workspace(
    control: &mut HerdrControl,
    listing: Listing,
    reply: Result<ApiResponseBody, String>,
    workspaces: Vec<WorkspaceInfo>,
    printed: String,
    step: ListingStep,
)
    requires
        listing.so_far is None,
        reply == Ok::<ApiResponseBody, String>(
            (ApiResponseBody::Success {
                result: Ok(ApiResult::WorkspaceList { workspaces }),
                printed,
            }),
        ),
        call_ensures(HerdrControl::list_all_reply, (control, listing, reply), step),
    ensures
        workspaces@.len() > 0 ==> (step matches ListingStep::Ask(l, r) && r.method@
            == "pane.list"@ && r.params@.len() == 1 && text_at(
            r,
            0,
            "workspace_id"@,
            workspaces@[0].workspace_id@,
        ) && (l.so_far matches Some(b) && b.workspaces@ == workspaces@ && b.panes@.len() == 0)),
        workspaces@.len() == 0 ==> (step matches ListingStep::Finished(Ok(b))
            && b.workspaces@.len() == 0 && b.panes@.len() == 0),
{
    match step {
        ListingStep::Ask(l, r) => {
            let b = l.so_far->0;
            assert(inner(b.panes@).len() == b.panes@.len());
            assert(params_view(r.params@).len() == r.params@.len());
            assert(params_view(r.params@)[0] == (r.params@[0].0@, r.params@[0].1@));
        },
        ListingStep::Finished(Ok(b)) => {
            assert(inner(b.panes@).len() == b.panes@.len());
        },
        _ => {},
    }
}

/// A listing that meets a refusal or a failed exchange fails as a whole: half a listing is
/// never taken for a whole one.
pub proof fn law_half_a_listing_is_none(
    control: &mut HerdrControl,
    listing: Listing,
    reply: Result<ApiResponseBody, String>,
    step: ListingStep,
)
    requires
        listing.wf(),
        reply is Err || (reply matches Ok(b) && b is Failure),
        call_ensures(HerdrControl::list_all_reply, (control, listing, reply), step),
    ensures
        step matches ListingStep::Finished(Err(_)),
        *final(control) == *old(control),
        ({
            let word = match listing.purpose {
                Purpose::Enumerate => "enumerate"@,
                Purpose::Resync => "resync"@,
                Purpose::Probe => "probe"@,
            };
            let method = match listing.so_far {
                None => "workspace.list"@,
                Some(_) => "pane.list"@,
            };
            let what = match listing.so_far {
                None => ": workspace.list: "@,
                Some(a) => ": pane.list for "@ + a.workspaces@[a.panes@.len() as int].workspace_id@
                    + ": "@,
            };
            let cause = match reply {
                Err(t) => t@,
                Ok(ApiResponseBody::Failure { error }) => "herdr "@ + method + " error "@
                    + error.code@ + ": "@ + error.message@,
                _ => Seq::empty(),
            };
            step matches ListingStep::Finished(Err(t)) && t@ == word + what + cause
        }),
{
    if let ListingStep::Finished(Err(t)) = step {
        if let Some(a) = listing.so_far {
            let word = listing.purpose.word();
            let ws = a.workspaces@[a.panes@.len() as int].workspace_id@;
            assert(forall|c: Seq<char>|
                word + (": pane.list for "@ + ws + ": "@) + c =~= #[trigger] (word
                    + ": pane.list for "@ + ws + ": "@ + c));
        }
    }
}

/// What a resync is given of a pane is what was listed of it and of its workspace.
pub proof fn law_a_resync_is_given_what_was_listed(
    all: &AllPanes,
    input: Vec<ResyncPane>,
    i: int,
)
    requires
        call_ensures(AllPanes::resync_input, (all,), input),
        0 <= i < input@.len(),
    ensures
        input@.len() == all.all().len(),
        ({
            let (ws, pane) = all.all()[i];
            &&& input@[i].herdr_pane_id@ == pane.pane_id@
            &&& input@[i].terminal_id@ == pane.terminal_id@
            &&& input@[i].workspace_id@ == ws.workspace_id@
            &&& input@[i].workspace_label@ == ws.label@
            &&& opt_view(input@[i].title) == opt_view(pane.title)
            &&& input@[i].status == pane.agent_status
        }),
{
    assert(listed_views(input@).len() == input@.len());
    assert(listed_views(input@)[i] == input@[i]@);
}

/// What a probe sees of a pane is what was listed of it, under the id that it has.
pub proof fn law_a_probe_sees_what_was_listed(
    all: &AllPanes,
    panes: &HerdrPaneRegistry,
    observed: Vec<ProbePane>,
    i: int,
)
    requires
        panes@.len() <= u32::MAX,
        call_ensures(AllPanes::probe_panes, (all, panes), observed),
        0 <= i < observed@.len(),
    ensures
        observed@.len() == all.all().len(),
        observed@[i].herdr_pane_id@ == all.all()[i].1.pane_id@,
        same_status(observed@[i].status, all.all()[i].1.agent_status),
        observed@[i].pane matches Some(id) ==> 1 <= id <= panes@.len() && panes@[id - 1].pane_id
            == observed@[i].herdr_pane_id@,
{
    let p = observed@[i];
    crate::seqs::lemma_first_index_meaning(
        panes@,
        super::registry::is_pane(p.herdr_pane_id@),
    );
}

// -------------------------------------------------------------------------- panes

/// A new pane calls for a wider subscription exactly if it is not covered, or if it is
/// not known which pane it is.
pub proof fn law_an_uncovered_pane_widens(pane: Option<&str>, subscribed: &PaneSet, yes: bool)
    requires
        call_ensures(pane_needs_widening, (pane, subscribed), yes),
    ensures
        pane is None ==> yes,
        pane matches Some(p) ==> (yes <==> !subscribed@.contains(p@)),
{
}

/// The panes to subscribe to are those enumerated and those announced, without those that
/// went; where nothing came or went they are the enumerated ones, in their order.
pub proof fn law_the_subscribed_panes_are_those_that_are_there(
    enumerated: Vec<String>,
    changes: &Vec<Option<PaneChange>>,
    ids: Vec<String>,
    pane: Seq<char>,
)
    requires
        call_ensures(apply_changes, (enumerated, changes), ids),
    ensures
        texts(ids@).contains(pane) <==> (texts(enumerated@).contains(pane) || change_views(
            changes@,
        ).contains(Some(Change::Created(Some(pane))))) && !change_views(changes@).contains(
            Some(Change::Gone(Some(pane))),
        ),
        changes@.len() == 0 ==> texts(ids@) == texts(enumerated@),
{
    law_no_pane_is_missed_during_enumeration(texts(enumerated@), change_views(changes@), pane);
    if changes@.len() == 0 {
        let none = change_views(changes@);
        let all = texts(enumerated@);
        assert(with_created(all, none) == all);
        lemma_filter_keeps_all(
            all,
            |id: Seq<char>| !super::panes::tells_gone(none, id),
        );
        assert(pane_set_after(all, none) == all);
    }
}

proof fn lemma_filter_keeps_all(s: Seq<Seq<char>>, p: spec_fn(Seq<char>) -> bool)
    requires
        forall|x: Seq<char>| #[trigger] p(x),
    ensures
        s.filter(p) == s,
    decreases s.len(),
{
    reveal(Seq::filter);
    if s.len() > 0 {
        lemma_filter_keeps_all(s.drop_last(), p);
        assert(s.drop_last().push(s.last()) =~= s);
    } else {
        assert(s.filter(p) =~= s);
    }
}

// ------------------------------------------------------------------------- resync

/// Whether a listing names no pane twice.
pub open spec fn names_no_pane_twice(input: Seq<ResyncPane>) -> bool {
    forall|i: int, j: int|
        0 <= i < j < input.len() ==> (#[trigger] input[i]).herdr_pane_id@ != (
        #[trigger] input[j]).herdr_pane_id@
}

/// After a resync every listed pane has an id and the attach key that was listed, and its
/// listed status is the last known one. It is reported exactly if it is blocked or done
/// and was not known to be so: with its own id, workspace, label, title and status, and as
/// observed after the fact.
pub proof fn law_a_resync_reports_what_wants_attention(
    input: &Vec<ResyncPane>,
    reg: &mut HerdrPaneRegistry,
    last: &mut HashMap<u32, AgentStatus>,
    events: Vec<AgentStatusChanged>,
    k: int,
)
    requires
        panes_wf(old(reg)@),
        names_no_pane_twice(input@),
        call_ensures(build_resync_events, (input, reg, last), events),
        final(reg)@.len() < u32::MAX,
        0 <= k < input@.len(),
    ensures
        exists|id: u32|
            1 <= id <= final(reg)@.len() && (#[trigger] final(reg)@[id - 1]).pane_id
                == input@[k].herdr_pane_id@ && final(reg)@[id - 1].terminal_id
                == input@[k].terminal_id@ && final(last)@.dom().contains(id) && same_status(
                final(last)@[id],
                input@[k].status,
            ) && (((input@[k].status is Blocked || input@[k].status is Done) && !(old(last)@.dom().contains(id) && same_status(old(last)@[id], input@[k].status))) <==> exists|
                j: int,
            |
                0 <= j < events@.len() && (#[trigger] events@[j]).pane == id && same_status(
                    events@[j].status,
                    input@[k].status,
                ) && events@[j].workspace_id@ == input@[k].workspace_id@ && (
                events@[j].workspace_name matches Some(name) && name@
                    == input@[k].workspace_label@) && opt_view(events@[j].title) == opt_view(
                    input@[k].title,
                ) && events@[j].synthetic),
{
    let all = listed_views(input@);
    assert(all.len() == input@.len());
    assert forall|i: int| 0 <= i < all.len() implies #[trigger] all[i] == input@[i]@ by {}
    assert(distinct_panes(all)) by {
        assert forall|i: int, j: int| 0 <= i < j < all.len() implies (#[trigger] all[i]).pane != (
        #[trigger] all[j]).pane by {
            assert(input@[i].herdr_pane_id@ != input@[j].herdr_pane_id@);
        }
    }
    let known = old(last)@;
    let end = observe_all(old(reg)@, known, all);
    lemma_observe_all(old(reg)@, known, all);
    let p = all[k];
    assert(has_id(end.reg, p));
    assert(settled(end, p));
    let id = number_in(end.reg, p);
    assert(known_after(old(reg)@, known, all)[id] == p.status);
    law_a_known_status_gets_no_event(old(reg)@, known, all, k);
    let event = observed_event(id, p);
    assert(change_seq(events@) == end.events);
    assert(change_seq(events@).len() == events@.len());
    assert forall|j: int| 0 <= j < events@.len() implies #[trigger] events@[j]@
        == end.events[j] by {
        assert(change_seq(events@)[j] == events@[j]@);
    }
    if owed(end.reg, known, p) {
        let j = choose|j: int| 0 <= j < end.events.len() && end.events[j] == event;
        assert(events@[j]@ == event);
        assert(events@[j].pane == id);
    }
    if exists|j: int|
        0 <= j < events@.len() && (#[trigger] events@[j]).pane == id && same_status(
            events@[j].status,
            input@[k].status,
        ) && events@[j].workspace_id@ == input@[k].workspace_id@ && (
        events@[j].workspace_name matches Some(name) && name@ == input@[k].workspace_label@)
            && opt_view(events@[j].title) == opt_view(input@[k].title) && events@[j].synthetic {
        let j = choose|j: int|
            0 <= j < events@.len() && (#[trigger] events@[j]).pane == id && same_status(
                events@[j].status,
                input@[k].status,
            ) && events@[j].workspace_id@ == input@[k].workspace_id@ && (
            events@[j].workspace_name matches Some(name) && name@ == input@[k].workspace_label@)
                && opt_view(events@[j].title) == opt_view(input@[k].title) && events@[j].synthetic;
        assert(events@[j]@ == event);
        assert(end.events[j] == event);
        assert(end.events.contains(event));
    }
    assert(final(reg)@[id - 1].pane_id == input@[k].herdr_pane_id@);
}

/// A resync reports nothing but blocked and done agents, each as observed after the fact.
pub proof fn law_a_resync_reports_nothing_else(
    input: &Vec<ResyncPane>,
    reg: &mut HerdrPaneRegistry,
    last: &mut HashMap<u32, AgentStatus>,
    events: Vec<AgentStatusChanged>,
    j: int,
)
    requires
        call_ensures(build_resync_events, (input, reg, last), events),
        0 <= j < events@.len(),
    ensures
        events@[j].status is Blocked || events@[j].status is Done,
        events@[j].synthetic,
{
    let all = listed_views(input@);
    assert(change_seq(events@).len() == events@.len());
    assert(change_seq(events@)[j] == events@[j]@);
    super::resync::law_resync_events_want_attention(old(reg)@, old(last)@, all, j);
}

// ------------------------------------------------------------------------- probes

/// A probe suspects the lifecycle connection exactly if it sees a pane that is not
/// covered, and the agent-status connection exactly if it sees none such but a pane whose
/// status is not the last known one.
pub proof fn law_a_probe_suspects_what_was_not_delivered(
    observed: &Vec<ProbePane>,
    subscribed: &PaneSet,
    last: &HashMap<u32, AgentStatus>,
    v: Verdict,
)
    requires
        call_ensures(watchdog_verdict, (observed, subscribed, last), v),
    ensures
        v is LifecycleWedged <==> exists|i: int|
            0 <= i < observed@.len() && !subscribed@.contains(
                (#[trigger] observed@[i]).herdr_pane_id@,
            ),
        v is StatusWedged <==> v !is LifecycleWedged && exists|i: int|
            0 <= i < observed@.len() && ((#[trigger] observed@[i]).pane matches Some(id)
                && last@.dom().contains(id) && last@[id] != observed@[i].status),
{
    if v is LifecycleWedged {
        let i = choose|i: int|
            0 <= i < observed@.len() && unannounced(#[trigger] observed@[i], subscribed@);
        assert(!subscribed@.contains(observed@[i].herdr_pane_id@));
    } else {
        assert forall|i: int| 0 <= i < observed@.len() implies subscribed@.contains(
            (#[trigger] observed@[i]).herdr_pane_id@,
        ) by {
            assert(!unannounced(observed@[i], subscribed@));
        }
        if v is StatusWedged {
            let i = choose|i: int|
                0 <= i < observed@.len() && moved(#[trigger] observed@[i], last@);
            assert(observed@[i].pane matches Some(id) && last@.dom().contains(id) && last@[id]
                != observed@[i].status);
        } else {
            assert forall|i: int| 0 <= i < observed@.len() implies !((
            #[trigger] observed@[i]).pane matches Some(id) && last@.dom().contains(id) && last@[id]
                != observed@[i].status) by {
                assert(!moved(observed@[i], last@));
            }
        }
    }
}

// ------------------------------------------------------------------------- panes

/// Whether a text is among these.
pub open spec fn among(v: Seq<String>, t: Seq<char>) -> bool {
    exists|i: int| 0 <= i < v.len() && (#[trigger] v[i])@ == t
}

/// Whether a pane is announced.
pub open spec fn announced(changes: Seq<Option<PaneChange>>, pane: Seq<char>) -> bool {
    exists|i: int|
        0 <= i < changes.len() && (#[trigger] changes[i] matches Some(PaneChange::Created(Some(p)))
            && p@ == pane)
}

/// Whether a pane is said to be gone.
pub open spec fn taken_away(changes: Seq<Option<PaneChange>>, pane: Seq<char>) -> bool {
    exists|i: int|
        0 <= i < changes.len() && (#[trigger] changes[i] matches Some(PaneChange::Gone(Some(p)))
            && p@ == pane)
}

proof fn lemma_among(v: Seq<String>, t: Seq<char>)
    ensures
        texts(v).contains(t) <==> among(v, t),
{
    if among(v, t) {
        let i = choose|i: int| 0 <= i < v.len() && (#[trigger] v[i])@ == t;
        assert(texts(v)[i] == t);
    }
    if texts(v).contains(t) {
        let i = choose|i: int| 0 <= i < texts(v).len() && texts(v)[i] == t;
        assert(v[i]@ == t);
    }
}

/// A pane is subscribed to exactly if it was enumerated or announced, and was not taken away
/// meanwhile.
pub proof fn law_a_pane_that_came_is_subscribed_and_one_that_went_is_not(
    enumerated: Vec<String>,
    changes: &Vec<Option<PaneChange>>,
    ids: Vec<String>,
    pane: Seq<char>,
)
    requires
        call_ensures(apply_changes, (enumerated, changes), ids),
    ensures
        among(ids@, pane) <==> (among(enumerated@, pane) || announced(changes@, pane))
            && !taken_away(changes@, pane),
{
    law_the_subscribed_panes_are_those_that_are_there(enumerated, changes, ids, pane);
    lemma_among(ids@, pane);
    lemma_among(enumerated@, pane);
    let all = change_views(changes@);
    if announced(changes@, pane) {
        let i = choose|i: int|
            0 <= i < changes@.len() && (#[trigger] changes@[i] matches Some(
                PaneChange::Created(Some(p)),
            ) && p@ == pane);
        assert(all[i] == Some(Change::Created(Some(pane))));
    }
    if all.contains(Some(Change::Created(Some(pane)))) {
        let i = choose|i: int| 0 <= i < all.len() && all[i] == Some(Change::Created(Some(pane)));
        assert(changes@[i] matches Some(PaneChange::Created(Some(p))) && p@ == pane);
    }
    if taken_away(changes@, pane) {
        let i = choose|i: int|
            0 <= i < changes@.len() && (#[trigger] changes@[i] matches Some(
                PaneChange::Gone(Some(p)),
            ) && p@ == pane);
        assert(all[i] == Some(Change::Gone(Some(pane))));
    }
    if all.contains(Some(Change::Gone(Some(pane)))) {
        let i = choose|i: int| 0 <= i < all.len() && all[i] == Some(Change::Gone(Some(pane)));
        assert(changes@[i] matches Some(PaneChange::Gone(Some(p))) && p@ == pane);
    }
}

/// Lines that were held back count as what each of them says: reading them one by one and
/// applying what they say comes to the same panes.
pub proof fn law_held_back_lines_count_one_by_one(
    enumerated: Vec<String>,
    buffered: &Vec<String>,
    ids: Vec<String>,
    lines: Seq<&str>,
    changes: &Vec<Option<PaneChange>>,
    others: Vec<String>,
)
    requires
        call_ensures(bootstrap_pane_set, (enumerated, buffered), ids),
        lines.len() == buffered@.len(),
        changes@.len() == buffered@.len(),
        forall|i: int| 0 <= i < lines.len() ==> (#[trigger] lines[i])@ == buffered@[i]@,
        forall|i: int|
            0 <= i < lines.len() ==> call_ensures(
                lifecycle_change,
                (#[trigger] lines[i],),
                changes@[i],
            ),
        call_ensures(apply_changes, (enumerated, changes), others),
    ensures
        ids@.len() == others@.len(),
        forall|i: int| 0 <= i < ids@.len() ==> (#[trigger] ids@[i])@ == others@[i]@,
{
    let said = changes_of(texts(buffered@));
    let all = change_views(changes@);
    assert forall|i: int| 0 <= i < said.len() implies #[trigger] said[i] == all[i] by {
        assert(lines[i]@ == buffered@[i]@);
        assert(call_ensures(lifecycle_change, (lines[i],), changes@[i]));
        assert(texts(buffered@)[i] == buffered@[i]@);
    }
    assert(said =~= all);
    assert(texts(ids@) == texts(others@));
    assert(texts(ids@).len() == ids@.len());
    assert(texts(others@).len() == others@.len());
    assert forall|i: int| 0 <= i < ids@.len() implies (#[trigger] ids@[i])@ == others@[i]@ by {
        assert(texts(ids@)[i] == ids@[i]@);
        assert(texts(others@)[i] == others@[i]@);
    }
}

/// A set of panes holds what is in the list that it was made of. Asking tells whether a pane
/// is in it, removing takes out that pane alone, and clearing leaves nothing.
pub proof fn law_a_set_of_panes_holds_what_was_put_in(
    ids: Vec<String>,
    made: PaneSet,
    set: &mut PaneSet,
    id: &str,
    pane: Seq<char>,
    asked: bool,
)
    requires
        call_ensures(PaneSet::of, (ids,), made),
        call_ensures(PaneSet::remove, (set, id), ()),
        call_ensures(PaneSet::contains, (&made, id), asked),
    ensures
        made@.contains(pane) <==> among(ids@, pane),
        asked <==> among(ids@, id@),
        final(set)@.contains(pane) <==> old(set)@.contains(pane) && pane != id@,
{
    lemma_among(ids@, pane);
    lemma_among(ids@, id@);
}

/// A new set and a cleared one hold no pane.
pub proof fn law_a_new_and_a_cleared_set_hold_nothing(
    new: PaneSet,
    set: &mut PaneSet,
    pane: Seq<char>,
)
    requires
        call_ensures(PaneSet::new, (), new),
        call_ensures(PaneSet::clear, (set,), ()),
    ensures
        !new@.contains(pane),
        !final(set)@.contains(pane),
{
}

/// A listing starts with all workspaces, and says what it is for.
pub proof fn law_a_listing_starts_with_all_workspaces(
    control: &mut HerdrControl,
    purpose: Purpose,
    r: (Listing, ApiRequest),
    word: &'static str,
)
    requires
        call_ensures(HerdrControl::list_all, (control, purpose), r),
        call_ensures(Purpose::label, (purpose,), word),
    ensures
        r.0.purpose == purpose,
        r.0.so_far is None,
        r.1.method@ == "workspace.list"@,
        r.1.params@.len() == 0,
        is_next_request(r.1, *old(control), *final(control)),
        purpose is Enumerate ==> word@ == "enumerate"@,
        purpose is Resync ==> word@ == "resync"@,
        purpose is Probe ==> word@ == "probe"@,
{
    assert(params_view(r.1.params@).len() == r.1.params@.len());
}

/// The panes of a listing are those of all its workspaces.
pub proof fn law_the_panes_of_a_listing_are_those_of_all_workspaces(
    a: &AllPanes,
    ids: Vec<String>,
    pane: Seq<char>,
)
    requires
        a.complete(),
        call_ensures(AllPanes::pane_ids, (a,), ids),
    ensures
        among(ids@, pane) <==> exists|w: int, p: int|
            0 <= w < a.panes@.len() && 0 <= p < a.panes@[w]@.len() && (
            #[trigger] a.panes@[w]@[p]).pane_id@ == pane,
{
    let f = |r: (WorkspaceInfo, PaneInfo)| r.1.pane_id@;
    let all = a.all();
    let groups = inner(a.panes@);
    assert(texts(ids@) == all.map_values(f));
    lemma_among(ids@, pane);
    if among(ids@, pane) {
        let i = choose|i: int| 0 <= i < texts(ids@).len() && texts(ids@)[i] == pane;
        let row = all[i];
        assert(f(row) == pane);
        assert(all.contains(row));
        law_a_listing_is_complete(a.workspaces@, groups, row);
        let w = choose|w: int|
            0 <= w < groups.len() && row.0 == a.workspaces@[w] && (#[trigger] groups[w]).contains(
                row.1,
            );
        let p = choose|p: int| 0 <= p < groups[w].len() && groups[w][p] == row.1;
        assert(groups[w] == a.panes@[w]@);
        assert(a.panes@[w]@[p].pane_id@ == pane);
    }
    if exists|w: int, p: int|
        0 <= w < a.panes@.len() && 0 <= p < a.panes@[w]@.len() && (
        #[trigger] a.panes@[w]@[p]).pane_id@ == pane {
        let (w, p) = choose|w: int, p: int|
            0 <= w < a.panes@.len() && 0 <= p < a.panes@[w]@.len() && (
            #[trigger] a.panes@[w]@[p]).pane_id@ == pane;
        let row = (a.workspaces@[w], a.panes@[w]@[p]);
        assert(groups[w] == a.panes@[w]@);
        assert(groups[w].contains(row.1));
        law_a_listing_is_complete(a.workspaces@, groups, row);
        let i = choose|i: int| 0 <= i < all.len() && all[i] == row;
        assert(texts(ids@)[i] == f(all[i]));
    }
}

} // verus!
