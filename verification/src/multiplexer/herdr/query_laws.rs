//! How a layout query goes, request by request, and what it ends with, stated over its
//! calls.

use vstd::prelude::*;
use vstd::string::*;

use super::api::{
    ApiRequest, ApiResponseBody, ApiResult, PaneInfo, PaneLayoutSnapshot, SessionSnapshot, TabInfo,
};
use super::control::{ControlError, HerdrControl};
use super::control_laws::{is_next_request, text_at};
use super::json::params_view;
use super::layout::{
    find_next_tab, layout_from_snapshot, pane_in, transcode_layout, values, workspace_is,
};
use super::query::{LayoutPhase, LayoutQuery, LayoutStep};
use super::registry::{HerdrPaneRegistry, HerdrTabRegistry};
use crate::multiplexer::types::LayoutSnapshot;
use crate::seqs::{first_index, lemma_first_index, lemma_first_index_meaning};
use crate::text::decimal;

verus! {

/// The result that a response carries, if it carries one.
pub open spec fn brought(reply: Result<ApiResponseBody, String>) -> Option<ApiResult> {
    match reply {
        Ok(ApiResponseBody::Success { result: Ok(r), .. }) => Some(r),
        _ => None,
    }
}

proof fn lemma_param_places(r: ApiRequest)
    ensures
        params_view(r.params@).len() == r.params@.len(),
        forall|k: int|
            0 <= k < r.params@.len() ==> params_view(r.params@)[k] == (
                (#[trigger] r.params@[k]).0@,
                r.params@[k].1@,
            ),
{
}

/// A query begins with a snapshot of everything, for the workspace that was given.
pub proof fn law_a_query_begins_with_a_snapshot(
    control: &mut HerdrControl,
    ws: &str,
    r: (LayoutQuery, ApiRequest),
)
    requires
        call_ensures(HerdrControl::query_layout, (control, ws), r),
    ensures
        r.0.workspace_id@ == ws@,
        r.0.phase is Snapshot,
        r.1.method@ == "session.snapshot"@,
        r.1.params@.len() == 0,
        is_next_request(r.1, *old(control), *final(control)),
{
    lemma_param_places(r.1);
}

/// A snapshot that lists the workspace ends the query with what it shows of it: the layout
/// that is read from that snapshot, and the registries that reading leaves. No further
/// request goes out.
pub proof fn law_a_snapshot_with_the_workspace_is_enough(
    control: &mut HerdrControl,
    query: LayoutQuery,
    reply: Result<ApiResponseBody, String>,
    step: LayoutStep,
    snapshot: &SessionSnapshot,
    ws: &str,
    pane_reg: &mut HerdrPaneRegistry,
    tab_reg: &mut HerdrTabRegistry,
    read: LayoutSnapshot,
)
    requires
        call_ensures(HerdrControl::query_layout_reply, (control, query, reply), step),
        query.phase is Snapshot,
        ws@ == query.workspace_id@,
        brought(reply) matches Some(ApiResult::SessionSnapshot { snapshot: s }) && *s == *snapshot,
        old(pane_reg)@ == old(control).panes()@,
        old(tab_reg)@ == old(control).tabs()@,
        call_ensures(layout_from_snapshot, (snapshot, ws, pane_reg, tab_reg), Some(read)),
    ensures
        step matches LayoutStep::Finished(Ok(l)) && l@ == read@,
        final(control).panes()@ == final(pane_reg)@,
        final(control).tabs()@ == final(tab_reg)@,
        final(control).next_number() == old(control).next_number(),
        !final(control).degraded(),
{
}

/// A snapshot that does not list the workspace decides nothing, and one that did not come
/// decides nothing either: the workspaces are asked for. Only the second is remembered as a
/// degraded snapshot.
pub proof fn law_without_a_snapshot_the_workspaces_are_asked_for(
    control: &mut HerdrControl,
    query: LayoutQuery,
    reply: Result<ApiResponseBody, String>,
    step: LayoutStep,
)
    requires
        call_ensures(HerdrControl::query_layout_reply, (control, query, reply), step),
        query.phase is Snapshot,
        brought(reply) matches Some(ApiResult::SessionSnapshot { snapshot }) ==> forall|w: int|
            0 <= w < snapshot.workspaces@.len() ==> (
            #[trigger] snapshot.workspaces@[w]).workspace_id@ != query.workspace_id@,
    ensures
        step matches LayoutStep::Ask(q, r) && q.workspace_id@ == query.workspace_id@
            && q.phase is Workspaces && r.method@ == "workspace.list"@ && r.params@.len() == 0
            && r.id@ == "muxrd-"@ + decimal(old(control).next_number() as nat),
        final(control).degraded() <==> !(brought(reply) matches Some(
            ApiResult::SessionSnapshot { .. },
        )),
        final(control).panes()@ == old(control).panes()@,
        final(control).tabs()@ == old(control).tabs()@,
{
    if let Some(ApiResult::SessionSnapshot { snapshot }) = brought(reply) {
        let p = workspace_is(query.workspace_id@);
        lemma_first_index_meaning(snapshot.workspaces@, p);
        let k = first_index(snapshot.workspaces@, p);
        if k < snapshot.workspaces@.len() {
            assert(p(snapshot.workspaces@[k]));
            assert(snapshot.workspaces@[k].workspace_id@ != query.workspace_id@);
        }
    }
    if let LayoutStep::Ask(_, r) = step {
        lemma_param_places(r);
    }
}

/// A listed workspace is asked for its tabs, and its own active tab is kept in mind.
pub proof fn law_a_listed_workspace_is_asked_for_its_tabs(
    control: &mut HerdrControl,
    query: LayoutQuery,
    reply: Result<ApiResponseBody, String>,
    step: LayoutStep,
    w: int,
)
    requires
        call_ensures(HerdrControl::query_layout_reply, (control, query, reply), step),
        query.phase is Workspaces,
        brought(reply) matches Some(ApiResult::WorkspaceList { workspaces }) && 0 <= w
            < workspaces@.len() && workspaces@[w].workspace_id@ == query.workspace_id@ && forall|
            m: int,
        |
            0 <= m < w ==> (#[trigger] workspaces@[m]).workspace_id@ != query.workspace_id@,
    ensures
        step matches LayoutStep::Ask(q, r) && {
            &&& q.workspace_id@ == query.workspace_id@
            &&& r.method@ == "tab.list"@
            &&& r.params@.len() == 1
            &&& text_at(r, 0, "workspace_id"@, query.workspace_id@)
            &&& is_next_request(r, *old(control), *final(control))
            &&& q.phase matches LayoutPhase::Tabs { active } && (brought(reply) matches Some(
                ApiResult::WorkspaceList { workspaces },
            ) && active@ == workspaces@[w].active_tab_id@)
        },
{
    if let Some(ApiResult::WorkspaceList { workspaces }) = brought(reply) {
        let p = workspace_is(query.workspace_id@);
        assert forall|m: int| 0 <= m < w implies !p(#[trigger] workspaces@[m]) by {
            assert(workspaces@[m].workspace_id@ != query.workspace_id@);
        }
        lemma_first_index(workspaces@, p, w);
    }
    if let LayoutStep::Ask(_, r) = step {
        lemma_param_places(r);
    }
}

/// A workspace that is not listed ends the query as unknown, and nothing is registered.
pub proof fn law_an_unlisted_workspace_is_unknown(
    control: &mut HerdrControl,
    query: LayoutQuery,
    reply: Result<ApiResponseBody, String>,
    step: LayoutStep,
)
    requires
        call_ensures(HerdrControl::query_layout_reply, (control, query, reply), step),
        query.phase is Workspaces,
        brought(reply) matches Some(ApiResult::WorkspaceList { workspaces }) && forall|m: int|
            0 <= m < workspaces@.len() ==> (#[trigger] workspaces@[m]).workspace_id@
                != query.workspace_id@,
    ensures
        step matches LayoutStep::Finished(Err(ControlError::UnknownSpace(u))) && u.space_id@
            == query.workspace_id@,
        *final(control) == *old(control),
{
    if let Some(ApiResult::WorkspaceList { workspaces }) = brought(reply) {
        let p = workspace_is(query.workspace_id@);
        assert forall|m: int| 0 <= m < workspaces@.len() implies !p(#[trigger] workspaces@[m]) by {
            assert(workspaces@[m].workspace_id@ != query.workspace_id@);
        }
        lemma_first_index(workspaces@, p, workspaces@.len() as int);
    }
}

/// After the tabs come the panes of the same workspace; the tabs are kept as they came.
pub proof fn law_after_the_tabs_come_the_panes(
    control: &mut HerdrControl,
    query: LayoutQuery,
    reply: Result<ApiResponseBody, String>,
    step: LayoutStep,
)
    requires
        call_ensures(HerdrControl::query_layout_reply, (control, query, reply), step),
        query.phase is Tabs,
        brought(reply) matches Some(ApiResult::TabList { .. }),
    ensures
        step matches LayoutStep::Ask(q, r) && {
            &&& q.workspace_id@ == query.workspace_id@
            &&& r.method@ == "pane.list"@
            &&& r.params@.len() == 1
            &&& text_at(r, 0, "workspace_id"@, query.workspace_id@)
            &&& is_next_request(r, *old(control), *final(control))
            &&& q.phase matches LayoutPhase::Panes { active, tabs } && active@
                == query.phase->Tabs_active@ && (brought(reply) matches Some(
                ApiResult::TabList { tabs: listed },
            ) && tabs@ == listed@)
        },
{
    if let LayoutStep::Ask(_, r) = step {
        lemma_param_places(r);
    }
}

/// Once tabs and panes are known, a query asks for the layout of the next tab that has a
/// pane and no layout, through the first pane of that tab, and keeps everything in mind.
/// When there is no such tab it ends with the layout that these records make up, and
/// registers what that layout registers.
pub open spec fn goes_on(
    step: LayoutStep,
    ws: Seq<char>,
    before: HerdrControl,
    after: HerdrControl,
    active: Seq<char>,
    tabs: Seq<TabInfo>,
    panes: Seq<PaneInfo>,
    layouts: Seq<PaneLayoutSnapshot>,
    next: int,
) -> bool {
    &&& step is Ask <==> next < tabs.len()
    &&& step matches LayoutStep::Ask(q, r) ==> {
        &&& q.workspace_id@ == ws
        &&& r.method@ == "pane.layout"@
        &&& r.params@.len() == 1
        &&& is_next_request(r, before, after)
        &&& exists|p: int|
            0 <= p < panes.len() && (#[trigger] panes[p]).tab_id@ == tabs[next].tab_id@ && text_at(
                r,
                0,
                "pane_id"@,
                panes[p].pane_id@,
            ) && forall|m: int| 0 <= m < p ==> (#[trigger] panes[m]).tab_id@ != tabs[next].tab_id@
        &&& q.phase matches LayoutPhase::Layouts {
            active: a,
            tabs: t,
            panes: ps,
            layouts: ls,
            next: n,
        } && a@ == active && t@ == tabs && ps@ == panes && ls@ == layouts && n == next + 1
    }
}

proof fn lemma_goes_on(
    control: &mut HerdrControl,
    ws: Seq<char>,
    step: LayoutStep,
    active: Seq<char>,
    tabs: &Vec<TabInfo>,
    panes: &Vec<PaneInfo>,
    layouts: &Vec<PaneLayoutSnapshot>,
    from: usize,
    next: usize,
)
    requires
        from <= tabs@.len(),
        super::query::carries_on(
            step,
            *old(control),
            *final(control),
            ws,
            active,
            tabs@,
            panes@,
            layouts@,
            from as int,
        ),
        call_ensures(find_next_tab, (tabs, panes, layouts, from), next),
    ensures
        goes_on(
            step,
            ws,
            *old(control),
            *final(control),
            active,
            tabs@,
            panes@,
            layouts@,
            next as int,
        ),
{
    if next < tabs@.len() {
        let tab = tabs@[next as int].tab_id@;
        let p = pane_in(tab);
        lemma_first_index_meaning(panes@, p);
        let k = first_index(panes@, p);
        assert(p(panes@[k]));
        assert forall|m: int| 0 <= m < k implies (#[trigger] panes@[m]).tab_id@ != tab by {
            assert(!p(panes@[m]));
        }
        if let LayoutStep::Ask(_, r) = step {
            lemma_param_places(r);
            assert(text_at(r, 0, "pane_id"@, panes@[k].pane_id@));
        }
    }
}

/// The panes are taken as they came, and the layouts are asked for from the first tab on.
pub proof fn law_after_the_panes_come_the_layouts(
    control: &mut HerdrControl,
    query: LayoutQuery,
    reply: Result<ApiResponseBody, String>,
    step: LayoutStep,
    tabs: &Vec<TabInfo>,
    panes: &Vec<PaneInfo>,
    none: &Vec<PaneLayoutSnapshot>,
    next: usize,
)
    requires
        call_ensures(HerdrControl::query_layout_reply, (control, query, reply), step),
        query.phase matches LayoutPhase::Panes { tabs: t, .. } && t@ == tabs@,
        brought(reply) matches Some(ApiResult::PaneList { panes: listed }) && listed@ == panes@,
        none@.len() == 0,
        call_ensures(find_next_tab, (tabs, panes, none, 0), next),
    ensures
        goes_on(
            step,
            query.workspace_id@,
            *old(control),
            *final(control),
            query.phase->Panes_active@,
            tabs@,
            panes@,
            none@,
            next as int,
        ),
{
    assert(none@ =~= Seq::<PaneLayoutSnapshot>::empty());
    lemma_goes_on(
        control,
        query.workspace_id@,
        step,
        query.phase->Panes_active@,
        tabs,
        panes,
        none,
        0,
        next,
    );
}

/// A layout that came in is kept with the others, and the query goes on behind its tab.
pub proof fn law_a_layout_is_kept_and_the_next_one_asked_for(
    control: &mut HerdrControl,
    query: LayoutQuery,
    reply: Result<ApiResponseBody, String>,
    step: LayoutStep,
    active: String,
    tabs: &Vec<TabInfo>,
    panes: &Vec<PaneInfo>,
    layouts: &mut Vec<PaneLayoutSnapshot>,
    layout: PaneLayoutSnapshot,
    from: usize,
    next: usize,
)
    requires
        call_ensures(HerdrControl::query_layout_reply, (control, query, reply), step),
        query.phase matches LayoutPhase::Layouts {
            active: a,
            tabs: t,
            panes: ps,
            layouts: ls,
            next: n,
        } && a@ == active@ && t@ == tabs@ && ps@ == panes@ && ls@ == old(layouts)@ && n == from,
        brought(reply) matches Some(ApiResult::PaneLayout { layout: l }) && l == layout,
        call_ensures(super::layout::keep_layout, (layouts, layout), ()),
        from <= tabs@.len(),
        call_ensures(find_next_tab, (tabs, panes, final(layouts), from), next),
    ensures
        goes_on(
            step,
            query.workspace_id@,
            *old(control),
            *final(control),
            active@,
            tabs@,
            panes@,
            final(layouts)@,
            next as int,
        ),
{
    let all = *final(layouts);
    lemma_goes_on(control, query.workspace_id@, step, active@, tabs, panes, &all, from, next);
}

/// A query that has every layout ends with the layout that its records make up.
pub proof fn law_a_query_ends_with_what_was_collected(
    control: &mut HerdrControl,
    query: LayoutQuery,
    reply: Result<ApiResponseBody, String>,
    step: LayoutStep,
    l: LayoutSnapshot,
    tabs: &Vec<&TabInfo>,
    panes: &Vec<&PaneInfo>,
    layouts: &Vec<&PaneLayoutSnapshot>,
    active: &str,
    pane_reg: &mut HerdrPaneRegistry,
    tab_reg: &mut HerdrTabRegistry,
    made: LayoutSnapshot,
)
    requires
        call_ensures(HerdrControl::query_layout_reply, (control, query, reply), step),
        query.phase.wf(),
        step == LayoutStep::Finished(Ok(l)),
        match query.phase {
            LayoutPhase::Panes { active: a, tabs: t } => a@ == active@ && t@ == values(tabs@)
                && layouts@.len() == 0 && (brought(reply) matches Some(
                ApiResult::PaneList { panes: p },
            ) && p@ == values(panes@)),
            LayoutPhase::Layouts { active: a, tabs: t, panes: p, layouts: ls, .. } => a@ == active@
                && t@ == values(tabs@) && p@ == values(panes@) && (brought(reply) matches Some(
                ApiResult::PaneLayout { layout },
            ) && super::layout::with_layout(ls@, layout) == values(layouts@)),
            _ => false,
        },
        old(pane_reg)@ == old(control).panes()@,
        old(tab_reg)@ == old(control).tabs()@,
        call_ensures(transcode_layout, (tabs, panes, layouts, active, pane_reg, tab_reg), made),
    ensures
        l@ == made@,
        final(control).panes()@ == final(pane_reg)@,
        final(control).tabs()@ == final(tab_reg)@,
{
    if layouts@.len() == 0 {
        assert(values(layouts@) =~= Seq::<PaneLayoutSnapshot>::empty());
    }
}

/// A request of the fan-out that herdr refuses ends the query with herdr's code and message,
/// and one that failed on its way with its cause. Neither registers anything.
pub proof fn law_a_refused_request_ends_the_query(
    control: &mut HerdrControl,
    query: LayoutQuery,
    reply: Result<ApiResponseBody, String>,
    step: LayoutStep,
    method: Seq<char>,
)
    requires
        call_ensures(HerdrControl::query_layout_reply, (control, query, reply), step),
        query.phase !is Snapshot,
        method == (match query.phase {
            LayoutPhase::Tabs { .. } => "tab.list"@,
            LayoutPhase::Panes { .. } => "pane.list"@,
            LayoutPhase::Layouts { .. } => "pane.layout"@,
            _ => "workspace.list"@,
        }),
    ensures
        reply matches Ok(ApiResponseBody::Failure { error }) ==> *final(control) == *old(control)
            && (step matches LayoutStep::Finished(Err(ControlError::Failed(t))) && t@ == "herdr "@
            + method + " error "@ + error.code@ + ": "@ + error.message@),
        reply matches Err(why) ==> *final(control) == *old(control) && (
        step matches LayoutStep::Finished(Err(ControlError::Failed(t))) && t@ == why@),
{
}

} // verus!
