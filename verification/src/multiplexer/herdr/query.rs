//! The layout query: one `session.snapshot`, or the fan-out over `workspace.list`,
//! `tab.list`, `pane.list` and `pane.layout`.
//!
//! The query is a sequence of steps. Each step either names the next request or ends
//! the query; the response to a request leads to the next step. A failed snapshot
//! never fails the query: it costs the fan-out's round trips instead. A workspace
//! that the snapshot does not list is asked for again through the fan-out, whose
//! `workspace.list` decides: an unknown workspace is an error, never an empty layout.

use vstd::prelude::*;
use vstd::string::*;

use super::api::{
    text_field, ApiRequest, ApiResponseBody, ApiResult, PaneInfo, PaneLayoutSnapshot,
    SessionSnapshot, TabInfo,
};
use super::control::{
    number_after, pane_layout_reply, panes_reply, printed_in, reply_result, request_id,
    session_snapshot_reply, tabs_reply, unexpected_text, workspaces_reply, ControlError,
    HerdrControl,
};
use super::json::ParamModel;
use super::layout::{
    answers_truly, asked_tabs, collected, find_next_tab, find_workspace, keep_layout,
    law_snapshot_and_fanout_give_the_same_layout, layout_from_snapshot, layout_seen,
    lemma_asked_tabs, next_tab, pane_in, panes_after, refs, register_tabs, representative,
    snapshot_active, snapshot_layouts, snapshot_panes, snapshot_tabs, tab_listed,
    transcode_layout, with_layout, workspace_is,
};
use crate::multiplexer::types::{LayoutSnapshot, TabSnapshotModel, UnknownSpace};
use crate::seqs::{first_where, lemma_first_index_meaning};

verus! {

/// What the query waits for.
#[derive(Debug)]
pub enum LayoutPhase {
    /// The response to `session.snapshot`.
    Snapshot,
    /// The response to `workspace.list`.
    Workspaces,
    /// The response to `tab.list`.
    Tabs { active: String },
    /// The response to `pane.list`.
    Panes { active: String, tabs: Vec<TabInfo> },
    /// The response to `pane.layout` for the tab before `next`.
    Layouts {
        active: String,
        tabs: Vec<TabInfo>,
        panes: Vec<PaneInfo>,
        layouts: Vec<PaneLayoutSnapshot>,
        next: usize,
    },
}

/// A layout query under way.
#[derive(Debug)]
pub struct LayoutQuery {
    pub workspace_id: String,
    pub phase: LayoutPhase,
}

/// What comes next in a layout query.
#[derive(Debug)]
pub enum LayoutStep {
    /// Send this request; its response goes with this query to
    /// [`HerdrControl::query_layout_reply`].
    Ask(LayoutQuery, ApiRequest),
    /// The query is over.
    Finished(Result<LayoutSnapshot, ControlError>),
}

impl LayoutPhase {
    /// The phase has a tab behind it that was asked for.
    pub open spec fn wf(&self) -> bool {
        match self {
            LayoutPhase::Layouts { tabs, next, .. } => *next <= tabs@.len(),
            _ => true,
        }
    }
}

impl LayoutStep {
    /// The step asks for `method` with `params` under `id`, for workspace `ws`.
    pub open spec fn asks(
        &self,
        ws: Seq<char>,
        id: Seq<char>,
        method: Seq<char>,
        params: Seq<(Seq<char>, ParamModel)>,
    ) -> bool {
        self matches LayoutStep::Ask(q, r) && q.workspace_id@ == ws && q.phase.wf() && r.id@ == id
            && r.asks(method, params)
    }

    /// The query that a step that asks carries on.
    pub open spec fn phase(&self) -> LayoutPhase {
        self->Ask_0.phase
    }

    /// The step ends the query with a failure.
    pub open spec fn fails(&self, text: Seq<char>) -> bool {
        self matches LayoutStep::Finished(Err(e)) && e.says(text)
    }

    /// The step ends the query: the workspace does not exist.
    pub open spec fn is_unknown(&self, ws: Seq<char>) -> bool {
        self matches LayoutStep::Finished(Err(ControlError::UnknownSpace(u))) && u.space_id@ == ws
    }
}

/// The parameters that scope a request to a workspace.
pub open spec fn scope(ws: Seq<char>) -> Seq<(Seq<char>, ParamModel)> {
    text_field("workspace_id"@, ws)
}

/// What follows once tabs and panes are known: `pane.layout` through the first pane
/// of the next tab that has one and no layout yet, or the end of the query.
pub open spec fn carries_on(
    step: LayoutStep,
    before: HerdrControl,
    after: HerdrControl,
    ws: Seq<char>,
    active: Seq<char>,
    tabs: Seq<TabInfo>,
    panes: Seq<PaneInfo>,
    layouts: Seq<PaneLayoutSnapshot>,
    from: int,
) -> bool {
    let i = next_tab(tabs, panes, layouts, from);
    if i < tabs.len() {
        &&& after.one_request_after(&before)
        &&& first_where(panes, pane_in(tabs[i].tab_id@)) matches Some(p) && step.asks(
            ws,
            request_id(before.next_number()),
            "pane.layout"@,
            text_field("pane_id"@, p.pane_id@),
        )
        &&& step.phase() matches LayoutPhase::Layouts {
            active: a,
            tabs: t,
            panes: ps,
            layouts: ls,
            next,
        } && a@ == active && t@ == tabs && ps@ == panes && ls@ == layouts && next == i + 1
    } else {
        &&& after.panes()@ == panes_after(before.panes()@, tabs, panes, layouts)
        &&& after.tabs()@ == register_tabs(before.tabs()@, tabs)
        &&& after.next_number() == before.next_number()
        &&& after.degraded() == before.degraded()
        &&& step matches LayoutStep::Finished(Ok(l)) && l@ == layout_seen(
            tabs,
            panes,
            layouts,
            active,
            after.panes()@,
            after.tabs()@,
        )
    }
}

/// What follows the response to `session.snapshot`.
pub open spec fn after_snapshot(
    step: LayoutStep,
    before: HerdrControl,
    after: HerdrControl,
    ws: Seq<char>,
    reply: Result<ApiResponseBody, String>,
) -> bool {
    match reply_result("session.snapshot"@, reply) {
        Ok(ApiResult::SessionSnapshot { snapshot }) => {
            &&& !after.degraded()
            &&& match snapshot_active(*snapshot, ws) {
                Some(active) => {
                    let tabs = snapshot_tabs(*snapshot, ws);
                    let panes = snapshot_panes(*snapshot, ws);
                    let layouts = snapshot_layouts(*snapshot, ws);
                    &&& after.panes()@ == panes_after(before.panes()@, tabs, panes, layouts)
                    &&& after.tabs()@ == register_tabs(before.tabs()@, tabs)
                    &&& after.next_number() == before.next_number()
                    &&& step matches LayoutStep::Finished(Ok(l)) && l@ == layout_seen(
                        tabs,
                        panes,
                        layouts,
                        active,
                        after.panes()@,
                        after.tabs()@,
                    )
                },
                None => falls_back(step, before, after, ws),
            }
        },
        _ => after.degraded() && falls_back(step, before, after, ws),
    }
}

/// The query goes on with `workspace.list`.
pub open spec fn falls_back(
    step: LayoutStep,
    before: HerdrControl,
    after: HerdrControl,
    ws: Seq<char>,
) -> bool {
    &&& after.panes()@ == before.panes()@
    &&& after.tabs()@ == before.tabs()@
    &&& after.next_number() == number_after(before.next_number())
    &&& step.asks(
        ws,
        request_id(before.next_number()),
        "workspace.list"@,
        Seq::<(Seq<char>, ParamModel)>::empty(),
    )
    &&& step.phase() is Workspaces
}

/// What follows the response to `workspace.list`.
pub open spec fn after_workspaces(
    step: LayoutStep,
    before: HerdrControl,
    after: HerdrControl,
    ws: Seq<char>,
    reply: Result<ApiResponseBody, String>,
) -> bool {
    match reply_result("workspace.list"@, reply) {
        Ok(ApiResult::WorkspaceList { workspaces }) => match first_where(
            workspaces@,
            workspace_is(ws),
        ) {
            Some(w) => after.one_request_after(&before) && step.asks(
                ws,
                request_id(before.next_number()),
                "tab.list"@,
                scope(ws),
            ) && (step.phase() matches LayoutPhase::Tabs { active } && active@ == w.active_tab_id@),
            None => after == before && step.is_unknown(ws),
        },
        Ok(_) => after == before && step.fails(
            unexpected_text("workspace.list"@, printed_in(reply)),
        ),
        Err(t) => after == before && step.fails(t),
    }
}

/// What follows the response to `tab.list`.
pub open spec fn after_tabs(
    step: LayoutStep,
    before: HerdrControl,
    after: HerdrControl,
    ws: Seq<char>,
    active: Seq<char>,
    reply: Result<ApiResponseBody, String>,
) -> bool {
    match reply_result("tab.list"@, reply) {
        Ok(ApiResult::TabList { tabs }) => after.one_request_after(&before) && step.asks(
            ws,
            request_id(before.next_number()),
            "pane.list"@,
            scope(ws),
        ) && (step.phase() matches LayoutPhase::Panes { active: a, tabs: t } && a@ == active && t@
            == tabs@),
        Ok(_) => after == before && step.fails(
            unexpected_text("tab.list"@, printed_in(reply)),
        ),
        Err(t) => after == before && step.fails(t),
    }
}

/// What follows the response to `pane.list`.
pub open spec fn after_panes(
    step: LayoutStep,
    before: HerdrControl,
    after: HerdrControl,
    ws: Seq<char>,
    active: Seq<char>,
    tabs: Seq<TabInfo>,
    reply: Result<ApiResponseBody, String>,
) -> bool {
    match reply_result("pane.list"@, reply) {
        Ok(ApiResult::PaneList { panes }) => carries_on(
            step,
            before,
            after,
            ws,
            active,
            tabs,
            panes@,
            Seq::empty(),
            0,
        ),
        Ok(_) => after == before && step.fails(
            unexpected_text("pane.list"@, printed_in(reply)),
        ),
        Err(t) => after == before && step.fails(t),
    }
}

/// What follows the response to `pane.layout`.
pub open spec fn after_layout(
    step: LayoutStep,
    before: HerdrControl,
    after: HerdrControl,
    ws: Seq<char>,
    phase: LayoutPhase,
    reply: Result<ApiResponseBody, String>,
) -> bool {
    phase matches LayoutPhase::Layouts { active, tabs, panes, layouts, next } && match reply_result(
        "pane.layout"@,
        reply,
    ) {
        Ok(ApiResult::PaneLayout { layout }) => carries_on(
            step,
            before,
            after,
            ws,
            active@,
            tabs@,
            panes@,
            with_layout(layouts@, layout),
            next as int,
        ),
        Ok(_) => after == before && step.fails(
            unexpected_text("pane.layout"@, printed_in(reply)),
        ),
        Err(t) => after == before && step.fails(t),
    }
}

/// What follows a response, whatever the query waits for.
pub open spec fn follows(
    step: LayoutStep,
    before: HerdrControl,
    after: HerdrControl,
    query: LayoutQuery,
    reply: Result<ApiResponseBody, String>,
) -> bool {
    let ws = query.workspace_id@;
    match query.phase {
        LayoutPhase::Snapshot => after_snapshot(step, before, after, ws, reply),
        LayoutPhase::Workspaces => after_workspaces(step, before, after, ws, reply),
        LayoutPhase::Tabs { active } => after_tabs(step, before, after, ws, active@, reply),
        LayoutPhase::Panes { active, tabs } => after_panes(
            step,
            before,
            after,
            ws,
            active@,
            tabs@,
            reply,
        ),
        LayoutPhase::Layouts { .. } => after_layout(step, before, after, ws, query.phase, reply),
    }
}

impl HerdrControl {
    /// Starts a layout query for a workspace.
    pub fn query_layout(&mut self, workspace_id: &str) -> (r: (LayoutQuery, ApiRequest))
        ensures
            r.0.workspace_id@ == workspace_id@,
            r.0.phase is Snapshot,
            r.1.id@ == request_id(old(self).next_number()),
            r.1.asks("session.snapshot"@, Seq::<(Seq<char>, ParamModel)>::empty()),
            final(self).one_request_after(old(self)),
    {
        let request = self.session_snapshot();
        let query = LayoutQuery {
            workspace_id: workspace_id.to_owned(),
            phase: LayoutPhase::Snapshot,
        };
        (query, request)
    }

    /// Starts the fan-out of a layout query.
    fn query_layout_fanout(&mut self, workspace_id: String) -> (step: LayoutStep)
        ensures
            falls_back(step, *old(self), *final(self), workspace_id@),
            final(self).one_request_after(old(self)),
    {
        let request = self.list_workspaces();
        LayoutStep::Ask(LayoutQuery { workspace_id, phase: LayoutPhase::Workspaces }, request)
    }

    /// Asks for the next layout of the fan-out, or ends the query.
    fn carry_on(
        &mut self,
        workspace_id: String,
        active: String,
        tabs: Vec<TabInfo>,
        panes: Vec<PaneInfo>,
        layouts: Vec<PaneLayoutSnapshot>,
        from: usize,
    ) -> (step: LayoutStep)
        requires
            old(self).wf(),
            from <= tabs@.len(),
        ensures
            final(self).wf(),
            final(self).socket() == old(self).socket(),
            carries_on(
                step,
                *old(self),
                *final(self),
                workspace_id@,
                active@,
                tabs@,
                panes@,
                layouts@,
                from as int,
            ),
    {
        let i: usize = find_next_tab(&tabs, &panes, &layouts, from);
        let pane_refs = refs(&panes);
        if i < tabs.len() {
            if let Some(p) = representative(&pane_refs, tabs[i].tab_id.as_str()) {
                let request = self.pane_layout(Some(p.pane_id.clone()));
                let phase = LayoutPhase::Layouts { active, tabs, panes, layouts, next: i + 1 };
                return LayoutStep::Ask(LayoutQuery { workspace_id, phase }, request);
            }
        }
        let tab_refs = refs(&tabs);
        let layout_refs = refs(&layouts);
        let (pane_reg, tab_reg) = self.registries();
        let layout = transcode_layout(
            &tab_refs,
            &pane_refs,
            &layout_refs,
            active.as_str(),
            pane_reg,
            tab_reg,
        );
        LayoutStep::Finished(Ok(layout))
    }

    /// Takes a layout query one step further with the response to its last request.
    pub fn query_layout_reply(
        &mut self,
        query: LayoutQuery,
        reply: Result<ApiResponseBody, String>,
    ) -> (step: LayoutStep)
        requires
            old(self).wf(),
            query.phase.wf(),
        ensures
            final(self).wf(),
            final(self).socket() == old(self).socket(),
            follows(step, *old(self), *final(self), query, reply),
    {
        let workspace_id = query.workspace_id;
        match query.phase {
            LayoutPhase::Snapshot => match session_snapshot_reply(reply) {
                Ok(snapshot) => {
                    let _recovered: bool = self.note_snapshot_ok();
                    let (pane_reg, tab_reg) = self.registries();
                    match layout_from_snapshot(&snapshot, workspace_id.as_str(), pane_reg, tab_reg) {
                        Some(layout) => LayoutStep::Finished(Ok(layout)),
                        None => self.query_layout_fanout(workspace_id),
                    }
                },
                Err(_) => {
                    let _entered: bool = self.note_snapshot_degraded();
                    self.query_layout_fanout(workspace_id)
                },
            },
            LayoutPhase::Workspaces => match workspaces_reply(reply) {
                Ok(workspaces) => match find_workspace(&workspaces, workspace_id.as_str()) {
                    Some(w) => {
                        let active = w.active_tab_id.clone();
                        let request = self.list_tabs(workspace_id.as_str());
                        LayoutStep::Ask(
                            LayoutQuery { workspace_id, phase: LayoutPhase::Tabs { active } },
                            request,
                        )
                    },
                    None => LayoutStep::Finished(
                        Err(ControlError::UnknownSpace(UnknownSpace { space_id: workspace_id })),
                    ),
                },
                Err(e) => LayoutStep::Finished(Err(e)),
            },
            LayoutPhase::Tabs { active } => match tabs_reply(reply) {
                Ok(tabs) => {
                    let request = self.list_panes(workspace_id.as_str());
                    LayoutStep::Ask(
                        LayoutQuery { workspace_id, phase: LayoutPhase::Panes { active, tabs } },
                        request,
                    )
                },
                Err(e) => LayoutStep::Finished(Err(e)),
            },
            LayoutPhase::Panes { active, tabs } => match panes_reply(reply) {
                Ok(panes) => self.carry_on(workspace_id, active, tabs, panes, Vec::new(), 0),
                Err(e) => LayoutStep::Finished(Err(e)),
            },
            LayoutPhase::Layouts { active, tabs, panes, mut layouts, next } => match pane_layout_reply(
                reply,
            ) {
                Ok(layout) => {
                    keep_layout(&mut layouts, layout);
                    self.carry_on(workspace_id, active, tabs, panes, layouts, next)
                },
                Err(e) => LayoutStep::Finished(Err(e)),
            },
        }
    }
}

// ----------------------------------------------------------------------- laws

/// A workspace that herdr does not list fails the query, whatever became of the
/// snapshot: neither path answers with an empty layout.
pub proof fn law_an_unknown_workspace_fails_closed(
    ws: Seq<char>,
    first: LayoutStep,
    second: LayoutStep,
    start: HerdrControl,
    middle: HerdrControl,
    end: HerdrControl,
    snapshot: Result<ApiResponseBody, String>,
    list: Result<ApiResponseBody, String>,
)
    requires
        after_snapshot(first, start, middle, ws, snapshot),
        reply_result("session.snapshot"@, snapshot) matches Ok(ApiResult::SessionSnapshot {
            snapshot: s,
        }) ==> snapshot_active(*s, ws) is None,
        after_workspaces(second, middle, end, ws, list),
        reply_result("workspace.list"@, list) matches Ok(ApiResult::WorkspaceList { workspaces })
            && first_where(workspaces@, workspace_is(ws)) is None,
    ensures
        first is Ask,
        first.phase() is Workspaces,
        second.is_unknown(ws),
        end.panes()@ == start.panes()@,
        end.tabs()@ == start.tabs()@,
{
}

/// A failed snapshot is no failed query: it leads to the fan-out and is remembered.
pub proof fn law_a_failed_snapshot_falls_back(
    ws: Seq<char>,
    step: LayoutStep,
    start: HerdrControl,
    end: HerdrControl,
    snapshot: Result<ApiResponseBody, String>,
)
    requires
        after_snapshot(step, start, end, ws, snapshot),
        !(reply_result("session.snapshot"@, snapshot) matches Ok(ApiResult::SessionSnapshot { .. })),
    ensures
        step is Ask,
        end.degraded(),
{
}

/// The fan-out asks exactly for the layouts that [`collected`] speaks of, and ends
/// with them: a step that asks through a pane goes on with the answer for that pane,
/// and a step that ends has collected everything.
pub proof fn law_the_fanout_collects_layouts(
    step: LayoutStep,
    before: HerdrControl,
    after: HerdrControl,
    ws: Seq<char>,
    active: Seq<char>,
    tabs: Seq<TabInfo>,
    panes: Seq<PaneInfo>,
    layouts: Seq<PaneLayoutSnapshot>,
    from: int,
    answer: spec_fn(Seq<char>) -> PaneLayoutSnapshot,
)
    requires
        0 <= from <= tabs.len(),
        carries_on(step, before, after, ws, active, tabs, panes, layouts, from),
    ensures
        step is Finished ==> collected(tabs, panes, layouts, from, answer) == layouts,
        step is Ask ==> (step.phase() matches LayoutPhase::Layouts { next, .. } && 1 <= next
            <= tabs.len() && (first_where(panes, pane_in(tabs[next - 1].tab_id@)) matches Some(p)
            && collected(tabs, panes, layouts, from, answer) == collected(
            tabs,
            panes,
            with_layout(layouts, answer(p.pane_id@)),
            next as int,
            answer,
        ))),
{
    lemma_first_index_meaning(
        tabs.skip(from),
        super::layout::wants_layout(panes, layouts),
    );
}

/// One exchange of a layout query: what was asked, the response, the control plane before
/// and after it, and what comes next.
pub struct Exchange {
    pub query: LayoutQuery,
    pub request: ApiRequest,
    pub reply: Result<ApiResponseBody, String>,
    pub before: HerdrControl,
    pub after: HerdrControl,
    pub step: LayoutStep,
}

impl Exchange {
    /// The exchange goes as the query says.
    pub open spec fn is_one(&self) -> bool {
        follows(self.step, self.before, self.after, self.query, self.reply)
    }

    /// The exchange leads to another one.
    pub open spec fn leads_to(&self, next: Exchange) -> bool {
        self.step == LayoutStep::Ask(next.query, next.request) && self.after == next.before
    }

    /// The request is for `method` with `params`.
    pub open spec fn sends(&self, method: Seq<char>, params: Seq<(Seq<char>, ParamModel)>) -> bool {
        self.request.asks(method, params)
    }

    /// The exchange ends the query with a layout.
    pub open spec fn shows(&self, layout: Seq<TabSnapshotModel>) -> bool {
        self.step matches LayoutStep::Finished(Ok(l)) && l@ == layout
    }
}

/// No parameters.
pub open spec fn no_params() -> Seq<(Seq<char>, ParamModel)> {
    Seq::empty()
}

/// A whole layout query for workspace `ws`, begun by a control plane in state `start`.
pub open spec fn is_run(ws: Seq<char>, start: HerdrControl, run: Seq<Exchange>) -> bool {
    &&& run.len() > 0
    &&& run[0].query.workspace_id@ == ws
    &&& run[0].query.phase is Snapshot
    &&& run[0].sends("session.snapshot"@, no_params())
    &&& run[0].before.one_request_after(&start)
    &&& forall|i: int| 0 <= i < run.len() ==> (#[trigger] run[i]).is_one()
    &&& forall|i: int|
        0 <= i < run.len() - 1 ==> (#[trigger] run[i]).leads_to(run[i + 1])
    &&& run.last().step is Finished
}

/// Whether herdr answered an exchange out of the state that `s` is a snapshot of, with
/// `answer` for the layout of a pane's tab. Nothing is said of `session.snapshot`.
pub open spec fn serves(
    s: SessionSnapshot,
    ws: Seq<char>,
    answer: spec_fn(Seq<char>) -> PaneLayoutSnapshot,
    e: Exchange,
) -> bool {
    &&& e.sends("workspace.list"@, no_params()) ==> (reply_result("workspace.list"@, e.reply)
        matches Ok(ApiResult::WorkspaceList { workspaces }) && workspaces@ == s.workspaces@)
    &&& e.sends("tab.list"@, scope(ws)) ==> (reply_result("tab.list"@, e.reply) matches Ok(
        ApiResult::TabList { tabs },
    ) && tabs@ == snapshot_tabs(s, ws))
    &&& e.sends("pane.list"@, scope(ws)) ==> (reply_result("pane.list"@, e.reply) matches Ok(
        ApiResult::PaneList { panes },
    ) && panes@ == snapshot_panes(s, ws))
    &&& forall|pane: Seq<char>|
        e.sends("pane.layout"@, #[trigger] text_field("pane_id"@, pane)) ==> (reply_result(
            "pane.layout"@,
            e.reply,
        ) matches Ok(ApiResult::PaneLayout { layout }) && layout == answer(pane))
}

/// Whether an exchange asks for the layout of `tab`, through its first pane.
pub open spec fn asks_for_tab(e: Exchange, panes: Seq<PaneInfo>, tab: Seq<char>) -> bool {
    first_where(panes, pane_in(tab)) matches Some(p) && e.sends(
        "pane.layout"@,
        text_field("pane_id"@, p.pane_id@),
    )
}

/// The rest of a run, once tabs and panes are known: one exchange for each tab that is
/// asked for, and then the layout of everything collected.
proof fn lemma_rest_of_run(
    run: Seq<Exchange>,
    k: int,
    s: SessionSnapshot,
    ws: Seq<char>,
    active: Seq<char>,
    layouts: Seq<PaneLayoutSnapshot>,
    from: int,
    answer: spec_fn(Seq<char>) -> PaneLayoutSnapshot,
)
    requires
        0 <= k < run.len(),
        0 <= from <= snapshot_tabs(s, ws).len(),
        forall|i: int| 0 <= i < run.len() ==> (#[trigger] run[i]).is_one(),
        forall|i: int| 0 <= i < run.len() - 1 ==> (#[trigger] run[i]).leads_to(run[i + 1]),
        forall|i: int| 0 <= i < run.len() ==> serves(s, ws, answer, #[trigger] run[i]),
        run.last().step is Finished,
        carries_on(
            run[k].step,
            run[k].before,
            run[k].after,
            ws,
            active,
            snapshot_tabs(s, ws),
            snapshot_panes(s, ws),
            layouts,
            from,
        ),
    ensures
        ({
            let tabs = snapshot_tabs(s, ws);
            let panes = snapshot_panes(s, ws);
            let asked = asked_tabs(tabs, panes, layouts, from, answer);
            let all = collected(tabs, panes, layouts, from, answer);
            let end = run.last().after;
            &&& run.len() == k + 1 + asked.len()
            &&& forall|j: int|
                0 <= j < asked.len() ==> asks_for_tab(
                    #[trigger] run[k + 1 + j],
                    panes,
                    asked[j],
                )
            &&& end.panes()@ == panes_after(run[k].before.panes()@, tabs, panes, all)
            &&& end.tabs()@ == register_tabs(run[k].before.tabs()@, tabs)
            &&& run.last().shows(
                layout_seen(tabs, panes, all, active, end.panes()@, end.tabs()@),
            )
        }),
    decreases snapshot_tabs(s, ws).len() - from,
{
    let tabs = snapshot_tabs(s, ws);
    let panes = snapshot_panes(s, ws);
    let asked = asked_tabs(tabs, panes, layouts, from, answer);
    lemma_first_index_meaning(tabs.skip(from), super::layout::wants_layout(panes, layouts));
    let n = next_tab(tabs, panes, layouts, from);
    if n >= tabs.len() {
        if k < run.len() - 1 {
            assert(run[k].leads_to(run[k + 1]));
        }
        assert(run.last() == run[k]);
    } else {
        assert(k < run.len() - 1);
        assert(run[k].leads_to(run[k + 1]));
        let e = run[k + 1];
        let p = first_where(panes, pane_in(tabs[n].tab_id@))->0;
        let more = with_layout(layouts, answer(p.pane_id@));
        assert(e.sends("pane.layout"@, text_field("pane_id"@, p.pane_id@)));
        assert(serves(s, ws, answer, e));
        assert(e.is_one());
        assert(carries_on(e.step, e.before, e.after, ws, active, tabs, panes, more, n + 1));
        lemma_rest_of_run(run, k + 1, s, ws, active, more, n + 1, answer);
        let others = asked_tabs(tabs, panes, more, n + 1, answer);
        assert(asked == seq![tabs[n].tab_id@] + others);
        assert forall|j: int| 0 <= j < asked.len() implies asks_for_tab(
            #[trigger] run[k + 1 + j],
            panes,
            asked[j],
        ) by {
            if j > 0 {
                assert(asked[j] == others[j - 1]);
                assert(asks_for_tab(run[k + 1 + 1 + (j - 1)], panes, others[j - 1]));
            }
        }
    }
}

/// Both ways to a layout agree, over whole queries: out of one state of the daemon and
/// from the same registries, a query that `session.snapshot` answers and one that it
/// fails end with the same layout and leave the same registries. The first takes one
/// request. The second goes on with `workspace.list`, `tab.list` and `pane.list`, and then
/// asks `pane.layout` once for each tab that has a pane, and for no other.
pub proof fn law_both_ways_to_a_layout_agree(
    s: SessionSnapshot,
    ws: Seq<char>,
    answer: spec_fn(Seq<char>) -> PaneLayoutSnapshot,
    start: HerdrControl,
    other_start: HerdrControl,
    run: Seq<Exchange>,
    other: Seq<Exchange>,
)
    requires
        snapshot_active(s, ws) is Some,
        answers_truly(
            snapshot_tabs(s, ws),
            snapshot_panes(s, ws),
            snapshot_layouts(s, ws),
            answer,
        ),
        start.panes()@ == other_start.panes()@,
        start.tabs()@ == other_start.tabs()@,
        is_run(ws, start, run),
        reply_result("session.snapshot"@, run[0].reply) matches Ok(ApiResult::SessionSnapshot {
            snapshot,
        }) && *snapshot == s,
        is_run(ws, other_start, other),
        !(reply_result("session.snapshot"@, other[0].reply) matches Ok(
            ApiResult::SessionSnapshot { .. },
        )),
        forall|i: int| 0 <= i < other.len() ==> serves(s, ws, answer, #[trigger] other[i]),
    ensures
        ({
            let tabs = snapshot_tabs(s, ws);
            let panes = snapshot_panes(s, ws);
            let asked = asked_tabs(tabs, panes, Seq::empty(), 0, answer);
            &&& exists|layout: Seq<TabSnapshotModel>| #[trigger]
                run.last().shows(layout) && other.last().shows(layout)
            &&& run.last().after.panes()@ == other.last().after.panes()@
            &&& run.last().after.tabs()@ == other.last().after.tabs()@
            &&& run.len() == 1
            &&& other.len() == 4 + asked.len()
            &&& other[0].sends("session.snapshot"@, no_params())
            &&& other[1].sends("workspace.list"@, no_params())
            &&& other[2].sends("tab.list"@, scope(ws))
            &&& other[3].sends("pane.list"@, scope(ws))
            &&& forall|j: int|
                0 <= j < asked.len() ==> asks_for_tab(#[trigger] other[4 + j], panes, asked[j])
            &&& asked.no_duplicates()
            &&& forall|tab: Seq<char>| #[trigger]
                asked.contains(tab) <==> tab_listed(tabs, 0, tab) && first_where(
                    panes,
                    pane_in(tab),
                ) is Some
        }),
{
    let tabs = snapshot_tabs(s, ws);
    let panes = snapshot_panes(s, ws);
    let truth = snapshot_layouts(s, ws);
    let none = Seq::<PaneLayoutSnapshot>::empty();
    let active = snapshot_active(s, ws)->0;
    // The short way ends at once.
    assert(run[0].is_one());
    if run.len() > 1 {
        assert(run[0].leads_to(run[1]));
    }
    assert(run.last() == run[0]);
    // The long way has three lists before the layouts.
    assert(other[0].is_one());
    assert(other.len() > 1);
    assert(other[0].leads_to(other[1]));
    assert(serves(s, ws, answer, other[1]));
    assert(other[1].is_one());
    assert(other.len() > 2);
    assert(other[1].leads_to(other[2]));
    assert(serves(s, ws, answer, other[2]));
    assert(other[2].is_one());
    assert(other.len() > 3);
    assert(other[2].leads_to(other[3]));
    assert(serves(s, ws, answer, other[3]));
    assert(other[3].is_one());
    lemma_rest_of_run(other, 3, s, ws, active, none, 0, answer);
    lemma_asked_tabs(tabs, panes, none, 0, answer, truth);
    let asked = asked_tabs(tabs, panes, none, 0, answer);
    assert forall|tab: Seq<char>| #[trigger] asked.contains(tab) <==> tab_listed(tabs, 0, tab)
        && first_where(panes, pane_in(tab)) is Some by {
        assert(first_where(none, super::layout::layout_of(tab)) is None);
    }
    assert forall|j: int| 0 <= j < asked.len() implies asks_for_tab(
        #[trigger] other[4 + j],
        panes,
        asked[j],
    ) by {
        assert(asks_for_tab(other[3 + 1 + j], panes, asked[j]));
    }
    law_snapshot_and_fanout_give_the_same_layout(
        s,
        ws,
        active,
        answer,
        start.panes()@,
        start.tabs()@,
    );
    let end = run.last().after;
    assert(run.last().shows(layout_seen(tabs, panes, truth, active, end.panes()@, end.tabs()@)));
}

} // verus!
