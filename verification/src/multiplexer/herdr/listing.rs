//! Listing every pane of every workspace: one `workspace.list`, then one `pane.list`
//! per workspace, in order. The event kernel does so for three purposes: to learn
//! which panes to subscribe to, to learn their statuses, and to probe whether the
//! subscriptions still deliver.

use vstd::prelude::*;
use vstd::string::*;

use super::api::{ApiRequest, ApiResponseBody, ApiResult, PaneInfo, WorkspaceInfo};
use super::control::{
    panes_reply, printed_in, reply_result, request_id, unexpected_text, workspaces_reply,
    ControlError, HerdrControl,
};
use super::json::ParamModel;
use super::pushed::{map_status, neutral, texts};
use super::query::scope;
use super::registry::{knows_pane, pane_id_of, HerdrPaneRegistry, PaneKey};
use super::resync::{listed_views, Listed, ProbePane, ResyncPane};
use crate::multiplexer::events::opt_view;

verus! {

/// What the panes are listed for.
#[derive(Debug, Clone, Copy, PartialEq, Eq, Structural)]
pub enum Purpose {
    Enumerate,
    Resync,
    Probe,
}

impl Purpose {
    /// The word that failures start with.
    pub open spec fn word(self) -> Seq<char> {
        match self {
            Purpose::Enumerate => "enumerate"@,
            Purpose::Resync => "resync"@,
            Purpose::Probe => "probe"@,
        }
    }

    /// The word that failures start with.
    pub fn label(self) -> (s: &'static str)
        ensures
            s@ == self.word(),
    {
        match self {
            Purpose::Enumerate => "enumerate",
            Purpose::Resync => "resync",
            Purpose::Probe => "probe",
        }
    }
}

/// Every workspace with its panes.
#[derive(Debug)]
pub struct AllPanes {
    pub workspaces: Vec<WorkspaceInfo>,
    /// The panes of each workspace, in the order of the workspaces.
    pub panes: Vec<Vec<PaneInfo>>,
}

/// A listing under way. It waits for the workspaces, or for the panes of the first
/// workspace that has none yet.
#[derive(Debug)]
pub struct Listing {
    pub purpose: Purpose,
    pub so_far: Option<AllPanes>,
}

/// What comes next in a listing.
#[derive(Debug)]
pub enum ListingStep {
    /// Send this request; its response goes with this listing to
    /// [`HerdrControl::list_all_reply`].
    Ask(Listing, ApiRequest),
    /// The listing is over.
    Finished(Result<AllPanes, String>),
}

impl Listing {
    /// A workspace is waited for, if the workspaces are known.
    pub open spec fn wf(&self) -> bool {
        self.so_far matches Some(a) ==> a.panes@.len() < a.workspaces@.len()
    }
}

impl AllPanes {
    /// Every workspace has its panes.
    pub open spec fn complete(&self) -> bool {
        self.panes@.len() == self.workspaces@.len()
    }
}

impl ListingStep {
    /// The step ends the listing with a failure.
    pub open spec fn fails(&self, text: Seq<char>) -> bool {
        self matches ListingStep::Finished(Err(t)) && t@ == text
    }
}

/// What a failed `workspace.list` is called.
pub open spec fn workspaces_failed(purpose: Purpose, cause: Seq<char>) -> Seq<char> {
    purpose.word() + ": workspace.list: "@ + cause
}

/// What a failed `pane.list` is called.
pub open spec fn panes_failed(purpose: Purpose, ws: Seq<char>, cause: Seq<char>) -> Seq<char> {
    purpose.word() + ": pane.list for "@ + ws + ": "@ + cause
}

/// What follows once the panes of the first workspaces are known: `pane.list` for the
/// next one, or the end.
pub open spec fn lists_on(
    step: ListingStep,
    before: HerdrControl,
    after: HerdrControl,
    purpose: Purpose,
    workspaces: Seq<WorkspaceInfo>,
    panes: Seq<Seq<PaneInfo>>,
) -> bool {
    if panes.len() < workspaces.len() {
        &&& after.one_request_after(&before)
        &&& step matches ListingStep::Ask(l, r) && {
            &&& l.wf()
            &&& l.purpose == purpose
            &&& l.so_far matches Some(a) && a.workspaces@ == workspaces && inner(a.panes@) == panes
            &&& r.id@ == request_id(before.next_number())
            &&& r.asks("pane.list"@, scope(workspaces[panes.len() as int].workspace_id@))
        }
    } else {
        &&& after == before
        &&& step matches ListingStep::Finished(Ok(a)) && a.workspaces@ == workspaces && inner(
            a.panes@,
        ) == panes
    }
}

/// The contents of vectors.
pub open spec fn inner<T>(v: Seq<Vec<T>>) -> Seq<Seq<T>> {
    v.map_values(|x: Vec<T>| x@)
}

/// What follows a response.
pub open spec fn after_listing_reply(
    step: ListingStep,
    before: HerdrControl,
    after: HerdrControl,
    listing: Listing,
    reply: Result<ApiResponseBody, String>,
) -> bool {
    match listing.so_far {
        None => match reply_result("workspace.list"@, reply) {
            Ok(ApiResult::WorkspaceList { workspaces }) => lists_on(
                step,
                before,
                after,
                listing.purpose,
                workspaces@,
                Seq::empty(),
            ),
            Ok(_) => after == before && step.fails(
                workspaces_failed(
                    listing.purpose,
                    unexpected_text("workspace.list"@, printed_in(reply)),
                ),
            ),
            Err(t) => after == before && step.fails(workspaces_failed(listing.purpose, t)),
        },
        Some(a) => {
            let ws = a.workspaces@[a.panes@.len() as int].workspace_id@;
            match reply_result("pane.list"@, reply) {
                Ok(ApiResult::PaneList { panes }) => lists_on(
                    step,
                    before,
                    after,
                    listing.purpose,
                    a.workspaces@,
                    inner(a.panes@).push(panes@),
                ),
                Ok(_) => after == before && step.fails(
                    panes_failed(
                        listing.purpose,
                        ws,
                        unexpected_text("pane.list"@, printed_in(reply)),
                    ),
                ),
                Err(t) => after == before && step.fails(panes_failed(listing.purpose, ws, t)),
            }
        },
    }
}

/// The text of a failed exchange.
fn cause(e: ControlError) -> (t: String)
    ensures
        forall|text: Seq<char>| #[trigger] e.says(text) ==> t@ == text,
{
    match e {
        ControlError::Failed(t) => t,
        ControlError::UnknownSpace(u) => u.space_id,
    }
}

impl HerdrControl {
    /// Starts to list every pane.
    pub fn list_all(&mut self, purpose: Purpose) -> (r: (Listing, ApiRequest))
        ensures
            r.0.wf(),
            r.0.purpose == purpose,
            r.0.so_far is None,
            r.1.id@ == request_id(old(self).next_number()),
            r.1.asks("workspace.list"@, Seq::<(Seq<char>, ParamModel)>::empty()),
            final(self).one_request_after(old(self)),
    {
        let request = self.list_workspaces();
        (Listing { purpose, so_far: None }, request)
    }

    /// Carries a listing on.
    fn list_on(&mut self, purpose: Purpose, all: AllPanes) -> (step: ListingStep)
        requires
            all.panes@.len() <= all.workspaces@.len(),
        ensures
            lists_on(
                step,
                *old(self),
                *final(self),
                purpose,
                all.workspaces@,
                inner(all.panes@),
            ),
    {
        let n: usize = all.panes.len();
        if n < all.workspaces.len() {
            let request = self.list_panes(all.workspaces[n].workspace_id.as_str());
            ListingStep::Ask(Listing { purpose, so_far: Some(all) }, request)
        } else {
            ListingStep::Finished(Ok(all))
        }
    }

    /// Takes the response to the last request of a listing.
    pub fn list_all_reply(
        &mut self,
        listing: Listing,
        reply: Result<ApiResponseBody, String>,
    ) -> (step: ListingStep)
        requires
            listing.wf(),
        ensures
            after_listing_reply(step, *old(self), *final(self), listing, reply),
    {
        let purpose = listing.purpose;
        match listing.so_far {
            None => match workspaces_reply(reply) {
                Ok(workspaces) => {
                    let all = AllPanes { workspaces, panes: Vec::new() };
                    proof {
                        assert(inner(all.panes@) =~= Seq::<Seq<PaneInfo>>::empty());
                    }
                    self.list_on(purpose, all)
                },
                Err(e) => {
                    let t = cause(e);
                    let text = purpose.label().to_owned().concat(": workspace.list: ").concat(
                        t.as_str(),
                    );
                    ListingStep::Finished(Err(text))
                },
            },
            Some(a) => match panes_reply(reply) {
                Ok(panes) => {
                    let mut all = a;
                    let ghost before = inner(all.panes@);
                    all.panes.push(panes);
                    proof {
                        assert(inner(all.panes@) =~= before.push(panes@));
                    }
                    self.list_on(purpose, all)
                },
                Err(e) => {
                    let t = cause(e);
                    let n: usize = a.panes.len();
                    let text = purpose.label().to_owned().concat(": pane.list for ").concat(
                        a.workspaces[n].workspace_id.as_str(),
                    ).concat(": ").concat(t.as_str());
                    ListingStep::Finished(Err(text))
                },
            },
        }
    }
}

// ------------------------------------------------------- what a listing is for

/// Every pane with its workspace, workspace by workspace.
pub open spec fn rows(workspaces: Seq<WorkspaceInfo>, panes: Seq<Seq<PaneInfo>>) -> Seq<
    (WorkspaceInfo, PaneInfo),
>
    decreases panes.len(),
{
    if panes.len() == 0 {
        Seq::empty()
    } else {
        rows(workspaces, panes.drop_last()) + panes.last().map_values(
            |p: PaneInfo| (workspaces[panes.len() - 1], p),
        )
    }
}

/// What is listed of a pane for a resync.
pub open spec fn listed_of(r: (WorkspaceInfo, PaneInfo)) -> Listed {
    Listed {
        pane: r.1.pane_id@,
        terminal: r.1.terminal_id@,
        workspace_id: r.0.workspace_id@,
        workspace_label: r.0.label@,
        title: opt_view(r.1.title),
        status: neutral(r.1.agent_status),
    }
}

/// Whether `p` is what the probe sees of a pane.
pub open spec fn probed(p: ProbePane, r: (WorkspaceInfo, PaneInfo), reg: Seq<PaneKey>) -> bool {
    &&& p.herdr_pane_id@ == r.1.pane_id@
    &&& p.pane == if knows_pane(reg, r.1.pane_id@) {
        Some(pane_id_of(reg, r.1.pane_id@) as u32)
    } else {
        None::<u32>
    }
    &&& p.status == neutral(r.1.agent_status)
}

/// Pairs of references, mathematically.
pub open spec fn pair_values(s: Seq<(&WorkspaceInfo, &PaneInfo)>) -> Seq<(WorkspaceInfo, PaneInfo)> {
    s.map_values(|r: (&WorkspaceInfo, &PaneInfo)| (*r.0, *r.1))
}

impl AllPanes {
    /// Every pane with its workspace.
    pub open spec fn all(&self) -> Seq<(WorkspaceInfo, PaneInfo)> {
        rows(self.workspaces@, inner(self.panes@))
    }

    /// Every pane with its workspace.
    fn pairs<'a>(&'a self) -> (r: Vec<(&'a WorkspaceInfo, &'a PaneInfo)>)
        requires
            self.complete(),
        ensures
            pair_values(r@) == self.all(),
    {
        let mut r: Vec<(&'a WorkspaceInfo, &'a PaneInfo)> = Vec::new();
        let ghost all = inner(self.panes@);
        let n: usize = self.panes.len();
        let mut i: usize = 0;
        proof {
            assert(all.take(0) =~= Seq::<Seq<PaneInfo>>::empty());
            assert(pair_values(r@) =~= rows(self.workspaces@, all.take(0)));
        }
        while i < n
            invariant
                i <= n,
                n == self.panes@.len(),
                self.complete(),
                all == inner(self.panes@),
                pair_values(r@) == rows(self.workspaces@, all.take(i as int)),
            decreases n - i,
        {
            let ws: &'a WorkspaceInfo = &self.workspaces[i];
            let ps: &'a Vec<PaneInfo> = &self.panes[i];
            let ghost before = rows(self.workspaces@, all.take(i as int));
            let ghost f = |p: PaneInfo| (self.workspaces@[i as int], p);
            let m: usize = ps.len();
            let mut j: usize = 0;
            proof {
                assert(ps@.take(0).map_values(f) =~= Seq::<(WorkspaceInfo, PaneInfo)>::empty());
                assert(pair_values(r@) =~= before + ps@.take(0).map_values(f));
            }
            while j < m
                invariant
                    j <= m,
                    m == ps@.len(),
                    i < n,
                    n == self.panes@.len(),
                    self.complete(),
                    *ws == self.workspaces@[i as int],
                    f == |p: PaneInfo| (self.workspaces@[i as int], p),
                    pair_values(r@) == before + ps@.take(j as int).map_values(f),
                decreases m - j,
            {
                let ghost r0 = r@;
                r.push((ws, &ps[j]));
                proof {
                    assert(pair_values(r@) =~= pair_values(r0).push(f(ps@[j as int])));
                    assert(ps@.take(j + 1).map_values(f) =~= ps@.take(j as int).map_values(f).push(
                        f(ps@[j as int]),
                    ));
                    assert(pair_values(r@) =~= before + ps@.take(j + 1).map_values(f));
                }
                j = j + 1;
            }
            proof {
                assert(ps@.take(m as int) =~= ps@);
                assert(all.take(i + 1).drop_last() =~= all.take(i as int));
                assert(all.take(i + 1).last() == ps@);
            }
            i = i + 1;
        }
        proof {
            assert(all.take(n as int) =~= all);
        }
        r
    }

    /// The id of every pane.
    pub fn pane_ids(&self) -> (ids: Vec<String>)
        requires
            self.complete(),
        ensures
            texts(ids@) == self.all().map_values(|r: (WorkspaceInfo, PaneInfo)| r.1.pane_id@),
    {
        let pairs = self.pairs();
        let ghost f = |r: (WorkspaceInfo, PaneInfo)| r.1.pane_id@;
        let mut ids: Vec<String> = Vec::new();
        let n: usize = pairs.len();
        let mut i: usize = 0;
        while i < n
            invariant
                i <= n,
                n == pairs@.len(),
                ids@.len() == i,
                forall|j: int| 0 <= j < i ==> (#[trigger] ids@[j])@ == pairs@[j].1.pane_id@,
            decreases n - i,
        {
            ids.push(pairs[i].1.pane_id.clone());
            i = i + 1;
        }
        proof {
            assert forall|j: int| 0 <= j < n implies texts(ids@)[j] == f(
                #[trigger] self.all()[j],
            ) by {
                assert(pair_values(pairs@)[j] == self.all()[j]);
            }
            assert(self.all().len() == pair_values(pairs@).len());
            assert(texts(ids@) =~= self.all().map_values(f));
        }
        ids
    }

    /// Every pane as a resync needs it.
    pub fn resync_input(&self) -> (input: Vec<ResyncPane>)
        requires
            self.complete(),
        ensures
            listed_views(input@) == self.all().map_values(
                |r: (WorkspaceInfo, PaneInfo)| listed_of(r),
            ),
    {
        let pairs = self.pairs();
        let ghost f = |r: (WorkspaceInfo, PaneInfo)| listed_of(r);
        let mut input: Vec<ResyncPane> = Vec::new();
        let n: usize = pairs.len();
        let mut i: usize = 0;
        while i < n
            invariant
                i <= n,
                n == pairs@.len(),
                input@.len() == i,
                forall|j: int|
                    0 <= j < i ==> (#[trigger] input@[j])@ == listed_of(
                        (*pairs@[j].0, *pairs@[j].1),
                    ),
            decreases n - i,
        {
            let ws: &WorkspaceInfo = pairs[i].0;
            let pane: &PaneInfo = pairs[i].1;
            input.push(
                ResyncPane {
                    herdr_pane_id: pane.pane_id.clone(),
                    terminal_id: pane.terminal_id.clone(),
                    workspace_id: ws.workspace_id.clone(),
                    workspace_label: ws.label.clone(),
                    title: pane.title.clone(),
                    status: pane.agent_status,
                },
            );
            i = i + 1;
        }
        proof {
            assert forall|j: int| 0 <= j < n implies listed_views(input@)[j] == f(
                #[trigger] self.all()[j],
            ) by {
                assert(pair_values(pairs@)[j] == self.all()[j]);
            }
            assert(self.all().len() == pair_values(pairs@).len());
            assert(listed_views(input@) =~= self.all().map_values(f));
        }
        input
    }

    /// Every pane as the liveness probe sees it. Nothing is registered.
    pub fn probe_panes(&self, panes: &HerdrPaneRegistry) -> (observed: Vec<ProbePane>)
        requires
            self.complete(),
            panes.wf(),
        ensures
            observed@.len() == self.all().len(),
            forall|i: int|
                0 <= i < observed@.len() ==> probed(
                    #[trigger] observed@[i],
                    self.all()[i],
                    panes@,
                ),
    {
        let pairs = self.pairs();
        let mut observed: Vec<ProbePane> = Vec::new();
        let n: usize = pairs.len();
        let mut i: usize = 0;
        while i < n
            invariant
                i <= n,
                n == pairs@.len(),
                panes.wf(),
                observed@.len() == i,
                forall|j: int|
                    0 <= j < i ==> probed(
                        #[trigger] observed@[j],
                        (*pairs@[j].0, *pairs@[j].1),
                        panes@,
                    ),
            decreases n - i,
        {
            let pane: &PaneInfo = pairs[i].1;
            observed.push(
                ProbePane {
                    herdr_pane_id: pane.pane_id.clone(),
                    pane: panes.id_for_herdr_pane(pane.pane_id.as_str()),
                    status: map_status(pane.agent_status),
                },
            );
            i = i + 1;
        }
        proof {
            assert(self.all().len() == pair_values(pairs@).len());
            assert forall|j: int| 0 <= j < observed@.len() implies probed(
                #[trigger] observed@[j],
                self.all()[j],
                panes@,
            ) by {
                assert(pair_values(pairs@)[j] == self.all()[j]);
            }
        }
        observed
    }
}

// ----------------------------------------------------------------------- laws

/// Every pane of every workspace is in the listing, and nothing else is.
pub proof fn law_a_listing_is_complete(
    workspaces: Seq<WorkspaceInfo>,
    panes: Seq<Seq<PaneInfo>>,
    row: (WorkspaceInfo, PaneInfo),
)
    requires
        panes.len() <= workspaces.len(),
    ensures
        rows(workspaces, panes).contains(row) <==> exists|i: int|
            0 <= i < panes.len() && row.0 == workspaces[i] && (#[trigger] panes[i]).contains(row.1),
    decreases panes.len(),
{
    if panes.len() > 0 {
        let init = panes.drop_last();
        let k = panes.len() - 1;
        let f = |p: PaneInfo| (workspaces[k], p);
        let head = rows(workspaces, init);
        let tail = panes.last().map_values(f);
        law_a_listing_is_complete(workspaces, init, row);
        if rows(workspaces, panes).contains(row) {
            let j = choose|j: int|
                0 <= j < rows(workspaces, panes).len() && rows(workspaces, panes)[j] == row;
            if j < head.len() {
                assert(head[j] == row);
                let i = choose|i: int|
                    0 <= i < init.len() && row.0 == workspaces[i] && (#[trigger] init[i]).contains(
                        row.1,
                    );
                assert(panes[i].contains(row.1));
            } else {
                assert(tail[j - head.len()] == row);
                assert(panes[k][j - head.len()] == row.1);
                assert(panes[k].contains(row.1));
            }
        }
        if exists|i: int|
            0 <= i < panes.len() && row.0 == workspaces[i] && (#[trigger] panes[i]).contains(row.1) {
            let i = choose|i: int|
                0 <= i < panes.len() && row.0 == workspaces[i] && (#[trigger] panes[i]).contains(
                    row.1,
                );
            if i < k {
                assert(init[i].contains(row.1));
                let j = choose|j: int| 0 <= j < head.len() && head[j] == row;
                assert(rows(workspaces, panes)[j] == row);
            } else {
                let j = choose|j: int| 0 <= j < panes[k].len() && panes[k][j] == row.1;
                assert(tail[j] == row);
                assert(rows(workspaces, panes)[head.len() + j] == row);
            }
        }
    }
}

} // verus!
