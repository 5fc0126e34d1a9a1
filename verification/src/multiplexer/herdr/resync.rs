//! What is learnt by asking, where the subscriptions cannot tell: the statuses after
//! a connection was made, and whether the subscriptions still deliver.

use vstd::prelude::*;
use vstd::string::*;

use std::collections::HashMap;

use super::api::AgentStatus as HerdrAgentStatus;
use super::panes::PaneSet;
use super::pushed::{map_status, neutral};
use super::registry::{
    is_pane, knows_pane, law_pane_ids_are_distinct, law_pane_ids_are_stable, lemma_with_pane,
    pane_number, pane_room, panes_wf, with_pane, HerdrPaneRegistry, PaneKey,
};
use crate::multiplexer::events::{opt_view, AgentStatus, AgentStatusChanged, StatusChange};
use crate::seqs::{first_index, lemma_first_index_meaning};

verus! {

broadcast use vstd::std_specs::hash::group_hash_axioms;

/// A pane as listed for a resync.
#[derive(Debug)]
pub struct ResyncPane {
    pub herdr_pane_id: String,
    pub terminal_id: String,
    pub workspace_id: String,
    pub workspace_label: String,
    pub title: Option<String>,
    pub status: HerdrAgentStatus,
}

/// What a [`ResyncPane`] is mathematically.
pub struct Listed {
    pub pane: Seq<char>,
    pub terminal: Seq<char>,
    pub workspace_id: Seq<char>,
    pub workspace_label: Seq<char>,
    pub title: Option<Seq<char>>,
    pub status: AgentStatus,
}

impl View for ResyncPane {
    type V = Listed;

    open spec fn view(&self) -> Listed {
        Listed {
            pane: self.herdr_pane_id@,
            terminal: self.terminal_id@,
            workspace_id: self.workspace_id@,
            workspace_label: self.workspace_label@,
            title: opt_view(self.title),
            status: neutral(self.status),
        }
    }
}

/// The panes of a list, mathematically.
pub open spec fn listed_views(input: Seq<ResyncPane>) -> Seq<Listed> {
    input.map_values(|p: ResyncPane| p@)
}

/// Status changes of a list, mathematically.
pub open spec fn change_seq(events: Seq<AgentStatusChanged>) -> Seq<StatusChange> {
    events.map_values(|e: AgentStatusChanged| e@)
}

/// Where a resync stands.
#[verifier::ext_equal]
pub struct Progress {
    pub reg: Seq<PaneKey>,
    pub known: Map<u32, AgentStatus>,
    pub live: Set<u32>,
    pub events: Seq<StatusChange>,
}

/// Whether a status is worth an event after the fact.
pub open spec fn wants_attention(status: AgentStatus) -> bool {
    status is Blocked || status is Done
}

/// The event for a pane that was found to want attention.
pub open spec fn observed_event(id: u32, p: Listed) -> StatusChange {
    StatusChange {
        pane: id,
        workspace_id: p.workspace_id,
        workspace_name: Some(p.workspace_label),
        status: p.status,
        title: p.title,
        synthetic: true,
    }
}

/// Whether the last known status of a pane is this one.
pub open spec fn is_known(known: Map<u32, AgentStatus>, id: u32, status: AgentStatus) -> bool {
    known.dom().contains(id) && known[id] == status
}

/// A resync after one more pane: the pane is registered, its status is the last known
/// one from now on, and there is an event if that is news and wants attention. A pane
/// that can get no id has nothing to be reported under, and is passed over.
pub open spec fn observe(s: Progress, p: Listed) -> Progress {
    let id = pane_number(s.reg, p.pane) as u32;
    if id == 0 {
        s
    } else {
        Progress {
            reg: with_pane(s.reg, p.pane, p.terminal),
            known: s.known.insert(id, p.status),
            live: s.live.insert(id),
            events: if wants_attention(p.status) && !is_known(s.known, id, p.status) {
                s.events.push(observed_event(id, p))
            } else {
                s.events
            },
        }
    }
}

/// A resync after these panes.
pub open spec fn observe_all(
    reg: Seq<PaneKey>,
    known: Map<u32, AgentStatus>,
    input: Seq<Listed>,
) -> Progress
    decreases input.len(),
{
    if input.len() == 0 {
        Progress { reg, known, live: Set::empty(), events: Seq::empty() }
    } else {
        observe(observe_all(reg, known, input.drop_last()), input.last())
    }
}

/// The last known statuses after a resync: those of panes that were listed.
pub open spec fn known_after(
    reg: Seq<PaneKey>,
    known: Map<u32, AgentStatus>,
    input: Seq<Listed>,
) -> Map<u32, AgentStatus> {
    let end = observe_all(reg, known, input);
    end.known.restrict(end.live)
}

fn attention(status: AgentStatus) -> (yes: bool)
    ensures
        yes == wants_attention(status),
{
    match status {
        AgentStatus::Blocked => true,
        AgentStatus::Done => true,
        _ => false,
    }
}

/// Whether the last known status of a pane is this one.
fn knows_status(known: &HashMap<u32, AgentStatus>, id: u32, status: AgentStatus) -> (yes: bool)
    ensures
        yes == is_known(known@, id, status),
{
    match known.get(&id) {
        Some(s) => *s == status,
        None => false,
    }
}

/// Keeps the entries of the listed ids.
fn keep_only(known: &mut HashMap<u32, AgentStatus>, live: &Vec<u32>)
    ensures
        final(known)@ == old(known)@.restrict(live@.to_set()),
{
    let mut kept: HashMap<u32, AgentStatus> = HashMap::new();
    let ghost all = known@;
    let n: usize = live.len();
    let mut i: usize = 0;
    proof {
        assert(live@.take(0) =~= Seq::<u32>::empty());
        assert(kept@ =~= all.restrict(live@.take(0).to_set()));
    }
    while i < n
        invariant
            i <= n,
            n == live@.len(),
            known@ == all,
            kept@ == all.restrict(live@.take(i as int).to_set()),
        decreases n - i,
    {
        let id = live[i];
        let ghost now = live@.take(i as int);
        let ghost next = live@.take(i + 1);
        proof {
            assert(next =~= now.push(id));
            assert forall|x: u32| next.to_set().contains(x) <==> now.to_set().contains(x) || x
                == id by {
                if now.contains(x) {
                    let j = choose|j: int| 0 <= j < now.len() && now[j] == x;
                    assert(next[j] == x);
                }
                assert(next[i as int] == id);
                if next.contains(x) {
                    let j = choose|j: int| 0 <= j < next.len() && next[j] == x;
                    if j < i {
                        assert(now[j] == x);
                    }
                }
            }
        }
        let status: Option<AgentStatus> = match known.get(&id) {
            Some(s) => Some(*s),
            None => None,
        };
        if let Some(s) = status {
            kept.insert(id, s);
        }
        proof {
            assert(kept@ =~= all.restrict(next.to_set()));
        }
        i = i + 1;
    }
    proof {
        assert(live@.take(n as int) =~= live@);
    }
    *known = kept;
}

/// Registers each listed pane, brings the last known statuses up to date, and gives
/// an event for each pane that wants attention and did not have that status before.
/// Statuses of panes that are not listed are forgotten. A pane that can get no id is
/// passed over.
pub fn build_resync_events(
    input: &Vec<ResyncPane>,
    reg: &mut HerdrPaneRegistry,
    last_status: &mut HashMap<u32, AgentStatus>,
) -> (events: Vec<AgentStatusChanged>)
    requires
        old(reg).wf(),
    ensures
        final(reg).wf(),
        final(reg)@ == observe_all(old(reg)@, old(last_status)@, listed_views(input@)).reg,
        final(last_status)@ == known_after(
            old(reg)@,
            old(last_status)@,
            listed_views(input@),
        ),
        change_seq(events@) == observe_all(
            old(reg)@,
            old(last_status)@,
            listed_views(input@),
        ).events,
{
    let ghost reg0 = reg@;
    let ghost known0 = last_status@;
    let ghost all = listed_views(input@);
    let mut live: Vec<u32> = Vec::new();
    let mut events: Vec<AgentStatusChanged> = Vec::new();
    let n: usize = input.len();
    let mut i: usize = 0;
    proof {
        assert(all.take(0) =~= Seq::<Listed>::empty());
        assert(live@.to_set() =~= Set::<u32>::empty());
        assert(change_seq(events@) =~= Seq::<StatusChange>::empty());
    }
    while i < n
        invariant
            i <= n,
            n == input@.len(),
            all == listed_views(input@),
            reg.wf(),
            (Progress {
                reg: reg@,
                known: last_status@,
                live: live@.to_set(),
                events: change_seq(events@),
            }) == observe_all(reg0, known0, all.take(i as int)),
        decreases n - i,
    {
        let p = &input[i];
        let ghost before = observe_all(reg0, known0, all.take(i as int));
        proof {
            assert(all.take(i + 1).drop_last() =~= all.take(i as int));
            assert(all.take(i + 1).last() == p@);
            lemma_with_pane(reg@, p@.pane, p@.terminal);
        }
        let id: u32 = reg.assign_or_get(p.herdr_pane_id.as_str(), p.terminal_id.as_str());
        if id != 0 {
            let ghost live0 = live@;
            live.push(id);
            proof {
                assert(live@.to_set() =~= live0.to_set().insert(id)) by {
                    assert forall|x: u32| live@.to_set().contains(x) <==> live0.to_set().insert(
                        id,
                    ).contains(x) by {
                        if live0.contains(x) {
                            let j = choose|j: int| 0 <= j < live0.len() && live0[j] == x;
                            assert(live@[j] == x);
                        }
                        assert(live@[live0.len() as int] == id);
                        if live@.contains(x) && x != id {
                            let j = choose|j: int| 0 <= j < live@.len() && live@[j] == x;
                            assert(live0[j] == x);
                        }
                    }
                }
            }
            let status = map_status(p.status);
            let changed = !knows_status(last_status, id, status);
            last_status.insert(id, status);
            if changed && attention(status) {
                let ghost events0 = events@;
                let event = AgentStatusChanged {
                    pane: id,
                    workspace_id: p.workspace_id.clone(),
                    workspace_name: Some(p.workspace_label.clone()),
                    status,
                    title: p.title.clone(),
                    synthetic: true,
                };
                proof {
                    assert(event@ == observed_event(id, p@));
                }
                events.push(event);
                proof {
                    assert(change_seq(events@) =~= change_seq(events0).push(observed_event(id, p@)));
                }
            }
            proof {
                let after = Progress {
                    reg: reg@,
                    known: last_status@,
                    live: live@.to_set(),
                    events: change_seq(events@),
                };
                assert(after =~= observe(before, p@));
            }
        }
        i = i + 1;
    }
    proof {
        assert(all.take(n as int) =~= all);
    }
    keep_only(last_status, &live);
    events
}

// ------------------------------------------------------------------- watchdog

/// A pane as the liveness probe sees it. The probe registers nothing, so the id is
/// there only if the pane was registered before.
#[derive(Debug, Clone, PartialEq, Eq)]
pub struct ProbePane {
    pub herdr_pane_id: String,
    pub pane: Option<u32>,
    pub status: AgentStatus,
}

/// What a liveness probe concludes.
#[derive(Debug, Clone, Copy, PartialEq, Eq, Structural)]
pub enum Verdict {
    /// The subscriptions delivered everything that can be seen.
    Healthy,
    /// There is a pane that the lifecycle connection never announced.
    LifecycleWedged,
    /// A covered pane changed its status without a push.
    StatusWedged,
}

/// Whether a pane is outside the subscribed set.
pub open spec fn unannounced(p: ProbePane, subscribed: Set<Seq<char>>) -> bool {
    !subscribed.contains(p.herdr_pane_id@)
}

/// Whether a pane has a status other than the last known one. A pane with no last
/// known status is no evidence.
pub open spec fn moved(p: ProbePane, known: Map<u32, AgentStatus>) -> bool {
    p.pane matches Some(id) && known.dom().contains(id) && known[id] != p.status
}

/// What a probe concludes: a missed pane outweighs a missed status, since rebuilding
/// the lifecycle connection rebuilds both. Panes that are gone count for nothing.
pub open spec fn verdict_on(
    observed: Seq<ProbePane>,
    subscribed: Set<Seq<char>>,
    known: Map<u32, AgentStatus>,
) -> Verdict {
    if exists|i: int| 0 <= i < observed.len() && unannounced(#[trigger] observed[i], subscribed) {
        Verdict::LifecycleWedged
    } else if exists|i: int| 0 <= i < observed.len() && moved(#[trigger] observed[i], known) {
        Verdict::StatusWedged
    } else {
        Verdict::Healthy
    }
}

/// Decides whether something can be seen that the subscriptions should have
/// delivered.
pub fn watchdog_verdict(
    observed: &Vec<ProbePane>,
    subscribed: &PaneSet,
    last_status: &HashMap<u32, AgentStatus>,
) -> (v: Verdict)
    ensures
        v == verdict_on(observed@, subscribed@, last_status@),
{
    let mut status_wedged = false;
    let n: usize = observed.len();
    let mut i: usize = 0;
    while i < n
        invariant
            i <= n,
            n == observed@.len(),
            forall|j: int| 0 <= j < i ==> !unannounced(#[trigger] observed@[j], subscribed@),
            status_wedged <==> exists|j: int|
                0 <= j < i && moved(#[trigger] observed@[j], last_status@),
        decreases n - i,
    {
        let p = &observed[i];
        if !subscribed.contains(p.herdr_pane_id.as_str()) {
            proof {
                assert(unannounced(observed@[i as int], subscribed@));
            }
            return Verdict::LifecycleWedged;
        }
        if let Some(id) = p.pane {
            if let Some(known) = last_status.get(&id) {
                if *known != p.status {
                    proof {
                        assert(moved(observed@[i as int], last_status@));
                    }
                    status_wedged = true;
                }
            }
        }
        i = i + 1;
    }
    if status_wedged {
        Verdict::StatusWedged
    } else {
        Verdict::Healthy
    }
}

// ----------------------------------------------------------------------- laws

/// Whether a listing names no pane twice.
pub open spec fn distinct_panes(input: Seq<Listed>) -> bool {
    forall|i: int, j: int|
        0 <= i < j < input.len() ==> (#[trigger] input[i]).pane != (#[trigger] input[j]).pane
}

/// The id of a listed pane in a registry.
pub open spec fn number_in(reg: Seq<PaneKey>, p: Listed) -> u32 {
    pane_number(reg, p.pane) as u32
}

/// A listed pane is registered with its attach key, and its status is known.
pub open spec fn settled(s: Progress, p: Listed) -> bool {
    let id = number_in(s.reg, p);
    &&& knows_pane(s.reg, p.pane)
    &&& 1 <= pane_number(s.reg, p.pane) <= s.reg.len()
    &&& s.reg[id - 1] == (PaneKey { pane_id: p.pane, terminal_id: p.terminal })
    &&& s.live.contains(id)
    &&& is_known(s.known, id, p.status)
}

/// Whether a listed pane has an id in a registry.
pub open spec fn has_id(reg: Seq<PaneKey>, p: Listed) -> bool {
    knows_pane(reg, p.pane)
}

/// Whether a listed pane is owed an event.
pub open spec fn owed(reg: Seq<PaneKey>, known: Map<u32, AgentStatus>, p: Listed) -> bool {
    has_id(reg, p) && wants_attention(p.status) && !is_known(known, number_in(reg, p), p.status)
}

/// Whether a listed pane with an id has this one.
pub open spec fn listed_under(reg: Seq<PaneKey>, p: Listed, id: u32) -> bool {
    has_id(reg, p) && number_in(reg, p) == id
}

pub proof fn lemma_observe_all(reg: Seq<PaneKey>, known: Map<u32, AgentStatus>, input: Seq<Listed>)
    requires
        panes_wf(reg),
        distinct_panes(input),
    ensures
        ({
            let end = observe_all(reg, known, input);
            &&& panes_wf(end.reg)
            &&& forall|i: int|
                0 <= i < input.len() && has_id(end.reg, #[trigger] input[i]) ==> settled(
                    end,
                    input[i],
                )
            &&& forall|i: int|
                0 <= i < input.len() && !has_id(end.reg, #[trigger] input[i]) ==> !pane_room(
                    end.reg,
                )
            &&& forall|x: Seq<char>| #[trigger]
                knows_pane(reg, x) ==> knows_pane(end.reg, x) && pane_number(end.reg, x)
                    == pane_number(reg, x)
            &&& forall|id: u32| #[trigger]
                end.live.contains(id) <==> exists|i: int|
                    0 <= i < input.len() && listed_under(end.reg, #[trigger] input[i], id)
            &&& forall|id: u32|
                !#[trigger] end.live.contains(id) ==> end.known.dom().contains(id)
                    == known.dom().contains(id) && end.known[id] == known[id]
        }),
    decreases input.len(),
{
    if input.len() > 0 {
        let init = input.drop_last();
        let p = input.last();
        let s = observe_all(reg, known, init);
        let end = observe_all(reg, known, input);
        assert(forall|i: int| 0 <= i < init.len() ==> init[i] == input[i]);
        assert(distinct_panes(init));
        lemma_observe_all(reg, known, init);
        lemma_with_pane(s.reg, p.pane, p.terminal);
        let id = number_in(s.reg, p);
        assert(end == observe(s, p));
        assert(end.reg == with_pane(s.reg, p.pane, p.terminal));
        assert(number_in(end.reg, p) == id);
        assert(has_id(end.reg, p) <==> id != 0);
        assert(has_id(end.reg, p) ==> settled(end, p));
        assert forall|i: int| 0 <= i < init.len() implies has_id(end.reg, #[trigger] input[i])
            == has_id(s.reg, input[i]) && number_in(end.reg, input[i]) == number_in(
            s.reg,
            input[i],
        ) && (has_id(end.reg, input[i]) ==> settled(end, input[i])) by {
            assert(init[i] == input[i]);
            assert(input[i].pane != input[input.len() - 1].pane);
            if has_id(s.reg, input[i]) {
                assert(settled(s, init[i]));
                law_pane_ids_are_stable(s.reg, p.pane, p.terminal, input[i].pane);
                if has_id(end.reg, p) {
                    law_pane_ids_are_distinct(end.reg, input[i].pane, p.pane);
                }
            } else {
                assert(!has_id(s.reg, init[i]));
                assert(!pane_room(s.reg));
                lemma_a_full_registry_stays(s.reg, p.pane, p.terminal, input[i].pane);
            }
        }
        assert forall|i: int| 0 <= i < input.len() && has_id(
            end.reg,
            #[trigger] input[i],
        ) implies settled(end, input[i]) by {
            if i < init.len() {
                assert(init[i] == input[i]);
            }
        }
        assert forall|i: int| 0 <= i < input.len() && !has_id(
            end.reg,
            #[trigger] input[i],
        ) implies !pane_room(end.reg) by {
            if i < init.len() {
                assert(!has_id(s.reg, init[i]));
            }
        }
        assert forall|x: Seq<char>| #[trigger] knows_pane(reg, x) implies knows_pane(end.reg, x)
            && pane_number(end.reg, x) == pane_number(reg, x) by {
            law_pane_ids_are_stable(s.reg, p.pane, p.terminal, x);
        }
        assert forall|n: u32| #[trigger] end.live.contains(n) <==> exists|i: int|
            0 <= i < input.len() && listed_under(end.reg, #[trigger] input[i], n) by {
            if end.live.contains(n) {
                if id != 0 && n == id {
                    assert(listed_under(end.reg, input[input.len() - 1], n));
                } else {
                    assert(s.live.contains(n));
                    let i = choose|i: int|
                        0 <= i < init.len() && listed_under(s.reg, #[trigger] init[i], n);
                    assert(listed_under(end.reg, input[i], n));
                }
            }
            if exists|i: int| 0 <= i < input.len() && listed_under(end.reg, #[trigger] input[i], n) {
                let i = choose|i: int|
                    0 <= i < input.len() && listed_under(end.reg, #[trigger] input[i], n);
                if i < init.len() {
                    assert(listed_under(s.reg, init[i], n));
                }
            }
        }
    }
}

/// Registering changes no pane that a full registry does not hold.
proof fn lemma_a_full_registry_stays(
    reg: Seq<PaneKey>,
    pane: Seq<char>,
    terminal: Seq<char>,
    other: Seq<char>,
)
    requires
        panes_wf(reg),
        !pane_room(reg),
        !knows_pane(reg, other),
    ensures
        !pane_room(with_pane(reg, pane, terminal)),
        !knows_pane(with_pane(reg, pane, terminal), other),
{
    let next = with_pane(reg, pane, terminal);
    lemma_with_pane(reg, pane, terminal);
    lemma_first_index_meaning(reg, is_pane(other));
    lemma_first_index_meaning(next, is_pane(other));
    assert(next.len() == reg.len());
    if knows_pane(next, other) {
        let k = first_index(next, is_pane(other));
        assert(next[k].pane_id == reg[k].pane_id);
        assert(!is_pane(other)(reg[k]));
    }
}

/// A listing that came once changes nothing when it comes again: no event, no new id,
/// no other last known status.
pub proof fn law_an_unchanged_listing_is_reported_once(
    reg: Seq<PaneKey>,
    known: Map<u32, AgentStatus>,
    input: Seq<Listed>,
)
    requires
        panes_wf(reg),
        distinct_panes(input),
    ensures
        ({
            let first = observe_all(reg, known, input);
            let kept = known_after(reg, known, input);
            let again = observe_all(first.reg, kept, input);
            &&& again.events == Seq::<StatusChange>::empty()
            &&& again.reg == first.reg
            &&& known_after(first.reg, kept, input) == kept
        }),
{
    let first = observe_all(reg, known, input);
    let kept = known_after(reg, known, input);
    lemma_observe_all(reg, known, input);
    assert forall|i: int| 0 <= i < input.len() && has_id(
        first.reg,
        #[trigger] input[i],
    ) implies is_known(kept, number_in(first.reg, input[i]), input[i].status) by {
        assert(settled(first, input[i]));
    }
    lemma_nothing_new(first.reg, kept, input);
    let again = observe_all(first.reg, kept, input);
    assert(again.live =~= first.live) by {
        assert forall|id: u32| again.live.contains(id) <==> first.live.contains(id) by {}
    }
    assert(known_after(first.reg, kept, input) =~= kept);
}

/// Where every pane that can have an id is registered, with its status known, nothing
/// changes.
proof fn lemma_nothing_new(reg: Seq<PaneKey>, known: Map<u32, AgentStatus>, input: Seq<Listed>)
    requires
        panes_wf(reg),
        forall|i: int|
            0 <= i < input.len() && has_id(reg, #[trigger] input[i]) ==> {
                let p = input[i];
                &&& 1 <= pane_number(reg, p.pane) <= reg.len()
                &&& reg[number_in(reg, p) - 1] == (PaneKey {
                    pane_id: p.pane,
                    terminal_id: p.terminal,
                })
                &&& is_known(known, number_in(reg, p), p.status)
            },
        forall|i: int|
            0 <= i < input.len() && !has_id(reg, #[trigger] input[i]) ==> !pane_room(reg),
    ensures
        ({
            let end = observe_all(reg, known, input);
            &&& end.reg == reg
            &&& end.known == known
            &&& end.events == Seq::<StatusChange>::empty()
            &&& forall|id: u32| #[trigger]
                end.live.contains(id) <==> exists|i: int|
                    0 <= i < input.len() && listed_under(reg, #[trigger] input[i], id)
        }),
    decreases input.len(),
{
    if input.len() > 0 {
        let init = input.drop_last();
        let p = input.last();
        assert(forall|i: int| 0 <= i < init.len() ==> init[i] == input[i]);
        lemma_nothing_new(reg, known, init);
        assert(input[input.len() - 1] == p);
        let s = observe_all(reg, known, init);
        let end = observe_all(reg, known, input);
        if has_id(reg, p) {
            assert(with_pane(reg, p.pane, p.terminal) =~= reg);
            assert(known.insert(number_in(reg, p), p.status) =~= known);
        }
        assert forall|id: u32| #[trigger] end.live.contains(id) <==> exists|i: int|
            0 <= i < input.len() && listed_under(reg, #[trigger] input[i], id) by {
            if s.live.contains(id) {
                let i = choose|i: int|
                    0 <= i < init.len() && listed_under(reg, #[trigger] init[i], id);
                assert(listed_under(reg, input[i], id));
            }
            if end.live.contains(id) && !s.live.contains(id) {
                assert(listed_under(reg, input[input.len() - 1], id));
            }
            if exists|i: int| 0 <= i < input.len() && listed_under(reg, #[trigger] input[i], id) {
                let i = choose|i: int|
                    0 <= i < input.len() && listed_under(reg, #[trigger] input[i], id);
                if i < init.len() {
                    assert(listed_under(reg, init[i], id));
                }
            }
        }
    }
}

/// Each event of a resync says that it was observed after the fact, and is about a
/// status that wants attention.
pub proof fn law_resync_events_want_attention(
    reg: Seq<PaneKey>,
    known: Map<u32, AgentStatus>,
    input: Seq<Listed>,
    i: int,
)
    requires
        0 <= i < observe_all(reg, known, input).events.len(),
    ensures
        observe_all(reg, known, input).events[i].synthetic,
        wants_attention(observe_all(reg, known, input).events[i].status),
    decreases input.len(),
{
    if input.len() > 0 {
        let before = observe_all(reg, known, input.drop_last());
        if i < before.events.len() {
            law_resync_events_want_attention(reg, known, input.drop_last(), i);
        }
    }
}

/// A listed pane gets an event exactly when it has an id, and its status wants attention
/// and is not the last known one: a status that was pushed is not reported again.
pub proof fn law_a_known_status_gets_no_event(
    reg: Seq<PaneKey>,
    known: Map<u32, AgentStatus>,
    input: Seq<Listed>,
    k: int,
)
    requires
        panes_wf(reg),
        distinct_panes(input),
        0 <= k < input.len(),
    ensures
        ({
            let end = observe_all(reg, known, input);
            owed(end.reg, known, input[k]) <==> end.events.contains(
                observed_event(number_in(end.reg, input[k]), input[k]),
            )
        }),
    decreases input.len(),
{
    let init = input.drop_last();
    let p = input.last();
    let s = observe_all(reg, known, init);
    let end = observe_all(reg, known, input);
    assert(forall|i: int| 0 <= i < init.len() ==> init[i] == input[i]);
    assert(distinct_panes(init));
    lemma_observe_all(reg, known, init);
    lemma_observe_all(reg, known, input);
    lemma_with_pane(s.reg, p.pane, p.terminal);
    let id = number_in(s.reg, p);
    let n = number_in(end.reg, input[k]);
    let event = observed_event(n, input[k]);
    lemma_events_are_of_listed(reg, known, input);
    if !has_id(end.reg, input[k]) {
        assert(!end.live.contains(n)) by {
            if end.live.contains(n) {
                let i = choose|i: int|
                    0 <= i < input.len() && listed_under(end.reg, #[trigger] input[i], n);
                assert(settled(end, input[i]));
            }
        }
    } else {
        assert(settled(end, input[k]));
        assert(id != 0 ==> !s.live.contains(id)) by {
            if id != 0 && s.live.contains(id) {
                let i = choose|i: int|
                    0 <= i < init.len() && listed_under(s.reg, #[trigger] init[i], id);
                assert(settled(s, init[i]));
                assert(input[i].pane != input[input.len() - 1].pane);
                law_pane_ids_are_stable(s.reg, p.pane, p.terminal, input[i].pane);
                law_pane_ids_are_distinct(end.reg, input[i].pane, p.pane);
            }
        }
        if k == input.len() - 1 {
            assert(id == n);
            assert(is_known(s.known, id, p.status) == is_known(known, id, p.status));
            lemma_events_are_of_listed(reg, known, init);
            if end.events.contains(event) && !owed(end.reg, known, input[k]) {
                let j = choose|j: int| 0 <= j < s.events.len() && s.events[j] == event;
                assert(s.live.contains(s.events[j].pane));
            }
            if owed(end.reg, known, input[k]) {
                assert(end.events[s.events.len() as int] == event);
            }
        } else {
            law_a_known_status_gets_no_event(reg, known, init, k);
            assert(init[k] == input[k]);
            assert(input[k].pane != input[input.len() - 1].pane);
            if !has_id(s.reg, input[k]) {
                assert(!has_id(s.reg, init[k]));
                lemma_a_full_registry_stays(s.reg, p.pane, p.terminal, input[k].pane);
            }
            assert(settled(s, init[k]));
            law_pane_ids_are_stable(s.reg, p.pane, p.terminal, input[k].pane);
            if has_id(end.reg, p) {
                law_pane_ids_are_distinct(end.reg, input[k].pane, p.pane);
            }
            if s.events.contains(event) {
                let j = choose|j: int| 0 <= j < s.events.len() && s.events[j] == event;
                assert(end.events[j] == event);
            }
            if end.events.contains(event) {
                let j = choose|j: int| 0 <= j < end.events.len() && end.events[j] == event;
                if j < s.events.len() {
                    assert(s.events[j] == event);
                }
            }
        }
    }
}

proof fn lemma_events_are_of_listed(
    reg: Seq<PaneKey>,
    known: Map<u32, AgentStatus>,
    input: Seq<Listed>,
)
    ensures
        forall|j: int|
            0 <= j < observe_all(reg, known, input).events.len() ==> observe_all(
                reg,
                known,
                input,
            ).live.contains((#[trigger] observe_all(reg, known, input).events[j]).pane),
    decreases input.len(),
{
    if input.len() > 0 {
        let init = input.drop_last();
        lemma_events_are_of_listed(reg, known, init);
        let s = observe_all(reg, known, init);
        let end = observe_all(reg, known, input);
        assert forall|j: int| 0 <= j < end.events.len() implies end.live.contains(
            (#[trigger] end.events[j]).pane,
        ) by {
            if j < s.events.len() {
                assert(s.live.contains(s.events[j].pane));
            }
        }
    }
}

/// After a resync the last known statuses are those that were listed: each listed pane
/// with an id has its status, and a pane that was not listed has none.
pub proof fn law_statuses_after_a_resync_are_the_listed_ones(
    reg: Seq<PaneKey>,
    known: Map<u32, AgentStatus>,
    input: Seq<Listed>,
    id: u32,
)
    requires
        panes_wf(reg),
        distinct_panes(input),
    ensures
        ({
            let end = observe_all(reg, known, input);
            let kept = known_after(reg, known, input);
            &&& forall|i: int|
                0 <= i < input.len() && has_id(end.reg, #[trigger] input[i]) ==> is_known(
                    kept,
                    number_in(end.reg, input[i]),
                    input[i].status,
                )
            &&& kept.dom().contains(id) ==> exists|i: int|
                0 <= i < input.len() && listed_under(end.reg, #[trigger] input[i], id)
        }),
{
    lemma_observe_all(reg, known, input);
    let end = observe_all(reg, known, input);
    assert forall|i: int| 0 <= i < input.len() && has_id(
        end.reg,
        #[trigger] input[i],
    ) implies is_known(
        known_after(reg, known, input),
        number_in(end.reg, input[i]),
        input[i].status,
    ) by {
        assert(settled(end, input[i]));
    }
}

/// A quiet system is healthy: where every pane that is seen is covered and has its
/// last known status, or has none yet, no connection is suspected.
pub proof fn law_a_quiet_system_is_healthy(
    observed: Seq<ProbePane>,
    subscribed: Set<Seq<char>>,
    known: Map<u32, AgentStatus>,
)
    requires
        forall|i: int|
            0 <= i < observed.len() ==> {
                let p = #[trigger] observed[i];
                &&& subscribed.contains(p.herdr_pane_id@)
                &&& p.pane matches Some(id) ==> known.dom().contains(id) ==> known[id] == p.status
            },
    ensures
        verdict_on(observed, subscribed, known) == Verdict::Healthy,
{
}

/// Panes that are gone are no evidence: leaving panes out of what was seen never makes
/// a healthy verdict worse.
pub proof fn law_a_vanished_pane_is_no_evidence(
    observed: Seq<ProbePane>,
    fewer: Seq<ProbePane>,
    subscribed: Set<Seq<char>>,
    known: Map<u32, AgentStatus>,
)
    requires
        verdict_on(observed, subscribed, known) == Verdict::Healthy,
        forall|i: int| 0 <= i < fewer.len() ==> observed.contains(#[trigger] fewer[i]),
    ensures
        verdict_on(fewer, subscribed, known) == Verdict::Healthy,
{
    assert forall|i: int| 0 <= i < fewer.len() implies !unannounced(
        #[trigger] fewer[i],
        subscribed,
    ) && !moved(fewer[i], known) by {
        let j = choose|j: int| 0 <= j < observed.len() && observed[j] == fewer[i];
        assert(!unannounced(observed[j], subscribed));
        assert(!moved(observed[j], known));
    }
}

} // verus!
