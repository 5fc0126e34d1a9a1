//! The set of panes that the agent-status subscription covers: how it is built while
//! panes come and go, and when it has to be built anew.

use vstd::prelude::*;
use vstd::string::*;

use super::pushed::{
    change_in, change_view, fields_of, lifecycle_change, texts, Change, PaneChange,
};
use crate::seqs::{lemma_filter_meaning, lemma_filter_step};
use crate::text::text_eq;

verus! {

/// A set of herdr pane ids.
#[derive(Debug)]
pub struct PaneSet {
    ids: Vec<String>,
}

impl View for PaneSet {
    type V = Set<Seq<char>>;

    closed spec fn view(&self) -> Set<Seq<char>> {
        texts(self.ids@).to_set()
    }
}

/// Whether a list holds this text.
fn listed(ids: &Vec<String>, id: &str) -> (yes: bool)
    ensures
        yes == texts(ids@).contains(id@),
{
    let n: usize = ids.len();
    let mut i: usize = 0;
    while i < n
        invariant
            i <= n,
            n == ids@.len(),
            forall|j: int| 0 <= j < i ==> texts(ids@)[j] != id@,
        decreases n - i,
    {
        if text_eq(ids[i].as_str(), id) {
            proof {
                assert(texts(ids@)[i as int] == id@);
            }
            return true;
        }
        i = i + 1;
    }
    false
}

/// The items for which `gone` does not hold, in order.
fn without(ids: &Vec<String>, gone: &Vec<String>) -> (kept: Vec<String>)
    ensures
        texts(kept@) == texts(ids@).filter(|id: Seq<char>| !texts(gone@).contains(id)),
{
    let ghost p = |id: Seq<char>| !texts(gone@).contains(id);
    let mut kept: Vec<String> = Vec::new();
    let n: usize = ids.len();
    let mut i: usize = 0;
    proof {
        reveal(Seq::filter);
        assert(texts(ids@).take(0).filter(p) =~= texts(kept@));
    }
    while i < n
        invariant
            i <= n,
            n == ids@.len(),
            p == |id: Seq<char>| !texts(gone@).contains(id),
            texts(kept@) == texts(ids@).take(i as int).filter(p),
        decreases n - i,
    {
        proof {
            lemma_filter_step(texts(ids@), p, i as int);
        }
        if !listed(gone, ids[i].as_str()) {
            let ghost before = kept@;
            kept.push(ids[i].clone());
            proof {
                assert(texts(kept@) =~= texts(before).push(ids@[i as int]@));
            }
        }
        i = i + 1;
    }
    proof {
        assert(texts(ids@).take(n as int) =~= texts(ids@));
    }
    kept
}

impl PaneSet {
    /// The empty set.
    pub fn new() -> (s: Self)
        ensures
            s@ == Set::<Seq<char>>::empty(),
    {
        let s = PaneSet { ids: Vec::new() };
        proof {
            assert(s@ =~= Set::<Seq<char>>::empty());
        }
        s
    }

    /// The set of the ids in a list.
    pub fn of(ids: Vec<String>) -> (s: Self)
        ensures
            s@ == texts(ids@).to_set(),
    {
        PaneSet { ids }
    }

    /// Whether the set holds a pane.
    pub fn contains(&self, id: &str) -> (yes: bool)
        ensures
            yes == self@.contains(id@),
    {
        listed(&self.ids, id)
    }

    /// Takes a pane out of the set, if it is there.
    pub fn remove(&mut self, id: &str)
        ensures
            final(self)@ == old(self)@.remove(id@),
    {
        let mut gone: Vec<String> = Vec::new();
        gone.push(id.to_owned());
        let kept = without(&self.ids, &gone);
        proof {
            let p = |x: Seq<char>| !texts(gone@).contains(x);
            lemma_filter_meaning(texts(self.ids@), p);
            assert(texts(gone@) =~= seq![id@]);
            assert(texts(gone@)[0] == id@);
            assert forall|x: Seq<char>| texts(kept@).to_set().contains(x) == self@.remove(
                id@,
            ).contains(x) by {
                assert(texts(kept@).contains(x) <==> texts(self.ids@).contains(x) && p(x));
            }
            assert(texts(kept@).to_set() =~= self@.remove(id@));
        }
        self.ids = kept;
    }

    /// Empties the set.
    pub fn clear(&mut self)
        ensures
            final(self)@ == Set::<Seq<char>>::empty(),
    {
        self.ids = Vec::new();
        proof {
            assert(self@ =~= Set::<Seq<char>>::empty());
        }
    }
}

/// Whether a new pane calls for a wider subscription: it is not covered yet, or it
/// is not known which pane it is. A needless rebuild can be recovered from, a pane
/// that nobody listens to cannot.
pub open spec fn widens(pane: Option<Seq<char>>, subscribed: Set<Seq<char>>) -> bool {
    match pane {
        Some(p) => !subscribed.contains(p),
        None => true,
    }
}

/// Whether a new pane calls for a wider subscription.
pub fn pane_needs_widening(pane_id: Option<&str>, subscribed: &PaneSet) -> (yes: bool)
    ensures
        yes == widens(
            (match pane_id {
                Some(p) => Some(p@),
                None => None,
            }),
            subscribed@,
        ),
{
    match pane_id {
        Some(p) => !subscribed.contains(p),
        None => true,
    }
}

/// The panes after the announcements among `changes`: each new one at the end, once.
pub open spec fn with_created(ids: Seq<Seq<char>>, changes: Seq<Option<Change>>) -> Seq<Seq<char>>
    decreases changes.len(),
{
    if changes.len() == 0 {
        ids
    } else {
        let before = with_created(ids, changes.drop_last());
        match changes.last() {
            Some(Change::Created(Some(id))) => if before.contains(id) {
                before
            } else {
                before.push(id)
            },
            _ => before,
        }
    }
}

/// Whether a change says that pane `id` is gone.
pub open spec fn tells_gone(changes: Seq<Option<Change>>, id: Seq<char>) -> bool {
    changes.contains(Some(Change::Gone(Some(id))))
}

/// The panes to subscribe to: those enumerated and those announced meanwhile, without
/// those reported gone meanwhile. herdr refuses a whole subscription over one pane
/// that is no longer there.
pub open spec fn pane_set_after(
    enumerated: Seq<Seq<char>>,
    changes: Seq<Option<Change>>,
) -> Seq<Seq<char>> {
    with_created(enumerated, changes).filter(|id: Seq<char>| !tells_gone(changes, id))
}

/// The changes in a list, mathematically.
pub open spec fn change_views(changes: Seq<Option<PaneChange>>) -> Seq<Option<Change>> {
    changes.map_values(|c: Option<PaneChange>| change_view(c))
}

/// The panes to subscribe to, once the lines that came meanwhile were read.
pub fn apply_changes(enumerated: Vec<String>, changes: &Vec<Option<PaneChange>>) -> (ids: Vec<
    String,
>)
    ensures
        texts(ids@) == pane_set_after(texts(enumerated@), change_views(changes@)),
{
    let ghost all = change_views(changes@);
    let ghost start = texts(enumerated@);
    let mut ids = enumerated;
    let mut gone: Vec<String> = Vec::new();
    let n: usize = changes.len();
    let mut i: usize = 0;
    proof {
        assert(all.take(0) =~= Seq::<Option<Change>>::empty());
    }
    while i < n
        invariant
            i <= n,
            n == changes@.len(),
            all == change_views(changes@),
            texts(ids@) == with_created(start, all.take(i as int)),
            forall|id: Seq<char>| #[trigger]
                texts(gone@).contains(id) <==> tells_gone(all.take(i as int), id),
        decreases n - i,
    {
        let ghost now = all.take(i as int);
        let ghost next = all.take(i + 1);
        proof {
            assert(next.drop_last() =~= now);
            assert(next =~= now.push(all[i as int]));
            assert(next.last() == change_view(changes@[i as int]));
            assert forall|id: Seq<char>| #[trigger] tells_gone(next, id) <==> tells_gone(now, id)
                || all[i as int] == Some(Change::Gone(Some(id))) by {
                if tells_gone(now, id) {
                    let j = choose|j: int|
                        0 <= j < now.len() && now[j] == Some(Change::Gone(Some(id)));
                    assert(next[j] == now[j]);
                }
                if all[i as int] == Some(Change::Gone(Some(id))) {
                    assert(next[i as int] == Some(Change::Gone(Some(id))));
                }
                if tells_gone(next, id) {
                    let j = choose|j: int|
                        0 <= j < next.len() && next[j] == Some(Change::Gone(Some(id)));
                    if j < i {
                        assert(now[j] == next[j]);
                    }
                }
            }
        }
        match &changes[i] {
            Some(PaneChange::Created(Some(id))) => {
                if !listed(&ids, id.as_str()) {
                    let ghost before = ids@;
                    ids.push(id.clone());
                    proof {
                        assert(texts(ids@) =~= texts(before).push(id@));
                    }
                }
            },
            Some(PaneChange::Gone(Some(id))) => {
                let ghost before = gone@;
                gone.push(id.clone());
                proof {
                    assert(texts(gone@) =~= texts(before).push(id@));
                    assert forall|x: Seq<char>| #[trigger] texts(gone@).contains(x) <==> tells_gone(
                        next,
                        x,
                    ) by {
                        if texts(before).contains(x) {
                            let j = choose|j: int|
                                0 <= j < texts(before).len() && texts(before)[j] == x;
                            assert(texts(gone@)[j] == x);
                        }
                        if x == id@ {
                            assert(texts(gone@)[before.len() as int] == x);
                        }
                        if texts(gone@).contains(x) && x != id@ {
                            let j = choose|j: int|
                                0 <= j < texts(gone@).len() && texts(gone@)[j] == x;
                            assert(texts(before)[j] == x);
                        }
                    }
                }
            },
            _ => {},
        }
        i = i + 1;
    }
    proof {
        assert(all.take(n as int) =~= all);
        let p = |id: Seq<char>| !texts(gone@).contains(id);
        let q = |id: Seq<char>| !tells_gone(all, id);
        assert(p =~= q);
    }
    without(&ids, &gone)
}

/// The changes that lines report.
pub open spec fn changes_of(lines: Seq<Seq<char>>) -> Seq<Option<Change>> {
    lines.map_values(|l: Seq<char>| change_in(fields_of(l)))
}

/// The panes to subscribe to: `enumerated`, and what the lines that came meanwhile
/// on the lifecycle connection change about it.
pub fn bootstrap_pane_set(enumerated: Vec<String>, buffered: &Vec<String>) -> (ids: Vec<String>)
    ensures
        texts(ids@) == pane_set_after(texts(enumerated@), changes_of(texts(buffered@))),
{
    let mut changes: Vec<Option<PaneChange>> = Vec::new();
    let n: usize = buffered.len();
    let mut i: usize = 0;
    while i < n
        invariant
            i <= n,
            n == buffered@.len(),
            changes@.len() == i,
            forall|j: int|
                0 <= j < i ==> change_view(#[trigger] changes@[j]) == change_in(
                    fields_of(buffered@[j]@),
                ),
        decreases n - i,
    {
        changes.push(lifecycle_change(buffered[i].as_str()));
        i = i + 1;
    }
    proof {
        assert(change_views(changes@) =~= changes_of(texts(buffered@)));
    }
    apply_changes(enumerated, &changes)
}

// ----------------------------------------------------------------------- laws

/// What is listed stays listed, and what is announced gets listed.
proof fn lemma_with_created(ids: Seq<Seq<char>>, changes: Seq<Option<Change>>)
    ensures
        forall|x: Seq<char>| #[trigger]
            with_created(ids, changes).contains(x) <==> ids.contains(x) || changes.contains(
                Some(Change::Created(Some(x))),
            ),
    decreases changes.len(),
{
    let all = with_created(ids, changes);
    if changes.len() > 0 {
        let rest = changes.drop_last();
        let before = with_created(ids, rest);
        lemma_with_created(ids, rest);
        assert forall|x: Seq<char>| #[trigger] all.contains(x) <==> ids.contains(x)
            || changes.contains(Some(Change::Created(Some(x)))) by {
            let c: Option<Change> = Some(Change::Created(Some(x)));
            assert(changes =~= rest.push(changes.last()));
            if rest.contains(c) {
                let j = choose|j: int| 0 <= j < rest.len() && rest[j] == c;
                assert(changes[j] == c);
            }
            if changes.contains(c) && changes.last() != c {
                let j = choose|j: int| 0 <= j < changes.len() && changes[j] == c;
                assert(rest[j] == c);
            }
            if before.contains(x) {
                let j = choose|j: int| 0 <= j < before.len() && before[j] == x;
                assert(all[j] == x);
            }
            if changes.last() == c {
                assert(changes[changes.len() - 1] == c);
                if !before.contains(x) {
                    assert(all[before.len() as int] == x);
                }
            }
            if all.contains(x) && !before.contains(x) {
                let j = choose|j: int| 0 <= j < all.len() && all[j] == x;
                assert(j == before.len());
                assert(changes.last() == c);
            }
        }
    } else {
        assert forall|x: Seq<char>| #[trigger] all.contains(x) <==> ids.contains(x)
            || changes.contains(Some(Change::Created(Some(x)))) by {}
    }
}

/// A pane is subscribed to exactly when it was enumerated or announced meanwhile, and
/// was not reported gone meanwhile. In particular, a pane that comes into being
/// during the enumeration is not missed, and one that ends during it is left out.
pub proof fn law_no_pane_is_missed_during_enumeration(
    enumerated: Seq<Seq<char>>,
    changes: Seq<Option<Change>>,
    pane: Seq<char>,
)
    ensures
        pane_set_after(enumerated, changes).contains(pane) <==> {
            &&& enumerated.contains(pane) || changes.contains(Some(Change::Created(Some(pane))))
            &&& !changes.contains(Some(Change::Gone(Some(pane))))
        },
{
    let p = |id: Seq<char>| !tells_gone(changes, id);
    lemma_with_created(enumerated, changes);
    lemma_filter_meaning(with_created(enumerated, changes), p);
    assert(p(pane) == !tells_gone(changes, pane));
}

/// A pane that the enumeration lists once is subscribed to once, however often it is
/// announced meanwhile.
pub proof fn law_no_pane_is_subscribed_twice(
    enumerated: Seq<Seq<char>>,
    changes: Seq<Option<Change>>,
)
    requires
        enumerated.no_duplicates(),
    ensures
        pane_set_after(enumerated, changes).no_duplicates(),
{
    lemma_created_once(enumerated, changes);
    lemma_filter_keeps_distinct(
        with_created(enumerated, changes),
        |id: Seq<char>| !tells_gone(changes, id),
    );
}

proof fn lemma_created_once(ids: Seq<Seq<char>>, changes: Seq<Option<Change>>)
    requires
        ids.no_duplicates(),
    ensures
        with_created(ids, changes).no_duplicates(),
    decreases changes.len(),
{
    if changes.len() > 0 {
        lemma_created_once(ids, changes.drop_last());
    }
}

proof fn lemma_filter_keeps_distinct(s: Seq<Seq<char>>, p: spec_fn(Seq<char>) -> bool)
    requires
        s.no_duplicates(),
    ensures
        s.filter(p).no_duplicates(),
    decreases s.len(),
{
    reveal(Seq::filter);
    if s.len() > 0 {
        let init = s.drop_last();
        lemma_filter_keeps_distinct(init, p);
        lemma_filter_meaning(init, p);
        assert forall|j: int| 0 <= j < init.filter(p).len() implies #[trigger] init.filter(p)[j]
            != s.last() by {
            assert(init.filter(p).contains(init.filter(p)[j]));
            let k = choose|k: int| 0 <= k < init.len() && init[k] == init.filter(p)[j];
            assert(s[k] == init[k]);
        }
    }
}

/// An announcement that was taken into the subscribed set does not widen it again.
pub proof fn law_a_covered_pane_does_not_widen(
    enumerated: Seq<Seq<char>>,
    changes: Seq<Option<Change>>,
    pane: Seq<char>,
)
    requires
        changes.contains(Some(Change::Created(Some(pane)))),
        !changes.contains(Some(Change::Gone(Some(pane)))),
    ensures
        !widens(Some(pane), pane_set_after(enumerated, changes).to_set()),
{
    law_no_pane_is_missed_during_enumeration(enumerated, changes, pane);
}

} // verus!
