//! Translation between herdr's textual ids and the daemon's numeric ones.
//!
//! An id is handed out the first time its text is seen, counting from 1, and never
//! changes or moves to another text afterwards. A pane's entry also holds its
//! `terminal_id`, the relay's attach key, which the latest registration sets. Once
//! every 32-bit pane id is taken, a further pane gets no id: it is answered 0,
//! which names no pane.

use vstd::prelude::*;
use vstd::string::*;

use crate::seqs::{first_index, lemma_first_index, lemma_first_index_meaning};
use crate::text::text_eq;

verus! {

// ---------------------------------------------------------------------- panes

/// A registered pane: herdr's pane id and its attach key.
#[derive(Debug, Clone, PartialEq, Eq)]
struct PaneEntry {
    pane_id: String,
    terminal_id: String,
}

/// What a pane's entry is mathematically.
pub struct PaneKey {
    pub pane_id: Seq<char>,
    pub terminal_id: Seq<char>,
}

/// Numeric ids of panes.
#[derive(Debug)]
pub struct HerdrPaneRegistry {
    entries: Vec<PaneEntry>,
}

/// Whether an entry is the one of `pane`.
pub open spec fn is_pane(pane: Seq<char>) -> spec_fn(PaneKey) -> bool {
    |k: PaneKey| k.pane_id == pane
}

/// Whether `pane` is registered.
pub open spec fn knows_pane(reg: Seq<PaneKey>, pane: Seq<char>) -> bool {
    first_index(reg, is_pane(pane)) < reg.len()
}

/// Whether a further pane can still get an id.
pub open spec fn pane_room(reg: Seq<PaneKey>) -> bool {
    reg.len() < u32::MAX
}

/// The id of `pane`: its place, or the next free one, or 0 when none is left.
pub open spec fn pane_number(reg: Seq<PaneKey>, pane: Seq<char>) -> int {
    if knows_pane(reg, pane) || pane_room(reg) {
        first_index(reg, is_pane(pane)) + 1
    } else {
        0
    }
}

/// The registry after `pane` was registered with this attach key.
pub open spec fn with_pane(reg: Seq<PaneKey>, pane: Seq<char>, terminal: Seq<char>) -> Seq<PaneKey> {
    let entry = PaneKey { pane_id: pane, terminal_id: terminal };
    if knows_pane(reg, pane) {
        reg.update(first_index(reg, is_pane(pane)), entry)
    } else if pane_room(reg) {
        reg.push(entry)
    } else {
        reg
    }
}

/// The entry with this id.
pub open spec fn pane_entry(reg: Seq<PaneKey>, id: u32) -> Option<PaneKey> {
    if 1 <= id <= reg.len() {
        Some(reg[id - 1])
    } else {
        None
    }
}

/// The id that the registry holds for `pane`, or 0 when it holds none.
pub open spec fn pane_id_of(reg: Seq<PaneKey>, pane: Seq<char>) -> int {
    if knows_pane(reg, pane) {
        first_index(reg, is_pane(pane)) + 1
    } else {
        0
    }
}

/// Whether no pane has two entries.
pub open spec fn panes_distinct(reg: Seq<PaneKey>) -> bool {
    forall|i: int, j: int|
        0 <= i < j < reg.len() ==> (#[trigger] reg[i]).pane_id != (#[trigger] reg[j]).pane_id
}

/// Whether every entry has an id, and one of its own.
pub open spec fn panes_wf(reg: Seq<PaneKey>) -> bool {
    panes_distinct(reg) && reg.len() <= u32::MAX
}

/// Registering keeps panes distinct, and changes no id.
pub proof fn lemma_with_pane(reg: Seq<PaneKey>, pane: Seq<char>, terminal: Seq<char>)
    requires
        panes_wf(reg),
    ensures
        panes_wf(with_pane(reg, pane, terminal)),
        reg.len() <= with_pane(reg, pane, terminal).len() <= reg.len() + 1,
        0 <= pane_number(reg, pane) <= with_pane(reg, pane, terminal).len(),
        pane_number(with_pane(reg, pane, terminal), pane) == pane_number(reg, pane),
        knows_pane(reg, pane) || pane_room(reg) ==> {
            &&& knows_pane(with_pane(reg, pane, terminal), pane)
            &&& 1 <= pane_number(reg, pane)
            &&& with_pane(reg, pane, terminal)[pane_number(reg, pane) - 1] == (PaneKey {
                pane_id: pane,
                terminal_id: terminal,
            })
        },
        forall|i: int|
            0 <= i < reg.len() ==> (#[trigger] with_pane(reg, pane, terminal)[i]).pane_id
                == reg[i].pane_id,
{
    let p = is_pane(pane);
    lemma_first_index_meaning(reg, p);
    let k = first_index(reg, p);
    let next = with_pane(reg, pane, terminal);
    assert forall|j: int| 0 <= j < k implies !p(#[trigger] next[j]) by {
        assert(next[j] == reg[j]);
    }
    lemma_first_index(next, p, k);
    assert forall|i: int, j: int| 0 <= i < j < next.len() implies (#[trigger] next[i]).pane_id != (
    #[trigger] next[j]).pane_id by {
        if j == reg.len() {
            assert(!p(reg[i]));
        } else {
            assert(reg[i].pane_id != reg[j].pane_id);
        }
    }
}

impl View for PaneEntry {
    type V = PaneKey;

    closed spec fn view(&self) -> PaneKey {
        PaneKey { pane_id: self.pane_id@, terminal_id: self.terminal_id@ }
    }
}

impl View for HerdrPaneRegistry {
    type V = Seq<PaneKey>;

    closed spec fn view(&self) -> Seq<PaneKey> {
        self.entries@.map_values(|e: PaneEntry| e@)
    }
}

impl HerdrPaneRegistry {
    /// No pane has two ids.
    pub open spec fn wf(&self) -> bool {
        panes_wf(self@)
    }

    /// An empty registry.
    pub fn new() -> (reg: Self)
        ensures
            reg.wf(),
            reg@ == Seq::<PaneKey>::empty(),
    {
        let reg = HerdrPaneRegistry { entries: Vec::new() };
        proof {
            assert(reg@ =~= Seq::<PaneKey>::empty());
        }
        reg
    }

    /// Number of registered panes.
    pub fn len(&self) -> (n: usize)
        ensures
            n == self@.len(),
    {
        self.entries.len()
    }

    /// Place of `pane`, or the length when it is not registered.
    fn index_of(&self, pane: &str) -> (i: usize)
        ensures
            i == first_index(self@, is_pane(pane@)),
            i <= self@.len(),
    {
        let n: usize = self.entries.len();
        let mut i: usize = 0;
        while i < n
            invariant
                i <= n,
                n == self.entries@.len(),
                self@.len() == n,
                forall|j: int| 0 <= j < i ==> !is_pane(pane@)(#[trigger] self@[j]),
            decreases n - i,
        {
            if text_eq(self.entries[i].pane_id.as_str(), pane) {
                proof {
                    assert(self@[i as int] == self.entries@[i as int]@);
                    lemma_first_index(self@, is_pane(pane@), i as int);
                }
                return i;
            }
            proof {
                assert(self@[i as int] == self.entries@[i as int]@);
            }
            i = i + 1;
        }
        proof {
            lemma_first_index(self@, is_pane(pane@), n as int);
        }
        n
    }

    /// Registers `pane` under `terminal` and returns its id. A pane that is already
    /// registered keeps its id and takes the new attach key.
    pub fn assign_or_get(&mut self, pane: &str, terminal: &str) -> (id: u32)
        requires
            old(self).wf(),
        ensures
            final(self).wf(),
            final(self)@ == with_pane(old(self)@, pane@, terminal@),
            id == pane_number(old(self)@, pane@),
    {
        let i: usize = self.index_of(pane);
        proof {
            lemma_with_pane(self@, pane@, terminal@);
        }
        let entry = PaneEntry { pane_id: pane.to_owned(), terminal_id: terminal.to_owned() };
        let ghost key = PaneKey { pane_id: pane@, terminal_id: terminal@ };
        if i < self.entries.len() {
            self.entries[i] = entry;
            proof {
                assert(self@ =~= old(self)@.update(i as int, key));
            }
        } else if self.entries.len() < u32::MAX as usize {
            self.entries.push(entry);
            proof {
                assert(self@ =~= old(self)@.push(key));
            }
        } else {
            return 0;
        }
        (i + 1) as u32
    }

    /// The id of `pane`, if it is registered. Registers nothing.
    pub fn id_for_herdr_pane(&self, pane: &str) -> (id: Option<u32>)
        requires
            self.wf(),
        ensures
            id is Some <==> knows_pane(self@, pane@),
            id matches Some(n) ==> n == pane_number(self@, pane@),
    {
        let i: usize = self.index_of(pane);
        if i < self.entries.len() {
            Some((i + 1) as u32)
        } else {
            None
        }
    }

    /// herdr's id of the pane with this id.
    pub fn herdr_pane_id(&self, id: u32) -> (pane: Option<String>)
        ensures
            match pane {
                Some(p) => pane_entry(self@, id) matches Some(k) && p@ == k.pane_id,
                None => pane_entry(self@, id) is None,
            },
    {
        if id == 0 || id as u64 > self.entries.len() as u64 {
            return None;
        }
        proof {
            assert(self@[id - 1] == self.entries@[id - 1]@);
        }
        Some(self.entries[id as usize - 1].pane_id.clone())
    }

    /// Attach key of the pane with this id.
    pub fn terminal_id(&self, id: u32) -> (terminal: Option<String>)
        ensures
            match terminal {
                Some(t) => pane_entry(self@, id) matches Some(k) && t@ == k.terminal_id,
                None => pane_entry(self@, id) is None,
            },
    {
        if id == 0 || id as u64 > self.entries.len() as u64 {
            return None;
        }
        proof {
            assert(self@[id - 1] == self.entries@[id - 1]@);
        }
        Some(self.entries[id as usize - 1].terminal_id.clone())
    }
}

// ----------------------------------------------------------------------- tabs

/// Numeric ids of tabs.
#[derive(Debug)]
pub struct HerdrTabRegistry {
    entries: Vec<String>,
}

/// Whether an entry is `tab`.
pub open spec fn is_tab(tab: Seq<char>) -> spec_fn(Seq<char>) -> bool {
    |t: Seq<char>| t == tab
}

/// Whether `tab` is registered.
pub open spec fn knows_tab(reg: Seq<Seq<char>>, tab: Seq<char>) -> bool {
    first_index(reg, is_tab(tab)) < reg.len()
}

/// The id of `tab`: its place, or the next free one.
pub open spec fn tab_number(reg: Seq<Seq<char>>, tab: Seq<char>) -> int {
    first_index(reg, is_tab(tab)) + 1
}

/// The registry after `tab` was registered.
pub open spec fn with_tab(reg: Seq<Seq<char>>, tab: Seq<char>) -> Seq<Seq<char>> {
    if knows_tab(reg, tab) {
        reg
    } else {
        reg.push(tab)
    }
}

/// The tab with this id.
pub open spec fn tab_entry(reg: Seq<Seq<char>>, id: u64) -> Option<Seq<char>> {
    if 1 <= id <= reg.len() {
        Some(reg[id - 1])
    } else {
        None
    }
}

/// The id that the registry holds for `tab`, or 0 when it holds none.
pub open spec fn tab_id_of(reg: Seq<Seq<char>>, tab: Seq<char>) -> int {
    if knows_tab(reg, tab) {
        first_index(reg, is_tab(tab)) + 1
    } else {
        0
    }
}

/// Whether no tab has two entries.
pub open spec fn tabs_distinct(reg: Seq<Seq<char>>) -> bool {
    forall|i: int, j: int| 0 <= i < j < reg.len() ==> #[trigger] reg[i] != #[trigger] reg[j]
}

/// Registering keeps tabs distinct, and changes no id.
pub proof fn lemma_with_tab(reg: Seq<Seq<char>>, tab: Seq<char>)
    requires
        tabs_distinct(reg),
    ensures
        tabs_distinct(with_tab(reg, tab)),
        reg.len() <= with_tab(reg, tab).len() <= reg.len() + 1,
        knows_tab(with_tab(reg, tab), tab),
        tab_number(with_tab(reg, tab), tab) == tab_number(reg, tab),
        1 <= tab_number(reg, tab) <= with_tab(reg, tab).len(),
        with_tab(reg, tab)[tab_number(reg, tab) - 1] == tab,
        forall|i: int| 0 <= i < reg.len() ==> #[trigger] with_tab(reg, tab)[i] == reg[i],
{
    let p = is_tab(tab);
    lemma_first_index_meaning(reg, p);
    let k = first_index(reg, p);
    let next = with_tab(reg, tab);
    assert forall|j: int| 0 <= j < k implies !p(#[trigger] next[j]) by {
        assert(next[j] == reg[j]);
    }
    lemma_first_index(next, p, k);
    assert forall|i: int, j: int| 0 <= i < j < next.len() implies #[trigger] next[i]
        != #[trigger] next[j] by {
        if j == reg.len() {
            assert(!p(reg[i]));
        } else {
            assert(reg[i] != reg[j]);
        }
    }
}

impl View for HerdrTabRegistry {
    type V = Seq<Seq<char>>;

    closed spec fn view(&self) -> Seq<Seq<char>> {
        self.entries@.map_values(|e: String| e@)
    }
}

impl HerdrTabRegistry {
    /// No tab has two ids.
    pub open spec fn wf(&self) -> bool {
        tabs_distinct(self@)
    }

    /// An empty registry.
    pub fn new() -> (reg: Self)
        ensures
            reg.wf(),
            reg@ == Seq::<Seq<char>>::empty(),
    {
        let reg = HerdrTabRegistry { entries: Vec::new() };
        proof {
            assert(reg@ =~= Seq::<Seq<char>>::empty());
        }
        reg
    }

    /// Place of `tab`, or the length when it is not registered.
    fn index_of(&self, tab: &str) -> (i: usize)
        ensures
            i == first_index(self@, is_tab(tab@)),
            i <= self@.len(),
    {
        let n: usize = self.entries.len();
        let mut i: usize = 0;
        while i < n
            invariant
                i <= n,
                n == self.entries@.len(),
                self@.len() == n,
                forall|j: int| 0 <= j < i ==> !is_tab(tab@)(#[trigger] self@[j]),
            decreases n - i,
        {
            if text_eq(self.entries[i].as_str(), tab) {
                proof {
                    lemma_first_index(self@, is_tab(tab@), i as int);
                }
                return i;
            }
            i = i + 1;
        }
        proof {
            lemma_first_index(self@, is_tab(tab@), n as int);
        }
        n
    }

    /// Registers `tab` and returns its id; a registered tab keeps its id.
    pub fn assign_or_get(&mut self, tab: &str) -> (id: u64)
        requires
            old(self).wf(),
        ensures
            final(self).wf(),
            final(self)@ == with_tab(old(self)@, tab@),
            id == tab_number(old(self)@, tab@),
    {
        let i: usize = self.index_of(tab);
        proof {
            lemma_with_tab(self@, tab@);
        }
        if i >= self.entries.len() {
            self.entries.push(tab.to_owned());
            proof {
                assert(self@ =~= old(self)@.push(tab@));
            }
            return self.entries.len() as u64;
        }
        (i + 1) as u64
    }

    /// The id of `tab`, or 0 when it is not registered.
    pub fn id_for_herdr_tab(&self, tab: &str) -> (id: u64)
        ensures
            id == tab_id_of(self@, tab@),
    {
        let i: usize = self.index_of(tab);
        if i < self.entries.len() {
            (i + 1) as u64
        } else {
            0
        }
    }

    /// herdr's id of the tab with this id.
    pub fn herdr_tab_id(&self, id: u64) -> (tab: Option<String>)
        ensures
            match tab {
                Some(t) => tab_entry(self@, id) == Some(t@),
                None => tab_entry(self@, id) is None,
            },
    {
        if id == 0 || id > self.entries.len() as u64 {
            return None;
        }
        Some(self.entries[(id - 1) as usize].clone())
    }
}

// ----------------------------------------------------------------------- laws

/// An id is never handed to a second pane: registering any pane leaves every id
/// that was handed out with the pane it was handed out for.
pub proof fn law_pane_ids_are_stable(
    reg: Seq<PaneKey>,
    pane: Seq<char>,
    terminal: Seq<char>,
    other: Seq<char>,
)
    requires
        panes_wf(reg),
        knows_pane(reg, other),
    ensures
        knows_pane(with_pane(reg, pane, terminal), other),
        pane_number(with_pane(reg, pane, terminal), other) == pane_number(reg, other),
{
    let next = with_pane(reg, pane, terminal);
    let p = is_pane(other);
    lemma_with_pane(reg, pane, terminal);
    lemma_first_index_meaning(reg, p);
    let k = first_index(reg, p);
    assert forall|j: int| 0 <= j < k implies !p(#[trigger] next[j]) by {
        assert(next[j].pane_id == reg[j].pane_id);
        assert(!p(reg[j]));
    }
    assert(next[k].pane_id == reg[k].pane_id);
    lemma_first_index(next, p, k);
}

/// The id of a pane leads back to the pane and to the attach key that it was
/// registered with last.
pub proof fn law_a_pane_id_leads_back(reg: Seq<PaneKey>, pane: Seq<char>, terminal: Seq<char>)
    requires
        panes_wf(reg),
        knows_pane(reg, pane) || pane_room(reg),
    ensures
        pane_entry(with_pane(reg, pane, terminal), pane_number(reg, pane) as u32) == Some(
            PaneKey { pane_id: pane, terminal_id: terminal },
        ),
{
    lemma_with_pane(reg, pane, terminal);
}

/// Two registered panes have different ids.
pub proof fn law_pane_ids_are_distinct(reg: Seq<PaneKey>, a: Seq<char>, b: Seq<char>)
    requires
        knows_pane(reg, a),
        knows_pane(reg, b),
        a != b,
    ensures
        pane_number(reg, a) != pane_number(reg, b),
{
    lemma_first_index_meaning(reg, is_pane(a));
    lemma_first_index_meaning(reg, is_pane(b));
}

/// Registering a tab leaves every tab id with its tab.
pub proof fn law_tab_ids_are_stable(reg: Seq<Seq<char>>, tab: Seq<char>, other: Seq<char>)
    requires
        tabs_distinct(reg),
        knows_tab(reg, other),
    ensures
        knows_tab(with_tab(reg, tab), other),
        tab_number(with_tab(reg, tab), other) == tab_number(reg, other),
{
    let next = with_tab(reg, tab);
    let p = is_tab(other);
    lemma_with_tab(reg, tab);
    lemma_first_index_meaning(reg, p);
    let k = first_index(reg, p);
    assert forall|j: int| 0 <= j < k implies !p(#[trigger] next[j]) by {
        assert(next[j] == reg[j]);
        assert(!p(reg[j]));
    }
    assert(next[k] == reg[k]);
    lemma_first_index(next, p, k);
}

/// The id of a tab leads back to the tab.
pub proof fn law_a_tab_id_leads_back(reg: Seq<Seq<char>>, tab: Seq<char>)
    requires
        tabs_distinct(reg),
        reg.len() < u64::MAX,
    ensures
        tab_entry(with_tab(reg, tab), tab_number(reg, tab) as u64) == Some(tab),
{
    lemma_with_tab(reg, tab);
}

} // verus!
