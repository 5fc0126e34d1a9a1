//! What the registries hand out and look up, stated over their calls.

use vstd::prelude::*;
use vstd::string::*;

use super::registry::{is_pane, is_tab, HerdrPaneRegistry, HerdrTabRegistry};
use crate::seqs::{first_index, lemma_first_index_meaning};

verus! {

/// A pane keeps the id it has, and a new pane gets the next one, counting from one: the
/// entry under that id is the pane with the attach key that was given. No other entry
/// changes.
pub proof fn law_a_pane_is_registered_under_one_id(
    reg: &mut HerdrPaneRegistry,
    pane: &str,
    terminal: &str,
    id: u32,
)
    requires
        old(reg)@.len() < u32::MAX,
        call_ensures(HerdrPaneRegistry::assign_or_get, (reg, pane, terminal), id),
    ensures
        1 <= id <= final(reg)@.len(),
        final(reg)@[id - 1].pane_id == pane@,
        final(reg)@[id - 1].terminal_id == terminal@,
        forall|i: int|
            0 <= i < old(reg)@.len() && i != id - 1 ==> #[trigger] final(reg)@[i] == old(reg)@[i],
        (exists|i: int| 0 <= i < old(reg)@.len() && (#[trigger] old(reg)@[i]).pane_id == pane@)
            ==> final(reg)@.len() == old(reg)@.len() && old(reg)@[id - 1].pane_id == pane@,
        (forall|i: int| 0 <= i < old(reg)@.len() ==> (#[trigger] old(reg)@[i]).pane_id != pane@)
            ==> final(reg)@.len() == old(reg)@.len() + 1 && id == old(reg)@.len() + 1,
{
    let before = old(reg)@;
    let p = is_pane(pane@);
    lemma_first_index_meaning(before, p);
    let k = first_index(before, p);
    if exists|i: int| 0 <= i < before.len() && (#[trigger] before[i]).pane_id == pane@ {
        let i = choose|i: int| 0 <= i < before.len() && (#[trigger] before[i]).pane_id == pane@;
        assert(p(before[i]));
    }
    if k < before.len() {
        assert(before[k].pane_id == pane@);
    }
}

/// An id leads to the pane and to the attach key that are registered under it; an id that
/// was never handed out leads nowhere.
pub proof fn law_an_id_leads_to_its_entry(
    reg: &HerdrPaneRegistry,
    id: u32,
    pane: Option<String>,
    terminal: Option<String>,
)
    requires
        call_ensures(HerdrPaneRegistry::herdr_pane_id, (reg, id), pane),
        call_ensures(HerdrPaneRegistry::terminal_id, (reg, id), terminal),
    ensures
        pane is Some <==> 1 <= id <= reg@.len(),
        terminal is Some <==> 1 <= id <= reg@.len(),
        pane matches Some(p) ==> p@ == reg@[id - 1].pane_id,
        terminal matches Some(t) ==> t@ == reg@[id - 1].terminal_id,
{
}

/// A pane has an id exactly if it is registered, and that id is its place.
pub proof fn law_only_a_registered_pane_has_an_id(
    reg: &HerdrPaneRegistry,
    pane: &str,
    id: Option<u32>,
)
    requires
        reg@.len() <= u32::MAX,
        call_ensures(HerdrPaneRegistry::id_for_herdr_pane, (reg, pane), id),
    ensures
        id is Some <==> exists|i: int|
            0 <= i < reg@.len() && (#[trigger] reg@[i]).pane_id == pane@,
        id matches Some(n) ==> 1 <= n <= reg@.len() && reg@[n - 1].pane_id == pane@,
{
    let p = is_pane(pane@);
    lemma_first_index_meaning(reg@, p);
    let k = first_index(reg@, p);
    if k < reg@.len() {
        assert(reg@[k].pane_id == pane@);
    }
    if exists|i: int| 0 <= i < reg@.len() && (#[trigger] reg@[i]).pane_id == pane@ {
        let i = choose|i: int| 0 <= i < reg@.len() && (#[trigger] reg@[i]).pane_id == pane@;
        assert(p(reg@[i]));
    }
}

/// A tab keeps the id it has, and a new tab gets the next one, counting from one. No other
/// entry changes.
pub proof fn law_a_tab_is_registered_under_one_id(reg: &mut HerdrTabRegistry, tab: &str, id: u64)
    requires
        call_ensures(HerdrTabRegistry::assign_or_get, (reg, tab), id),
    ensures
        1 <= id <= final(reg)@.len(),
        final(reg)@[id - 1] == tab@,
        forall|i: int| 0 <= i < old(reg)@.len() ==> #[trigger] final(reg)@[i] == old(reg)@[i],
        id <= old(reg)@.len() ==> final(reg)@.len() == old(reg)@.len(),
        id > old(reg)@.len() ==> final(reg)@.len() == old(reg)@.len() + 1 && id == old(reg)@.len()
            + 1 && !old(reg)@.contains(tab@),
{
    let before = old(reg)@;
    let p = is_tab(tab@);
    lemma_first_index_meaning(before, p);
    if before.contains(tab@) {
        let i = choose|i: int| 0 <= i < before.len() && before[i] == tab@;
        assert(p(before[i]));
    }
}

/// A tab's id is its place, or nothing for a tab that is not registered, and an id leads
/// back to its tab and to no other.
pub proof fn law_a_tab_id_is_its_place(
    reg: &HerdrTabRegistry,
    tab: &str,
    found: u64,
    id: u64,
    name: Option<String>,
)
    requires
        reg@.len() < u64::MAX,
        call_ensures(HerdrTabRegistry::id_for_herdr_tab, (reg, tab), found),
        call_ensures(HerdrTabRegistry::herdr_tab_id, (reg, id), name),
    ensures
        found == 0 <==> !reg@.contains(tab@),
        found > 0 ==> found <= reg@.len() && reg@[found - 1] == tab@,
        name is Some <==> 1 <= id <= reg@.len(),
        name matches Some(t) ==> t@ == reg@[id - 1],
{
    let p = is_tab(tab@);
    lemma_first_index_meaning(reg@, p);
    let k = first_index(reg@, p);
    if k < reg@.len() {
        assert(reg@[k] == tab@);
    }
    if reg@.contains(tab@) {
        let i = choose|i: int| 0 <= i < reg@.len() && reg@[i] == tab@;
        assert(p(reg@[i]));
    }
}

} // verus!
