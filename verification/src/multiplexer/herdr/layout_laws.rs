//! What a client is told of a workspace, stated over the calls that make up a layout:
//! where each pane lies, what it is called, and which of herdr's records count.

use vstd::prelude::*;
use vstd::string::*;

use super::api::{PaneInfo, PaneLayoutSnapshot, SessionSnapshot, TabInfo, WorkspaceInfo};
use super::layout::{
    all_placed_keys, find_next_tab, find_workspace, info_of, keep_layout, known_terminal,
    layout_counts, layout_from_snapshot, layout_of, layout_seen, lemma_last_registration_wins,
    lemma_register_seq_wf, listed_keys, pane_belongs, pane_in, pane_seen, places_of, refs,
    register_listed, register_seq, register_tabs, representative, snapshot_active,
    snapshot_layouts, snapshot_panes, snapshot_tabs, tab_belongs, tab_seen, transcode_layout,
    values, wants_layout, workspace_is,
};
use super::registry::{
    is_pane, is_tab, knows_pane, knows_tab, lemma_with_pane, lemma_with_tab, panes_wf,
    tabs_distinct, with_pane, HerdrPaneRegistry, HerdrTabRegistry, PaneKey,
};
use crate::multiplexer::types::LayoutSnapshot;
use crate::seqs::{
    any_where, first_index, last_index, lemma_filter_meaning, lemma_first_index,
    lemma_first_index_meaning, lemma_last_index_meaning,
};

verus! {

/// The tabs of a layout are herdr's tabs, in order: each with its number, its label and
/// an id that the registry holds for it, and active exactly if it is the active one.
pub proof fn law_every_tab_is_told_as_it_is(
    tabs: &Vec<&TabInfo>,
    panes: &Vec<&PaneInfo>,
    layouts: &Vec<&PaneLayoutSnapshot>,
    active: &str,
    pane_reg: &mut HerdrPaneRegistry,
    tab_reg: &mut HerdrTabRegistry,
    r: LayoutSnapshot,
    i: int,
)
    requires
        call_ensures(transcode_layout, (tabs, panes, layouts, active, pane_reg, tab_reg), r),
        0 <= i < tabs@.len(),
    ensures
        r.tabs@.len() == tabs@.len(),
        r.tabs@[i].name@ == tabs@[i].label@,
        r.tabs@[i].position == tabs@[i].number as u32,
        r.tabs@[i].active <==> tabs@[i].tab_id@ == active@,
        !r.tabs@[i].has_bell,
        r.tabs@[i].panes_to_hide == 0,
        !r.tabs@[i].floating_panes_visible,
        final(tab_reg)@.len() < u64::MAX && r.tabs@[i].tab_id > 0 ==> r.tabs@[i].tab_id <= final(tab_reg)@.len() && final(tab_reg)@[r.tabs@[i].tab_id - 1] == tabs@[i].tab_id@,
{
    lemma_tab_seen_at(tabs, panes, layouts, active, pane_reg, tab_reg, r, i);
    lemma_first_index_meaning(final(tab_reg)@, is_tab(tabs@[i].tab_id@));
}

/// A tab of a layout, by itself.
proof fn lemma_tab_seen_at(
    tabs: &Vec<&TabInfo>,
    panes: &Vec<&PaneInfo>,
    layouts: &Vec<&PaneLayoutSnapshot>,
    active: &str,
    pane_reg: &mut HerdrPaneRegistry,
    tab_reg: &mut HerdrTabRegistry,
    r: LayoutSnapshot,
    i: int,
)
    requires
        call_ensures(transcode_layout, (tabs, panes, layouts, active, pane_reg, tab_reg), r),
        0 <= i < tabs@.len(),
    ensures
        r.tabs@.len() == tabs@.len(),
        r.tabs@[i]@ == tab_seen(
            *tabs@[i],
            values(panes@),
            values(layouts@),
            active@,
            final(pane_reg)@,
            final(tab_reg)@,
        ),
{
    let seen = layout_seen(
        values(tabs@),
        values(panes@),
        values(layouts@),
        active@,
        final(pane_reg)@,
        final(tab_reg)@,
    );
    assert(r@ == seen);
    assert(seen.len() == tabs@.len());
    assert(r@[i] == r.tabs@[i]@);
    assert(values(tabs@)[i] == *tabs@[i]);
}

/// Each placed pane lies where herdr's layout of its tab puts it: column for column and
/// row for row, as wide and as high as its rectangle there. It has the focus if it has it
/// there, fills the screen if the tab is zoomed, and carries an id that the registry holds
/// for it. herdr has no floating panes, no plugins and no panes that have ended.
pub proof fn law_every_pane_lies_where_herdr_put_it(
    tabs: &Vec<&TabInfo>,
    panes: &Vec<&PaneInfo>,
    layouts: &Vec<&PaneLayoutSnapshot>,
    active: &str,
    pane_reg: &mut HerdrPaneRegistry,
    tab_reg: &mut HerdrTabRegistry,
    r: LayoutSnapshot,
    i: int,
    l: int,
    j: int,
)
    requires
        call_ensures(transcode_layout, (tabs, panes, layouts, active, pane_reg, tab_reg), r),
        0 <= i < tabs@.len(),
        0 <= l < layouts@.len(),
        layouts@[l].tab_id@ == tabs@[i].tab_id@,
        forall|m: int| 0 <= m < l ==> (#[trigger] layouts@[m]).tab_id@ != tabs@[i].tab_id@,
        0 <= j < layouts@[l].panes@.len(),
    ensures
        r.tabs@[i].fullscreen_active == layouts@[l].zoomed,
        r.tabs@[i].panes@.len() == layouts@[l].panes@.len(),
        ({
            let shown = r.tabs@[i].panes@[j];
            let place = layouts@[l].panes@[j];
            &&& shown.x == place.rect.x
            &&& shown.y == place.rect.y
            &&& shown.cols == place.rect.width
            &&& shown.rows == place.rect.height
            &&& shown.is_focused == place.focused
            &&& shown.is_fullscreen == layouts@[l].zoomed
            &&& !shown.is_floating
            &&& !shown.is_plugin
            &&& !shown.exited
            &&& shown.command@.len() == 0
            &&& final(pane_reg)@.len() <= u32::MAX && shown.id > 0 ==> shown.id <= final(pane_reg)@.len() && final(pane_reg)@[shown.id - 1].pane_id == place.pane_id@
        }),
{
    lemma_tab_seen_at(tabs, panes, layouts, active, pane_reg, tab_reg, r, i);
    lemma_layout_found(layouts, tabs@[i].tab_id@, l);
    let place = layouts@[l].panes@[j];
    assert(r.tabs@[i]@.panes.len() == layouts@[l].panes@.len());
    assert(r.tabs@[i]@.panes.len() == r.tabs@[i].panes@.len());
    assert(r.tabs@[i]@.panes[j] == r.tabs@[i].panes@[j]@);
    assert(r.tabs@[i]@.panes[j] == pane_seen(
        place,
        layouts@[l].zoomed,
        values(panes@),
        final(pane_reg)@,
    ));
    lemma_first_index_meaning(final(pane_reg)@, is_pane(place.pane_id@));
}

/// The first layout of a tab is the one that is found.
proof fn lemma_layout_found(layouts: &Vec<&PaneLayoutSnapshot>, tab: Seq<char>, l: int)
    requires
        0 <= l < layouts@.len(),
        layouts@[l].tab_id@ == tab,
        forall|m: int| 0 <= m < l ==> (#[trigger] layouts@[m]).tab_id@ != tab,
    ensures
        places_of(values(layouts@), tab) == layouts@[l].panes@,
        super::layout::is_zoomed(values(layouts@), tab) == layouts@[l].zoomed,
{
    let all = values(layouts@);
    assert forall|m: int| 0 <= m < l implies !layout_of(tab)(#[trigger] all[m]) by {
        assert(layouts@[m].tab_id@ != tab);
    }
    assert(all[l] == *layouts@[l]);
    lemma_first_index(all, layout_of(tab), l);
}

/// Panes that lie apart in herdr lie apart for a client, and panes that overlap there
/// overlap here.
pub proof fn law_panes_that_lie_apart_stay_apart(
    tabs: &Vec<&TabInfo>,
    panes: &Vec<&PaneInfo>,
    layouts: &Vec<&PaneLayoutSnapshot>,
    active: &str,
    pane_reg: &mut HerdrPaneRegistry,
    tab_reg: &mut HerdrTabRegistry,
    r: LayoutSnapshot,
    i: int,
    l: int,
    a: int,
    b: int,
)
    requires
        call_ensures(transcode_layout, (tabs, panes, layouts, active, pane_reg, tab_reg), r),
        0 <= i < tabs@.len(),
        0 <= l < layouts@.len(),
        layouts@[l].tab_id@ == tabs@[i].tab_id@,
        forall|m: int| 0 <= m < l ==> (#[trigger] layouts@[m]).tab_id@ != tabs@[i].tab_id@,
        0 <= a < layouts@[l].panes@.len(),
        0 <= b < layouts@[l].panes@.len(),
    ensures
        ({
            let p = layouts@[l].panes@[a].rect;
            let q = layouts@[l].panes@[b].rect;
            let s = r.tabs@[i].panes@[a];
            let t = r.tabs@[i].panes@[b];
            (s.x + s.cols <= t.x || t.x + t.cols <= s.x || s.y + s.rows <= t.y || t.y + t.rows
                <= s.y) <==> (p.x + p.width <= q.x || q.x + q.width <= p.x || p.y + p.height <= q.y
                || q.y + q.height <= p.y)
        }),
{
    law_every_pane_lies_where_herdr_put_it(
        tabs,
        panes,
        layouts,
        active,
        pane_reg,
        tab_reg,
        r,
        i,
        l,
        a,
    );
    law_every_pane_lies_where_herdr_put_it(
        tabs,
        panes,
        layouts,
        active,
        pane_reg,
        tab_reg,
        r,
        i,
        l,
        b,
    );
}

/// A tab that herdr gave no layout for has no placed panes, and is not zoomed.
pub proof fn law_a_tab_without_a_layout_shows_no_panes(
    tabs: &Vec<&TabInfo>,
    panes: &Vec<&PaneInfo>,
    layouts: &Vec<&PaneLayoutSnapshot>,
    active: &str,
    pane_reg: &mut HerdrPaneRegistry,
    tab_reg: &mut HerdrTabRegistry,
    r: LayoutSnapshot,
    i: int,
)
    requires
        call_ensures(transcode_layout, (tabs, panes, layouts, active, pane_reg, tab_reg), r),
        0 <= i < tabs@.len(),
        forall|m: int|
            0 <= m < layouts@.len() ==> (#[trigger] layouts@[m]).tab_id@ != tabs@[i].tab_id@,
    ensures
        r.tabs@[i].panes@.len() == 0,
        !r.tabs@[i].fullscreen_active,
{
    lemma_tab_seen_at(tabs, panes, layouts, active, pane_reg, tab_reg, r, i);
    let all = values(layouts@);
    let tab = tabs@[i].tab_id@;
    assert forall|m: int| 0 <= m < all.len() implies !layout_of(tab)(#[trigger] all[m]) by {
        assert(layouts@[m].tab_id@ != tab);
    }
    lemma_first_index(all, layout_of(tab), all.len() as int);
    assert(r.tabs@[i]@.panes.len() == r.tabs@[i].panes@.len());
}

/// A placed pane is called by its title, else by its label, else by nothing, and is in
/// its own directory: what the last record of that pane says. Of a pane without a record
/// nothing is said.
pub proof fn law_a_pane_is_called_by_its_own_record(
    tabs: &Vec<&TabInfo>,
    panes: &Vec<&PaneInfo>,
    layouts: &Vec<&PaneLayoutSnapshot>,
    active: &str,
    pane_reg: &mut HerdrPaneRegistry,
    tab_reg: &mut HerdrTabRegistry,
    r: LayoutSnapshot,
    i: int,
    l: int,
    j: int,
    k: int,
)
    requires
        call_ensures(transcode_layout, (tabs, panes, layouts, active, pane_reg, tab_reg), r),
        0 <= i < tabs@.len(),
        0 <= l < layouts@.len(),
        layouts@[l].tab_id@ == tabs@[i].tab_id@,
        forall|m: int| 0 <= m < l ==> (#[trigger] layouts@[m]).tab_id@ != tabs@[i].tab_id@,
        0 <= j < layouts@[l].panes@.len(),
        -1 <= k < panes@.len(),
        k >= 0 ==> panes@[k].pane_id@ == layouts@[l].panes@[j].pane_id@,
        forall|m: int|
            k < m < panes@.len() ==> (#[trigger] panes@[m]).pane_id@
                != layouts@[l].panes@[j].pane_id@,
    ensures
        ({
            let shown = r.tabs@[i].panes@[j];
            &&& k < 0 ==> shown.title@.len() == 0 && shown.cwd@.len() == 0
            &&& k >= 0 ==> match (panes@[k].title, panes@[k].label) {
                (Some(title), _) => shown.title@ == title@,
                (None, Some(label)) => shown.title@ == label@,
                (None, None) => shown.title@.len() == 0,
            }
            &&& k >= 0 ==> match panes@[k].cwd {
                Some(cwd) => shown.cwd@ == cwd@,
                None => shown.cwd@.len() == 0,
            }
        }),
{
    lemma_tab_seen_at(tabs, panes, layouts, active, pane_reg, tab_reg, r, i);
    lemma_layout_found(layouts, tabs@[i].tab_id@, l);
    let place = layouts@[l].panes@[j];
    let all = values(panes@);
    let named = info_of(place.pane_id@);
    assert(r.tabs@[i]@.panes.len() == layouts@[l].panes@.len());
    assert(r.tabs@[i]@.panes.len() == r.tabs@[i].panes@.len());
    assert(r.tabs@[i]@.panes[j] == r.tabs@[i].panes@[j]@);
    assert(r.tabs@[i]@.panes[j] == pane_seen(place, layouts@[l].zoomed, all, final(pane_reg)@));
    lemma_last_index_meaning(all, named);
    let found = last_index(all, named);
    if found > k {
        assert(panes@[found].pane_id@ != place.pane_id@);
        assert(named(all[found]));
    }
    if k >= 0 {
        assert(named(all[k]));
    }
    assert(found == k);
    if k >= 0 {
        assert(all[k] == *panes@[k]);
    }
}

/// The attach key that is known for a pane is the one of its last record; none is known
/// for a pane without a record.
pub proof fn law_the_last_record_holds_the_attach_key(
    panes: Seq<PaneInfo>,
    pane: Seq<char>,
    k: int,
)
    requires
        -1 <= k < panes.len(),
        k >= 0 ==> panes[k].pane_id@ == pane,
        forall|m: int| k < m < panes.len() ==> (#[trigger] panes[m]).pane_id@ != pane,
    ensures
        k >= 0 ==> known_terminal(panes, pane) == panes[k].terminal_id@,
        k < 0 ==> known_terminal(panes, pane).len() == 0,
{
    let named = info_of(pane);
    lemma_last_index_meaning(panes, named);
    let found = last_index(panes, named);
    if found > k {
        assert(panes[found].pane_id@ != pane);
    }
    if k >= 0 {
        assert(named(panes[k]));
    }
}

/// Of a snapshot of the whole daemon exactly the records of the workspace count: its
/// tabs, its panes, and the layouts of those of its tabs that have a pane. Its active tab
/// is the one that the workspace itself names.
pub proof fn law_a_snapshot_is_cut_down_to_the_workspace(
    s: SessionSnapshot,
    ws: Seq<char>,
    tab: TabInfo,
    pane: PaneInfo,
    layout: PaneLayoutSnapshot,
    w: int,
)
    ensures
        snapshot_tabs(s, ws).contains(tab) <==> s.tabs@.contains(tab) && tab.workspace_id@ == ws,
        snapshot_panes(s, ws).contains(pane) <==> s.panes@.contains(pane) && pane.workspace_id@
            == ws,
        snapshot_layouts(s, ws).contains(layout) <==> s.layouts@.contains(layout)
            && layout.workspace_id@ == ws && exists|p: int|
            0 <= p < s.panes@.len() && (#[trigger] s.panes@[p]).workspace_id@ == ws
                && s.panes@[p].tab_id@ == layout.tab_id@,
        0 <= w < s.workspaces@.len() && s.workspaces@[w].workspace_id@ == ws && (forall|m: int|
            0 <= m < w ==> (#[trigger] s.workspaces@[m]).workspace_id@ != ws) ==> snapshot_active(
            s,
            ws,
        ) == Some(s.workspaces@[w].active_tab_id@),
        (forall|m: int|
            0 <= m < s.workspaces@.len() ==> (#[trigger] s.workspaces@[m]).workspace_id@ != ws)
            ==> snapshot_active(s, ws) is None,
{
    lemma_filter_meaning(s.tabs@, tab_belongs(ws));
    lemma_filter_meaning(s.panes@, pane_belongs(ws));
    let own = snapshot_panes(s, ws);
    lemma_filter_meaning(s.layouts@, layout_counts(ws, own));
    if any_where(own, pane_in(layout.tab_id@)) {
        let q = choose|q: int| 0 <= q < own.len() && pane_in(layout.tab_id@)(#[trigger] own[q]);
        assert(own.contains(own[q]));
        let p = choose|p: int| 0 <= p < s.panes@.len() && s.panes@[p] == own[q];
        assert(s.panes@[p].workspace_id@ == ws);
    }
    if exists|p: int|
        0 <= p < s.panes@.len() && (#[trigger] s.panes@[p]).workspace_id@ == ws && s.panes@[p].tab_id@
            == layout.tab_id@ {
        let p = choose|p: int|
            0 <= p < s.panes@.len() && (#[trigger] s.panes@[p]).workspace_id@ == ws
                && s.panes@[p].tab_id@ == layout.tab_id@;
        assert(s.panes@.contains(s.panes@[p]));
        assert(own.contains(s.panes@[p]));
        let q = choose|q: int| 0 <= q < own.len() && own[q] == s.panes@[p];
        assert(pane_in(layout.tab_id@)(own[q]));
    }
    let is = workspace_is(ws);
    lemma_first_index_meaning(s.workspaces@, is);
    let found = first_index(s.workspaces@, is);
    if 0 <= w < s.workspaces@.len() && s.workspaces@[w].workspace_id@ == ws && (forall|m: int|
        0 <= m < w ==> (#[trigger] s.workspaces@[m]).workspace_id@ != ws) {
        assert(is(s.workspaces@[w]));
        if found < w {
            assert(s.workspaces@[found].workspace_id@ != ws);
        }
        assert(found == w);
    }
    if found < s.workspaces@.len() {
        assert(s.workspaces@[found].workspace_id@ == ws);
    }
}

/// A snapshot gives a layout exactly for the workspaces that it lists, and one tab for
/// each tab of the workspace.
pub proof fn law_a_snapshot_answers_for_the_workspaces_it_lists(
    snapshot: &SessionSnapshot,
    ws: &str,
    pane_reg: &mut HerdrPaneRegistry,
    tab_reg: &mut HerdrTabRegistry,
    r: Option<LayoutSnapshot>,
)
    requires
        call_ensures(layout_from_snapshot, (snapshot, ws, pane_reg, tab_reg), r),
    ensures
        r is Some <==> exists|w: int|
            0 <= w < snapshot.workspaces@.len() && (
            #[trigger] snapshot.workspaces@[w]).workspace_id@ == ws@,
        r is None ==> final(pane_reg)@ == old(pane_reg)@ && final(tab_reg)@ == old(tab_reg)@,
        r matches Some(l) ==> l.tabs@.len() == snapshot_tabs(*snapshot, ws@).len(),
{
    let is = workspace_is(ws@);
    lemma_first_index_meaning(snapshot.workspaces@, is);
    let found = first_index(snapshot.workspaces@, is);
    if found < snapshot.workspaces@.len() {
        assert(snapshot.workspaces@[found].workspace_id@ == ws@);
    }
    if exists|w: int|
        0 <= w < snapshot.workspaces@.len() && (#[trigger] snapshot.workspaces@[w]).workspace_id@
            == ws@ {
        let w = choose|w: int|
            0 <= w < snapshot.workspaces@.len() && (
            #[trigger] snapshot.workspaces@[w]).workspace_id@ == ws@;
        assert(is(snapshot.workspaces@[w]));
    }
    if let Some(l) = r {
        assert(l@.len() == l.tabs@.len());
    }
}

/// The fan-out asks next for the first tab that has a pane and no layout yet.
pub proof fn law_the_fanout_asks_for_each_tab_with_a_pane(
    tabs: &Vec<TabInfo>,
    panes: &Vec<PaneInfo>,
    layouts: &Vec<PaneLayoutSnapshot>,
    from: usize,
    i: usize,
)
    requires
        from <= tabs@.len(),
        call_ensures(find_next_tab, (tabs, panes, layouts, from), i),
    ensures
        from <= i <= tabs@.len(),
        i < tabs@.len() ==> (exists|p: int|
            0 <= p < panes@.len() && (#[trigger] panes@[p]).tab_id@ == tabs@[i as int].tab_id@) && (
        forall|l: int|
            0 <= l < layouts@.len() ==> (#[trigger] layouts@[l]).tab_id@
                != tabs@[i as int].tab_id@),
        forall|t: int|
            from <= t < i ==> ((forall|p: int|
                0 <= p < panes@.len() ==> (#[trigger] panes@[p]).tab_id@ != (
                #[trigger] tabs@[t]).tab_id@) || (exists|l: int|
                0 <= l < layouts@.len() && (#[trigger] layouts@[l]).tab_id@ == tabs@[t].tab_id@)),
{
    let wants = wants_layout(panes@, layouts@);
    let rest = tabs@.skip(from as int);
    lemma_first_index_meaning(rest, wants);
    if i < tabs@.len() {
        let tab = tabs@[i as int].tab_id@;
        lemma_first_index_meaning(panes@, pane_in(tab));
        lemma_first_index_meaning(layouts@, layout_of(tab));
        let p = first_index(panes@, pane_in(tab));
        assert(pane_in(tab)(panes@[p]));
        assert forall|l: int| 0 <= l < layouts@.len() implies (#[trigger] layouts@[l]).tab_id@
            != tab by {
            assert(!layout_of(tab)(layouts@[l]));
        }
    }
    assert forall|t: int| from <= t < i implies ((forall|p: int|
        0 <= p < panes@.len() ==> (#[trigger] panes@[p]).tab_id@ != (#[trigger] tabs@[t]).tab_id@)
        || (exists|l: int|
        0 <= l < layouts@.len() && (#[trigger] layouts@[l]).tab_id@ == tabs@[t].tab_id@)) by {
        let tab = tabs@[t].tab_id@;
        assert(rest[t - from] == tabs@[t]);
        assert(!wants(rest[t - from]));
        lemma_first_index_meaning(panes@, pane_in(tab));
        lemma_first_index_meaning(layouts@, layout_of(tab));
        let l = first_index(layouts@, layout_of(tab));
        if l < layouts@.len() {
            assert(layouts@[l].tab_id@ == tab);
        } else {
            assert forall|p: int| 0 <= p < panes@.len() implies (#[trigger] panes@[p]).tab_id@
                != tab by {
                assert(!pane_in(tab)(panes@[p]));
            }
        }
    }
}

/// A layout that comes in is kept: in the place of the one that its tab had, or at the
/// end. Every other layout stays where it is.
pub proof fn law_a_layout_replaces_only_that_of_its_tab(
    layouts: &mut Vec<PaneLayoutSnapshot>,
    l: PaneLayoutSnapshot,
)
    requires
        call_ensures(keep_layout, (layouts, l), ()),
    ensures
        exists|k: int|
            0 <= k < final(layouts)@.len() && #[trigger] final(layouts)@[k] == l && (k < old(layouts)@.len() ==> old(layouts)@[k].tab_id@ == l.tab_id@) && (forall|m: int|
                0 <= m < old(layouts)@.len() && m != k ==> #[trigger] final(layouts)@[m] == old(layouts)@[m]),
        final(layouts)@.len() == old(layouts)@.len() || (final(layouts)@.len() == old(layouts)@.len() + 1 && forall|m: int|
            0 <= m < old(layouts)@.len() ==> (#[trigger] old(layouts)@[m]).tab_id@ != l.tab_id@),
{
    let p = layout_of(l.tab_id@);
    let before = old(layouts)@;
    lemma_first_index_meaning(before, p);
    let k = first_index(before, p);
    assert(final(layouts)@[k] == l);
    if k < before.len() {
        assert(p(before[k]));
    } else {
        assert forall|m: int| 0 <= m < before.len() implies (#[trigger] before[m]).tab_id@
            != l.tab_id@ by {
            assert(!p(before[m]));
        }
    }
}

/// A tab's layout is asked for through the first pane of the tab, and a workspace is the
/// first one of its name.
pub proof fn law_the_first_record_speaks_for_its_group(
    panes: &Vec<&PaneInfo>,
    tab: &str,
    pane: Option<&PaneInfo>,
    workspaces: &Vec<WorkspaceInfo>,
    ws: &str,
    w: Option<&WorkspaceInfo>,
)
    requires
        call_ensures(representative, (panes, tab), pane),
        call_ensures(find_workspace, (workspaces, ws), w),
    ensures
        pane matches Some(p) ==> exists|k: int|
            0 <= k < panes@.len() && *(#[trigger] panes@[k]) == *p && p.tab_id@ == tab@ && forall|
                m: int,
            |
                0 <= m < k ==> (#[trigger] panes@[m]).tab_id@ != tab@,
        pane is None ==> forall|m: int|
            0 <= m < panes@.len() ==> (#[trigger] panes@[m]).tab_id@ != tab@,
        w matches Some(x) ==> exists|k: int|
            0 <= k < workspaces@.len() && #[trigger] workspaces@[k] == *x && x.workspace_id@ == ws@
                && forall|m: int|
                0 <= m < k ==> (#[trigger] workspaces@[m]).workspace_id@ != ws@,
        w is None ==> forall|m: int|
            0 <= m < workspaces@.len() ==> (#[trigger] workspaces@[m]).workspace_id@ != ws@,
{
    let all = values(panes@);
    let p = pane_in(tab@);
    lemma_first_index_meaning(all, p);
    let k = first_index(all, p);
    assert forall|m: int| 0 <= m < k implies (#[trigger] panes@[m]).tab_id@ != tab@ by {
        assert(!p(all[m]));
    }
    if k < all.len() {
        assert(p(all[k]));
        assert(all[k] == *panes@[k]);
    }
    let q = workspace_is(ws@);
    lemma_first_index_meaning(workspaces@, q);
    let n = first_index(workspaces@, q);
    assert forall|m: int| 0 <= m < n implies (#[trigger] workspaces@[m]).workspace_id@ != ws@ by {
        assert(!q(workspaces@[m]));
    }
    if n < workspaces@.len() {
        assert(q(workspaces@[n]));
    }
}

/// A registry that is not full knows every pane that was registered in it.
proof fn lemma_registered(reg: Seq<PaneKey>, keys: Seq<PaneKey>, pane: Seq<char>)
    requires
        panes_wf(reg),
        register_seq(reg, keys).len() < u32::MAX,
        any_where(keys, is_pane(pane)),
    ensures
        knows_pane(register_seq(reg, keys), pane),
    decreases keys.len(),
{
    let init = keys.drop_last();
    let before = register_seq(reg, init);
    let key = keys.last();
    lemma_register_seq_wf(reg, init);
    lemma_with_pane(before, key.pane_id, key.terminal_id);
    let after = register_seq(reg, keys);
    assert(after == with_pane(before, key.pane_id, key.terminal_id));
    if key.pane_id != pane {
        let i = choose|i: int| 0 <= i < keys.len() && is_pane(pane)(#[trigger] keys[i]);
        assert(is_pane(pane)(init[i]));
        lemma_registered(reg, init, pane);
        lemma_first_index_meaning(before, is_pane(pane));
        lemma_first_index_meaning(after, is_pane(pane));
        let k = first_index(before, is_pane(pane));
        assert(after[k].pane_id == before[k].pane_id);
        assert(is_pane(pane)(after[k]));
    }
}

/// Every place of a tab is among the keys that a layout registers.
proof fn lemma_placed(
    tabs: Seq<TabInfo>,
    panes: Seq<PaneInfo>,
    layouts: Seq<PaneLayoutSnapshot>,
    i: int,
    j: int,
)
    requires
        0 <= i < tabs.len(),
        0 <= j < places_of(layouts, tabs[i].tab_id@).len(),
    ensures
        any_where(
            all_placed_keys(tabs, panes, layouts),
            is_pane(places_of(layouts, tabs[i].tab_id@)[j].pane_id@),
        ),
    decreases tabs.len(),
{
    let init = tabs.drop_last();
    let head = all_placed_keys(init, panes, layouts);
    let all = all_placed_keys(tabs, panes, layouts);
    let p = is_pane(places_of(layouts, tabs[i].tab_id@)[j].pane_id@);
    if i < init.len() {
        assert(init[i] == tabs[i]);
        lemma_placed(init, panes, layouts, i, j);
        let k = choose|k: int| 0 <= k < head.len() && p(#[trigger] head[k]);
        assert(p(all[k]));
    } else {
        assert(p(all[head.len() + j]));
    }
}

/// A tab that was registered is known.
proof fn lemma_tab_registered(reg: Seq<Seq<char>>, tabs: Seq<TabInfo>, i: int)
    requires
        tabs_distinct(reg),
        0 <= i < tabs.len(),
    ensures
        knows_tab(register_tabs(reg, tabs), tabs[i].tab_id@),
    decreases tabs.len(),
{
    let init = tabs.drop_last();
    lemma_tabs_stay_distinct(reg, init);
    let before = register_tabs(reg, init);
    let after = register_tabs(reg, tabs);
    lemma_with_tab(before, tabs.last().tab_id@);
    if i < init.len() {
        lemma_tab_registered(reg, init, i);
        let p = is_tab(tabs[i].tab_id@);
        lemma_first_index_meaning(before, p);
        lemma_first_index_meaning(after, p);
        let k = first_index(before, p);
        assert(after[k] == before[k]);
        assert(p(after[k]));
    }
}

proof fn lemma_tabs_stay_distinct(reg: Seq<Seq<char>>, tabs: Seq<TabInfo>)
    requires
        tabs_distinct(reg),
    ensures
        tabs_distinct(register_tabs(reg, tabs)),
    decreases tabs.len(),
{
    if tabs.len() > 0 {
        lemma_tabs_stay_distinct(reg, tabs.drop_last());
        lemma_with_tab(register_tabs(reg, tabs.drop_last()), tabs.last().tab_id@);
    }
}

/// Every tab and every placed pane of a layout has an id of its own, under which the
/// registries hold it: none is left without one as long as the registry has room.
pub proof fn law_everything_shown_has_an_id(
    tabs: &Vec<&TabInfo>,
    panes: &Vec<&PaneInfo>,
    layouts: &Vec<&PaneLayoutSnapshot>,
    active: &str,
    pane_reg: &mut HerdrPaneRegistry,
    tab_reg: &mut HerdrTabRegistry,
    r: LayoutSnapshot,
    i: int,
    l: int,
    j: int,
)
    requires
        old(pane_reg).wf(),
        old(tab_reg).wf(),
        call_ensures(transcode_layout, (tabs, panes, layouts, active, pane_reg, tab_reg), r),
        final(pane_reg)@.len() < u32::MAX,
        final(tab_reg)@.len() < u64::MAX,
        0 <= i < tabs@.len(),
        0 <= l < layouts@.len(),
        layouts@[l].tab_id@ == tabs@[i].tab_id@,
        forall|m: int| 0 <= m < l ==> (#[trigger] layouts@[m]).tab_id@ != tabs@[i].tab_id@,
        0 <= j < layouts@[l].panes@.len(),
    ensures
        1 <= r.tabs@[i].tab_id <= final(tab_reg)@.len(),
        final(tab_reg)@[r.tabs@[i].tab_id - 1] == tabs@[i].tab_id@,
        1 <= r.tabs@[i].panes@[j].id <= final(pane_reg)@.len(),
        final(pane_reg)@[r.tabs@[i].panes@[j].id - 1].pane_id == layouts@[l].panes@[j].pane_id@,
{
    law_every_tab_is_told_as_it_is(tabs, panes, layouts, active, pane_reg, tab_reg, r, i);
    law_every_pane_lies_where_herdr_put_it(
        tabs,
        panes,
        layouts,
        active,
        pane_reg,
        tab_reg,
        r,
        i,
        l,
        j,
    );
    lemma_tab_seen_at(tabs, panes, layouts, active, pane_reg, tab_reg, r, i);
    lemma_layout_found(layouts, tabs@[i].tab_id@, l);
    let place = layouts@[l].panes@[j];
    let t = values(tabs@);
    assert(t[i] == *tabs@[i]);
    lemma_tab_registered(old(tab_reg)@, t, i);
    lemma_placed(t, values(panes@), values(layouts@), i, j);
    let listed = listed_keys(values(panes@));
    let placed = all_placed_keys(t, values(panes@), values(layouts@));
    let p = is_pane(place.pane_id@);
    let k = choose|k: int| 0 <= k < placed.len() && p(#[trigger] placed[k]);
    assert(p((listed + placed)[listed.len() + k]));
    lemma_registered(old(pane_reg)@, listed + placed, place.pane_id@);
    assert(r.tabs@[i]@.panes[j] == r.tabs@[i].panes@[j]@);
    assert(r.tabs@[i]@.panes[j] == pane_seen(
        place,
        layouts@[l].zoomed,
        values(panes@),
        final(pane_reg)@,
    ));
    lemma_first_index_meaning(final(pane_reg)@, p);
    lemma_first_index_meaning(final(tab_reg)@, is_tab(tabs@[i].tab_id@));
}

/// References stand for what they refer to, in order.
pub proof fn law_references_keep_the_order<'a, T>(v: &'a Vec<T>, r: Vec<&'a T>)
    requires
        call_ensures(refs::<T>, (v,), r),
    ensures
        r@.len() == v@.len(),
        forall|i: int| 0 <= i < v@.len() ==> *(#[trigger] r@[i]) == v@[i],
{
    assert(values(r@).len() == r@.len());
    assert forall|i: int| 0 <= i < v@.len() implies *(#[trigger] r@[i]) == v@[i] by {
        assert(values(r@)[i] == *r@[i]);
    }
}

/// Every listed pane is registered, under the attach key of its last record.
pub proof fn law_a_listed_pane_is_registered(
    panes: &Vec<&PaneInfo>,
    reg: &mut HerdrPaneRegistry,
    i: int,
)
    requires
        old(reg).wf(),
        call_ensures(register_listed, (panes, reg), ()),
        final(reg)@.len() < u32::MAX,
        0 <= i < panes@.len(),
    ensures
        exists|k: int|
            0 <= k < final(reg)@.len() && (#[trigger] final(reg)@[k]).pane_id == panes@[i].pane_id@,
        old(reg)@.len() + panes@.len() <= u32::MAX && (forall|m: int|
            i < m < panes@.len() ==> (#[trigger] panes@[m]).pane_id@ != panes@[i].pane_id@)
            ==> exists|k: int|
            0 <= k < final(reg)@.len() && (#[trigger] final(reg)@[k]).pane_id == panes@[i].pane_id@
                && final(reg)@[k].terminal_id == panes@[i].terminal_id@,
{
    let keys = listed_keys(values(panes@));
    let pane = panes@[i].pane_id@;
    let p = is_pane(pane);
    assert(keys.len() == panes@.len());
    assert(keys[i].pane_id == pane);
    assert(p(keys[i]));
    lemma_registered(old(reg)@, keys, pane);
    lemma_first_index_meaning(final(reg)@, p);
    let k = first_index(final(reg)@, p);
    assert(final(reg)@[k].pane_id == pane);
    if old(reg)@.len() + panes@.len() <= u32::MAX && (forall|m: int|
        i < m < panes@.len() ==> (#[trigger] panes@[m]).pane_id@ != pane) {
        lemma_last_registration_wins(old(reg)@, keys, pane);
        lemma_last_index_meaning(keys, p);
        let last = last_index(keys, p);
        if last > i {
            assert(panes@[last].pane_id@ != pane);
            assert(keys[last].pane_id == panes@[last].pane_id@);
        }
        assert(last == i);
    }
}

} // verus!
