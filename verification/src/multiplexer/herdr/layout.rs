//! From herdr's tabs, panes and pane places to the neutral layout.
//!
//! Two queries lead here. `session.snapshot` answers everything in one response;
//! without it, `workspace.list`, `tab.list`, `pane.list` and one `pane.layout` per
//! tab do. Both end in [`transcode_layout`], and a tab gets places only if it has a
//! pane that `pane.layout` could be asked through, so both give the same layout.

use vstd::prelude::*;
use vstd::string::*;

use super::api::{PaneInfo, PaneLayoutPane, PaneLayoutSnapshot, SessionSnapshot, TabInfo, WorkspaceInfo};
use super::registry::{
    is_pane, knows_pane, law_pane_ids_are_stable, lemma_with_pane, lemma_with_tab, pane_id_of,
    panes_wf, tab_id_of, with_pane, with_tab, HerdrPaneRegistry, HerdrTabRegistry, PaneKey,
};
use crate::multiplexer::types::{
    pane_views, LayoutSnapshot, PaneSnapshot, PaneSnapshotModel, TabSnapshot,
    TabSnapshotModel,
};
use crate::seqs::{
    any_where, first_index, first_where, last_index, last_where, lemma_filter_meaning,
    lemma_filter_step, lemma_first_exists, lemma_first_index, lemma_first_index_meaning,
    lemma_last_index_meaning, lemma_last_index_step,
};
use crate::text::text_eq;

verus! {

// ----------------------------------------------------------------- vocabulary

/// The values behind a sequence of references.
pub open spec fn values<'a, T>(s: Seq<&'a T>) -> Seq<T> {
    Seq::new(s.len(), |i: int| *s[i])
}

/// References to every item of a vector.
pub fn refs<'a, T>(v: &'a Vec<T>) -> (r: Vec<&'a T>)
    ensures
        values(r@) == v@,
{
    let mut r: Vec<&'a T> = Vec::new();
    let n: usize = v.len();
    let mut i: usize = 0;
    while i < n
        invariant
            i <= n,
            n == v@.len(),
            r@.len() == i,
            forall|j: int| 0 <= j < i ==> *(#[trigger] r@[j]) == v@[j],
        decreases n - i,
    {
        r.push(&v[i]);
        i = i + 1;
    }
    proof {
        assert(values(r@) =~= v@);
    }
    r
}

/// Whether a pane record is the one of `pane`.
pub open spec fn info_of(pane: Seq<char>) -> spec_fn(PaneInfo) -> bool {
    |p: PaneInfo| p.pane_id@ == pane
}

/// Whether a pane is in `tab`.
pub open spec fn pane_in(tab: Seq<char>) -> spec_fn(PaneInfo) -> bool {
    |p: PaneInfo| p.tab_id@ == tab
}

/// Whether a layout is the one of `tab`.
pub open spec fn layout_of(tab: Seq<char>) -> spec_fn(PaneLayoutSnapshot) -> bool {
    |l: PaneLayoutSnapshot| l.tab_id@ == tab
}

/// Whether a workspace is `ws`.
pub open spec fn workspace_is(ws: Seq<char>) -> spec_fn(WorkspaceInfo) -> bool {
    |w: WorkspaceInfo| w.workspace_id@ == ws
}

/// Whether a tab belongs to workspace `ws`.
pub open spec fn tab_belongs(ws: Seq<char>) -> spec_fn(TabInfo) -> bool {
    |t: TabInfo| t.workspace_id@ == ws
}

/// Whether a pane belongs to workspace `ws`.
pub open spec fn pane_belongs(ws: Seq<char>) -> spec_fn(PaneInfo) -> bool {
    |p: PaneInfo| p.workspace_id@ == ws
}

/// Whether a layout belongs to workspace `ws` and its tab has one of `panes`.
pub open spec fn layout_counts(ws: Seq<char>, panes: Seq<PaneInfo>) -> spec_fn(
    PaneLayoutSnapshot,
) -> bool {
    |l: PaneLayoutSnapshot| l.workspace_id@ == ws && any_where(panes, pane_in(l.tab_id@))
}

// -------------------------------------------------------------------- lookups

/// What is known about `pane`: the last record of it.
fn find_info<'a>(panes: &Vec<&'a PaneInfo>, pane: &str) -> (r: Option<&'a PaneInfo>)
    ensures
        match r {
            Some(p) => last_where(values(panes@), info_of(pane@)) == Some(*p),
            None => last_where(values(panes@), info_of(pane@)) is None,
        },
{
    let n: usize = panes.len();
    let mut found: Option<&'a PaneInfo> = None;
    let mut i: usize = 0;
    proof {
        assert(values(panes@).take(0) =~= Seq::empty());
    }
    while i < n
        invariant
            i <= n,
            n == panes@.len(),
            match found {
                Some(p) => 0 <= last_index(values(panes@).take(i as int), info_of(pane@)) < i && *p
                    == values(panes@)[last_index(values(panes@).take(i as int), info_of(pane@))],
                None => last_index(values(panes@).take(i as int), info_of(pane@)) < 0,
            },
        decreases n - i,
    {
        proof {
            lemma_last_index_step(values(panes@), info_of(pane@), i as int);
            assert(values(panes@)[i as int] == *panes@[i as int]);
        }
        if text_eq(panes[i].pane_id.as_str(), pane) {
            found = Some(panes[i]);
        }
        i = i + 1;
    }
    proof {
        assert(values(panes@).take(n as int) =~= values(panes@));
    }
    found
}

/// The first layout of `tab`.
fn find_layout<'a>(layouts: &Vec<&'a PaneLayoutSnapshot>, tab: &str) -> (r: Option<
    &'a PaneLayoutSnapshot,
>)
    ensures
        match r {
            Some(l) => first_where(values(layouts@), layout_of(tab@)) == Some(*l),
            None => first_where(values(layouts@), layout_of(tab@)) is None,
        },
{
    let n: usize = layouts.len();
    let mut i: usize = 0;
    while i < n
        invariant
            i <= n,
            n == layouts@.len(),
            forall|j: int| 0 <= j < i ==> !layout_of(tab@)(#[trigger] values(layouts@)[j]),
        decreases n - i,
    {
        proof {
            assert(values(layouts@)[i as int] == *layouts@[i as int]);
        }
        if text_eq(layouts[i].tab_id.as_str(), tab) {
            proof {
                lemma_first_index(values(layouts@), layout_of(tab@), i as int);
            }
            return Some(layouts[i]);
        }
        i = i + 1;
    }
    proof {
        lemma_first_index(values(layouts@), layout_of(tab@), n as int);
    }
    None
}

// -------------------------------------------------------------- registrations

/// The registry after these panes were registered in order.
pub open spec fn register_seq(reg: Seq<PaneKey>, keys: Seq<PaneKey>) -> Seq<PaneKey>
    decreases keys.len(),
{
    if keys.len() == 0 {
        reg
    } else {
        with_pane(
            register_seq(reg, keys.drop_last()),
            keys.last().pane_id,
            keys.last().terminal_id,
        )
    }
}

/// The tab registry after these tabs were registered in order.
pub open spec fn register_tabs(reg: Seq<Seq<char>>, tabs: Seq<TabInfo>) -> Seq<Seq<char>>
    decreases tabs.len(),
{
    if tabs.len() == 0 {
        reg
    } else {
        with_tab(register_tabs(reg, tabs.drop_last()), tabs.last().tab_id@)
    }
}

/// The key of a listed pane.
pub open spec fn listed_key(p: PaneInfo) -> PaneKey {
    PaneKey { pane_id: p.pane_id@, terminal_id: p.terminal_id@ }
}

/// The keys of listed panes.
pub open spec fn listed_keys(panes: Seq<PaneInfo>) -> Seq<PaneKey> {
    panes.map_values(|p: PaneInfo| listed_key(p))
}

/// The attach key that is known for `pane`; empty when the pane is not listed.
pub open spec fn known_terminal(panes: Seq<PaneInfo>, pane: Seq<char>) -> Seq<char> {
    match last_where(panes, info_of(pane)) {
        Some(p) => p.terminal_id@,
        None => Seq::empty(),
    }
}

/// The keys of placed panes.
pub open spec fn placed_keys(places: Seq<PaneLayoutPane>, panes: Seq<PaneInfo>) -> Seq<PaneKey> {
    places.map_values(
        |l: PaneLayoutPane|
            PaneKey { pane_id: l.pane_id@, terminal_id: known_terminal(panes, l.pane_id@) },
    )
}

/// The places of `tab`'s panes; none without a layout.
pub open spec fn places_of(layouts: Seq<PaneLayoutSnapshot>, tab: Seq<char>) -> Seq<PaneLayoutPane> {
    match first_where(layouts, layout_of(tab)) {
        Some(l) => l.panes@,
        None => Seq::empty(),
    }
}

/// Whether `tab` is zoomed; not without a layout.
pub open spec fn is_zoomed(layouts: Seq<PaneLayoutSnapshot>, tab: Seq<char>) -> bool {
    match first_where(layouts, layout_of(tab)) {
        Some(l) => l.zoomed,
        None => false,
    }
}

/// The keys of the placed panes of all tabs, in order.
pub open spec fn all_placed_keys(
    tabs: Seq<TabInfo>,
    panes: Seq<PaneInfo>,
    layouts: Seq<PaneLayoutSnapshot>,
) -> Seq<PaneKey>
    decreases tabs.len(),
{
    if tabs.len() == 0 {
        Seq::empty()
    } else {
        all_placed_keys(tabs.drop_last(), panes, layouts) + placed_keys(
            places_of(layouts, tabs.last().tab_id@),
            panes,
        )
    }
}

/// The pane registry that a layout leaves: every listed pane, then every placed
/// one, each under the attach key that is known for it.
pub open spec fn panes_after(
    reg: Seq<PaneKey>,
    tabs: Seq<TabInfo>,
    panes: Seq<PaneInfo>,
    layouts: Seq<PaneLayoutSnapshot>,
) -> Seq<PaneKey> {
    register_seq(reg, listed_keys(panes) + all_placed_keys(tabs, panes, layouts))
}

/// Registering keeps the registry well formed.
pub proof fn lemma_register_seq_wf(reg: Seq<PaneKey>, keys: Seq<PaneKey>)
    requires
        panes_wf(reg),
    ensures
        panes_wf(register_seq(reg, keys)),
    decreases keys.len(),
{
    if keys.len() > 0 {
        lemma_register_seq_wf(reg, keys.drop_last());
        lemma_with_pane(
            register_seq(reg, keys.drop_last()),
            keys.last().pane_id,
            keys.last().terminal_id,
        );
    }
}

/// One more registration.
proof fn lemma_register_push(reg: Seq<PaneKey>, keys: Seq<PaneKey>, key: PaneKey)
    ensures
        register_seq(reg, keys.push(key)) == with_pane(
            register_seq(reg, keys),
            key.pane_id,
            key.terminal_id,
        ),
{
    assert(keys.push(key).drop_last() =~= keys);
}

// ------------------------------------------------------------------- the view

/// The title of a pane: its title, else its label, else nothing.
pub open spec fn title_of(info: Option<PaneInfo>) -> Seq<char> {
    match info {
        Some(p) => match p.title {
            Some(t) => t@,
            None => match p.label {
                Some(l) => l@,
                None => Seq::empty(),
            },
        },
        None => Seq::empty(),
    }
}

/// The working directory of a pane, or nothing.
pub open spec fn cwd_of(info: Option<PaneInfo>) -> Seq<char> {
    match info {
        Some(p) => match p.cwd {
            Some(c) => c@,
            None => Seq::empty(),
        },
        None => Seq::empty(),
    }
}

/// A placed pane as a client sees it.
pub open spec fn pane_seen(
    place: PaneLayoutPane,
    zoomed: bool,
    panes: Seq<PaneInfo>,
    reg: Seq<PaneKey>,
) -> PaneSnapshotModel {
    let info = last_where(panes, info_of(place.pane_id@));
    PaneSnapshotModel {
        id: pane_id_of(reg, place.pane_id@) as u32,
        title: title_of(info),
        is_focused: place.focused,
        is_floating: false,
        exited: false,
        command: Seq::empty(),
        cwd: cwd_of(info),
        x: place.rect.x as u32,
        y: place.rect.y as u32,
        rows: place.rect.height as u32,
        cols: place.rect.width as u32,
        is_plugin: false,
        is_fullscreen: zoomed,
    }
}

/// A tab's placed panes as a client sees them.
pub open spec fn panes_seen(
    places: Seq<PaneLayoutPane>,
    zoomed: bool,
    panes: Seq<PaneInfo>,
    reg: Seq<PaneKey>,
) -> Seq<PaneSnapshotModel> {
    places.map_values(|p: PaneLayoutPane| pane_seen(p, zoomed, panes, reg))
}

/// A tab as a client sees it. The active one is the workspace's own active tab.
pub open spec fn tab_seen(
    tab: TabInfo,
    panes: Seq<PaneInfo>,
    layouts: Seq<PaneLayoutSnapshot>,
    active: Seq<char>,
    pane_reg: Seq<PaneKey>,
    tab_reg: Seq<Seq<char>>,
) -> TabSnapshotModel {
    TabSnapshotModel {
        tab_id: tab_id_of(tab_reg, tab.tab_id@) as u64,
        position: tab.number as u32,
        name: tab.label@,
        active: tab.tab_id@ == active,
        has_bell: false,
        panes_to_hide: 0,
        fullscreen_active: is_zoomed(layouts, tab.tab_id@),
        floating_panes_visible: false,
        panes: panes_seen(
            places_of(layouts, tab.tab_id@),
            is_zoomed(layouts, tab.tab_id@),
            panes,
            pane_reg,
        ),
    }
}

/// The layout of a workspace as a client sees it.
pub open spec fn layout_seen(
    tabs: Seq<TabInfo>,
    panes: Seq<PaneInfo>,
    layouts: Seq<PaneLayoutSnapshot>,
    active: Seq<char>,
    pane_reg: Seq<PaneKey>,
    tab_reg: Seq<Seq<char>>,
) -> Seq<TabSnapshotModel> {
    tabs.map_values(|t: TabInfo| tab_seen(t, panes, layouts, active, pane_reg, tab_reg))
}

fn opt_or_empty(o: &Option<String>) -> (t: String)
    ensures
        t@ == (match o {
            Some(s) => s@,
            None => Seq::<char>::empty(),
        }),
{
    match o {
        Some(s) => s.clone(),
        None => String::new(),
    }
}

fn show_pane(
    place: &PaneLayoutPane,
    zoomed: bool,
    panes: &Vec<&PaneInfo>,
    reg: &HerdrPaneRegistry,
) -> (p: PaneSnapshot)
    requires
        reg.wf(),
    ensures
        p@ == pane_seen(*place, zoomed, values(panes@), reg@),
{
    let info = find_info(panes, place.pane_id.as_str());
    let id: u32 = match reg.id_for_herdr_pane(place.pane_id.as_str()) {
        Some(n) => n,
        None => 0,
    };
    let (title, cwd) = match info {
        Some(i) => {
            let title = match &i.title {
                Some(t) => t.clone(),
                None => opt_or_empty(&i.label),
            };
            (title, opt_or_empty(&i.cwd))
        },
        None => (String::new(), String::new()),
    };
    PaneSnapshot {
        id,
        title,
        is_focused: place.focused,
        is_floating: false,
        exited: false,
        command: String::new(),
        cwd,
        x: place.rect.x as u32,
        y: place.rect.y as u32,
        rows: place.rect.height as u32,
        cols: place.rect.width as u32,
        is_plugin: false,
        is_fullscreen: zoomed,
    }
}

fn show_panes(
    places: &Vec<PaneLayoutPane>,
    zoomed: bool,
    panes: &Vec<&PaneInfo>,
    reg: &HerdrPaneRegistry,
) -> (r: Vec<PaneSnapshot>)
    requires
        reg.wf(),
    ensures
        pane_views(r@) == panes_seen(places@, zoomed, values(panes@), reg@),
{
    let mut r: Vec<PaneSnapshot> = Vec::new();
    let n: usize = places.len();
    let mut i: usize = 0;
    while i < n
        invariant
            i <= n,
            n == places@.len(),
            reg.wf(),
            r@.len() == i,
            forall|j: int|
                0 <= j < i ==> (#[trigger] r@[j])@ == pane_seen(
                    places@[j],
                    zoomed,
                    values(panes@),
                    reg@,
                ),
        decreases n - i,
    {
        r.push(show_pane(&places[i], zoomed, panes, reg));
        i = i + 1;
    }
    proof {
        assert(pane_views(r@) =~= panes_seen(places@, zoomed, values(panes@), reg@));
    }
    r
}

fn show_tab(
    tab: &TabInfo,
    panes: &Vec<&PaneInfo>,
    layouts: &Vec<&PaneLayoutSnapshot>,
    active: &str,
    pane_reg: &HerdrPaneRegistry,
    tab_reg: &HerdrTabRegistry,
) -> (t: TabSnapshot)
    requires
        pane_reg.wf(),
    ensures
        t@ == tab_seen(*tab, values(panes@), values(layouts@), active@, pane_reg@, tab_reg@),
{
    let layout = find_layout(layouts, tab.tab_id.as_str());
    let (zoomed, shown) = match layout {
        Some(l) => (l.zoomed, show_panes(&l.panes, l.zoomed, panes, pane_reg)),
        None => {
            let none: Vec<PaneSnapshot> = Vec::new();
            (false, none)
        },
    };
    let t = TabSnapshot {
        tab_id: tab_reg.id_for_herdr_tab(tab.tab_id.as_str()),
        position: tab.number as u32,
        name: tab.label.clone(),
        active: text_eq(tab.tab_id.as_str(), active),
        has_bell: false,
        panes_to_hide: 0,
        fullscreen_active: zoomed,
        floating_panes_visible: false,
        panes: shown,
    };
    proof {
        let seen = tab_seen(
            *tab,
            values(panes@),
            values(layouts@),
            active@,
            pane_reg@,
            tab_reg@,
        );
        assert(t@.panes =~= seen.panes);
    }
    t
}

/// Registers every listed pane.
pub fn register_listed(panes: &Vec<&PaneInfo>, reg: &mut HerdrPaneRegistry)
    requires
        old(reg).wf(),
    ensures
        final(reg).wf(),
        final(reg)@ == register_seq(old(reg)@, listed_keys(values(panes@))),
{
    let n: usize = panes.len();
    let mut i: usize = 0;
    proof {
        assert(listed_keys(values(panes@)).take(0) =~= Seq::empty());
    }
    while i < n
        invariant
            i <= n,
            n == panes@.len(),
            reg.wf(),
            reg@ == register_seq(old(reg)@, listed_keys(values(panes@)).take(i as int)),
        decreases n - i,
    {
        let pane = panes[i];
        let _id: u32 = reg.assign_or_get(pane.pane_id.as_str(), pane.terminal_id.as_str());
        proof {
            let keys = listed_keys(values(panes@));
            assert(keys[i as int] == listed_key(*panes@[i as int]));
            assert(keys.take(i + 1) =~= keys.take(i as int).push(keys[i as int]));
            lemma_register_push(old(reg)@, keys.take(i as int), keys[i as int]);
        }
        i = i + 1;
    }
    proof {
        assert(listed_keys(values(panes@)).take(n as int) =~= listed_keys(values(panes@)));
    }
}

/// Registers the placed panes of one tab after `done`.
fn register_places(
    places: &Vec<PaneLayoutPane>,
    panes: &Vec<&PaneInfo>,
    reg: &mut HerdrPaneRegistry,
    Ghost(start): Ghost<Seq<PaneKey>>,
    Ghost(done): Ghost<Seq<PaneKey>>,
)
    requires
        old(reg).wf(),
        old(reg)@ == register_seq(start, done),
    ensures
        final(reg).wf(),
        final(reg)@ == register_seq(start, done + placed_keys(places@, values(panes@))),
{
    let n: usize = places.len();
    let mut i: usize = 0;
    let ghost keys = placed_keys(places@, values(panes@));
    proof {
        assert(done + keys.take(0) =~= done);
    }
    while i < n
        invariant
            i <= n,
            n == places@.len(),
            keys == placed_keys(places@, values(panes@)),
            reg.wf(),
            reg@ == register_seq(start, done + keys.take(i as int)),
        decreases n - i,
    {
        let place = &places[i];
        let info = find_info(panes, place.pane_id.as_str());
        let terminal = match info {
            Some(p) => p.terminal_id.clone(),
            None => String::new(),
        };
        let _id: u32 = reg.assign_or_get(place.pane_id.as_str(), terminal.as_str());
        proof {
            assert(terminal@ =~= known_terminal(values(panes@), place.pane_id@));
            assert(keys[i as int].pane_id == place.pane_id@);
            assert(done + keys.take(i + 1) =~= (done + keys.take(i as int)).push(keys[i as int]));
            lemma_register_push(start, done + keys.take(i as int), keys[i as int]);
        }
        i = i + 1;
    }
    proof {
        assert(keys.take(n as int) =~= keys);
    }
}

/// Builds the neutral layout of a workspace from its tabs, its panes and the pane
/// places of its tabs.
///
/// Every listed pane is registered, so that the relay can attach to panes of tabs
/// without places too, and every placed pane and every tab.
pub fn transcode_layout(
    tabs: &Vec<&TabInfo>,
    panes: &Vec<&PaneInfo>,
    layouts: &Vec<&PaneLayoutSnapshot>,
    active_tab_id: &str,
    pane_reg: &mut HerdrPaneRegistry,
    tab_reg: &mut HerdrTabRegistry,
) -> (r: LayoutSnapshot)
    requires
        old(pane_reg).wf(),
        old(tab_reg).wf(),
    ensures
        final(pane_reg).wf(),
        final(tab_reg).wf(),
        final(pane_reg)@ == panes_after(
            old(pane_reg)@,
            values(tabs@),
            values(panes@),
            values(layouts@),
        ),
        final(tab_reg)@ == register_tabs(old(tab_reg)@, values(tabs@)),
        r@ == layout_seen(
            values(tabs@),
            values(panes@),
            values(layouts@),
            active_tab_id@,
            final(pane_reg)@,
            final(tab_reg)@,
        ),
{
    let ghost listed = listed_keys(values(panes@));
    let ghost start = pane_reg@;
    register_listed(panes, pane_reg);
    let n: usize = tabs.len();
    let mut i: usize = 0;
    proof {
        assert(values(tabs@).take(0) =~= Seq::empty());
        assert(listed + Seq::empty() =~= listed);
    }
    while i < n
        invariant
            i <= n,
            n == tabs@.len(),
            pane_reg.wf(),
            tab_reg.wf(),
            listed == listed_keys(values(panes@)),
            pane_reg@ == register_seq(
                start,
                listed + all_placed_keys(
                    values(tabs@).take(i as int),
                    values(panes@),
                    values(layouts@),
                ),
            ),
            tab_reg@ == register_tabs(old(tab_reg)@, values(tabs@).take(i as int)),
        decreases n - i,
    {
        let tab = tabs[i];
        let ghost before = values(tabs@).take(i as int);
        let ghost after = values(tabs@).take(i + 1);
        let ghost done = listed + all_placed_keys(before, values(panes@), values(layouts@));
        proof {
            assert(after.drop_last() =~= before);
            assert(after.last() == *tab);
            assert(done + placed_keys(
                places_of(values(layouts@), tab.tab_id@),
                values(panes@),
            ) =~= listed + all_placed_keys(after, values(panes@), values(layouts@)));
            lemma_with_tab(tab_reg@, tab.tab_id@);
        }
        let _id: u64 = tab_reg.assign_or_get(tab.tab_id.as_str());
        match find_layout(layouts, tab.tab_id.as_str()) {
            Some(l) => {
                register_places(&l.panes, panes, pane_reg, Ghost(start), Ghost(done));
            },
            None => {
                proof {
                    assert(done + placed_keys(
                        places_of(values(layouts@), tab.tab_id@),
                        values(panes@),
                    ) =~= done);
                }
            },
        }
        i = i + 1;
    }
    proof {
        assert(values(tabs@).take(n as int) =~= values(tabs@));
    }
    let mut shown: Vec<TabSnapshot> = Vec::new();
    let mut k: usize = 0;
    while k < n
        invariant
            k <= n,
            n == tabs@.len(),
            pane_reg.wf(),
            shown@.len() == k,
            forall|j: int|
                0 <= j < k ==> (#[trigger] shown@[j])@ == tab_seen(
                    *tabs@[j],
                    values(panes@),
                    values(layouts@),
                    active_tab_id@,
                    pane_reg@,
                    tab_reg@,
                ),
        decreases n - k,
    {
        shown.push(show_tab(tabs[k], panes, layouts, active_tab_id, pane_reg, tab_reg));
        k = k + 1;
    }
    let r = LayoutSnapshot { tabs: shown };
    proof {
        assert(r@ =~= layout_seen(
            values(tabs@),
            values(panes@),
            values(layouts@),
            active_tab_id@,
            pane_reg@,
            tab_reg@,
        ));
    }
    r
}

// -------------------------------------------------------------- one snapshot

/// The first workspace called `ws`.
pub fn find_workspace<'a>(workspaces: &'a Vec<WorkspaceInfo>, ws: &str) -> (r: Option<
    &'a WorkspaceInfo,
>)
    ensures
        match r {
            Some(w) => first_where(workspaces@, workspace_is(ws@)) == Some(*w),
            None => first_where(workspaces@, workspace_is(ws@)) is None,
        },
{
    let n: usize = workspaces.len();
    let mut i: usize = 0;
    while i < n
        invariant
            i <= n,
            n == workspaces@.len(),
            forall|j: int| 0 <= j < i ==> !workspace_is(ws@)(#[trigger] workspaces@[j]),
        decreases n - i,
    {
        if text_eq(workspaces[i].workspace_id.as_str(), ws) {
            proof {
                lemma_first_index(workspaces@, workspace_is(ws@), i as int);
            }
            return Some(&workspaces[i]);
        }
        i = i + 1;
    }
    proof {
        lemma_first_index(workspaces@, workspace_is(ws@), n as int);
    }
    None
}

/// The first pane of `tab`: the one that `pane.layout` is asked through.
pub fn representative<'a>(panes: &Vec<&'a PaneInfo>, tab: &str) -> (r: Option<&'a PaneInfo>)
    ensures
        match r {
            Some(p) => first_where(values(panes@), pane_in(tab@)) == Some(*p),
            None => first_where(values(panes@), pane_in(tab@)) is None,
        },
        r is Some <==> any_where(values(panes@), pane_in(tab@)),
{
    let n: usize = panes.len();
    let mut i: usize = 0;
    proof {
        lemma_first_exists(values(panes@), pane_in(tab@));
    }
    while i < n
        invariant
            i <= n,
            n == panes@.len(),
            forall|j: int| 0 <= j < i ==> !pane_in(tab@)(#[trigger] values(panes@)[j]),
            first_index(values(panes@), pane_in(tab@)) < values(panes@).len() <==> any_where(
                values(panes@),
                pane_in(tab@),
            ),
        decreases n - i,
    {
        proof {
            assert(values(panes@)[i as int] == *panes@[i as int]);
        }
        if text_eq(panes[i].tab_id.as_str(), tab) {
            proof {
                lemma_first_index(values(panes@), pane_in(tab@), i as int);
            }
            return Some(panes[i]);
        }
        i = i + 1;
    }
    proof {
        lemma_first_index(values(panes@), pane_in(tab@), n as int);
    }
    None
}

/// The tabs of workspace `ws` in a snapshot.
pub open spec fn snapshot_tabs(s: SessionSnapshot, ws: Seq<char>) -> Seq<TabInfo> {
    s.tabs@.filter(tab_belongs(ws))
}

/// The panes of workspace `ws` in a snapshot.
pub open spec fn snapshot_panes(s: SessionSnapshot, ws: Seq<char>) -> Seq<PaneInfo> {
    s.panes@.filter(pane_belongs(ws))
}

/// The layouts of workspace `ws` in a snapshot whose tab has a pane.
pub open spec fn snapshot_layouts(s: SessionSnapshot, ws: Seq<char>) -> Seq<PaneLayoutSnapshot> {
    s.layouts@.filter(layout_counts(ws, snapshot_panes(s, ws)))
}

/// The active tab of workspace `ws` in a snapshot, if the workspace is there.
pub open spec fn snapshot_active(s: SessionSnapshot, ws: Seq<char>) -> Option<Seq<char>> {
    match first_where(s.workspaces@, workspace_is(ws)) {
        Some(w) => Some(w.active_tab_id@),
        None => None,
    }
}

fn tabs_in<'a>(tabs: &'a Vec<TabInfo>, ws: &str) -> (r: Vec<&'a TabInfo>)
    ensures
        values(r@) == tabs@.filter(tab_belongs(ws@)),
{
    let mut r: Vec<&'a TabInfo> = Vec::new();
    let n: usize = tabs.len();
    let mut i: usize = 0;
    proof {
        reveal(Seq::filter);
        assert(tabs@.take(0) =~= Seq::empty());
        assert(values(r@) =~= tabs@.take(0).filter(tab_belongs(ws@)));
    }
    while i < n
        invariant
            i <= n,
            n == tabs@.len(),
            values(r@) == tabs@.take(i as int).filter(tab_belongs(ws@)),
        decreases n - i,
    {
        proof {
            lemma_filter_step(tabs@, tab_belongs(ws@), i as int);
        }
        if text_eq(tabs[i].workspace_id.as_str(), ws) {
            let ghost known = values(r@);
            r.push(&tabs[i]);
            proof {
                assert(values(r@) =~= known.push(tabs@[i as int]));
            }
        }
        i = i + 1;
    }
    proof {
        assert(tabs@.take(n as int) =~= tabs@);
    }
    r
}

fn panes_in<'a>(panes: &'a Vec<PaneInfo>, ws: &str) -> (r: Vec<&'a PaneInfo>)
    ensures
        values(r@) == panes@.filter(pane_belongs(ws@)),
{
    let mut r: Vec<&'a PaneInfo> = Vec::new();
    let n: usize = panes.len();
    let mut i: usize = 0;
    proof {
        reveal(Seq::filter);
        assert(panes@.take(0) =~= Seq::empty());
        assert(values(r@) =~= panes@.take(0).filter(pane_belongs(ws@)));
    }
    while i < n
        invariant
            i <= n,
            n == panes@.len(),
            values(r@) == panes@.take(i as int).filter(pane_belongs(ws@)),
        decreases n - i,
    {
        proof {
            lemma_filter_step(panes@, pane_belongs(ws@), i as int);
        }
        if text_eq(panes[i].workspace_id.as_str(), ws) {
            let ghost known = values(r@);
            r.push(&panes[i]);
            proof {
                assert(values(r@) =~= known.push(panes@[i as int]));
            }
        }
        i = i + 1;
    }
    proof {
        assert(panes@.take(n as int) =~= panes@);
    }
    r
}

fn layouts_in<'a>(
    layouts: &'a Vec<PaneLayoutSnapshot>,
    ws: &str,
    panes: &Vec<&PaneInfo>,
) -> (r: Vec<&'a PaneLayoutSnapshot>)
    ensures
        values(r@) == layouts@.filter(layout_counts(ws@, values(panes@))),
{
    let mut r: Vec<&'a PaneLayoutSnapshot> = Vec::new();
    let n: usize = layouts.len();
    let mut i: usize = 0;
    let ghost counts = layout_counts(ws@, values(panes@));
    proof {
        reveal(Seq::filter);
        assert(layouts@.take(0) =~= Seq::empty());
        assert(values(r@) =~= layouts@.take(0).filter(counts));
    }
    while i < n
        invariant
            i <= n,
            n == layouts@.len(),
            counts == layout_counts(ws@, values(panes@)),
            values(r@) == layouts@.take(i as int).filter(counts),
        decreases n - i,
    {
        proof {
            lemma_filter_step(layouts@, counts, i as int);
        }
        let rep = representative(panes, layouts[i].tab_id.as_str());
        if text_eq(layouts[i].workspace_id.as_str(), ws) && rep.is_some() {
            let ghost known = values(r@);
            r.push(&layouts[i]);
            proof {
                assert(values(r@) =~= known.push(layouts@[i as int]));
            }
        }
        i = i + 1;
    }
    proof {
        assert(layouts@.take(n as int) =~= layouts@);
    }
    r
}

/// Builds the layout of one workspace out of a snapshot of the whole daemon, or
/// nothing when the snapshot does not list the workspace.
pub fn layout_from_snapshot(
    snapshot: &SessionSnapshot,
    workspace_id: &str,
    pane_reg: &mut HerdrPaneRegistry,
    tab_reg: &mut HerdrTabRegistry,
) -> (r: Option<LayoutSnapshot>)
    requires
        old(pane_reg).wf(),
        old(tab_reg).wf(),
    ensures
        final(pane_reg).wf(),
        final(tab_reg).wf(),
        match snapshot_active(*snapshot, workspace_id@) {
            None => r is None && final(pane_reg)@ == old(pane_reg)@ && final(tab_reg)@ == old(
                tab_reg,
            )@,
            Some(active) => {
                &&& final(pane_reg)@ == panes_after(
                    old(pane_reg)@,
                    snapshot_tabs(*snapshot, workspace_id@),
                    snapshot_panes(*snapshot, workspace_id@),
                    snapshot_layouts(*snapshot, workspace_id@),
                )
                &&& final(tab_reg)@ == register_tabs(
                    old(tab_reg)@,
                    snapshot_tabs(*snapshot, workspace_id@),
                )
                &&& r matches Some(l) && l@ == layout_seen(
                    snapshot_tabs(*snapshot, workspace_id@),
                    snapshot_panes(*snapshot, workspace_id@),
                    snapshot_layouts(*snapshot, workspace_id@),
                    active,
                    final(pane_reg)@,
                    final(tab_reg)@,
                )
            },
        },
{
    match find_workspace(&snapshot.workspaces, workspace_id) {
        None => None,
        Some(w) => {
            let tabs = tabs_in(&snapshot.tabs, workspace_id);
            let panes = panes_in(&snapshot.panes, workspace_id);
            let layouts = layouts_in(&snapshot.layouts, workspace_id, &panes);
            Some(
                transcode_layout(
                    &tabs,
                    &panes,
                    &layouts,
                    w.active_tab_id.as_str(),
                    pane_reg,
                    tab_reg,
                ),
            )
        },
    }
}

// ---------------------------------------------------------------- the fan-out

/// The layouts after another one came in: it takes the place of an earlier one of
/// its tab.
pub open spec fn with_layout(
    layouts: Seq<PaneLayoutSnapshot>,
    l: PaneLayoutSnapshot,
) -> Seq<PaneLayoutSnapshot> {
    let k = first_index(layouts, layout_of(l.tab_id@));
    if k < layouts.len() {
        layouts.update(k, l)
    } else {
        layouts.push(l)
    }
}

/// Keeps a layout, in place of an earlier one of its tab.
pub fn keep_layout(layouts: &mut Vec<PaneLayoutSnapshot>, l: PaneLayoutSnapshot)
    ensures
        final(layouts)@ == with_layout(old(layouts)@, l),
{
    let n: usize = layouts.len();
    let mut i: usize = 0;
    while i < n
        invariant
            i <= n,
            n == layouts@.len(),
            layouts@ == old(layouts)@,
            forall|j: int| 0 <= j < i ==> !layout_of(l.tab_id@)(#[trigger] layouts@[j]),
        decreases n - i,
    {
        if text_eq(layouts[i].tab_id.as_str(), l.tab_id.as_str()) {
            proof {
                lemma_first_index(layouts@, layout_of(l.tab_id@), i as int);
            }
            layouts[i] = l;
            return;
        }
        i = i + 1;
    }
    proof {
        lemma_first_index(layouts@, layout_of(l.tab_id@), n as int);
    }
    layouts.push(l);
}

/// Whether `pane.layout` has still to be asked for this tab: it has a pane and no
/// layout yet.
pub open spec fn wants_layout(
    panes: Seq<PaneInfo>,
    layouts: Seq<PaneLayoutSnapshot>,
) -> spec_fn(TabInfo) -> bool {
    |t: TabInfo|
        first_where(layouts, layout_of(t.tab_id@)) is None && first_where(
            panes,
            pane_in(t.tab_id@),
        ) is Some
}

/// The next tab, from `from` on, that `pane.layout` is asked for, or the number of
/// tabs.
pub open spec fn next_tab(
    tabs: Seq<TabInfo>,
    panes: Seq<PaneInfo>,
    layouts: Seq<PaneLayoutSnapshot>,
    from: int,
) -> int {
    from + first_index(tabs.skip(from), wants_layout(panes, layouts))
}

/// Finds the next tab that `pane.layout` is asked for.
pub fn find_next_tab(
    tabs: &Vec<TabInfo>,
    panes: &Vec<PaneInfo>,
    layouts: &Vec<PaneLayoutSnapshot>,
    from: usize,
) -> (i: usize)
    requires
        from <= tabs@.len(),
    ensures
        i == next_tab(tabs@, panes@, layouts@, from as int),
        from <= i <= tabs@.len(),
        i < tabs@.len() ==> wants_layout(panes@, layouts@)(tabs@[i as int]),
{
    let n: usize = tabs.len();
    let pane_refs = refs(panes);
    let layout_refs = refs(layouts);
    let mut i: usize = from;
    while i < n
        invariant
            from <= i <= n,
            n == tabs@.len(),
            values(pane_refs@) == panes@,
            values(layout_refs@) == layouts@,
            forall|j: int|
                0 <= j < i - from ==> !wants_layout(panes@, layouts@)(
                    #[trigger] tabs@.skip(from as int)[j],
                ),
        decreases n - i,
    {
        let tab = &tabs[i];
        let known = find_layout(&layout_refs, tab.tab_id.as_str());
        let rep = representative(&pane_refs, tab.tab_id.as_str());
        proof {
            assert(tabs@.skip(from as int)[i - from] == tabs@[i as int]);
        }
        if known.is_none() && rep.is_some() {
            proof {
                lemma_first_index(
                    tabs@.skip(from as int),
                    wants_layout(panes@, layouts@),
                    i - from,
                );
            }
            return i;
        }
        i = i + 1;
    }
    proof {
        lemma_first_index(tabs@.skip(from as int), wants_layout(panes@, layouts@), n - from);
    }
    n
}

// ----------------------------------------------------------------------- laws

/// The layouts that a fan-out collects from `from` on, when `answer` is what
/// `pane.layout` says for a pane.
pub open spec fn collected(
    tabs: Seq<TabInfo>,
    panes: Seq<PaneInfo>,
    layouts: Seq<PaneLayoutSnapshot>,
    from: int,
    answer: spec_fn(Seq<char>) -> PaneLayoutSnapshot,
) -> Seq<PaneLayoutSnapshot>
    decreases tabs.len() - from,
{
    let i = next_tab(tabs, panes, layouts, from);
    if from < 0 || i < from || i >= tabs.len() {
        layouts
    } else {
        match first_where(panes, pane_in(tabs[i].tab_id@)) {
            Some(p) => collected(
                tabs,
                panes,
                with_layout(layouts, answer(p.pane_id@)),
                i + 1,
                answer,
            ),
            None => layouts,
        }
    }
}

/// The tabs that a fan-out asks `pane.layout` for from `from` on, in order, when
/// `answer` is what it says for a pane.
pub open spec fn asked_tabs(
    tabs: Seq<TabInfo>,
    panes: Seq<PaneInfo>,
    layouts: Seq<PaneLayoutSnapshot>,
    from: int,
    answer: spec_fn(Seq<char>) -> PaneLayoutSnapshot,
) -> Seq<Seq<char>>
    decreases tabs.len() - from,
{
    let i = next_tab(tabs, panes, layouts, from);
    if from < 0 || i < from || i >= tabs.len() {
        Seq::empty()
    } else {
        match first_where(panes, pane_in(tabs[i].tab_id@)) {
            Some(p) => seq![tabs[i].tab_id@] + asked_tabs(
                tabs,
                panes,
                with_layout(layouts, answer(p.pane_id@)),
                i + 1,
                answer,
            ),
            None => Seq::empty(),
        }
    }
}

/// Whether a tab is listed, from `from` on.
pub open spec fn tab_listed(tabs: Seq<TabInfo>, from: int, tab: Seq<char>) -> bool {
    exists|j: int| from <= j < tabs.len() && (#[trigger] tabs[j]).tab_id@ == tab
}

/// Adding the layout of a tab changes the lookup of that tab alone.
proof fn lemma_with_layout(layouts: Seq<PaneLayoutSnapshot>, l: PaneLayoutSnapshot, tab: Seq<char>)
    ensures
        first_where(with_layout(layouts, l), layout_of(tab)) == if tab == l.tab_id@ {
            Some(l)
        } else {
            first_where(layouts, layout_of(tab))
        },
{
    let next = with_layout(layouts, l);
    let own = layout_of(l.tab_id@);
    let p = layout_of(tab);
    lemma_first_index_meaning(layouts, own);
    lemma_first_index_meaning(layouts, p);
    let k = first_index(layouts, own);
    if tab == l.tab_id@ {
        assert(own =~= p);
        assert forall|j: int| 0 <= j < k implies !p(#[trigger] next[j]) by {
            assert(next[j] == layouts[j]);
            assert(!own(layouts[j]));
        }
        assert(next[k] == l);
        lemma_first_index(next, p, k);
    } else {
        let m = first_index(layouts, p);
        if m < layouts.len() {
            assert(m != k || k >= layouts.len());
            assert(next[m] == layouts[m]);
            assert forall|j: int| 0 <= j < m implies !p(#[trigger] next[j]) by {
                if j != k {
                    assert(next[j] == layouts[j]);
                    assert(!p(layouts[j]));
                }
            }
            lemma_first_index(next, p, m);
        } else {
            assert forall|j: int| 0 <= j < next.len() implies !p(#[trigger] next[j]) by {
                if j < layouts.len() && j != k {
                    assert(next[j] == layouts[j]);
                    assert(!p(layouts[j]));
                }
            }
            lemma_first_index(next, p, next.len() as int);
        }
    }
}

/// Whether `pane.layout` tells the truth about the tabs in question: asked through
/// the first pane of a tab, it answers with the layout that `truth` has for that
/// tab.
pub open spec fn answers_truly(
    tabs: Seq<TabInfo>,
    panes: Seq<PaneInfo>,
    truth: Seq<PaneLayoutSnapshot>,
    answer: spec_fn(Seq<char>) -> PaneLayoutSnapshot,
) -> bool {
    forall|i: int|
        0 <= i < tabs.len() ==> {
            let tab = (#[trigger] tabs[i]).tab_id@;
            first_where(panes, pane_in(tab)) matches Some(p) ==> first_where(
                truth,
                layout_of(tab),
            ) == Some(answer(p.pane_id@))
        }
}

/// What a fan-out has collected is true of every tab it has passed.
proof fn lemma_collected(
    tabs: Seq<TabInfo>,
    panes: Seq<PaneInfo>,
    layouts: Seq<PaneLayoutSnapshot>,
    from: int,
    answer: spec_fn(Seq<char>) -> PaneLayoutSnapshot,
    truth: Seq<PaneLayoutSnapshot>,
    i: int,
)
    requires
        0 <= from <= tabs.len(),
        0 <= i < tabs.len(),
        answers_truly(tabs, panes, truth, answer),
        forall|j: int|
            0 <= j < from ==> (first_where(panes, pane_in((#[trigger] tabs[j]).tab_id@)) is Some
                ==> first_where(layouts, layout_of(tabs[j].tab_id@)) == first_where(
                truth,
                layout_of(tabs[j].tab_id@),
            )),
        forall|j: int|
            0 <= j < tabs.len() ==> (first_where(
                layouts,
                layout_of((#[trigger] tabs[j]).tab_id@),
            ) is Some ==> first_where(layouts, layout_of(tabs[j].tab_id@)) == first_where(
                truth,
                layout_of(tabs[j].tab_id@),
            ) && first_where(panes, pane_in(tabs[j].tab_id@)) is Some),
    ensures
        first_where(panes, pane_in(tabs[i].tab_id@)) is Some ==> first_where(
            collected(tabs, panes, layouts, from, answer),
            layout_of(tabs[i].tab_id@),
        ) == first_where(truth, layout_of(tabs[i].tab_id@)),
        first_where(panes, pane_in(tabs[i].tab_id@)) is None ==> first_where(
            collected(tabs, panes, layouts, from, answer),
            layout_of(tabs[i].tab_id@),
        ) is None,
    decreases tabs.len() - from,
{
    let wants = wants_layout(panes, layouts);
    let rest = tabs.skip(from);
    lemma_first_index_meaning(rest, wants);
    let n = next_tab(tabs, panes, layouts, from);
    assert forall|j: int| from <= j < n implies !wants(#[trigger] tabs[j]) by {
        assert(rest[j - from] == tabs[j]);
    }
    if n >= tabs.len() {
        if i >= from {
            assert(!wants(tabs[i]));
        }
    } else {
        assert(rest[n - from] == tabs[n]);
        assert(wants(tabs[n]));
        let tab = tabs[n].tab_id@;
        let p = first_where(panes, pane_in(tab))->0;
        let l = answer(p.pane_id@);
        let next = with_layout(layouts, l);
        assert(first_where(truth, layout_of(tab)) == Some(l));
        lemma_first_index_meaning(truth, layout_of(tab));
        assert(l.tab_id@ == tab);
        assert forall|j: int| 0 <= j < n + 1 implies (first_where(
            panes,
            pane_in((#[trigger] tabs[j]).tab_id@),
        ) is Some ==> first_where(next, layout_of(tabs[j].tab_id@)) == first_where(
            truth,
            layout_of(tabs[j].tab_id@),
        )) by {
            lemma_with_layout(layouts, l, tabs[j].tab_id@);
            if j >= from && j < n {
                assert(!wants(tabs[j]));
            }
        }
        assert forall|j: int| 0 <= j < tabs.len() implies (first_where(
            next,
            layout_of((#[trigger] tabs[j]).tab_id@),
        ) is Some ==> first_where(next, layout_of(tabs[j].tab_id@)) == first_where(
            truth,
            layout_of(tabs[j].tab_id@),
        ) && first_where(panes, pane_in(tabs[j].tab_id@)) is Some) by {
            lemma_with_layout(layouts, l, tabs[j].tab_id@);
        }
        lemma_collected(tabs, panes, next, n + 1, answer, truth, i);
    }
}

/// A fan-out asks once for each tab that has a pane and no layout yet, and for no other.
pub proof fn lemma_asked_tabs(
    tabs: Seq<TabInfo>,
    panes: Seq<PaneInfo>,
    layouts: Seq<PaneLayoutSnapshot>,
    from: int,
    answer: spec_fn(Seq<char>) -> PaneLayoutSnapshot,
    truth: Seq<PaneLayoutSnapshot>,
)
    requires
        0 <= from <= tabs.len(),
        answers_truly(tabs, panes, truth, answer),
    ensures
        asked_tabs(tabs, panes, layouts, from, answer).no_duplicates(),
        forall|tab: Seq<char>| #[trigger]
            asked_tabs(tabs, panes, layouts, from, answer).contains(tab) <==> tab_listed(
                tabs,
                from,
                tab,
            ) && first_where(panes, pane_in(tab)) is Some && first_where(layouts, layout_of(tab))
                is None,
    decreases tabs.len() - from,
{
    let wants = wants_layout(panes, layouts);
    let rest = tabs.skip(from);
    lemma_first_index_meaning(rest, wants);
    let n = next_tab(tabs, panes, layouts, from);
    let asked = asked_tabs(tabs, panes, layouts, from, answer);
    assert forall|j: int| from <= j < n implies !wants(#[trigger] tabs[j]) by {
        assert(rest[j - from] == tabs[j]);
    }
    if n < tabs.len() {
        assert(rest[n - from] == tabs[n]);
        assert(wants(tabs[n]));
        let own = tabs[n].tab_id@;
        let p = first_where(panes, pane_in(own))->0;
        let l = answer(p.pane_id@);
        let next = with_layout(layouts, l);
        assert(first_where(truth, layout_of(own)) == Some(l));
        lemma_first_index_meaning(truth, layout_of(own));
        assert(l.tab_id@ == own);
        lemma_asked_tabs(tabs, panes, next, n + 1, answer, truth);
        let others = asked_tabs(tabs, panes, next, n + 1, answer);
        assert(asked == seq![own] + others);
        assert forall|tab: Seq<char>| #[trigger] others.contains(tab) <==> tab_listed(
            tabs,
            n + 1,
            tab,
        ) && first_where(panes, pane_in(tab)) is Some && tab != own && first_where(
            layouts,
            layout_of(tab),
        ) is None by {
            lemma_with_layout(layouts, l, tab);
        }
        assert(!others.contains(own));
        assert forall|tab: Seq<char>| #[trigger] asked.contains(tab) <==> tab == own
            || others.contains(tab) by {
            assert(asked[0] == own);
            if others.contains(tab) {
                let j = choose|j: int| 0 <= j < others.len() && others[j] == tab;
                assert(asked[j + 1] == tab);
            }
            if asked.contains(tab) && tab != own {
                let j = choose|j: int| 0 <= j < asked.len() && asked[j] == tab;
                assert(others[j - 1] == tab);
            }
        }
        assert(asked.no_duplicates()) by {
            assert forall|i: int, j: int| 0 <= i < j < asked.len() implies asked[i]
                != asked[j] by {
                assert(others[j - 1] == asked[j]);
                assert(others.contains(asked[j]));
                if i > 0 {
                    assert(others[i - 1] == asked[i]);
                }
            }
        }
        assert forall|tab: Seq<char>| #[trigger] asked.contains(tab) <==> tab_listed(
            tabs,
            from,
            tab,
        ) && first_where(panes, pane_in(tab)) is Some && first_where(layouts, layout_of(tab))
            is None by {
            if tab_listed(tabs, from, tab) && first_where(panes, pane_in(tab)) is Some
                && first_where(layouts, layout_of(tab)) is None && tab != own {
                let j = choose|j: int| from <= j < tabs.len() && (#[trigger] tabs[j]).tab_id@ == tab;
                assert(wants(tabs[j]));
                assert(j > n);
                assert(tab_listed(tabs, n + 1, tab));
            }
            if others.contains(tab) {
                let j = choose|j: int|
                    n + 1 <= j < tabs.len() && (#[trigger] tabs[j]).tab_id@ == tab;
                assert(tab_listed(tabs, from, tab));
            }
            if tab == own {
                assert(tabs[n].tab_id@ == tab);
            }
        }
    } else {
        assert forall|tab: Seq<char>| tab_listed(tabs, from, tab) && first_where(
            panes,
            pane_in(tab),
        ) is Some implies first_where(layouts, #[trigger] layout_of(tab)) is Some by {
            let j = choose|j: int| from <= j < tabs.len() && (#[trigger] tabs[j]).tab_id@ == tab;
            assert(!wants(tabs[j]));
        }
    }
}

/// Lookups decide: layouts that agree on every tab give the same registrations.
proof fn lemma_placed_keys_agree(
    tabs: Seq<TabInfo>,
    panes: Seq<PaneInfo>,
    a: Seq<PaneLayoutSnapshot>,
    b: Seq<PaneLayoutSnapshot>,
)
    requires
        forall|i: int|
            0 <= i < tabs.len() ==> first_where(a, layout_of((#[trigger] tabs[i]).tab_id@))
                == first_where(b, layout_of(tabs[i].tab_id@)),
    ensures
        all_placed_keys(tabs, panes, a) == all_placed_keys(tabs, panes, b),
    decreases tabs.len(),
{
    if tabs.len() > 0 {
        let init = tabs.drop_last();
        assert forall|i: int| 0 <= i < init.len() implies first_where(
            a,
            layout_of((#[trigger] init[i]).tab_id@),
        ) == first_where(b, layout_of(init[i].tab_id@)) by {
            assert(init[i] == tabs[i]);
        }
        lemma_placed_keys_agree(init, panes, a, b);
        assert(tabs[tabs.len() - 1] == tabs.last());
    }
}

/// No layout that counts is of a tab without panes.
proof fn lemma_counting_layouts_have_panes(s: SessionSnapshot, ws: Seq<char>, tab: Seq<char>)
    ensures
        first_where(snapshot_layouts(s, ws), layout_of(tab)) is Some ==> first_where(
            snapshot_panes(s, ws),
            pane_in(tab),
        ) is Some,
{
    let layouts = snapshot_layouts(s, ws);
    let panes = snapshot_panes(s, ws);
    lemma_first_index_meaning(layouts, layout_of(tab));
    lemma_filter_meaning(s.layouts@, layout_counts(ws, panes));
    lemma_first_exists(panes, pane_in(tab));
    let k = first_index(layouts, layout_of(tab));
    if k < layouts.len() {
        assert(layout_counts(ws, panes)(layouts[k]));
        assert(pane_in(layouts[k].tab_id@) =~= pane_in(tab));
    }
}

/// The layout that one snapshot gives is the layout that the fan-out gives, and
/// both leave the same registries: with the same tabs and panes of a workspace, and
/// a `pane.layout` that answers with the layouts in the snapshot, the two queries
/// are interchangeable.
pub proof fn law_snapshot_and_fanout_give_the_same_layout(
    s: SessionSnapshot,
    ws: Seq<char>,
    active: Seq<char>,
    answer: spec_fn(Seq<char>) -> PaneLayoutSnapshot,
    pane_reg: Seq<PaneKey>,
    tab_reg: Seq<Seq<char>>,
)
    requires
        answers_truly(
            snapshot_tabs(s, ws),
            snapshot_panes(s, ws),
            snapshot_layouts(s, ws),
            answer,
        ),
    ensures
        ({
            let tabs = snapshot_tabs(s, ws);
            let panes = snapshot_panes(s, ws);
            let fanned = collected(tabs, panes, Seq::empty(), 0, answer);
            let after = panes_after(pane_reg, tabs, panes, fanned);
            &&& after == panes_after(pane_reg, tabs, panes, snapshot_layouts(s, ws))
            &&& layout_seen(tabs, panes, fanned, active, after, register_tabs(tab_reg, tabs))
                == layout_seen(
                tabs,
                panes,
                snapshot_layouts(s, ws),
                active,
                after,
                register_tabs(tab_reg, tabs),
            )
        }),
{
    let tabs = snapshot_tabs(s, ws);
    let panes = snapshot_panes(s, ws);
    let truth = snapshot_layouts(s, ws);
    let none = Seq::<PaneLayoutSnapshot>::empty();
    let fanned = collected(tabs, panes, none, 0, answer);
    assert forall|i: int| 0 <= i < tabs.len() implies first_where(
        fanned,
        layout_of((#[trigger] tabs[i]).tab_id@),
    ) == first_where(truth, layout_of(tabs[i].tab_id@)) by {
        lemma_collected(tabs, panes, none, 0, answer, truth, i);
        lemma_counting_layouts_have_panes(s, ws, tabs[i].tab_id@);
    }
    lemma_placed_keys_agree(tabs, panes, fanned, truth);
    let after = panes_after(pane_reg, tabs, panes, fanned);
    let tabs_after = register_tabs(tab_reg, tabs);
    assert(layout_seen(tabs, panes, fanned, active, after, tabs_after) =~= layout_seen(
        tabs,
        panes,
        truth,
        active,
        after,
        tabs_after,
    ));
}

/// The last registration of a pane decides its attach key.
pub proof fn lemma_last_registration_wins(reg: Seq<PaneKey>, keys: Seq<PaneKey>, pane: Seq<char>)
    requires
        panes_wf(reg),
        reg.len() + keys.len() <= u32::MAX,
        any_where(keys, is_pane(pane)),
    ensures
        knows_pane(register_seq(reg, keys), pane),
        register_seq(reg, keys)[pane_id_of(register_seq(reg, keys), pane) - 1].terminal_id
            == last_where(keys, is_pane(pane))->0.terminal_id,
        register_seq(reg, keys).len() <= reg.len() + keys.len(),
    decreases keys.len(),
{
    let init = keys.drop_last();
    let before = register_seq(reg, init);
    lemma_register_seq_wf(reg, init);
    lemma_register_len(reg, init);
    lemma_with_pane(before, keys.last().pane_id, keys.last().terminal_id);
    if keys.last().pane_id != pane {
        assert(any_where(init, is_pane(pane))) by {
            let i = choose|i: int| 0 <= i < keys.len() && is_pane(pane)(#[trigger] keys[i]);
            assert(is_pane(pane)(init[i]));
        }
        lemma_last_registration_wins(reg, init, pane);
        law_pane_ids_are_stable(before, keys.last().pane_id, keys.last().terminal_id, pane);
        lemma_last_index_meaning(init, is_pane(pane));
        lemma_first_index_meaning(before, is_pane(pane));
        lemma_first_index_meaning(before, is_pane(keys.last().pane_id));
        let k = first_index(before, is_pane(pane));
        assert(register_seq(reg, keys)[k] == before[k]);
        assert(init[last_index(init, is_pane(pane))] == keys[last_index(init, is_pane(pane))]);
    }
}

/// Registering adds at most one entry per registration.
proof fn lemma_register_len(reg: Seq<PaneKey>, keys: Seq<PaneKey>)
    requires
        panes_wf(reg),
    ensures
        register_seq(reg, keys).len() <= reg.len() + keys.len(),
    decreases keys.len(),
{
    if keys.len() > 0 {
        lemma_register_seq_wf(reg, keys.drop_last());
        lemma_register_len(reg, keys.drop_last());
        lemma_with_pane(
            register_seq(reg, keys.drop_last()),
            keys.last().pane_id,
            keys.last().terminal_id,
        );
    }
}

/// Every placed pane is registered under the attach key that is known for it.
proof fn lemma_placed_key_terminal(
    tabs: Seq<TabInfo>,
    panes: Seq<PaneInfo>,
    layouts: Seq<PaneLayoutSnapshot>,
    i: int,
)
    requires
        0 <= i < all_placed_keys(tabs, panes, layouts).len(),
    ensures
        all_placed_keys(tabs, panes, layouts)[i].terminal_id == known_terminal(
            panes,
            all_placed_keys(tabs, panes, layouts)[i].pane_id,
        ),
    decreases tabs.len(),
{
    let init = all_placed_keys(tabs.drop_last(), panes, layouts);
    if i < init.len() {
        lemma_placed_key_terminal(tabs.drop_last(), panes, layouts, i);
    }
}

/// After a layout query the relay can attach to every listed pane, whether or not
/// its tab has places: the pane has an id, and the id leads to the attach key that
/// was listed for it.
pub proof fn law_every_listed_pane_can_be_attached(
    reg: Seq<PaneKey>,
    tabs: Seq<TabInfo>,
    panes: Seq<PaneInfo>,
    layouts: Seq<PaneLayoutSnapshot>,
    i: int,
)
    requires
        panes_wf(reg),
        reg.len() + panes.len() + all_placed_keys(tabs, panes, layouts).len() <= u32::MAX,
        0 <= i < panes.len(),
    ensures
        ({
            let after = panes_after(reg, tabs, panes, layouts);
            let pane = panes[i].pane_id@;
            &&& knows_pane(after, pane)
            &&& after[pane_id_of(after, pane) - 1] == (PaneKey {
                pane_id: pane,
                terminal_id: known_terminal(panes, pane),
            })
        }),
{
    let pane = panes[i].pane_id@;
    let listed = listed_keys(panes);
    let placed = all_placed_keys(tabs, panes, layouts);
    let keys = listed + placed;
    let p = is_pane(pane);
    assert(p(keys[i])) by {
        assert(keys[i] == listed[i]);
    }
    lemma_last_registration_wins(reg, keys, pane);
    lemma_last_index_meaning(keys, p);
    lemma_last_index_meaning(panes, info_of(pane));
    let last = last_index(keys, p);
    assert(last >= i);
    if last >= listed.len() {
        lemma_placed_key_terminal(tabs, panes, layouts, last - listed.len());
        assert(keys[last] == placed[last - listed.len()]);
    } else {
        assert(keys[last] == listed_key(panes[last]));
        let m = last_index(panes, info_of(pane));
        assert(info_of(pane)(panes[i]));
        assert(m >= i);
        assert(info_of(pane)(panes[last]));
        assert(last <= m);
        assert(p(keys[m])) by {
            assert(keys[m] == listed_key(panes[m]));
        }
        assert(m <= last);
    }
    let after = panes_after(reg, tabs, panes, layouts);
    lemma_first_index_meaning(after, p);
}

/// At most the tabs that carry the workspace's active tab id are active, whatever
/// herdr's global focus is.
pub proof fn law_only_the_workspaces_own_active_tab_is_active(
    tabs: Seq<TabInfo>,
    panes: Seq<PaneInfo>,
    layouts: Seq<PaneLayoutSnapshot>,
    active: Seq<char>,
    pane_reg: Seq<PaneKey>,
    tab_reg: Seq<Seq<char>>,
    i: int,
)
    requires
        0 <= i < tabs.len(),
    ensures
        layout_seen(tabs, panes, layouts, active, pane_reg, tab_reg)[i].active <==> tabs[i].tab_id@
            == active,
{
}

} // verus!
