//! What each set of parameters comes to on the wire: every value that was given, under
//! its name and in its place, and nothing that was not.

use vstd::prelude::*;
use vstd::string::*;

use super::api::{
    LayoutExportParams, PaneCloseParams, PaneDirection, PaneFocusDirectionParams,
    PaneLayoutParams, PaneRenameParams, PaneSplitParams, PaneZoomMode, PaneZoomParams,
    PingParams, SessionSnapshotParams, SplitDirection, TabCloseParams, TabCreateParams,
    TabFocusParams, TabRenameParams, WorkspaceCloseParams, WorkspaceCreateParams,
    WorkspaceListParams, WorkspaceRenameParams, WorkspaceScopedParams,
};
use super::control_laws::one_if;
use super::json::{pairs_view, params_view, ParamValue};

verus! {

// -------------------------------------------------------------------- vocabulary

/// The `k`th parameter is this text under this name.
pub open spec fn text_in(
    p: Seq<(String, ParamValue)>,
    k: int,
    name: Seq<char>,
    value: Seq<char>,
) -> bool {
    &&& 0 <= k < p.len()
    &&& p[k].0@ == name
    &&& p[k].1 matches ParamValue::Text(t) && t@ == value
}

/// The `k`th parameter is this flag under this name.
pub open spec fn flag_in(
    p: Seq<(String, ParamValue)>,
    k: int,
    name: Seq<char>,
    value: bool,
) -> bool {
    &&& 0 <= k < p.len()
    &&& p[k].0@ == name
    &&& p[k].1 == ParamValue::Flag(value)
}

/// The `k`th parameter is a table of these texts under this name.
pub open spec fn table_in(
    p: Seq<(String, ParamValue)>,
    k: int,
    name: Seq<char>,
    value: Seq<(String, String)>,
) -> bool {
    &&& 0 <= k < p.len()
    &&& p[k].0@ == name
    &&& p[k].1 matches ParamValue::Table(t) && t@.len() == value.len() && forall|i: int|
        0 <= i < value.len() ==> (#[trigger] t@[i]).0@ == value[i].0@ && t@[i].1@ == value[i].1@
}

proof fn lemma_places(p: Seq<(String, ParamValue)>)
    ensures
        params_view(p).len() == p.len(),
        forall|k: int|
            0 <= k < p.len() ==> params_view(p)[k] == ((#[trigger] p[k]).0@, p[k].1@),
{
}

proof fn lemma_same_table(a: Seq<(String, String)>, b: Seq<(String, String)>)
    requires
        pairs_view(a) == pairs_view(b),
    ensures
        a.len() == b.len(),
        forall|i: int|
            0 <= i < b.len() ==> (#[trigger] a[i]).0@ == b[i].0@ && a[i].1@ == b[i].1@,
{
    assert(pairs_view(a).len() == a.len());
    assert(pairs_view(b).len() == b.len());
    assert forall|i: int| 0 <= i < b.len() implies (#[trigger] a[i]).0@ == b[i].0@ && a[i].1@
        == b[i].1@ by {
        assert(pairs_view(a)[i] == (a[i].0@, a[i].1@));
        assert(pairs_view(b)[i] == (b[i].0@, b[i].1@));
    }
}

// ------------------------------------------------------------------------- names

/// Each direction and each mode has the name that herdr knows it by.
pub proof fn law_directions_and_modes_are_named(
    split: SplitDirection,
    s: &'static str,
    direction: PaneDirection,
    d: &'static str,
    mode: PaneZoomMode,
    m: &'static str,
)
    requires
        call_ensures(SplitDirection::name, (split,), s),
        call_ensures(PaneDirection::name, (direction,), d),
        call_ensures(PaneZoomMode::name, (mode,), m),
    ensures
        split is Right ==> s@ == "right"@,
        split is Down ==> s@ == "down"@,
        direction is Left ==> d@ == "left"@,
        direction is Right ==> d@ == "right"@,
        direction is Up ==> d@ == "up"@,
        direction is Down ==> d@ == "down"@,
        mode is Toggle ==> m@ == "toggle"@,
        mode is On ==> m@ == "on"@,
        mode is Off ==> m@ == "off"@,
{
}

// -------------------------------------------------------------------- parameters

/// A snapshot is asked for without parameters.
pub proof fn law_snapshot_parameters(p: &SessionSnapshotParams, params: Vec<(String, ParamValue)>)
    requires
        call_ensures(SessionSnapshotParams::fields, (p,), params),
    ensures
        params@.len() == 0,
{
    lemma_places(params@);
}

/// A ping has no parameters.
pub proof fn law_ping_parameters(p: &PingParams, params: Vec<(String, ParamValue)>)
    requires
        call_ensures(PingParams::fields, (p,), params),
    ensures
        params@.len() == 0,
{
    lemma_places(params@);
}

/// Workspaces are asked for without parameters.
pub proof fn law_workspace_list_parameters(p: &WorkspaceListParams, params: Vec<(String, ParamValue)>)
    requires
        call_ensures(WorkspaceListParams::fields, (p,), params),
    ensures
        params@.len() == 0,
{
    lemma_places(params@);
}

/// A new workspace is sent with what was given for it, each under its name.
pub proof fn law_workspace_create_parameters(p: &WorkspaceCreateParams, params: Vec<(String, ParamValue)>)
    requires
        call_ensures(WorkspaceCreateParams::fields, (p,), params),
    ensures
        (p.cwd matches Some(t) ==> text_in(params@, 0, "cwd"@, t@)),
        flag_in(params@, one_if(p.cwd is Some), "focus"@, p.focus),
        (p.label matches Some(t) ==> text_in(params@, one_if(p.cwd is Some) + 1, "label"@, t@)),
        p.env@.len() > 0 ==> table_in(params@, one_if(p.cwd is Some) + one_if(p.label is Some) + 1, "env"@, p.env@),
        params@.len() == one_if(p.cwd is Some) + one_if(p.label is Some) + one_if(p.env@.len() > 0) + 1,
{
    lemma_places(params@);
    let at = one_if(p.cwd is Some) + one_if(p.label is Some) + 1;
    if p.env@.len() > 0 {
        assert(pairs_view(p.env@).len() == p.env@.len());
        assert(params@[at].1@ == super::json::ParamModel::Table(pairs_view(p.env@)));
        lemma_same_table(params@[at].1->Table_0@, p.env@);
    }
}

/// A workspace is renamed by its id and its new label.
pub proof fn law_workspace_rename_parameters(p: &WorkspaceRenameParams, params: Vec<(String, ParamValue)>)
    requires
        call_ensures(WorkspaceRenameParams::fields, (p,), params),
    ensures
        text_in(params@, 0, "workspace_id"@, p.workspace_id@),
        text_in(params@, 1, "label"@, p.label@),
        params@.len() == 2,
{
    lemma_places(params@);
}

/// A workspace is closed by its id, with the flag for its group.
pub proof fn law_workspace_close_parameters(p: &WorkspaceCloseParams, params: Vec<(String, ParamValue)>)
    requires
        call_ensures(WorkspaceCloseParams::fields, (p,), params),
    ensures
        text_in(params@, 0, "workspace_id"@, p.workspace_id@),
        flag_in(params@, 1, "close_group"@, p.close_group),
        params@.len() == 2,
{
    lemma_places(params@);
}

/// A listing is scoped to the workspace, if one was given.
pub proof fn law_scoped_parameters(p: &WorkspaceScopedParams, params: Vec<(String, ParamValue)>)
    requires
        call_ensures(WorkspaceScopedParams::fields, (p,), params),
    ensures
        (p.workspace_id matches Some(t) ==> text_in(params@, 0, "workspace_id"@, t@)),
        params@.len() == one_if(p.workspace_id is Some),
{
    lemma_places(params@);
}

/// A new tab is sent with what was given for it, each under its name.
pub proof fn law_tab_create_parameters(p: &TabCreateParams, params: Vec<(String, ParamValue)>)
    requires
        call_ensures(TabCreateParams::fields, (p,), params),
    ensures
        (p.workspace_id matches Some(t) ==> text_in(params@, 0, "workspace_id"@, t@)),
        (p.cwd matches Some(t) ==> text_in(params@, one_if(p.workspace_id is Some), "cwd"@, t@)),
        flag_in(params@, one_if(p.workspace_id is Some) + one_if(p.cwd is Some), "focus"@, p.focus),
        (p.label matches Some(t) ==> text_in(params@, one_if(p.workspace_id is Some) + one_if(p.cwd is Some) + 1, "label"@, t@)),
        p.env@.len() > 0 ==> table_in(params@, one_if(p.workspace_id is Some) + one_if(p.cwd is Some) + one_if(p.label is Some) + 1, "env"@, p.env@),
        params@.len() == one_if(p.workspace_id is Some) + one_if(p.cwd is Some) + one_if(p.label is Some) + one_if(p.env@.len() > 0) + 1,
{
    lemma_places(params@);
    let at = one_if(p.workspace_id is Some) + one_if(p.cwd is Some) + one_if(p.label is Some) + 1;
    if p.env@.len() > 0 {
        assert(pairs_view(p.env@).len() == p.env@.len());
        assert(params@[at].1@ == super::json::ParamModel::Table(pairs_view(p.env@)));
        lemma_same_table(params@[at].1->Table_0@, p.env@);
    }
}

/// A tab is focused by its id.
pub proof fn law_tab_focus_parameters(p: &TabFocusParams, params: Vec<(String, ParamValue)>)
    requires
        call_ensures(TabFocusParams::fields, (p,), params),
    ensures
        text_in(params@, 0, "tab_id"@, p.tab_id@),
        params@.len() == 1,
{
    lemma_places(params@);
}

/// A tab is closed by its id.
pub proof fn law_tab_close_parameters(p: &TabCloseParams, params: Vec<(String, ParamValue)>)
    requires
        call_ensures(TabCloseParams::fields, (p,), params),
    ensures
        text_in(params@, 0, "tab_id"@, p.tab_id@),
        params@.len() == 1,
{
    lemma_places(params@);
}

/// A tab is renamed by its id and its new label.
pub proof fn law_tab_rename_parameters(p: &TabRenameParams, params: Vec<(String, ParamValue)>)
    requires
        call_ensures(TabRenameParams::fields, (p,), params),
    ensures
        text_in(params@, 0, "tab_id"@, p.tab_id@),
        text_in(params@, 1, "label"@, p.label@),
        params@.len() == 2,
{
    lemma_places(params@);
}

/// A split is sent with its direction and what else was given for it, each under its name.
pub proof fn law_pane_split_parameters(p: &PaneSplitParams, params: Vec<(String, ParamValue)>)
    requires
        call_ensures(PaneSplitParams::fields, (p,), params),
    ensures
        (p.workspace_id matches Some(t) ==> text_in(params@, 0, "workspace_id"@, t@)),
        (p.target_pane_id matches Some(t) ==> text_in(params@, one_if(p.workspace_id is Some), "target_pane_id"@, t@)),
        p.direction is Right ==> text_in(params@, one_if(p.workspace_id is Some) + one_if(p.target_pane_id is Some), "direction"@, "right"@),
        p.direction is Down ==> text_in(params@, one_if(p.workspace_id is Some) + one_if(p.target_pane_id is Some), "direction"@, "down"@),
        (p.cwd matches Some(t) ==> text_in(params@, one_if(p.workspace_id is Some) + one_if(p.target_pane_id is Some) + 1, "cwd"@, t@)),
        flag_in(params@, one_if(p.workspace_id is Some) + one_if(p.target_pane_id is Some) + one_if(p.cwd is Some) + 1, "focus"@, p.focus),
        p.env@.len() > 0 ==> table_in(params@, one_if(p.workspace_id is Some) + one_if(p.target_pane_id is Some) + one_if(p.cwd is Some) + 2, "env"@, p.env@),
        params@.len() == one_if(p.workspace_id is Some) + one_if(p.target_pane_id is Some) + one_if(p.cwd is Some) + one_if(p.env@.len() > 0) + 2,
{
    lemma_places(params@);
    let at = one_if(p.workspace_id is Some) + one_if(p.target_pane_id is Some) + one_if(p.cwd is Some) + 2;
    if p.env@.len() > 0 {
        assert(pairs_view(p.env@).len() == p.env@.len());
        assert(params@[at].1@ == super::json::ParamModel::Table(pairs_view(p.env@)));
        lemma_same_table(params@[at].1->Table_0@, p.env@);
    }
}

/// A pane is closed by its id.
pub proof fn law_pane_close_parameters(p: &PaneCloseParams, params: Vec<(String, ParamValue)>)
    requires
        call_ensures(PaneCloseParams::fields, (p,), params),
    ensures
        text_in(params@, 0, "pane_id"@, p.pane_id@),
        params@.len() == 1,
{
    lemma_places(params@);
}

/// A pane is renamed by its id and its new label; without a label its name is cleared.
pub proof fn law_pane_rename_parameters(p: &PaneRenameParams, params: Vec<(String, ParamValue)>)
    requires
        call_ensures(PaneRenameParams::fields, (p,), params),
    ensures
        text_in(params@, 0, "pane_id"@, p.pane_id@),
        (p.label matches Some(t) ==> text_in(params@, 1, "label"@, t@)),
        params@.len() == one_if(p.label is Some) + 1,
{
    lemma_places(params@);
}

/// The focus is moved in the direction that was given, from the pane that was given.
pub proof fn law_focus_direction_parameters(p: &PaneFocusDirectionParams, params: Vec<(String, ParamValue)>)
    requires
        call_ensures(PaneFocusDirectionParams::fields, (p,), params),
    ensures
        (p.pane_id matches Some(t) ==> text_in(params@, 0, "pane_id"@, t@)),
        p.direction is Left ==> text_in(params@, one_if(p.pane_id is Some), "direction"@, "left"@),
        p.direction is Right ==> text_in(params@, one_if(p.pane_id is Some), "direction"@, "right"@),
        p.direction is Up ==> text_in(params@, one_if(p.pane_id is Some), "direction"@, "up"@),
        p.direction is Down ==> text_in(params@, one_if(p.pane_id is Some), "direction"@, "down"@),
        params@.len() == one_if(p.pane_id is Some) + 1,
{
    lemma_places(params@);
}

/// A pane is zoomed in the mode that was given.
pub proof fn law_zoom_parameters(p: &PaneZoomParams, params: Vec<(String, ParamValue)>)
    requires
        call_ensures(PaneZoomParams::fields, (p,), params),
    ensures
        (p.pane_id matches Some(t) ==> text_in(params@, 0, "pane_id"@, t@)),
        p.mode is Toggle ==> text_in(params@, one_if(p.pane_id is Some), "mode"@, "toggle"@),
        p.mode is On ==> text_in(params@, one_if(p.pane_id is Some), "mode"@, "on"@),
        p.mode is Off ==> text_in(params@, one_if(p.pane_id is Some), "mode"@, "off"@),
        params@.len() == one_if(p.pane_id is Some) + 1,
{
    lemma_places(params@);
}

/// A layout is asked for through the pane that was given.
pub proof fn law_pane_layout_parameters(p: &PaneLayoutParams, params: Vec<(String, ParamValue)>)
    requires
        call_ensures(PaneLayoutParams::fields, (p,), params),
    ensures
        (p.pane_id matches Some(t) ==> text_in(params@, 0, "pane_id"@, t@)),
        params@.len() == one_if(p.pane_id is Some),
{
    lemma_places(params@);
}

/// A layout tree is asked for of the tab or the pane that was given.
pub proof fn law_layout_export_parameters(p: &LayoutExportParams, params: Vec<(String, ParamValue)>)
    requires
        call_ensures(LayoutExportParams::fields, (p,), params),
    ensures
        (p.tab_id matches Some(t) ==> text_in(params@, 0, "tab_id"@, t@)),
        (p.pane_id matches Some(t) ==> text_in(params@, one_if(p.tab_id is Some), "pane_id"@, t@)),
        params@.len() == one_if(p.tab_id is Some) + one_if(p.pane_id is Some),
{
    lemma_places(params@);
}

} // verus!
