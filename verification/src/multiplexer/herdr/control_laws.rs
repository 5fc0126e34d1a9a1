//! What each operation asks of herdr, parameter by parameter, and what its answer comes
//! to, stated over the calls.

use vstd::prelude::*;
use vstd::string::*;

use super::api::{
    ApiErrorBody, ApiRequest, ApiResponseBody, ApiResult, HerdrServerInfo, LayoutDescription,
    PaneDirection, PaneInfo, PaneLayoutSnapshot, PaneZoomMode, SessionSnapshot, SplitDirection,
    TabInfo, WorkspaceInfo,
};
use super::control::{
    ack_err, ack_ok, action_reply, layout_export_reply, pane_layout_reply, panes_reply, ping_reply,
    response_line, session_snapshot_reply, tabs_reply, unknown_pane, unknown_tab,
    worktree_group_refusal,
    workspaces_reply, ControlError, HerdrControl, Outgoing, MAX_RESPONSE_BYTES, READ_TIMEOUT_MS,
};
use super::json::{object_json, params_view, ParamValue};
use super::registry::{HerdrPaneRegistry, HerdrTabRegistry};
use crate::multiplexer::types::ActionAck;
use crate::text::{decimal, trimmed_end};

verus! {

// -------------------------------------------------------------------- vocabulary

/// The `k`th parameter of a request is this text under this name.
pub open spec fn text_at(r: ApiRequest, k: int, name: Seq<char>, value: Seq<char>) -> bool {
    &&& 0 <= k < r.params@.len()
    &&& r.params@[k].0@ == name
    &&& r.params@[k].1 matches ParamValue::Text(t) && t@ == value
}

/// The `k`th parameter of a request is this flag under this name.
pub open spec fn flag_at(r: ApiRequest, k: int, name: Seq<char>, value: bool) -> bool {
    &&& 0 <= k < r.params@.len()
    &&& r.params@[k].0@ == name
    &&& r.params@[k].1 == ParamValue::Flag(value)
}

/// A request under the next number of a control plane, after which only the number has
/// moved on.
pub open spec fn is_next_request(r: ApiRequest, before: HerdrControl, after: HerdrControl) -> bool {
    &&& r.id@ == "muxrd-"@ + decimal(before.next_number() as nat)
    &&& after.next_number() == if before.next_number() == u64::MAX {
        0
    } else {
        before.next_number() + 1
    }
    &&& after.panes()@ == before.panes()@
    &&& after.tabs()@ == before.tabs()@
    &&& after.socket() == before.socket()
    &&& after.degraded() == before.degraded()
}

proof fn lemma_no_params(r: ApiRequest)
    requires
        params_view(r.params@).len() == 0,
    ensures
        r.params@.len() == 0,
{
    assert(params_view(r.params@).len() == r.params@.len());
}

// ----------------------------------------------------------------------- requests

/// A request on the socket is one JSON object with the id, the method and the parameters,
/// each under its name, and a newline.
pub proof fn law_a_request_is_one_line(r: &ApiRequest, t: String)
    requires
        call_ensures(ApiRequest::line, (r,), t),
    ensures
        t@ == object_json(
            seq![("id"@, r.id@), ("method"@, r.method@)],
            "params"@,
            params_view(r.params@),
        ) + "\n"@,
{
}

/// One where a value is present, else none.
pub open spec fn one_if(present: bool) -> int {
    if present {
        1
    } else {
        0
    }
}

/// A ping goes out without parameters.
pub proof fn law_a_ping_asks_nothing_else(
    control: &mut HerdrControl,
    r: ApiRequest,
)
    requires
        call_ensures(HerdrControl::ping, (control,), r),
    ensures
        r.method@ == "ping"@,
        is_next_request(r, *old(control), *final(control)),
        r.params@.len() == 0,
{
    let q = r;
    let all = params_view(q.params@);
    lemma_no_params(q);
}

/// All workspaces are asked for, without parameters.
pub proof fn law_workspaces_are_listed_all(
    control: &mut HerdrControl,
    r: ApiRequest,
)
    requires
        call_ensures(HerdrControl::list_workspaces, (control,), r),
    ensures
        r.method@ == "workspace.list"@,
        is_next_request(r, *old(control), *final(control)),
        r.params@.len() == 0,
{
    let q = r;
    let all = params_view(q.params@);
    lemma_no_params(q);
}

/// A snapshot is asked for without parameters.
pub proof fn law_a_snapshot_is_of_everything(
    control: &mut HerdrControl,
    r: ApiRequest,
)
    requires
        call_ensures(HerdrControl::session_snapshot, (control,), r),
    ensures
        r.method@ == "session.snapshot"@,
        is_next_request(r, *old(control), *final(control)),
        r.params@.len() == 0,
{
    let q = r;
    let all = params_view(q.params@);
    lemma_no_params(q);
}

/// A workspace is created with the focus, under its label if it has one.
pub proof fn law_a_new_workspace_is_focused(
    control: &mut HerdrControl,
    label: Option<String>,
    r: ApiRequest,
)
    requires
        call_ensures(HerdrControl::create_workspace, (control, label), r),
    ensures
        r.method@ == "workspace.create"@,
        is_next_request(r, *old(control), *final(control)),
        flag_at(r, 0, "focus"@, true),
        (label matches Some(l) ==> text_at(r, 1, "label"@, l@)),
        r.params@.len() == one_if(label is Some) + 1,
{
    let q = r;
    let all = params_view(q.params@);
    assert(all.len() == q.params@.len());
    assert forall|k: int| 0 <= k < all.len() implies all[k] == (
        (#[trigger] q.params@[k]).0@,
        q.params@[k].1@,
    ) by {}
}

/// A workspace is renamed by its id, to the label that was given.
pub proof fn law_a_workspace_gets_the_label(
    control: &mut HerdrControl,
    workspace_id: &str,
    label: &str,
    r: ApiRequest,
)
    requires
        call_ensures(HerdrControl::rename_workspace, (control, workspace_id, label), r),
    ensures
        r.method@ == "workspace.rename"@,
        is_next_request(r, *old(control), *final(control)),
        text_at(r, 0, "workspace_id"@, workspace_id@),
        text_at(r, 1, "label"@, label@),
        r.params@.len() == 2,
{
    let q = r;
    let all = params_view(q.params@);
    assert(all.len() == q.params@.len());
    assert forall|k: int| 0 <= k < all.len() implies all[k] == (
        (#[trigger] q.params@[k]).0@,
        q.params@[k].1@,
    ) by {}
}

/// A workspace is closed by its id; its group goes with it exactly if the caller says so.
pub proof fn law_a_group_is_closed_only_on_request(
    control: &mut HerdrControl,
    workspace_id: &str,
    close_group: bool,
    r: ApiRequest,
)
    requires
        call_ensures(HerdrControl::close_workspace, (control, workspace_id, close_group), r),
    ensures
        r.method@ == "workspace.close"@,
        is_next_request(r, *old(control), *final(control)),
        text_at(r, 0, "workspace_id"@, workspace_id@),
        flag_at(r, 1, "close_group"@, close_group),
        r.params@.len() == 2,
{
    let q = r;
    let all = params_view(q.params@);
    assert(all.len() == q.params@.len());
    assert forall|k: int| 0 <= k < all.len() implies all[k] == (
        (#[trigger] q.params@[k]).0@,
        q.params@[k].1@,
    ) by {}
}

/// A tab is created with the focus, in the workspace and under the label that were given.
pub proof fn law_a_new_tab_is_focused(
    control: &mut HerdrControl,
    workspace_id: Option<String>,
    label: Option<String>,
    r: ApiRequest,
)
    requires
        call_ensures(HerdrControl::create_tab, (control, workspace_id, label), r),
    ensures
        r.method@ == "tab.create"@,
        is_next_request(r, *old(control), *final(control)),
        (workspace_id matches Some(ws) ==> text_at(r, 0, "workspace_id"@, ws@)),
        flag_at(r, one_if(workspace_id is Some), "focus"@, true),
        (label matches Some(l) ==> text_at(r, one_if(workspace_id is Some) + 1, "label"@, l@)),
        r.params@.len() == one_if(workspace_id is Some) + one_if(label is Some) + 1,
{
    let q = r;
    let all = params_view(q.params@);
    assert(all.len() == q.params@.len());
    assert forall|k: int| 0 <= k < all.len() implies all[k] == (
        (#[trigger] q.params@[k]).0@,
        q.params@[k].1@,
    ) by {}
}

/// Tabs are asked for of the workspace that was given.
pub proof fn law_tabs_are_listed_of_one_workspace(
    control: &mut HerdrControl,
    workspace_id: &str,
    r: ApiRequest,
)
    requires
        call_ensures(HerdrControl::list_tabs, (control, workspace_id), r),
    ensures
        r.method@ == "tab.list"@,
        is_next_request(r, *old(control), *final(control)),
        text_at(r, 0, "workspace_id"@, workspace_id@),
        r.params@.len() == 1,
{
    let q = r;
    let all = params_view(q.params@);
    assert(all.len() == q.params@.len());
    assert forall|k: int| 0 <= k < all.len() implies all[k] == (
        (#[trigger] q.params@[k]).0@,
        q.params@[k].1@,
    ) by {}
}

/// Panes are asked for of the workspace that was given.
pub proof fn law_panes_are_listed_of_one_workspace(
    control: &mut HerdrControl,
    workspace_id: &str,
    r: ApiRequest,
)
    requires
        call_ensures(HerdrControl::list_panes, (control, workspace_id), r),
    ensures
        r.method@ == "pane.list"@,
        is_next_request(r, *old(control), *final(control)),
        text_at(r, 0, "workspace_id"@, workspace_id@),
        r.params@.len() == 1,
{
    let q = r;
    let all = params_view(q.params@);
    assert(all.len() == q.params@.len());
    assert forall|k: int| 0 <= k < all.len() implies all[k] == (
        (#[trigger] q.params@[k]).0@,
        q.params@[k].1@,
    ) by {}
}

/// A layout is asked for through the pane that was given.
pub proof fn law_a_layout_is_asked_for_through_a_pane(
    control: &mut HerdrControl,
    pane_id: Option<String>,
    r: ApiRequest,
)
    requires
        call_ensures(HerdrControl::pane_layout, (control, pane_id), r),
    ensures
        r.method@ == "pane.layout"@,
        is_next_request(r, *old(control), *final(control)),
        (pane_id matches Some(p) ==> text_at(r, 0, "pane_id"@, p@)),
        r.params@.len() == one_if(pane_id is Some),
{
    let q = r;
    let all = params_view(q.params@);
    assert(all.len() == q.params@.len());
    assert forall|k: int| 0 <= k < all.len() implies all[k] == (
        (#[trigger] q.params@[k]).0@,
        q.params@[k].1@,
    ) by {}
}

/// A layout tree is asked for of the tab, the pane, or both.
pub proof fn law_a_layout_tree_is_of_a_tab_or_a_pane(
    control: &mut HerdrControl,
    tab_id: Option<String>,
    pane_id: Option<String>,
    r: ApiRequest,
)
    requires
        call_ensures(HerdrControl::layout_export, (control, tab_id, pane_id), r),
    ensures
        r.method@ == "layout.export"@,
        is_next_request(r, *old(control), *final(control)),
        (tab_id matches Some(t) ==> text_at(r, 0, "tab_id"@, t@)),
        (pane_id matches Some(p) ==> text_at(r, one_if(tab_id is Some), "pane_id"@, p@)),
        r.params@.len() == one_if(tab_id is Some) + one_if(pane_id is Some),
{
    let q = r;
    let all = params_view(q.params@);
    assert(all.len() == q.params@.len());
    assert forall|k: int| 0 <= k < all.len() implies all[k] == (
        (#[trigger] q.params@[k]).0@,
        q.params@[k].1@,
    ) by {}
}

/// A tab is focused by the name that its id stands for.
pub proof fn law_the_tab_with_the_id_is_focused(
    control: &mut HerdrControl,
    tab_id: u64,
    r: Outgoing,
)
    requires
        1 <= tab_id <= old(control).tabs()@.len(),
        call_ensures(HerdrControl::focus_tab, (control, tab_id), r),
    ensures
        r matches Outgoing::Send(q) && q.method@ == "tab.focus"@
            && is_next_request(q, *old(control), *final(control))
            && text_at(q, 0, "tab_id"@, old(control).tabs()@[tab_id - 1])
            && q.params@.len() == 1,
{
    let q = r->Send_0;
    let all = params_view(q.params@);
    assert(all.len() == q.params@.len());
    assert forall|k: int| 0 <= k < all.len() implies all[k] == (
        (#[trigger] q.params@[k]).0@,
        q.params@[k].1@,
    ) by {}
}

/// A tab is closed by the name that its id stands for.
pub proof fn law_the_tab_with_the_id_is_closed(
    control: &mut HerdrControl,
    tab_id: u64,
    r: Outgoing,
)
    requires
        1 <= tab_id <= old(control).tabs()@.len(),
        call_ensures(HerdrControl::close_tab, (control, tab_id), r),
    ensures
        r matches Outgoing::Send(q) && q.method@ == "tab.close"@
            && is_next_request(q, *old(control), *final(control))
            && text_at(q, 0, "tab_id"@, old(control).tabs()@[tab_id - 1])
            && q.params@.len() == 1,
{
    let q = r->Send_0;
    let all = params_view(q.params@);
    assert(all.len() == q.params@.len());
    assert forall|k: int| 0 <= k < all.len() implies all[k] == (
        (#[trigger] q.params@[k]).0@,
        q.params@[k].1@,
    ) by {}
}

/// A tab is renamed by the name that its id stands for, to the label that was given.
pub proof fn law_the_tab_with_the_id_is_renamed(
    control: &mut HerdrControl,
    tab_id: u64,
    label: String,
    r: Outgoing,
)
    requires
        1 <= tab_id <= old(control).tabs()@.len(),
        call_ensures(HerdrControl::rename_tab, (control, tab_id, label), r),
    ensures
        r matches Outgoing::Send(q) && q.method@ == "tab.rename"@
            && is_next_request(q, *old(control), *final(control))
            && text_at(q, 0, "tab_id"@, old(control).tabs()@[tab_id - 1])
            && text_at(q, 1, "label"@, label@)
            && q.params@.len() == 2,
{
    let q = r->Send_0;
    let all = params_view(q.params@);
    assert(all.len() == q.params@.len());
    assert forall|k: int| 0 <= k < all.len() implies all[k] == (
        (#[trigger] q.params@[k]).0@,
        q.params@[k].1@,
    ) by {}
}

/// A pane is closed by the name that its id stands for.
pub proof fn law_the_pane_with_the_id_is_closed(
    control: &mut HerdrControl,
    pane: u32,
    r: Outgoing,
)
    requires
        1 <= pane <= old(control).panes()@.len(),
        call_ensures(HerdrControl::close_pane, (control, pane), r),
    ensures
        r matches Outgoing::Send(q) && q.method@ == "pane.close"@
            && is_next_request(q, *old(control), *final(control))
            && text_at(q, 0, "pane_id"@, old(control).panes()@[pane - 1].pane_id)
            && q.params@.len() == 1,
{
    let q = r->Send_0;
    let all = params_view(q.params@);
    assert(all.len() == q.params@.len());
    assert forall|k: int| 0 <= k < all.len() implies all[k] == (
        (#[trigger] q.params@[k]).0@,
        q.params@[k].1@,
    ) by {}
}

/// A pane is renamed by the name that its id stands for; no label takes the old one away.
pub proof fn law_the_pane_with_the_id_is_renamed(
    control: &mut HerdrControl,
    pane: u32,
    label: Option<String>,
    r: Outgoing,
)
    requires
        1 <= pane <= old(control).panes()@.len(),
        call_ensures(HerdrControl::rename_pane, (control, pane, label), r),
    ensures
        r matches Outgoing::Send(q) && q.method@ == "pane.rename"@
            && is_next_request(q, *old(control), *final(control))
            && text_at(q, 0, "pane_id"@, old(control).panes()@[pane - 1].pane_id)
            && (label matches Some(l) ==> text_at(q, 1, "label"@, l@))
            && q.params@.len() == one_if(label is Some) + 1,
{
    let q = r->Send_0;
    let all = params_view(q.params@);
    assert(all.len() == q.params@.len());
    assert forall|k: int| 0 <= k < all.len() implies all[k] == (
        (#[trigger] q.params@[k]).0@,
        q.params@[k].1@,
    ) by {}
}

/// A pane is split to the right for right and downwards for down: the pane, the workspace
/// and the focus are those that were given.
pub proof fn law_a_pane_is_split_the_way_that_was_asked(
    control: &mut HerdrControl,
    workspace_id: Option<String>,
    target: Option<u32>,
    direction: SplitDirection,
    focus: bool,
    r: Outgoing,
)
    requires
        target matches Some(p) ==> 1 <= p <= old(control).panes()@.len(),
        call_ensures(HerdrControl::split_pane, (control, workspace_id, target, direction, focus), r),
    ensures
        r matches Outgoing::Send(q) && q.method@ == "pane.split"@
            && is_next_request(q, *old(control), *final(control))
            && (workspace_id matches Some(ws) ==> text_at(q, 0, "workspace_id"@, ws@))
            && (target matches Some(p) ==> text_at(q, one_if(workspace_id is Some), "target_pane_id"@, old(control).panes()@[p - 1].pane_id))
            && text_at(q, one_if(workspace_id is Some) + one_if(target is Some), "direction"@, if direction is Right {
            "right"@
        } else {
            "down"@
        })
            && flag_at(q, one_if(workspace_id is Some) + one_if(target is Some) + 1, "focus"@, focus)
            && q.params@.len() == one_if(workspace_id is Some) + one_if(target is Some) + 2,
{
    let q = r->Send_0;
    let all = params_view(q.params@);
    assert(all.len() == q.params@.len());
    assert forall|k: int| 0 <= k < all.len() implies all[k] == (
        (#[trigger] q.params@[k]).0@,
        q.params@[k].1@,
    ) by {}
}

/// The focus moves left for left, right for right, up for up and down for down.
pub proof fn law_the_focus_moves_the_way_that_was_asked(
    control: &mut HerdrControl,
    pane: Option<u32>,
    direction: PaneDirection,
    r: Outgoing,
)
    requires
        pane matches Some(p) ==> 1 <= p <= old(control).panes()@.len(),
        call_ensures(HerdrControl::focus_pane_direction, (control, pane, direction), r),
    ensures
        r matches Outgoing::Send(q) && q.method@ == "pane.focus_direction"@
            && is_next_request(q, *old(control), *final(control))
            && (pane matches Some(p) ==> text_at(q, 0, "pane_id"@, old(control).panes()@[p - 1].pane_id))
            && text_at(q, one_if(pane is Some), "direction"@, match direction {
            PaneDirection::Left => "left"@,
            PaneDirection::Right => "right"@,
            PaneDirection::Up => "up"@,
            PaneDirection::Down => "down"@,
        })
            && q.params@.len() == one_if(pane is Some) + 1,
{
    let q = r->Send_0;
    let all = params_view(q.params@);
    assert(all.len() == q.params@.len());
    assert forall|k: int| 0 <= k < all.len() implies all[k] == (
        (#[trigger] q.params@[k]).0@,
        q.params@[k].1@,
    ) by {}
}

/// A pane is zoomed, unzoomed or toggled as asked.
pub proof fn law_a_pane_is_zoomed_the_way_that_was_asked(
    control: &mut HerdrControl,
    pane: Option<u32>,
    mode: PaneZoomMode,
    r: Outgoing,
)
    requires
        pane matches Some(p) ==> 1 <= p <= old(control).panes()@.len(),
        call_ensures(HerdrControl::zoom_pane, (control, pane, mode), r),
    ensures
        r matches Outgoing::Send(q) && q.method@ == "pane.zoom"@
            && is_next_request(q, *old(control), *final(control))
            && (pane matches Some(p) ==> text_at(q, 0, "pane_id"@, old(control).panes()@[p - 1].pane_id))
            && text_at(q, one_if(pane is Some), "mode"@, match mode {
            PaneZoomMode::Toggle => "toggle"@,
            PaneZoomMode::On => "on"@,
            PaneZoomMode::Off => "off"@,
        })
            && q.params@.len() == one_if(pane is Some) + 1,
{
    let q = r->Send_0;
    let all = params_view(q.params@);
    assert(all.len() == q.params@.len());
    assert forall|k: int| 0 <= k < all.len() implies all[k] == (
        (#[trigger] q.params@[k]).0@,
        q.params@[k].1@,
    ) by {}
}

/// Whether an operation answers at once that an id is unknown, and changes nothing.
pub open spec fn refuses(
    r: Outgoing,
    text: Seq<char>,
    before: HerdrControl,
    after: HerdrControl,
) -> bool {
    &&& r matches Outgoing::Answered(a) && !a.ok && a.info is None && (a.error matches Some(e)
        && e@ == text)
    &&& after == before
}

/// An operation on a tab id that was never handed out asks herdr nothing: it is answered
/// with the id.
pub proof fn law_an_unknown_tab_is_never_asked_for(
    control: &mut HerdrControl,
    tab_id: u64,
    label: String,
    focused: Outgoing,
    closed: Outgoing,
    renamed: Outgoing,
)
    requires
        tab_id == 0 || tab_id > old(control).tabs()@.len(),
    ensures
        call_ensures(HerdrControl::focus_tab, (control, tab_id), focused) ==> refuses(
            focused,
            "unknown herdr tab id "@ + decimal(tab_id as nat),
            *old(control),
            *final(control),
        ),
        call_ensures(HerdrControl::close_tab, (control, tab_id), closed) ==> refuses(
            closed,
            "unknown herdr tab id "@ + decimal(tab_id as nat),
            *old(control),
            *final(control),
        ),
        call_ensures(HerdrControl::rename_tab, (control, tab_id, label), renamed) ==> refuses(
            renamed,
            "unknown herdr tab id "@ + decimal(tab_id as nat),
            *old(control),
            *final(control),
        ),
{
}

/// An operation on a pane id that was never handed out asks herdr nothing: it is answered
/// with the id.
pub proof fn law_an_unknown_pane_is_never_asked_for(
    control: &mut HerdrControl,
    pane: u32,
    label: Option<String>,
    workspace_id: Option<String>,
    split: SplitDirection,
    focus: bool,
    direction: PaneDirection,
    mode: PaneZoomMode,
    r: Outgoing,
)
    requires
        pane == 0 || pane > old(control).panes()@.len(),
        call_ensures(HerdrControl::close_pane, (control, pane), r) || call_ensures(
            HerdrControl::rename_pane,
            (control, pane, label),
            r,
        ) || call_ensures(
            HerdrControl::split_pane,
            (control, workspace_id, Some(pane), split, focus),
            r,
        ) || call_ensures(
            HerdrControl::focus_pane_direction,
            (control, Some(pane), direction),
            r,
        ) || call_ensures(HerdrControl::zoom_pane, (control, Some(pane), mode), r),
    ensures
        refuses(
            r,
            "unknown herdr pane id "@ + decimal(pane as nat),
            *old(control),
            *final(control),
        ),
{
}

/// No two directions, and no two modes, have the same name on the wire.
pub proof fn law_names_on_the_wire_are_distinct(
    a: SplitDirection,
    b: SplitDirection,
    c: PaneDirection,
    d: PaneDirection,
    e: PaneZoomMode,
    f: PaneZoomMode,
)
    ensures
        a.wire_name() == b.wire_name() ==> a == b,
        c.wire_name() == d.wire_name() ==> c == d,
        e.wire_name() == f.wire_name() ==> e == f,
{
    reveal_strlit("right");
    reveal_strlit("down");
    reveal_strlit("left");
    reveal_strlit("up");
    reveal_strlit("toggle");
    reveal_strlit("on");
    reveal_strlit("off");
    assert("right"@[0] != "down"@[0]);
    assert("left"@[0] != "down"@[0]);
    assert("left"@[0] != "right"@[0]);
    assert("up"@[0] != "right"@[0]);
    assert("up"@[0] != "left"@[0]);
    assert("up"@[0] != "down"@[0]);
    assert("on"@.len() != "off"@.len());
    assert("toggle"@.len() != "off"@.len());
    assert("toggle"@.len() != "on"@.len());
}

// ------------------------------------------------------------------------ answers

/// An action that herdr carried out is a plain success, whatever came back with it. One
/// that it refused is a failure, and never without herdr's own message.
pub proof fn law_an_action_succeeds_exactly_if_herdr_says_so(
    method: &str,
    reply: &ApiResponseBody,
    a: ActionAck,
)
    requires
        call_ensures(action_reply, (method, reply), a),
    ensures
        a.ok <==> *reply is Success,
        a.ok ==> a.error is None && a.info is None,
        *reply matches ApiResponseBody::Failure { error } ==> (a.error matches Some(t) && a.info
            is None && (t@ == error.code@ + ": "@ + error.message@ || exists|before: Seq<char>|
            t@ == #[trigger] (before + error.message@) + ")"@)),
{
    if let ApiResponseBody::Failure { error } = *reply {
        let m = error.message@;
        let group =
            "this space is a worktree-group primary with linked worktree spaces — closing it alone is not possible; re-issue CloseSpace with group intent (close_group=true) to close the whole group ("@;
        let last =
            "this would close the last of its space, and that space is a worktree-group primary — close the space with group intent (CloseSpace with close_group=true) to remove the group ("@;
        assert((group + m) + ")"@ == group + m + ")"@);
        assert((last + m) + ")"@ == last + m + ")"@);
    }
}

/// A refusal is reworded only where it has to do with a worktree group: a workspace's
/// close with its own code, or a tab's or a pane's close that wants a confirmation. Any
/// other refusal is herdr's code and message.
pub proof fn law_only_group_refusals_are_reworded(
    method: &str,
    error: &ApiErrorBody,
    reworded: Option<ActionAck>,
    reply: &ApiResponseBody,
    a: ActionAck,
)
    requires
        call_ensures(worktree_group_refusal, (method, error), reworded),
        *reply == (ApiResponseBody::Failure { error: *error }),
        call_ensures(action_reply, (method, reply), a),
    ensures
        reworded is Some <==> (method@ == "workspace.close"@ && error.code@
            == "workspace_group_close_required"@) || ((method@ == "tab.close"@ || method@
            == "pane.close"@) && error.code@ == "confirmation_required"@),
        reworded matches Some(x) ==> !x.ok && x.info is None && (x.error matches Some(t) && t@ == (
        if method@ == "workspace.close"@ {
            "this space is a worktree-group primary with linked worktree spaces — closing it alone is not possible; re-issue CloseSpace with group intent (close_group=true) to close the whole group ("@
        } else {
            "this would close the last of its space, and that space is a worktree-group primary — close the space with group intent (CloseSpace with close_group=true) to remove the group ("@
        }) + error.message@ + ")"@),
        reworded is None ==> !a.ok && (a.error matches Some(t) && t@ == error.code@ + ": "@
            + error.message@),
        reworded matches Some(x) ==> (x.error matches Some(s) && (a.error matches Some(t) && s@
            == t@)),
{
    reveal_strlit("workspace.close");
    reveal_strlit("tab.close");
    reveal_strlit("pane.close");
    assert("workspace.close"@.len() != "tab.close"@.len());
    assert("workspace.close"@.len() != "pane.close"@.len());
}

/// The plain answers: a success says nothing more, a failure says its message, and an
/// unknown id is named.
pub proof fn law_plain_answers_say_what_they_are(
    fine: ActionAck,
    message: String,
    failed: ActionAck,
    pane: u32,
    no_pane: ActionAck,
    tab: u64,
    no_tab: ActionAck,
)
    requires
        call_ensures(ack_ok, (), fine),
        call_ensures(ack_err, (message,), failed),
        call_ensures(unknown_pane, (pane,), no_pane),
        call_ensures(unknown_tab, (tab,), no_tab),
    ensures
        fine.ok && fine.error is None && fine.info is None,
        !failed.ok && failed.info is None && (failed.error matches Some(e) && e@ == message@),
        !no_pane.ok && (no_pane.error matches Some(e) && e@ == "unknown herdr pane id "@ + decimal(
            pane as nat,
        )),
        !no_tab.ok && (no_tab.error matches Some(e) && e@ == "unknown herdr tab id "@ + decimal(
            tab as nat,
        )),
{
}

/// A response line is what was read, without the whitespace at its end. Nothing at all is
/// a failure, and so are eight mebibytes without a newline at the end.
pub proof fn law_a_response_is_a_line_within_its_bound(
    method: &str,
    resp: &str,
    r: Result<String, ControlError>,
)
    requires
        call_ensures(response_line, (method, resp), r),
    ensures
        r is Err <==> resp@.len() == 0 || (vstd::utf8::encode_utf8(resp@).len() >= 8_388_608
            && resp@.last() != '\n'),
        r matches Ok(line) ==> line@ == trimmed_end(resp@),
        resp@.len() == 0 ==> (r matches Err(ControlError::Failed(t)) && t@
            == "herdr closed the JSON-API connection without responding to "@ + method@),
        resp@.len() > 0 && r is Err ==> (r matches Err(ControlError::Failed(t)) && t@ == "herdr "@
            + method@ + " response exceeded the "@ + decimal(8_388_608)
            + "-byte limit without a newline"@),
{
}

/// A pong tells the server's version and protocol as they are; nothing else is one.
pub proof fn law_a_pong_tells_version_and_protocol(
    reply: Result<ApiResponseBody, String>,
    r: Result<HerdrServerInfo, ControlError>,
)
    requires
        call_ensures(ping_reply, (reply,), r),
    ensures
        reply matches Ok(ApiResponseBody::Success { result: Ok(ApiResult::Pong { version, protocol, .. }), .. }) ==> (
        r matches Ok(got) && got.version@ == version@ && got.protocol == protocol),
        r is Ok ==> (reply matches Ok(ApiResponseBody::Success { result: Ok(ApiResult::Pong { .. }), .. })),
        reply matches Ok(ApiResponseBody::Failure { error }) ==> (r matches Err(
            ControlError::Failed(t),
        ) && t@ == "herdr "@ + "ping"@ + " error "@ + error.code@ + ": "@ + error.message@),
        reply matches Ok(ApiResponseBody::Success { result: Err(why), .. }) ==> (r matches Err(
            ControlError::Failed(t),
        ) && t@ == "decode herdr "@ + "ping"@ + " result: "@ + why@),
        reply matches Ok(ApiResponseBody::Success { result: Ok(_), printed }) ==> (
        r matches Err(ControlError::Failed(t)) ==> t@ == "herdr "@ + "ping"@
            + " returned unexpected result: "@ + printed@),
        reply matches Err(why) ==> (r matches Err(ControlError::Failed(t)) && t@ == why@),
{
}

/// Listed workspaces are taken as they are; nothing else is a list of workspaces.
pub proof fn law_listed_workspaces_are_taken_as_they_are(
    reply: Result<ApiResponseBody, String>,
    r: Result<Vec<WorkspaceInfo>, ControlError>,
)
    requires
        call_ensures(workspaces_reply, (reply,), r),
    ensures
        reply matches Ok(ApiResponseBody::Success { result: Ok(ApiResult::WorkspaceList { workspaces }), .. }) ==> (
        r matches Ok(got) && got@ == workspaces@),
        r is Ok ==> (reply matches Ok(ApiResponseBody::Success { result: Ok(ApiResult::WorkspaceList { .. }), .. })),
        reply matches Ok(ApiResponseBody::Failure { error }) ==> (r matches Err(
            ControlError::Failed(t),
        ) && t@ == "herdr "@ + "workspace.list"@ + " error "@ + error.code@ + ": "@ + error.message@),
        reply matches Ok(ApiResponseBody::Success { result: Err(why), .. }) ==> (r matches Err(
            ControlError::Failed(t),
        ) && t@ == "decode herdr "@ + "workspace.list"@ + " result: "@ + why@),
        reply matches Ok(ApiResponseBody::Success { result: Ok(_), printed }) ==> (
        r matches Err(ControlError::Failed(t)) ==> t@ == "herdr "@ + "workspace.list"@
            + " returned unexpected result: "@ + printed@),
        reply matches Err(why) ==> (r matches Err(ControlError::Failed(t)) && t@ == why@),
{
}

/// Listed tabs are taken as they are; nothing else is a list of tabs.
pub proof fn law_listed_tabs_are_taken_as_they_are(
    reply: Result<ApiResponseBody, String>,
    r: Result<Vec<TabInfo>, ControlError>,
)
    requires
        call_ensures(tabs_reply, (reply,), r),
    ensures
        reply matches Ok(ApiResponseBody::Success { result: Ok(ApiResult::TabList { tabs }), .. }) ==> (
        r matches Ok(got) && got@ == tabs@),
        r is Ok ==> (reply matches Ok(ApiResponseBody::Success { result: Ok(ApiResult::TabList { .. }), .. })),
        reply matches Ok(ApiResponseBody::Failure { error }) ==> (r matches Err(
            ControlError::Failed(t),
        ) && t@ == "herdr "@ + "tab.list"@ + " error "@ + error.code@ + ": "@ + error.message@),
        reply matches Ok(ApiResponseBody::Success { result: Err(why), .. }) ==> (r matches Err(
            ControlError::Failed(t),
        ) && t@ == "decode herdr "@ + "tab.list"@ + " result: "@ + why@),
        reply matches Ok(ApiResponseBody::Success { result: Ok(_), printed }) ==> (
        r matches Err(ControlError::Failed(t)) ==> t@ == "herdr "@ + "tab.list"@
            + " returned unexpected result: "@ + printed@),
        reply matches Err(why) ==> (r matches Err(ControlError::Failed(t)) && t@ == why@),
{
}

/// Listed panes are taken as they are; nothing else is a list of panes.
pub proof fn law_listed_panes_are_taken_as_they_are(
    reply: Result<ApiResponseBody, String>,
    r: Result<Vec<PaneInfo>, ControlError>,
)
    requires
        call_ensures(panes_reply, (reply,), r),
    ensures
        reply matches Ok(ApiResponseBody::Success { result: Ok(ApiResult::PaneList { panes }), .. }) ==> (
        r matches Ok(got) && got@ == panes@),
        r is Ok ==> (reply matches Ok(ApiResponseBody::Success { result: Ok(ApiResult::PaneList { .. }), .. })),
        reply matches Ok(ApiResponseBody::Failure { error }) ==> (r matches Err(
            ControlError::Failed(t),
        ) && t@ == "herdr "@ + "pane.list"@ + " error "@ + error.code@ + ": "@ + error.message@),
        reply matches Ok(ApiResponseBody::Success { result: Err(why), .. }) ==> (r matches Err(
            ControlError::Failed(t),
        ) && t@ == "decode herdr "@ + "pane.list"@ + " result: "@ + why@),
        reply matches Ok(ApiResponseBody::Success { result: Ok(_), printed }) ==> (
        r matches Err(ControlError::Failed(t)) ==> t@ == "herdr "@ + "pane.list"@
            + " returned unexpected result: "@ + printed@),
        reply matches Err(why) ==> (r matches Err(ControlError::Failed(t)) && t@ == why@),
{
}

/// A layout is taken as it is; nothing else is a layout.
pub proof fn law_a_layout_is_taken_as_it_is(
    reply: Result<ApiResponseBody, String>,
    r: Result<PaneLayoutSnapshot, ControlError>,
)
    requires
        call_ensures(pane_layout_reply, (reply,), r),
    ensures
        reply matches Ok(ApiResponseBody::Success { result: Ok(ApiResult::PaneLayout { layout }), .. }) ==> (
        r matches Ok(got) && got == layout),
        r is Ok ==> (reply matches Ok(ApiResponseBody::Success { result: Ok(ApiResult::PaneLayout { .. }), .. })),
        reply matches Ok(ApiResponseBody::Failure { error }) ==> (r matches Err(
            ControlError::Failed(t),
        ) && t@ == "herdr "@ + "pane.layout"@ + " error "@ + error.code@ + ": "@ + error.message@),
        reply matches Ok(ApiResponseBody::Success { result: Err(why), .. }) ==> (r matches Err(
            ControlError::Failed(t),
        ) && t@ == "decode herdr "@ + "pane.layout"@ + " result: "@ + why@),
        reply matches Ok(ApiResponseBody::Success { result: Ok(_), printed }) ==> (
        r matches Err(ControlError::Failed(t)) ==> t@ == "herdr "@ + "pane.layout"@
            + " returned unexpected result: "@ + printed@),
        reply matches Err(why) ==> (r matches Err(ControlError::Failed(t)) && t@ == why@),
{
}

/// A snapshot is taken as it is; nothing else is a snapshot.
pub proof fn law_a_snapshot_is_taken_as_it_is(
    reply: Result<ApiResponseBody, String>,
    r: Result<SessionSnapshot, ControlError>,
)
    requires
        call_ensures(session_snapshot_reply, (reply,), r),
    ensures
        reply matches Ok(ApiResponseBody::Success { result: Ok(ApiResult::SessionSnapshot { snapshot }), .. }) ==> (
        r matches Ok(got) && got == *snapshot),
        r is Ok ==> (reply matches Ok(ApiResponseBody::Success { result: Ok(ApiResult::SessionSnapshot { .. }), .. })),
        reply matches Ok(ApiResponseBody::Failure { error }) ==> (r matches Err(
            ControlError::Failed(t),
        ) && t@ == "herdr "@ + "session.snapshot"@ + " error "@ + error.code@ + ": "@ + error.message@),
        reply matches Ok(ApiResponseBody::Success { result: Err(why), .. }) ==> (r matches Err(
            ControlError::Failed(t),
        ) && t@ == "decode herdr "@ + "session.snapshot"@ + " result: "@ + why@),
        reply matches Ok(ApiResponseBody::Success { result: Ok(_), printed }) ==> (
        r matches Err(ControlError::Failed(t)) ==> t@ == "herdr "@ + "session.snapshot"@
            + " returned unexpected result: "@ + printed@),
        reply matches Err(why) ==> (r matches Err(ControlError::Failed(t)) && t@ == why@),
{
}

/// The state of the snapshot query is news only when it changes.
pub proof fn law_a_degraded_snapshot_is_news_once(
    control: &mut HerdrControl,
    news: bool,
)
    ensures
        call_ensures(HerdrControl::note_snapshot_ok, (control,), news) ==> (news <==> old(
            control).degraded()) && !final(control).degraded(),
        call_ensures(HerdrControl::note_snapshot_degraded, (control,), news) ==> (news <==> !old(
            control).degraded()) && final(control).degraded(),
{
}

/// A new control plane talks to the socket it was given, holds the registries it was given,
/// counts its requests from one and knows of no failed snapshot.
pub proof fn law_a_control_plane_starts_as_it_was_given(
    path: String,
    panes: HerdrPaneRegistry,
    tabs: HerdrTabRegistry,
    c: HerdrControl,
    socket: &str,
    p: &HerdrPaneRegistry,
    t: &HerdrTabRegistry,
    degraded: bool,
)
    requires
        call_ensures(HerdrControl::new, (path, panes, tabs), c),
        call_ensures(HerdrControl::api_socket, (&c,), socket),
        call_ensures(HerdrControl::pane_registry, (&c,), p),
        call_ensures(HerdrControl::tab_registry, (&c,), t),
        call_ensures(HerdrControl::is_degraded, (&c,), degraded),
    ensures
        socket@ == path@,
        p@ == panes@,
        t@ == tabs@,
        !degraded,
        c.next_number() == 1,
{
}

/// Whether the last snapshot failed is told as it was noted.
pub proof fn law_a_degraded_snapshot_is_told(control: &HerdrControl, degraded: bool)
    requires
        call_ensures(HerdrControl::is_degraded, (control,), degraded),
    ensures
        degraded <==> control.degraded(),
{
}

/// A layout tree is taken as it is; nothing else is one.
pub proof fn law_a_layout_tree_is_taken_as_it_is(
    reply: Result<ApiResponseBody, String>,
    r: Result<LayoutDescription, ControlError>,
)
    requires
        call_ensures(layout_export_reply, (reply,), r),
    ensures
        reply matches Ok(
            ApiResponseBody::Success { result: Ok(ApiResult::LayoutExport { layout }), .. },
        ) ==> (r matches Ok(got) && got == *layout),
        r is Ok ==> (reply matches Ok(
            ApiResponseBody::Success { result: Ok(ApiResult::LayoutExport { .. }), .. },
        )),
        reply matches Ok(ApiResponseBody::Failure { error }) ==> (r matches Err(
            ControlError::Failed(t),
        ) && t@ == "herdr "@ + "layout.export"@ + " error "@ + error.code@ + ": "@
            + error.message@),
        reply matches Ok(ApiResponseBody::Success { result: Err(why), .. }) ==> (r matches Err(
            ControlError::Failed(t),
        ) && t@ == "decode herdr "@ + "layout.export"@ + " result: "@ + why@),
        reply matches Ok(ApiResponseBody::Success { result: Ok(_), printed }) ==> (
        r matches Err(ControlError::Failed(t)) ==> t@ == "herdr "@ + "layout.export"@
            + " returned unexpected result: "@ + printed@),
        reply matches Err(why) ==> (r matches Err(ControlError::Failed(t)) && t@ == why@),
{
}

/// The bounds of an exchange: three seconds for a response, and eight mebibytes.
pub proof fn law_the_bounds_of_an_exchange()
    ensures
        READ_TIMEOUT_MS == 3_000,
        MAX_RESPONSE_BYTES == 8_388_608,
{
}

} // verus!
