use std::collections::HashMap;

use muxrd::multiplexer::herdr::api::{
    AgentStatus, ApiErrorBody, ApiRequest, ApiResponseBody, ApiResult, PaneDirection, PaneInfo,
    PaneLayoutPane, PaneLayoutParams, PaneLayoutRect, PaneLayoutSnapshot, PaneZoomMode,
    SessionSnapshot, SplitDirection, TabInfo, WorkspaceCloseParams, WorkspaceInfo,
};
use muxrd::multiplexer::herdr::control::{
    ack_err, ack_ok, action_reply, ping_reply, response_line, tabs_reply, unknown_pane,
    unknown_tab, ControlError, HerdrControl, Outgoing, MAX_RESPONSE_BYTES,
};
use muxrd::multiplexer::herdr::layout::{layout_from_snapshot, refs, transcode_layout};
use muxrd::multiplexer::herdr::query::LayoutStep;
use muxrd::multiplexer::herdr::registry::{HerdrPaneRegistry, HerdrTabRegistry};
use muxrd::multiplexer::types::{ActionAck, LayoutSnapshot};
use serde_json::Value;

fn tab(tab_id: &str, number: usize, label: &str, focused: bool) -> TabInfo {
    TabInfo {
        tab_id: tab_id.into(),
        workspace_id: "ws-1".into(),
        number,
        label: label.into(),
        focused,
        pane_count: 1,
        agent_status: AgentStatus::Idle,
    }
}

fn pane(pane_id: &str, terminal_id: &str, tab_id: &str, title: Option<&str>) -> PaneInfo {
    PaneInfo {
        pane_id: pane_id.into(),
        terminal_id: terminal_id.into(),
        workspace_id: "ws-1".into(),
        tab_id: tab_id.into(),
        focused: false,
        cwd: Some("/home/u".into()),
        foreground_cwd: None,
        label: None,
        agent: None,
        title: title.map(str::to_owned),
        display_agent: None,
        agent_status: AgentStatus::Idle,
        custom_status: None,
        state_labels: HashMap::new(),
        agent_session: None,
        revision: 1,
    }
}

fn rect(x: u16, y: u16, width: u16, height: u16) -> PaneLayoutRect {
    PaneLayoutRect {
        x,
        y,
        width,
        height,
    }
}

fn layout(tab_id: &str, zoomed: bool, panes: Vec<PaneLayoutPane>) -> PaneLayoutSnapshot {
    PaneLayoutSnapshot {
        workspace_id: "ws-1".into(),
        tab_id: tab_id.into(),
        zoomed,
        area: rect(0, 0, 220, 50),
        focused_pane_id: panes
            .iter()
            .find(|p| p.focused)
            .map(|p| p.pane_id.clone())
            .unwrap_or_default(),
        panes,
        splits: vec![],
    }
}

fn lp(pane_id: &str, focused: bool, rect: PaneLayoutRect) -> PaneLayoutPane {
    PaneLayoutPane {
        pane_id: pane_id.into(),
        focused,
        rect,
    }
}

fn transcode(
    tabs: &Vec<TabInfo>,
    panes: &Vec<PaneInfo>,
    layouts: &Vec<PaneLayoutSnapshot>,
    active: &str,
    pane_reg: &mut HerdrPaneRegistry,
    tab_reg: &mut HerdrTabRegistry,
) -> LayoutSnapshot {
    transcode_layout(
        &refs(tabs),
        &refs(panes),
        &refs(layouts),
        active,
        pane_reg,
        tab_reg,
    )
}

#[test]
fn transcode_maps_two_pane_tab_to_neutral_snapshot() {
    let mut pane_reg = HerdrPaneRegistry::new();
    let mut tab_reg = HerdrTabRegistry::new();

    let tabs = vec![tab("tab-1", 0, "main", true)];
    let panes = vec![
        pane("pane-left", "term-l", "tab-1", Some("editor")),
        pane("pane-right", "term-r", "tab-1", None),
    ];
    let layouts = vec![layout(
        "tab-1",
        false,
        vec![
            lp("pane-left", true, rect(0, 0, 110, 50)),
            lp("pane-right", false, rect(110, 0, 110, 50)),
        ],
    )];

    let snap = transcode(&tabs, &panes, &layouts, "tab-1", &mut pane_reg, &mut tab_reg);

    assert_eq!(snap.tabs.len(), 1);
    let t = &snap.tabs[0];
    assert_eq!(t.name, "main");
    assert_eq!(t.position, 0);
    assert!(t.active);
    assert!(!t.fullscreen_active);
    assert_eq!(t.panes.len(), 2);

    let left = &t.panes[0];
    assert_eq!(left.title, "editor");
    assert_eq!(left.cwd, "/home/u");
    assert!(left.is_focused);
    assert_eq!((left.x, left.y, left.cols, left.rows), (0, 0, 110, 50));
    assert!(!left.is_plugin && !left.is_floating && !left.exited);

    let right = &t.panes[1];
    assert_eq!(right.title, "");
    assert_eq!(right.x, 110);
    assert!(!right.is_focused);

    assert_eq!(
        pane_reg.herdr_pane_id(left.id).as_deref(),
        Some("pane-left")
    );
    assert_eq!(pane_reg.terminal_id(left.id).as_deref(), Some("term-l"));
    assert_eq!(
        pane_reg.herdr_pane_id(right.id).as_deref(),
        Some("pane-right")
    );
    assert_eq!(pane_reg.terminal_id(right.id).as_deref(), Some("term-r"));

    assert_eq!(tab_reg.herdr_tab_id(t.tab_id).as_deref(), Some("tab-1"));
}

#[test]
fn transcode_marks_zoomed_tab_fullscreen() {
    let mut pane_reg = HerdrPaneRegistry::new();
    let mut tab_reg = HerdrTabRegistry::new();
    let tabs = vec![tab("tab-z", 1, "zoom", false)];
    let panes = vec![pane("pane-a", "term-a", "tab-z", Some("vim"))];
    let layouts = vec![layout(
        "tab-z",
        true,
        vec![lp("pane-a", true, rect(0, 0, 220, 50))],
    )];

    let snap = transcode(&tabs, &panes, &layouts, "tab-z", &mut pane_reg, &mut tab_reg);
    assert!(snap.tabs[0].fullscreen_active);
    assert!(snap.tabs[0].panes[0].is_fullscreen);
}

#[test]
fn transcode_active_tab_uses_workspace_active_tab_id_not_global_focus() {
    let mut pane_reg = HerdrPaneRegistry::new();
    let mut tab_reg = HerdrTabRegistry::new();
    let tabs = vec![tab("tab-1", 0, "one", false), tab("tab-2", 1, "two", false)];
    let panes = vec![
        pane("pane-1", "term-1", "tab-1", None),
        pane("pane-2", "term-2", "tab-2", None),
    ];
    let whole = rect(0, 0, 220, 50);
    let layouts = vec![
        layout("tab-1", false, vec![lp("pane-1", true, whole)]),
        layout("tab-2", false, vec![lp("pane-2", true, whole)]),
    ];

    let snap = transcode(&tabs, &panes, &layouts, "tab-2", &mut pane_reg, &mut tab_reg);

    assert_eq!(snap.tabs.len(), 2);
    assert!(
        !snap.tabs[0].active,
        "tab-1 is not the workspace's active tab"
    );
    assert!(
        snap.tabs[1].active,
        "tab-2 == WorkspaceInfo.active_tab_id → exactly this tab is active despite focused=false"
    );
}

#[test]
fn transcode_tab_without_layout_has_no_panes_but_registers_terminal_ids() {
    let mut pane_reg = HerdrPaneRegistry::new();
    let mut tab_reg = HerdrTabRegistry::new();
    let tabs = vec![tab("tab-1", 0, "one", true), tab("tab-2", 1, "two", false)];
    let panes = vec![
        pane("pane-1", "term-1", "tab-1", None),
        pane("pane-2", "term-2", "tab-2", None),
    ];
    let layouts = vec![layout(
        "tab-1",
        false,
        vec![lp("pane-1", true, rect(0, 0, 220, 50))],
    )];

    let snap = transcode(&tabs, &panes, &layouts, "tab-1", &mut pane_reg, &mut tab_reg);
    assert_eq!(snap.tabs.len(), 2);
    assert_eq!(snap.tabs[0].panes.len(), 1);
    assert!(snap.tabs[1].panes.is_empty());

    let id2 = pane_reg.id_for_herdr_pane("pane-2").expect("registered");
    assert_eq!(pane_reg.terminal_id(id2).as_deref(), Some("term-2"));
    let id2 = pane_reg.assign_or_get("pane-2", "term-2");
    assert_eq!(pane_reg.terminal_id(id2).as_deref(), Some("term-2"));
}

fn fixture_workspaces() -> Vec<WorkspaceInfo> {
    let ws = |id: &str, number, label: &str, focused, pane_count, tab_count, active: &str, s| {
        WorkspaceInfo {
            workspace_id: id.into(),
            number,
            label: label.into(),
            focused,
            pane_count,
            tab_count,
            active_tab_id: active.into(),
            agent_status: s,
            worktree: None,
        }
    };
    vec![
        ws("ws-1", 1, "main", true, 2, 2, "w1:t1", AgentStatus::Idle),
        ws("ws-2", 2, "other", false, 1, 1, "w2:t1", AgentStatus::Working),
    ]
}

fn fixture_tabs() -> Vec<TabInfo> {
    let t = |id: &str, ws: &str, number, label: &str, focused, pane_count| TabInfo {
        tab_id: id.into(),
        workspace_id: ws.into(),
        number,
        label: label.into(),
        focused,
        pane_count,
        agent_status: AgentStatus::Idle,
    };
    vec![
        t("w2:t1", "ws-2", 1, "foreign", false, 1),
        t("w1:t1", "ws-1", 1, "shell", true, 2),
        t("w1:t2", "ws-1", 2, "empty", false, 0),
    ]
}

fn fixture_panes() -> Vec<PaneInfo> {
    let mut p9 = pane("w2:p9", "term-9", "w2:t1", None);
    p9.workspace_id = "ws-2".into();
    p9.focused = true;
    p9.cwd = None;
    let mut p1 = pane("w1:p1", "term-1", "w1:t1", Some("vim"));
    p1.focused = true;
    p1.revision = 3;
    let mut p2 = pane("w1:p2", "term-2", "w1:t1", None);
    p2.label = Some("logs".into());
    p2.cwd = Some("/var".into());
    p2.agent_status = AgentStatus::Working;
    p2.revision = 4;
    vec![p9, p1, p2]
}

fn fixture_layouts() -> Vec<PaneLayoutSnapshot> {
    vec![
        PaneLayoutSnapshot {
            workspace_id: "ws-1".into(),
            tab_id: "w1:t1".into(),
            zoomed: false,
            area: rect(0, 0, 200, 50),
            focused_pane_id: "w1:p1".into(),
            panes: vec![
                lp("w1:p1", true, rect(0, 0, 100, 50)),
                lp("w1:p2", false, rect(100, 0, 100, 50)),
            ],
            splits: vec![],
        },
        // A tab with no panes: the fan-out can never ask for it, so the snapshot's
        // layout for it does not count either.
        PaneLayoutSnapshot {
            workspace_id: "ws-1".into(),
            tab_id: "w1:t2".into(),
            zoomed: true,
            area: rect(0, 0, 200, 50),
            focused_pane_id: String::new(),
            panes: vec![],
            splits: vec![],
        },
        PaneLayoutSnapshot {
            workspace_id: "ws-2".into(),
            tab_id: "w2:t1".into(),
            zoomed: true,
            area: rect(0, 0, 80, 24),
            focused_pane_id: "w2:p9".into(),
            panes: vec![lp("w2:p9", true, rect(0, 0, 80, 24))],
            splits: vec![],
        },
    ]
}

fn snapshot() -> SessionSnapshot {
    SessionSnapshot {
        version: "0.9.0".into(),
        protocol: 22,
        workspaces: fixture_workspaces(),
        tabs: fixture_tabs(),
        panes: fixture_panes(),
        layouts: fixture_layouts(),
    }
}

fn fanout_inputs() -> (Vec<TabInfo>, Vec<PaneInfo>, Vec<PaneLayoutSnapshot>) {
    let tabs: Vec<TabInfo> = fixture_tabs()
        .into_iter()
        .filter(|t| t.workspace_id == "ws-1")
        .collect();
    let panes: Vec<PaneInfo> = fixture_panes()
        .into_iter()
        .filter(|p| p.workspace_id == "ws-1")
        .collect();
    let layouts = fixture_layouts()
        .into_iter()
        .filter(|l| l.workspace_id == "ws-1" && panes.iter().any(|p| p.tab_id == l.tab_id))
        .collect();
    (tabs, panes, layouts)
}

#[test]
fn the_snapshot_projection_equals_the_fanout_transcode() {
    let mut snap_panes = HerdrPaneRegistry::new();
    let mut snap_tabs = HerdrTabRegistry::new();
    let from_snapshot =
        layout_from_snapshot(&snapshot(), "ws-1", &mut snap_panes, &mut snap_tabs)
            .expect("ws-1 is present in the snapshot");

    let (tabs, panes, layouts) = fanout_inputs();
    let mut fan_panes = HerdrPaneRegistry::new();
    let mut fan_tabs = HerdrTabRegistry::new();
    let from_fanout = transcode(
        &tabs,
        &panes,
        &layouts,
        "w1:t1",
        &mut fan_panes,
        &mut fan_tabs,
    );

    assert_eq!(
        from_snapshot, from_fanout,
        "the snapshot path must not answer anything the fan-out would not"
    );

    assert_eq!(from_snapshot.tabs.len(), 2, "ws-2's tab must not leak in");
    let t1 = &from_snapshot.tabs[0];
    assert!(t1.active, "the workspace's OWN active_tab_id decides this");
    assert_eq!(t1.panes.len(), 2);
    let t2 = &from_snapshot.tabs[1];
    assert!(
        !t2.fullscreen_active,
        "a pane-less tab has no fan-out geometry, so the snapshot's zoomed=true \
         for it must be dropped rather than diverge"
    );
    assert!(t2.panes.is_empty());
}

#[test]
fn a_workspace_absent_from_the_snapshot_is_not_an_empty_layout() {
    assert!(
        layout_from_snapshot(
            &snapshot(),
            "ws-does-not-exist",
            &mut HerdrPaneRegistry::new(),
            &mut HerdrTabRegistry::new()
        )
        .is_none(),
        "an unknown workspace must never transcode to an empty-but-Ok layout"
    );
}

#[test]
fn a_sparse_snapshot_parses_and_projects_to_nothing() {
    let snapshot = SessionSnapshot {
        version: String::new(),
        protocol: 0,
        workspaces: Vec::new(),
        tabs: Vec::new(),
        panes: Vec::new(),
        layouts: Vec::new(),
    };
    assert!(snapshot.workspaces.is_empty());
    assert!(
        layout_from_snapshot(
            &snapshot,
            "ws-1",
            &mut HerdrPaneRegistry::new(),
            &mut HerdrTabRegistry::new()
        )
        .is_none()
    );
}

#[test]
fn ack_helpers_shape() {
    assert!(ack_ok().ok);
    let e = ack_err("boom".into());
    assert!(!e.ok);
    assert_eq!(e.error.as_deref(), Some("boom"));
    assert!(!unknown_pane(7).ok);
    assert!(!unknown_tab(7).ok);
}

fn control() -> HerdrControl {
    HerdrControl::new(
        "/tmp/herdr.sock".to_owned(),
        HerdrPaneRegistry::new(),
        HerdrTabRegistry::new(),
    )
}

fn sent(request: &ApiRequest) -> Value {
    let line = request.line();
    assert!(line.ends_with('\n'), "a request is one line");
    serde_json::from_str(line.trim_end()).expect("sent line must be JSON")
}

fn success(result: ApiResult) -> Result<ApiResponseBody, String> {
    Ok(ApiResponseBody::Success { printed: format!("{result:?}"), result: Ok(result) })
}

fn error(code: &str, message: &str) -> ApiResponseBody {
    ApiResponseBody::Failure {
        error: ApiErrorBody {
            code: code.into(),
            message: message.into(),
        },
    }
}

fn method_of(out: Outgoing) -> String {
    match out {
        Outgoing::Send(r) => r.method,
        Outgoing::Answered(a) => panic!("expected a request, got {a:?}"),
    }
}

#[test]
fn close_workspace_sends_close_group_false_by_default() {
    let mut control = control();
    let req = sent(&control.close_workspace("ws-1", false));
    assert_eq!(req["method"], "workspace.close");
    assert_eq!(req["params"]["workspace_id"], "ws-1");
    assert_eq!(
        req["params"]["close_group"], false,
        "a close with no group intent must never request a group close"
    );
    let ack = action_reply("workspace.close", &success(ApiResult::Done {}).unwrap());
    assert!(ack.ok);
}

#[test]
fn close_workspace_sends_close_group_true_when_asked() {
    let mut control = control();
    let req = sent(&control.close_workspace("ws-1", true));
    assert_eq!(req["method"], "workspace.close");
    assert_eq!(req["params"]["close_group"], true);
}

#[test]
fn workspace_group_close_required_is_surfaced_distinctly() {
    let mut control = control();
    let request = control.close_workspace("ws-1", false);
    let ack = action_reply(
        &request.method,
        &error(
            "workspace_group_close_required",
            "workspace has linked worktree workspaces; use --group (close_group=true in the API) to close the group",
        ),
    );
    assert!(!ack.ok, "a logical refusal is an unsuccessful ack");
    let msg = ack.error.expect("refusal must carry a message");
    assert!(msg.contains("worktree-group primary"), "message: {msg}");
    assert!(msg.contains("linked worktree"), "message: {msg}");
    assert!(msg.contains("close_group=true"), "message: {msg}");
    assert!(msg.contains("CloseSpace"), "message: {msg}");
}

#[test]
fn confirmation_required_on_tab_close_is_surfaced_distinctly() {
    let mut tabs = HerdrTabRegistry::new();
    let tab_id = tabs.assign_or_get("tab-1");
    let mut control = HerdrControl::new("/tmp/h".to_owned(), HerdrPaneRegistry::new(), tabs);
    let method = method_of(control.close_tab(tab_id));
    let ack = action_reply(
        &method,
        &error(
            "confirmation_required",
            "closing this tab would close a worktree group",
        ),
    );
    assert!(!ack.ok, "a logical refusal is an unsuccessful ack");
    let msg = ack.error.expect("refusal must carry a message");
    assert!(msg.contains("worktree-group primary"), "message: {msg}");
    assert!(msg.contains("close_group=true"), "message: {msg}");
}

#[test]
fn confirmation_required_on_pane_close_is_surfaced_distinctly() {
    let mut panes = HerdrPaneRegistry::new();
    let pane_id = panes.assign_or_get("pane-1", "term-1");
    let mut control = HerdrControl::new("/tmp/h".to_owned(), panes, HerdrTabRegistry::new());
    let method = method_of(control.close_pane(pane_id));
    let ack = action_reply(
        &method,
        &error(
            "confirmation_required",
            "closing this pane would close a worktree group",
        ),
    );
    assert!(!ack.ok, "a logical refusal is an unsuccessful ack");
    let msg = ack.error.expect("refusal must carry a message");
    assert!(msg.contains("worktree-group primary"), "message: {msg}");
    assert!(msg.contains("close_group=true"), "message: {msg}");
}

#[test]
fn unrelated_error_code_keeps_the_generic_shape() {
    let mut control = control();
    let request = control.close_workspace("ws-missing", false);
    let ack = action_reply(
        &request.method,
        &error("not_found", "workspace not found"),
    );
    assert!(!ack.ok);
    assert_eq!(ack.error.as_deref(), Some("not_found: workspace not found"));
}

#[test]
fn confirmation_required_from_an_unrelated_method_keeps_the_generic_shape() {
    let mut panes = HerdrPaneRegistry::new();
    let pane_id = panes.assign_or_get("pane-1", "term-1");
    let mut control = HerdrControl::new("/tmp/h".to_owned(), panes, HerdrTabRegistry::new());
    let method = method_of(control.zoom_pane(Some(pane_id), PaneZoomMode::Toggle));
    let ack = action_reply(
        &method,
        &error("confirmation_required", "zoom needs confirmation"),
    );
    assert!(!ack.ok);
    assert_eq!(
        ack.error.as_deref(),
        Some("confirmation_required: zoom needs confirmation"),
        "an unrelated method's refusal must not be reworded"
    );
}

#[test]
fn confirmation_required_from_workspace_close_keeps_the_generic_shape() {
    let mut control = control();
    let request = control.close_workspace("ws-1", false);
    let ack = action_reply(
        &request.method,
        &error("confirmation_required", "needs confirmation"),
    );
    assert!(!ack.ok);
    assert_eq!(
        ack.error.as_deref(),
        Some("confirmation_required: needs confirmation")
    );
}

#[test]
fn group_close_required_from_an_unrelated_method_keeps_the_generic_shape() {
    let mut tabs = HerdrTabRegistry::new();
    let tab_id = tabs.assign_or_get("tab-1");
    let mut control = HerdrControl::new("/tmp/h".to_owned(), HerdrPaneRegistry::new(), tabs);
    let method = method_of(control.close_tab(tab_id));
    let ack = action_reply(
        &method,
        &error("workspace_group_close_required", "nonsense from tab.close"),
    );
    assert!(!ack.ok);
    assert_eq!(
        ack.error.as_deref(),
        Some("workspace_group_close_required: nonsense from tab.close")
    );
}

/// Answers the requests of a layout query until it is over. Only methods in
/// `served` are answered; the others get `method_not_found`.
fn run_query(
    control: &mut HerdrControl,
    workspace: &str,
    served: &[&str],
) -> (Result<LayoutSnapshot, ControlError>, Vec<String>) {
    let (mut query, mut request) = control.query_layout(workspace);
    let mut methods = Vec::new();
    loop {
        methods.push(request.method.clone());
        let (tabs, panes, layouts) = fanout_inputs();
        let reply = if !served.contains(&request.method.as_str()) {
            Ok(error(
                "method_not_found",
                &format!("unknown method {}", request.method),
            ))
        } else {
            match request.method.as_str() {
                "session.snapshot" => success(ApiResult::SessionSnapshot {
                    snapshot: Box::new(snapshot()),
                }),
                "workspace.list" => success(ApiResult::WorkspaceList {
                    workspaces: fixture_workspaces(),
                }),
                "tab.list" => success(ApiResult::TabList { tabs }),
                "pane.list" => success(ApiResult::PaneList { panes }),
                "pane.layout" => success(ApiResult::PaneLayout {
                    layout: layouts.into_iter().next().unwrap(),
                }),
                other => panic!("unexpected method {other}"),
            }
        };
        match control.query_layout_reply(query, reply) {
            LayoutStep::Ask(q, r) => {
                query = q;
                request = r;
            }
            LayoutStep::Finished(r) => return (r, methods),
        }
    }
}

const FANOUT: [&str; 4] = ["workspace.list", "tab.list", "pane.list", "pane.layout"];

#[test]
fn query_layout_serves_the_common_case_from_one_session_snapshot_call() {
    let (r, methods) = run_query(&mut control(), "ws-1", &["session.snapshot"]);
    let layout = r.expect("the snapshot alone must be enough to answer");
    assert_eq!(
        methods,
        vec!["session.snapshot".to_string()],
        "the snapshot path must not also fan out"
    );
    assert_eq!(layout.tabs.len(), 2);
    assert_eq!(layout.tabs[0].panes.len(), 2);
}

#[test]
fn query_layout_falls_back_to_the_fanout_when_the_snapshot_fails() {
    let (via_snapshot, _) = run_query(&mut control(), "ws-1", &["session.snapshot"]);
    let (via_fanout, methods) = run_query(&mut control(), "ws-1", &FANOUT);
    assert_eq!(
        methods,
        vec![
            "session.snapshot".to_string(),
            "workspace.list".to_string(),
            "tab.list".to_string(),
            "pane.list".to_string(),
            "pane.layout".to_string(),
        ],
        "the snapshot is tried first, then the full fan-out — and only one \
         pane.layout, for the one tab with a pane"
    );
    assert_eq!(
        via_snapshot.expect("snapshot path must answer"),
        via_fanout.expect("the fan-out must still answer when the snapshot cannot"),
        "an optimisation that answers differently from its fallback is a bug, \
         and this one is invisible until it reaches a device"
    );
}

#[test]
fn an_unknown_workspace_still_fails_closed_through_both_paths() {
    let mut served = FANOUT.to_vec();
    served.push("session.snapshot");
    let (r, methods) = run_query(&mut control(), "ws-nope", &served);
    match r.expect_err("an unknown workspace must not answer Ok") {
        ControlError::UnknownSpace(u) => assert_eq!(u.space_id, "ws-nope"),
        other => panic!("expected an unknown space, got {other:?}"),
    }
    assert_eq!(
        methods,
        vec!["session.snapshot".to_string(), "workspace.list".to_string()],
        "a healthy snapshot that lists no such workspace still defers to the \
         fan-out's existence check"
    );
}

#[test]
fn a_fanout_that_fails_says_where() {
    let (r, _) = run_query(&mut control(), "ws-1", &["workspace.list"]);
    match r.expect_err("tab.list is not served") {
        ControlError::Failed(t) => assert!(t.contains("tab.list"), "{t}"),
        other => panic!("expected a failure, got {other:?}"),
    }
}

#[test]
fn api_request_serialize() {
    let req = ApiRequest::new(
        "req-1".to_owned(),
        "pane.layout".to_owned(),
        PaneLayoutParams { pane_id: None }.fields(),
    );
    let json = sent(&req);
    assert_eq!(json["id"], "req-1");
    assert_eq!(json["method"], "pane.layout");
    assert!(json["params"].is_object());
    assert_eq!(json.as_object().unwrap().len(), 3);
    assert!(json["params"].as_object().unwrap().is_empty());
}

#[test]
fn workspace_close_params_serialize_carry_close_group_both_ways() {
    for close_group in [true, false] {
        let params = WorkspaceCloseParams {
            workspace_id: "ws-1".into(),
            close_group,
        };
        let json = sent(&ApiRequest::new(
            "r".to_owned(),
            "workspace.close".to_owned(),
            params.fields(),
        ));
        assert_eq!(json["params"]["workspace_id"], "ws-1");
        assert_eq!(
            json["params"]["close_group"], close_group,
            "the default (non-group) close must put an explicit false on the wire"
        );
    }
}

#[test]
fn requests_are_numbered_and_carry_their_parameters() {
    let mut panes = HerdrPaneRegistry::new();
    let p = panes.assign_or_get("pane-1", "term-1");
    let mut tabs = HerdrTabRegistry::new();
    let t = tabs.assign_or_get("tab-1");
    let mut c = HerdrControl::new("/tmp/h".to_owned(), panes, tabs);
    let first = sent(&c.ping());
    let second = sent(&c.list_panes("ws-\"1\""));
    assert_ne!(first["id"], second["id"]);
    assert_eq!(first["method"], "ping");
    assert_eq!(second["params"]["workspace_id"], "ws-\"1\"");

    let send = |out| match out {
        Outgoing::Send(r) => sent(&r),
        Outgoing::Answered(a) => panic!("expected a request, got {a:?}"),
    };
    let v = send(c.rename_tab(t, "new".into()));
    assert_eq!(v["method"], "tab.rename");
    assert_eq!(v["params"]["tab_id"], "tab-1");
    assert_eq!(v["params"]["label"], "new");
    let v = send(c.split_pane(
        Some("ws-1".into()),
        Some(p),
        SplitDirection::Right,
        true,
    ));
    assert_eq!(v["method"], "pane.split");
    assert_eq!(v["params"]["target_pane_id"], "pane-1");
    assert_eq!(v["params"]["direction"], "right");
    assert_eq!(v["params"]["focus"], true);
    let v = send(c.focus_pane_direction(None, PaneDirection::Left));
    assert_eq!(v["params"]["direction"], "left");
    assert!(v["params"].get("pane_id").is_none());
    let v = send(c.focus_tab(t));
    assert_eq!(v["params"]["tab_id"], "tab-1");
    let v = sent(&c.create_workspace(Some("w".into())));
    assert_eq!(v["params"]["label"], "w");
    assert_eq!(v["params"]["focus"], true);
}

#[test]
fn unknown_ids_are_answered_without_a_request() {
    let mut c = control();
    let answered = |out: Outgoing| -> ActionAck {
        match out {
            Outgoing::Answered(a) => a,
            Outgoing::Send(r) => panic!("expected an answer, got {r:?}"),
        }
    };
    assert_eq!(
        answered(c.close_pane(9)).error.as_deref(),
        Some("unknown herdr pane id 9")
    );
    assert_eq!(
        answered(c.close_tab(40)).error.as_deref(),
        Some("unknown herdr tab id 40")
    );
    assert_eq!(
        answered(c.zoom_pane(Some(0), PaneZoomMode::Toggle)).error.as_deref(),
        Some("unknown herdr pane id 0")
    );
}

#[test]
fn responses_are_lines_of_bounded_length() {
    assert_eq!(response_line("ping", "{\"a\":1}  \r\n").unwrap(), "{\"a\":1}");
    assert!(response_line("ping", "").is_err());
    let endless = "x".repeat(MAX_RESPONSE_BYTES as usize);
    assert!(response_line("ping", &endless).is_err());
    assert!(response_line("ping", "no newline at all").is_ok());
}

#[test]
fn replies_of_the_wrong_kind_are_failures() {
    let wrong = success(ApiResult::Done {});
    match tabs_reply(wrong) {
        Err(ControlError::Failed(t)) => {
            assert_eq!(t, "herdr tab.list returned unexpected result: Done")
        }
        other => panic!("expected a failure, got {other:?}"),
    }
    let pong = success(ApiResult::Pong {
        version: "1".into(),
        protocol: 22,
        capabilities: HashMap::new(),
    });
    assert_eq!(ping_reply(pong).unwrap().protocol, 22);
    assert!(ping_reply(Err("down".into())).is_err());
    assert!(ping_reply(Ok(ApiResponseBody::Success {
        result: Err("unknown variant".into()),
        printed: String::new(),
    }))
    .is_err());
}

#[test]
fn snapshot_trouble_is_news_only_once() {
    let mut c = control();
    assert!(!c.note_snapshot_ok());
    assert!(c.note_snapshot_degraded());
    assert!(!c.note_snapshot_degraded());
    assert!(c.note_snapshot_ok());
    assert_eq!(c.api_socket(), "/tmp/herdr.sock");
}

#[test]
fn ids_are_stable_and_lead_back() {
    let mut panes = HerdrPaneRegistry::new();
    let a = panes.assign_or_get("a", "t-a");
    let b = panes.assign_or_get("b", "t-b");
    assert_ne!(a, b);
    assert_eq!(panes.assign_or_get("a", "t-a2"), a);
    assert_eq!(panes.terminal_id(a).as_deref(), Some("t-a2"));
    assert_eq!(panes.herdr_pane_id(b).as_deref(), Some("b"));
    assert_eq!(panes.herdr_pane_id(0), None);
    assert_eq!(panes.id_for_herdr_pane("c"), None);
    let mut tabs = HerdrTabRegistry::new();
    let t = tabs.assign_or_get("x");
    assert_eq!(tabs.assign_or_get("x"), t);
    assert_eq!(tabs.id_for_herdr_tab("x"), t);
    assert_eq!(tabs.herdr_tab_id(t).as_deref(), Some("x"));
    assert_eq!(tabs.herdr_tab_id(99), None);
}

#[test]
fn every_request_has_an_id_of_its_own() {
    let mut c = HerdrControl::new(
        "/tmp/herdr.sock".into(),
        HerdrPaneRegistry::new(),
        HerdrTabRegistry::new(),
    );
    let first = c.ping();
    let second = c.list_workspaces();
    assert!(matches!(c.close_pane(9), Outgoing::Answered(_)));
    let third = c.close_workspace("ws-1", false);
    assert_eq!(first.id, "muxrd-1");
    assert_eq!(second.id, "muxrd-2");
    assert_eq!(third.id, "muxrd-3");
}

#[test]
fn a_failed_snapshot_is_remembered_until_one_works() {
    let mut c = HerdrControl::new(
        "/tmp/herdr.sock".into(),
        HerdrPaneRegistry::new(),
        HerdrTabRegistry::new(),
    );
    assert!(!c.is_degraded());
    let (query, _) = c.query_layout("ws-1");
    let step = c.query_layout_reply(query, Err("timed out".into()));
    assert!(matches!(step, LayoutStep::Ask(_, _)));
    assert!(c.is_degraded());
    assert!(c.note_snapshot_ok());
    assert!(!c.is_degraded());
}

#[test]
fn records_are_equal_whatever_the_order_of_their_labels() {
    let mut a = pane("p1", "t1", "tab-1", None);
    let mut b = pane("p1", "t1", "tab-1", None);
    for (k, v) in [("phase", "waiting"), ("tool", "shell"), ("step", "2")] {
        a.state_labels.insert(k.into(), v.into());
    }
    for (k, v) in [("step", "2"), ("phase", "waiting"), ("tool", "shell")] {
        b.state_labels.insert(k.into(), v.into());
    }
    assert_eq!(a, b);
    b.state_labels.remove("tool");
    assert_ne!(a, b);
}
