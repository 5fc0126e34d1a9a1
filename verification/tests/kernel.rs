use std::collections::HashMap;

use muxrd::multiplexer::events::{AgentStatus, AgentStatusChanged};
use muxrd::multiplexer::herdr::api::{
    AgentStatus as HerdrAgentStatus, ApiErrorBody, ApiResponseBody, ApiResult, PaneInfo,
    WorkspaceInfo,
};
use muxrd::multiplexer::herdr::control::HerdrControl;
use muxrd::multiplexer::herdr::lines::{LineError, LineReader, LineStep, MAX_EVENT_LINE_BYTES};
use muxrd::multiplexer::herdr::listing::{AllPanes, ListingStep, Purpose};
use muxrd::multiplexer::herdr::pushed::{lifecycle_request_line, Pushed};
use muxrd::multiplexer::herdr::registry::{HerdrPaneRegistry, HerdrTabRegistry};
use muxrd::multiplexer::herdr::resync::Verdict;
use muxrd::multiplexer::herdr::subscribe::{
    ack_line, ack_tick, AckStep, AckTick, Bring, Drain, DrainTick, EnumStep, EnumTick, Kernel,
    Next, PumpEnd, PumpStep, Task, Tick, Tuning, Wait, Watcher,
};

fn workspace(id: &str) -> WorkspaceInfo {
    WorkspaceInfo {
        workspace_id: id.to_owned(),
        number: 1,
        label: format!("label-{id}"),
        focused: true,
        pane_count: 1,
        tab_count: 1,
        active_tab_id: "t1".to_owned(),
        agent_status: HerdrAgentStatus::Unknown,
        worktree: None,
    }
}

fn pane(id: &str, status: HerdrAgentStatus) -> PaneInfo {
    PaneInfo {
        pane_id: id.to_owned(),
        terminal_id: format!("term-{id}"),
        workspace_id: "w1".to_owned(),
        tab_id: "t1".to_owned(),
        focused: false,
        cwd: None,
        foreground_cwd: None,
        label: None,
        agent: None,
        title: Some(format!("title-{id}")),
        display_agent: None,
        agent_status: status,
        custom_status: None,
        state_labels: HashMap::new(),
        agent_session: None,
        revision: 0,
    }
}

fn listing(panes: Vec<PaneInfo>) -> AllPanes {
    AllPanes {
        workspaces: vec![workspace("w1")],
        panes: vec![panes],
    }
}

fn tuning() -> Tuning {
    Tuning {
        initial_backoff: 10,
        max_backoff: 100,
        stable_threshold: 1_000,
        ack_timeout: 500,
        grow_coalesce_window: 5,
        grow_storm_window: 50,
        grow_storm_threshold: 2,
        probe_interval: 25,
        probe_strikes: 2,
    }
}

fn created_line(pane_id: &str) -> String {
    format!(r#"{{"event":"pane_created","data":{{"pane":{{"pane_id":"{pane_id}"}}}}}}"#)
}

/// A kernel with both connections up since time 0, covering `panes`.
fn running(panes: Vec<PaneInfo>, reg: &mut HerdrPaneRegistry) -> Kernel {
    let mut k = Kernel::new(tuning());
    assert_eq!(k.carry_on(false), Task::ConnectLifecycle);
    assert_eq!(k.lifecycle_brought(Bring::Ready { opened: 0 }), Next::Go);
    assert_eq!(k.carry_on(false), Task::ConnectStatus);
    k.status_acked(panes.iter().map(|p| p.pane_id.clone()).collect());
    k.resynced(Ok(listing(panes)), reg);
    assert_eq!(k.status_brought(Bring::Ready { opened: 0 }, 0), Next::Go);
    assert_eq!(k.carry_on(false), Task::Pump);
    k
}

fn status_event(pane: u32, status: AgentStatus) -> AgentStatusChanged {
    AgentStatusChanged {
        pane,
        workspace_id: "w1".to_owned(),
        workspace_name: None,
        status,
        title: None,
        synthetic: false,
    }
}

#[test]
fn a_pane_created_during_the_enumeration_reaches_the_agent_status_subscription() {
    let mut k = Kernel::new(tuning());
    k.lifecycle_brought(Bring::Ready { opened: 0 });
    let mut buffered = Vec::new();
    let step = k.enum_tick(&mut buffered, EnumTick::Line(Some(created_line("w1:p2"))), 3);
    assert!(matches!(step, EnumStep::Continue));
    let step = k.enum_tick(
        &mut buffered,
        EnumTick::Enumerated(Ok(vec!["w1:p1".to_owned()])),
        5,
    );
    match step {
        EnumStep::Subscribe { pane_ids, request } => {
            assert_eq!(pane_ids, vec!["w1:p1".to_string(), "w1:p2".to_string()]);
            assert!(request.contains(r#""pane_id":"w1:p2""#));
            assert!(request.ends_with('\n'));
        }
        other => panic!("expected a subscription, got {other:?}"),
    }
}

#[test]
fn an_enumeration_that_fails_or_loses_the_lifecycle_connection_ends() {
    let mut k = Kernel::new(tuning());
    k.lifecycle_brought(Bring::Ready { opened: 0 });
    let mut buffered = Vec::new();
    assert!(matches!(
        k.enum_tick(&mut buffered, EnumTick::Enumerated(Err("no".to_owned())), 1),
        EnumStep::End(Bring::Failed)
    ));
    assert!(matches!(
        k.enum_tick(&mut buffered, EnumTick::Line(None), 1),
        EnumStep::End(Bring::LifecycleLost)
    ));
    assert!(matches!(
        k.enum_tick(&mut buffered, EnumTick::Shutdown, 1),
        EnumStep::End(Bring::Shutdown)
    ));
}

#[test]
fn a_quiet_herdr_never_reconnects_either_subscription() {
    let mut reg = HerdrPaneRegistry::new();
    let panes = || vec![pane("w1:p1", HerdrAgentStatus::Idle)];
    let mut k = running(panes(), &mut reg);
    let mut now = 0;
    for _ in 0..20 {
        now += 25;
        match k.pump_tick(Tick::Probe, now) {
            PumpStep::Probe {
                lifecycle_idle,
                status_idle,
            } => {
                assert!(lifecycle_idle && status_idle);
                let verdict = k.liveness_probe(&Ok(listing(panes())), &reg);
                assert_eq!(verdict, Some(Verdict::Healthy));
                assert!(matches!(
                    k.probed(verdict, lifecycle_idle, status_idle),
                    PumpStep::Continue
                ));
            }
            other => panic!("expected a probe, got {other:?}"),
        }
    }
}

#[test]
fn the_watchdog_rebuilds_an_agent_status_subscription_that_stops_delivering() {
    let mut reg = HerdrPaneRegistry::new();
    let mut k = running(vec![pane("w1:p1", HerdrAgentStatus::Idle)], &mut reg);
    let moved = || Ok(listing(vec![pane("w1:p1", HerdrAgentStatus::Blocked)]));
    let verdict = k.liveness_probe(&moved(), &reg);
    assert_eq!(verdict, Some(Verdict::StatusWedged));
    assert!(
        matches!(k.probed(verdict, true, true), PumpStep::Continue),
        "one probe is not enough"
    );
    match k.probed(verdict, true, true) {
        PumpStep::End(end) => {
            assert_eq!(end, PumpEnd::StatusLost);
            let wait = Wait {
                watcher: Watcher::Status,
                millis: 10,
                storm: false,
            };
            assert_eq!(k.pumped(end, 60), Next::Wait(wait));
            assert_eq!(k.waited(wait, false), Next::Go);
        }
        other => panic!("expected the end, got {other:?}"),
    }
    assert_eq!(
        k.carry_on(false),
        Task::ConnectStatus,
        "the lifecycle connection stays up"
    );
    let events = k.resynced(moved(), &mut reg);
    assert_eq!(events.len(), 1, "the missed transition is reported");
    assert_eq!(events[0].status, AgentStatus::Blocked);
    assert!(events[0].synthetic);
    assert_eq!(events[0].workspace_name.as_deref(), Some("label-w1"));
    assert_eq!(events[0].title.as_deref(), Some("title-w1:p1"));
}

#[test]
fn a_rejected_agent_status_subscription_leaves_the_lifecycle_watcher_up() {
    let mut k = Kernel::new(tuning());
    k.lifecycle_brought(Bring::Ready { opened: 0 });
    let refused = r#"{"id":"x","error":{"code":"pane_not_found"}}"#.to_owned();
    match ack_tick(AckTick::Line(Some(refused))) {
        AckStep::Refused(e) => assert!(e.contains("pane_not_found")),
        other => panic!("expected a refusal, got {other:?}"),
    }
    let wait = Wait {
        watcher: Watcher::Status,
        millis: 10,
        storm: false,
    };
    assert_eq!(k.status_brought(Bring::Failed, 5), Next::Wait(wait));
    assert_eq!(k.waited(wait, false), Next::Go);
    assert_eq!(k.carry_on(false), Task::ConnectStatus, "only one half is retried");
}

#[test]
fn an_unannounced_pane_rebuilds_both_connections() {
    let mut reg = HerdrPaneRegistry::new();
    let mut k = running(vec![pane("w1:p1", HerdrAgentStatus::Idle)], &mut reg);
    let seen = Ok(listing(vec![
        pane("w1:p1", HerdrAgentStatus::Idle),
        pane("w1:p2", HerdrAgentStatus::Idle),
    ]));
    let verdict = k.liveness_probe(&seen, &reg);
    assert_eq!(verdict, Some(Verdict::LifecycleWedged));
    assert!(matches!(k.probed(verdict, true, true), PumpStep::Continue));
    assert!(matches!(
        k.probed(verdict, true, true),
        PumpStep::End(PumpEnd::LifecycleLost)
    ));
    k.pumped(PumpEnd::LifecycleLost, 60);
    assert_eq!(k.carry_on(false), Task::ConnectLifecycle);
    k.lifecycle_brought(Bring::Ready { opened: 70 });
    assert_eq!(k.carry_on(false), Task::ConnectStatus, "a fresh one means both");
}

#[test]
fn a_failed_listing_is_no_verdict_and_no_event() {
    let mut reg = HerdrPaneRegistry::new();
    let mut k = running(vec![pane("w1:p1", HerdrAgentStatus::Idle)], &mut reg);
    assert_eq!(k.liveness_probe(&Err("down".to_owned()), &reg), None);
    assert!(matches!(k.probed(None, true, true), PumpStep::Continue));
    assert!(k.resynced(Err("down".to_owned()), &mut reg).is_empty());
    assert_eq!(
        k.liveness_probe(&Ok(listing(vec![pane("w1:p1", HerdrAgentStatus::Done)])), &reg),
        Some(Verdict::StatusWedged),
        "what was known is still known"
    );
}

#[test]
fn a_delivering_connection_is_not_suspected() {
    let mut reg = HerdrPaneRegistry::new();
    let mut k = running(vec![pane("w1:p1", HerdrAgentStatus::Idle)], &mut reg);
    let step = k.line_tick(Watcher::Status, "{}", &mut reg, 20);
    assert!(matches!(step, PumpStep::Continue));
    match k.pump_tick(Tick::Probe, 30) {
        PumpStep::Probe {
            lifecycle_idle,
            status_idle,
        } => {
            assert!(lifecycle_idle);
            assert!(!status_idle, "it delivered 10 ms ago");
        }
        other => panic!("expected a probe, got {other:?}"),
    }
    for _ in 0..5 {
        assert!(matches!(
            k.probed(Some(Verdict::StatusWedged), true, false),
            PumpStep::Continue
        ));
    }
    k.line_tick(Watcher::Lifecycle, "{}", &mut reg, 30);
    assert!(matches!(k.pump_tick(Tick::Probe, 35), PumpStep::Continue));
}

#[test]
fn statuses_are_published_from_both_connections_and_become_known() {
    let mut reg = HerdrPaneRegistry::new();
    let mut k = running(vec![pane("w1:p1", HerdrAgentStatus::Idle)], &mut reg);
    let ev = status_event(1, AgentStatus::Blocked);
    match k.pump_tick(Tick::Status(Some(Pushed::AgentStatus(ev.clone()))), 1) {
        PumpStep::Publish(got) => assert_eq!(got, ev),
        other => panic!("expected an event, got {other:?}"),
    }
    assert_eq!(
        k.liveness_probe(&Ok(listing(vec![pane("w1:p1", HerdrAgentStatus::Blocked)])), &reg),
        Some(Verdict::Healthy)
    );
    assert!(
        k.resynced(Ok(listing(vec![pane("w1:p1", HerdrAgentStatus::Blocked)])), &mut reg)
            .is_empty(),
        "a pushed status is not reported again"
    );
    let ev = status_event(1, AgentStatus::Working);
    assert!(matches!(
        k.pump_tick(Tick::Lifecycle(Some(Pushed::AgentStatus(ev))), 2),
        PumpStep::Publish(_)
    ));
    assert!(matches!(
        k.pump_tick(Tick::Status(Some(Pushed::PaneCreated(None))), 3),
        PumpStep::Continue
    ));
}

#[test]
fn panes_outside_the_subscription_widen_it_and_gone_panes_leave_it() {
    let mut reg = HerdrPaneRegistry::new();
    let mut k = running(vec![pane("w1:p1", HerdrAgentStatus::Idle)], &mut reg);
    let covered = created_line("w1:p1");
    assert!(matches!(
        k.line_tick(Watcher::Lifecycle, &covered, &mut reg, 1),
        PumpStep::Continue
    ));
    let gone = r#"{"event":"pane.closed","data":{"pane_id":"w1:p1"}}"#;
    assert!(matches!(
        k.line_tick(Watcher::Lifecycle, gone, &mut reg, 2),
        PumpStep::Continue
    ));
    assert!(matches!(
        k.line_tick(Watcher::Lifecycle, &covered, &mut reg, 3),
        PumpStep::End(PumpEnd::Widen)
    ));
    assert!(matches!(
        k.pump_tick(Tick::Lifecycle(Some(Pushed::PaneCreated(None))), 4),
        PumpStep::End(PumpEnd::Widen)
    ));
}

#[test]
fn ends_of_streams_and_shutdown_end_the_pump() {
    let mut reg = HerdrPaneRegistry::new();
    let mut k = running(Vec::new(), &mut reg);
    assert!(matches!(
        k.pump_tick(Tick::Lifecycle(None), 1),
        PumpStep::End(PumpEnd::LifecycleLost)
    ));
    assert!(matches!(
        k.pump_tick(Tick::Status(None), 1),
        PumpStep::End(PumpEnd::StatusLost)
    ));
    assert!(matches!(
        k.pump_tick(Tick::Shutdown, 1),
        PumpStep::End(PumpEnd::Shutdown)
    ));
    assert_eq!(k.pumped(PumpEnd::Shutdown, 1), Next::Stop);
    assert_eq!(k.carry_on(true), Task::Stop);
}

#[test]
fn waits_double_up_to_the_longest_and_start_over_after_a_stable_session() {
    let mut k = Kernel::new(tuning());
    let mut waits = Vec::new();
    for _ in 0..6 {
        match k.lifecycle_brought(Bring::Failed) {
            Next::Wait(w) => {
                assert_eq!(w.watcher, Watcher::Lifecycle);
                waits.push(w.millis);
                assert_eq!(k.waited(w, false), Next::Go);
            }
            other => panic!("expected a wait, got {other:?}"),
        }
    }
    assert_eq!(waits, vec![10, 20, 40, 80, 100, 100]);

    k.lifecycle_brought(Bring::Ready { opened: 1_000 });
    let short = k.status_brought(Bring::LifecycleLost, 1_999);
    let expected = |millis| {
        Next::Wait(Wait {
            watcher: Watcher::Lifecycle,
            millis,
            storm: false,
        })
    };
    assert_eq!(short, expected(100), "the session was not stable");
    k.lifecycle_brought(Bring::Ready { opened: 3_000 });
    let stable = k.status_brought(Bring::LifecycleLost, 4_000);
    assert_eq!(stable, expected(10), "the session was stable");
}

#[test]
fn an_interrupted_wait_stops_the_kernel() {
    let mut k = Kernel::new(tuning());
    if let Next::Wait(w) = k.lifecycle_brought(Bring::Failed) {
        assert_eq!(k.waited(w, true), Next::Stop);
    } else {
        panic!("expected a wait");
    }
    assert_eq!(k.lifecycle_brought(Bring::Shutdown), Next::Stop);
    assert_eq!(k.status_brought(Bring::Shutdown, 0), Next::Stop);
}

#[test]
fn a_storm_slows_only_the_agent_status_watcher() {
    let mut reg = HerdrPaneRegistry::new();
    let mut k = running(Vec::new(), &mut reg);
    for now in [1, 2] {
        assert_eq!(
            k.pumped(PumpEnd::Widen, now),
            Next::Drain {
                millis: 5,
                storm: false
            }
        );
        assert_eq!(k.drain_tick(DrainTick::Line, now), None);
        assert_eq!(k.drain_tick(DrainTick::Elapsed, now), Some(Drain::Done));
        assert_eq!(k.drained(Drain::Done, false, now), Next::Go);
        k.status_brought(Bring::Ready { opened: now }, now);
    }
    assert_eq!(
        k.pumped(PumpEnd::Widen, 3),
        Next::Drain {
            millis: 5,
            storm: true
        }
    );
    let wait = Wait {
        watcher: Watcher::Status,
        millis: 10,
        storm: false,
    };
    assert_eq!(k.drained(Drain::Done, true, 8), Next::Wait(wait));
    assert_eq!(k.waited(wait, false), Next::Go);
    assert_eq!(k.carry_on(false), Task::ConnectStatus);
    assert_eq!(
        k.status_brought(Bring::Failed, 9),
        Next::Wait(Wait {
            watcher: Watcher::Status,
            millis: 20,
            storm: false
        }),
        "the storm made the next wait longer"
    );
}

#[test]
fn a_lifecycle_connection_lost_in_a_storm_waits_twice() {
    let mut reg = HerdrPaneRegistry::new();
    let mut k = running(Vec::new(), &mut reg);
    k.pumped(PumpEnd::Widen, 1);
    assert_eq!(k.drain_tick(DrainTick::Ended, 2), Some(Drain::Lost));
    let first = Wait {
        watcher: Watcher::Lifecycle,
        millis: 10,
        storm: true,
    };
    assert_eq!(k.drained(Drain::Lost, true, 2), Next::Wait(first));
    let second = Wait {
        watcher: Watcher::Status,
        millis: 10,
        storm: false,
    };
    assert_eq!(k.waited(first, false), Next::Wait(second));
    assert_eq!(k.waited(second, false), Next::Go);
    assert_eq!(k.carry_on(false), Task::ConnectLifecycle);
    assert_eq!(k.drain_tick(DrainTick::Shutdown, 3), Some(Drain::Shutdown));
    assert_eq!(k.drained(Drain::Shutdown, false, 3), Next::Stop);
}

#[test]
fn the_default_tuning_is_the_documented_one() {
    let t = Tuning::default();
    assert_eq!(t.initial_backoff, 1_000);
    assert_eq!(t.max_backoff, 60_000);
    assert_eq!(t.stable_threshold, 60_000);
    assert_eq!(t.ack_timeout, 10_000);
    assert_eq!(t.grow_coalesce_window, 250);
    assert_eq!(t.grow_storm_window, 30_000);
    assert_eq!(t.grow_storm_threshold, 8);
    assert_eq!(t.probe_interval, 60_000);
    assert_eq!(t.probe_strikes, 2);
    assert_eq!(Kernel::new(t).timings(), t);
}

#[test]
fn an_acknowledgement_is_awaited_past_other_lines() {
    let ack = r#"{"id":"x","result":{"type":"subscription_started"}}  "#.to_owned();
    assert_eq!(ack_tick(AckTick::Line(Some(ack))), AckStep::Acked);
    assert_eq!(
        ack_tick(AckTick::Line(Some("{\"x\":1}\r".to_owned()))),
        AckStep::Continue
    );
    assert_eq!(ack_tick(AckTick::Line(None)), AckStep::Failed);
    assert_eq!(ack_tick(AckTick::Timeout), AckStep::Failed);
    assert_eq!(ack_tick(AckTick::Shutdown), AckStep::Shutdown);
    assert_eq!(ack_line(true, Some("e".to_owned())), AckStep::Acked);
    assert_eq!(
        ack_line(false, Some("e".to_owned())),
        AckStep::Refused("e".to_owned())
    );
    assert_eq!(ack_line(false, None), AckStep::Continue);
    assert!(lifecycle_request_line().contains("muxrd-events-lifecycle"));
}

fn control() -> HerdrControl {
    HerdrControl::new(
        "/tmp/herdr.sock".to_owned(),
        HerdrPaneRegistry::new(),
        HerdrTabRegistry::new(),
    )
}

fn reply(result: ApiResult) -> Result<ApiResponseBody, String> {
    Ok(ApiResponseBody::Success { printed: format!("{result:?}"), result: Ok(result) })
}

#[test]
fn a_listing_asks_for_every_workspace_in_order() {
    let mut c = control();
    let (l, r) = c.list_all(Purpose::Enumerate);
    assert_eq!(r.method, "workspace.list");
    let workspaces = vec![workspace("w1"), workspace("w2")];
    let (l, r) = match c.list_all_reply(l, reply(ApiResult::WorkspaceList { workspaces })) {
        ListingStep::Ask(l, r) => (l, r),
        other => panic!("expected a request, got {other:?}"),
    };
    assert_eq!(r.method, "pane.list");
    assert!(r.line().contains(r#""workspace_id":"w1""#));
    let panes = vec![pane("w1:p1", HerdrAgentStatus::Idle)];
    let (l, r) = match c.list_all_reply(l, reply(ApiResult::PaneList { panes })) {
        ListingStep::Ask(l, r) => (l, r),
        other => panic!("expected a request, got {other:?}"),
    };
    assert!(r.line().contains(r#""workspace_id":"w2""#));
    let panes = vec![
        pane("w2:p1", HerdrAgentStatus::Done),
        pane("w2:p2", HerdrAgentStatus::Blocked),
    ];
    let all = match c.list_all_reply(l, reply(ApiResult::PaneList { panes })) {
        ListingStep::Finished(Ok(all)) => all,
        other => panic!("expected the listing, got {other:?}"),
    };
    assert_eq!(all.pane_ids(), vec!["w1:p1", "w2:p1", "w2:p2"]);
    let input = all.resync_input();
    assert_eq!(input[2].workspace_id, "w2");
    assert_eq!(input[2].workspace_label, "label-w2");
    assert_eq!(input[2].status, HerdrAgentStatus::Blocked);
    let mut reg = HerdrPaneRegistry::new();
    let id = reg.assign_or_get("w2:p2", "t");
    let seen = all.probe_panes(&reg);
    assert_eq!(seen[2].pane, Some(id));
    assert_eq!(seen[0].pane, None);
    assert_eq!(reg.len(), 1, "a probe registers nothing");
}

#[test]
fn a_listing_without_workspaces_is_empty() {
    let mut c = control();
    let (l, _) = c.list_all(Purpose::Probe);
    match c.list_all_reply(l, reply(ApiResult::WorkspaceList { workspaces: vec![] })) {
        ListingStep::Finished(Ok(all)) => assert!(all.pane_ids().is_empty()),
        other => panic!("expected the listing, got {other:?}"),
    }
}

#[test]
fn a_failed_listing_says_where_it_failed() {
    let mut c = control();
    let (l, _) = c.list_all(Purpose::Resync);
    match c.list_all_reply(l, Err("connect refused".to_owned())) {
        ListingStep::Finished(Err(t)) => {
            assert!(t.starts_with("resync: workspace.list: "), "{t}");
            assert!(t.contains("connect refused"), "{t}");
        }
        other => panic!("expected a failure, got {other:?}"),
    }
    let (l, _) = c.list_all(Purpose::Enumerate);
    let workspaces = vec![workspace("w1")];
    let l = match c.list_all_reply(l, reply(ApiResult::WorkspaceList { workspaces })) {
        ListingStep::Ask(l, _) => l,
        other => panic!("expected a request, got {other:?}"),
    };
    let refused = Ok(ApiResponseBody::Failure {
        error: ApiErrorBody {
            code: "gone".to_owned(),
            message: "no such workspace".to_owned(),
        },
    });
    match c.list_all_reply(l, refused) {
        ListingStep::Finished(Err(t)) => {
            assert!(t.starts_with("enumerate: pane.list for w1: "), "{t}")
        }
        other => panic!("expected a failure, got {other:?}"),
    }
}

/// Everything that comes out of one chunk.
fn feed(reader: &mut LineReader, chunk: &[u8]) -> Vec<LineStep> {
    let mut steps = Vec::new();
    let mut at = 0;
    while at < chunk.len() {
        let (used, step) = reader.next_line(&chunk[at..]);
        at += used;
        if step != LineStep::More {
            steps.push(step);
        }
    }
    steps
}

fn line(text: &str) -> LineStep {
    LineStep::Line(text.to_owned())
}

#[test]
fn reads_newline_delimited_lines() {
    let mut reader = LineReader::new();
    assert_eq!(
        feed(&mut reader, b"first\nsecond\n"),
        vec![line("first"), line("second")]
    );
    assert_eq!(reader.finish(), None, "EOF");
}

#[test]
fn returns_a_final_unterminated_line_before_eof() {
    let mut reader = LineReader::new();
    assert!(feed(&mut reader, b"tail").is_empty());
    assert_eq!(reader.finish(), Some(line("tail")));
    assert_eq!(reader.finish(), None);
}

#[test]
fn read_rejects_oversize_line_without_newline() {
    let mut reader = LineReader::new();
    let chunk = vec![b'x'; MAX_EVENT_LINE_BYTES + 16];
    assert_eq!(
        feed(&mut reader, &chunk),
        vec![LineStep::Failed(LineError::TooLong)]
    );
    assert_eq!(
        feed(&mut reader, b"ok\n"),
        vec![line("ok")],
        "nothing of it is kept"
    );
    assert_eq!(
        LineError::TooLong.message(),
        "herdr event line exceeded size cap without a newline"
    );
}

#[test]
fn partial_lines_survive_cancellation() {
    let mut reader = LineReader::new();
    assert!(feed(&mut reader, b"{\"event\":").is_empty());
    assert_eq!(
        feed(&mut reader, b"\"pane.created\"}\n"),
        vec![line(r#"{"event":"pane.created"}"#)]
    );
}

#[test]
fn chunks_do_not_matter() {
    let stream = "eins\n\nzwölf\nrest".as_bytes();
    let mut whole = LineReader::new();
    let expected = feed(&mut whole, stream);
    assert_eq!(expected, vec![line("eins"), line(""), line("zwölf")]);
    for size in 1..6 {
        let mut reader = LineReader::new();
        let mut got = Vec::new();
        for chunk in stream.chunks(size) {
            got.extend(feed(&mut reader, chunk));
        }
        assert_eq!(got, expected);
        assert_eq!(reader.finish(), Some(line("rest")));
    }
}

#[test]
fn a_line_that_is_not_utf8_is_an_error() {
    let mut reader = LineReader::new();
    let why = String::from_utf8(b"ab\xff\xfe".to_vec()).unwrap_err().to_string();
    assert_eq!(why, "invalid utf-8 sequence of 1 bytes from index 2");
    let out = feed(&mut reader, b"ab\xff\xfe\nfine\n");
    assert_eq!(
        out,
        vec![LineStep::Failed(LineError::NotUtf8(why.clone())), line("fine")]
    );
    match &out[0] {
        LineStep::Failed(e) => assert_eq!(e.message(), why),
        other => panic!("expected an error, got {other:?}"),
    }
}

#[test]
fn an_overlong_line_is_refused_though_it_ends() {
    let mut reader = LineReader::new();
    let mut chunk = vec![b'x'; MAX_EVENT_LINE_BYTES + 100];
    chunk.extend_from_slice(b"\nok\n");
    assert_eq!(
        feed(&mut reader, &chunk),
        vec![LineStep::Failed(LineError::TooLong), line("ok")]
    );

    let mut chunk = vec![b'x'; MAX_EVENT_LINE_BYTES];
    assert!(feed(&mut reader, &chunk).is_empty());
    assert_eq!(
        feed(&mut reader, b"x\n"),
        vec![LineStep::Failed(LineError::TooLong)],
        "one byte too many, in a chunk of its own"
    );

    chunk.push(b'\n');
    let out = feed(&mut reader, &chunk);
    assert!(matches!(&out[..], [LineStep::Line(l)] if l.len() == MAX_EVENT_LINE_BYTES));
}
