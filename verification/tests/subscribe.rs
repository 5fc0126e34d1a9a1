use std::collections::HashMap;

use muxrd::multiplexer::events::AgentStatus;
use muxrd::multiplexer::herdr::api::AgentStatus as HerdrAgentStatus;
use muxrd::multiplexer::herdr::panes::{bootstrap_pane_set, pane_needs_widening, PaneSet};
use muxrd::multiplexer::herdr::pushed::{
    agent_status_request_line, classify_pushed, is_subscription_ack, lifecycle_change,
    lifecycle_request_line, map_status, pane_created_id, pushed_envelope, subscribe_error,
    translate_pane, Pushed, AGENT_STATUS_REQUEST_ID, LIFECYCLE_REQUEST_ID,
    SUBSCRIBE_AGENT_STATUS_TYPE, SUBSCRIBE_PANE_CLOSED_TYPE, SUBSCRIBE_PANE_CREATED_TYPE,
    SUBSCRIBE_PANE_EXITED_TYPE,
};
use muxrd::multiplexer::herdr::registry::HerdrPaneRegistry;
use muxrd::multiplexer::herdr::resync::{
    build_resync_events, watchdog_verdict, ProbePane, ResyncPane, Verdict,
};
use muxrd::multiplexer::herdr::subscribe::{
    next_backoff, record_grow_and_check_storm, GROW_COALESCE_WINDOW_MS, GROW_STORM_THRESHOLD,
    GROW_STORM_WINDOW_MS, INITIAL_BACKOFF_MS, MAX_BACKOFF_MS,
};
use serde_json::Value;

fn pane_set(ids: &[&str]) -> PaneSet {
    PaneSet::of(ids.iter().map(|id| id.to_string()).collect())
}


#[test]
fn parses_agent_status_dot_envelope_including_the_title() {
    let mut panes = HerdrPaneRegistry::new();
    let line = r#"{
        "event": "pane.agent_status_changed",
        "data": {
            "agent": "assistant",
            "agent_status": "blocked",
            "pane_id": "w1:p1",
            "workspace_id": "w1",
            "title": "cargo test",
            "display_agent": "Assistant CLI",
            "state_labels": { "phase": "waiting" }
        }
    }"#;
    match classify_pushed(line, &mut panes) {
        Pushed::AgentStatus(ev) => {
            assert_eq!(ev.status, AgentStatus::Blocked);
            assert_eq!(ev.workspace_id, "w1");
            assert_eq!(
                ev.title.as_deref(),
                Some("cargo test"),
                "0.9.0 carries the title on the push — read it"
            );
            assert!(ev.workspace_name.is_none());
            assert!(!ev.synthetic, "a pushed event is never synthetic");
            assert_eq!(panes.herdr_pane_id(ev.pane).as_deref(), Some("w1:p1"));
        }
        _ => panic!("expected an agent-status event"),
    }
}

#[test]
fn agent_status_without_a_title_stays_none() {
    let mut panes = HerdrPaneRegistry::new();
    let line = r#"{
        "event": "pane.agent_status_changed",
        "data": { "agent_status": "done", "pane_id": "w9:p3", "workspace_id": "w9" }
    }"#;
    match classify_pushed(line, &mut panes) {
        Pushed::AgentStatus(ev) => assert!(ev.title.is_none()),
        _ => panic!("expected an agent-status event"),
    }
}

#[test]
fn parses_agent_status_underscore_event_name_too() {
    let mut panes = HerdrPaneRegistry::new();
    let line = r#"{
        "event": "pane_agent_status_changed",
        "data": { "agent_status": "done", "pane_id": "w9:p3", "workspace_id": "w9" }
    }"#;
    match classify_pushed(line, &mut panes) {
        Pushed::AgentStatus(ev) => {
            assert_eq!(ev.status, AgentStatus::Done);
            assert_eq!(ev.workspace_id, "w9");
        }
        _ => panic!("expected an agent-status event"),
    }
}

#[test]
fn tolerates_unknown_extra_data_fields() {
    let mut panes = HerdrPaneRegistry::new();
    let line = r#"{
        "event": "pane.agent_status_changed",
        "data": {
            "agent_status": "working",
            "pane_id": "w1:p1",
            "workspace_id": "w1",
            "display_agent": "assistant-cli",
            "custom_status": "thinking",
            "future_field": 42
        }
    }"#;
    match classify_pushed(line, &mut panes) {
        Pushed::AgentStatus(ev) => assert_eq!(ev.status, AgentStatus::Working),
        _ => panic!("unknown fields must be ignored, not fail the parse"),
    }
}

#[test]
fn classifies_pane_created_underscore_form() {
    let mut panes = HerdrPaneRegistry::new();
    let line = r#"{
        "event": "pane_created",
        "data": {
            "type": "pane_created",
            "pane": { "pane_id": "w1:p2", "terminal_id": "t2", "workspace_id": "w1" }
        }
    }"#;
    match classify_pushed(line, &mut panes) {
        Pushed::PaneCreated(id) => assert_eq!(id.as_deref(), Some("w1:p2")),
        _ => panic!("expected PaneCreated"),
    }
}

#[test]
fn classifies_pane_created_dot_form_too() {
    let mut panes = HerdrPaneRegistry::new();
    let line = r#"{"event":"pane.created","data":{}}"#;
    match classify_pushed(line, &mut panes) {
        Pushed::PaneCreated(id) => assert!(id.is_none()),
        _ => panic!("expected PaneCreated"),
    }
}

#[test]
fn pane_created_id_accepts_top_level_pane_id_too() {
    let top = pushed_envelope(r#"{"event":"pane.created","data":{"pane_id":"w2:p7"}}"#);
    assert_eq!(pane_created_id(&top).as_deref(), Some("w2:p7"));
    let nested = pushed_envelope(r#"{"event":"pane.created","data":{"pane":{"pane_id":"w3:p1"}}}"#);
    assert_eq!(pane_created_id(&nested).as_deref(), Some("w3:p1"));
    assert!(pane_created_id(&pushed_envelope(r#"{"event":"pane.created","data":{}}"#)).is_none());
    assert!(pane_created_id(&pushed_envelope(r#"{"event":"pane.created"}"#)).is_none());
}

#[test]
fn pane_created_for_an_already_subscribed_pane_does_not_widen() {
    let subscribed = pane_set(&["w1:p1", "w1:p2"]);
    assert!(!pane_needs_widening(Some("w1:p1"), &subscribed));
}

#[test]
fn pane_created_outside_the_subscribed_set_widens() {
    let subscribed = pane_set(&["w1:p1"]);
    assert!(pane_needs_widening(Some("w1:p2"), &subscribed));
}

#[test]
fn pane_created_with_no_id_widens() {
    let subscribed = pane_set(&["w1:p1"]);
    assert!(pane_needs_widening(None, &subscribed));
}

#[test]
fn an_empty_subscription_set_widens_for_the_first_pane() {
    assert!(pane_needs_widening(Some("w1:p1"), &PaneSet::new()));
}

fn created_line(pane_id: &str) -> String {
    format!(
        r#"{{"event":"pane_created","data":{{"type":"pane_created","pane":{{"pane_id":"{pane_id}","terminal_id":"t","workspace_id":"w1"}}}}}}"#
    )
}

fn closed_line(pane_id: &str) -> String {
    format!(
        r#"{{"event":"pane_closed","data":{{"type":"pane_closed","pane_id":"{pane_id}","workspace_id":"w1"}}}}"#
    )
}

#[test]
fn a_pane_created_during_the_enumeration_still_gets_subscribed() {
    let enumerated = vec!["w1:p1".to_string()];
    let buffered = vec![created_line("w1:p2")];
    let set = bootstrap_pane_set(enumerated, &buffered);
    assert_eq!(set, vec!["w1:p1".to_string(), "w1:p2".to_string()]);
    let line = agent_status_request_line(&set);
    let value: Value = serde_json::from_str(line.trim_end()).expect("valid JSON");
    let subs = value["params"]["subscriptions"].as_array().expect("array");
    assert_eq!(subs.len(), 2);
    assert_eq!(subs[1]["type"], SUBSCRIBE_AGENT_STATUS_TYPE);
    assert_eq!(subs[1]["pane_id"], "w1:p2");
}

#[test]
fn a_pane_closed_during_the_enumeration_is_dropped_from_the_set() {
    let enumerated = vec!["w1:p1".to_string(), "w1:p2".to_string()];
    let buffered = vec![closed_line("w1:p2")];
    assert_eq!(
        bootstrap_pane_set(enumerated, &buffered),
        vec!["w1:p1".to_string()]
    );
}

#[test]
fn bootstrap_set_ignores_duplicates_and_unrelated_lines() {
    let enumerated = vec!["w1:p1".to_string()];
    let buffered = vec![
        created_line("w1:p1"),
        created_line("w1:p2"),
        created_line("w1:p2"),
        r#"{"event":"workspace.focused","data":{"workspace_id":"w1"}}"#.to_string(),
        "not json".to_string(),
    ];
    assert_eq!(
        bootstrap_pane_set(enumerated, &buffered),
        vec!["w1:p1".to_string(), "w1:p2".to_string()]
    );
}

#[test]
fn a_pane_created_then_closed_inside_the_window_is_not_subscribed() {
    let buffered = vec![created_line("w1:p9"), closed_line("w1:p9")];
    assert!(bootstrap_pane_set(vec![], &buffered).is_empty());
}

#[test]
fn classifies_pane_closed_to_both_id_forms() {
    let mut panes = HerdrPaneRegistry::new();
    let id = panes.assign_or_get("w1:p1", "t1");
    let line = closed_line("w1:p1");
    match classify_pushed(&line, &mut panes) {
        Pushed::PaneGone {
            herdr_pane_id,
            pane,
        } => {
            assert_eq!(herdr_pane_id.as_deref(), Some("w1:p1"));
            assert_eq!(pane, Some(id));
        }
        _ => panic!("expected PaneGone"),
    }
}

#[test]
fn classifies_pane_exited_nested_pane_id() {
    let mut panes = HerdrPaneRegistry::new();
    let id = panes.assign_or_get("w1:p5", "t5");
    let line = r#"{"event":"pane_exited","data":{"pane":{"pane_id":"w1:p5"}}}"#;
    match classify_pushed(line, &mut panes) {
        Pushed::PaneGone { pane, .. } => assert_eq!(pane, Some(id)),
        _ => panic!("expected PaneGone"),
    }
}

#[test]
fn pane_closed_for_an_untracked_pane_still_yields_its_herdr_id() {
    let mut panes = HerdrPaneRegistry::new();
    let line = r#"{"event":"pane.closed","data":{"pane_id":"never-seen"}}"#;
    match classify_pushed(line, &mut panes) {
        Pushed::PaneGone {
            herdr_pane_id,
            pane,
        } => {
            assert_eq!(herdr_pane_id.as_deref(), Some("never-seen"));
            assert_eq!(pane, None);
        }
        _ => panic!("expected PaneGone"),
    }
}

#[test]
fn pane_closed_with_no_id_is_ignored() {
    let mut panes = HerdrPaneRegistry::new();
    let line = r#"{"event":"pane.closed","data":{}}"#;
    assert!(matches!(classify_pushed(line, &mut panes), Pushed::Ignored));
}

#[test]
fn subscription_ack_is_recognised_and_not_a_pushed_event() {
    let ack = r#"{"id":"muxrd-events-lifecycle","result":{"type":"subscription_started"}}"#;
    assert!(is_subscription_ack(ack));
    let mut panes = HerdrPaneRegistry::new();
    assert!(matches!(classify_pushed(ack, &mut panes), Pushed::Ignored));
}

#[test]
fn non_ack_response_is_not_an_ack() {
    assert!(!is_subscription_ack(r#"{"id":"x","result":{"type":"ok"}}"#));
    assert!(!is_subscription_ack(r#"{"id":"x","error":{"code":"bad"}}"#));
    assert!(!is_subscription_ack("not json"));
}

#[test]
fn subscribe_error_extracts_error_body() {
    let line = r#"{"id":"x","error":{"code":"invalid_request","message":"missing field 'subscriptions'"}}"#;
    let err = subscribe_error(line).expect("error present");
    assert!(err.contains("invalid_request"));
    assert!(subscribe_error(r#"{"id":"x","result":{"type":"ok"}}"#).is_none());
}

#[test]
fn ignores_unknown_event_type() {
    let mut panes = HerdrPaneRegistry::new();
    let line = r#"{"event":"workspace.focused","data":{"workspace_id":"w1"}}"#;
    assert!(matches!(classify_pushed(line, &mut panes), Pushed::Ignored));
    assert!(lifecycle_change(line).is_none());
}

#[test]
fn ignores_malformed_and_empty_lines() {
    let mut panes = HerdrPaneRegistry::new();
    assert!(matches!(classify_pushed("", &mut panes), Pushed::Ignored));
    assert!(matches!(
        classify_pushed("not json at all", &mut panes),
        Pushed::Ignored
    ));
    assert!(matches!(
        classify_pushed("{ broken", &mut panes),
        Pushed::Ignored
    ));
    assert!(matches!(
        classify_pushed(
            r#"{"event":"pane.agent_status_changed","data":{"pane_id":"p","agent_status":"idle"}}"#,
            &mut panes
        ),
        Pushed::Ignored
    ));
}

#[test]
fn push_does_not_clobber_existing_terminal_id() {
    let mut panes = HerdrPaneRegistry::new();
    let id = panes.assign_or_get("w1:p1", "term-real");
    let line = r#"{
        "event": "pane.agent_status_changed",
        "data": { "pane_id": "w1:p1", "workspace_id": "w1", "agent_status": "blocked" }
    }"#;
    match classify_pushed(line, &mut panes) {
        Pushed::AgentStatus(ev) => {
            assert_eq!(ev.pane, id, "same pane must resolve to the same neutral id");
            assert_eq!(
                panes.terminal_id(id).as_deref(),
                Some("term-real"),
                "the live relay terminal_id must NOT be clobbered by the event"
            );
        }
        _ => panic!("expected an agent-status event"),
    }
}

#[test]
fn translate_assigns_new_pane_from_event_terminal_id() {
    let mut panes = HerdrPaneRegistry::new();
    assert_eq!(translate_pane(&mut panes, "pane-new", Some("term-new")), 1);
    assert_eq!(panes.terminal_id(1).as_deref(), Some("term-new"));
    let id2 = translate_pane(&mut panes, "pane-none", None);
    assert_eq!(id2, 2);
}

#[test]
fn maps_every_agent_status() {
    assert_eq!(map_status(HerdrAgentStatus::Idle), AgentStatus::Idle);
    assert_eq!(map_status(HerdrAgentStatus::Working), AgentStatus::Working);
    assert_eq!(map_status(HerdrAgentStatus::Blocked), AgentStatus::Blocked);
    assert_eq!(map_status(HerdrAgentStatus::Done), AgentStatus::Done);
    assert_eq!(map_status(HerdrAgentStatus::Unknown), AgentStatus::Unknown);
}

#[test]
fn lifecycle_request_is_three_bare_entries_and_never_carries_a_pane_id() {
    let line = lifecycle_request_line();
    assert!(line.ends_with('\n'), "request must be newline-terminated");
    let value: Value = serde_json::from_str(line.trim_end()).expect("valid JSON");
    assert_eq!(value["method"], "events.subscribe");
    assert_eq!(value["id"], LIFECYCLE_REQUEST_ID);
    let subs = value["params"]["subscriptions"]
        .as_array()
        .expect("params.subscriptions must be an array");
    assert_eq!(subs.len(), 3);
    assert_eq!(subs[0]["type"], SUBSCRIBE_PANE_CREATED_TYPE);
    assert_eq!(subs[1]["type"], SUBSCRIBE_PANE_CLOSED_TYPE);
    assert_eq!(
        subs[2]["type"], SUBSCRIBE_PANE_EXITED_TYPE,
        "a pane whose program ended is announced too"
    );
    assert!(
        subs.iter().all(|s| s.get("pane_id").is_none()),
        "every lifecycle entry is bare — that is why A never widens"
    );
}

#[test]
fn agent_status_request_carries_one_explicit_pane_id_per_pane() {
    let pane_ids = vec!["w1:p1".to_string(), "w1:p2".to_string()];
    let line = agent_status_request_line(&pane_ids);
    assert!(line.ends_with('\n'), "request must be newline-terminated");
    let value: Value = serde_json::from_str(line.trim_end()).expect("valid JSON");
    assert_eq!(value["method"], "events.subscribe");
    assert_eq!(value["id"], AGENT_STATUS_REQUEST_ID);
    let subs = value["params"]["subscriptions"].as_array().expect("array");
    assert_eq!(subs.len(), 2, "one entry per pane — no wildcard exists");
    assert_eq!(subs[0]["type"], SUBSCRIBE_AGENT_STATUS_TYPE);
    assert_eq!(subs[0]["pane_id"], "w1:p1");
    assert_eq!(subs[1]["pane_id"], "w1:p2");
    assert_eq!(SUBSCRIBE_AGENT_STATUS_TYPE, "pane.agent_status_changed");
}

#[test]
fn agent_status_request_with_no_panes_is_empty_not_lifecycle_bearing() {
    let line = agent_status_request_line(&Vec::new());
    let value: Value = serde_json::from_str(line.trim_end()).expect("valid JSON");
    assert!(
        value["params"]["subscriptions"]
            .as_array()
            .expect("array")
            .is_empty()
    );
}

fn resync_pane(pane_id: &str, status: HerdrAgentStatus) -> ResyncPane {
    ResyncPane {
        herdr_pane_id: pane_id.to_string(),
        terminal_id: format!("term-{pane_id}"),
        workspace_id: "w1".to_string(),
        workspace_label: "main".to_string(),
        title: None,
        status,
    }
}

#[test]
fn fresh_start_emits_each_blocked_pane_once() {
    let mut reg = HerdrPaneRegistry::new();
    let mut last = HashMap::new();
    let input = vec![
        resync_pane("w1:p1", HerdrAgentStatus::Blocked),
        resync_pane("w1:p2", HerdrAgentStatus::Done),
        resync_pane("w1:p3", HerdrAgentStatus::Idle),
    ];
    let events = build_resync_events(&input, &mut reg, &mut last);
    assert_eq!(events.len(), 2, "only blocked + done emit");
    assert!(events.iter().all(|e| e.synthetic));
    let again = build_resync_events(&input, &mut reg, &mut last);
    assert!(again.is_empty(), "unchanged state must not re-emit");
}

#[test]
fn changed_status_re_emits_but_unchanged_does_not() {
    let mut reg = HerdrPaneRegistry::new();
    let mut last = HashMap::new();
    let first = build_resync_events(
        &vec![resync_pane("w1:p1", HerdrAgentStatus::Blocked)],
        &mut reg,
        &mut last,
    );
    assert_eq!(first.len(), 1);
    let idle = build_resync_events(
        &vec![resync_pane("w1:p1", HerdrAgentStatus::Idle)],
        &mut reg,
        &mut last,
    );
    assert!(idle.is_empty());
    let reblocked = build_resync_events(
        &vec![resync_pane("w1:p1", HerdrAgentStatus::Blocked)],
        &mut reg,
        &mut last,
    );
    assert_eq!(reblocked.len(), 1, "idle→blocked is a real transition");
}

#[test]
fn a_live_push_suppresses_the_next_resync_for_the_same_status() {
    let mut reg = HerdrPaneRegistry::new();
    let mut last = HashMap::new();
    let id = reg.assign_or_get("w1:p1", "t1");
    last.insert(id, AgentStatus::Blocked);
    let events = build_resync_events(
        &vec![resync_pane("w1:p1", HerdrAgentStatus::Blocked)],
        &mut reg,
        &mut last,
    );
    assert!(events.is_empty(), "push already reported this block");
}

#[test]
fn disappeared_panes_are_pruned_from_tracking() {
    let mut reg = HerdrPaneRegistry::new();
    let mut last = HashMap::new();
    build_resync_events(
        &vec![resync_pane("w1:p1", HerdrAgentStatus::Blocked),
            resync_pane("w1:p2", HerdrAgentStatus::Blocked)],
        &mut reg,
        &mut last,
    );
    assert_eq!(last.len(), 2);
    build_resync_events(
        &vec![resync_pane("w1:p1", HerdrAgentStatus::Blocked)],
        &mut reg,
        &mut last,
    );
    assert_eq!(last.len(), 1, "p2 tracking pruned");
    let p1 = reg.id_for_herdr_pane("w1:p1").unwrap();
    assert!(last.contains_key(&p1));
}

fn probe_pane(herdr_pane_id: &str, pane: Option<u32>, status: AgentStatus) -> ProbePane {
    ProbePane {
        herdr_pane_id: herdr_pane_id.to_string(),
        pane,
        status,
    }
}

#[test]
fn a_quiet_system_is_healthy_and_never_churns() {
    let subscribed = pane_set(&["w1:p1"]);
    let mut last = HashMap::new();
    last.insert(1, AgentStatus::Idle);
    let observed = vec![probe_pane("w1:p1", Some(1), AgentStatus::Idle)];
    assert_eq!(
        watchdog_verdict(&observed, &subscribed, &last),
        Verdict::Healthy
    );
    for _ in 0..100 {
        assert_eq!(
            watchdog_verdict(&observed, &subscribed, &last),
            Verdict::Healthy
        );
    }
}

#[test]
fn a_status_that_moved_without_a_push_is_status_wedged() {
    let subscribed = pane_set(&["w1:p1"]);
    let mut last = HashMap::new();
    last.insert(1, AgentStatus::Working);
    let observed = vec![probe_pane("w1:p1", Some(1), AgentStatus::Blocked)];
    assert_eq!(
        watchdog_verdict(&observed, &subscribed, &last),
        Verdict::StatusWedged
    );
}

#[test]
fn a_pane_the_lifecycle_watcher_never_announced_is_lifecycle_wedged() {
    let subscribed = pane_set(&["w1:p1"]);
    let mut last = HashMap::new();
    last.insert(1, AgentStatus::Idle);
    let observed = vec![
        probe_pane("w1:p1", Some(1), AgentStatus::Idle),
        probe_pane("w1:p2", None, AgentStatus::Blocked),
    ];
    assert_eq!(
        watchdog_verdict(&observed, &subscribed, &last),
        Verdict::LifecycleWedged,
        "an unannounced pane outranks a status divergence: rebuilding A rebuilds B"
    );
}

#[test]
fn a_pane_with_no_last_known_status_is_not_evidence() {
    let subscribed = pane_set(&["w1:p1"]);
    let observed = vec![probe_pane("w1:p1", Some(1), AgentStatus::Blocked)];
    assert_eq!(
        watchdog_verdict(&observed, &subscribed, &HashMap::new()),
        Verdict::Healthy
    );
}

#[test]
fn a_vanished_pane_is_not_evidence() {
    let subscribed = pane_set(&["w1:p1", "w1:p2"]);
    let mut last = HashMap::new();
    last.insert(1, AgentStatus::Idle);
    let observed = vec![probe_pane("w1:p1", Some(1), AgentStatus::Idle)];
    assert_eq!(
        watchdog_verdict(&observed, &subscribed, &last),
        Verdict::Healthy
    );
}

#[test]
fn backoff_doubles_then_caps_at_sixty() {
    let mut seq = Vec::new();
    let mut b = INITIAL_BACKOFF_MS;
    for _ in 0..8 {
        seq.push(b / 1_000);
        b = next_backoff(b, MAX_BACKOFF_MS);
    }
    assert_eq!(seq, vec![1, 2, 4, 8, 16, 32, 60, 60]);
}

#[test]
fn backoff_never_exceeds_cap() {
    let mut b = MAX_BACKOFF_MS;
    for _ in 0..5 {
        b = next_backoff(b, MAX_BACKOFF_MS);
        assert_eq!(b, MAX_BACKOFF_MS);
    }
}

fn record(history: &mut Vec<u64>, now: u64) -> bool {
    record_grow_and_check_storm(history, now, GROW_STORM_WINDOW_MS, GROW_STORM_THRESHOLD)
}

#[test]
fn below_threshold_widenings_stay_fast() {
    let mut history = Vec::new();
    let base: u64 = 1_000_000;
    for i in 0..GROW_STORM_THRESHOLD {
        let now = base + i as u64 * 10;
        assert!(
            !record(&mut history, now),
            "widening #{i} should stay under threshold"
        );
    }
}

#[test]
fn a_coalesced_burst_of_pane_creations_cannot_trip_the_breaker() {
    let mut history = Vec::new();
    let base: u64 = 1_000_000;
    for i in 0..6 {
        let now = base + GROW_COALESCE_WINDOW_MS * (i + 1);
        assert!(
            !record(&mut history, now),
            "six coalesced bursts must not look like a fault"
        );
    }
}

#[test]
fn storm_engages_breaker() {
    let mut history = Vec::new();
    let base: u64 = 1_000_000;
    for i in 0..GROW_STORM_THRESHOLD {
        let now = base + i as u64 * 10;
        assert!(!record(&mut history, now));
    }
    let tripped = base + (GROW_STORM_THRESHOLD as u64 * 10 + 10);
    assert!(record(&mut history, tripped));
    let still_storming = tripped + 10;
    assert!(record(&mut history, still_storming));
}

#[test]
fn breaker_disengages_after_quiet_window() {
    let mut history = Vec::new();
    let base: u64 = 1_000_000;
    for i in 0..=GROW_STORM_THRESHOLD {
        let now = base + i as u64 * 10;
        record(&mut history, now);
    }
    let storming_at = base + GROW_STORM_THRESHOLD as u64 * 10;
    assert!(
        record(&mut history, storming_at + (1)),
        "sanity: breaker is engaged right before the quiet window"
    );
    let quiet = storming_at + GROW_STORM_WINDOW_MS + 1;
    assert!(
        !record(&mut history, quiet),
        "breaker must disengage once the window clears"
    );
}
