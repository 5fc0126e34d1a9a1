use std::sync::Mutex;

use muxrd::multiplexer::events::{AgentStatus, AgentStatusChanged, LayoutChanged, MuxEvent};
use muxrd::notify::devices::{PushDevice, PushDeviceStore, MIN_HANDLE_LEN};
use muxrd::notify::sender::{
    build_content, fan_out, handle_event, notifier_step, notify_url, send_outcome, trigger_kind,
    Debouncer, Fanout, FanoutStep, Heard, NotifierStep, NotifyContent, RelayTransport,
    SendOutcome, TriggerKind, DEBOUNCE_WINDOW_MS, RETRY_DELAY_MS,
};

/// Records every send and answers from a list, repeating its last entry.
struct MockTransport {
    outcomes: Vec<SendOutcome>,
    calls: Mutex<Vec<(String, NotifyContent)>>,
    pauses: Mutex<Vec<u64>>,
}

impl MockTransport {
    fn new(outcome: SendOutcome) -> Self {
        Self::answering(vec![outcome])
    }

    fn answering(outcomes: Vec<SendOutcome>) -> Self {
        Self {
            outcomes,
            calls: Mutex::new(Vec::new()),
            pauses: Mutex::new(Vec::new()),
        }
    }

    fn handles(&self) -> Vec<String> {
        self.calls
            .lock()
            .unwrap()
            .iter()
            .map(|(h, _)| h.clone())
            .collect()
    }
}

impl RelayTransport for MockTransport {
    fn send(&self, handle: &str, content: &NotifyContent) -> SendOutcome {
        let mut calls = self.calls.lock().unwrap();
        calls.push((handle.to_owned(), content.clone()));
        let i = (calls.len() - 1).min(self.outcomes.len() - 1);
        self.outcomes[i]
    }

    fn pause(&self, millis: u64) {
        self.pauses.lock().unwrap().push(millis);
    }
}

fn ev(status: AgentStatus, synthetic: bool) -> AgentStatusChanged {
    AgentStatusChanged {
        pane: 7,
        workspace_id: "ws-9".into(),
        workspace_name: Some("main".into()),
        status,
        title: Some("assistant".into()),
        synthetic,
    }
}

fn device(name: &str, handle_char: char) -> PushDevice {
    PushDevice {
        device_name: name.to_owned(),
        push_handle: handle_char.to_string().repeat(MIN_HANDLE_LEN),
        platform: "android".to_owned(),
        registered_at: 1_700_000_000,
    }
}

/// One event through decision, fan-out and pruning.
fn deliver(
    event: &AgentStatusChanged,
    debouncer: &mut Debouncer,
    store: &mut PushDeviceStore,
    transport: &MockTransport,
    now: u64,
) {
    if let Some(fanout) = handle_event(event, "normal", debouncer, store.list(), now) {
        let handles = fanout.handles.clone();
        for place in fan_out(transport, fanout) {
            store.remove_by_handle(&handles[place]);
        }
    }
}

#[test]
fn debounce_suppresses_repeat_within_window() {
    let mut d = Debouncer::new(DEBOUNCE_WINDOW_MS);
    let t0 = 1_000;
    assert!(d.should_send(1, TriggerKind::Blocked, t0), "first send");
    assert!(
        !d.should_send(1, TriggerKind::Blocked, t0),
        "immediate repeat suppressed"
    );
}

#[test]
fn debounce_does_not_suppress_transition_to_other_kind() {
    let mut d = Debouncer::new(DEBOUNCE_WINDOW_MS);
    let t0 = 1_000;
    assert!(d.should_send(1, TriggerKind::Blocked, t0));
    assert!(
        d.should_send(1, TriggerKind::Done, t0),
        "a Done after a recent Blocked is a different key — not suppressed"
    );
}

#[test]
fn debounce_expires_after_window() {
    let mut d = Debouncer::new(DEBOUNCE_WINDOW_MS);
    let t0 = 1_000;
    assert!(d.should_send(1, TriggerKind::Blocked, t0));
    let later = t0 + DEBOUNCE_WINDOW_MS + 1_000;
    assert!(
        d.should_send(1, TriggerKind::Blocked, later),
        "after the window the same trigger sends again"
    );
}

#[test]
fn debounce_ends_exactly_at_the_window_and_keeps_panes_apart() {
    let mut d = Debouncer::new(DEBOUNCE_WINDOW_MS);
    assert!(d.should_send(1, TriggerKind::Blocked, 0));
    assert!(d.should_send(2, TriggerKind::Blocked, 0), "another pane");
    assert!(!d.should_send(1, TriggerKind::Blocked, 29_999));
    assert!(d.should_send(1, TriggerKind::Blocked, 30_000));
}

#[test]
fn payload_normal_blocked_uses_workspace_name() {
    let c = build_content(&ev(AgentStatus::Blocked, false), "normal").unwrap();
    assert_eq!(c.kind, "agent_blocked");
    assert_eq!(c.title.as_deref(), Some("Muxr"));
    assert_eq!(c.body.as_deref(), Some("Agent blocked in main"));
}

#[test]
fn payload_normal_done_uses_finished_verb() {
    let c = build_content(&ev(AgentStatus::Done, false), "normal").unwrap();
    assert_eq!(c.kind, "agent_done");
    assert_eq!(c.body.as_deref(), Some("Agent finished in main"));
}

#[test]
fn payload_normal_falls_back_to_workspace_id_when_no_name() {
    let mut e = ev(AgentStatus::Blocked, false);
    e.workspace_name = None;
    let c = build_content(&e, "normal").unwrap();
    assert_eq!(c.body.as_deref(), Some("Agent blocked in ws-9"));
}

#[test]
fn payload_falls_back_to_workspace_id_when_the_name_is_empty() {
    let mut e = ev(AgentStatus::Done, false);
    e.workspace_name = Some(String::new());
    let c = build_content(&e, "normal").unwrap();
    assert_eq!(c.body.as_deref(), Some("Agent finished in ws-9"));
}

#[test]
fn payload_generic_is_fixed_text_but_keeps_kind() {
    let c = build_content(&ev(AgentStatus::Blocked, false), "generic").unwrap();
    assert_eq!(c.kind, "agent_blocked", "kind is still actionable");
    assert_eq!(
        c.body.as_deref(),
        Some("Attention needed"),
        "generic body never leaks the workspace label"
    );
}

#[test]
fn payload_never_carries_the_title() {
    let mut other = ev(AgentStatus::Blocked, false);
    other.title = Some("rm -rf".into());
    assert_eq!(
        build_content(&ev(AgentStatus::Blocked, false), "normal"),
        build_content(&other, "normal")
    );
}

#[test]
fn non_trigger_status_builds_nothing() {
    assert!(build_content(&ev(AgentStatus::Working, false), "normal").is_none());
    assert!(build_content(&ev(AgentStatus::Idle, false), "normal").is_none());
}

#[test]
fn only_blocked_and_done_trigger() {
    assert_eq!(trigger_kind(AgentStatus::Blocked), Some(TriggerKind::Blocked));
    assert_eq!(trigger_kind(AgentStatus::Done), Some(TriggerKind::Done));
    assert_eq!(trigger_kind(AgentStatus::Unknown), None);
    assert_eq!(TriggerKind::Blocked.wire(), "agent_blocked");
    assert_eq!(TriggerKind::Done.wire(), "agent_done");
}

#[test]
fn synthetic_done_is_skipped_but_synthetic_blocked_is_sent() {
    assert!(
        build_content(&ev(AgentStatus::Done, true), "normal").is_none(),
        "synthetic Done must not replay a finished notification"
    );
    assert!(
        build_content(&ev(AgentStatus::Blocked, true), "normal").is_some(),
        "synthetic Blocked still needs the user"
    );
}

#[test]
fn zero_devices_short_circuits_before_any_send() {
    let mut store = PushDeviceStore::new();
    let transport = MockTransport::new(SendOutcome::Delivered);
    let mut d = Debouncer::new(DEBOUNCE_WINDOW_MS);

    deliver(&ev(AgentStatus::Blocked, false), &mut d, &mut store, &transport, 0);

    assert!(
        transport.handles().is_empty(),
        "an empty registry must produce zero outbound sends"
    );
    store.upsert(device("late", 'a'));
    deliver(&ev(AgentStatus::Blocked, false), &mut d, &mut store, &transport, 1);
    assert_eq!(
        transport.handles().len(),
        1,
        "what went to nobody does not count as sent"
    );
}

#[test]
fn happy_path_sends_to_every_device() {
    let mut store = PushDeviceStore::new();
    store.upsert(device("phone-a", 'a'));
    store.upsert(device("phone-b", 'b'));

    let transport = MockTransport::new(SendOutcome::Delivered);
    let mut d = Debouncer::new(DEBOUNCE_WINDOW_MS);

    deliver(&ev(AgentStatus::Blocked, false), &mut d, &mut store, &transport, 0);

    assert_eq!(transport.handles().len(), 2, "both devices notified");
    assert_eq!(store.count(), 2, "no pruning on 204");
}

#[test]
fn gone_response_prunes_the_device() {
    let mut store = PushDeviceStore::new();
    store.upsert(device("phone-a", 'a'));

    let transport = MockTransport::new(SendOutcome::Gone);
    let mut d = Debouncer::new(DEBOUNCE_WINDOW_MS);

    deliver(&ev(AgentStatus::Blocked, false), &mut d, &mut store, &transport, 0);

    assert_eq!(transport.handles().len(), 1, "one send attempted");
    assert_eq!(
        store.count(),
        0,
        "a 404/410 must prune the device from the registry"
    );
}

#[test]
fn debounce_suppresses_second_event_end_to_end() {
    let mut store = PushDeviceStore::new();
    store.upsert(device("phone-a", 'a'));

    let transport = MockTransport::new(SendOutcome::Delivered);
    let mut d = Debouncer::new(DEBOUNCE_WINDOW_MS);

    let e = ev(AgentStatus::Blocked, false);
    deliver(&e, &mut d, &mut store, &transport, 0);
    deliver(&e, &mut d, &mut store, &transport, 5);

    assert_eq!(
        transport.handles().len(),
        1,
        "the second identical event within the window is debounced"
    );
}

#[test]
fn a_passing_failure_is_retried_once_and_only_that() {
    let mut store = PushDeviceStore::new();
    store.upsert(device("phone-a", 'a'));
    store.upsert(device("phone-b", 'b'));
    store.upsert(device("phone-c", 'c'));
    let transport = MockTransport::answering(vec![
        SendOutcome::Transient,
        SendOutcome::Gone,
        SendOutcome::RateLimited,
        SendOutcome::Transient,
        SendOutcome::Transient,
    ]);
    let mut d = Debouncer::new(DEBOUNCE_WINDOW_MS);

    deliver(&ev(AgentStatus::Done, false), &mut d, &mut store, &transport, 0);

    let a = "a".repeat(MIN_HANDLE_LEN);
    let b = "b".repeat(MIN_HANDLE_LEN);
    let c = "c".repeat(MIN_HANDLE_LEN);
    assert_eq!(transport.handles(), vec![a.clone(), a, b, c.clone(), c]);
    assert_eq!(
        *transport.pauses.lock().unwrap(),
        vec![RETRY_DELAY_MS, RETRY_DELAY_MS]
    );
    assert_eq!(store.count(), 2, "only the device that is gone is pruned");
}

#[test]
fn the_fanout_passes_the_turn_on() {
    let mut f = Fanout {
        content: build_content(&ev(AgentStatus::Blocked, false), "normal").unwrap(),
        handles: vec!["h0".to_owned(), "h1".to_owned()],
        next: 0,
        retried: false,
    };
    assert_eq!(f.start(), FanoutStep::Post(0));
    assert_eq!(
        f.posted(SendOutcome::Transient),
        (FanoutStep::Retry(0), None)
    );
    assert_eq!(
        f.posted(SendOutcome::Transient),
        (FanoutStep::Post(1), None)
    );
    assert_eq!(
        f.posted(SendOutcome::Gone),
        (FanoutStep::Finished, Some(1))
    );
}

#[test]
fn replies_of_the_relay_are_told_apart() {
    assert_eq!(send_outcome(Some(204)), SendOutcome::Delivered);
    assert_eq!(send_outcome(Some(404)), SendOutcome::Gone);
    assert_eq!(send_outcome(Some(410)), SendOutcome::Gone);
    assert_eq!(send_outcome(Some(429)), SendOutcome::RateLimited);
    assert_eq!(send_outcome(Some(200)), SendOutcome::Transient);
    assert_eq!(send_outcome(Some(503)), SendOutcome::Transient);
    assert_eq!(send_outcome(None), SendOutcome::Transient);
}

#[test]
fn the_endpoint_follows_the_relay_address() {
    assert_eq!(notify_url("https://r.example"), "https://r.example/v1/notify");
    assert_eq!(
        notify_url("https://r.example///"),
        "https://r.example/v1/notify"
    );
    assert_eq!(notify_url(""), "/v1/notify");
}

#[test]
fn the_notifier_survives_lag_and_ends_when_told() {
    let e = ev(AgentStatus::Blocked, false);
    match notifier_step(Heard::Event(MuxEvent::AgentStatusChanged(e.clone()))) {
        NotifierStep::Handle(got) => assert_eq!(got, e),
        other => panic!("expected the event, got {other:?}"),
    }
    let layout = MuxEvent::LayoutChanged(LayoutChanged {
        workspace_id: "ws".into(),
        tab: 1,
    });
    assert!(matches!(
        notifier_step(Heard::Event(layout)),
        NotifierStep::Continue
    ));
    assert!(matches!(
        notifier_step(Heard::Lagged(3)),
        NotifierStep::Continue
    ));
    assert!(matches!(notifier_step(Heard::Closed), NotifierStep::Stop));
    assert!(matches!(
        notifier_step(Heard::Shutdown(Some(false))),
        NotifierStep::Continue
    ));
    assert!(matches!(
        notifier_step(Heard::Shutdown(Some(true))),
        NotifierStep::Stop
    ));
    assert!(matches!(
        notifier_step(Heard::Shutdown(None)),
        NotifierStep::Stop
    ));
}
