use muxrd::multiplexer::events::{
    AgentStatus, AgentStatusChanged, LayoutChanged, MuxEvent, EVENT_BUS_CAPACITY,
};
use tokio::sync::broadcast;

type EventBus = broadcast::Sender<MuxEvent>;

#[test]
fn bus_delivers_events_to_subscribers() {
    let (tx, _rx0): (EventBus, _) = broadcast::channel(EVENT_BUS_CAPACITY);
    let mut rx = tx.subscribe();
    let ev = MuxEvent::AgentStatusChanged(AgentStatusChanged {
        pane: 3,
        workspace_id: "ws-1".into(),
        workspace_name: Some("main".into()),
        status: AgentStatus::Blocked,
        title: Some("assistant".into()),
        synthetic: false,
    });
    tx.send(ev.clone()).expect("a subscriber exists");
    assert_eq!(rx.try_recv().expect("one buffered event"), ev);
}

#[test]
fn bus_carries_layout_changes_alongside_agent_status() {
    let (tx, _rx0): (EventBus, _) = broadcast::channel(EVENT_BUS_CAPACITY);
    let mut rx = tx.subscribe();
    let layout = MuxEvent::LayoutChanged(LayoutChanged {
        workspace_id: "ws-1".into(),
        tab: 7,
    });
    let status = MuxEvent::AgentStatusChanged(AgentStatusChanged {
        pane: 2,
        workspace_id: "ws-1".into(),
        workspace_name: None,
        status: AgentStatus::Working,
        title: None,
        synthetic: false,
    });
    tx.send(layout.clone()).expect("a subscriber exists");
    tx.send(status.clone()).expect("a subscriber exists");
    assert_eq!(rx.try_recv().expect("layout event"), layout);
    assert_eq!(rx.try_recv().expect("status event"), status);
}

#[test]
fn send_with_no_receivers_is_a_recoverable_error() {
    let (tx, rx): (EventBus, _) = broadcast::channel(EVENT_BUS_CAPACITY);
    drop(rx);
    let ev = MuxEvent::AgentStatusChanged(AgentStatusChanged {
        pane: 1,
        workspace_id: "ws".into(),
        workspace_name: None,
        status: AgentStatus::Done,
        title: None,
        synthetic: true,
    });
    assert!(tx.send(ev).is_err(), "no receivers → Err, not a panic");
}
