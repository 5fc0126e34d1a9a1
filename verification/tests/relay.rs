use std::cell::RefCell;
use std::collections::HashMap;

use muxrd::multiplexer::herdr::api::{AgentStatus, HerdrServerInfo, PaneInfo};
use muxrd::multiplexer::herdr::codec::Wire;
use muxrd::multiplexer::herdr::control::{HerdrControl, Outgoing};
use muxrd::multiplexer::herdr::registry::{HerdrPaneRegistry, HerdrTabRegistry};
use muxrd::multiplexer::herdr::relay::{
    assert_welcome, discover_protocol, handshake, hint_ids, map_server_message, open_attach,
    pick_resume_pane, pick_tab_pane, received, recv_from, resolve_attach_target_with,
    resolve_focused_terminal, welcome_reply, AdoptStep, AttachSearch, AttachStep, AttachTarget,
    AttemptNext,
    HerdrMuxReceiver, HerdrMuxSender, ProtocolNote, SwapPoll, CONNECT_SLACK_SECS,
    RECONNECT_ATTEMPTS, SWAP_GRACE_SECS, WIRE_TIMEOUT_SECS,
};
use muxrd::multiplexer::herdr::wire::{
    AttachScrollDirection, AttachScrollSource, ClientMessage, FramingError, NotifyKind,
    RenderEncoding, ServerMessage, TerminalFrame, WireFrame, HERDR_MAX_TESTED_PROTOCOL,
    HERDR_MIN_PROTOCOL,
};
use muxrd::multiplexer::types::{
    ActionAck, MuxMouseKind, MuxServerMsg, MuxStreamEvent, PaneRef, ResumeTarget,
};

#[test]
fn terminal_frame_maps_to_render_bytes_verbatim() {
    let bytes = b"\x1b[2J\x1b[1;1Hhello".to_vec();
    let msg = map_server_message(ServerMessage::Terminal(TerminalFrame {
        seq: 1,
        width: 80,
        height: 24,
        full: true,
        bytes: bytes.clone(),
    }));
    match msg {
        MuxServerMsg::Render(out) => assert_eq!(out, bytes),
        other => panic!("expected Render, got {other:?}"),
    }
}

#[test]
fn incremental_terminal_frame_also_maps_to_render() {
    let msg = map_server_message(ServerMessage::Terminal(TerminalFrame {
        seq: 2,
        width: 80,
        height: 24,
        full: false,
        bytes: b"\x1b[5;1Hx".to_vec(),
    }));
    assert!(matches!(msg, MuxServerMsg::Render(_)));
}

#[test]
fn server_shutdown_maps_to_exit_event_with_reason() {
    let msg = map_server_message(ServerMessage::ServerShutdown {
        reason: Some("going down".into()),
    });
    match msg {
        MuxServerMsg::Event(MuxStreamEvent::Exit { reason }) => assert_eq!(reason, "going down"),
        other => panic!("expected Exit event, got {other:?}"),
    }
}

#[test]
fn server_shutdown_without_reason_defaults_to_empty() {
    let msg = map_server_message(ServerMessage::ServerShutdown { reason: None });
    match msg {
        MuxServerMsg::Event(MuxStreamEvent::Exit { reason }) => assert!(reason.is_empty()),
        other => panic!("expected Exit event, got {other:?}"),
    }
}

#[test]
fn drained_variants_map_to_other() {
    for msg in [
        ServerMessage::Welcome {
            version: HERDR_MIN_PROTOCOL,
            encoding: RenderEncoding::TerminalAnsi,
            error: None,
        },
        ServerMessage::Graphics { bytes: vec![] },
        ServerMessage::Notify {
            kind: NotifyKind::Toast,
            message: "hi".into(),
            body: None,
        },
        ServerMessage::Clipboard { data: "x".into() },
        ServerMessage::WindowTitle {
            title: Some("t".into()),
        },
        ServerMessage::ReloadSoundConfig,
        ServerMessage::MouseCapture {
            enabled: true,
            sgr_pixels: false,
        },
    ] {
        assert!(
            matches!(map_server_message(msg.clone()), MuxServerMsg::Other),
            "{msg:?} should map to Other"
        );
    }
}

#[test]
fn recv_from_empty_stream_returns_none() {
    let mut empty: &[u8] = &[];
    assert!(recv_from(&mut empty).is_none());
}

#[test]
fn recv_from_truncated_length_prefix_returns_none() {
    let mut partial: &[u8] = &[0x01, 0x02];
    assert!(recv_from(&mut partial).is_none());
}

#[test]
fn recv_from_framed_shutdown_maps_to_exit() {
    let mut payload = Vec::new();
    ServerMessage::ServerShutdown {
            reason: Some("bye".into()),
        }.put(&mut payload);
    let mut framed = Vec::new();
    framed.extend_from_slice(&(payload.len() as u32).to_le_bytes());
    framed.extend_from_slice(&payload);

    let mut cursor: &[u8] = &framed;
    match recv_from(&mut cursor) {
        Some(MuxServerMsg::Event(MuxStreamEvent::Exit { reason })) => assert_eq!(reason, "bye"),
        other => panic!("expected Exit event, got {other:?}"),
    }
}

#[test]
fn assert_welcome_accepts_no_error() {
    assert!(
        assert_welcome(&ServerMessage::Welcome {
            version: HERDR_MIN_PROTOCOL,
            encoding: RenderEncoding::TerminalAnsi,
            error: None,
        })
        .is_ok()
    );
}
#[test]
fn assert_welcome_accepts_any_version_when_server_reports_no_error() {
    for version in [13, HERDR_MIN_PROTOCOL, 16, HERDR_MAX_TESTED_PROTOCOL, 99] {
        assert!(
            assert_welcome(&ServerMessage::Welcome {
                version,
                encoding: RenderEncoding::TerminalAnsi,
                error: None,
            })
            .is_ok(),
            "version {version} must not be rejected client-side"
        );
    }
}

#[test]
fn assert_welcome_rejects_handshake_error() {
    assert!(
        assert_welcome(&ServerMessage::Welcome {
            version: HERDR_MIN_PROTOCOL,
            encoding: RenderEncoding::TerminalAnsi,
            error: Some("no such terminal".into()),
        })
        .is_err()
    );
}

#[test]
fn assert_welcome_rejects_non_welcome_first_message() {
    assert!(assert_welcome(&ServerMessage::ReloadSoundConfig).is_err());
}
fn make_pane(pane_id: &str, terminal_id: &str, tab_id: &str, focused: bool) -> PaneInfo {
    PaneInfo {
        pane_id: pane_id.into(),
        terminal_id: terminal_id.into(),
        workspace_id: "ws-1".into(),
        tab_id: tab_id.into(),
        focused,
        cwd: None,
        foreground_cwd: None,
        label: None,
        agent: None,
        title: None,
        display_agent: None,
        agent_status: AgentStatus::Idle,
        custom_status: None,
        state_labels: HashMap::new(),
        agent_session: None,
        revision: 1,
    }
}

#[test]
fn pick_tab_pane_returns_focused_pane_of_target_tab_not_other_tab() {
    let mut reg = HerdrPaneRegistry::new();
    let panes = vec![
        make_pane("pane-a1", "term-a1", "tab-A", false),
        make_pane("pane-b1", "term-b1", "tab-B", false),
        make_pane("pane-b2", "term-b2", "tab-B", true),
    ];

    let (_id, terminal_id) = pick_tab_pane(&panes, &mut reg, "ws-1", "tab-B").unwrap();
    assert_eq!(
        terminal_id, "term-b2",
        "focused pane in tab-B must win over the first pane in tab-B"
    );
    let id = reg.assign_or_get("pane-a1", "term-a1");
    assert_eq!(
        reg.terminal_id(id).as_deref(),
        Some("term-a1"),
        "tab-A pane must be registered even though it was not returned"
    );
    let id = reg.assign_or_get("pane-b1", "term-b1");
    assert_eq!(
        reg.terminal_id(id).as_deref(),
        Some("term-b1"),
    );
    let id = reg.assign_or_get("pane-b2", "term-b2");
    assert_eq!(
        reg.terminal_id(id).as_deref(),
        Some("term-b2"),
    );
}

#[test]
fn pick_tab_pane_falls_back_to_first_when_none_focused() {
    let mut reg = HerdrPaneRegistry::new();
    let panes = vec![
        make_pane("pane-a1", "term-a1", "tab-A", false),
        make_pane("pane-b1", "term-b1", "tab-B", false),
        make_pane("pane-b2", "term-b2", "tab-B", false),
    ];

    let (_id, terminal_id) = pick_tab_pane(&panes, &mut reg, "ws-1", "tab-B").unwrap();
    assert_eq!(
        terminal_id, "term-b1",
        "first pane in tab-B returned when no pane is focused"
    );
}

#[test]
fn pick_tab_pane_errors_when_target_tab_has_no_panes() {
    let mut reg = HerdrPaneRegistry::new();
    let panes = vec![make_pane("pane-a1", "term-a1", "tab-A", false)];

    let result = pick_tab_pane(&panes, &mut reg, "ws-1", "tab-X");
    assert!(result.is_err(), "must error when target tab has no panes");
    let msg = result.unwrap_err();
    assert!(
        msg.contains("tab-X"),
        "error message must name the missing tab, got: {msg}"
    );
}
fn resume_panes() -> Vec<PaneInfo> {
    vec![
        make_pane("pane-a1", "term-a1", "tab-A", false),
        make_pane("pane-b1", "term-b1", "tab-B", false),
        make_pane("pane-b2", "term-b2", "tab-B", true),
    ]
}
#[test]
fn resume_picks_the_exact_hinted_pane() {
    let (mut pane_reg, mut tab_reg) = (HerdrPaneRegistry::new(), HerdrTabRegistry::new());
    let target = pick_resume_pane(
        &resume_panes(),
        &mut pane_reg,
        &mut tab_reg,
        "ws-1",
        Some("pane-a1"),
        Some("tab-B"),
    )
    .unwrap();

    assert_eq!(
        target.terminal_id, "term-a1",
        "the pane hint must beat the tab hint AND the daemon-global focus"
    );
    assert_eq!(
        target.tab_id,
        tab_reg.assign_or_get("tab-A"),
        "the reported tab id must be the hinted pane's OWN tab"
    );
    assert_eq!(target.pane_id, pane_reg.assign_or_get("pane-a1", "term-a1"));
    assert_eq!(target.workspace_id, "ws-1");
}
#[test]
fn stale_pane_hint_falls_through_to_the_tab_hint() {
    let (mut pane_reg, mut tab_reg) = (HerdrPaneRegistry::new(), HerdrTabRegistry::new());
    let target = pick_resume_pane(
        &resume_panes(),
        &mut pane_reg,
        &mut tab_reg,
        "ws-1",
        Some("pane-gone"),
        Some("tab-B"),
    )
    .unwrap();

    assert_eq!(
        target.terminal_id, "term-b2",
        "a closed pane must fall through to the tab hint's focused pane"
    );
    assert_eq!(target.tab_id, tab_reg.assign_or_get("tab-B"));
}
#[test]
fn tab_hint_without_focus_falls_back_to_the_tabs_first_pane() {
    let (mut pane_reg, mut tab_reg) = (HerdrPaneRegistry::new(), HerdrTabRegistry::new());
    let panes = vec![
        make_pane("pane-a1", "term-a1", "tab-A", true),
        make_pane("pane-b1", "term-b1", "tab-B", false),
        make_pane("pane-b2", "term-b2", "tab-B", false),
    ];
    let target =
        pick_resume_pane(&panes, &mut pane_reg, &mut tab_reg, "ws-1", None, Some("tab-B")).unwrap();
    assert_eq!(target.terminal_id, "term-b1");
}
#[test]
fn stale_tab_hint_falls_through_to_the_workspace_focused_pane() {
    let (mut pane_reg, mut tab_reg) = (HerdrPaneRegistry::new(), HerdrTabRegistry::new());
    let target = pick_resume_pane(
        &resume_panes(),
        &mut pane_reg,
        &mut tab_reg,
        "ws-1",
        Some("pane-gone"),
        Some("tab-gone"),
    )
    .unwrap();

    assert_eq!(
        target.terminal_id, "term-b2",
        "a fully stale hint must land on the workspace's focused pane"
    );
}
#[test]
fn no_resume_hints_pick_the_focused_pane_like_today() {
    let (mut pane_reg, mut tab_reg) = (HerdrPaneRegistry::new(), HerdrTabRegistry::new());
    let focused =
        pick_resume_pane(&resume_panes(), &mut pane_reg, &mut tab_reg, "ws-1", None, None).unwrap();
    assert_eq!(focused.terminal_id, "term-b2", "focused pane wins");
    let unfocused_panes = vec![
        make_pane("pane-a1", "term-a1", "tab-A", false),
        make_pane("pane-b1", "term-b1", "tab-B", false),
    ];
    let first =
        pick_resume_pane(&unfocused_panes, &mut pane_reg, &mut tab_reg, "ws-1", None, None).unwrap();
    assert_eq!(first.terminal_id, "term-a1", "first listed pane wins");
}
#[test]
fn garbage_hints_never_fail_the_attach() {
    let (mut pane_reg, mut tab_reg) = (HerdrPaneRegistry::new(), HerdrTabRegistry::new());
    let target = pick_resume_pane(
        &resume_panes(),
        &mut pane_reg,
        &mut tab_reg,
        "ws-1",
        Some("../../etc/passwd"),
        Some("💥 not a tab"),
    )
    .expect("a garbage hint must never fail the attach");
    assert_eq!(target.terminal_id, "term-b2");
}
#[test]
fn resume_registers_every_pane_and_reports_registry_ids() {
    let (mut pane_reg, mut tab_reg) = (HerdrPaneRegistry::new(), HerdrTabRegistry::new());
    let target = pick_resume_pane(
        &resume_panes(),
        &mut pane_reg,
        &mut tab_reg,
        "ws-1",
        Some("pane-b1"),
        None,
    )
    .unwrap();

    for (pane, terminal) in [
        ("pane-a1", "term-a1"),
        ("pane-b1", "term-b1"),
        ("pane-b2", "term-b2"),
    ] {
        let id = pane_reg
            .id_for_herdr_pane(pane)
            .unwrap_or_else(|| panic!("{pane} must be registered"));
        assert_eq!(pane_reg.terminal_id(id).as_deref(), Some(terminal));
    }
    assert_eq!(
        pane_reg.terminal_id(target.pane_id).as_deref(),
        Some("term-b1"),
        "the reported pane id must round-trip to the attached terminal"
    );
    assert_eq!(
        tab_reg.herdr_tab_id(target.tab_id).as_deref(),
        Some("tab-B")
    );
}
#[test]
fn pick_resume_pane_errors_when_the_workspace_has_no_panes() {
    let (mut pane_reg, mut tab_reg) = (HerdrPaneRegistry::new(), HerdrTabRegistry::new());
    let err = pick_resume_pane(&Vec::new(), &mut pane_reg, &mut tab_reg, "ws-empty", None, None)
        .expect_err("an empty workspace has nothing to attach");
    assert!(
        err.contains("ws-empty"),
        "error must name the workspace, got: {err}"
    );
}

#[test]
fn hint_ids_translate_registered_numeric_hints() {
    let (mut pane_reg, mut tab_reg) = (HerdrPaneRegistry::new(), HerdrTabRegistry::new());
    let pane_id = pane_reg.assign_or_get("pane-b2", "term-b2");
    let tab_id = tab_reg.assign_or_get("tab-B");

    let (hint_pane, hint_tab) = hint_ids(
        &pane_reg,
        &tab_reg,
        &ResumeTarget {
            space_id: None,
            tab_id: Some(tab_id),
            pane_id: Some(pane_id),
        },
    );
    assert_eq!(hint_pane.as_deref(), Some("pane-b2"));
    assert_eq!(hint_tab.as_deref(), Some("tab-B"));
}
#[test]
fn hint_ids_drop_unknown_numeric_hints() {
    let (pane_reg, tab_reg) = (HerdrPaneRegistry::new(), HerdrTabRegistry::new());
    let (hint_pane, hint_tab) = hint_ids(
        &pane_reg,
        &tab_reg,
        &ResumeTarget {
            space_id: Some("ws-1".into()),
            tab_id: Some(999),
            pane_id: Some(999),
        },
    );
    assert!(hint_pane.is_none() && hint_tab.is_none());
    assert!(pane_reg.herdr_pane_id(1).is_none());
}
fn fixture_lister<'a>(
    queried: &'a RefCell<Vec<String>>,
) -> impl Fn(&str) -> Result<Vec<PaneInfo>, String> + 'a {
    move |workspace_id: &str| {
        queried.borrow_mut().push(workspace_id.to_string());
        match workspace_id {
            "ws-1" => Ok(resume_panes()),
            "ws-2" => Ok(vec![
                make_pane("pane-c1", "term-c1", "tab-C", false),
                make_pane("pane-c2", "term-c2", "tab-C", true),
            ]),
            other => Err(format!("herdr: no workspace '{other}'")),
        }
    }
}
#[test]
fn space_hint_resolves_inside_the_hinted_workspace() {
    let (mut pane_reg, mut tab_reg) = (HerdrPaneRegistry::new(), HerdrTabRegistry::new());
    let queried = RefCell::new(Vec::new());
    let target = resolve_attach_target_with(
        fixture_lister(&queried),
        &mut pane_reg,
        &mut tab_reg,
        "ws-1",
        Some("ws-2"),
        None,
        None,
    )
    .unwrap();

    assert_eq!(target.workspace_id, "ws-2");
    assert_eq!(target.terminal_id, "term-c2");
    assert_eq!(queried.borrow().as_slice(), ["ws-2"]);
}
#[test]
fn pane_hint_resolves_within_the_hinted_space() {
    let (mut pane_reg, mut tab_reg) = (HerdrPaneRegistry::new(), HerdrTabRegistry::new());
    let queried = RefCell::new(Vec::new());
    let target = resolve_attach_target_with(
        fixture_lister(&queried),
        &mut pane_reg,
        &mut tab_reg,
        "ws-1",
        Some("ws-2"),
        Some("pane-c1"),
        None,
    )
    .unwrap();
    assert_eq!(target.workspace_id, "ws-2");
    assert_eq!(target.terminal_id, "term-c1");
}
#[test]
fn stale_space_hint_falls_back_to_the_default_workspace() {
    let (mut pane_reg, mut tab_reg) = (HerdrPaneRegistry::new(), HerdrTabRegistry::new());
    let queried = RefCell::new(Vec::new());
    let target = resolve_attach_target_with(
        fixture_lister(&queried),
        &mut pane_reg,
        &mut tab_reg,
        "ws-1",
        Some("ws-vanished"),
        None,
        None,
    )
    .expect("a stale space hint must never fail the attach");

    assert_eq!(target.workspace_id, "ws-1");
    assert_eq!(target.terminal_id, "term-b2");
    assert_eq!(
        queried.borrow().as_slice(),
        ["ws-vanished", "ws-1"],
        "the hinted space is tried first, then the default workspace"
    );
}
#[test]
fn stale_space_hint_still_honours_the_pane_hint_in_the_fallback() {
    let (mut pane_reg, mut tab_reg) = (HerdrPaneRegistry::new(), HerdrTabRegistry::new());
    let queried = RefCell::new(Vec::new());
    let target = resolve_attach_target_with(
        fixture_lister(&queried),
        &mut pane_reg,
        &mut tab_reg,
        "ws-1",
        Some("ws-vanished"),
        Some("pane-a1"),
        None,
    )
    .unwrap();
    assert_eq!(target.workspace_id, "ws-1");
    assert_eq!(target.terminal_id, "term-a1");
}
#[test]
fn space_hint_equal_to_the_default_queries_once() {
    let (mut pane_reg, mut tab_reg) = (HerdrPaneRegistry::new(), HerdrTabRegistry::new());
    let queried = RefCell::new(Vec::new());
    let target = resolve_attach_target_with(
        fixture_lister(&queried),
        &mut pane_reg,
        &mut tab_reg,
        "ws-1",
        Some("ws-1"),
        None,
        None,
    )
    .unwrap();
    assert_eq!(target.workspace_id, "ws-1");
    assert_eq!(queried.borrow().as_slice(), ["ws-1"]);
}
#[test]
fn no_hints_query_only_the_default_workspace() {
    let (mut pane_reg, mut tab_reg) = (HerdrPaneRegistry::new(), HerdrTabRegistry::new());
    let queried = RefCell::new(Vec::new());
    let target = resolve_attach_target_with(
        fixture_lister(&queried),
        &mut pane_reg,
        &mut tab_reg,
        "ws-1",
        None,
        None,
        None,
    )
    .unwrap();
    assert_eq!(target.workspace_id, "ws-1");
    assert_eq!(target.terminal_id, "term-b2");
    assert_eq!(queried.borrow().as_slice(), ["ws-1"]);
}
#[test]
fn unusable_default_workspace_is_the_only_hard_failure() {
    let (mut pane_reg, mut tab_reg) = (HerdrPaneRegistry::new(), HerdrTabRegistry::new());
    let queried = RefCell::new(Vec::new());
    let err = resolve_attach_target_with(
        fixture_lister(&queried),
        &mut pane_reg,
        &mut tab_reg,
        "ws-dead",
        Some("ws-2"),
        None,
        None,
    );
    assert!(err.is_ok(), "a live space hint rescues a dead default");

    let queried = RefCell::new(Vec::new());
    let err = resolve_attach_target_with(
        fixture_lister(&queried),
        &mut pane_reg,
        &mut tab_reg,
        "ws-dead",
        None,
        None,
        None,
    );
    assert!(
        err.is_err(),
        "with no usable workspace at all the attach must fail loudly"
    );
}

#[test]
fn swap_grace_covers_reconnect_worst_case() {
    let worst_case_per_attempt = 3 * WIRE_TIMEOUT_SECS + CONNECT_SLACK_SECS;
    let worst_case = RECONNECT_ATTEMPTS * worst_case_per_attempt;
    assert!(
        SWAP_GRACE_SECS >= worst_case,
        "SWAP_GRACE ({SWAP_GRACE_SECS:?}) must cover the worst-case reattach ({worst_case:?})"
    );
    assert!(
        SWAP_GRACE_SECS > 3 * WIRE_TIMEOUT_SECS,
        "SWAP_GRACE ({SWAP_GRACE_SECS:?}) must exceed a single slow attempt (3×WIRE_TIMEOUT)"
    );
    assert_eq!(SWAP_GRACE_SECS, 21);
}

fn dummy_sender() -> HerdrMuxSender {
    HerdrMuxSender {
        workspace_id: "ws-1".into(),
        current_terminal_id: "term-A".into(),
        swap_pending: false,
        rows: 24,
        cols: 80,
        protocol: HERDR_MAX_TESTED_PROTOCOL,
    }
}

fn receiver() -> HerdrMuxReceiver {
    HerdrMuxReceiver {
        grace_secs: SWAP_GRACE_SECS,
    }
}

#[test]
fn reattach_releases_old_then_reconnects_with_latest_dims() {
    let mut sender = dummy_sender();
    let resize = sender.send_resize(50, 200);
    assert!(
        matches!(
            resize,
            ClientMessage::Resize {
                rows: 50,
                cols: 200,
                ..
            }
        ),
        "conn1 must carry the resize, got {resize:?}"
    );
    let (mut swap, detach) = sender.begin_reattach("term-B".into());
    assert!(
        matches!(detach, ClientMessage::Detach),
        "conn1 must receive Detach before the reconnect, got {detach:?}"
    );
    assert!(sender.swap_pending);
    let h = sender.next_attempt(&swap, None);
    match h.hello {
        ClientMessage::TerminalHello {
            version,
            rows,
            cols,
            pixel_mouse,
            ..
        } => {
            assert_eq!((rows, cols), (50, 200), "the latest size");
            assert_eq!(version, HERDR_MAX_TESTED_PROTOCOL, "the negotiated version");
            assert!(!pixel_mouse);
        }
        other => panic!("expected a hello, got {other:?}"),
    }
    assert!(
        matches!(h.attach, ClientMessage::AttachTerminal { ref terminal_id, takeover: true } if terminal_id == "term-B"),
        "conn2 must attach term-B, got {:?}",
        h.attach
    );
    assert_eq!(sender.attempt_done(&mut swap, Ok(())), AttemptNext::HandOver);
    assert!(sender.handed_over(true).is_ok());
    assert_eq!(sender.current_terminal_id, "term-B");
    assert!(!sender.swap_pending);
}

#[test]
fn reattach_retries_once_then_succeeds() {
    let mut sender = dummy_sender();
    let (mut swap, _) = sender.begin_reattach("term-B".into());
    sender.next_attempt(&swap, Some(23));
    assert_eq!(sender.protocol, 23, "a restarted server may speak another version");
    assert_eq!(
        sender.attempt_done(&mut swap, Err("closed".into())),
        AttemptNext::TryAgain
    );
    assert_eq!(sender.current_terminal_id, "term-A");
    assert!(sender.swap_pending, "the reader keeps waiting");
    sender.next_attempt(&swap, None);
    assert_eq!(sender.attempt_done(&mut swap, Ok(())), AttemptNext::HandOver);
    sender.handed_over(true).unwrap();
    assert_eq!(sender.current_terminal_id, "term-B");
}

#[test]
fn reattach_retries_exhausted_ends_stream() {
    let mut sender = dummy_sender();
    let (mut swap, _) = sender.begin_reattach("term-B".into());
    sender.attempt_done(&mut swap, Err("first".into()));
    assert_eq!(
        sender.attempt_done(&mut swap, Err("second".into())),
        AttemptNext::GiveUp("second".into()),
        "reattach must fail after both reconnect attempts fail"
    );
    assert_eq!(
        sender.current_terminal_id, "term-A",
        "attach target must be unchanged after a fully-failed reattach"
    );
    assert!(!sender.swap_pending);
    assert_eq!(
        receiver().try_adopt_swap(SwapPoll::Failed, false),
        AdoptStep::EndFailed,
        "reader must end the stream once the retries are exhausted"
    );
}

#[test]
fn a_reader_that_is_gone_cannot_take_the_new_connection() {
    let mut sender = dummy_sender();
    sender.begin_reattach("term-B".into());
    assert_eq!(
        sender.handed_over(false).unwrap_err(),
        "herdr reattach: relay reader gone, cannot adopt new connection"
    );
    assert!(!sender.swap_pending);
}

#[test]
fn recv_adopts_swapped_connection_without_none() {
    let r = receiver();
    assert_eq!(r.try_adopt_swap(SwapPoll::Connection, true), AdoptStep::Adopt);
    assert_eq!(r.try_adopt_swap(SwapPoll::Connection, false), AdoptStep::Adopt);
}

#[test]
fn recv_genuine_disconnect_returns_none_immediately() {
    let r = receiver();
    assert_eq!(r.try_adopt_swap(SwapPoll::Empty, false), AdoptStep::EndQuiet);
    assert_eq!(r.try_adopt_swap(SwapPoll::Closed, true), AdoptStep::EndQuiet);
}

#[test]
fn adopt_swap_waits_out_a_slow_reconnect() {
    let r = receiver();
    assert_eq!(r.try_adopt_swap(SwapPoll::Empty, true), AdoptStep::Wait);
    assert_eq!(r.grace_secs, SWAP_GRACE_SECS);
    assert_eq!(r.try_adopt_swap_within(SwapPoll::Connection), AdoptStep::Adopt);
    assert_eq!(r.try_adopt_swap_within(SwapPoll::Empty), AdoptStep::EndTimedOut);
    assert_eq!(r.try_adopt_swap_within(SwapPoll::Failed), AdoptStep::EndFailed);
}

fn control() -> HerdrControl {
    let mut panes = HerdrPaneRegistry::new();
    panes.assign_or_get("pane-1", "term-1");
    HerdrControl::new("/tmp/h".to_owned(), panes, HerdrTabRegistry::new())
}

#[test]
fn query_layout_result_returns_some_and_is_bounded() {
    let sender = dummy_sender();
    assert!(sender.has_sync_layout());
    let (query, request) = sender.query_layout_result(&mut control());
    assert_eq!(query.workspace_id, "ws-1");
    assert_eq!(request.method, "session.snapshot");
}

#[test]
fn fullscreen_is_a_zoom() {
    let sender = dummy_sender();
    let mut c = control();
    match sender.toggle_fullscreen(&mut c, PaneRef::terminal(1)) {
        Outgoing::Send(r) => {
            assert_eq!(r.method, "pane.zoom");
            let line = r.line();
            assert!(line.contains(r#""pane_id":"pane-1""#), "{line}");
            assert!(line.contains(r#""mode":"toggle""#), "{line}");
        }
        other => panic!("expected a request, got {other:?}"),
    }
    assert!(matches!(
        sender.toggle_fullscreen(&mut c, PaneRef::terminal(5)),
        Outgoing::Answered(_)
    ));
    let refused = ActionAck {
        ok: false,
        error: Some("no".into()),
        info: None,
    };
    assert!(sender.fullscreen_toggled(Ok(refused)).is_ok());
    assert!(sender.fullscreen_toggled(Err("down".into())).is_err());
}

#[test]
fn moving_about_resolves_registered_ids() {
    let mut sender = dummy_sender();
    let mut panes = HerdrPaneRegistry::new();
    let p = panes.assign_or_get("pane-1", "term-1");
    let mut tabs = HerdrTabRegistry::new();
    let t = tabs.assign_or_get("tab-1");
    assert_eq!(sender.focus_pane(&panes, PaneRef::terminal(p)).unwrap(), "term-1");
    assert_eq!(
        sender.focus_pane(&panes, PaneRef::terminal(77)).unwrap_err(),
        "herdr focus_pane: unknown pane id 77"
    );
    assert_eq!(sender.go_to_tab(&tabs, t).unwrap(), "tab-1");
    assert_eq!(
        sender.go_to_tab(&tabs, 12).unwrap_err(),
        "herdr go_to_tab: unknown tab id 12"
    );
    sender.switch_space("ws-2", &Err("failed".into()));
    assert_eq!(sender.workspace_id, "ws-1", "a failed swap changes no space");
    sender.switch_space("ws-2", &Ok(()));
    assert_eq!(sender.workspace_id, "ws-2");
}

#[test]
fn input_and_mouse_become_messages() {
    let sender = dummy_sender();
    assert_eq!(
        sender.send_input_chars("ä"),
        ClientMessage::Input {
            data: "ä".as_bytes().to_vec()
        }
    );
    assert_eq!(
        sender.send_input_bytes(vec![27]),
        ClientMessage::Input { data: vec![27] }
    );
    assert_eq!(
        sender.send_mouse(MuxMouseKind::WheelUp, 3, 4),
        ClientMessage::AttachScroll {
            source: AttachScrollSource::Wheel,
            direction: AttachScrollDirection::Up,
            lines: 1,
            column: Some(3),
            row: Some(4),
            modifiers: 0,
        }
    );
    assert_eq!(sender.send_client_exited(), ClientMessage::Detach);
}

#[test]
fn the_handshake_names_the_reported_version() {
    let info = |protocol| HerdrServerInfo {
        version: "x".into(),
        protocol,
    };
    assert_eq!(
        discover_protocol(&info(HERDR_MIN_PROTOCOL)),
        (HERDR_MIN_PROTOCOL, ProtocolNote::Known)
    );
    assert_eq!(discover_protocol(&info(13)), (13, ProtocolNote::Older));
    assert_eq!(discover_protocol(&info(99)), (99, ProtocolNote::Newer));
    let h = handshake(24, 80, "term", 99);
    assert!(matches!(
        h.hello,
        ClientMessage::TerminalHello {
            version: 99,
            rows: 24,
            cols: 80,
            ..
        }
    ));
}

#[test]
fn a_handshake_answered_by_something_else_fails() {
    assert!(
        welcome_reply(&Err(FramingError::UnexpectedEof))
            .unwrap_err()
            .starts_with("read herdr Welcome: ")
    );
    let unknown = Ok(WireFrame::Unknown { tag: 77, len: 3 });
    assert!(welcome_reply(&unknown).unwrap_err().contains("tag 77"));
    let welcome = |encoding| {
        Ok(WireFrame::Message(Box::new(ServerMessage::Welcome {
            version: 22,
            encoding,
            error: None,
        })))
    };
    assert_eq!(welcome_reply(&welcome(RenderEncoding::TerminalAnsi)), Ok(true));
}

#[test]
fn an_attach_reports_where_it_landed_only_if_asked_to_resume() {
    let target = || AttachTarget {
        workspace_id: "ws-2".into(),
        tab_id: 4,
        pane_id: 9,
        terminal_id: "term-9".into(),
    };
    let none = ResumeTarget {
        space_id: None,
        tab_id: None,
        pane_id: None,
    };
    let plain = open_attach(target(), 22, "herdr".into(), 24, 80, &none);
    assert!(plain.resumed_view.is_none());
    assert_eq!(plain.sender.current_terminal_id, "term-9");
    assert_eq!(plain.receiver.grace_secs, SWAP_GRACE_SECS);
    let hint = ResumeTarget {
        space_id: None,
        tab_id: None,
        pane_id: Some(9),
    };
    let resumed = open_attach(target(), 22, "herdr".into(), 24, 80, &hint);
    assert!(resumed.resumed_view.is_some());
    let (sender, _) = resumed.split();
    assert_eq!(sender.workspace_id, "ws-2");
}

#[test]
fn an_empty_workspace_has_no_focused_terminal() {
    let mut reg = HerdrPaneRegistry::new();
    let err = resolve_focused_terminal(&Vec::new(), &mut reg, "ws-e").unwrap_err();
    assert!(err.contains("ws-e"), "{err}");
    let (_, terminal) = resolve_focused_terminal(&resume_panes(), &mut reg, "ws-1").unwrap();
    assert_eq!(terminal, "term-b2");
}

#[test]
fn a_skipped_frame_is_drained_and_an_unreadable_one_ends_the_relay() {
    assert_eq!(
        received(Ok(WireFrame::Unknown { tag: 99, len: 3 })),
        Some(MuxServerMsg::Other)
    );
    assert_eq!(
        received(Ok(WireFrame::Message(Box::new(ServerMessage::ServerShutdown {
            reason: None,
        })))),
        Some(MuxServerMsg::Event(MuxStreamEvent::Exit {
            reason: String::new()
        }))
    );
    assert_eq!(received(Err(FramingError::UnexpectedEof)), None);
    assert_eq!(received(Err(FramingError::Bincode("bad".into()))), None);
}

/// Runs a search against fixed lists: the workspaces in the order they were asked for, and
/// what it came to.
fn run_search(
    mut search: AttachSearch,
    lists: &[(&str, Result<Vec<PaneInfo>, String>)],
) -> (Vec<String>, Result<AttachTarget, String>) {
    let (mut pane_reg, mut tab_reg) = (HerdrPaneRegistry::new(), HerdrTabRegistry::new());
    let mut asked = Vec::new();
    loop {
        let workspace = search.workspace().to_owned();
        let list = lists.iter().find(|(ws, _)| *ws == workspace).unwrap().1.clone();
        asked.push(workspace);
        match search.listed(list, &mut pane_reg, &mut tab_reg) {
            AttachStep::Ask(next) => search = next,
            AttachStep::Finished(r) => return (asked, r),
        }
    }
}

#[test]
fn a_search_lists_the_hinted_workspace_first_and_each_once() {
    let lists = [
        ("ws-1", Ok(resume_panes())),
        ("ws-2", Ok(vec![make_pane("pane-c", "term-c", "tab-C", false)])),
        ("ws-empty", Ok(Vec::new())),
        ("ws-vanished", Err("no such workspace".to_owned())),
    ];
    let begin = |default: &str, space: Option<&str>| {
        AttachSearch::begin(default, space, Some("pane-a1"), None)
    };

    let (asked, r) = run_search(begin("ws-1", None), &lists);
    assert_eq!(asked, ["ws-1"]);
    assert_eq!(r.unwrap().terminal_id, "term-a1");

    let (asked, r) = run_search(begin("ws-1", Some("ws-1")), &lists);
    assert_eq!(asked, ["ws-1"]);
    assert_eq!(r.unwrap().terminal_id, "term-a1");

    let (asked, r) = run_search(begin("ws-1", Some("ws-2")), &lists);
    assert_eq!(asked, ["ws-2"]);
    let target = r.unwrap();
    assert_eq!((target.workspace_id.as_str(), target.terminal_id.as_str()), ("ws-2", "term-c"));

    for stale in ["ws-vanished", "ws-empty"] {
        let (asked, r) = run_search(begin("ws-1", Some(stale)), &lists);
        assert_eq!(asked, [stale, "ws-1"]);
        let target = r.unwrap();
        assert_eq!(target.workspace_id, "ws-1");
        assert_eq!(target.terminal_id, "term-a1", "the pane hint still counts");
    }

    let (asked, r) = run_search(begin("ws-vanished", Some("ws-empty")), &lists);
    assert_eq!(asked, ["ws-empty", "ws-vanished"]);
    assert_eq!(r.unwrap_err(), "no such workspace");
}
