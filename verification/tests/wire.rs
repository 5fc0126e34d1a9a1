use muxrd::multiplexer::herdr::codec::Wire;
use muxrd::multiplexer::herdr::wire::{
    encode, is_skippable_server_tag, payload_len, read_server_message, write_message,
    AttachScrollDirection, AttachScrollSource, ClientClipboardImageTarget, ClientHostAppearance,
    ClientHostThemeUpdate, ClientMessage, ClientMouseButton, ClientMouseKind, ClientMousePosition,
    ClientSurfaceSize, FramingError, NotifyKind, RenderEncoding, ServerMessage, TerminalFrame,
    WireFrame, HERDR_MAX_TESTED_PROTOCOL, HERDR_MIN_PROTOCOL, HIGHEST_KNOWN_SERVER_TAG,
    MAX_FRAME_SIZE,
};

const UNMIRRORED_SERVER_TAGS: [u8; 4] = [12, 13, 14, 19];

fn bytes_of<T: Wire>(msg: &T) -> Vec<u8> {
    let mut out = Vec::new();
    msg.put(&mut out);
    out
}

/// The discriminant of a client message. Encodes directly rather than through
/// [`encode`], which refuses the payload-free placeholders.
fn client_tag(msg: &ClientMessage) -> u8 {
    bytes_of(msg)[0]
}

/// The discriminant of a server message.
fn server_tag(msg: &ServerMessage) -> u8 {
    bytes_of(msg)[0]
}

/// For reads that are not asked what is wrong with a payload.
fn no_diagnosis(_payload: &[u8]) -> String {
    String::new()
}

/// Length-prefix a payload the way herdr frames a message.
fn frame(payload: &[u8]) -> Vec<u8> {
    let mut framed = Vec::with_capacity(4 + payload.len());
    framed.extend_from_slice(&(payload.len() as u32).to_le_bytes());
    framed.extend_from_slice(payload);
    framed
}

/// Frame an arbitrary tag byte plus body, bypassing the enums.
fn frame_raw(tag: u8, body: &[u8]) -> Vec<u8> {
    let mut payload = vec![tag];
    payload.extend_from_slice(body);
    frame(&payload)
}

/// Frame a [`ServerMessage`] the way herdr would.
fn frame_server(msg: &ServerMessage) -> Vec<u8> {
    frame(&bytes_of(msg))
}

/// Unwrap a decoded frame, failing the test on an unexpected skip.
fn expect_message(f: WireFrame) -> ServerMessage {
    match f {
        WireFrame::Message(msg) => *msg,
        WireFrame::Unknown { tag, len } => {
            panic!("expected a decoded message, got Unknown {{ tag: {tag}, len: {len} }}")
        }
    }
}

#[test]
fn client_message_discriminants_match_protocol_22() {
    assert_eq!(
        client_tag(&ClientMessage::TerminalHello {
            version: HERDR_MIN_PROTOCOL,
            cols: 80,
            rows: 24,
            cell_width_px: 0,
            cell_height_px: 0,
            pixel_mouse: false,
        }),
        0,
        "TerminalHello must be discriminant 0"
    );
    assert_eq!(
        client_tag(&ClientMessage::Input { data: Vec::new() }),
        1,
        "Input must be 1"
    );
    assert_eq!(
        client_tag(&ClientMessage::ClipboardImage {
            target: ClientClipboardImageTarget::DirectTerminal,
            extension: String::new(),
            data: Vec::new(),
        }),
        2,
        "ClipboardImage must be 2"
    );
    assert_eq!(
        client_tag(&ClientMessage::Resize {
            cols: 80,
            rows: 24,
            cell_width_px: 0,
            cell_height_px: 0,
            pixel_mouse: false,
        }),
        3,
        "Resize must be 3"
    );
    assert_eq!(client_tag(&ClientMessage::Detach), 4, "Detach must be 4");
    assert_eq!(
        client_tag(&ClientMessage::AttachTerminal {
            terminal_id: String::new(),
            takeover: false,
        }),
        5,
        "AttachTerminal must be 5"
    );
    assert_eq!(
        client_tag(&ClientMessage::AttachScroll {
            source: AttachScrollSource::Wheel,
            direction: AttachScrollDirection::Up,
            lines: 1,
            column: None,
            row: None,
            modifiers: 0,
        }),
        6,
        "AttachScroll must be 6"
    );
    assert_eq!(
        client_tag(&ClientMessage::ObserveTerminal {
            target: String::new()
        }),
        7,
        "ObserveTerminal must be 7"
    );
    assert_eq!(
        client_tag(&ClientMessage::ControlTerminal {
            target: String::new(),
            takeover: false,
        }),
        8,
        "ControlTerminal must be 8"
    );
    assert_eq!(
        client_tag(&ClientMessage::GraphicsTransmissionResult {
            transfer_id: 0,
            image_id: 0,
            success: false,
        }),
        9,
        "GraphicsTransmissionResult must be 9"
    );
    assert_eq!(
        client_tag(&ClientMessage::GraphicsTransmissionStarted {
            transfer_id: 0,
            image_id: 0,
        }),
        10,
        "GraphicsTransmissionStarted must be 10"
    );
    assert_eq!(
        client_tag(&ClientMessage::ClientShellHello {
            version: HERDR_MIN_PROTOCOL,
            cell_width_px: 0,
            cell_height_px: 0,
            surface_size: ClientSurfaceSize { cols: 80, rows: 24 },
            pixel_mouse: false,
            direct_graphics: false,
            endpoint_keybindings: false,
            mouse_capture: false,
        }),
        11,
        "ClientShellHello must be 11"
    );
    assert_eq!(
        client_tag(&ClientMessage::ClientShellResize {
            cell_width_px: 0,
            cell_height_px: 0,
            surface_size: ClientSurfaceSize { cols: 80, rows: 24 },
            pixel_mouse: false,
        }),
        12,
        "ClientShellResize must be 12"
    );
    assert_eq!(
        client_tag(&ClientMessage::ClientShellPaneInput),
        13,
        "the ClientShellPaneInput placeholder must hold tag 13"
    );
    assert_eq!(
        client_tag(&ClientMessage::ClientShellPopupInput),
        14,
        "the ClientShellPopupInput placeholder must hold tag 14"
    );
    assert_eq!(
        client_tag(&ClientMessage::ClientShellEndpointRequest {
            boot_id: String::new(),
            request: String::new(),
        }),
        15,
        "ClientShellEndpointRequest must be 15"
    );
    assert_eq!(
        client_tag(&ClientMessage::AttachMouse {
            kind: ClientMouseKind::Down(ClientMouseButton::Left),
            position: ClientMousePosition::Cell { column: 0, row: 0 },
            geometry: None,
            modifiers: 0,
            lines: 1,
        }),
        16,
        "AttachMouse must be 16"
    );
    assert_eq!(
        client_tag(&ClientMessage::ClientShellHostTheme {
            update: ClientHostThemeUpdate::Appearance(ClientHostAppearance::Dark),
        }),
        17,
        "ClientShellHostTheme must be 17"
    );
    assert_eq!(
        client_tag(&ClientMessage::ClientShellFocus { focused: true }),
        18,
        "ClientShellFocus must be 18"
    );
    assert_eq!(
        client_tag(&ClientMessage::ClientShellMouseCapture { enabled: true }),
        19,
        "ClientShellMouseCapture must be 19"
    );
    assert_eq!(
        client_tag(&ClientMessage::EndpointControl {
            kind: String::new(),
            data: String::new(),
        }),
        20,
        "EndpointControl must be 20"
    );
}

#[test]
fn server_message_discriminants_match_protocol_22() {
    assert_eq!(
        server_tag(&ServerMessage::Welcome {
            version: HERDR_MIN_PROTOCOL,
            encoding: RenderEncoding::TerminalAnsi,
            error: None,
        }),
        0,
        "Welcome must be discriminant 0"
    );
    assert_eq!(
        server_tag(&ServerMessage::Terminal(TerminalFrame {
            seq: 0,
            width: 0,
            height: 0,
            full: false,
            bytes: Vec::new(),
        })),
        1,
        "Terminal must be 1"
    );
    assert_eq!(
        server_tag(&ServerMessage::Graphics { bytes: Vec::new() }),
        2,
        "Graphics must be 2"
    );
    assert_eq!(
        server_tag(&ServerMessage::ServerShutdown { reason: None }),
        3,
        "ServerShutdown must be 3"
    );
    assert_eq!(
        server_tag(&ServerMessage::Notify {
            kind: NotifyKind::Sound,
            message: String::new(),
            body: None,
        }),
        4,
        "Notify must be 4"
    );
    assert_eq!(
        server_tag(&ServerMessage::Clipboard {
            data: String::new()
        }),
        5,
        "Clipboard must be 5"
    );
    assert_eq!(
        server_tag(&ServerMessage::WindowTitle { title: None }),
        6,
        "WindowTitle must be 6"
    );
    assert_eq!(
        server_tag(&ServerMessage::ReloadSoundConfig),
        7,
        "ReloadSoundConfig must be 7"
    );
    assert_eq!(
        server_tag(&ServerMessage::MouseCapture {
            enabled: false,
            sgr_pixels: false,
        }),
        8,
        "MouseCapture must be 8"
    );
    assert_eq!(
        server_tag(&ServerMessage::TerminalBell { count: 1 }),
        9,
        "TerminalBell must be 9"
    );
    assert_eq!(
        server_tag(&ServerMessage::GraphicsFile {
            path: String::new(),
            expected_len: 0,
            image_id: 0,
            transfer_id: 0,
            leading: Vec::new(),
            control: String::new(),
            surface_asset: None,
        }),
        10,
        "GraphicsFile must be 10"
    );
    assert_eq!(
        server_tag(&ServerMessage::GraphicsTransmissionRetired {
            transfer_id: 0,
            image_id: 0,
        }),
        11,
        "GraphicsTransmissionRetired must be 11"
    );
    assert_eq!(
        server_tag(&ServerMessage::ClientShellSnapshot),
        12,
        "the ClientShellSnapshot placeholder must hold tag 12"
    );
    assert_eq!(
        server_tag(&ServerMessage::PaneSurface),
        13,
        "the PaneSurface placeholder must hold tag 13"
    );
    assert_eq!(
        server_tag(&ServerMessage::SemanticNotification),
        14,
        "the SemanticNotification placeholder must hold tag 14"
    );
    assert_eq!(
        server_tag(&ServerMessage::ClientShellError {
            message: String::new()
        }),
        15,
        "ClientShellError must be 15"
    );
    assert_eq!(
        server_tag(&ServerMessage::DirectTerminalKeyboardProtocol {
            flags: 0,
            modify_other_keys_level: 0,
        }),
        16,
        "DirectTerminalKeyboardProtocol must be 16"
    );
    assert_eq!(
        server_tag(&ServerMessage::ClientShellKeyboardReportAll { enabled: false }),
        17,
        "ClientShellKeyboardReportAll must be 17"
    );
    assert_eq!(
        server_tag(&ServerMessage::ClientShellEndpointResponseChunk {
            boot_id: String::new(),
            request_id: String::new(),
            final_chunk: false,
            data: Vec::new(),
        }),
        18,
        "ClientShellEndpointResponseChunk must be 18"
    );
    assert_eq!(
        server_tag(&ServerMessage::PaneSurfacePatch),
        19,
        "the PaneSurfacePatch placeholder must hold tag 19"
    );
    assert_eq!(
        server_tag(&ServerMessage::EndpointControl {
            kind: String::new(),
            data: String::new(),
        }),
        20,
        "EndpointControl must be 20"
    );
    assert_eq!(
        HIGHEST_KNOWN_SERVER_TAG, 20,
        "the skip ceiling must be the highest declared server tag"
    );
}
#[test]
fn terminal_hello_round_trip() {
    let msg = ClientMessage::TerminalHello {
        version: HERDR_MAX_TESTED_PROTOCOL,
        cols: 120,
        rows: 40,
        cell_width_px: 0,
        cell_height_px: 0,
        pixel_mouse: false,
    };

    let framed = encode(&msg).unwrap();
    assert!(
        framed.len() > 4,
        "frame must be longer than just the length prefix"
    );
    let claimed = u32::from_le_bytes([framed[0], framed[1], framed[2], framed[3]]) as usize;
    assert_eq!(
        claimed,
        framed.len() - 4,
        "length prefix must be consistent"
    );

    let payload = &framed[4..];
    let (decoded, consumed) = ClientMessage::get(payload, 0).unwrap();
    assert_eq!(
        consumed,
        payload.len(),
        "decoder must consume exactly the payload — herdr rejects trailing bytes"
    );
    assert_eq!(msg, decoded);
}
#[test]
fn resize_round_trip_carries_pixel_mouse() {
    let msg = ClientMessage::Resize {
        cols: 200,
        rows: 50,
        cell_width_px: 0,
        cell_height_px: 0,
        pixel_mouse: false,
    };
    let framed = encode(&msg).unwrap();
    let payload = &framed[4..];
    let (decoded, consumed) = ClientMessage::get(payload, 0).unwrap();
    assert_eq!(consumed, payload.len());
    assert_eq!(msg, decoded);
    assert!(
        matches!(
            decoded,
            ClientMessage::Resize {
                pixel_mouse: false,
                ..
            }
        ),
        "muxrd advertises no pixel geometry, so pixel_mouse must survive as false"
    );
}
#[test]
fn encode_refuses_payload_free_placeholders() {
    for msg in [
        ClientMessage::ClientShellPaneInput,
        ClientMessage::ClientShellPopupInput,
    ] {
        let err = encode(&msg).expect_err("a payload-free placeholder must not be encodable");
        assert!(
            matches!(err, FramingError::Bincode(ref m) if m.contains("placeholder")),
            "unexpected error for {msg:?}: {err:?}"
        );
    }
    assert!(encode(&ClientMessage::Detach).is_ok());
}

#[test]
fn welcome_round_trip() {
    let msg = ServerMessage::Welcome {
        version: HERDR_MAX_TESTED_PROTOCOL,
        encoding: RenderEncoding::TerminalAnsi,
        error: None,
    };
    let framed = frame_server(&msg);
    assert_eq!(
        expect_message(read_server_message(&mut framed.as_slice(), no_diagnosis).unwrap()),
        msg
    );
}
#[test]
fn terminal_frame_decode() {
    let msg = ServerMessage::Terminal(TerminalFrame {
        seq: 42,
        width: 120,
        height: 40,
        full: true,
        bytes: b"\x1b[2J\x1b[1;1Hhello, herdr".to_vec(),
    });
    let framed = frame_server(&msg);

    let decoded = expect_message(read_server_message(&mut framed.as_slice(), no_diagnosis).unwrap());
    assert_eq!(msg, decoded);
    if let ServerMessage::Terminal(tf) = decoded {
        assert_eq!(tf.seq, 42);
        assert_eq!(tf.width, 120);
        assert_eq!(tf.height, 40);
        assert!(tf.full);
    } else {
        panic!("expected Terminal variant");
    }
}
#[test]
fn mouse_capture_round_trip_carries_sgr_pixels() {
    for (enabled, sgr_pixels) in [(true, true), (true, false), (false, false)] {
        let msg = ServerMessage::MouseCapture {
            enabled,
            sgr_pixels,
        };
        let framed = frame_server(&msg);
        assert_eq!(
            expect_message(read_server_message(&mut framed.as_slice(), no_diagnosis).unwrap()),
            msg,
            "MouseCapture {{ enabled: {enabled}, sgr_pixels: {sgr_pixels} }} must round-trip"
        );
    }
}
#[test]
fn server_tag_above_the_ceiling_is_skipped_not_an_error() {
    let framed = frame_raw(HIGHEST_KNOWN_SERVER_TAG + 1, &[0xAA, 0xBB]);
    match read_server_message(&mut framed.as_slice(), no_diagnosis).unwrap() {
        WireFrame::Unknown { tag, len } => {
            assert_eq!(tag, HIGHEST_KNOWN_SERVER_TAG + 1);
            assert_eq!(len, 3, "tag byte + 2 body bytes");
        }
        other => panic!("expected Unknown, got {other:?}"),
    }
}
#[test]
fn unmirrored_server_tags_are_skipped_not_decoded() {
    for tag in UNMIRRORED_SERVER_TAGS {
        assert!(
            tag <= HIGHEST_KNOWN_SERVER_TAG,
            "an unmirrored tag must be a declared one"
        );
        let framed = frame_raw(tag, &[0xFF; 8]);
        match read_server_message(&mut framed.as_slice(), no_diagnosis).unwrap() {
            WireFrame::Unknown { tag: got, len } => {
                assert_eq!(got, tag);
                assert_eq!(len, 9, "tag byte + 8 body bytes");
            }
            other => panic!("expected Unknown for tag {tag}, got {other:?}"),
        }
    }
}
#[test]
fn stream_stays_aligned_after_skipping() {
    let known = ServerMessage::Clipboard {
        data: "after".to_string(),
    };

    let mut stream = frame_raw(HIGHEST_KNOWN_SERVER_TAG + 5, &[1, 2, 3, 4, 5]);
    stream.extend_from_slice(&frame_raw(UNMIRRORED_SERVER_TAGS[0], &[9; 32]));
    stream.extend_from_slice(&frame_server(&known));

    let mut cursor = stream.as_slice();
    assert!(matches!(
        read_server_message(&mut cursor, no_diagnosis).unwrap(),
        WireFrame::Unknown { .. }
    ));
    assert!(matches!(
        read_server_message(&mut cursor, no_diagnosis).unwrap(),
        WireFrame::Unknown { .. }
    ));
    assert_eq!(
        expect_message(read_server_message(&mut cursor, no_diagnosis).unwrap()),
        known,
        "the frame following two skipped ones must still decode"
    );
}

fn standard<T: bincode::Encode>(value: T) -> Vec<u8> {
    bincode::encode_to_vec(value, bincode::config::standard()).unwrap()
}

#[test]
fn payloads_are_the_standard_encoding_of_tag_and_fields() {
    assert_eq!(
        bytes_of(&ClientMessage::TerminalHello {
            version: 70_000,
            cols: 300,
            rows: 40,
            cell_width_px: 0,
            cell_height_px: u32::MAX,
            pixel_mouse: true,
        }),
        standard((0u32, 70_000u32, 300u16, 40u16, 0u32, u32::MAX, true))
    );
    assert_eq!(
        bytes_of(&ClientMessage::AttachScroll {
            source: AttachScrollSource::Wheel,
            direction: AttachScrollDirection::Down,
            lines: 1,
            column: Some(251),
            row: None,
            modifiers: 255,
        }),
        standard((6u32, 0u32, 1u32, 1u16, Some(251u16), None::<u16>, 255u8))
    );
    assert_eq!(
        bytes_of(&ClientMessage::AttachTerminal {
            terminal_id: "größe".to_owned(),
            takeover: true,
        }),
        standard((5u32, "größe".to_owned(), true))
    );
    assert_eq!(
        bytes_of(&ServerMessage::Terminal(TerminalFrame {
            seq: u64::MAX,
            width: 65_535,
            height: 250,
            full: false,
            bytes: vec![0, 1, 255],
        })),
        standard((1u32, u64::MAX, 65_535u16, 250u16, false, vec![0u8, 1, 255]))
    );
    assert_eq!(
        bytes_of(&ClientMessage::Input { data: vec![7; 300] }),
        standard((1u32, vec![7u8; 300]))
    );
}

#[test]
fn a_truncated_or_padded_payload_is_no_message() {
    let payload = bytes_of(&ServerMessage::Clipboard {
        data: "abc".to_owned(),
    });
    let short = frame(&payload[..payload.len() - 1]);
    let told = |p: &[u8]| format!("{} bytes will not do", p.len());
    match read_server_message(&mut short.as_slice(), told) {
        Err(e) => assert_eq!(
            e.message(),
            format!("bincode error: {} bytes will not do", payload.len() - 1)
        ),
        other => panic!("expected an error, got {other:?}"),
    }
    let mut long = payload.clone();
    long.push(0);
    let long = frame(&long);
    match read_server_message(&mut long.as_slice(), told) {
        Err(e) => assert_eq!(
            e.message(),
            format!(
                "bincode error: decoded {} bytes but frame claimed {} — trailing bytes not allowed",
                payload.len(),
                payload.len() + 1
            )
        ),
        other => panic!("expected an error, got {other:?}"),
    }
}

#[test]
fn frames_are_bounded_and_ends_are_told_apart() {
    let mut none: &[u8] = &[];
    assert!(matches!(
        read_server_message(&mut none, no_diagnosis),
        Err(FramingError::UnexpectedEof)
    ));
    let mut cut: &[u8] = &[9, 0, 0, 0, 1];
    assert!(matches!(
        read_server_message(&mut cut, no_diagnosis),
        Err(FramingError::UnexpectedEof)
    ));
    let huge = ((MAX_FRAME_SIZE + 1) as u32).to_le_bytes();
    assert!(matches!(
        payload_len(&huge),
        Err(FramingError::Oversized { .. })
    ));
    assert_eq!(payload_len(&[2, 1, 0, 0]).unwrap(), 258);
}

#[test]
fn only_known_tags_are_decoded() {
    for tag in 0..=HIGHEST_KNOWN_SERVER_TAG {
        assert_eq!(
            is_skippable_server_tag(tag),
            UNMIRRORED_SERVER_TAGS.contains(&tag)
        );
    }
    assert!(is_skippable_server_tag(255));
}

#[test]
fn written_messages_follow_each_other() {
    let mut out = Vec::new();
    write_message(&mut out, &ClientMessage::Detach).unwrap();
    write_message(
        &mut out,
        &ClientMessage::Input {
            data: b"ls".to_vec(),
        },
    )
    .unwrap();
    assert_eq!(out, vec![1, 0, 0, 0, 4, 4, 0, 0, 0, 1, 2, b'l', b's']);
    assert!(write_message(&mut out, &ClientMessage::ClientShellPaneInput).is_err());
    assert_eq!(out.len(), 13, "nothing is written of a refused message");
}
