//! herdr's binary wire protocol as muxrd speaks it.
//!
//! Every frame is a four-byte little-endian payload length followed by the
//! payload. A payload is one message: the declaration index of its variant, then
//! its fields in declaration order ([`super::wire_format`]). The declaration order
//! of [`ClientMessage`] and [`ServerMessage`] is therefore part of the protocol;
//! it is that of protocol version 22. herdr refuses a frame whose decoded length
//! differs from its declared length, so one missing field costs the connection.
//!
//! Four server payloads and two client payloads belong to herdr's client-owned
//! shell and are not modelled. Their variants are declared without fields, purely
//! to hold their tags: the reader skips such a frame by its length prefix, exactly
//! as it skips a tag above the highest known one, and the writer refuses to encode
//! one. A skipped frame is consumed whole, so the stream stays aligned.

use vstd::prelude::*;
use vstd::string::*;

use super::codec::{le_bytes, le_value, lemma_le_len, lemma_le_round_trip, lemma_pow256, stands_at, Wire};
use super::wire_format::{ClientMessageModel, ServerMessageModel};
use crate::text::{decimal, decimal_text};

verus! {

/// Oldest protocol version that this layout is valid for. Diagnostic only: it is
/// never sent, and never decides whether an attach goes ahead.
pub const HERDR_MIN_PROTOCOL: u32 = 22;

/// Newest protocol version that this layout was tested against. Diagnostic only.
pub const HERDR_MAX_TESTED_PROTOCOL: u32 = 22;

/// Highest server tag that the protocol declares ([`ServerMessage::EndpointControl`]).
pub const HIGHEST_KNOWN_SERVER_TAG: u8 = 20;

/// Largest payload accepted from the server: 2 MiB.
pub const MAX_FRAME_SIZE: usize = 2_097_152;

// ---------------------------------------------------------- client side types

/// Render encoding that herdr selects for a connection.
#[derive(Debug, Clone, Copy, PartialEq, Eq, Structural)]
pub enum RenderEncoding {
    /// Full semantic frame values.
    SemanticFrame,
    /// Pre-diffed terminal ANSI byte streams.
    TerminalAnsi,
}

/// Terminal that a client's clipboard image goes to.
#[derive(Debug, Clone, PartialEq, Eq)]
pub enum ClientClipboardImageTarget {
    /// The connection's directly attached terminal.
    DirectTerminal,
    /// A stable pane id in a client-owned shell.
    Pane(String),
    /// A popup terminal id in a client-owned shell.
    Popup(String),
}

/// Scroll direction in attach mode.
#[derive(Debug, Clone, Copy, PartialEq, Eq, Structural)]
pub enum AttachScrollDirection {
    Up,
    Down,
}

/// Input source of an attach-mode scroll.
#[derive(Debug, Clone, PartialEq, Eq)]
pub enum AttachScrollSource {
    /// Mouse wheel.
    Wheel,
    /// Page key.
    PageKey {
        /// Key bytes to forward when the child application owns page keys.
        input: Vec<u8>,
    },
}

/// Pane-surface size requested by a client-owned shell.
#[derive(Debug, Clone, Copy, PartialEq, Eq, Structural)]
pub struct ClientSurfaceSize {
    pub cols: u16,
    pub rows: u16,
}

/// Mouse button.
#[derive(Debug, Clone, Copy, PartialEq, Eq, Structural)]
pub enum ClientMouseButton {
    Left,
    Right,
    Middle,
}

/// Mouse event kind.
#[derive(Debug, Clone, Copy, PartialEq, Eq, Structural)]
pub enum ClientMouseKind {
    Down(ClientMouseButton),
    Up(ClientMouseButton),
    Drag(ClientMouseButton),
    Moved,
    ScrollUp,
    ScrollDown,
    ScrollLeft,
    ScrollRight,
}

/// Where a mouse event landed.
#[derive(Debug, Clone, Copy, PartialEq, Eq, Structural)]
pub enum ClientMousePosition {
    /// Cell coordinates.
    Cell { column: u16, row: u16 },
    /// Pixel coordinates and the cell that they resolve to.
    Pixels { x: u32, y: u32, column: u16, row: u16 },
}

/// Terminal geometry that accompanies a mouse event.
#[derive(Debug, Clone, Copy, PartialEq, Eq, Structural)]
pub struct ClientMouseGeometry {
    pub cols: u16,
    pub rows: u16,
    pub width_px: u32,
    pub height_px: u32,
}

/// A colour of the client's host terminal.
#[derive(Debug, Clone, Copy, PartialEq, Eq, Structural)]
pub struct ClientHostColor {
    pub r: u8,
    pub g: u8,
    pub b: u8,
}

/// Which default colour a theme update carries.
#[derive(Debug, Clone, Copy, PartialEq, Eq, Structural)]
pub enum ClientHostDefaultColorKind {
    Foreground,
    Background,
}

/// Appearance of the host terminal.
#[derive(Debug, Clone, Copy, PartialEq, Eq, Structural)]
pub enum ClientHostAppearance {
    Dark,
    Light,
}

/// One colour or appearance update of the host terminal.
#[derive(Debug, Clone, PartialEq, Eq)]
pub enum ClientHostThemeUpdate {
    DefaultColor { kind: ClientHostDefaultColorKind, color: ClientHostColor },
    PaletteColors(Vec<(u8, ClientHostColor)>),
    Appearance(ClientHostAppearance),
}

/// Messages from muxrd to herdr. The declaration order is the tag order.
///
/// muxrd sends `TerminalHello`, `Input`, `Resize`, `Detach`, `AttachTerminal` and
/// `AttachScroll`; the other variants keep the tags of those correct.
#[derive(Debug, Clone, PartialEq, Eq)]
#[allow(inconsistent_fields)]
pub enum ClientMessage {
    /// Direct terminal handshake, the first message of a connection. Tag 0.
    TerminalHello {
        /// Protocol version, as the server itself reported it.
        version: u32,
        cols: u16,
        rows: u16,
        /// Pixel width of a cell; 0 turns graphics negotiation off.
        cell_width_px: u32,
        /// Pixel height of a cell; 0 turns graphics negotiation off.
        cell_height_px: u32,
        /// Whether this client sends geometry for pixel mouse input.
        pixel_mouse: bool,
    },
    /// Raw input bytes. Tag 1.
    Input { data: Vec<u8> },
    /// Image bytes for clipboard paste. Tag 2.
    ClipboardImage {
        target: ClientClipboardImageTarget,
        /// File extension without a leading dot.
        extension: String,
        data: Vec<u8>,
    },
    /// Terminal resize. Tag 3.
    Resize {
        cols: u16,
        rows: u16,
        cell_width_px: u32,
        cell_height_px: u32,
        pixel_mouse: bool,
    },
    /// Graceful disconnect. Tag 4.
    Detach,
    /// Switch the connection into direct attach mode. Tag 5.
    AttachTerminal {
        /// The attach key.
        terminal_id: String,
        /// Replace an existing writable owner of the terminal.
        takeover: bool,
    },
    /// Scrollback scroll in direct attach mode. Tag 6.
    AttachScroll {
        source: AttachScrollSource,
        direction: AttachScrollDirection,
        lines: u16,
        column: Option<u16>,
        row: Option<u16>,
        /// Modifier bitmask.
        modifiers: u8,
    },
    /// Read-only observe mode. Tag 7.
    ObserveTerminal { target: String },
    /// Writable control mode. Tag 8.
    ControlTerminal { target: String, takeover: bool },
    /// Result of a graphics transmission. Tag 9.
    GraphicsTransmissionResult { transfer_id: u64, image_id: u32, success: bool },
    /// A graphics command was written. Tag 10.
    GraphicsTransmissionStarted { transfer_id: u64, image_id: u32 },
    /// Handshake of a client-owned shell. Tag 11.
    ClientShellHello {
        version: u32,
        cell_width_px: u32,
        cell_height_px: u32,
        surface_size: ClientSurfaceSize,
        pixel_mouse: bool,
        direct_graphics: bool,
        endpoint_keybindings: bool,
        mouse_capture: bool,
    },
    /// Resize of a client-owned shell's viewport. Tag 12.
    ClientShellResize {
        cell_width_px: u32,
        cell_height_px: u32,
        surface_size: ClientSurfaceSize,
        pixel_mouse: bool,
    },
    /// Holds tag 13; its payload is not modelled and it is never sent.
    ClientShellPaneInput,
    /// Holds tag 14; its payload is not modelled and it is never sent.
    ClientShellPopupInput,
    /// One endpoint operation. Tag 15.
    ClientShellEndpointRequest { boot_id: String, request: String },
    /// One mouse event for an attached terminal. Tag 16.
    AttachMouse {
        kind: ClientMouseKind,
        position: ClientMousePosition,
        geometry: Option<ClientMouseGeometry>,
        /// Modifier bitmask.
        modifiers: u8,
        lines: u16,
    },
    /// Host terminal theme update. Tag 17.
    ClientShellHostTheme { update: ClientHostThemeUpdate },
    /// Whether the outer terminal has focus. Tag 18.
    ClientShellFocus { focused: bool },
    /// Mouse-capture preference. Tag 19.
    ClientShellMouseCapture { enabled: bool },
    /// Named control message. Tag 20.
    EndpointControl { kind: String, data: String },
}

// ---------------------------------------------------------- server side types

/// Terminal ANSI bytes: the payload that muxrd renders.
#[derive(Debug, Clone, PartialEq, Eq)]
pub struct TerminalFrame {
    /// Sequence number, rising per client.
    pub seq: u64,
    pub width: u16,
    pub height: u16,
    /// Full repaint, as opposed to an incremental diff.
    pub full: bool,
    /// Escape sequences, ready to be written to the terminal.
    pub bytes: Vec<u8>,
}

/// Notification kind.
#[derive(Debug, Clone, Copy, PartialEq, Eq, Structural)]
pub enum NotifyKind {
    Sound,
    Toast,
    SystemToast,
}

/// Target of a graphics upload.
#[derive(Debug, Clone, PartialEq, Eq)]
pub enum SurfaceGraphicsTarget {
    Pane { pane_id: String },
    Popup { terminal_id: String },
}

/// Origin of a graphics asset.
#[derive(Debug, Clone, PartialEq, Eq)]
pub enum SurfaceGraphicsSource {
    Terminal { target: SurfaceGraphicsTarget, image_id: u32 },
    PaneLayer { pane_id: String, layer_id: String },
}

/// Pixel format of a graphics asset.
#[derive(Debug, Clone, Copy, PartialEq, Eq, Structural)]
pub enum SurfaceGraphicsFormat {
    Rgb,
    Rgba,
    Png,
}

/// Identity of a graphics asset.
#[derive(Debug, Clone, PartialEq, Eq)]
pub struct SurfaceGraphicsAssetKey {
    pub source: SurfaceGraphicsSource,
    pub image_width: u32,
    pub image_height: u32,
    pub format: SurfaceGraphicsFormat,
    pub data_len: u64,
    pub data_fingerprint: u64,
}

/// Messages from herdr to muxrd. The declaration order is the tag order.
#[derive(Debug, Clone, PartialEq, Eq)]
#[allow(inconsistent_fields)]
pub enum ServerMessage {
    /// Handshake response. Tag 0.
    Welcome {
        version: u32,
        encoding: RenderEncoding,
        /// Why the handshake was refused, if it was.
        error: Option<String>,
    },
    /// Terminal bytes. Tag 1.
    Terminal(TerminalFrame),
    /// Graphics bytes. Tag 2.
    Graphics { bytes: Vec<u8> },
    /// The server is shutting down. Tag 3.
    ServerShutdown { reason: Option<String> },
    /// Notification. Tag 4.
    Notify { kind: NotifyKind, message: String, body: Option<String> },
    /// Clipboard data. Tag 5.
    Clipboard { data: String },
    /// Window title. Tag 6.
    WindowTitle { title: Option<String> },
    /// Reload the client's sound configuration. Tag 7.
    ReloadSoundConfig,
    /// Whether the client should capture the mouse. Tag 8.
    MouseCapture { enabled: bool, sgr_pixels: bool },
    /// Ring the outer terminal. Tag 9.
    TerminalBell { count: u16 },
    /// One graphics file transmission. Tag 10.
    GraphicsFile {
        path: String,
        expected_len: u64,
        image_id: u32,
        transfer_id: u64,
        leading: Vec<u8>,
        control: String,
        /// Upload identity; absent for a direct terminal client.
        surface_asset: Option<SurfaceGraphicsAssetKey>,
    },
    /// A graphics command expired. Tag 11.
    GraphicsTransmissionRetired { transfer_id: u64, image_id: u32 },
    /// Holds tag 12; such a frame is skipped.
    ClientShellSnapshot,
    /// Holds tag 13; such a frame is skipped.
    PaneSurface,
    /// Holds tag 14; such a frame is skipped.
    SemanticNotification,
    /// Endpoint error for a client-owned shell. Tag 15.
    ClientShellError { message: String },
    /// Keyboard flags requested by the attached terminal. Tag 16.
    DirectTerminalKeyboardProtocol { flags: u16, modify_other_keys_level: u8 },
    /// Whether every key must be reported. Tag 17.
    ClientShellKeyboardReportAll { enabled: bool },
    /// One chunk of an endpoint response. Tag 18.
    ClientShellEndpointResponseChunk {
        boot_id: String,
        request_id: String,
        final_chunk: bool,
        data: Vec<u8>,
    },
    /// Holds tag 19; such a frame is skipped.
    PaneSurfacePatch,
    /// Named control message. Tag 20.
    EndpointControl { kind: String, data: String },
}

// -------------------------------------------------------------------- framing

/// One frame read off the wire.
#[derive(Debug)]
pub enum WireFrame {
    /// A message.
    Message(Box<ServerMessage>),
    /// A frame that is skipped by its length prefix.
    Unknown { tag: u8, len: usize },
}

/// Why a frame could not be read or written.
#[derive(Debug)]
pub enum FramingError {
    /// The declared length exceeds [`MAX_FRAME_SIZE`].
    Oversized { claimed: usize, max: usize },
    /// The transport failed.
    Io(String),
    /// The payload is not a message, or a message cannot be a payload.
    Bincode(String),
    /// The stream ended before a frame did.
    UnexpectedEof,
}

impl FramingError {
    /// The text of the error.
    pub open spec fn text(&self) -> Seq<char> {
        match self {
            FramingError::Oversized { claimed, max } => "frame length "@ + decimal(*claimed as nat)
                + " exceeds maximum "@ + decimal(*max as nat),
            FramingError::Io(e) => "I/O error: "@ + e@,
            FramingError::Bincode(e) => "bincode error: "@ + e@,
            FramingError::UnexpectedEof => "unexpected end of stream"@,
        }
    }

    /// The text of the error.
    pub fn message(&self) -> (t: String)
        ensures
            t@ == self.text(),
    {
        match self {
            FramingError::Oversized { claimed, max } => {
                let mut t = "frame length ".to_owned();
                t.append(decimal_text(*claimed as u64).as_str());
                t.append(" exceeds maximum ");
                t.append(decimal_text(*max as u64).as_str());
                t
            },
            FramingError::Io(e) => "I/O error: ".to_owned().concat(e.as_str()),
            FramingError::Bincode(e) => "bincode error: ".to_owned().concat(e.as_str()),
            FramingError::UnexpectedEof => "unexpected end of stream".to_owned(),
        }
    }
}

/// Whether a server frame with this tag is skipped rather than decoded: a tag
/// above the highest known one, or one of the four whose payload is not modelled.
pub open spec fn skippable(tag: u8) -> bool {
    tag > HIGHEST_KNOWN_SERVER_TAG || tag == 12 || tag == 13 || tag == 14 || tag == 19
}

/// Whether a server frame with this tag is skipped rather than decoded.
pub fn is_skippable_server_tag(tag: u8) -> (skip: bool)
    ensures
        skip == skippable(tag),
{
    tag > HIGHEST_KNOWN_SERVER_TAG || tag == 12 || tag == 13 || tag == 14 || tag == 19
}

/// The frame around a payload.
pub open spec fn frame(payload: Seq<u8>) -> Seq<u8> {
    le_bytes(payload.len(), 4) + payload
}

/// The name of a client message that only holds a tag.
pub open spec fn placeholder_name(msg: ClientMessage) -> Option<Seq<char>> {
    match msg {
        ClientMessage::ClientShellPaneInput => Some("ClientShellPaneInput"@),
        ClientMessage::ClientShellPopupInput => Some("ClientShellPopupInput"@),
        _ => None,
    }
}

/// Why a placeholder is not encoded.
pub open spec fn placeholder_refusal(name: Seq<char>) -> Seq<char> {
    name
        + " is a payload-free tag placeholder, not a message muxrd can send — mirror its payload from herdr's source first"@
}

/// Why an overlong payload is not framed.
pub open spec fn overlong_refusal(len: nat) -> Seq<char> {
    "payload length "@ + decimal(len) + " exceeds u32::MAX — too large to frame"@
}

fn refuse_placeholder(name: &str) -> (e: FramingError)
    ensures
        e matches FramingError::Bincode(t) && t@ == placeholder_refusal(name@),
{
    let mut t = name.to_owned();
    t.append(
        " is a payload-free tag placeholder, not a message muxrd can send — mirror its payload from herdr's source first",
    );
    FramingError::Bincode(t)
}

/// Encodes a client message as a frame, ready for the socket.
///
/// The two placeholders are refused: herdr would drop such a frame and close the
/// connection without a reply.
pub fn encode(msg: &ClientMessage) -> (r: Result<Vec<u8>, FramingError>)
    ensures
        r is Ok <==> placeholder_name(*msg) is None && ClientMessage::bytes(msg.model()).len()
            <= u32::MAX,
        r matches Ok(f) ==> f@ == frame(ClientMessage::bytes(msg.model())),
        r matches Err(e) ==> (e matches FramingError::Bincode(t) && t@ == (
        match placeholder_name(*msg) {
            Some(name) => placeholder_refusal(name),
            None => overlong_refusal(ClientMessage::bytes(msg.model()).len()),
        })),
{
    match msg {
        ClientMessage::ClientShellPaneInput => {
            return Err(refuse_placeholder("ClientShellPaneInput"));
        },
        ClientMessage::ClientShellPopupInput => {
            return Err(refuse_placeholder("ClientShellPopupInput"));
        },
        _ => {},
    }
    let mut payload: Vec<u8> = Vec::new();
    msg.put(&mut payload);
    proof {
        assert(payload@ =~= ClientMessage::bytes(msg.model()));
    }
    let len: usize = payload.len();
    if len as u64 > u32::MAX as u64 {
        let mut t = "payload length ".to_owned();
        t.append(decimal_text(len as u64).as_str());
        t.append(" exceeds u32::MAX — too large to frame");
        return Err(FramingError::Bincode(t));
    }
    let mut out: Vec<u8> = Vec::new();
    let b0: u8 = (len % 256) as u8;
    let b1: u8 = (len / 256 % 256) as u8;
    let b2: u8 = (len / 65536 % 256) as u8;
    let b3: u8 = (len / 16777216 % 256) as u8;
    out.push(b0);
    out.push(b1);
    out.push(b2);
    out.push(b3);
    proof {
        reveal_with_fuel(le_bytes, 5);
        assert(len as nat / 256 / 256 == len as nat / 65536);
        assert(len as nat / 65536 / 256 == len as nat / 16777216);
        assert(out@ =~= le_bytes(len as nat, 4));
    }
    out.append(&mut payload);
    Ok(out)
}

/// What reading one frame from the front of a stream comes to.
pub enum FrameRead {
    /// A message.
    Message(ServerMessageModel),
    /// A frame skipped by its length prefix.
    Unknown { tag: u8, len: nat },
    /// A declared length above the maximum.
    Oversized(nat),
    /// A payload without a single byte.
    Empty,
    /// A payload that no server message has.
    Undecodable,
    /// A message that is shorter than its frame.
    Trailing { consumed: nat, claimed: nat },
    /// The stream ends first.
    Eof,
}

/// What a whole payload means.
pub open spec fn payload_meaning(payload: Seq<u8>) -> FrameRead {
    if payload.len() == 0 {
        FrameRead::Empty
    } else if skippable(payload[0]) {
        FrameRead::Unknown { tag: payload[0], len: payload.len() }
    } else {
        match ServerMessage::parse(payload, 0) {
            Some((m, end)) => if end == payload.len() {
                FrameRead::Message(m)
            } else {
                FrameRead::Trailing { consumed: end as nat, claimed: payload.len() }
            },
            None => FrameRead::Undecodable,
        }
    }
}

/// The payload length that a stream's first four bytes declare.
pub open spec fn declared_len(s: Seq<u8>) -> nat {
    le_value(s, 0, 4)
}

/// What the frame at the front of a stream means.
pub open spec fn frame_meaning(s: Seq<u8>) -> FrameRead {
    if s.len() < 4 {
        FrameRead::Eof
    } else if declared_len(s) > MAX_FRAME_SIZE {
        FrameRead::Oversized(declared_len(s))
    } else if s.len() < 4 + declared_len(s) {
        FrameRead::Eof
    } else {
        payload_meaning(s.subrange(4, 4 + declared_len(s) as int))
    }
}

/// What is left of a stream after its first frame was read. A stream that ends
/// inside the frame is used up.
pub open spec fn after_frame(s: Seq<u8>) -> Seq<u8> {
    match frame_meaning(s) {
        FrameRead::Eof => Seq::empty(),
        FrameRead::Oversized(_) => s.skip(4),
        _ => s.skip(4 + declared_len(s) as int),
    }
}

/// The payload of the frame at the front of a stream.
pub open spec fn first_payload(s: Seq<u8>) -> Seq<u8> {
    s.subrange(4, 4 + declared_len(s) as int)
}

/// Whether `t` can be what `diagnose` says of a payload.
pub open spec fn diagnosed<F: Fn(&[u8]) -> String>(diagnose: F, payload: Seq<u8>, t: String) -> bool {
    exists|p: &[u8]| p@ == payload && #[trigger] call_ensures(diagnose, (p,), t)
}

/// Whether a result says what the read of a payload came to. What is wrong with a payload
/// that does not decode is for `diagnose` to say.
pub open spec fn reports<F: Fn(&[u8]) -> String>(
    r: Result<WireFrame, FramingError>,
    read: FrameRead,
    payload: Seq<u8>,
    diagnose: F,
) -> bool {
    match read {
        FrameRead::Message(m) => r matches Ok(WireFrame::Message(b)) && (*b).model() == m,
        FrameRead::Unknown { tag, len } => r matches Ok(WireFrame::Unknown { tag: t, len: n }) && t
            == tag && n == len,
        FrameRead::Oversized(n) => r matches Err(FramingError::Oversized { claimed, max })
            && claimed == n && max == MAX_FRAME_SIZE,
        FrameRead::Empty => r matches Err(FramingError::Bincode(t)) && t@
            == "empty frame payload — no variant tag"@,
        FrameRead::Undecodable => r matches Err(FramingError::Bincode(t)) && diagnosed(
            diagnose,
            payload,
            t,
        ),
        FrameRead::Trailing { consumed, claimed } => r matches Err(FramingError::Bincode(t)) && t@
            == "decoded "@ + decimal(consumed) + " bytes but frame claimed "@ + decimal(claimed)
            + " — trailing bytes not allowed"@,
        FrameRead::Eof => r matches Err(FramingError::UnexpectedEof),
    }
}

/// Decodes one whole payload. Only of one that does not decode is `diagnose` asked.
pub fn decode_payload<F: Fn(&[u8]) -> String>(payload: &[u8], diagnose: F) -> (r: Result<
    WireFrame,
    FramingError,
>)
    requires
        forall|p: &[u8]| #[trigger] call_requires(diagnose, (p,)),
    ensures
        reports(r, payload_meaning(payload@), payload@, diagnose),
{
    if payload.len() == 0 {
        return Err(FramingError::Bincode("empty frame payload — no variant tag".to_owned()));
    }
    let tag: u8 = payload[0];
    let claimed: usize = payload.len();
    if is_skippable_server_tag(tag) {
        return Ok(WireFrame::Unknown { tag, len: claimed });
    }
    match ServerMessage::get(payload, 0) {
        Some((msg, consumed)) => {
            if consumed != claimed {
                let mut t = "decoded ".to_owned();
                t.append(decimal_text(consumed as u64).as_str());
                t.append(" bytes but frame claimed ");
                t.append(decimal_text(claimed as u64).as_str());
                t.append(" — trailing bytes not allowed");
                return Err(FramingError::Bincode(t));
            }
            Ok(WireFrame::Message(Box::new(msg)))
        },
        None => Err(FramingError::Bincode(diagnose(payload))),
    }
}

/// Reads the length prefix of a frame and refuses one above [`MAX_FRAME_SIZE`],
/// before anything of that length is allocated.
pub fn payload_len(prefix: &[u8]) -> (r: Result<usize, FramingError>)
    requires
        prefix@.len() >= 4,
    ensures
        match r {
            Ok(n) => n == declared_len(prefix@) && n <= MAX_FRAME_SIZE,
            Err(e) => declared_len(prefix@) > MAX_FRAME_SIZE && (e matches FramingError::Oversized {
                claimed,
                max,
            } && claimed == declared_len(prefix@) && max == MAX_FRAME_SIZE),
        },
{
    let claimed: u32 = prefix[0] as u32 + prefix[1] as u32 * 256 + prefix[2] as u32 * 65536
        + prefix[3] as u32 * 16777216;
    proof {
        reveal_with_fuel(le_value, 5);
        assert(declared_len(prefix@) == claimed);
    }
    let claimed: usize = claimed as usize;
    if claimed > MAX_FRAME_SIZE {
        return Err(FramingError::Oversized { claimed, max: MAX_FRAME_SIZE });
    }
    Ok(claimed)
}

/// Reads one frame from the front of `reader` and advances it past that frame. Only of a
/// payload that does not decode is `diagnose` asked.
pub fn read_server_message<'a, F: Fn(&[u8]) -> String>(
    reader: &mut &'a [u8],
    diagnose: F,
) -> (r: Result<WireFrame, FramingError>)
    requires
        forall|p: &[u8]| #[trigger] call_requires(diagnose, (p,)),
    ensures
        reports(
            r,
            frame_meaning((*old(reader))@),
            first_payload((*old(reader))@),
            diagnose,
        ),
        (*final(reader))@ == after_frame((*old(reader))@),
{
    let s: &'a [u8] = *reader;
    if s.len() < 4 {
        *reader = vstd::slice::slice_subrange(s, s.len(), s.len());
        proof {
            assert((*reader)@ =~= Seq::empty());
        }
        return Err(FramingError::UnexpectedEof);
    }
    match payload_len(s) {
        Err(e) => {
            *reader = vstd::slice::slice_subrange(s, 4, s.len());
            proof {
                assert((*reader)@ =~= s@.skip(4));
            }
            Err(e)
        },
        Ok(claimed) => {
            if s.len() - 4 < claimed {
                *reader = vstd::slice::slice_subrange(s, s.len(), s.len());
                proof {
                    assert((*reader)@ =~= Seq::empty());
                }
                return Err(FramingError::UnexpectedEof);
            }
            let payload = vstd::slice::slice_subrange(s, 4, 4 + claimed);
            *reader = vstd::slice::slice_subrange(s, 4 + claimed, s.len());
            proof {
                assert((*reader)@ =~= s@.skip(4 + claimed as int));
            }
            decode_payload(payload, diagnose)
        },
    }
}

/// Encodes a client message and appends the frame to `out`.
pub fn write_message(out: &mut Vec<u8>, msg: &ClientMessage) -> (r: Result<(), FramingError>)
    ensures
        r is Ok <==> placeholder_name(*msg) is None && ClientMessage::bytes(msg.model()).len()
            <= u32::MAX,
        r is Ok ==> final(out)@ == old(out)@ + frame(ClientMessage::bytes(msg.model())),
        r matches Err(e) ==> final(out)@ == old(out)@ && (e matches FramingError::Bincode(t) && t@
            == (match placeholder_name(*msg) {
            Some(name) => placeholder_refusal(name),
            None => overlong_refusal(ClientMessage::bytes(msg.model()).len()),
        })),
{
    match encode(msg) {
        Ok(mut f) => {
            out.append(&mut f);
            Ok(())
        },
        Err(e) => Err(e),
    }
}

// ----------------------------------------------------------------------- laws

/// The tag of a client message: its place in the declaration order.
pub open spec fn client_tag(m: ClientMessageModel) -> u8 {
    match m {
        ClientMessageModel::TerminalHello { .. } => 0,
        ClientMessageModel::Input { .. } => 1,
        ClientMessageModel::ClipboardImage { .. } => 2,
        ClientMessageModel::Resize { .. } => 3,
        ClientMessageModel::Detach => 4,
        ClientMessageModel::AttachTerminal { .. } => 5,
        ClientMessageModel::AttachScroll { .. } => 6,
        ClientMessageModel::ObserveTerminal { .. } => 7,
        ClientMessageModel::ControlTerminal { .. } => 8,
        ClientMessageModel::GraphicsTransmissionResult { .. } => 9,
        ClientMessageModel::GraphicsTransmissionStarted { .. } => 10,
        ClientMessageModel::ClientShellHello { .. } => 11,
        ClientMessageModel::ClientShellResize { .. } => 12,
        ClientMessageModel::ClientShellPaneInput => 13,
        ClientMessageModel::ClientShellPopupInput => 14,
        ClientMessageModel::ClientShellEndpointRequest { .. } => 15,
        ClientMessageModel::AttachMouse { .. } => 16,
        ClientMessageModel::ClientShellHostTheme { .. } => 17,
        ClientMessageModel::ClientShellFocus { .. } => 18,
        ClientMessageModel::ClientShellMouseCapture { .. } => 19,
        ClientMessageModel::EndpointControl { .. } => 20,
    }
}

/// The tag of a server message: its place in the declaration order.
pub open spec fn server_tag(m: ServerMessageModel) -> u8 {
    match m {
        ServerMessageModel::Welcome { .. } => 0,
        ServerMessageModel::Terminal(_) => 1,
        ServerMessageModel::Graphics { .. } => 2,
        ServerMessageModel::ServerShutdown { .. } => 3,
        ServerMessageModel::Notify { .. } => 4,
        ServerMessageModel::Clipboard { .. } => 5,
        ServerMessageModel::WindowTitle { .. } => 6,
        ServerMessageModel::ReloadSoundConfig => 7,
        ServerMessageModel::MouseCapture { .. } => 8,
        ServerMessageModel::TerminalBell { .. } => 9,
        ServerMessageModel::GraphicsFile { .. } => 10,
        ServerMessageModel::GraphicsTransmissionRetired { .. } => 11,
        ServerMessageModel::ClientShellSnapshot => 12,
        ServerMessageModel::PaneSurface => 13,
        ServerMessageModel::SemanticNotification => 14,
        ServerMessageModel::ClientShellError { .. } => 15,
        ServerMessageModel::DirectTerminalKeyboardProtocol { .. } => 16,
        ServerMessageModel::ClientShellKeyboardReportAll { .. } => 17,
        ServerMessageModel::ClientShellEndpointResponseChunk { .. } => 18,
        ServerMessageModel::PaneSurfacePatch => 19,
        ServerMessageModel::EndpointControl { .. } => 20,
    }
}

/// Every client payload starts with its message's tag.
pub proof fn law_client_payload_starts_with_its_tag(m: ClientMessageModel)
    ensures
        ClientMessage::bytes(m).len() >= 1,
        ClientMessage::bytes(m)[0] == client_tag(m),
{
}

/// Every server payload starts with its message's tag.
pub proof fn law_server_payload_starts_with_its_tag(m: ServerMessageModel)
    ensures
        ServerMessage::bytes(m).len() >= 1,
        ServerMessage::bytes(m)[0] == server_tag(m),
{
}

/// A frame's length prefix declares the length of its payload, whatever follows.
proof fn lemma_frame_prefix(payload: Seq<u8>, rest: Seq<u8>)
    requires
        payload.len() <= u32::MAX,
    ensures
        (frame(payload) + rest).len() == 4 + payload.len() + rest.len(),
        declared_len(frame(payload) + rest) == payload.len(),
        (frame(payload) + rest).subrange(4, 4 + payload.len() as int) == payload,
        (frame(payload) + rest).skip(4 + payload.len() as int) == rest,
{
    let s = frame(payload) + rest;
    let prefix = le_bytes(payload.len(), 4);
    lemma_pow256();
    lemma_le_len(payload.len(), 4);
    assert(stands_at(s, 0, prefix)) by {
        assert forall|i: int| 0 <= i < prefix.len() implies s[0 + i] == #[trigger] prefix[i] by {}
    }
    lemma_le_round_trip(payload.len(), 4, s, 0);
    assert(s.subrange(4, 4 + payload.len() as int) =~= payload);
    assert(s.skip(4 + payload.len() as int) =~= rest);
}

/// Reading a frame takes exactly that frame off the stream, whatever the payload
/// is and whatever follows: a frame that is skipped, or that does not decode,
/// leaves the stream aligned on the next one.
pub proof fn law_reading_a_frame_keeps_the_stream_aligned(payload: Seq<u8>, rest: Seq<u8>)
    requires
        payload.len() <= MAX_FRAME_SIZE,
    ensures
        frame_meaning(frame(payload) + rest) == payload_meaning(payload),
        after_frame(frame(payload) + rest) == rest,
{
    lemma_frame_prefix(payload, rest);
}

/// A server message that is written to the stream is read back as it was, and what
/// follows it is left for the next read.
pub proof fn law_a_server_message_reads_back(m: ServerMessageModel, rest: Seq<u8>)
    requires
        !skippable(server_tag(m)),
        ServerMessage::bytes(m).len() <= MAX_FRAME_SIZE,
    ensures
        frame_meaning(frame(ServerMessage::bytes(m)) + rest) == FrameRead::Message(m),
        after_frame(frame(ServerMessage::bytes(m)) + rest) == rest,
{
    let payload = ServerMessage::bytes(m);
    law_server_payload_starts_with_its_tag(m);
    lemma_frame_prefix(payload, rest);
    ServerMessage::lemma_round_trip(m, payload, 0);
}

/// A frame whose tag is above the highest known one, or whose payload is not
/// modelled, is skipped and never an error.
pub proof fn law_an_unmodelled_frame_is_skipped(payload: Seq<u8>, rest: Seq<u8>)
    requires
        1 <= payload.len() <= MAX_FRAME_SIZE,
        skippable(payload[0]),
    ensures
        frame_meaning(frame(payload) + rest) == (FrameRead::Unknown {
            tag: payload[0],
            len: payload.len(),
        }),
        after_frame(frame(payload) + rest) == rest,
{
    lemma_frame_prefix(payload, rest);
}

/// The frame of a client message holds that message and no other: decoding its
/// payload gives the message back and uses every byte.
pub proof fn law_a_client_message_reads_back(m: ClientMessageModel)
    requires
        ClientMessage::bytes(m).len() <= u32::MAX,
    ensures
        declared_len(frame(ClientMessage::bytes(m))) == ClientMessage::bytes(m).len(),
        frame(ClientMessage::bytes(m)).subrange(4, 4 + ClientMessage::bytes(m).len() as int)
            == ClientMessage::bytes(m),
        ClientMessage::parse(ClientMessage::bytes(m), 0) == Some(
            (m, ClientMessage::bytes(m).len() as int),
        ),
{
    let payload = ClientMessage::bytes(m);
    lemma_frame_prefix(payload, Seq::empty());
    assert(frame(payload) + Seq::empty() =~= frame(payload));
    ClientMessage::lemma_round_trip(m, payload, 0);
}

/// Two client messages with the same bytes are the same message.
pub proof fn law_client_encoding_is_injective(a: ClientMessageModel, b: ClientMessageModel)
    requires
        ClientMessage::bytes(a) == ClientMessage::bytes(b),
        ClientMessage::bytes(a).len() <= u32::MAX,
    ensures
        a == b,
{
    law_a_client_message_reads_back(a);
    law_a_client_message_reads_back(b);
}

/// The frames of a sequence of payloads, one after the other.
pub open spec fn frames(payloads: Seq<Seq<u8>>) -> Seq<u8>
    decreases payloads.len(),
{
    if payloads.len() == 0 {
        Seq::empty()
    } else {
        frame(payloads[0]) + frames(payloads.skip(1))
    }
}

/// What is left of a stream after `n` frames were read.
pub open spec fn after_frames(s: Seq<u8>, n: nat) -> Seq<u8>
    decreases n,
{
    if n == 0 {
        s
    } else {
        after_frames(after_frame(s), (n - 1) as nat)
    }
}

/// Of a stream of frames, the read after any number of reads means the payload in
/// that place: no frame, skipped or not, shifts those behind it.
pub proof fn law_a_stream_reads_back_in_order(payloads: Seq<Seq<u8>>, i: int)
    requires
        0 <= i < payloads.len(),
        forall|j: int| 0 <= j < payloads.len() ==> (#[trigger] payloads[j]).len() <= MAX_FRAME_SIZE,
    ensures
        frame_meaning(after_frames(frames(payloads), i as nat)) == payload_meaning(payloads[i]),
    decreases i,
{
    let rest = payloads.skip(1);
    law_reading_a_frame_keeps_the_stream_aligned(payloads[0], frames(rest));
    if i > 0 {
        assert forall|j: int| 0 <= j < rest.len() implies (#[trigger] rest[j]).len()
            <= MAX_FRAME_SIZE by {
            assert(rest[j] == payloads[j + 1]);
        }
        law_a_stream_reads_back_in_order(rest, i - 1);
        assert(rest[i - 1] == payloads[i]);
    }
}

} // verus!
