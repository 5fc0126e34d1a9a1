//! The payload layout of every wire message: which bytes stand for it, and how
//! bytes are read back. A variant is its declaration index and then its fields in
//! declaration order.

use vstd::prelude::*;

use super::codec::{lemma_stands_split, put2, put3, put4, put5, put6, put7, put8, Wire};
use super::wire::{
    AttachScrollDirection, AttachScrollSource, ClientClipboardImageTarget,
    ClientHostAppearance, ClientHostColor, ClientHostDefaultColorKind, ClientHostThemeUpdate,
    ClientMessage, ClientMouseButton, ClientMouseGeometry, ClientMouseKind,
    ClientMousePosition, ClientSurfaceSize, NotifyKind, RenderEncoding, ServerMessage,
    SurfaceGraphicsAssetKey, SurfaceGraphicsFormat, SurfaceGraphicsSource,
    SurfaceGraphicsTarget, TerminalFrame,
};

verus! {

/// What a [`ClientClipboardImageTarget`] is mathematically.
pub enum ClipboardImageTargetModel {
    DirectTerminal,
    Pane(Seq<char>),
    Popup(Seq<char>),
}

/// What a [`AttachScrollSource`] is mathematically.
pub enum ScrollSourceModel {
    Wheel,
    PageKey { input: Seq<u8> },
}

/// What a [`ClientHostThemeUpdate`] is mathematically.
pub enum HostThemeUpdateModel {
    DefaultColor { kind: ClientHostDefaultColorKind, color: ClientHostColor },
    PaletteColors(Seq<(u8, ClientHostColor)>),
    Appearance(ClientHostAppearance),
}

/// What a [`ClientMessage`] is mathematically.
#[allow(inconsistent_fields)]
pub enum ClientMessageModel {
    TerminalHello { version: u32, cols: u16, rows: u16, cell_width_px: u32, cell_height_px: u32, pixel_mouse: bool },
    Input { data: Seq<u8> },
    ClipboardImage { target: ClipboardImageTargetModel, extension: Seq<char>, data: Seq<u8> },
    Resize { cols: u16, rows: u16, cell_width_px: u32, cell_height_px: u32, pixel_mouse: bool },
    Detach,
    AttachTerminal { terminal_id: Seq<char>, takeover: bool },
    AttachScroll { source: ScrollSourceModel, direction: AttachScrollDirection, lines: u16, column: Option<u16>, row: Option<u16>, modifiers: u8 },
    ObserveTerminal { target: Seq<char> },
    ControlTerminal { target: Seq<char>, takeover: bool },
    GraphicsTransmissionResult { transfer_id: u64, image_id: u32, success: bool },
    GraphicsTransmissionStarted { transfer_id: u64, image_id: u32 },
    ClientShellHello { version: u32, cell_width_px: u32, cell_height_px: u32, surface_size: ClientSurfaceSize, pixel_mouse: bool, direct_graphics: bool, endpoint_keybindings: bool, mouse_capture: bool },
    ClientShellResize { cell_width_px: u32, cell_height_px: u32, surface_size: ClientSurfaceSize, pixel_mouse: bool },
    ClientShellPaneInput,
    ClientShellPopupInput,
    ClientShellEndpointRequest { boot_id: Seq<char>, request: Seq<char> },
    AttachMouse { kind: ClientMouseKind, position: ClientMousePosition, geometry: Option<ClientMouseGeometry>, modifiers: u8, lines: u16 },
    ClientShellHostTheme { update: HostThemeUpdateModel },
    ClientShellFocus { focused: bool },
    ClientShellMouseCapture { enabled: bool },
    EndpointControl { kind: Seq<char>, data: Seq<char> },
}

/// What a [`TerminalFrame`] is mathematically.
pub struct TerminalFrameModel {
    pub seq: u64,
    pub width: u16,
    pub height: u16,
    pub full: bool,
    pub bytes: Seq<u8>,
}

/// What a [`SurfaceGraphicsTarget`] is mathematically.
pub enum GraphicsTargetModel {
    Pane { pane_id: Seq<char> },
    Popup { terminal_id: Seq<char> },
}

/// What a [`SurfaceGraphicsSource`] is mathematically.
pub enum GraphicsSourceModel {
    Terminal { target: GraphicsTargetModel, image_id: u32 },
    PaneLayer { pane_id: Seq<char>, layer_id: Seq<char> },
}

/// What a [`SurfaceGraphicsAssetKey`] is mathematically.
pub struct GraphicsAssetKeyModel {
    pub source: GraphicsSourceModel,
    pub image_width: u32,
    pub image_height: u32,
    pub format: SurfaceGraphicsFormat,
    pub data_len: u64,
    pub data_fingerprint: u64,
}

/// What a [`ServerMessage`] is mathematically.
#[allow(inconsistent_fields)]
pub enum ServerMessageModel {
    Welcome { version: u32, encoding: RenderEncoding, error: Option<Seq<char>> },
    Terminal(TerminalFrameModel),
    Graphics { bytes: Seq<u8> },
    ServerShutdown { reason: Option<Seq<char>> },
    Notify { kind: NotifyKind, message: Seq<char>, body: Option<Seq<char>> },
    Clipboard { data: Seq<char> },
    WindowTitle { title: Option<Seq<char>> },
    ReloadSoundConfig,
    MouseCapture { enabled: bool, sgr_pixels: bool },
    TerminalBell { count: u16 },
    GraphicsFile { path: Seq<char>, expected_len: u64, image_id: u32, transfer_id: u64, leading: Seq<u8>, control: Seq<char>, surface_asset: Option<GraphicsAssetKeyModel> },
    GraphicsTransmissionRetired { transfer_id: u64, image_id: u32 },
    ClientShellSnapshot,
    PaneSurface,
    SemanticNotification,
    ClientShellError { message: Seq<char> },
    DirectTerminalKeyboardProtocol { flags: u16, modify_other_keys_level: u8 },
    ClientShellKeyboardReportAll { enabled: bool },
    ClientShellEndpointResponseChunk { boot_id: Seq<char>, request_id: Seq<char>, final_chunk: bool, data: Seq<u8> },
    PaneSurfacePatch,
    EndpointControl { kind: Seq<char>, data: Seq<char> },
}

impl Wire for RenderEncoding {
    type Model = RenderEncoding;

    open spec fn model(&self) -> RenderEncoding {
        *self
    }

    open spec fn bytes(m: RenderEncoding) -> Seq<u8> {
        match m {
            RenderEncoding::SemanticFrame => u32::bytes(0u32),
            RenderEncoding::TerminalAnsi => u32::bytes(1u32),
        }
    }

    open spec fn parse(s: Seq<u8>, pos: int) -> Option<(RenderEncoding, int)> {
        match u32::parse(s, pos) {
            Some((tag, at)) => 
            if tag == 0 {
                Some((RenderEncoding::SemanticFrame, at))
            } else if tag == 1 {
                Some((RenderEncoding::TerminalAnsi, at))
            } else {
                None
            },
            None => None,
        }
    }

    proof fn lemma_takes_room(m: RenderEncoding) {
    }

    proof fn lemma_round_trip(m: RenderEncoding, s: Seq<u8>, pos: int) {
        match m {
            RenderEncoding::SemanticFrame => {
                u32::lemma_round_trip(0u32, s, pos);
            },
            RenderEncoding::TerminalAnsi => {
                u32::lemma_round_trip(1u32, s, pos);
            },
        }
    }

    fn put(&self, out: &mut Vec<u8>) {
        let ghost before = out@;
        match self {
            RenderEncoding::SemanticFrame => {
                0u32.put(out);
            },
            RenderEncoding::TerminalAnsi => {
                1u32.put(out);
            },
        }
        proof {
            assert(out@ =~= before + Self::bytes(self.model()));
        }
    }

    fn get(s: &[u8], pos: usize) -> (r: Option<(Self, usize)>) {
        match u32::get(s, pos) {
            Some((tag, at)) => match tag {
                0 => Some((RenderEncoding::SemanticFrame, at)),
                1 => Some((RenderEncoding::TerminalAnsi, at)),
                _ => None,
            },
            None => None,
        }
    }
}

impl Wire for ClientClipboardImageTarget {
    type Model = ClipboardImageTargetModel;

    open spec fn model(&self) -> ClipboardImageTargetModel {
        match self {
            ClientClipboardImageTarget::DirectTerminal => ClipboardImageTargetModel::DirectTerminal,
            ClientClipboardImageTarget::Pane(v) => ClipboardImageTargetModel::Pane(v.model()),
            ClientClipboardImageTarget::Popup(v) => ClipboardImageTargetModel::Popup(v.model()),
        }
    }

    open spec fn bytes(m: ClipboardImageTargetModel) -> Seq<u8> {
        match m {
            ClipboardImageTargetModel::DirectTerminal => u32::bytes(0u32),
            ClipboardImageTargetModel::Pane(v) => u32::bytes(1u32) + <String>::bytes(v),
            ClipboardImageTargetModel::Popup(v) => u32::bytes(2u32) + <String>::bytes(v),
        }
    }

    open spec fn parse(s: Seq<u8>, pos: int) -> Option<(ClipboardImageTargetModel, int)> {
        match u32::parse(s, pos) {
            Some((tag, at)) => 
            if tag == 0 {
                Some((ClipboardImageTargetModel::DirectTerminal, at))
            } else if tag == 1 {
                match <String>::parse(s, at) {
                    Some((v, next)) => Some((ClipboardImageTargetModel::Pane(v), next)),
                    None => None,
                }
            } else if tag == 2 {
                match <String>::parse(s, at) {
                    Some((v, next)) => Some((ClipboardImageTargetModel::Popup(v), next)),
                    None => None,
                }
            } else {
                None
            },
            None => None,
        }
    }

    proof fn lemma_takes_room(m: ClipboardImageTargetModel) {
    }

    proof fn lemma_round_trip(m: ClipboardImageTargetModel, s: Seq<u8>, pos: int) {
        match m {
            ClipboardImageTargetModel::DirectTerminal => {
                u32::lemma_round_trip(0u32, s, pos);
            },
            ClipboardImageTargetModel::Pane(v) => {
                lemma_stands_split(s, pos, u32::bytes(1u32), <String>::bytes(v));
                u32::lemma_round_trip(1u32, s, pos);
                <String>::lemma_round_trip(v, s, pos + u32::bytes(1u32).len());
            },
            ClipboardImageTargetModel::Popup(v) => {
                lemma_stands_split(s, pos, u32::bytes(2u32), <String>::bytes(v));
                u32::lemma_round_trip(2u32, s, pos);
                <String>::lemma_round_trip(v, s, pos + u32::bytes(2u32).len());
            },
        }
    }

    fn put(&self, out: &mut Vec<u8>) {
        let ghost before = out@;
        match self {
            ClientClipboardImageTarget::DirectTerminal => {
                0u32.put(out);
            },
            ClientClipboardImageTarget::Pane(v) => {
                1u32.put(out);
                v.put(out);
            },
            ClientClipboardImageTarget::Popup(v) => {
                2u32.put(out);
                v.put(out);
            },
        }
        proof {
            assert(out@ =~= before + Self::bytes(self.model()));
        }
    }

    fn get(s: &[u8], pos: usize) -> (r: Option<(Self, usize)>) {
        match u32::get(s, pos) {
            Some((tag, at)) => match tag {
                0 => Some((ClientClipboardImageTarget::DirectTerminal, at)),
                1 => match <String>::get(s, at) {
                    Some((v, next)) => Some((ClientClipboardImageTarget::Pane(v), next)),
                    None => None,
                },
                2 => match <String>::get(s, at) {
                    Some((v, next)) => Some((ClientClipboardImageTarget::Popup(v), next)),
                    None => None,
                },
                _ => None,
            },
            None => None,
        }
    }
}

impl Wire for AttachScrollDirection {
    type Model = AttachScrollDirection;

    open spec fn model(&self) -> AttachScrollDirection {
        *self
    }

    open spec fn bytes(m: AttachScrollDirection) -> Seq<u8> {
        match m {
            AttachScrollDirection::Up => u32::bytes(0u32),
            AttachScrollDirection::Down => u32::bytes(1u32),
        }
    }

    open spec fn parse(s: Seq<u8>, pos: int) -> Option<(AttachScrollDirection, int)> {
        match u32::parse(s, pos) {
            Some((tag, at)) => 
            if tag == 0 {
                Some((AttachScrollDirection::Up, at))
            } else if tag == 1 {
                Some((AttachScrollDirection::Down, at))
            } else {
                None
            },
            None => None,
        }
    }

    proof fn lemma_takes_room(m: AttachScrollDirection) {
    }

    proof fn lemma_round_trip(m: AttachScrollDirection, s: Seq<u8>, pos: int) {
        match m {
            AttachScrollDirection::Up => {
                u32::lemma_round_trip(0u32, s, pos);
            },
            AttachScrollDirection::Down => {
                u32::lemma_round_trip(1u32, s, pos);
            },
        }
    }

    fn put(&self, out: &mut Vec<u8>) {
        let ghost before = out@;
        match self {
            AttachScrollDirection::Up => {
                0u32.put(out);
            },
            AttachScrollDirection::Down => {
                1u32.put(out);
            },
        }
        proof {
            assert(out@ =~= before + Self::bytes(self.model()));
        }
    }

    fn get(s: &[u8], pos: usize) -> (r: Option<(Self, usize)>) {
        match u32::get(s, pos) {
            Some((tag, at)) => match tag {
                0 => Some((AttachScrollDirection::Up, at)),
                1 => Some((AttachScrollDirection::Down, at)),
                _ => None,
            },
            None => None,
        }
    }
}

impl Wire for AttachScrollSource {
    type Model = ScrollSourceModel;

    open spec fn model(&self) -> ScrollSourceModel {
        match self {
            AttachScrollSource::Wheel => ScrollSourceModel::Wheel,
            AttachScrollSource::PageKey { input } => ScrollSourceModel::PageKey { input: input.model() },
        }
    }

    open spec fn bytes(m: ScrollSourceModel) -> Seq<u8> {
        match m {
            ScrollSourceModel::Wheel => u32::bytes(0u32),
            ScrollSourceModel::PageKey { input } => u32::bytes(1u32) + <Vec<u8>>::bytes(input),
        }
    }

    open spec fn parse(s: Seq<u8>, pos: int) -> Option<(ScrollSourceModel, int)> {
        match u32::parse(s, pos) {
            Some((tag, at)) => 
            if tag == 0 {
                Some((ScrollSourceModel::Wheel, at))
            } else if tag == 1 {
                match <Vec<u8>>::parse(s, at) {
                    Some((input, next)) => Some((ScrollSourceModel::PageKey { input }, next)),
                    None => None,
                }
            } else {
                None
            },
            None => None,
        }
    }

    proof fn lemma_takes_room(m: ScrollSourceModel) {
    }

    proof fn lemma_round_trip(m: ScrollSourceModel, s: Seq<u8>, pos: int) {
        match m {
            ScrollSourceModel::Wheel => {
                u32::lemma_round_trip(0u32, s, pos);
            },
            ScrollSourceModel::PageKey { input } => {
                lemma_stands_split(s, pos, u32::bytes(1u32), <Vec<u8>>::bytes(input));
                u32::lemma_round_trip(1u32, s, pos);
                <Vec<u8>>::lemma_round_trip(input, s, pos + u32::bytes(1u32).len());
            },
        }
    }

    fn put(&self, out: &mut Vec<u8>) {
        let ghost before = out@;
        match self {
            AttachScrollSource::Wheel => {
                0u32.put(out);
            },
            AttachScrollSource::PageKey { input } => {
                1u32.put(out);
                input.put(out);
            },
        }
        proof {
            assert(out@ =~= before + Self::bytes(self.model()));
        }
    }

    fn get(s: &[u8], pos: usize) -> (r: Option<(Self, usize)>) {
        match u32::get(s, pos) {
            Some((tag, at)) => match tag {
                0 => Some((AttachScrollSource::Wheel, at)),
                1 => match <Vec<u8>>::get(s, at) {
                    Some((input, next)) => Some((AttachScrollSource::PageKey { input }, next)),
                    None => None,
                },
                _ => None,
            },
            None => None,
        }
    }
}

impl Wire for ClientSurfaceSize {
    type Model = ClientSurfaceSize;

    open spec fn model(&self) -> ClientSurfaceSize {
        *self
    }

    open spec fn bytes(m: ClientSurfaceSize) -> Seq<u8> {
        <(u16, u16)>::bytes((m.cols, m.rows))
    }

    open spec fn parse(s: Seq<u8>, pos: int) -> Option<(ClientSurfaceSize, int)> {
        match <(u16, u16)>::parse(s, pos) {
            Some(((cols, rows), next)) => Some((ClientSurfaceSize { cols, rows }, next)),
            None => None,
        }
    }

    proof fn lemma_takes_room(m: ClientSurfaceSize) {
        <(u16, u16)>::lemma_takes_room((m.cols, m.rows));
    }

    proof fn lemma_round_trip(m: ClientSurfaceSize, s: Seq<u8>, pos: int) {
        <(u16, u16)>::lemma_round_trip((m.cols, m.rows), s, pos);
    }

    fn put(&self, out: &mut Vec<u8>) {
        put2(&self.cols, &self.rows, out);
    }

    fn get(s: &[u8], pos: usize) -> (r: Option<(Self, usize)>) {
        match <(u16, u16)>::get(s, pos) {
            Some(((cols, rows), next)) => Some((ClientSurfaceSize { cols, rows }, next)),
            None => None,
        }
    }
}

impl Wire for ClientMouseButton {
    type Model = ClientMouseButton;

    open spec fn model(&self) -> ClientMouseButton {
        *self
    }

    open spec fn bytes(m: ClientMouseButton) -> Seq<u8> {
        match m {
            ClientMouseButton::Left => u32::bytes(0u32),
            ClientMouseButton::Right => u32::bytes(1u32),
            ClientMouseButton::Middle => u32::bytes(2u32),
        }
    }

    open spec fn parse(s: Seq<u8>, pos: int) -> Option<(ClientMouseButton, int)> {
        match u32::parse(s, pos) {
            Some((tag, at)) => 
            if tag == 0 {
                Some((ClientMouseButton::Left, at))
            } else if tag == 1 {
                Some((ClientMouseButton::Right, at))
            } else if tag == 2 {
                Some((ClientMouseButton::Middle, at))
            } else {
                None
            },
            None => None,
        }
    }

    proof fn lemma_takes_room(m: ClientMouseButton) {
    }

    proof fn lemma_round_trip(m: ClientMouseButton, s: Seq<u8>, pos: int) {
        match m {
            ClientMouseButton::Left => {
                u32::lemma_round_trip(0u32, s, pos);
            },
            ClientMouseButton::Right => {
                u32::lemma_round_trip(1u32, s, pos);
            },
            ClientMouseButton::Middle => {
                u32::lemma_round_trip(2u32, s, pos);
            },
        }
    }

    fn put(&self, out: &mut Vec<u8>) {
        let ghost before = out@;
        match self {
            ClientMouseButton::Left => {
                0u32.put(out);
            },
            ClientMouseButton::Right => {
                1u32.put(out);
            },
            ClientMouseButton::Middle => {
                2u32.put(out);
            },
        }
        proof {
            assert(out@ =~= before + Self::bytes(self.model()));
        }
    }

    fn get(s: &[u8], pos: usize) -> (r: Option<(Self, usize)>) {
        match u32::get(s, pos) {
            Some((tag, at)) => match tag {
                0 => Some((ClientMouseButton::Left, at)),
                1 => Some((ClientMouseButton::Right, at)),
                2 => Some((ClientMouseButton::Middle, at)),
                _ => None,
            },
            None => None,
        }
    }
}

impl Wire for ClientMouseKind {
    type Model = ClientMouseKind;

    open spec fn model(&self) -> ClientMouseKind {
        *self
    }

    open spec fn bytes(m: ClientMouseKind) -> Seq<u8> {
        match m {
            ClientMouseKind::Down(v) => u32::bytes(0u32) + <ClientMouseButton>::bytes(v),
            ClientMouseKind::Up(v) => u32::bytes(1u32) + <ClientMouseButton>::bytes(v),
            ClientMouseKind::Drag(v) => u32::bytes(2u32) + <ClientMouseButton>::bytes(v),
            ClientMouseKind::Moved => u32::bytes(3u32),
            ClientMouseKind::ScrollUp => u32::bytes(4u32),
            ClientMouseKind::ScrollDown => u32::bytes(5u32),
            ClientMouseKind::ScrollLeft => u32::bytes(6u32),
            ClientMouseKind::ScrollRight => u32::bytes(7u32),
        }
    }

    open spec fn parse(s: Seq<u8>, pos: int) -> Option<(ClientMouseKind, int)> {
        match u32::parse(s, pos) {
            Some((tag, at)) => 
            if tag == 0 {
                match <ClientMouseButton>::parse(s, at) {
                    Some((v, next)) => Some((ClientMouseKind::Down(v), next)),
                    None => None,
                }
            } else if tag == 1 {
                match <ClientMouseButton>::parse(s, at) {
                    Some((v, next)) => Some((ClientMouseKind::Up(v), next)),
                    None => None,
                }
            } else if tag == 2 {
                match <ClientMouseButton>::parse(s, at) {
                    Some((v, next)) => Some((ClientMouseKind::Drag(v), next)),
                    None => None,
                }
            } else if tag == 3 {
                Some((ClientMouseKind::Moved, at))
            } else if tag == 4 {
                Some((ClientMouseKind::ScrollUp, at))
            } else if tag == 5 {
                Some((ClientMouseKind::ScrollDown, at))
            } else if tag == 6 {
                Some((ClientMouseKind::ScrollLeft, at))
            } else if tag == 7 {
                Some((ClientMouseKind::ScrollRight, at))
            } else {
                None
            },
            None => None,
        }
    }

    proof fn lemma_takes_room(m: ClientMouseKind) {
    }

    proof fn lemma_round_trip(m: ClientMouseKind, s: Seq<u8>, pos: int) {
        match m {
            ClientMouseKind::Down(v) => {
                lemma_stands_split(s, pos, u32::bytes(0u32), <ClientMouseButton>::bytes(v));
                u32::lemma_round_trip(0u32, s, pos);
                <ClientMouseButton>::lemma_round_trip(v, s, pos + u32::bytes(0u32).len());
            },
            ClientMouseKind::Up(v) => {
                lemma_stands_split(s, pos, u32::bytes(1u32), <ClientMouseButton>::bytes(v));
                u32::lemma_round_trip(1u32, s, pos);
                <ClientMouseButton>::lemma_round_trip(v, s, pos + u32::bytes(1u32).len());
            },
            ClientMouseKind::Drag(v) => {
                lemma_stands_split(s, pos, u32::bytes(2u32), <ClientMouseButton>::bytes(v));
                u32::lemma_round_trip(2u32, s, pos);
                <ClientMouseButton>::lemma_round_trip(v, s, pos + u32::bytes(2u32).len());
            },
            ClientMouseKind::Moved => {
                u32::lemma_round_trip(3u32, s, pos);
            },
            ClientMouseKind::ScrollUp => {
                u32::lemma_round_trip(4u32, s, pos);
            },
            ClientMouseKind::ScrollDown => {
                u32::lemma_round_trip(5u32, s, pos);
            },
            ClientMouseKind::ScrollLeft => {
                u32::lemma_round_trip(6u32, s, pos);
            },
            ClientMouseKind::ScrollRight => {
                u32::lemma_round_trip(7u32, s, pos);
            },
        }
    }

    fn put(&self, out: &mut Vec<u8>) {
        let ghost before = out@;
        match self {
            ClientMouseKind::Down(v) => {
                0u32.put(out);
                v.put(out);
            },
            ClientMouseKind::Up(v) => {
                1u32.put(out);
                v.put(out);
            },
            ClientMouseKind::Drag(v) => {
                2u32.put(out);
                v.put(out);
            },
            ClientMouseKind::Moved => {
                3u32.put(out);
            },
            ClientMouseKind::ScrollUp => {
                4u32.put(out);
            },
            ClientMouseKind::ScrollDown => {
                5u32.put(out);
            },
            ClientMouseKind::ScrollLeft => {
                6u32.put(out);
            },
            ClientMouseKind::ScrollRight => {
                7u32.put(out);
            },
        }
        proof {
            assert(out@ =~= before + Self::bytes(self.model()));
        }
    }

    fn get(s: &[u8], pos: usize) -> (r: Option<(Self, usize)>) {
        match u32::get(s, pos) {
            Some((tag, at)) => match tag {
                0 => match <ClientMouseButton>::get(s, at) {
                    Some((v, next)) => Some((ClientMouseKind::Down(v), next)),
                    None => None,
                },
                1 => match <ClientMouseButton>::get(s, at) {
                    Some((v, next)) => Some((ClientMouseKind::Up(v), next)),
                    None => None,
                },
                2 => match <ClientMouseButton>::get(s, at) {
                    Some((v, next)) => Some((ClientMouseKind::Drag(v), next)),
                    None => None,
                },
                3 => Some((ClientMouseKind::Moved, at)),
                4 => Some((ClientMouseKind::ScrollUp, at)),
                5 => Some((ClientMouseKind::ScrollDown, at)),
                6 => Some((ClientMouseKind::ScrollLeft, at)),
                7 => Some((ClientMouseKind::ScrollRight, at)),
                _ => None,
            },
            None => None,
        }
    }
}

impl Wire for ClientMousePosition {
    type Model = ClientMousePosition;

    open spec fn model(&self) -> ClientMousePosition {
        *self
    }

    open spec fn bytes(m: ClientMousePosition) -> Seq<u8> {
        match m {
            ClientMousePosition::Cell { column, row } => u32::bytes(0u32) + <(u16, u16)>::bytes((column, row)),
            ClientMousePosition::Pixels { x, y, column, row } => u32::bytes(1u32) + <(u32, (u32, (u16, u16)))>::bytes((x, (y, (column, row)))),
        }
    }

    open spec fn parse(s: Seq<u8>, pos: int) -> Option<(ClientMousePosition, int)> {
        match u32::parse(s, pos) {
            Some((tag, at)) => 
            if tag == 0 {
                match <(u16, u16)>::parse(s, at) {
                    Some(((column, row), next)) => Some((ClientMousePosition::Cell { column, row }, next)),
                    None => None,
                }
            } else if tag == 1 {
                match <(u32, (u32, (u16, u16)))>::parse(s, at) {
                    Some(((x, (y, (column, row))), next)) => Some((ClientMousePosition::Pixels { x, y, column, row }, next)),
                    None => None,
                }
            } else {
                None
            },
            None => None,
        }
    }

    proof fn lemma_takes_room(m: ClientMousePosition) {
    }

    proof fn lemma_round_trip(m: ClientMousePosition, s: Seq<u8>, pos: int) {
        match m {
            ClientMousePosition::Cell { column, row } => {
                lemma_stands_split(s, pos, u32::bytes(0u32), <(u16, u16)>::bytes((column, row)));
                u32::lemma_round_trip(0u32, s, pos);
                <(u16, u16)>::lemma_round_trip((column, row), s, pos + u32::bytes(0u32).len());
            },
            ClientMousePosition::Pixels { x, y, column, row } => {
                lemma_stands_split(s, pos, u32::bytes(1u32), <(u32, (u32, (u16, u16)))>::bytes((x, (y, (column, row)))));
                u32::lemma_round_trip(1u32, s, pos);
                <(u32, (u32, (u16, u16)))>::lemma_round_trip((x, (y, (column, row))), s, pos + u32::bytes(1u32).len());
            },
        }
    }

    fn put(&self, out: &mut Vec<u8>) {
        let ghost before = out@;
        match self {
            ClientMousePosition::Cell { column, row } => {
                0u32.put(out);
                put2(column, row, out);
            },
            ClientMousePosition::Pixels { x, y, column, row } => {
                1u32.put(out);
                put4(x, y, column, row, out);
            },
        }
        proof {
            assert(out@ =~= before + Self::bytes(self.model()));
        }
    }

    fn get(s: &[u8], pos: usize) -> (r: Option<(Self, usize)>) {
        match u32::get(s, pos) {
            Some((tag, at)) => match tag {
                0 => match <(u16, u16)>::get(s, at) {
                    Some(((column, row), next)) => Some((ClientMousePosition::Cell { column, row }, next)),
                    None => None,
                },
                1 => match <(u32, (u32, (u16, u16)))>::get(s, at) {
                    Some(((x, (y, (column, row))), next)) => Some((ClientMousePosition::Pixels { x, y, column, row }, next)),
                    None => None,
                },
                _ => None,
            },
            None => None,
        }
    }
}

impl Wire for ClientMouseGeometry {
    type Model = ClientMouseGeometry;

    open spec fn model(&self) -> ClientMouseGeometry {
        *self
    }

    open spec fn bytes(m: ClientMouseGeometry) -> Seq<u8> {
        <(u16, (u16, (u32, u32)))>::bytes((m.cols, (m.rows, (m.width_px, m.height_px))))
    }

    open spec fn parse(s: Seq<u8>, pos: int) -> Option<(ClientMouseGeometry, int)> {
        match <(u16, (u16, (u32, u32)))>::parse(s, pos) {
            Some(((cols, (rows, (width_px, height_px))), next)) => Some((ClientMouseGeometry { cols, rows, width_px, height_px }, next)),
            None => None,
        }
    }

    proof fn lemma_takes_room(m: ClientMouseGeometry) {
        <(u16, (u16, (u32, u32)))>::lemma_takes_room((m.cols, (m.rows, (m.width_px, m.height_px))));
    }

    proof fn lemma_round_trip(m: ClientMouseGeometry, s: Seq<u8>, pos: int) {
        <(u16, (u16, (u32, u32)))>::lemma_round_trip((m.cols, (m.rows, (m.width_px, m.height_px))), s, pos);
    }

    fn put(&self, out: &mut Vec<u8>) {
        put4(&self.cols, &self.rows, &self.width_px, &self.height_px, out);
    }

    fn get(s: &[u8], pos: usize) -> (r: Option<(Self, usize)>) {
        match <(u16, (u16, (u32, u32)))>::get(s, pos) {
            Some(((cols, (rows, (width_px, height_px))), next)) => Some((ClientMouseGeometry { cols, rows, width_px, height_px }, next)),
            None => None,
        }
    }
}

impl Wire for ClientHostColor {
    type Model = ClientHostColor;

    open spec fn model(&self) -> ClientHostColor {
        *self
    }

    open spec fn bytes(m: ClientHostColor) -> Seq<u8> {
        <(u8, (u8, u8))>::bytes((m.r, (m.g, m.b)))
    }

    open spec fn parse(s: Seq<u8>, pos: int) -> Option<(ClientHostColor, int)> {
        match <(u8, (u8, u8))>::parse(s, pos) {
            Some(((r, (g, b)), next)) => Some((ClientHostColor { r, g, b }, next)),
            None => None,
        }
    }

    proof fn lemma_takes_room(m: ClientHostColor) {
        <(u8, (u8, u8))>::lemma_takes_room((m.r, (m.g, m.b)));
    }

    proof fn lemma_round_trip(m: ClientHostColor, s: Seq<u8>, pos: int) {
        <(u8, (u8, u8))>::lemma_round_trip((m.r, (m.g, m.b)), s, pos);
    }

    fn put(&self, out: &mut Vec<u8>) {
        put3(&self.r, &self.g, &self.b, out);
    }

    fn get(s: &[u8], pos: usize) -> (r: Option<(Self, usize)>) {
        match <(u8, (u8, u8))>::get(s, pos) {
            Some(((r, (g, b)), next)) => Some((ClientHostColor { r, g, b }, next)),
            None => None,
        }
    }
}

impl Wire for ClientHostDefaultColorKind {
    type Model = ClientHostDefaultColorKind;

    open spec fn model(&self) -> ClientHostDefaultColorKind {
        *self
    }

    open spec fn bytes(m: ClientHostDefaultColorKind) -> Seq<u8> {
        match m {
            ClientHostDefaultColorKind::Foreground => u32::bytes(0u32),
            ClientHostDefaultColorKind::Background => u32::bytes(1u32),
        }
    }

    open spec fn parse(s: Seq<u8>, pos: int) -> Option<(ClientHostDefaultColorKind, int)> {
        match u32::parse(s, pos) {
            Some((tag, at)) => 
            if tag == 0 {
                Some((ClientHostDefaultColorKind::Foreground, at))
            } else if tag == 1 {
                Some((ClientHostDefaultColorKind::Background, at))
            } else {
                None
            },
            None => None,
        }
    }

    proof fn lemma_takes_room(m: ClientHostDefaultColorKind) {
    }

    proof fn lemma_round_trip(m: ClientHostDefaultColorKind, s: Seq<u8>, pos: int) {
        match m {
            ClientHostDefaultColorKind::Foreground => {
                u32::lemma_round_trip(0u32, s, pos);
            },
            ClientHostDefaultColorKind::Background => {
                u32::lemma_round_trip(1u32, s, pos);
            },
        }
    }

    fn put(&self, out: &mut Vec<u8>) {
        let ghost before = out@;
        match self {
            ClientHostDefaultColorKind::Foreground => {
                0u32.put(out);
            },
            ClientHostDefaultColorKind::Background => {
                1u32.put(out);
            },
        }
        proof {
            assert(out@ =~= before + Self::bytes(self.model()));
        }
    }

    fn get(s: &[u8], pos: usize) -> (r: Option<(Self, usize)>) {
        match u32::get(s, pos) {
            Some((tag, at)) => match tag {
                0 => Some((ClientHostDefaultColorKind::Foreground, at)),
                1 => Some((ClientHostDefaultColorKind::Background, at)),
                _ => None,
            },
            None => None,
        }
    }
}

impl Wire for ClientHostAppearance {
    type Model = ClientHostAppearance;

    open spec fn model(&self) -> ClientHostAppearance {
        *self
    }

    open spec fn bytes(m: ClientHostAppearance) -> Seq<u8> {
        match m {
            ClientHostAppearance::Dark => u32::bytes(0u32),
            ClientHostAppearance::Light => u32::bytes(1u32),
        }
    }

    open spec fn parse(s: Seq<u8>, pos: int) -> Option<(ClientHostAppearance, int)> {
        match u32::parse(s, pos) {
            Some((tag, at)) => 
            if tag == 0 {
                Some((ClientHostAppearance::Dark, at))
            } else if tag == 1 {
                Some((ClientHostAppearance::Light, at))
            } else {
                None
            },
            None => None,
        }
    }

    proof fn lemma_takes_room(m: ClientHostAppearance) {
    }

    proof fn lemma_round_trip(m: ClientHostAppearance, s: Seq<u8>, pos: int) {
        match m {
            ClientHostAppearance::Dark => {
                u32::lemma_round_trip(0u32, s, pos);
            },
            ClientHostAppearance::Light => {
                u32::lemma_round_trip(1u32, s, pos);
            },
        }
    }

    fn put(&self, out: &mut Vec<u8>) {
        let ghost before = out@;
        match self {
            ClientHostAppearance::Dark => {
                0u32.put(out);
            },
            ClientHostAppearance::Light => {
                1u32.put(out);
            },
        }
        proof {
            assert(out@ =~= before + Self::bytes(self.model()));
        }
    }

    fn get(s: &[u8], pos: usize) -> (r: Option<(Self, usize)>) {
        match u32::get(s, pos) {
            Some((tag, at)) => match tag {
                0 => Some((ClientHostAppearance::Dark, at)),
                1 => Some((ClientHostAppearance::Light, at)),
                _ => None,
            },
            None => None,
        }
    }
}

impl Wire for ClientHostThemeUpdate {
    type Model = HostThemeUpdateModel;

    open spec fn model(&self) -> HostThemeUpdateModel {
        match self {
            ClientHostThemeUpdate::DefaultColor { kind, color } => HostThemeUpdateModel::DefaultColor { kind: kind.model(), color: color.model() },
            ClientHostThemeUpdate::PaletteColors(v) => HostThemeUpdateModel::PaletteColors(v.model()),
            ClientHostThemeUpdate::Appearance(v) => HostThemeUpdateModel::Appearance(v.model()),
        }
    }

    open spec fn bytes(m: HostThemeUpdateModel) -> Seq<u8> {
        match m {
            HostThemeUpdateModel::DefaultColor { kind, color } => u32::bytes(0u32) + <(ClientHostDefaultColorKind, ClientHostColor)>::bytes((kind, color)),
            HostThemeUpdateModel::PaletteColors(v) => u32::bytes(1u32) + <Vec<(u8, ClientHostColor)>>::bytes(v),
            HostThemeUpdateModel::Appearance(v) => u32::bytes(2u32) + <ClientHostAppearance>::bytes(v),
        }
    }

    open spec fn parse(s: Seq<u8>, pos: int) -> Option<(HostThemeUpdateModel, int)> {
        match u32::parse(s, pos) {
            Some((tag, at)) => 
            if tag == 0 {
                match <(ClientHostDefaultColorKind, ClientHostColor)>::parse(s, at) {
                    Some(((kind, color), next)) => Some((HostThemeUpdateModel::DefaultColor { kind, color }, next)),
                    None => None,
                }
            } else if tag == 1 {
                match <Vec<(u8, ClientHostColor)>>::parse(s, at) {
                    Some((v, next)) => Some((HostThemeUpdateModel::PaletteColors(v), next)),
                    None => None,
                }
            } else if tag == 2 {
                match <ClientHostAppearance>::parse(s, at) {
                    Some((v, next)) => Some((HostThemeUpdateModel::Appearance(v), next)),
                    None => None,
                }
            } else {
                None
            },
            None => None,
        }
    }

    proof fn lemma_takes_room(m: HostThemeUpdateModel) {
    }

    proof fn lemma_round_trip(m: HostThemeUpdateModel, s: Seq<u8>, pos: int) {
        match m {
            HostThemeUpdateModel::DefaultColor { kind, color } => {
                lemma_stands_split(s, pos, u32::bytes(0u32), <(ClientHostDefaultColorKind, ClientHostColor)>::bytes((kind, color)));
                u32::lemma_round_trip(0u32, s, pos);
                <(ClientHostDefaultColorKind, ClientHostColor)>::lemma_round_trip((kind, color), s, pos + u32::bytes(0u32).len());
            },
            HostThemeUpdateModel::PaletteColors(v) => {
                lemma_stands_split(s, pos, u32::bytes(1u32), <Vec<(u8, ClientHostColor)>>::bytes(v));
                u32::lemma_round_trip(1u32, s, pos);
                <Vec<(u8, ClientHostColor)>>::lemma_round_trip(v, s, pos + u32::bytes(1u32).len());
            },
            HostThemeUpdateModel::Appearance(v) => {
                lemma_stands_split(s, pos, u32::bytes(2u32), <ClientHostAppearance>::bytes(v));
                u32::lemma_round_trip(2u32, s, pos);
                <ClientHostAppearance>::lemma_round_trip(v, s, pos + u32::bytes(2u32).len());
            },
        }
    }

    fn put(&self, out: &mut Vec<u8>) {
        let ghost before = out@;
        match self {
            ClientHostThemeUpdate::DefaultColor { kind, color } => {
                0u32.put(out);
                put2(kind, color, out);
            },
            ClientHostThemeUpdate::PaletteColors(v) => {
                1u32.put(out);
                v.put(out);
            },
            ClientHostThemeUpdate::Appearance(v) => {
                2u32.put(out);
                v.put(out);
            },
        }
        proof {
            assert(out@ =~= before + Self::bytes(self.model()));
        }
    }

    fn get(s: &[u8], pos: usize) -> (r: Option<(Self, usize)>) {
        match u32::get(s, pos) {
            Some((tag, at)) => match tag {
                0 => match <(ClientHostDefaultColorKind, ClientHostColor)>::get(s, at) {
                    Some(((kind, color), next)) => Some((ClientHostThemeUpdate::DefaultColor { kind, color }, next)),
                    None => None,
                },
                1 => match <Vec<(u8, ClientHostColor)>>::get(s, at) {
                    Some((v, next)) => Some((ClientHostThemeUpdate::PaletteColors(v), next)),
                    None => None,
                },
                2 => match <ClientHostAppearance>::get(s, at) {
                    Some((v, next)) => Some((ClientHostThemeUpdate::Appearance(v), next)),
                    None => None,
                },
                _ => None,
            },
            None => None,
        }
    }
}

impl Wire for ClientMessage {
    type Model = ClientMessageModel;

    open spec fn model(&self) -> ClientMessageModel {
        match self {
            ClientMessage::TerminalHello { version, cols, rows, cell_width_px, cell_height_px, pixel_mouse } => ClientMessageModel::TerminalHello { version: *version, cols: *cols, rows: *rows, cell_width_px: *cell_width_px, cell_height_px: *cell_height_px, pixel_mouse: *pixel_mouse },
            ClientMessage::Input { data } => ClientMessageModel::Input { data: data.model() },
            ClientMessage::ClipboardImage { target, extension, data } => ClientMessageModel::ClipboardImage { target: target.model(), extension: extension.model(), data: data.model() },
            ClientMessage::Resize { cols, rows, cell_width_px, cell_height_px, pixel_mouse } => ClientMessageModel::Resize { cols: *cols, rows: *rows, cell_width_px: *cell_width_px, cell_height_px: *cell_height_px, pixel_mouse: *pixel_mouse },
            ClientMessage::Detach => ClientMessageModel::Detach,
            ClientMessage::AttachTerminal { terminal_id, takeover } => ClientMessageModel::AttachTerminal { terminal_id: terminal_id.model(), takeover: *takeover },
            ClientMessage::AttachScroll { source, direction, lines, column, row, modifiers } => ClientMessageModel::AttachScroll { source: source.model(), direction: direction.model(), lines: *lines, column: column.model(), row: row.model(), modifiers: *modifiers },
            ClientMessage::ObserveTerminal { target } => ClientMessageModel::ObserveTerminal { target: target.model() },
            ClientMessage::ControlTerminal { target, takeover } => ClientMessageModel::ControlTerminal { target: target.model(), takeover: *takeover },
            ClientMessage::GraphicsTransmissionResult { transfer_id, image_id, success } => ClientMessageModel::GraphicsTransmissionResult { transfer_id: *transfer_id, image_id: *image_id, success: *success },
            ClientMessage::GraphicsTransmissionStarted { transfer_id, image_id } => ClientMessageModel::GraphicsTransmissionStarted { transfer_id: *transfer_id, image_id: *image_id },
            ClientMessage::ClientShellHello { version, cell_width_px, cell_height_px, surface_size, pixel_mouse, direct_graphics, endpoint_keybindings, mouse_capture } => ClientMessageModel::ClientShellHello { version: *version, cell_width_px: *cell_width_px, cell_height_px: *cell_height_px, surface_size: surface_size.model(), pixel_mouse: *pixel_mouse, direct_graphics: *direct_graphics, endpoint_keybindings: *endpoint_keybindings, mouse_capture: *mouse_capture },
            ClientMessage::ClientShellResize { cell_width_px, cell_height_px, surface_size, pixel_mouse } => ClientMessageModel::ClientShellResize { cell_width_px: *cell_width_px, cell_height_px: *cell_height_px, surface_size: surface_size.model(), pixel_mouse: *pixel_mouse },
            ClientMessage::ClientShellPaneInput => ClientMessageModel::ClientShellPaneInput,
            ClientMessage::ClientShellPopupInput => ClientMessageModel::ClientShellPopupInput,
            ClientMessage::ClientShellEndpointRequest { boot_id, request } => ClientMessageModel::ClientShellEndpointRequest { boot_id: boot_id.model(), request: request.model() },
            ClientMessage::AttachMouse { kind, position, geometry, modifiers, lines } => ClientMessageModel::AttachMouse { kind: kind.model(), position: position.model(), geometry: geometry.model(), modifiers: *modifiers, lines: *lines },
            ClientMessage::ClientShellHostTheme { update } => ClientMessageModel::ClientShellHostTheme { update: update.model() },
            ClientMessage::ClientShellFocus { focused } => ClientMessageModel::ClientShellFocus { focused: *focused },
            ClientMessage::ClientShellMouseCapture { enabled } => ClientMessageModel::ClientShellMouseCapture { enabled: *enabled },
            ClientMessage::EndpointControl { kind, data } => ClientMessageModel::EndpointControl { kind: kind.model(), data: data.model() },
        }
    }

    open spec fn bytes(m: ClientMessageModel) -> Seq<u8> {
        match m {
            ClientMessageModel::TerminalHello { version, cols, rows, cell_width_px, cell_height_px, pixel_mouse } => u32::bytes(0u32) + <(u32, (u16, (u16, (u32, (u32, bool)))))>::bytes((version, (cols, (rows, (cell_width_px, (cell_height_px, pixel_mouse)))))),
            ClientMessageModel::Input { data } => u32::bytes(1u32) + <Vec<u8>>::bytes(data),
            ClientMessageModel::ClipboardImage { target, extension, data } => u32::bytes(2u32) + <(ClientClipboardImageTarget, (String, Vec<u8>))>::bytes((target, (extension, data))),
            ClientMessageModel::Resize { cols, rows, cell_width_px, cell_height_px, pixel_mouse } => u32::bytes(3u32) + <(u16, (u16, (u32, (u32, bool))))>::bytes((cols, (rows, (cell_width_px, (cell_height_px, pixel_mouse))))),
            ClientMessageModel::Detach => u32::bytes(4u32),
            ClientMessageModel::AttachTerminal { terminal_id, takeover } => u32::bytes(5u32) + <(String, bool)>::bytes((terminal_id, takeover)),
            ClientMessageModel::AttachScroll { source, direction, lines, column, row, modifiers } => u32::bytes(6u32) + <(AttachScrollSource, (AttachScrollDirection, (u16, (Option<u16>, (Option<u16>, u8)))))>::bytes((source, (direction, (lines, (column, (row, modifiers)))))),
            ClientMessageModel::ObserveTerminal { target } => u32::bytes(7u32) + <String>::bytes(target),
            ClientMessageModel::ControlTerminal { target, takeover } => u32::bytes(8u32) + <(String, bool)>::bytes((target, takeover)),
            ClientMessageModel::GraphicsTransmissionResult { transfer_id, image_id, success } => u32::bytes(9u32) + <(u64, (u32, bool))>::bytes((transfer_id, (image_id, success))),
            ClientMessageModel::GraphicsTransmissionStarted { transfer_id, image_id } => u32::bytes(10u32) + <(u64, u32)>::bytes((transfer_id, image_id)),
            ClientMessageModel::ClientShellHello { version, cell_width_px, cell_height_px, surface_size, pixel_mouse, direct_graphics, endpoint_keybindings, mouse_capture } => u32::bytes(11u32) + <(u32, (u32, (u32, (ClientSurfaceSize, (bool, (bool, (bool, bool)))))))>::bytes((version, (cell_width_px, (cell_height_px, (surface_size, (pixel_mouse, (direct_graphics, (endpoint_keybindings, mouse_capture)))))))),
            ClientMessageModel::ClientShellResize { cell_width_px, cell_height_px, surface_size, pixel_mouse } => u32::bytes(12u32) + <(u32, (u32, (ClientSurfaceSize, bool)))>::bytes((cell_width_px, (cell_height_px, (surface_size, pixel_mouse)))),
            ClientMessageModel::ClientShellPaneInput => u32::bytes(13u32),
            ClientMessageModel::ClientShellPopupInput => u32::bytes(14u32),
            ClientMessageModel::ClientShellEndpointRequest { boot_id, request } => u32::bytes(15u32) + <(String, String)>::bytes((boot_id, request)),
            ClientMessageModel::AttachMouse { kind, position, geometry, modifiers, lines } => u32::bytes(16u32) + <(ClientMouseKind, (ClientMousePosition, (Option<ClientMouseGeometry>, (u8, u16))))>::bytes((kind, (position, (geometry, (modifiers, lines))))),
            ClientMessageModel::ClientShellHostTheme { update } => u32::bytes(17u32) + <ClientHostThemeUpdate>::bytes(update),
            ClientMessageModel::ClientShellFocus { focused } => u32::bytes(18u32) + <bool>::bytes(focused),
            ClientMessageModel::ClientShellMouseCapture { enabled } => u32::bytes(19u32) + <bool>::bytes(enabled),
            ClientMessageModel::EndpointControl { kind, data } => u32::bytes(20u32) + <(String, String)>::bytes((kind, data)),
        }
    }

    open spec fn parse(s: Seq<u8>, pos: int) -> Option<(ClientMessageModel, int)> {
        match u32::parse(s, pos) {
            Some((tag, at)) => 
            if tag == 0 {
                match <(u32, (u16, (u16, (u32, (u32, bool)))))>::parse(s, at) {
                    Some(((version, (cols, (rows, (cell_width_px, (cell_height_px, pixel_mouse))))), next)) => Some((ClientMessageModel::TerminalHello { version, cols, rows, cell_width_px, cell_height_px, pixel_mouse }, next)),
                    None => None,
                }
            } else if tag == 1 {
                match <Vec<u8>>::parse(s, at) {
                    Some((data, next)) => Some((ClientMessageModel::Input { data }, next)),
                    None => None,
                }
            } else if tag == 2 {
                match <(ClientClipboardImageTarget, (String, Vec<u8>))>::parse(s, at) {
                    Some(((target, (extension, data)), next)) => Some((ClientMessageModel::ClipboardImage { target, extension, data }, next)),
                    None => None,
                }
            } else if tag == 3 {
                match <(u16, (u16, (u32, (u32, bool))))>::parse(s, at) {
                    Some(((cols, (rows, (cell_width_px, (cell_height_px, pixel_mouse)))), next)) => Some((ClientMessageModel::Resize { cols, rows, cell_width_px, cell_height_px, pixel_mouse }, next)),
                    None => None,
                }
            } else if tag == 4 {
                Some((ClientMessageModel::Detach, at))
            } else if tag == 5 {
                match <(String, bool)>::parse(s, at) {
                    Some(((terminal_id, takeover), next)) => Some((ClientMessageModel::AttachTerminal { terminal_id, takeover }, next)),
                    None => None,
                }
            } else if tag == 6 {
                match <(AttachScrollSource, (AttachScrollDirection, (u16, (Option<u16>, (Option<u16>, u8)))))>::parse(s, at) {
                    Some(((source, (direction, (lines, (column, (row, modifiers))))), next)) => Some((ClientMessageModel::AttachScroll { source, direction, lines, column, row, modifiers }, next)),
                    None => None,
                }
            } else if tag == 7 {
                match <String>::parse(s, at) {
                    Some((target, next)) => Some((ClientMessageModel::ObserveTerminal { target }, next)),
                    None => None,
                }
            } else if tag == 8 {
                match <(String, bool)>::parse(s, at) {
                    Some(((target, takeover), next)) => Some((ClientMessageModel::ControlTerminal { target, takeover }, next)),
                    None => None,
                }
            } else if tag == 9 {
                match <(u64, (u32, bool))>::parse(s, at) {
                    Some(((transfer_id, (image_id, success)), next)) => Some((ClientMessageModel::GraphicsTransmissionResult { transfer_id, image_id, success }, next)),
                    None => None,
                }
            } else if tag == 10 {
                match <(u64, u32)>::parse(s, at) {
                    Some(((transfer_id, image_id), next)) => Some((ClientMessageModel::GraphicsTransmissionStarted { transfer_id, image_id }, next)),
                    None => None,
                }
            } else if tag == 11 {
                match <(u32, (u32, (u32, (ClientSurfaceSize, (bool, (bool, (bool, bool)))))))>::parse(s, at) {
                    Some(((version, (cell_width_px, (cell_height_px, (surface_size, (pixel_mouse, (direct_graphics, (endpoint_keybindings, mouse_capture))))))), next)) => Some((ClientMessageModel::ClientShellHello { version, cell_width_px, cell_height_px, surface_size, pixel_mouse, direct_graphics, endpoint_keybindings, mouse_capture }, next)),
                    None => None,
                }
            } else if tag == 12 {
                match <(u32, (u32, (ClientSurfaceSize, bool)))>::parse(s, at) {
                    Some(((cell_width_px, (cell_height_px, (surface_size, pixel_mouse))), next)) => Some((ClientMessageModel::ClientShellResize { cell_width_px, cell_height_px, surface_size, pixel_mouse }, next)),
                    None => None,
                }
            } else if tag == 13 {
                Some((ClientMessageModel::ClientShellPaneInput, at))
            } else if tag == 14 {
                Some((ClientMessageModel::ClientShellPopupInput, at))
            } else if tag == 15 {
                match <(String, String)>::parse(s, at) {
                    Some(((boot_id, request), next)) => Some((ClientMessageModel::ClientShellEndpointRequest { boot_id, request }, next)),
                    None => None,
                }
            } else if tag == 16 {
                match <(ClientMouseKind, (ClientMousePosition, (Option<ClientMouseGeometry>, (u8, u16))))>::parse(s, at) {
                    Some(((kind, (position, (geometry, (modifiers, lines)))), next)) => Some((ClientMessageModel::AttachMouse { kind, position, geometry, modifiers, lines }, next)),
                    None => None,
                }
            } else if tag == 17 {
                match <ClientHostThemeUpdate>::parse(s, at) {
                    Some((update, next)) => Some((ClientMessageModel::ClientShellHostTheme { update }, next)),
                    None => None,
                }
            } else if tag == 18 {
                match <bool>::parse(s, at) {
                    Some((focused, next)) => Some((ClientMessageModel::ClientShellFocus { focused }, next)),
                    None => None,
                }
            } else if tag == 19 {
                match <bool>::parse(s, at) {
                    Some((enabled, next)) => Some((ClientMessageModel::ClientShellMouseCapture { enabled }, next)),
                    None => None,
                }
            } else if tag == 20 {
                match <(String, String)>::parse(s, at) {
                    Some(((kind, data), next)) => Some((ClientMessageModel::EndpointControl { kind, data }, next)),
                    None => None,
                }
            } else {
                None
            },
            None => None,
        }
    }

    proof fn lemma_takes_room(m: ClientMessageModel) {
    }

    proof fn lemma_round_trip(m: ClientMessageModel, s: Seq<u8>, pos: int) {
        match m {
            ClientMessageModel::TerminalHello { version, cols, rows, cell_width_px, cell_height_px, pixel_mouse } => {
                lemma_stands_split(s, pos, u32::bytes(0u32), <(u32, (u16, (u16, (u32, (u32, bool)))))>::bytes((version, (cols, (rows, (cell_width_px, (cell_height_px, pixel_mouse)))))));
                u32::lemma_round_trip(0u32, s, pos);
                <(u32, (u16, (u16, (u32, (u32, bool)))))>::lemma_round_trip((version, (cols, (rows, (cell_width_px, (cell_height_px, pixel_mouse))))), s, pos + u32::bytes(0u32).len());
            },
            ClientMessageModel::Input { data } => {
                lemma_stands_split(s, pos, u32::bytes(1u32), <Vec<u8>>::bytes(data));
                u32::lemma_round_trip(1u32, s, pos);
                <Vec<u8>>::lemma_round_trip(data, s, pos + u32::bytes(1u32).len());
            },
            ClientMessageModel::ClipboardImage { target, extension, data } => {
                lemma_stands_split(s, pos, u32::bytes(2u32), <(ClientClipboardImageTarget, (String, Vec<u8>))>::bytes((target, (extension, data))));
                u32::lemma_round_trip(2u32, s, pos);
                <(ClientClipboardImageTarget, (String, Vec<u8>))>::lemma_round_trip((target, (extension, data)), s, pos + u32::bytes(2u32).len());
            },
            ClientMessageModel::Resize { cols, rows, cell_width_px, cell_height_px, pixel_mouse } => {
                lemma_stands_split(s, pos, u32::bytes(3u32), <(u16, (u16, (u32, (u32, bool))))>::bytes((cols, (rows, (cell_width_px, (cell_height_px, pixel_mouse))))));
                u32::lemma_round_trip(3u32, s, pos);
                <(u16, (u16, (u32, (u32, bool))))>::lemma_round_trip((cols, (rows, (cell_width_px, (cell_height_px, pixel_mouse)))), s, pos + u32::bytes(3u32).len());
            },
            ClientMessageModel::Detach => {
                u32::lemma_round_trip(4u32, s, pos);
            },
            ClientMessageModel::AttachTerminal { terminal_id, takeover } => {
                lemma_stands_split(s, pos, u32::bytes(5u32), <(String, bool)>::bytes((terminal_id, takeover)));
                u32::lemma_round_trip(5u32, s, pos);
                <(String, bool)>::lemma_round_trip((terminal_id, takeover), s, pos + u32::bytes(5u32).len());
            },
            ClientMessageModel::AttachScroll { source, direction, lines, column, row, modifiers } => {
                lemma_stands_split(s, pos, u32::bytes(6u32), <(AttachScrollSource, (AttachScrollDirection, (u16, (Option<u16>, (Option<u16>, u8)))))>::bytes((source, (direction, (lines, (column, (row, modifiers)))))));
                u32::lemma_round_trip(6u32, s, pos);
                <(AttachScrollSource, (AttachScrollDirection, (u16, (Option<u16>, (Option<u16>, u8)))))>::lemma_round_trip((source, (direction, (lines, (column, (row, modifiers))))), s, pos + u32::bytes(6u32).len());
            },
            ClientMessageModel::ObserveTerminal { target } => {
                lemma_stands_split(s, pos, u32::bytes(7u32), <String>::bytes(target));
                u32::lemma_round_trip(7u32, s, pos);
                <String>::lemma_round_trip(target, s, pos + u32::bytes(7u32).len());
            },
            ClientMessageModel::ControlTerminal { target, takeover } => {
                lemma_stands_split(s, pos, u32::bytes(8u32), <(String, bool)>::bytes((target, takeover)));
                u32::lemma_round_trip(8u32, s, pos);
                <(String, bool)>::lemma_round_trip((target, takeover), s, pos + u32::bytes(8u32).len());
            },
            ClientMessageModel::GraphicsTransmissionResult { transfer_id, image_id, success } => {
                lemma_stands_split(s, pos, u32::bytes(9u32), <(u64, (u32, bool))>::bytes((transfer_id, (image_id, success))));
                u32::lemma_round_trip(9u32, s, pos);
                <(u64, (u32, bool))>::lemma_round_trip((transfer_id, (image_id, success)), s, pos + u32::bytes(9u32).len());
            },
            ClientMessageModel::GraphicsTransmissionStarted { transfer_id, image_id } => {
                lemma_stands_split(s, pos, u32::bytes(10u32), <(u64, u32)>::bytes((transfer_id, image_id)));
                u32::lemma_round_trip(10u32, s, pos);
                <(u64, u32)>::lemma_round_trip((transfer_id, image_id), s, pos + u32::bytes(10u32).len());
            },
            ClientMessageModel::ClientShellHello { version, cell_width_px, cell_height_px, surface_size, pixel_mouse, direct_graphics, endpoint_keybindings, mouse_capture } => {
                lemma_stands_split(s, pos, u32::bytes(11u32), <(u32, (u32, (u32, (ClientSurfaceSize, (bool, (bool, (bool, bool)))))))>::bytes((version, (cell_width_px, (cell_height_px, (surface_size, (pixel_mouse, (direct_graphics, (endpoint_keybindings, mouse_capture)))))))));
                u32::lemma_round_trip(11u32, s, pos);
                <(u32, (u32, (u32, (ClientSurfaceSize, (bool, (bool, (bool, bool)))))))>::lemma_round_trip((version, (cell_width_px, (cell_height_px, (surface_size, (pixel_mouse, (direct_graphics, (endpoint_keybindings, mouse_capture))))))), s, pos + u32::bytes(11u32).len());
            },
            ClientMessageModel::ClientShellResize { cell_width_px, cell_height_px, surface_size, pixel_mouse } => {
                lemma_stands_split(s, pos, u32::bytes(12u32), <(u32, (u32, (ClientSurfaceSize, bool)))>::bytes((cell_width_px, (cell_height_px, (surface_size, pixel_mouse)))));
                u32::lemma_round_trip(12u32, s, pos);
                <(u32, (u32, (ClientSurfaceSize, bool)))>::lemma_round_trip((cell_width_px, (cell_height_px, (surface_size, pixel_mouse))), s, pos + u32::bytes(12u32).len());
            },
            ClientMessageModel::ClientShellPaneInput => {
                u32::lemma_round_trip(13u32, s, pos);
            },
            ClientMessageModel::ClientShellPopupInput => {
                u32::lemma_round_trip(14u32, s, pos);
            },
            ClientMessageModel::ClientShellEndpointRequest { boot_id, request } => {
                lemma_stands_split(s, pos, u32::bytes(15u32), <(String, String)>::bytes((boot_id, request)));
                u32::lemma_round_trip(15u32, s, pos);
                <(String, String)>::lemma_round_trip((boot_id, request), s, pos + u32::bytes(15u32).len());
            },
            ClientMessageModel::AttachMouse { kind, position, geometry, modifiers, lines } => {
                lemma_stands_split(s, pos, u32::bytes(16u32), <(ClientMouseKind, (ClientMousePosition, (Option<ClientMouseGeometry>, (u8, u16))))>::bytes((kind, (position, (geometry, (modifiers, lines))))));
                u32::lemma_round_trip(16u32, s, pos);
                <(ClientMouseKind, (ClientMousePosition, (Option<ClientMouseGeometry>, (u8, u16))))>::lemma_round_trip((kind, (position, (geometry, (modifiers, lines)))), s, pos + u32::bytes(16u32).len());
            },
            ClientMessageModel::ClientShellHostTheme { update } => {
                lemma_stands_split(s, pos, u32::bytes(17u32), <ClientHostThemeUpdate>::bytes(update));
                u32::lemma_round_trip(17u32, s, pos);
                <ClientHostThemeUpdate>::lemma_round_trip(update, s, pos + u32::bytes(17u32).len());
            },
            ClientMessageModel::ClientShellFocus { focused } => {
                lemma_stands_split(s, pos, u32::bytes(18u32), <bool>::bytes(focused));
                u32::lemma_round_trip(18u32, s, pos);
                <bool>::lemma_round_trip(focused, s, pos + u32::bytes(18u32).len());
            },
            ClientMessageModel::ClientShellMouseCapture { enabled } => {
                lemma_stands_split(s, pos, u32::bytes(19u32), <bool>::bytes(enabled));
                u32::lemma_round_trip(19u32, s, pos);
                <bool>::lemma_round_trip(enabled, s, pos + u32::bytes(19u32).len());
            },
            ClientMessageModel::EndpointControl { kind, data } => {
                lemma_stands_split(s, pos, u32::bytes(20u32), <(String, String)>::bytes((kind, data)));
                u32::lemma_round_trip(20u32, s, pos);
                <(String, String)>::lemma_round_trip((kind, data), s, pos + u32::bytes(20u32).len());
            },
        }
    }

    fn put(&self, out: &mut Vec<u8>) {
        let ghost before = out@;
        match self {
            ClientMessage::TerminalHello { version, cols, rows, cell_width_px, cell_height_px, pixel_mouse } => {
                0u32.put(out);
                put6(version, cols, rows, cell_width_px, cell_height_px, pixel_mouse, out);
            },
            ClientMessage::Input { data } => {
                1u32.put(out);
                data.put(out);
            },
            ClientMessage::ClipboardImage { target, extension, data } => {
                2u32.put(out);
                put3(target, extension, data, out);
            },
            ClientMessage::Resize { cols, rows, cell_width_px, cell_height_px, pixel_mouse } => {
                3u32.put(out);
                put5(cols, rows, cell_width_px, cell_height_px, pixel_mouse, out);
            },
            ClientMessage::Detach => {
                4u32.put(out);
            },
            ClientMessage::AttachTerminal { terminal_id, takeover } => {
                5u32.put(out);
                put2(terminal_id, takeover, out);
            },
            ClientMessage::AttachScroll { source, direction, lines, column, row, modifiers } => {
                6u32.put(out);
                put6(source, direction, lines, column, row, modifiers, out);
            },
            ClientMessage::ObserveTerminal { target } => {
                7u32.put(out);
                target.put(out);
            },
            ClientMessage::ControlTerminal { target, takeover } => {
                8u32.put(out);
                put2(target, takeover, out);
            },
            ClientMessage::GraphicsTransmissionResult { transfer_id, image_id, success } => {
                9u32.put(out);
                put3(transfer_id, image_id, success, out);
            },
            ClientMessage::GraphicsTransmissionStarted { transfer_id, image_id } => {
                10u32.put(out);
                put2(transfer_id, image_id, out);
            },
            ClientMessage::ClientShellHello { version, cell_width_px, cell_height_px, surface_size, pixel_mouse, direct_graphics, endpoint_keybindings, mouse_capture } => {
                11u32.put(out);
                put8(version, cell_width_px, cell_height_px, surface_size, pixel_mouse, direct_graphics, endpoint_keybindings, mouse_capture, out);
            },
            ClientMessage::ClientShellResize { cell_width_px, cell_height_px, surface_size, pixel_mouse } => {
                12u32.put(out);
                put4(cell_width_px, cell_height_px, surface_size, pixel_mouse, out);
            },
            ClientMessage::ClientShellPaneInput => {
                13u32.put(out);
            },
            ClientMessage::ClientShellPopupInput => {
                14u32.put(out);
            },
            ClientMessage::ClientShellEndpointRequest { boot_id, request } => {
                15u32.put(out);
                put2(boot_id, request, out);
            },
            ClientMessage::AttachMouse { kind, position, geometry, modifiers, lines } => {
                16u32.put(out);
                put5(kind, position, geometry, modifiers, lines, out);
            },
            ClientMessage::ClientShellHostTheme { update } => {
                17u32.put(out);
                update.put(out);
            },
            ClientMessage::ClientShellFocus { focused } => {
                18u32.put(out);
                focused.put(out);
            },
            ClientMessage::ClientShellMouseCapture { enabled } => {
                19u32.put(out);
                enabled.put(out);
            },
            ClientMessage::EndpointControl { kind, data } => {
                20u32.put(out);
                put2(kind, data, out);
            },
        }
        proof {
            assert(out@ =~= before + Self::bytes(self.model()));
        }
    }

    fn get(s: &[u8], pos: usize) -> (r: Option<(Self, usize)>) {
        match u32::get(s, pos) {
            Some((tag, at)) => match tag {
                0 => match <(u32, (u16, (u16, (u32, (u32, bool)))))>::get(s, at) {
                    Some(((version, (cols, (rows, (cell_width_px, (cell_height_px, pixel_mouse))))), next)) => Some((ClientMessage::TerminalHello { version, cols, rows, cell_width_px, cell_height_px, pixel_mouse }, next)),
                    None => None,
                },
                1 => match <Vec<u8>>::get(s, at) {
                    Some((data, next)) => Some((ClientMessage::Input { data }, next)),
                    None => None,
                },
                2 => match <(ClientClipboardImageTarget, (String, Vec<u8>))>::get(s, at) {
                    Some(((target, (extension, data)), next)) => Some((ClientMessage::ClipboardImage { target, extension, data }, next)),
                    None => None,
                },
                3 => match <(u16, (u16, (u32, (u32, bool))))>::get(s, at) {
                    Some(((cols, (rows, (cell_width_px, (cell_height_px, pixel_mouse)))), next)) => Some((ClientMessage::Resize { cols, rows, cell_width_px, cell_height_px, pixel_mouse }, next)),
                    None => None,
                },
                4 => Some((ClientMessage::Detach, at)),
                5 => match <(String, bool)>::get(s, at) {
                    Some(((terminal_id, takeover), next)) => Some((ClientMessage::AttachTerminal { terminal_id, takeover }, next)),
                    None => None,
                },
                6 => match <(AttachScrollSource, (AttachScrollDirection, (u16, (Option<u16>, (Option<u16>, u8)))))>::get(s, at) {
                    Some(((source, (direction, (lines, (column, (row, modifiers))))), next)) => Some((ClientMessage::AttachScroll { source, direction, lines, column, row, modifiers }, next)),
                    None => None,
                },
                7 => match <String>::get(s, at) {
                    Some((target, next)) => Some((ClientMessage::ObserveTerminal { target }, next)),
                    None => None,
                },
                8 => match <(String, bool)>::get(s, at) {
                    Some(((target, takeover), next)) => Some((ClientMessage::ControlTerminal { target, takeover }, next)),
                    None => None,
                },
                9 => match <(u64, (u32, bool))>::get(s, at) {
                    Some(((transfer_id, (image_id, success)), next)) => Some((ClientMessage::GraphicsTransmissionResult { transfer_id, image_id, success }, next)),
                    None => None,
                },
                10 => match <(u64, u32)>::get(s, at) {
                    Some(((transfer_id, image_id), next)) => Some((ClientMessage::GraphicsTransmissionStarted { transfer_id, image_id }, next)),
                    None => None,
                },
                11 => match <(u32, (u32, (u32, (ClientSurfaceSize, (bool, (bool, (bool, bool)))))))>::get(s, at) {
                    Some(((version, (cell_width_px, (cell_height_px, (surface_size, (pixel_mouse, (direct_graphics, (endpoint_keybindings, mouse_capture))))))), next)) => Some((ClientMessage::ClientShellHello { version, cell_width_px, cell_height_px, surface_size, pixel_mouse, direct_graphics, endpoint_keybindings, mouse_capture }, next)),
                    None => None,
                },
                12 => match <(u32, (u32, (ClientSurfaceSize, bool)))>::get(s, at) {
                    Some(((cell_width_px, (cell_height_px, (surface_size, pixel_mouse))), next)) => Some((ClientMessage::ClientShellResize { cell_width_px, cell_height_px, surface_size, pixel_mouse }, next)),
                    None => None,
                },
                13 => Some((ClientMessage::ClientShellPaneInput, at)),
                14 => Some((ClientMessage::ClientShellPopupInput, at)),
                15 => match <(String, String)>::get(s, at) {
                    Some(((boot_id, request), next)) => Some((ClientMessage::ClientShellEndpointRequest { boot_id, request }, next)),
                    None => None,
                },
                16 => match <(ClientMouseKind, (ClientMousePosition, (Option<ClientMouseGeometry>, (u8, u16))))>::get(s, at) {
                    Some(((kind, (position, (geometry, (modifiers, lines)))), next)) => Some((ClientMessage::AttachMouse { kind, position, geometry, modifiers, lines }, next)),
                    None => None,
                },
                17 => match <ClientHostThemeUpdate>::get(s, at) {
                    Some((update, next)) => Some((ClientMessage::ClientShellHostTheme { update }, next)),
                    None => None,
                },
                18 => match <bool>::get(s, at) {
                    Some((focused, next)) => Some((ClientMessage::ClientShellFocus { focused }, next)),
                    None => None,
                },
                19 => match <bool>::get(s, at) {
                    Some((enabled, next)) => Some((ClientMessage::ClientShellMouseCapture { enabled }, next)),
                    None => None,
                },
                20 => match <(String, String)>::get(s, at) {
                    Some(((kind, data), next)) => Some((ClientMessage::EndpointControl { kind, data }, next)),
                    None => None,
                },
                _ => None,
            },
            None => None,
        }
    }
}

impl Wire for TerminalFrame {
    type Model = TerminalFrameModel;

    open spec fn model(&self) -> TerminalFrameModel {
        TerminalFrameModel {
            seq: self.seq,
            width: self.width,
            height: self.height,
            full: self.full,
            bytes: self.bytes.model(),
        }
    }

    open spec fn bytes(m: TerminalFrameModel) -> Seq<u8> {
        <(u64, (u16, (u16, (bool, Vec<u8>))))>::bytes((m.seq, (m.width, (m.height, (m.full, m.bytes)))))
    }

    open spec fn parse(s: Seq<u8>, pos: int) -> Option<(TerminalFrameModel, int)> {
        match <(u64, (u16, (u16, (bool, Vec<u8>))))>::parse(s, pos) {
            Some(((seq, (width, (height, (full, bytes)))), next)) => Some((TerminalFrameModel { seq, width, height, full, bytes }, next)),
            None => None,
        }
    }

    proof fn lemma_takes_room(m: TerminalFrameModel) {
        <(u64, (u16, (u16, (bool, Vec<u8>))))>::lemma_takes_room((m.seq, (m.width, (m.height, (m.full, m.bytes)))));
    }

    proof fn lemma_round_trip(m: TerminalFrameModel, s: Seq<u8>, pos: int) {
        <(u64, (u16, (u16, (bool, Vec<u8>))))>::lemma_round_trip((m.seq, (m.width, (m.height, (m.full, m.bytes)))), s, pos);
    }

    fn put(&self, out: &mut Vec<u8>) {
        put5(&self.seq, &self.width, &self.height, &self.full, &self.bytes, out);
    }

    fn get(s: &[u8], pos: usize) -> (r: Option<(Self, usize)>) {
        match <(u64, (u16, (u16, (bool, Vec<u8>))))>::get(s, pos) {
            Some(((seq, (width, (height, (full, bytes)))), next)) => Some((TerminalFrame { seq, width, height, full, bytes }, next)),
            None => None,
        }
    }
}

impl Wire for NotifyKind {
    type Model = NotifyKind;

    open spec fn model(&self) -> NotifyKind {
        *self
    }

    open spec fn bytes(m: NotifyKind) -> Seq<u8> {
        match m {
            NotifyKind::Sound => u32::bytes(0u32),
            NotifyKind::Toast => u32::bytes(1u32),
            NotifyKind::SystemToast => u32::bytes(2u32),
        }
    }

    open spec fn parse(s: Seq<u8>, pos: int) -> Option<(NotifyKind, int)> {
        match u32::parse(s, pos) {
            Some((tag, at)) => 
            if tag == 0 {
                Some((NotifyKind::Sound, at))
            } else if tag == 1 {
                Some((NotifyKind::Toast, at))
            } else if tag == 2 {
                Some((NotifyKind::SystemToast, at))
            } else {
                None
            },
            None => None,
        }
    }

    proof fn lemma_takes_room(m: NotifyKind) {
    }

    proof fn lemma_round_trip(m: NotifyKind, s: Seq<u8>, pos: int) {
        match m {
            NotifyKind::Sound => {
                u32::lemma_round_trip(0u32, s, pos);
            },
            NotifyKind::Toast => {
                u32::lemma_round_trip(1u32, s, pos);
            },
            NotifyKind::SystemToast => {
                u32::lemma_round_trip(2u32, s, pos);
            },
        }
    }

    fn put(&self, out: &mut Vec<u8>) {
        let ghost before = out@;
        match self {
            NotifyKind::Sound => {
                0u32.put(out);
            },
            NotifyKind::Toast => {
                1u32.put(out);
            },
            NotifyKind::SystemToast => {
                2u32.put(out);
            },
        }
        proof {
            assert(out@ =~= before + Self::bytes(self.model()));
        }
    }

    fn get(s: &[u8], pos: usize) -> (r: Option<(Self, usize)>) {
        match u32::get(s, pos) {
            Some((tag, at)) => match tag {
                0 => Some((NotifyKind::Sound, at)),
                1 => Some((NotifyKind::Toast, at)),
                2 => Some((NotifyKind::SystemToast, at)),
                _ => None,
            },
            None => None,
        }
    }
}

impl Wire for SurfaceGraphicsTarget {
    type Model = GraphicsTargetModel;

    open spec fn model(&self) -> GraphicsTargetModel {
        match self {
            SurfaceGraphicsTarget::Pane { pane_id } => GraphicsTargetModel::Pane { pane_id: pane_id.model() },
            SurfaceGraphicsTarget::Popup { terminal_id } => GraphicsTargetModel::Popup { terminal_id: terminal_id.model() },
        }
    }

    open spec fn bytes(m: GraphicsTargetModel) -> Seq<u8> {
        match m {
            GraphicsTargetModel::Pane { pane_id } => u32::bytes(0u32) + <String>::bytes(pane_id),
            GraphicsTargetModel::Popup { terminal_id } => u32::bytes(1u32) + <String>::bytes(terminal_id),
        }
    }

    open spec fn parse(s: Seq<u8>, pos: int) -> Option<(GraphicsTargetModel, int)> {
        match u32::parse(s, pos) {
            Some((tag, at)) => 
            if tag == 0 {
                match <String>::parse(s, at) {
                    Some((pane_id, next)) => Some((GraphicsTargetModel::Pane { pane_id }, next)),
                    None => None,
                }
            } else if tag == 1 {
                match <String>::parse(s, at) {
                    Some((terminal_id, next)) => Some((GraphicsTargetModel::Popup { terminal_id }, next)),
                    None => None,
                }
            } else {
                None
            },
            None => None,
        }
    }

    proof fn lemma_takes_room(m: GraphicsTargetModel) {
    }

    proof fn lemma_round_trip(m: GraphicsTargetModel, s: Seq<u8>, pos: int) {
        match m {
            GraphicsTargetModel::Pane { pane_id } => {
                lemma_stands_split(s, pos, u32::bytes(0u32), <String>::bytes(pane_id));
                u32::lemma_round_trip(0u32, s, pos);
                <String>::lemma_round_trip(pane_id, s, pos + u32::bytes(0u32).len());
            },
            GraphicsTargetModel::Popup { terminal_id } => {
                lemma_stands_split(s, pos, u32::bytes(1u32), <String>::bytes(terminal_id));
                u32::lemma_round_trip(1u32, s, pos);
                <String>::lemma_round_trip(terminal_id, s, pos + u32::bytes(1u32).len());
            },
        }
    }

    fn put(&self, out: &mut Vec<u8>) {
        let ghost before = out@;
        match self {
            SurfaceGraphicsTarget::Pane { pane_id } => {
                0u32.put(out);
                pane_id.put(out);
            },
            SurfaceGraphicsTarget::Popup { terminal_id } => {
                1u32.put(out);
                terminal_id.put(out);
            },
        }
        proof {
            assert(out@ =~= before + Self::bytes(self.model()));
        }
    }

    fn get(s: &[u8], pos: usize) -> (r: Option<(Self, usize)>) {
        match u32::get(s, pos) {
            Some((tag, at)) => match tag {
                0 => match <String>::get(s, at) {
                    Some((pane_id, next)) => Some((SurfaceGraphicsTarget::Pane { pane_id }, next)),
                    None => None,
                },
                1 => match <String>::get(s, at) {
                    Some((terminal_id, next)) => Some((SurfaceGraphicsTarget::Popup { terminal_id }, next)),
                    None => None,
                },
                _ => None,
            },
            None => None,
        }
    }
}

impl Wire for SurfaceGraphicsSource {
    type Model = GraphicsSourceModel;

    open spec fn model(&self) -> GraphicsSourceModel {
        match self {
            SurfaceGraphicsSource::Terminal { target, image_id } => GraphicsSourceModel::Terminal { target: target.model(), image_id: *image_id },
            SurfaceGraphicsSource::PaneLayer { pane_id, layer_id } => GraphicsSourceModel::PaneLayer { pane_id: pane_id.model(), layer_id: layer_id.model() },
        }
    }

    open spec fn bytes(m: GraphicsSourceModel) -> Seq<u8> {
        match m {
            GraphicsSourceModel::Terminal { target, image_id } => u32::bytes(0u32) + <(SurfaceGraphicsTarget, u32)>::bytes((target, image_id)),
            GraphicsSourceModel::PaneLayer { pane_id, layer_id } => u32::bytes(1u32) + <(String, String)>::bytes((pane_id, layer_id)),
        }
    }

    open spec fn parse(s: Seq<u8>, pos: int) -> Option<(GraphicsSourceModel, int)> {
        match u32::parse(s, pos) {
            Some((tag, at)) => 
            if tag == 0 {
                match <(SurfaceGraphicsTarget, u32)>::parse(s, at) {
                    Some(((target, image_id), next)) => Some((GraphicsSourceModel::Terminal { target, image_id }, next)),
                    None => None,
                }
            } else if tag == 1 {
                match <(String, String)>::parse(s, at) {
                    Some(((pane_id, layer_id), next)) => Some((GraphicsSourceModel::PaneLayer { pane_id, layer_id }, next)),
                    None => None,
                }
            } else {
                None
            },
            None => None,
        }
    }

    proof fn lemma_takes_room(m: GraphicsSourceModel) {
    }

    proof fn lemma_round_trip(m: GraphicsSourceModel, s: Seq<u8>, pos: int) {
        match m {
            GraphicsSourceModel::Terminal { target, image_id } => {
                lemma_stands_split(s, pos, u32::bytes(0u32), <(SurfaceGraphicsTarget, u32)>::bytes((target, image_id)));
                u32::lemma_round_trip(0u32, s, pos);
                <(SurfaceGraphicsTarget, u32)>::lemma_round_trip((target, image_id), s, pos + u32::bytes(0u32).len());
            },
            GraphicsSourceModel::PaneLayer { pane_id, layer_id } => {
                lemma_stands_split(s, pos, u32::bytes(1u32), <(String, String)>::bytes((pane_id, layer_id)));
                u32::lemma_round_trip(1u32, s, pos);
                <(String, String)>::lemma_round_trip((pane_id, layer_id), s, pos + u32::bytes(1u32).len());
            },
        }
    }

    fn put(&self, out: &mut Vec<u8>) {
        let ghost before = out@;
        match self {
            SurfaceGraphicsSource::Terminal { target, image_id } => {
                0u32.put(out);
                put2(target, image_id, out);
            },
            SurfaceGraphicsSource::PaneLayer { pane_id, layer_id } => {
                1u32.put(out);
                put2(pane_id, layer_id, out);
            },
        }
        proof {
            assert(out@ =~= before + Self::bytes(self.model()));
        }
    }

    fn get(s: &[u8], pos: usize) -> (r: Option<(Self, usize)>) {
        match u32::get(s, pos) {
            Some((tag, at)) => match tag {
                0 => match <(SurfaceGraphicsTarget, u32)>::get(s, at) {
                    Some(((target, image_id), next)) => Some((SurfaceGraphicsSource::Terminal { target, image_id }, next)),
                    None => None,
                },
                1 => match <(String, String)>::get(s, at) {
                    Some(((pane_id, layer_id), next)) => Some((SurfaceGraphicsSource::PaneLayer { pane_id, layer_id }, next)),
                    None => None,
                },
                _ => None,
            },
            None => None,
        }
    }
}

impl Wire for SurfaceGraphicsFormat {
    type Model = SurfaceGraphicsFormat;

    open spec fn model(&self) -> SurfaceGraphicsFormat {
        *self
    }

    open spec fn bytes(m: SurfaceGraphicsFormat) -> Seq<u8> {
        match m {
            SurfaceGraphicsFormat::Rgb => u32::bytes(0u32),
            SurfaceGraphicsFormat::Rgba => u32::bytes(1u32),
            SurfaceGraphicsFormat::Png => u32::bytes(2u32),
        }
    }

    open spec fn parse(s: Seq<u8>, pos: int) -> Option<(SurfaceGraphicsFormat, int)> {
        match u32::parse(s, pos) {
            Some((tag, at)) => 
            if tag == 0 {
                Some((SurfaceGraphicsFormat::Rgb, at))
            } else if tag == 1 {
                Some((SurfaceGraphicsFormat::Rgba, at))
            } else if tag == 2 {
                Some((SurfaceGraphicsFormat::Png, at))
            } else {
                None
            },
            None => None,
        }
    }

    proof fn lemma_takes_room(m: SurfaceGraphicsFormat) {
    }

    proof fn lemma_round_trip(m: SurfaceGraphicsFormat, s: Seq<u8>, pos: int) {
        match m {
            SurfaceGraphicsFormat::Rgb => {
                u32::lemma_round_trip(0u32, s, pos);
            },
            SurfaceGraphicsFormat::Rgba => {
                u32::lemma_round_trip(1u32, s, pos);
            },
            SurfaceGraphicsFormat::Png => {
                u32::lemma_round_trip(2u32, s, pos);
            },
        }
    }

    fn put(&self, out: &mut Vec<u8>) {
        let ghost before = out@;
        match self {
            SurfaceGraphicsFormat::Rgb => {
                0u32.put(out);
            },
            SurfaceGraphicsFormat::Rgba => {
                1u32.put(out);
            },
            SurfaceGraphicsFormat::Png => {
                2u32.put(out);
            },
        }
        proof {
            assert(out@ =~= before + Self::bytes(self.model()));
        }
    }

    fn get(s: &[u8], pos: usize) -> (r: Option<(Self, usize)>) {
        match u32::get(s, pos) {
            Some((tag, at)) => match tag {
                0 => Some((SurfaceGraphicsFormat::Rgb, at)),
                1 => Some((SurfaceGraphicsFormat::Rgba, at)),
                2 => Some((SurfaceGraphicsFormat::Png, at)),
                _ => None,
            },
            None => None,
        }
    }
}

impl Wire for SurfaceGraphicsAssetKey {
    type Model = GraphicsAssetKeyModel;

    open spec fn model(&self) -> GraphicsAssetKeyModel {
        GraphicsAssetKeyModel {
            source: self.source.model(),
            image_width: self.image_width,
            image_height: self.image_height,
            format: self.format.model(),
            data_len: self.data_len,
            data_fingerprint: self.data_fingerprint,
        }
    }

    open spec fn bytes(m: GraphicsAssetKeyModel) -> Seq<u8> {
        <(SurfaceGraphicsSource, (u32, (u32, (SurfaceGraphicsFormat, (u64, u64)))))>::bytes((m.source, (m.image_width, (m.image_height, (m.format, (m.data_len, m.data_fingerprint))))))
    }

    open spec fn parse(s: Seq<u8>, pos: int) -> Option<(GraphicsAssetKeyModel, int)> {
        match <(SurfaceGraphicsSource, (u32, (u32, (SurfaceGraphicsFormat, (u64, u64)))))>::parse(s, pos) {
            Some(((source, (image_width, (image_height, (format, (data_len, data_fingerprint))))), next)) => Some((GraphicsAssetKeyModel { source, image_width, image_height, format, data_len, data_fingerprint }, next)),
            None => None,
        }
    }

    proof fn lemma_takes_room(m: GraphicsAssetKeyModel) {
        <(SurfaceGraphicsSource, (u32, (u32, (SurfaceGraphicsFormat, (u64, u64)))))>::lemma_takes_room((m.source, (m.image_width, (m.image_height, (m.format, (m.data_len, m.data_fingerprint))))));
    }

    proof fn lemma_round_trip(m: GraphicsAssetKeyModel, s: Seq<u8>, pos: int) {
        <(SurfaceGraphicsSource, (u32, (u32, (SurfaceGraphicsFormat, (u64, u64)))))>::lemma_round_trip((m.source, (m.image_width, (m.image_height, (m.format, (m.data_len, m.data_fingerprint))))), s, pos);
    }

    fn put(&self, out: &mut Vec<u8>) {
        put6(&self.source, &self.image_width, &self.image_height, &self.format, &self.data_len, &self.data_fingerprint, out);
    }

    fn get(s: &[u8], pos: usize) -> (r: Option<(Self, usize)>) {
        match <(SurfaceGraphicsSource, (u32, (u32, (SurfaceGraphicsFormat, (u64, u64)))))>::get(s, pos) {
            Some(((source, (image_width, (image_height, (format, (data_len, data_fingerprint))))), next)) => Some((SurfaceGraphicsAssetKey { source, image_width, image_height, format, data_len, data_fingerprint }, next)),
            None => None,
        }
    }
}

impl Wire for ServerMessage {
    type Model = ServerMessageModel;

    open spec fn model(&self) -> ServerMessageModel {
        match self {
            ServerMessage::Welcome { version, encoding, error } => ServerMessageModel::Welcome { version: *version, encoding: encoding.model(), error: error.model() },
            ServerMessage::Terminal(v) => ServerMessageModel::Terminal(v.model()),
            ServerMessage::Graphics { bytes } => ServerMessageModel::Graphics { bytes: bytes.model() },
            ServerMessage::ServerShutdown { reason } => ServerMessageModel::ServerShutdown { reason: reason.model() },
            ServerMessage::Notify { kind, message, body } => ServerMessageModel::Notify { kind: kind.model(), message: message.model(), body: body.model() },
            ServerMessage::Clipboard { data } => ServerMessageModel::Clipboard { data: data.model() },
            ServerMessage::WindowTitle { title } => ServerMessageModel::WindowTitle { title: title.model() },
            ServerMessage::ReloadSoundConfig => ServerMessageModel::ReloadSoundConfig,
            ServerMessage::MouseCapture { enabled, sgr_pixels } => ServerMessageModel::MouseCapture { enabled: *enabled, sgr_pixels: *sgr_pixels },
            ServerMessage::TerminalBell { count } => ServerMessageModel::TerminalBell { count: *count },
            ServerMessage::GraphicsFile { path, expected_len, image_id, transfer_id, leading, control, surface_asset } => ServerMessageModel::GraphicsFile { path: path.model(), expected_len: *expected_len, image_id: *image_id, transfer_id: *transfer_id, leading: leading.model(), control: control.model(), surface_asset: surface_asset.model() },
            ServerMessage::GraphicsTransmissionRetired { transfer_id, image_id } => ServerMessageModel::GraphicsTransmissionRetired { transfer_id: *transfer_id, image_id: *image_id },
            ServerMessage::ClientShellSnapshot => ServerMessageModel::ClientShellSnapshot,
            ServerMessage::PaneSurface => ServerMessageModel::PaneSurface,
            ServerMessage::SemanticNotification => ServerMessageModel::SemanticNotification,
            ServerMessage::ClientShellError { message } => ServerMessageModel::ClientShellError { message: message.model() },
            ServerMessage::DirectTerminalKeyboardProtocol { flags, modify_other_keys_level } => ServerMessageModel::DirectTerminalKeyboardProtocol { flags: *flags, modify_other_keys_level: *modify_other_keys_level },
            ServerMessage::ClientShellKeyboardReportAll { enabled } => ServerMessageModel::ClientShellKeyboardReportAll { enabled: *enabled },
            ServerMessage::ClientShellEndpointResponseChunk { boot_id, request_id, final_chunk, data } => ServerMessageModel::ClientShellEndpointResponseChunk { boot_id: boot_id.model(), request_id: request_id.model(), final_chunk: *final_chunk, data: data.model() },
            ServerMessage::PaneSurfacePatch => ServerMessageModel::PaneSurfacePatch,
            ServerMessage::EndpointControl { kind, data } => ServerMessageModel::EndpointControl { kind: kind.model(), data: data.model() },
        }
    }

    open spec fn bytes(m: ServerMessageModel) -> Seq<u8> {
        match m {
            ServerMessageModel::Welcome { version, encoding, error } => u32::bytes(0u32) + <(u32, (RenderEncoding, Option<String>))>::bytes((version, (encoding, error))),
            ServerMessageModel::Terminal(v) => u32::bytes(1u32) + <TerminalFrame>::bytes(v),
            ServerMessageModel::Graphics { bytes } => u32::bytes(2u32) + <Vec<u8>>::bytes(bytes),
            ServerMessageModel::ServerShutdown { reason } => u32::bytes(3u32) + <Option<String>>::bytes(reason),
            ServerMessageModel::Notify { kind, message, body } => u32::bytes(4u32) + <(NotifyKind, (String, Option<String>))>::bytes((kind, (message, body))),
            ServerMessageModel::Clipboard { data } => u32::bytes(5u32) + <String>::bytes(data),
            ServerMessageModel::WindowTitle { title } => u32::bytes(6u32) + <Option<String>>::bytes(title),
            ServerMessageModel::ReloadSoundConfig => u32::bytes(7u32),
            ServerMessageModel::MouseCapture { enabled, sgr_pixels } => u32::bytes(8u32) + <(bool, bool)>::bytes((enabled, sgr_pixels)),
            ServerMessageModel::TerminalBell { count } => u32::bytes(9u32) + <u16>::bytes(count),
            ServerMessageModel::GraphicsFile { path, expected_len, image_id, transfer_id, leading, control, surface_asset } => u32::bytes(10u32) + <(String, (u64, (u32, (u64, (Vec<u8>, (String, Option<SurfaceGraphicsAssetKey>))))))>::bytes((path, (expected_len, (image_id, (transfer_id, (leading, (control, surface_asset))))))),
            ServerMessageModel::GraphicsTransmissionRetired { transfer_id, image_id } => u32::bytes(11u32) + <(u64, u32)>::bytes((transfer_id, image_id)),
            ServerMessageModel::ClientShellSnapshot => u32::bytes(12u32),
            ServerMessageModel::PaneSurface => u32::bytes(13u32),
            ServerMessageModel::SemanticNotification => u32::bytes(14u32),
            ServerMessageModel::ClientShellError { message } => u32::bytes(15u32) + <String>::bytes(message),
            ServerMessageModel::DirectTerminalKeyboardProtocol { flags, modify_other_keys_level } => u32::bytes(16u32) + <(u16, u8)>::bytes((flags, modify_other_keys_level)),
            ServerMessageModel::ClientShellKeyboardReportAll { enabled } => u32::bytes(17u32) + <bool>::bytes(enabled),
            ServerMessageModel::ClientShellEndpointResponseChunk { boot_id, request_id, final_chunk, data } => u32::bytes(18u32) + <(String, (String, (bool, Vec<u8>)))>::bytes((boot_id, (request_id, (final_chunk, data)))),
            ServerMessageModel::PaneSurfacePatch => u32::bytes(19u32),
            ServerMessageModel::EndpointControl { kind, data } => u32::bytes(20u32) + <(String, String)>::bytes((kind, data)),
        }
    }

    open spec fn parse(s: Seq<u8>, pos: int) -> Option<(ServerMessageModel, int)> {
        match u32::parse(s, pos) {
            Some((tag, at)) => 
            if tag == 0 {
                match <(u32, (RenderEncoding, Option<String>))>::parse(s, at) {
                    Some(((version, (encoding, error)), next)) => Some((ServerMessageModel::Welcome { version, encoding, error }, next)),
                    None => None,
                }
            } else if tag == 1 {
                match <TerminalFrame>::parse(s, at) {
                    Some((v, next)) => Some((ServerMessageModel::Terminal(v), next)),
                    None => None,
                }
            } else if tag == 2 {
                match <Vec<u8>>::parse(s, at) {
                    Some((bytes, next)) => Some((ServerMessageModel::Graphics { bytes }, next)),
                    None => None,
                }
            } else if tag == 3 {
                match <Option<String>>::parse(s, at) {
                    Some((reason, next)) => Some((ServerMessageModel::ServerShutdown { reason }, next)),
                    None => None,
                }
            } else if tag == 4 {
                match <(NotifyKind, (String, Option<String>))>::parse(s, at) {
                    Some(((kind, (message, body)), next)) => Some((ServerMessageModel::Notify { kind, message, body }, next)),
                    None => None,
                }
            } else if tag == 5 {
                match <String>::parse(s, at) {
                    Some((data, next)) => Some((ServerMessageModel::Clipboard { data }, next)),
                    None => None,
                }
            } else if tag == 6 {
                match <Option<String>>::parse(s, at) {
                    Some((title, next)) => Some((ServerMessageModel::WindowTitle { title }, next)),
                    None => None,
                }
            } else if tag == 7 {
                Some((ServerMessageModel::ReloadSoundConfig, at))
            } else if tag == 8 {
                match <(bool, bool)>::parse(s, at) {
                    Some(((enabled, sgr_pixels), next)) => Some((ServerMessageModel::MouseCapture { enabled, sgr_pixels }, next)),
                    None => None,
                }
            } else if tag == 9 {
                match <u16>::parse(s, at) {
                    Some((count, next)) => Some((ServerMessageModel::TerminalBell { count }, next)),
                    None => None,
                }
            } else if tag == 10 {
                match <(String, (u64, (u32, (u64, (Vec<u8>, (String, Option<SurfaceGraphicsAssetKey>))))))>::parse(s, at) {
                    Some(((path, (expected_len, (image_id, (transfer_id, (leading, (control, surface_asset)))))), next)) => Some((ServerMessageModel::GraphicsFile { path, expected_len, image_id, transfer_id, leading, control, surface_asset }, next)),
                    None => None,
                }
            } else if tag == 11 {
                match <(u64, u32)>::parse(s, at) {
                    Some(((transfer_id, image_id), next)) => Some((ServerMessageModel::GraphicsTransmissionRetired { transfer_id, image_id }, next)),
                    None => None,
                }
            } else if tag == 12 {
                Some((ServerMessageModel::ClientShellSnapshot, at))
            } else if tag == 13 {
                Some((ServerMessageModel::PaneSurface, at))
            } else if tag == 14 {
                Some((ServerMessageModel::SemanticNotification, at))
            } else if tag == 15 {
                match <String>::parse(s, at) {
                    Some((message, next)) => Some((ServerMessageModel::ClientShellError { message }, next)),
                    None => None,
                }
            } else if tag == 16 {
                match <(u16, u8)>::parse(s, at) {
                    Some(((flags, modify_other_keys_level), next)) => Some((ServerMessageModel::DirectTerminalKeyboardProtocol { flags, modify_other_keys_level }, next)),
                    None => None,
                }
            } else if tag == 17 {
                match <bool>::parse(s, at) {
                    Some((enabled, next)) => Some((ServerMessageModel::ClientShellKeyboardReportAll { enabled }, next)),
                    None => None,
                }
            } else if tag == 18 {
                match <(String, (String, (bool, Vec<u8>)))>::parse(s, at) {
                    Some(((boot_id, (request_id, (final_chunk, data))), next)) => Some((ServerMessageModel::ClientShellEndpointResponseChunk { boot_id, request_id, final_chunk, data }, next)),
                    None => None,
                }
            } else if tag == 19 {
                Some((ServerMessageModel::PaneSurfacePatch, at))
            } else if tag == 20 {
                match <(String, String)>::parse(s, at) {
                    Some(((kind, data), next)) => Some((ServerMessageModel::EndpointControl { kind, data }, next)),
                    None => None,
                }
            } else {
                None
            },
            None => None,
        }
    }

    proof fn lemma_takes_room(m: ServerMessageModel) {
    }

    proof fn lemma_round_trip(m: ServerMessageModel, s: Seq<u8>, pos: int) {
        match m {
            ServerMessageModel::Welcome { version, encoding, error } => {
                lemma_stands_split(s, pos, u32::bytes(0u32), <(u32, (RenderEncoding, Option<String>))>::bytes((version, (encoding, error))));
                u32::lemma_round_trip(0u32, s, pos);
                <(u32, (RenderEncoding, Option<String>))>::lemma_round_trip((version, (encoding, error)), s, pos + u32::bytes(0u32).len());
            },
            ServerMessageModel::Terminal(v) => {
                lemma_stands_split(s, pos, u32::bytes(1u32), <TerminalFrame>::bytes(v));
                u32::lemma_round_trip(1u32, s, pos);
                <TerminalFrame>::lemma_round_trip(v, s, pos + u32::bytes(1u32).len());
            },
            ServerMessageModel::Graphics { bytes } => {
                lemma_stands_split(s, pos, u32::bytes(2u32), <Vec<u8>>::bytes(bytes));
                u32::lemma_round_trip(2u32, s, pos);
                <Vec<u8>>::lemma_round_trip(bytes, s, pos + u32::bytes(2u32).len());
            },
            ServerMessageModel::ServerShutdown { reason } => {
                lemma_stands_split(s, pos, u32::bytes(3u32), <Option<String>>::bytes(reason));
                u32::lemma_round_trip(3u32, s, pos);
                <Option<String>>::lemma_round_trip(reason, s, pos + u32::bytes(3u32).len());
            },
            ServerMessageModel::Notify { kind, message, body } => {
                lemma_stands_split(s, pos, u32::bytes(4u32), <(NotifyKind, (String, Option<String>))>::bytes((kind, (message, body))));
                u32::lemma_round_trip(4u32, s, pos);
                <(NotifyKind, (String, Option<String>))>::lemma_round_trip((kind, (message, body)), s, pos + u32::bytes(4u32).len());
            },
            ServerMessageModel::Clipboard { data } => {
                lemma_stands_split(s, pos, u32::bytes(5u32), <String>::bytes(data));
                u32::lemma_round_trip(5u32, s, pos);
                <String>::lemma_round_trip(data, s, pos + u32::bytes(5u32).len());
            },
            ServerMessageModel::WindowTitle { title } => {
                lemma_stands_split(s, pos, u32::bytes(6u32), <Option<String>>::bytes(title));
                u32::lemma_round_trip(6u32, s, pos);
                <Option<String>>::lemma_round_trip(title, s, pos + u32::bytes(6u32).len());
            },
            ServerMessageModel::ReloadSoundConfig => {
                u32::lemma_round_trip(7u32, s, pos);
            },
            ServerMessageModel::MouseCapture { enabled, sgr_pixels } => {
                lemma_stands_split(s, pos, u32::bytes(8u32), <(bool, bool)>::bytes((enabled, sgr_pixels)));
                u32::lemma_round_trip(8u32, s, pos);
                <(bool, bool)>::lemma_round_trip((enabled, sgr_pixels), s, pos + u32::bytes(8u32).len());
            },
            ServerMessageModel::TerminalBell { count } => {
                lemma_stands_split(s, pos, u32::bytes(9u32), <u16>::bytes(count));
                u32::lemma_round_trip(9u32, s, pos);
                <u16>::lemma_round_trip(count, s, pos + u32::bytes(9u32).len());
            },
            ServerMessageModel::GraphicsFile { path, expected_len, image_id, transfer_id, leading, control, surface_asset } => {
                lemma_stands_split(s, pos, u32::bytes(10u32), <(String, (u64, (u32, (u64, (Vec<u8>, (String, Option<SurfaceGraphicsAssetKey>))))))>::bytes((path, (expected_len, (image_id, (transfer_id, (leading, (control, surface_asset))))))));
                u32::lemma_round_trip(10u32, s, pos);
                <(String, (u64, (u32, (u64, (Vec<u8>, (String, Option<SurfaceGraphicsAssetKey>))))))>::lemma_round_trip((path, (expected_len, (image_id, (transfer_id, (leading, (control, surface_asset)))))), s, pos + u32::bytes(10u32).len());
            },
            ServerMessageModel::GraphicsTransmissionRetired { transfer_id, image_id } => {
                lemma_stands_split(s, pos, u32::bytes(11u32), <(u64, u32)>::bytes((transfer_id, image_id)));
                u32::lemma_round_trip(11u32, s, pos);
                <(u64, u32)>::lemma_round_trip((transfer_id, image_id), s, pos + u32::bytes(11u32).len());
            },
            ServerMessageModel::ClientShellSnapshot => {
                u32::lemma_round_trip(12u32, s, pos);
            },
            ServerMessageModel::PaneSurface => {
                u32::lemma_round_trip(13u32, s, pos);
            },
            ServerMessageModel::SemanticNotification => {
                u32::lemma_round_trip(14u32, s, pos);
            },
            ServerMessageModel::ClientShellError { message } => {
                lemma_stands_split(s, pos, u32::bytes(15u32), <String>::bytes(message));
                u32::lemma_round_trip(15u32, s, pos);
                <String>::lemma_round_trip(message, s, pos + u32::bytes(15u32).len());
            },
            ServerMessageModel::DirectTerminalKeyboardProtocol { flags, modify_other_keys_level } => {
                lemma_stands_split(s, pos, u32::bytes(16u32), <(u16, u8)>::bytes((flags, modify_other_keys_level)));
                u32::lemma_round_trip(16u32, s, pos);
                <(u16, u8)>::lemma_round_trip((flags, modify_other_keys_level), s, pos + u32::bytes(16u32).len());
            },
            ServerMessageModel::ClientShellKeyboardReportAll { enabled } => {
                lemma_stands_split(s, pos, u32::bytes(17u32), <bool>::bytes(enabled));
                u32::lemma_round_trip(17u32, s, pos);
                <bool>::lemma_round_trip(enabled, s, pos + u32::bytes(17u32).len());
            },
            ServerMessageModel::ClientShellEndpointResponseChunk { boot_id, request_id, final_chunk, data } => {
                lemma_stands_split(s, pos, u32::bytes(18u32), <(String, (String, (bool, Vec<u8>)))>::bytes((boot_id, (request_id, (final_chunk, data)))));
                u32::lemma_round_trip(18u32, s, pos);
                <(String, (String, (bool, Vec<u8>)))>::lemma_round_trip((boot_id, (request_id, (final_chunk, data))), s, pos + u32::bytes(18u32).len());
            },
            ServerMessageModel::PaneSurfacePatch => {
                u32::lemma_round_trip(19u32, s, pos);
            },
            ServerMessageModel::EndpointControl { kind, data } => {
                lemma_stands_split(s, pos, u32::bytes(20u32), <(String, String)>::bytes((kind, data)));
                u32::lemma_round_trip(20u32, s, pos);
                <(String, String)>::lemma_round_trip((kind, data), s, pos + u32::bytes(20u32).len());
            },
        }
    }

    fn put(&self, out: &mut Vec<u8>) {
        let ghost before = out@;
        match self {
            ServerMessage::Welcome { version, encoding, error } => {
                0u32.put(out);
                put3(version, encoding, error, out);
            },
            ServerMessage::Terminal(v) => {
                1u32.put(out);
                v.put(out);
            },
            ServerMessage::Graphics { bytes } => {
                2u32.put(out);
                bytes.put(out);
            },
            ServerMessage::ServerShutdown { reason } => {
                3u32.put(out);
                reason.put(out);
            },
            ServerMessage::Notify { kind, message, body } => {
                4u32.put(out);
                put3(kind, message, body, out);
            },
            ServerMessage::Clipboard { data } => {
                5u32.put(out);
                data.put(out);
            },
            ServerMessage::WindowTitle { title } => {
                6u32.put(out);
                title.put(out);
            },
            ServerMessage::ReloadSoundConfig => {
                7u32.put(out);
            },
            ServerMessage::MouseCapture { enabled, sgr_pixels } => {
                8u32.put(out);
                put2(enabled, sgr_pixels, out);
            },
            ServerMessage::TerminalBell { count } => {
                9u32.put(out);
                count.put(out);
            },
            ServerMessage::GraphicsFile { path, expected_len, image_id, transfer_id, leading, control, surface_asset } => {
                10u32.put(out);
                put7(path, expected_len, image_id, transfer_id, leading, control, surface_asset, out);
            },
            ServerMessage::GraphicsTransmissionRetired { transfer_id, image_id } => {
                11u32.put(out);
                put2(transfer_id, image_id, out);
            },
            ServerMessage::ClientShellSnapshot => {
                12u32.put(out);
            },
            ServerMessage::PaneSurface => {
                13u32.put(out);
            },
            ServerMessage::SemanticNotification => {
                14u32.put(out);
            },
            ServerMessage::ClientShellError { message } => {
                15u32.put(out);
                message.put(out);
            },
            ServerMessage::DirectTerminalKeyboardProtocol { flags, modify_other_keys_level } => {
                16u32.put(out);
                put2(flags, modify_other_keys_level, out);
            },
            ServerMessage::ClientShellKeyboardReportAll { enabled } => {
                17u32.put(out);
                enabled.put(out);
            },
            ServerMessage::ClientShellEndpointResponseChunk { boot_id, request_id, final_chunk, data } => {
                18u32.put(out);
                put4(boot_id, request_id, final_chunk, data, out);
            },
            ServerMessage::PaneSurfacePatch => {
                19u32.put(out);
            },
            ServerMessage::EndpointControl { kind, data } => {
                20u32.put(out);
                put2(kind, data, out);
            },
        }
        proof {
            assert(out@ =~= before + Self::bytes(self.model()));
        }
    }

    fn get(s: &[u8], pos: usize) -> (r: Option<(Self, usize)>) {
        match u32::get(s, pos) {
            Some((tag, at)) => match tag {
                0 => match <(u32, (RenderEncoding, Option<String>))>::get(s, at) {
                    Some(((version, (encoding, error)), next)) => Some((ServerMessage::Welcome { version, encoding, error }, next)),
                    None => None,
                },
                1 => match <TerminalFrame>::get(s, at) {
                    Some((v, next)) => Some((ServerMessage::Terminal(v), next)),
                    None => None,
                },
                2 => match <Vec<u8>>::get(s, at) {
                    Some((bytes, next)) => Some((ServerMessage::Graphics { bytes }, next)),
                    None => None,
                },
                3 => match <Option<String>>::get(s, at) {
                    Some((reason, next)) => Some((ServerMessage::ServerShutdown { reason }, next)),
                    None => None,
                },
                4 => match <(NotifyKind, (String, Option<String>))>::get(s, at) {
                    Some(((kind, (message, body)), next)) => Some((ServerMessage::Notify { kind, message, body }, next)),
                    None => None,
                },
                5 => match <String>::get(s, at) {
                    Some((data, next)) => Some((ServerMessage::Clipboard { data }, next)),
                    None => None,
                },
                6 => match <Option<String>>::get(s, at) {
                    Some((title, next)) => Some((ServerMessage::WindowTitle { title }, next)),
                    None => None,
                },
                7 => Some((ServerMessage::ReloadSoundConfig, at)),
                8 => match <(bool, bool)>::get(s, at) {
                    Some(((enabled, sgr_pixels), next)) => Some((ServerMessage::MouseCapture { enabled, sgr_pixels }, next)),
                    None => None,
                },
                9 => match <u16>::get(s, at) {
                    Some((count, next)) => Some((ServerMessage::TerminalBell { count }, next)),
                    None => None,
                },
                10 => match <(String, (u64, (u32, (u64, (Vec<u8>, (String, Option<SurfaceGraphicsAssetKey>))))))>::get(s, at) {
                    Some(((path, (expected_len, (image_id, (transfer_id, (leading, (control, surface_asset)))))), next)) => Some((ServerMessage::GraphicsFile { path, expected_len, image_id, transfer_id, leading, control, surface_asset }, next)),
                    None => None,
                },
                11 => match <(u64, u32)>::get(s, at) {
                    Some(((transfer_id, image_id), next)) => Some((ServerMessage::GraphicsTransmissionRetired { transfer_id, image_id }, next)),
                    None => None,
                },
                12 => Some((ServerMessage::ClientShellSnapshot, at)),
                13 => Some((ServerMessage::PaneSurface, at)),
                14 => Some((ServerMessage::SemanticNotification, at)),
                15 => match <String>::get(s, at) {
                    Some((message, next)) => Some((ServerMessage::ClientShellError { message }, next)),
                    None => None,
                },
                16 => match <(u16, u8)>::get(s, at) {
                    Some(((flags, modify_other_keys_level), next)) => Some((ServerMessage::DirectTerminalKeyboardProtocol { flags, modify_other_keys_level }, next)),
                    None => None,
                },
                17 => match <bool>::get(s, at) {
                    Some((enabled, next)) => Some((ServerMessage::ClientShellKeyboardReportAll { enabled }, next)),
                    None => None,
                },
                18 => match <(String, (String, (bool, Vec<u8>)))>::get(s, at) {
                    Some(((boot_id, (request_id, (final_chunk, data))), next)) => Some((ServerMessage::ClientShellEndpointResponseChunk { boot_id, request_id, final_chunk, data }, next)),
                    None => None,
                },
                19 => Some((ServerMessage::PaneSurfacePatch, at)),
                20 => match <(String, String)>::get(s, at) {
                    Some(((kind, data), next)) => Some((ServerMessage::EndpointControl { kind, data }, next)),
                    None => None,
                },
                _ => None,
            },
            None => None,
        }
    }
}

} // verus!
