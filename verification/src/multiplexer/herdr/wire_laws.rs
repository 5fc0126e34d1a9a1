//! What stands on the wire, byte by byte, stated over the calls that write and read it.

use vstd::prelude::*;
use vstd::string::*;
use vstd::utf8::encode_utf8;

use super::codec::{
    items_bytes, le_bytes, le_value, lemma_le_len, models, pair_bytes, varint, Wire,
};
use super::wire::{
    declared_len, decode_payload, encode, frame, is_skippable_server_tag,
    law_a_server_message_reads_back, law_reading_a_frame_keeps_the_stream_aligned, payload_len,
    read_server_message, write_message, AttachScrollDirection, AttachScrollSource, ClientMessage,
    FramingError, RenderEncoding, ServerMessage, TerminalFrame, WireFrame,
    HERDR_MAX_TESTED_PROTOCOL, HERDR_MIN_PROTOCOL, HIGHEST_KNOWN_SERVER_TAG, MAX_FRAME_SIZE,
};
use crate::text::decimal;

verus! {

// --------------------------------------------------------------------- numbers

/// The bytes of a number: itself up to 250; above that a mark, 251, 252 or 253, for two,
/// four or eight bytes, and these bytes, the lowest first.
pub proof fn law_a_number_is_its_bytes_lowest_first(v: nat)
    ensures
        v <= 250 ==> varint(v) == seq![v as u8],
        250 < v < 0x1_0000 ==> varint(v) == seq![251u8, (v % 256) as u8, (v / 256 % 256) as u8],
        0x1_0000 <= v < 0x1_0000_0000 ==> varint(v) == seq![
            252u8,
            (v % 256) as u8,
            (v / 256 % 256) as u8,
            (v / 0x1_0000 % 256) as u8,
            (v / 0x100_0000 % 256) as u8,
        ],
        v >= 0x1_0000_0000 ==> varint(v).len() == 9 && varint(v)[0] == 253 && varint(v)[1] == v
            % 256,
{
    reveal_with_fuel(le_bytes, 5);
    lemma_le_len(v, 8);
    assert(v / 256 / 256 == v / 0x1_0000);
    assert(v / 0x1_0000 / 256 == v / 0x100_0000);
    if v <= 250 {
    } else if v < 0x1_0000 {
        assert(varint(v) =~= seq![251u8, (v % 256) as u8, (v / 256 % 256) as u8]);
    } else if v < 0x1_0000_0000 {
        assert(varint(v) =~= seq![
            252u8,
            (v % 256) as u8,
            (v / 256 % 256) as u8,
            (v / 0x1_0000 % 256) as u8,
            (v / 0x100_0000 % 256) as u8,
        ]);
    }
}

proof fn lemma_raw_bytes(data: Seq<u8>)
    ensures
        items_bytes::<u8>(data) == data,
    decreases data.len(),
{
    if data.len() > 0 {
        lemma_raw_bytes(data.drop_last());
        assert(data.drop_last() + seq![data.last()] =~= data);
    } else {
        assert(items_bytes::<u8>(data) =~= data);
    }
}

proof fn lemma_number_is_short(v: nat)
    ensures
        1 <= varint(v).len() <= 9,
{
    lemma_le_len(v, 2);
    lemma_le_len(v, 4);
    lemma_le_len(v, 8);
}

// ---------------------------------------------------------------------- frames

/// A frame starts with the length of the rest in four bytes, the lowest first.
pub proof fn law_a_frame_declares_its_length(msg: &ClientMessage, r: Result<Vec<u8>, FramingError>)
    requires
        call_ensures(encode, (msg,), r),
    ensures
        r matches Ok(f) ==> f@.len() >= 4 && f@[0] + 256 * f@[1] + 0x1_0000 * f@[2] + 0x100_0000
            * f@[3] == f@.len() - 4,
{
    if let Ok(f) = r {
        let n = (f@.len() - 4) as nat;
        lemma_le_len(ClientMessage::bytes(msg.model()).len(), 4);
        reveal_with_fuel(le_bytes, 5);
        assert(n / 256 / 256 == n / 0x1_0000);
        assert(n / 0x1_0000 / 256 == n / 0x100_0000);
        assert(f@[0] == n % 256);
        assert(f@[1] == n / 256 % 256);
        assert(f@[2] == n / 0x1_0000 % 256);
        assert(f@[3] == n / 0x100_0000 % 256);
    }
}

/// A message that is written is appended whole, or not at all.
pub proof fn law_a_message_is_written_whole_or_not_at_all(
    out: &mut Vec<u8>,
    msg: &ClientMessage,
    r: Result<(), FramingError>,
    f: Result<Vec<u8>, FramingError>,
)
    requires
        call_ensures(write_message, (out, msg), r),
        call_ensures(encode, (msg,), f),
    ensures
        r is Ok <==> f is Ok,
        f matches Ok(bytes) ==> final(out)@ == old(out)@ + bytes@,
        f is Err ==> final(out)@ == old(out)@,
{
}

/// The two messages that only hold a place are never written.
pub proof fn law_a_placeholder_is_never_written(
    msg: &ClientMessage,
    r: Result<Vec<u8>, FramingError>,
)
    requires
        call_ensures(encode, (msg,), r),
        *msg is ClientShellPaneInput || *msg is ClientShellPopupInput,
    ensures
        r is Err,
{
}

/// A frame is skipped if its tag is one of the four without a payload here, or above 20;
/// every other frame is decoded.
pub proof fn law_only_unmodelled_tags_are_skipped(tag: u8, skip: bool)
    requires
        call_ensures(is_skippable_server_tag, (tag,), skip),
    ensures
        skip <==> tag == 12 || tag == 13 || tag == 14 || tag == 19 || tag > 20,
{
}

/// The length prefix is read with its lowest byte first, and refused above two mebibytes.
pub proof fn law_a_prefix_is_read_lowest_first(prefix: &[u8], r: Result<usize, FramingError>)
    requires
        prefix@.len() >= 4,
        call_ensures(payload_len, (prefix,), r),
    ensures
        ({
            let n = prefix@[0] + 256 * prefix@[1] + 0x1_0000 * prefix@[2] + 0x100_0000 * prefix@[3];
            &&& r is Ok <==> n <= 2_097_152
            &&& r matches Ok(len) ==> len == n
            &&& r matches Err(e) ==> (e matches FramingError::Oversized { claimed, max } && claimed
                == n && max == 2_097_152)
        }),
{
    reveal_with_fuel(le_value, 5);
}

/// A stream that ends inside a frame has no frame, and a length above two mebibytes is
/// refused before its payload is looked at.
pub proof fn law_a_short_stream_has_no_frame<'a, F: Fn(&[u8]) -> String>(
    reader: &mut &'a [u8],
    diagnose: F,
    r: Result<WireFrame, FramingError>,
)
    requires
        call_ensures(read_server_message, (reader, diagnose), r),
    ensures
        (*old(reader))@.len() < 4 ==> r matches Err(FramingError::UnexpectedEof),
        ({
            let s = (*old(reader))@;
            let n = s[0] + 256 * s[1] + 0x1_0000 * s[2] + 0x100_0000 * s[3];
            &&& s.len() >= 4 && n <= 2_097_152 && s.len() < 4 + n ==> (r matches Err(
                FramingError::UnexpectedEof,
            ))
            &&& s.len() >= 4 && n > 2_097_152 ==> (r matches Err(FramingError::Oversized {
                claimed,
                max,
            }) && claimed == n && max == 2_097_152)
            &&& s.len() >= 4 + n && n <= 2_097_152 ==> (*final(reader))@ == s.skip(4 + n)
        }),
{
    reveal_with_fuel(le_value, 5);
    let s = (*old(reader))@;
    if s.len() >= 4 {
        assert(declared_len(s) == s[0] + 256 * s[1] + 0x1_0000 * s[2] + 0x100_0000 * s[3]);
    }
}

/// A framing error in words names what went wrong.
pub proof fn law_a_framing_error_names_its_cause(e: &FramingError, t: String)
    requires
        call_ensures(FramingError::message, (e,), t),
    ensures
        *e matches FramingError::Oversized { claimed, max } ==> t@ == "frame length "@ + decimal(
            claimed as nat,
        ) + " exceeds maximum "@ + decimal(max as nat),
        *e matches FramingError::Io(why) ==> t@ == "I/O error: "@ + why@,
        *e matches FramingError::Bincode(why) ==> t@ == "bincode error: "@ + why@,
        *e is UnexpectedEof ==> t@ == "unexpected end of stream"@,
{
}

// ---------------------------------------------------------- messages that go out

/// The hello: its tag, the version, columns, rows, the size of a cell, the mouse flag.
pub proof fn law_a_hello_on_the_wire(
    version: u32,
    cols: u16,
    rows: u16,
    width: u32,
    height: u32,
    mouse: bool,
    r: Result<Vec<u8>, FramingError>,
)
    requires
        call_ensures(
            encode,
            (&ClientMessage::TerminalHello {
                version,
                cols,
                rows,
                cell_width_px: width,
                cell_height_px: height,
                pixel_mouse: mouse,
            },),
            r,
        ),
    ensures
        r matches Ok(f) && f@.skip(4) == seq![0u8] + varint(version as nat) + varint(cols as nat)
            + varint(rows as nat) + varint(width as nat) + varint(height as nat) + seq![
            if mouse {
                1u8
            } else {
                0u8
            },
        ],
{
    reveal(pair_bytes);
    lemma_number_is_short(version as nat);
    lemma_number_is_short(cols as nat);
    lemma_number_is_short(rows as nat);
    lemma_number_is_short(width as nat);
    lemma_number_is_short(height as nat);
    let msg = ClientMessage::TerminalHello {
        version,
        cols,
        rows,
        cell_width_px: width,
        cell_height_px: height,
        pixel_mouse: mouse,
    };
    let payload = ClientMessage::bytes(msg.model());
    lemma_le_len(payload.len(), 4);
    assert(payload =~= seq![0u8] + varint(version as nat) + varint(cols as nat) + varint(
        rows as nat,
    ) + varint(width as nat) + varint(height as nat) + seq![
        if mouse {
            1u8
        } else {
            0u8
        },
    ]);
    assert(frame(payload).skip(4) =~= payload);
}

/// A resize: its tag, columns, rows, the size of a cell, the mouse flag.
pub proof fn law_a_resize_on_the_wire(
    cols: u16,
    rows: u16,
    width: u32,
    height: u32,
    mouse: bool,
    r: Result<Vec<u8>, FramingError>,
)
    requires
        call_ensures(
            encode,
            (&ClientMessage::Resize {
                cols,
                rows,
                cell_width_px: width,
                cell_height_px: height,
                pixel_mouse: mouse,
            },),
            r,
        ),
    ensures
        r matches Ok(f) && f@.skip(4) == seq![3u8] + varint(cols as nat) + varint(rows as nat)
            + varint(width as nat) + varint(height as nat) + seq![
            if mouse {
                1u8
            } else {
                0u8
            },
        ],
{
    reveal(pair_bytes);
    lemma_number_is_short(cols as nat);
    lemma_number_is_short(rows as nat);
    lemma_number_is_short(width as nat);
    lemma_number_is_short(height as nat);
    let msg = ClientMessage::Resize {
        cols,
        rows,
        cell_width_px: width,
        cell_height_px: height,
        pixel_mouse: mouse,
    };
    let payload = ClientMessage::bytes(msg.model());
    lemma_le_len(payload.len(), 4);
    assert(payload =~= seq![3u8] + varint(cols as nat) + varint(rows as nat) + varint(width as nat)
        + varint(height as nat) + seq![
        if mouse {
            1u8
        } else {
            0u8
        },
    ]);
    assert(frame(payload).skip(4) =~= payload);
}

/// Input: its tag, how many bytes there are, and the bytes.
pub proof fn law_input_on_the_wire(data: Vec<u8>, r: Result<Vec<u8>, FramingError>)
    requires
        data@.len() <= 0x8000_0000,
        call_ensures(encode, (&ClientMessage::Input { data },), r),
    ensures
        r matches Ok(f) && f@.skip(4) == seq![1u8] + varint(data@.len()) + data@,
{
    let msg = ClientMessage::Input { data };
    let payload = ClientMessage::bytes(msg.model());
    lemma_number_is_short(data@.len());
    assert(models(data@) =~= data@);
    lemma_raw_bytes(data@);
    lemma_le_len(payload.len(), 4);
    assert(payload =~= seq![1u8] + varint(data@.len()) + data@);
    assert(frame(payload).skip(4) =~= payload);
}

/// An attach: its tag, the attach key with its length before it, the takeover flag. A
/// goodbye is its tag alone.
pub proof fn law_an_attach_and_a_goodbye_on_the_wire(
    terminal_id: String,
    takeover: bool,
    attach: Result<Vec<u8>, FramingError>,
    goodbye: Result<Vec<u8>, FramingError>,
)
    requires
        encode_utf8(terminal_id@).len() <= 0x8000_0000,
        call_ensures(
            encode,
            (&ClientMessage::AttachTerminal { terminal_id, takeover },),
            attach,
        ),
        call_ensures(encode, (&ClientMessage::Detach,), goodbye),
    ensures
        attach matches Ok(f) && f@.skip(4) == seq![5u8] + varint(encode_utf8(terminal_id@).len())
            + encode_utf8(terminal_id@) + seq![
            if takeover {
                1u8
            } else {
                0u8
            },
        ],
        goodbye matches Ok(f) && f@.skip(4) == seq![4u8],
{
    reveal(pair_bytes);
    let text = encode_utf8(terminal_id@);
    lemma_number_is_short(text.len());
    let msg = ClientMessage::AttachTerminal { terminal_id, takeover };
    let payload = ClientMessage::bytes(msg.model());
    lemma_le_len(payload.len(), 4);
    assert(payload =~= seq![5u8] + varint(text.len()) + text + seq![
        if takeover {
            1u8
        } else {
            0u8
        },
    ]);
    assert(frame(payload).skip(4) =~= payload);
    let last = ClientMessage::bytes(ClientMessage::Detach.model());
    lemma_le_len(last.len(), 4);
    assert(last =~= seq![4u8]);
    assert(frame(last).skip(4) =~= last);
}

/// A wheel scroll: its tag, the source, the direction (up before down), the lines, the
/// column and the row, each marked as present, and the modifiers.
pub proof fn law_a_wheel_scroll_on_the_wire(
    direction: AttachScrollDirection,
    lines: u16,
    column: u16,
    row: u16,
    modifiers: u8,
    r: Result<Vec<u8>, FramingError>,
)
    requires
        call_ensures(
            encode,
            (&ClientMessage::AttachScroll {
                source: AttachScrollSource::Wheel,
                direction,
                lines,
                column: Some(column),
                row: Some(row),
                modifiers,
            },),
            r,
        ),
    ensures
        r matches Ok(f) && f@.skip(4) == seq![
            6u8,
            0u8,
            if direction is Up {
                0u8
            } else {
                1u8
            },
        ] + varint(lines as nat) + seq![1u8] + varint(column as nat) + seq![1u8] + varint(
            row as nat,
        ) + seq![modifiers],
{
    reveal(pair_bytes);
    lemma_number_is_short(lines as nat);
    lemma_number_is_short(column as nat);
    lemma_number_is_short(row as nat);
    let msg = ClientMessage::AttachScroll {
        source: AttachScrollSource::Wheel,
        direction,
        lines,
        column: Some(column),
        row: Some(row),
        modifiers,
    };
    let payload = ClientMessage::bytes(msg.model());
    lemma_le_len(payload.len(), 4);
    let way = if direction is Up {
        0u8
    } else {
        1u8
    };
    let head = seq![6u8, 0u8, way];
    let one = seq![1u8];
    let l = varint(lines as nat);
    let c = varint(column as nat);
    let r = varint(row as nat);
    let last = seq![modifiers];
    let rest = l + ((one + c) + ((one + r) + last));
    assert(payload == seq![6u8] + (seq![0u8] + (seq![way] + rest)));
    assert(seq![6u8] + (seq![0u8] + (seq![way] + rest)) =~= head + rest);
    lemma_join(head, l, (one + c) + ((one + r) + last));
    lemma_join(head + l, one + c, (one + r) + last);
    lemma_join(head + l + (one + c), one + r, last);
    lemma_join(head + l, one, c);
    lemma_join(head + l + one + c, one, r);
    assert(frame(payload).skip(4) =~= payload);
}

// ----------------------------------------------------------- messages that come in

/// Parts are joined in either order.
proof fn lemma_join(a: Seq<u8>, b: Seq<u8>, c: Seq<u8>)
    ensures
        a + (b + c) == a + b + c,
{
    assert(a + (b + c) =~= a + b + c);
}

#[verifier::spinoff_prover]
proof fn lemma_terminal_frame_bytes(f: TerminalFrame)
    requires
        f.bytes@.len() <= 0x10_0000,
    ensures
        ServerMessage::bytes(ServerMessage::Terminal(f).model()) == seq![1u8] + varint(f.seq as nat)
            + varint(f.width as nat) + varint(f.height as nat) + seq![
            if f.full {
                1u8
            } else {
                0u8
            },
        ] + varint(f.bytes@.len()) + f.bytes@,
        ServerMessage::bytes(ServerMessage::Terminal(f).model()).len() <= MAX_FRAME_SIZE,
{
    reveal(pair_bytes);
    assert(models(f.bytes@) =~= f.bytes@);
    lemma_raw_bytes(f.bytes@);
    lemma_number_is_short(f.seq as nat);
    lemma_number_is_short(f.width as nat);
    lemma_number_is_short(f.height as nat);
    lemma_number_is_short(f.bytes@.len());
    let tag = seq![1u8];
    let number = varint(f.seq as nat);
    let width = varint(f.width as nat);
    let height = varint(f.height as nat);
    let full = seq![
        if f.full {
            1u8
        } else {
            0u8
        },
    ];
    let count = varint(f.bytes@.len());
    lemma_join(tag, number, width + (height + (full + (count + f.bytes@))));
    lemma_join(tag + number, width, height + (full + (count + f.bytes@)));
    lemma_join(tag + number + width, height, full + (count + f.bytes@));
    lemma_join(tag + number + width + height, full, count + f.bytes@);
    lemma_join(tag + number + width + height + full, count, f.bytes@);
}

/// A terminal frame on the wire: its tag, its number, width, height, whether it is a full
/// repaint, how many bytes there are, and the bytes. That is how one is read.
pub proof fn law_a_terminal_frame_is_read_field_by_field<'a, F: Fn(&[u8]) -> String>(
    f: TerminalFrame,
    rest: Seq<u8>,
    reader: &mut &'a [u8],
    diagnose: F,
    r: Result<WireFrame, FramingError>,
)
    requires
        f.bytes@.len() <= 0x10_0000,
        (*old(reader))@ == frame(
            seq![1u8] + varint(f.seq as nat) + varint(f.width as nat) + varint(f.height as nat)
                + seq![
                if f.full {
                    1u8
                } else {
                    0u8
                },
            ] + varint(f.bytes@.len()) + f.bytes@,
        ) + rest,
        call_ensures(read_server_message, (reader, diagnose), r),
    ensures
        r matches Ok(WireFrame::Message(m)) && (*m matches ServerMessage::Terminal(g) && g.seq
            == f.seq && g.width == f.width && g.height == f.height && g.full == f.full && g.bytes@
            == f.bytes@),
        (*final(reader))@ == rest,
{
    let model = ServerMessage::Terminal(f).model();
    lemma_terminal_frame_bytes(f);
    assert(models(f.bytes@) =~= f.bytes@);
    law_a_server_message_reads_back(model, rest);
    if let Ok(WireFrame::Message(m)) = r {
        if let ServerMessage::Terminal(g) = *m {
            assert(models(g.bytes@) =~= g.bytes@);
        }
    }
}

/// A welcome on the wire: its tag, the version, the encoding, and the error, marked as
/// present or not. That is how one is read.
pub proof fn law_a_welcome_is_read_field_by_field<'a, F: Fn(&[u8]) -> String>(
    version: u32,
    encoding: RenderEncoding,
    error: Option<String>,
    rest: Seq<u8>,
    reader: &mut &'a [u8],
    diagnose: F,
    r: Result<WireFrame, FramingError>,
)
    requires
        error matches Some(e) ==> encode_utf8(e@).len() <= 0x10_0000,
        (*old(reader))@ == frame(
            seq![0u8] + varint(version as nat) + seq![
                if encoding is TerminalAnsi {
                    1u8
                } else {
                    0u8
                },
            ] + (match error {
                Some(e) => seq![1u8] + varint(encode_utf8(e@).len()) + encode_utf8(e@),
                None => seq![0u8],
            }),
        ) + rest,
        call_ensures(read_server_message, (reader, diagnose), r),
    ensures
        r matches Ok(WireFrame::Message(m)) && (*m matches ServerMessage::Welcome {
            version: v,
            encoding: e,
            error: why,
        } && v == version && e == encoding && (why is Some <==> error is Some) && (
        why matches Some(x) ==> (error matches Some(y) && x@ == y@))),
        (*final(reader))@ == rest,
{
    reveal(pair_bytes);
    let msg = ServerMessage::Welcome { version, encoding, error };
    let model = msg.model();
    lemma_number_is_short(version as nat);
    if let Some(e) = error {
        lemma_number_is_short(encode_utf8(e@).len());
    }
    assert(ServerMessage::bytes(model) =~= seq![0u8] + varint(version as nat) + seq![
        if encoding is TerminalAnsi {
            1u8
        } else {
            0u8
        },
    ] + (match error {
        Some(e) => seq![1u8] + varint(encode_utf8(e@).len()) + encode_utf8(e@),
        None => seq![0u8],
    }));
    law_a_server_message_reads_back(model, rest);
}

/// A shutdown on the wire: its tag and the reason, marked as present or not. That is how
/// one is read.
pub proof fn law_a_shutdown_is_read_with_its_reason<'a, F: Fn(&[u8]) -> String>(
    reason: Option<String>,
    rest: Seq<u8>,
    reader: &mut &'a [u8],
    diagnose: F,
    r: Result<WireFrame, FramingError>,
)
    requires
        reason matches Some(e) ==> encode_utf8(e@).len() <= 0x10_0000,
        (*old(reader))@ == frame(
            seq![3u8] + (match reason {
                Some(e) => seq![1u8] + varint(encode_utf8(e@).len()) + encode_utf8(e@),
                None => seq![0u8],
            }),
        ) + rest,
        call_ensures(read_server_message, (reader, diagnose), r),
    ensures
        r matches Ok(WireFrame::Message(m)) && (*m matches ServerMessage::ServerShutdown {
            reason: why,
        } && (why is Some <==> reason is Some) && (why matches Some(x) ==> (reason matches Some(y)
            && x@ == y@))),
        (*final(reader))@ == rest,
{
    let msg = ServerMessage::ServerShutdown { reason };
    let model = msg.model();
    if let Some(e) = reason {
        lemma_number_is_short(encode_utf8(e@).len());
    }
    assert(ServerMessage::bytes(model) =~= seq![3u8] + (match reason {
        Some(e) => seq![1u8] + varint(encode_utf8(e@).len()) + encode_utf8(e@),
        None => seq![0u8],
    }));
    law_a_server_message_reads_back(model, rest);
}

/// A payload means the same by itself as it does in a frame at the front of a stream: the
/// same message, the same tag and length of one that is not modelled, or the same failure.
pub proof fn law_a_payload_means_the_same_in_a_frame<'a, F: Fn(&[u8]) -> String>(
    payload: &[u8],
    rest: Seq<u8>,
    reader: &mut &'a [u8],
    diagnose: F,
    framed: Result<WireFrame, FramingError>,
    alone: Result<WireFrame, FramingError>,
)
    requires
        payload@.len() <= MAX_FRAME_SIZE,
        (*old(reader))@ == frame(payload@) + rest,
        call_ensures(read_server_message, (reader, diagnose), framed),
        call_ensures(decode_payload::<F>, (payload, diagnose), alone),
    ensures
        framed is Ok <==> alone is Ok,
        framed matches Ok(WireFrame::Unknown { tag, len }) ==> (
        alone matches Ok(WireFrame::Unknown { tag: t, len: n }) && t == tag && n == len && tag
            == payload@[0] && len == payload@.len()),
        framed matches Ok(WireFrame::Message(m)) ==> (alone matches Ok(WireFrame::Message(n))
            && (*m).model() == (*n).model()),
        payload@.len() == 0 ==> (alone matches Err(FramingError::Bincode(t)) && t@
            == "empty frame payload — no variant tag"@),
{
    law_reading_a_frame_keeps_the_stream_aligned(payload@, rest);
}

/// The bounds of the protocol: the oldest and the newest version that are spoken, the last
/// tag that a server message has, and two mebibytes for a frame.
pub proof fn law_the_bounds_of_the_protocol()
    ensures
        HERDR_MIN_PROTOCOL == 22,
        HERDR_MAX_TESTED_PROTOCOL == 22,
        HIGHEST_KNOWN_SERVER_TAG == 20,
        MAX_FRAME_SIZE == 2_097_152,
{
}

/// Why a message is not written: it is one of the two that only hold a place, by its name,
/// or its payload is too long to declare.
pub proof fn law_a_message_that_is_not_written_says_why(
    msg: &ClientMessage,
    r: Result<Vec<u8>, FramingError>,
)
    requires
        call_ensures(encode, (msg,), r),
    ensures
        *msg is ClientShellPaneInput ==> (r matches Err(FramingError::Bincode(t)) && t@
            == "ClientShellPaneInput"@
            + " is a payload-free tag placeholder, not a message muxrd can send — mirror its payload from herdr's source first"@),
        *msg is ClientShellPopupInput ==> (r matches Err(FramingError::Bincode(t)) && t@
            == "ClientShellPopupInput"@
            + " is a payload-free tag placeholder, not a message muxrd can send — mirror its payload from herdr's source first"@),
        !(*msg is ClientShellPaneInput || *msg is ClientShellPopupInput) ==> (r is Err
            <==> ClientMessage::bytes(msg.model()).len() > u32::MAX),
        !(*msg is ClientShellPaneInput || *msg is ClientShellPopupInput) && r is Err ==> (
        r matches Err(FramingError::Bincode(t)) && t@ == "payload length "@ + decimal(
            ClientMessage::bytes(msg.model()).len(),
        ) + " exceeds u32::MAX — too large to frame"@),
{
}

/// A message that does not fill its payload is refused, with both lengths.
pub proof fn law_trailing_bytes_are_refused<F: Fn(&[u8]) -> String>(
    payload: &[u8],
    diagnose: F,
    r: Result<WireFrame, FramingError>,
    used: nat,
)
    requires
        payload@.len() > 0,
        call_ensures(decode_payload::<F>, (payload, diagnose), r),
        !(payload@[0] == 12 || payload@[0] == 13 || payload@[0] == 14 || payload@[0] == 19
            || payload@[0] > 20),
        ServerMessage::parse(payload@, 0) matches Some((_, end)) && end == used,
        used != payload@.len(),
    ensures
        r matches Err(FramingError::Bincode(t)) && t@ == "decoded "@ + decimal(used)
            + " bytes but frame claimed "@ + decimal(payload@.len())
            + " — trailing bytes not allowed"@,
{
}

/// A payload that is no message is refused with what the diagnosis says of that payload.
pub proof fn law_an_undecodable_payload_is_diagnosed<F: Fn(&[u8]) -> String>(
    payload: &[u8],
    diagnose: F,
    r: Result<WireFrame, FramingError>,
)
    requires
        payload@.len() > 0,
        call_ensures(decode_payload::<F>, (payload, diagnose), r),
        !(payload@[0] == 12 || payload@[0] == 13 || payload@[0] == 14 || payload@[0] == 19
            || payload@[0] > 20),
        ServerMessage::parse(payload@, 0) is None,
    ensures
        r matches Err(FramingError::Bincode(t)) && exists|p: &[u8]|
            p@ == payload@ && #[trigger] call_ensures(diagnose, (p,), t),
{
}

} // verus!
