//! The tags of the messages, and what else stands on the wire of those that are made up of
//! texts, numbers and flags.

use vstd::prelude::*;
use vstd::string::*;
use vstd::utf8::encode_utf8;

use super::codec::{lemma_le_len, pair_bytes, varint, Wire};
use super::wire::{
    decode_payload, encode, frame, law_client_payload_starts_with_its_tag, ClientMessage,
    ServerMessage, WireFrame,
};

verus! {

/// Each message goes out under its own tag, the first byte behind the length.
pub proof fn law_each_message_goes_out_under_its_tag(msg: &ClientMessage, f: Vec<u8>)
    requires
        call_ensures(encode, (msg,), Ok(f)),
    ensures
        f@.len() > 4,
        *msg is TerminalHello <==> f@[4] == 0,
        *msg is Input <==> f@[4] == 1,
        *msg is ClipboardImage <==> f@[4] == 2,
        *msg is Resize <==> f@[4] == 3,
        *msg is Detach <==> f@[4] == 4,
        *msg is AttachTerminal <==> f@[4] == 5,
        *msg is AttachScroll <==> f@[4] == 6,
        *msg is ObserveTerminal <==> f@[4] == 7,
        *msg is ControlTerminal <==> f@[4] == 8,
        *msg is GraphicsTransmissionResult <==> f@[4] == 9,
        *msg is GraphicsTransmissionStarted <==> f@[4] == 10,
        *msg is ClientShellHello <==> f@[4] == 11,
        *msg is ClientShellResize <==> f@[4] == 12,
        *msg is ClientShellEndpointRequest <==> f@[4] == 15,
        *msg is AttachMouse <==> f@[4] == 16,
        *msg is ClientShellHostTheme <==> f@[4] == 17,
        *msg is ClientShellFocus <==> f@[4] == 18,
        *msg is ClientShellMouseCapture <==> f@[4] == 19,
        *msg is EndpointControl <==> f@[4] == 20,
{
    let payload = ClientMessage::bytes(msg.model());
    lemma_le_len(payload.len(), 4);
    law_client_payload_starts_with_its_tag(msg.model());
    assert(f@ == frame(payload));
    assert(f@[4] == payload[0]);
}

/// A text on the wire: its length in bytes, and the bytes.
pub open spec fn text_on_wire(t: Seq<char>) -> Seq<u8> {
    varint(encode_utf8(t).len()) + encode_utf8(t)
}

/// A flag on the wire: one byte.
pub open spec fn flag_on_wire(b: bool) -> Seq<u8> {
    seq![
        if b {
            1u8
        } else {
            0u8
        },
    ]
}

/// The plain messages on the wire: the tag, and then the fields in the order in which they
/// are declared.
pub proof fn law_the_plain_messages_on_the_wire(msg: &ClientMessage, f: Vec<u8>)
    requires
        call_ensures(encode, (msg,), Ok(f)),
    ensures
        *msg matches ClientMessage::ObserveTerminal { target } ==> f@.skip(4) == seq![7u8]
            + text_on_wire(target@),
        *msg matches ClientMessage::ControlTerminal { target, takeover } ==> f@.skip(4)
            == seq![8u8] + text_on_wire(target@) + flag_on_wire(takeover),
        *msg matches ClientMessage::GraphicsTransmissionResult { transfer_id, image_id, success }
            ==> f@.skip(4) == seq![9u8] + varint(transfer_id as nat) + varint(image_id as nat)
            + flag_on_wire(success),
        *msg matches ClientMessage::GraphicsTransmissionStarted { transfer_id, image_id }
            ==> f@.skip(4) == seq![10u8] + varint(transfer_id as nat) + varint(image_id as nat),
        *msg matches ClientMessage::ClientShellEndpointRequest { boot_id, request } ==> f@.skip(4)
            == seq![15u8] + text_on_wire(boot_id@) + text_on_wire(request@),
        *msg matches ClientMessage::ClientShellFocus { focused } ==> f@.skip(4) == seq![18u8]
            + flag_on_wire(focused),
        *msg matches ClientMessage::ClientShellMouseCapture { enabled } ==> f@.skip(4)
            == seq![19u8] + flag_on_wire(enabled),
        *msg matches ClientMessage::EndpointControl { kind, data } ==> f@.skip(4) == seq![20u8]
            + text_on_wire(kind@) + text_on_wire(data@),
{
    reveal(pair_bytes);
    let payload = ClientMessage::bytes(msg.model());
    lemma_le_len(payload.len(), 4);
    assert(frame(payload).skip(4) =~= payload);
    match *msg {
        ClientMessage::ObserveTerminal { target } => {
            assert(payload =~= seq![7u8] + text_on_wire(target@));
        },
        ClientMessage::ControlTerminal { target, takeover } => {
            assert(payload =~= seq![8u8] + text_on_wire(target@) + flag_on_wire(takeover));
        },
        ClientMessage::GraphicsTransmissionResult { transfer_id, image_id, success } => {
            assert(payload =~= seq![9u8] + varint(transfer_id as nat) + varint(image_id as nat)
                + flag_on_wire(success));
        },
        ClientMessage::GraphicsTransmissionStarted { transfer_id, image_id } => {
            assert(payload =~= seq![10u8] + varint(transfer_id as nat) + varint(image_id as nat));
        },
        ClientMessage::ClientShellEndpointRequest { boot_id, request } => {
            assert(payload =~= seq![15u8] + text_on_wire(boot_id@) + text_on_wire(request@));
        },
        ClientMessage::ClientShellFocus { focused } => {
            assert(payload =~= seq![18u8] + flag_on_wire(focused));
        },
        ClientMessage::ClientShellMouseCapture { enabled } => {
            assert(payload =~= seq![19u8] + flag_on_wire(enabled));
        },
        ClientMessage::EndpointControl { kind, data } => {
            assert(payload =~= seq![20u8] + text_on_wire(kind@) + text_on_wire(data@));
        },
        _ => {},
    }
}

/// The tag decides what is read: a payload that is a message at all is the one of its tag.
pub proof fn law_the_tag_decides_what_is_read<F: Fn(&[u8]) -> String>(
    payload: &[u8],
    diagnose: F,
    m: Box<ServerMessage>,
)
    requires
        payload@.len() > 0,
        call_ensures(decode_payload::<F>, (payload, diagnose), Ok(WireFrame::Message(m))),
    ensures
        payload@[0] == 0 ==> *m is Welcome,
        payload@[0] == 1 ==> *m is Terminal,
        payload@[0] == 2 ==> *m is Graphics,
        payload@[0] == 3 ==> *m is ServerShutdown,
        payload@[0] == 4 ==> *m is Notify,
        payload@[0] == 5 ==> *m is Clipboard,
        payload@[0] == 6 ==> *m is WindowTitle,
        payload@[0] == 7 ==> *m is ReloadSoundConfig,
        payload@[0] == 8 ==> *m is MouseCapture,
        payload@[0] == 9 ==> *m is TerminalBell,
        payload@[0] == 10 ==> *m is GraphicsFile,
        payload@[0] == 11 ==> *m is GraphicsTransmissionRetired,
        payload@[0] == 15 ==> *m is ClientShellError,
        payload@[0] == 16 ==> *m is DirectTerminalKeyboardProtocol,
        payload@[0] == 17 ==> *m is ClientShellKeyboardReportAll,
        payload@[0] == 18 ==> *m is ClientShellEndpointResponseChunk,
        payload@[0] == 20 ==> *m is EndpointControl,
{
    assert(u32::parse(payload@, 0) == Some((payload@[0] as u32, 1int)));
}

} // verus!
