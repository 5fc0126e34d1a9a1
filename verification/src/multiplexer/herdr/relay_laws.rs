//! What the relay promises, stated over its calls: which bytes a client sees, which pane
//! an attach lands on, and what goes out on a connection.

use vstd::prelude::*;
use vstd::string::*;

use super::api::{ApiRequest, HerdrServerInfo, PaneInfo};
use super::codec::Wire;
use super::control::{HerdrControl, Outgoing};
use super::control_laws::{is_next_request, text_at};
use super::json::params_view;
use super::layout::{
    info_of, lemma_last_registration_wins, listed_keys, pane_in, values,
};
use super::registry::{
    is_pane, is_tab, knows_pane, pane_id_of, panes_wf, HerdrPaneRegistry, HerdrTabRegistry, PaneKey,
};
use super::query::LayoutQuery;
use super::relay::{
    after_listing, assert_welcome, attempt, discover_protocol, focused_or_first,
    focused_or_first_of, handshake, has_focus, hint, hint_ids, lands_on, listed_by,
    map_server_message, open_attach, pick_resume_pane, pick_tab_pane, received, recv_from,
    resolve_attach_target_with, resolve_focused_terminal, resume_choice, tried_first, usable,
    welcome_reply, AdoptStep, AttachSearch, AttachStep, AttachTarget, AttemptNext, Handshake,
    HerdrMuxReceiver, HerdrMuxSender, ProtocolNote, Reattach, SwapPoll, CELL_PX_DISABLED,
    CONNECT_SLACK_SECS, RECONNECT_ATTEMPTS, SWAP_GRACE_SECS, SWAP_SLACK_SECS, WIRE_TIMEOUT_SECS,
};
use super::wire::{
    frame, law_a_server_message_reads_back, ClientMessage, FramingError, ServerMessage,
    TerminalFrame, WireFrame, MAX_FRAME_SIZE,
};
use crate::multiplexer::types::{
    ActionAck, MuxMouseKind, MuxServerMsg, MuxStreamEvent, PaneRef, ResumeTarget,
};
use crate::multiplexer::DualHandle;
use crate::seqs::{
    both, first_index, last_index, lemma_first_index_meaning, lemma_first_of_filter,
    lemma_last_index_meaning, lemma_last_of_filter,
};
use crate::text::decimal;

verus! {

// ------------------------------------------------------------------ rendering

/// What a client sees of a terminal frame is its bytes and nothing else: neither its
/// number, nor its size, nor whether it is a full repaint changes a byte of it. Only
/// terminal frames are rendered; a shutdown ends the relay with the reason that herdr
/// gave; whatever else comes has no effect.
pub proof fn law_terminal_bytes_are_rendered_verbatim(msg: ServerMessage, out: MuxServerMsg)
    requires
        call_ensures(map_server_message, (msg,), out),
    ensures
        msg matches ServerMessage::Terminal(f) ==> (out matches MuxServerMsg::Render(b) && b@
            == f.bytes@),
        out is Render ==> msg is Terminal,
        msg matches ServerMessage::ServerShutdown { reason: Some(why) } ==> (
        out matches MuxServerMsg::Event(MuxStreamEvent::Exit { reason }) && reason@ == why@),
        msg matches ServerMessage::ServerShutdown { reason: None } ==> (
        out matches MuxServerMsg::Event(MuxStreamEvent::Exit { reason }) && reason@.len() == 0),
        out is Event ==> msg is ServerShutdown,
{
    if let ServerMessage::Terminal(f) = msg {
        assert(f.bytes.model() =~= f.bytes@);
    }
}

/// A frame that was read and is no message this side knows is drained; only the end of
/// the stream, or a frame that cannot be read, ends the relay.
pub proof fn law_only_a_failed_read_ends_the_relay(
    frame: Result<WireFrame, FramingError>,
    out: Option<MuxServerMsg>,
)
    requires
        call_ensures(received, (frame,), out),
    ensures
        out is None <==> frame is Err,
        frame matches Ok(WireFrame::Unknown { .. }) ==> out == Some(MuxServerMsg::Other),
        frame matches Ok(WireFrame::Message(m)) ==> (*m matches ServerMessage::Terminal(f) ==> (
        out matches Some(MuxServerMsg::Render(b)) && b@ == f.bytes@)),
{
    if let Ok(WireFrame::Message(m)) = frame {
        if let ServerMessage::Terminal(f) = *m {
            assert(f.bytes.model() =~= f.bytes@);
        }
    }
}

/// A terminal frame on the stream is rendered with its own bytes, full repaint or not,
/// and what follows it on the stream is left for the next read.
pub proof fn law_a_terminal_frame_on_the_stream_is_rendered<'a>(
    reader: &mut &'a [u8],
    f: TerminalFrame,
    rest: Seq<u8>,
    out: Option<MuxServerMsg>,
)
    requires
        ServerMessage::bytes(ServerMessage::Terminal(f).model()).len() <= MAX_FRAME_SIZE,
        (*old(reader))@ == frame(ServerMessage::bytes(ServerMessage::Terminal(f).model())) + rest,
        call_ensures(recv_from, (reader,), out),
    ensures
        out matches Some(MuxServerMsg::Render(b)) && b@ == f.bytes@,
        (*final(reader))@ == rest,
{
    law_a_server_message_reads_back(ServerMessage::Terminal(f).model(), rest);
    assert(f.bytes.model() =~= f.bytes@);
}

// ------------------------------------------------------------- choosing a pane

/// The focus decides wherever it stands in the list: if some pane has it, the chosen
/// one has it, and no later one does; only if none has it is the first one chosen.
pub proof fn law_the_focus_decides_wherever_it_is(panes: &Vec<&PaneInfo>, r: Option<&PaneInfo>)
    requires
        call_ensures(focused_or_first, (panes,), r),
    ensures
        r is None <==> panes@.len() == 0,
        forall|i: int|
            0 <= i < panes@.len() && (#[trigger] panes@[i]).focused ==> (r matches Some(p)
                && p.focused),
        (exists|i: int| 0 <= i < panes@.len() && (#[trigger] panes@[i]).focused) ==> exists|k: int|
            0 <= k < panes@.len() && r == Some(#[trigger] panes@[k]) && panes@[k].focused && forall|
                j: int,
            |
                k < j < panes@.len() ==> !(#[trigger] panes@[j]).focused,
        panes@.len() > 0 && (forall|i: int|
            0 <= i < panes@.len() ==> !(#[trigger] panes@[i]).focused) ==> r == Some(panes@[0]),
{
    let all = values(panes@);
    lemma_focus_in_list(all);
    assert forall|i: int| 0 <= i < panes@.len() implies #[trigger] all[i] == *panes@[i] by {}
    if exists|i: int| 0 <= i < panes@.len() && (#[trigger] panes@[i]).focused {
        let i = choose|i: int| 0 <= i < panes@.len() && (#[trigger] panes@[i]).focused;
        assert(all[i].focused);
        let k = choose|k: int|
            0 <= k < all.len() && focused_or_first_of(all) == Some(#[trigger] all[k])
                && all[k].focused && forall|j: int|
                k < j < all.len() ==> !(#[trigger] all[j]).focused;
        assert forall|j: int| k < j < panes@.len() implies !(#[trigger] panes@[j]).focused by {
            assert(!all[j].focused);
        }
        assert(r == Some(panes@[k]));
    }
}

/// The focus in a list: the last pane that has it, else the first pane.
proof fn lemma_focus_in_list(panes: Seq<PaneInfo>)
    ensures
        focused_or_first_of(panes) is None <==> panes.len() == 0,
        (exists|i: int| 0 <= i < panes.len() && (#[trigger] panes[i]).focused) ==> exists|k: int|
            0 <= k < panes.len() && focused_or_first_of(panes) == Some(#[trigger] panes[k])
                && panes[k].focused && forall|j: int|
                k < j < panes.len() ==> !(#[trigger] panes[j]).focused,
        (forall|i: int| 0 <= i < panes.len() ==> !(#[trigger] panes[i]).focused) && panes.len() > 0
            ==> focused_or_first_of(panes) == Some(panes[0]),
{
    let q = has_focus();
    lemma_last_index_meaning(panes, q);
    let k = last_index(panes, q);
    if exists|i: int| 0 <= i < panes.len() && (#[trigger] panes[i]).focused {
        let i = choose|i: int| 0 <= i < panes.len() && (#[trigger] panes[i]).focused;
        assert(q(panes[i]));
        assert(k >= 0);
        assert forall|j: int| k < j < panes.len() implies !(#[trigger] panes[j]).focused by {
            assert(!q(panes[j]));
        }
        assert(focused_or_first_of(panes) == Some(panes[k]) && panes[k].focused);
    } else if k >= 0 {
        assert(panes[k].focused);
    }
}

/// Whether the pane at `k` is where the focus leads among the panes of `tab`, or of the
/// whole list: the last one with the focus, or the first one where none has it.
pub open spec fn leads(panes: Seq<PaneInfo>, tab: Option<Seq<char>>, k: int) -> bool {
    &&& 0 <= k < panes.len()
    &&& tab matches Some(t) ==> panes[k].tab_id@ == t
    &&& panes[k].focused ==> forall|j: int|
        k < j < panes.len() && (tab matches Some(t) ==> (#[trigger] panes[j]).tab_id@ == t)
            ==> !panes[j].focused
    &&& !panes[k].focused ==> forall|j: int|
        0 <= j < panes.len() && (tab matches Some(t) ==> (#[trigger] panes[j]).tab_id@ == t)
            ==> !panes[j].focused && k <= j
}

proof fn lemma_focus_in_tab(panes: Seq<PaneInfo>, tab: Seq<char>)
    ensures
        ({
            let choice = focused_or_first_of(panes.filter(pane_in(tab)));
            &&& choice is None <==> forall|i: int|
                0 <= i < panes.len() ==> (#[trigger] panes[i]).tab_id@ != tab
            &&& choice matches Some(p) ==> exists|k: int|
                #[trigger] leads(panes, Some(tab), k) && panes[k] == p
        }),
{
    let p = pane_in(tab);
    let q = has_focus();
    let pq = both(p, q);
    lemma_last_of_filter(panes, p, q);
    lemma_first_of_filter(panes, p);
    lemma_last_index_meaning(panes, pq);
    lemma_first_index_meaning(panes, p);
    let choice = focused_or_first_of(panes.filter(p));
    let last = last_index(panes, pq);
    let first = first_index(panes, p);
    if last >= 0 {
        assert(p(panes[last]) && q(panes[last]));
        assert forall|j: int| last < j < panes.len() && (#[trigger] panes[j]).tab_id@
            == tab implies !panes[j].focused by {
            assert(!pq(panes[j]));
        }
        assert(leads(panes, Some(tab), last));
    } else if first < panes.len() {
        assert(p(panes[first]));
        assert forall|j: int| 0 <= j < panes.len() && (#[trigger] panes[j]).tab_id@
            == tab implies !panes[j].focused && first <= j by {
            assert(!pq(panes[j]));
            assert(p(panes[j]));
        }
        assert(leads(panes, Some(tab), first));
    } else {
        assert forall|i: int| 0 <= i < panes.len() implies (#[trigger] panes[i]).tab_id@ != tab by {
            assert(!p(panes[i]));
        }
    }
}

/// A pane that was listed has an id afterwards, as long as the ids last.
proof fn lemma_listed_panes_have_ids(reg: Seq<PaneKey>, panes: Seq<PaneInfo>, k: int)
    requires
        panes_wf(reg),
        reg.len() + panes.len() <= u32::MAX,
        0 <= k < panes.len(),
    ensures
        knows_pane(after_listing(reg, panes), panes[k].pane_id@),
{
    let keys = listed_keys(panes);
    assert(is_pane(panes[k].pane_id@)(keys[k]));
    lemma_last_registration_wins(reg, keys, panes[k].pane_id@);
}

/// An id that a registry holds for a pane is that of its entry.
proof fn lemma_held_id(reg: Seq<PaneKey>, pane: Seq<char>)
    ensures
        pane_id_of(reg, pane) > 0 <==> knows_pane(reg, pane),
        pane_id_of(reg, pane) > 0 ==> pane_id_of(reg, pane) <= reg.len() && reg[pane_id_of(
            reg,
            pane,
        ) - 1].pane_id == pane,
{
    lemma_first_index_meaning(reg, is_pane(pane));
}

/// An attach without hints lands on a focused pane of the workspace if there is one, and
/// on the first pane if there is none, and where several have it on the last: it gets the attach key of that very pane, and an
/// id that the registry holds for it. It fails only in a workspace without panes.
pub proof fn law_a_plain_attach_follows_the_focus(
    panes: &Vec<PaneInfo>,
    reg: &mut HerdrPaneRegistry,
    workspace_id: &str,
    r: Result<(u32, String), String>,
)
    requires
        panes_wf(old(reg)@),
        old(reg)@.len() + panes@.len() <= u32::MAX,
        call_ensures(resolve_focused_terminal, (panes, reg, workspace_id), r),
    ensures
        r is Ok <==> panes@.len() > 0,
        r matches Ok(c) ==> exists|k: int|
            0 <= k < panes@.len() && c.1@ == (#[trigger] panes@[k]).terminal_id@ && 1 <= c.0
                <= final(reg)@.len() && final(reg)@[c.0 - 1].pane_id == panes@[k].pane_id@ && leads(
                panes@,
                None,
                k,
            ),
        r matches Err(t) ==> t@ == "herdr workspace '"@ + workspace_id@
            + "' has no panes to attach"@,
{
    lemma_focus_in_list(panes@);
    if panes@.len() > 0 {
        let after = final(reg)@;
        let k = if exists|i: int| 0 <= i < panes@.len() && (#[trigger] panes@[i]).focused {
            choose|k: int|
                0 <= k < panes@.len() && focused_or_first_of(panes@) == Some(#[trigger] panes@[k])
                    && panes@[k].focused && forall|j: int|
                    k < j < panes@.len() ==> !(#[trigger] panes@[j]).focused
        } else {
            0
        };
        assert(focused_or_first_of(panes@) == Some(panes@[k]));
        lemma_listed_panes_have_ids(old(reg)@, panes@, k);
        lemma_held_id(after, panes@[k].pane_id@);
        assert(r->Ok_0.1@ == panes@[k].terminal_id@);
    }
}

/// A switch to a tab lands on a pane of that tab: a focused one if the tab has one, else
/// the first of the tab. It gets the attach key of that very pane, and an id that the
/// registry holds for it. It fails only for a tab without panes.
pub proof fn law_a_tab_switch_follows_the_focus_in_the_tab(
    panes: &Vec<PaneInfo>,
    reg: &mut HerdrPaneRegistry,
    workspace_id: &str,
    tab: &str,
    r: Result<(u32, String), String>,
)
    requires
        panes_wf(old(reg)@),
        old(reg)@.len() + panes@.len() <= u32::MAX,
        call_ensures(pick_tab_pane, (panes, reg, workspace_id, tab), r),
    ensures
        r is Ok <==> exists|j: int| 0 <= j < panes@.len() && (#[trigger] panes@[j]).tab_id@ == tab@,
        r matches Ok(c) ==> exists|k: int|
            0 <= k < panes@.len() && c.1@ == (#[trigger] panes@[k]).terminal_id@ && 1 <= c.0
                <= final(reg)@.len() && final(reg)@[c.0 - 1].pane_id == panes@[k].pane_id@
                && leads(panes@, Some(tab@), k),
        r matches Err(t) ==> t@ == "herdr tab '"@ + tab@ + "' (ws '"@ + workspace_id@
            + "') has no panes to attach"@,
{
    lemma_focus_in_tab(panes@, tab@);
    let choice = focused_or_first_of(panes@.filter(pane_in(tab@)));
    if let Some(p) = choice {
        let k = choose|k: int| #[trigger] leads(panes@, Some(tab@), k) && panes@[k] == p;
        lemma_listed_panes_have_ids(old(reg)@, panes@, k);
        lemma_held_id(final(reg)@, panes@[k].pane_id@);
        assert(r->Ok_0.1@ == panes@[k].terminal_id@);
        assert(panes@[k].tab_id@ == tab@);
    }
}

/// Whether a listed pane has this id.
pub open spec fn lists_pane(panes: Seq<PaneInfo>, pane: Seq<char>) -> bool {
    exists|j: int| 0 <= j < panes.len() && (#[trigger] panes[j]).pane_id@ == pane
}

/// Whether a listed pane is in this tab.
pub open spec fn lists_tab(panes: Seq<PaneInfo>, tab: Seq<char>) -> bool {
    exists|j: int| 0 <= j < panes.len() && (#[trigger] panes[j]).tab_id@ == tab
}

/// Hints are followed as far as they hold: the hinted pane if it is still listed; else a
/// pane of the hinted tab, with the focus if one of that tab has it; else a pane of the
/// workspace, with the focus if one has it. A hint that is stale is as good as none.
pub proof fn law_hints_are_followed_as_far_as_they_hold(
    panes: Seq<PaneInfo>,
    hint_pane: Option<Seq<char>>,
    hint_tab: Option<Seq<char>>,
)
    requires
        panes.len() > 0,
    ensures
        ({
            let by_pane = hint_pane matches Some(p) && lists_pane(panes, p);
            let by_tab = hint_tab matches Some(t) && lists_tab(panes, t);
            let scope = if by_tab {
                hint_tab
            } else {
                None
            };
            exists|k: int|
                0 <= k < panes.len() && resume_choice(panes, hint_pane, hint_tab) == Some(
                    #[trigger] panes[k],
                ) && (by_pane ==> Some(panes[k].pane_id@) == hint_pane) && (!by_pane ==> leads(
                    panes,
                    scope,
                    k,
                ))
        }),
{
    lemma_focus_in_list(panes);
    let choice = resume_choice(panes, hint_pane, hint_tab);
    if let Some(p) = hint_pane {
        lemma_first_index_meaning(panes, info_of(p));
        let k = first_index(panes, info_of(p));
        if lists_pane(panes, p) {
            let j = choose|j: int| 0 <= j < panes.len() && (#[trigger] panes[j]).pane_id@ == p;
            assert(info_of(p)(panes[j]));
            assert(choice == Some(panes[k]));
        } else if k < panes.len() {
            assert(panes[k].pane_id@ == p);
        }
    }
    if let Some(t) = hint_tab {
        lemma_focus_in_tab(panes, t);
    }
    let by_pane = hint_pane matches Some(p) && lists_pane(panes, p);
    let by_tab = hint_tab matches Some(t) && lists_tab(panes, t);
    if !by_pane && by_tab {
        let t = hint_tab->0;
        let j = choose|j: int| 0 <= j < panes.len() && (#[trigger] panes[j]).tab_id@ == t;
        let c = focused_or_first_of(panes.filter(pane_in(t)))->0;
        assert(choice == Some(c));
        let k = choose|k: int| #[trigger] leads(panes, Some(t), k) && panes[k] == c;
        assert(choice == Some(panes[k]));
    } else if !by_pane {
        if let Some(t) = hint_tab {
            assert forall|i: int| 0 <= i < panes.len() implies (#[trigger] panes[i]).tab_id@
                != t by {}
        }
        assert(choice == focused_or_first_of(panes));
        if exists|i: int| 0 <= i < panes.len() && (#[trigger] panes[i]).focused {
            let k = choose|k: int|
                0 <= k < panes.len() && focused_or_first_of(panes) == Some(#[trigger] panes[k])
                    && panes[k].focused && forall|j: int|
                    k < j < panes.len() ==> !(#[trigger] panes[j]).focused;
            assert(leads(panes, None, k));
        } else {
            assert(leads(panes, None, 0));
        }
    }
}

/// A resumed attach reports the pane that it lands on by that pane's own attach key, by
/// the workspace that was asked for, and by ids that the registries hold for the pane and
/// for its tab.
pub proof fn law_a_landing_is_reported_as_it_is(
    t: AttachTarget,
    ws: Seq<char>,
    pane: PaneInfo,
    pane_reg: Seq<PaneKey>,
    tab_reg: Seq<Seq<char>>,
)
    requires
        lands_on(t, ws, pane, pane_reg, tab_reg),
    ensures
        t.workspace_id@ == ws,
        t.terminal_id@ == pane.terminal_id@,
        t.pane_id > 0 ==> t.pane_id <= pane_reg.len() && pane_reg[t.pane_id - 1].pane_id
            == pane.pane_id@,
        t.tab_id > 0 ==> t.tab_id <= tab_reg.len() && tab_reg[t.tab_id - 1] == pane.tab_id@,
{
    lemma_held_id(pane_reg, pane.pane_id@);
    lemma_first_index_meaning(tab_reg, is_tab(pane.tab_id@));
}

/// A resume within a workspace succeeds wherever there is a pane, and then every hint
/// that holds has been followed.
pub proof fn law_a_resume_lands_where_the_hints_lead(
    panes: &Vec<PaneInfo>,
    pane_reg: &mut HerdrPaneRegistry,
    tab_reg: &mut HerdrTabRegistry,
    workspace_id: &str,
    hint_pane: Option<&str>,
    hint_tab: Option<&str>,
    r: Result<AttachTarget, String>,
)
    requires
        call_ensures(
            pick_resume_pane,
            (panes, pane_reg, tab_reg, workspace_id, hint_pane, hint_tab),
            r,
        ),
    ensures
        r is Ok <==> panes@.len() > 0,
        r matches Ok(t) ==> t.workspace_id@ == workspace_id@ && exists|k: int|
            0 <= k < panes@.len() && t.terminal_id@ == (#[trigger] panes@[k]).terminal_id@ && (
            hint_pane matches Some(p) ==> lists_pane(panes@, p@) ==> panes@[k].pane_id@ == p@) && (
            !(hint_pane matches Some(p) && lists_pane(panes@, p@)) ==> leads(
                panes@,
                if hint_tab matches Some(tab) && lists_tab(panes@, tab@) {
                    hint(hint_tab)
                } else {
                    None
                },
                k,
            )),
{
    if panes@.len() > 0 {
        law_hints_are_followed_as_far_as_they_hold(panes@, hint(hint_pane), hint(hint_tab));
        let choice = resume_choice(panes@, hint(hint_pane), hint(hint_tab));
        let k = choose|k: int|
            0 <= k < panes@.len() && choice == Some(#[trigger] panes@[k]) && ((
            hint_pane matches Some(p) && lists_pane(panes@, p@)) ==> Some(panes@[k].pane_id@)
                == hint(hint_pane)) && (!(hint_pane matches Some(p) && lists_pane(panes@, p@))
                ==> leads(
                panes@,
                if hint_tab matches Some(tab) && lists_tab(panes@, tab@) {
                    hint(hint_tab)
                } else {
                    None
                },
                k,
            ));
        assert(r->Ok_0.terminal_id@ == panes@[k].terminal_id@);
    }
}

/// A search asks for the hinted workspace first, and for the default one without a hint.
pub proof fn law_a_search_asks_for_the_hinted_workspace_first(
    default_workspace: &str,
    hint_space: Option<&str>,
    hint_pane: Option<&str>,
    hint_tab: Option<&str>,
    search: AttachSearch,
    ws: &str,
)
    requires
        call_ensures(
            AttachSearch::begin,
            (default_workspace, hint_space, hint_pane, hint_tab),
            search,
        ),
        call_ensures(AttachSearch::workspace, (&search,), ws),
    ensures
        hint_space matches Some(space) ==> ws@ == space@,
        hint_space is None ==> ws@ == default_workspace@,
{
}

/// A pane list with a pane in it ends the search there. An unusable list of the hinted
/// workspace leads to the default one and leaves the registries alone; an unusable list
/// of the default one fails the attach.
pub proof fn law_an_unusable_hint_leads_to_the_default_workspace(
    search: AttachSearch,
    list: Result<Vec<PaneInfo>, String>,
    pane_reg: &mut HerdrPaneRegistry,
    tab_reg: &mut HerdrTabRegistry,
    step: AttachStep,
)
    requires
        call_ensures(AttachSearch::listed, (search, list, pane_reg, tab_reg), step),
    ensures
        (list matches Ok(panes) && panes@.len() > 0) ==> (step matches AttachStep::Finished(Ok(t))
            && t.workspace_id@ == (match search@.hinted {
            Some(space) => space,
            None => search@.default,
        })),
        !(list matches Ok(panes) && panes@.len() > 0) && search@.hinted is Some ==> (
        step matches AttachStep::Ask(next) && next@.hinted is None && next@.default
            == search@.default && next@.hint_pane == search@.hint_pane && next@.hint_tab
            == search@.hint_tab) && final(pane_reg)@ == old(pane_reg)@ && final(tab_reg)@ == old(tab_reg)@,
        !(list matches Ok(panes) && panes@.len() > 0) && search@.hinted is None ==> (
        step matches AttachStep::Finished(Err(why)) && (list matches Err(e) ==> why@ == e@)),
{
}

// ----------------------------------------------------------------- connections

/// The version that is sent is the one that the server reported, whatever it is; the
/// note on it goes by whether it is the one this layout is known for.
pub proof fn law_the_servers_own_version_is_sent(info: &HerdrServerInfo, r: (u32, ProtocolNote))
    requires
        call_ensures(discover_protocol, (info,), r),
    ensures
        r.0 == info.protocol,
        r.1 is Older <==> info.protocol < 22,
        r.1 is Newer <==> info.protocol > 22,
{
}

/// A handshake opens at the client's size, rows as rows and columns as columns, without
/// graphics, and takes over the terminal that was asked for.
pub proof fn law_a_handshake_opens_at_the_clients_size(
    rows: u16,
    cols: u16,
    terminal_id: &str,
    protocol: u32,
    h: Handshake,
)
    requires
        call_ensures(handshake, (rows, cols, terminal_id, protocol), h),
    ensures
        h.hello matches ClientMessage::TerminalHello {
            version,
            cols: c,
            rows: r,
            cell_width_px,
            cell_height_px,
            pixel_mouse,
        } && version == protocol && c == cols && r == rows && cell_width_px == 0 && cell_height_px
            == 0 && !pixel_mouse,
        h.attach matches ClientMessage::AttachTerminal { terminal_id: t, takeover } && t@
            == terminal_id@ && takeover,
{
}

/// A welcome without an error is accepted, whatever version is in it; one with an error
/// is refused with that error at the end of the text; and so is any other message.
pub proof fn law_a_welcome_is_refused_only_for_its_error(
    msg: &ServerMessage,
    r: Result<bool, String>,
)
    requires
        call_ensures(assert_welcome, (msg,), r),
    ensures
        r is Ok <==> (*msg matches ServerMessage::Welcome { error, .. } && error is None),
        r matches Ok(expected) ==> (*msg matches ServerMessage::Welcome { encoding, .. } && expected
            == (encoding is TerminalAnsi)),
        *msg matches ServerMessage::Welcome { error: Some(e), .. } ==> (r matches Err(t)
            && t@ == "herdr rejected the handshake: "@ + e@),
{
}

/// The answer to a hello is taken as a welcome only if it is a message at all.
pub proof fn law_only_a_message_can_welcome(
    frame: &Result<WireFrame, FramingError>,
    r: Result<bool, String>,
)
    requires
        call_ensures(welcome_reply, (frame,), r),
    ensures
        r is Ok ==> (*frame matches Ok(WireFrame::Message(m)) && (
        *m matches ServerMessage::Welcome { error, .. } && error is None)),
        *frame matches Ok(WireFrame::Unknown { tag, .. }) ==> (r matches Err(t) && t@
            == "herdr handshake: expected Welcome, got an unknown frame (tag "@ + decimal(
            tag as nat,
        ) + ") — the server's wire layout is not one muxrd can interpret"@),
        *frame matches Ok(WireFrame::Message(m)) ==> !(*m is Welcome) ==> (r matches Err(t) && t@
            == "herdr handshake: expected Welcome, got a different message first"@),
        (*frame matches Ok(WireFrame::Message(m)) && (
        *m matches ServerMessage::Welcome { error, .. } && error is None)) ==> r is Ok,
{
}

/// An attach shows the pane that was resolved, at the client's size. The resolved view is
/// reported to a client that gave a hint, and only to such a client.
pub proof fn law_an_attach_is_put_together_from_its_target(
    target: AttachTarget,
    protocol: u32,
    session_name: String,
    rows: u16,
    cols: u16,
    resume: &ResumeTarget,
    h: DualHandle<HerdrMuxSender, HerdrMuxReceiver>,
)
    requires
        call_ensures(open_attach, (target, protocol, session_name, rows, cols, resume), h),
    ensures
        h.sender.workspace_id@ == target.workspace_id@,
        h.sender.current_terminal_id@ == target.terminal_id@,
        h.sender.rows == rows,
        h.sender.cols == cols,
        h.sender.protocol == protocol,
        !h.sender.swap_pending,
        h.receiver.grace_secs == 21,
        h.session_name@ == session_name@,
        h.resumed_view is Some <==> resume.space_id is Some || resume.tab_id is Some
            || resume.pane_id is Some,
        h.resumed_view matches Some(v) ==> v.space_id@ == target.workspace_id@ && v.tab_id
            == target.tab_id && v.pane.id == target.pane_id && !v.pane.is_plugin,
{
}

/// A swap says goodbye on the old connection and is under way from then on; nothing else
/// about the attach changes yet.
pub proof fn law_a_swap_begins_with_a_goodbye(
    sender: &mut HerdrMuxSender,
    terminal_id: String,
    r: (Reattach, ClientMessage),
)
    requires
        call_ensures(HerdrMuxSender::begin_reattach, (sender, terminal_id), r),
    ensures
        r.1 is Detach,
        r.0.terminal_id@ == terminal_id@,
        r.0.failed == 0,
        final(sender).swap_pending,
        final(sender).current_terminal_id@ == old(sender).current_terminal_id@,
        final(sender).workspace_id@ == old(sender).workspace_id@,
        final(sender).rows == old(sender).rows,
        final(sender).cols == old(sender).cols,
        final(sender).protocol == old(sender).protocol,
{
}

/// Each attempt of a swap opens the new terminal at the client's size, with the version
/// that the server reports now, or with the last one where it reports none.
pub proof fn law_an_attempt_opens_the_new_terminal(
    sender: &mut HerdrMuxSender,
    swap: &Reattach,
    discovered: Option<u32>,
    h: Handshake,
)
    requires
        call_ensures(HerdrMuxSender::next_attempt, (sender, swap, discovered), h),
    ensures
        h.attach matches ClientMessage::AttachTerminal { terminal_id: t, takeover } && t@
            == swap.terminal_id@ && takeover,
        h.hello matches ClientMessage::TerminalHello { version, cols, rows, .. } && cols == old(sender).cols && rows == old(sender).rows && version == (match discovered {
            Some(p) => p,
            None => old(sender).protocol,
        }) && final(sender).protocol == version,
        final(sender).current_terminal_id@ == old(sender).current_terminal_id@,
        final(sender).swap_pending == old(sender).swap_pending,
{
}

/// An attempt that works moves the attach to the new terminal and is handed over. One
/// that fails leaves the attach where it was: the first failure is followed by another
/// attempt, the second by the end of the swap with the reason of that failure.
pub proof fn law_a_swap_has_two_attempts(
    sender: &mut HerdrMuxSender,
    swap: &mut Reattach,
    outcome: Result<(), String>,
    next: AttemptNext,
)
    requires
        old(swap).failed < 2,
        call_ensures(HerdrMuxSender::attempt_done, (sender, swap, outcome), next),
    ensures
        outcome is Ok ==> next is HandOver && final(sender).current_terminal_id@ == old(swap).terminal_id@ && final(swap).failed == old(swap).failed,
        outcome is Err ==> final(sender).current_terminal_id@ == old(sender).current_terminal_id@
            && final(swap).failed == old(swap).failed + 1,
        outcome is Err && old(swap).failed == 0 ==> next is TryAgain && final(sender).swap_pending
            == old(sender).swap_pending,
        outcome matches Err(e) ==> old(swap).failed == 1 ==> (next matches AttemptNext::GiveUp(why)
            && why@ == e@) && !final(sender).swap_pending,
        final(swap).terminal_id@ == old(swap).terminal_id@,
        final(sender).workspace_id@ == old(sender).workspace_id@,
        final(sender).rows == old(sender).rows,
        final(sender).cols == old(sender).cols,
        final(sender).protocol == old(sender).protocol,
{
}

/// A space becomes the current one only by a swap that worked.
pub proof fn law_a_space_is_current_only_after_a_swap_that_worked(
    sender: &mut HerdrMuxSender,
    space_id: &str,
    swapped: &Result<(), String>,
)
    requires
        call_ensures(HerdrMuxSender::switch_space, (sender, space_id, swapped), ()),
    ensures
        final(sender).workspace_id@ == if swapped is Ok {
            space_id@
        } else {
            old(sender).workspace_id@
        },
        final(sender).current_terminal_id@ == old(sender).current_terminal_id@,
        final(sender).rows == old(sender).rows,
        final(sender).cols == old(sender).cols,
{
}

/// The pane that gets the focus is shown by its own attach key, and a tab is moved to by
/// its own name; an id that was never handed out is refused, and named in the refusal.
pub proof fn law_a_move_goes_by_the_registered_name(
    sender: &HerdrMuxSender,
    panes: &HerdrPaneRegistry,
    pane: PaneRef,
    shown: Result<String, String>,
    tabs: &HerdrTabRegistry,
    tab_id: u64,
    moved: Result<String, String>,
)
    requires
        call_ensures(HerdrMuxSender::focus_pane, (sender, panes, pane), shown),
        call_ensures(HerdrMuxSender::go_to_tab, (sender, tabs, tab_id), moved),
    ensures
        1 <= pane.id <= panes@.len() ==> (shown matches Ok(t) && t@ == panes@[pane.id
            - 1].terminal_id),
        !(1 <= pane.id <= panes@.len()) ==> (shown matches Err(t) && t@
            == "herdr focus_pane: unknown pane id "@ + decimal(pane.id as nat)),
        1 <= tab_id <= tabs@.len() ==> (moved matches Ok(t) && t@ == tabs@[tab_id - 1]),
        !(1 <= tab_id <= tabs@.len()) ==> (moved matches Err(t) && t@
            == "herdr go_to_tab: unknown tab id "@ + decimal(tab_id as nat)),
{
}

/// Hints that a client gives by number mean what the registries hold under that number,
/// and nothing where they hold nothing.
pub proof fn law_a_numeric_hint_means_what_is_registered(
    pane_reg: &HerdrPaneRegistry,
    tab_reg: &HerdrTabRegistry,
    resume: &ResumeTarget,
    r: (Option<String>, Option<String>),
)
    requires
        call_ensures(hint_ids, (pane_reg, tab_reg, resume), r),
    ensures
        r.0 matches Some(p) ==> (resume.pane_id matches Some(id) && 1 <= id <= pane_reg@.len() && p@
            == pane_reg@[id - 1].pane_id),
        resume.pane_id matches Some(id) ==> 1 <= id <= pane_reg@.len() ==> r.0 is Some,
        r.1 matches Some(t) ==> (resume.tab_id matches Some(id) && 1 <= id <= tab_reg@.len() && t@
            == tab_reg@[id - 1]),
        resume.tab_id matches Some(id) ==> 1 <= id <= tab_reg@.len() ==> r.1 is Some,
{
}

/// What a client types goes to the pane byte for byte.
pub proof fn law_input_goes_out_as_it_is(
    sender: &HerdrMuxSender,
    text: &str,
    typed: ClientMessage,
    bytes: Vec<u8>,
    raw: ClientMessage,
)
    requires
        call_ensures(HerdrMuxSender::send_input_chars, (sender, text), typed),
        call_ensures(HerdrMuxSender::send_input_bytes, (sender, bytes), raw),
    ensures
        typed matches ClientMessage::Input { data } && data@ == vstd::utf8::encode_utf8(text@),
        raw matches ClientMessage::Input { data } && data@ == bytes@,
{
}

/// A turn of the wheel scrolls one line, up for up and down for down, at the cell under
/// the pointer.
pub proof fn law_the_wheel_scrolls_one_line_its_way(
    sender: &HerdrMuxSender,
    kind: MuxMouseKind,
    col: u16,
    row: u16,
    m: ClientMessage,
)
    requires
        call_ensures(HerdrMuxSender::send_mouse, (sender, kind, col, row), m),
    ensures
        m matches ClientMessage::AttachScroll {
            source,
            direction,
            lines,
            column,
            row: r,
            modifiers,
        } && source is Wheel && (direction is Up <==> kind is WheelUp) && lines == 1 && column
            == Some(col) && r == Some(row) && modifiers == 0,
{
}

/// A new size goes out as it is and is the one that the next connection opens at.
pub proof fn law_a_new_size_is_sent_and_kept(
    sender: &mut HerdrMuxSender,
    rows: u16,
    cols: u16,
    m: ClientMessage,
)
    requires
        call_ensures(HerdrMuxSender::send_resize, (sender, rows, cols), m),
    ensures
        m matches ClientMessage::Resize {
            cols: c,
            rows: r,
            cell_width_px,
            cell_height_px,
            pixel_mouse,
        } && c == cols && r == rows && cell_width_px == 0 && cell_height_px == 0 && !pixel_mouse,
        final(sender).rows == rows,
        final(sender).cols == cols,
        final(sender).workspace_id@ == old(sender).workspace_id@,
        final(sender).current_terminal_id@ == old(sender).current_terminal_id@,
        final(sender).swap_pending == old(sender).swap_pending,
        final(sender).protocol == old(sender).protocol,
{
}

/// At the end of its stream the reader goes on with a connection that has come, waits
/// only while a swap is under way, and ends in every other case; after the wait it does
/// not wait again.
pub proof fn law_the_reader_waits_only_for_a_swap(
    receiver: &HerdrMuxReceiver,
    polled: SwapPoll,
    swap_pending: bool,
    step: AdoptStep,
    waited: SwapPoll,
    last: AdoptStep,
)
    requires
        call_ensures(HerdrMuxReceiver::try_adopt_swap, (receiver, polled, swap_pending), step),
        call_ensures(HerdrMuxReceiver::try_adopt_swap_within, (receiver, waited), last),
    ensures
        step is Adopt <==> polled is Connection,
        step is Wait <==> polled is Empty && swap_pending,
        step is EndFailed <==> polled is Failed,
        step !is EndTimedOut,
        last is Adopt <==> waited is Connection,
        last is EndFailed <==> waited is Failed,
        last is EndTimedOut <==> waited is Empty,
        last !is Wait,
{
}

// ------------------------------------------------------------------- the sender

/// A new connection that reached the reader is a swap done; one that did not is a failure
/// that says so. Either way no swap is under way any more, and the sender is otherwise as
/// it was.
pub proof fn law_a_handover_succeeds_exactly_if_it_was_delivered(
    sender: &mut HerdrMuxSender,
    delivered: bool,
    r: Result<(), String>,
)
    requires
        call_ensures(HerdrMuxSender::handed_over, (sender, delivered), r),
    ensures
        r is Ok <==> delivered,
        !final(sender).swap_pending,
        final(sender).workspace_id@ == old(sender).workspace_id@,
        final(sender).current_terminal_id@ == old(sender).current_terminal_id@,
        final(sender).rows == old(sender).rows,
        final(sender).cols == old(sender).cols,
        final(sender).protocol == old(sender).protocol,
        r matches Err(t) ==> t@
            == "herdr reattach: relay reader gone, cannot adopt new connection"@,
{
}

/// The layout that a sender asks for is the one of the workspace it shows, by a snapshot of
/// everything; it can always be asked for.
pub proof fn law_a_sender_asks_for_the_layout_it_shows(
    sender: &HerdrMuxSender,
    control: &mut HerdrControl,
    r: (LayoutQuery, ApiRequest),
    can: bool,
)
    requires
        call_ensures(HerdrMuxSender::query_layout_result, (sender, control), r),
        call_ensures(HerdrMuxSender::has_sync_layout, (sender,), can),
    ensures
        can,
        r.0.workspace_id@ == sender.workspace_id@,
        r.0.phase is Snapshot,
        r.1.method@ == "session.snapshot"@,
        r.1.params@.len() == 0,
        is_next_request(r.1, *old(control), *final(control)),
{
    assert(params_view(r.1.params@).len() == r.1.params@.len());
}

/// A registered pane is zoomed in and out by herdr's own id; one that is not registered is
/// never asked for. What came of it is told only where the exchange itself failed.
pub proof fn law_fullscreen_is_toggled_by_the_registered_id(
    sender: &HerdrMuxSender,
    control: &mut HerdrControl,
    pane: PaneRef,
    r: Outgoing,
    ack: Result<ActionAck, String>,
    told: Result<(), String>,
)
    requires
        call_ensures(HerdrMuxSender::toggle_fullscreen, (sender, control, pane), r),
        call_ensures(HerdrMuxSender::fullscreen_toggled, (sender, ack), told),
    ensures
        1 <= pane.id <= old(control).panes()@.len() ==> (r matches Outgoing::Send(q) && q.method@
            == "pane.zoom"@ && q.params@.len() == 2 && text_at(
            q,
            0,
            "pane_id"@,
            old(control).panes()@[pane.id - 1].pane_id,
        ) && text_at(q, 1, "mode"@, "toggle"@)),
        !(1 <= pane.id <= old(control).panes()@.len()) ==> (r matches Outgoing::Answered(a) && !a.ok
            && (a.error matches Some(t) && t@ == "unknown herdr pane id "@ + decimal(
            pane.id as nat,
        ))) && *final(control) == *old(control),
        told is Ok <==> ack is Ok,
        ack matches Err(why) ==> (told matches Err(t) && t@ == why@),
{
    if let Outgoing::Send(q) = r {
        let all = params_view(q.params@);
        assert(all.len() == q.params@.len());
        assert forall|k: int| 0 <= k < all.len() implies all[k] == (
            (#[trigger] q.params@[k]).0@,
            q.params@[k].1@,
        ) by {}
    }
}

/// A client that leaves says goodbye.
pub proof fn law_a_leaving_client_says_goodbye(sender: &HerdrMuxSender, m: ClientMessage)
    requires
        call_ensures(HerdrMuxSender::send_client_exited, (sender,), m),
    ensures
        m is Detach,
{
}

/// Whether `list_panes` gave these panes for workspace `ws`.
pub open spec fn told_panes<F: Fn(&str) -> Result<Vec<PaneInfo>, String>>(
    list_panes: F,
    ws: Seq<char>,
    panes: Vec<PaneInfo>,
) -> bool {
    exists|name: &str| name@ == ws && #[trigger] call_ensures(list_panes, (name,), Ok(panes))
}

/// An attempt in a workspace lands on one of the panes that were listed for it, and fails
/// only where there is none.
proof fn lemma_attempt<F: Fn(&str) -> Result<Vec<PaneInfo>, String>>(
    list_panes: F,
    r: Result<AttachTarget, String>,
    ws: Seq<char>,
    list: Result<Vec<PaneInfo>, String>,
    hint_pane: Option<Seq<char>>,
    hint_tab: Option<Seq<char>>,
    before: (Seq<PaneKey>, Seq<Seq<char>>),
    after: (Seq<PaneKey>, Seq<Seq<char>>),
)
    requires
        listed_by(list_panes, ws, list),
        attempt(r, ws, list, hint_pane, hint_tab, before, after),
    ensures
        r matches Ok(t) ==> t.workspace_id@ == ws && exists|panes: Vec<PaneInfo>, k: int|
            #![trigger told_panes(list_panes, t.workspace_id@, panes), panes@[k]]
            told_panes(list_panes, t.workspace_id@, panes) && 0 <= k < panes@.len()
                && t.terminal_id@ == panes@[k].terminal_id@,
        r is Err ==> exists|name: &str, list: Result<Vec<PaneInfo>, String>|
            name@ == ws && #[trigger] call_ensures(list_panes, (name,), list) && (list matches Ok(
                panes,
            ) ==> panes@.len() == 0),
{
    let name = choose|name: &str| name@ == ws && #[trigger] call_ensures(list_panes, (name,), list);
    if let Ok(panes) = list {
        assert(told_panes(list_panes, ws, panes));
        if panes@.len() > 0 {
            law_hints_are_followed_as_far_as_they_hold(panes@, hint_pane, hint_tab);
            let choice = resume_choice(panes@, hint_pane, hint_tab);
            let k = choose|k: int| 0 <= k < panes@.len() && choice == Some(#[trigger] panes@[k]);
            assert(r->Ok_0.terminal_id@ == panes@[k].terminal_id@);
        }
    }
}

/// An attach lands in the hinted workspace or in the default one, on a pane that was listed
/// for it, with the attach key of that pane; without a hint it is the default one. It fails
/// only if the default workspace was listed without a pane or could not be listed.
pub proof fn law_an_attach_lands_on_a_listed_pane<F: Fn(&str) -> Result<Vec<PaneInfo>, String>>(
    list_panes: F,
    pane_reg: &mut HerdrPaneRegistry,
    tab_reg: &mut HerdrTabRegistry,
    default: &str,
    hint_space: Option<&str>,
    hint_pane: Option<&str>,
    hint_tab: Option<&str>,
    r: Result<AttachTarget, String>,
)
    requires
        call_ensures(
            resolve_attach_target_with::<F>,
            (list_panes, pane_reg, tab_reg, default, hint_space, hint_pane, hint_tab),
            r,
        ),
    ensures
        r matches Ok(t) ==> (t.workspace_id@ == default@ || (hint_space matches Some(s)
            && t.workspace_id@ == s@)) && exists|panes: Vec<PaneInfo>, k: int|
            #![trigger told_panes(list_panes, t.workspace_id@, panes), panes@[k]]
            told_panes(list_panes, t.workspace_id@, panes) && 0 <= k < panes@.len()
                && t.terminal_id@ == panes@[k].terminal_id@,
        r is Err ==> exists|name: &str, list: Result<Vec<PaneInfo>, String>|
            name@ == default@ && #[trigger] call_ensures(list_panes, (name,), list) && (
            list matches Ok(panes) ==> panes@.len() == 0),
{
    let d = default@;
    let h = hint(hint_space);
    let p = hint(hint_pane);
    let t = hint(hint_tab);
    let before = (old(pane_reg)@, old(tab_reg)@);
    let after = (final(pane_reg)@, final(tab_reg)@);
    match tried_first(d, h) {
        Some(space) => {
            let list = choose|list: Result<Vec<PaneInfo>, String>|
                {
                    &&& #[trigger] listed_by(list_panes, space, list)
                    &&& if usable(list) {
                        attempt(r, space, list, p, t, before, after)
                    } else {
                        exists|second: Result<Vec<PaneInfo>, String>| #[trigger]
                            listed_by(list_panes, d, second) && attempt(
                                r,
                                d,
                                second,
                                p,
                                t,
                                before,
                                after,
                            )
                    }
                };
            if usable(list) {
                lemma_attempt(list_panes, r, space, list, p, t, before, after);
            } else {
                let second = choose|second: Result<Vec<PaneInfo>, String>| #[trigger]
                    listed_by(list_panes, d, second) && attempt(
                        r,
                        d,
                        second,
                        p,
                        t,
                        before,
                        after,
                    );
                lemma_attempt(list_panes, r, d, second, p, t, before, after);
            }
        },
        None => {
            let list = choose|list: Result<Vec<PaneInfo>, String>| #[trigger]
                listed_by(list_panes, d, list) && attempt(r, d, list, p, t, before, after);
            lemma_attempt(list_panes, r, d, list, p, t, before, after);
        },
    }
}

/// The relay's times, in seconds: three for each read or write of a connection, one more to
/// connect, two attempts at a swap, and a grace that covers both with a second to spare. The
/// size of a cell in pixels is not told.
pub proof fn law_the_times_of_the_relay()
    ensures
        WIRE_TIMEOUT_SECS == 3,
        CONNECT_SLACK_SECS == 1,
        RECONNECT_ATTEMPTS == 2,
        SWAP_SLACK_SECS == 1,
        SWAP_GRACE_SECS == 21,
        CELL_PX_DISABLED == 0,
{
}

/// A welcome that could not be read is told with the reason that the framing gives.
pub proof fn law_an_unread_welcome_is_told_with_its_cause(
    e: FramingError,
    r: Result<bool, String>,
    why: String,
)
    requires
        call_ensures(welcome_reply, (&Err(e),), r),
        call_ensures(FramingError::message, (&e,), why),
    ensures
        r matches Err(t) && t@ == "read herdr Welcome: "@ + why@,
{
}

} // verus!
