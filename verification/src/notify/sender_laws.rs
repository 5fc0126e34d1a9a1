//! What reaches a device, and when, stated over the notifier's calls.

use vstd::prelude::*;
use vstd::string::*;

use super::devices::PushDevice;
use super::sender::{
    build_content, content_for, event_trigger, fan_out, gone_after, had_retry, handle_event,
    handle_texts, handles_of, is_about, is_recent, notifier_step, notify_url, post_of, posts_of,
    send_outcome, trigger_kind, turns, without_slashes, Debouncer, Fanout, FanoutStep, Heard,
    NotifierStep, NotifyContent, RelayTransport, SendOutcome, Sent, TriggerKind,
    DEBOUNCE_WINDOW_MS, REQUEST_TIMEOUT_MS, RETRY_DELAY_MS,
};
use crate::multiplexer::events::{AgentStatus, AgentStatusChanged, MuxEvent};
use crate::seqs::lemma_filter_meaning;

verus! {

/// A repetition is held back for half a minute, a post may take ten seconds, and a retry
/// comes after five.
pub proof fn law_the_times_of_the_notifier()
    ensures
        DEBOUNCE_WINDOW_MS == 30_000,
        REQUEST_TIMEOUT_MS == 10_000,
        RETRY_DELAY_MS == 5_000,
{
}

/// A device is told that an agent is blocked, however that was learnt, and that it is done
/// if that was pushed. It is told nothing else.
pub proof fn law_a_device_is_told_of_blocked_and_done(
    ev: &AgentStatusChanged,
    k: Option<TriggerKind>,
)
    requires
        call_ensures(event_trigger, (ev,), k),
    ensures
        k == Some(TriggerKind::Blocked) <==> ev.status is Blocked,
        k == Some(TriggerKind::Done) <==> ev.status is Done && !ev.synthetic,
{
}

/// A blocked or done agent is worth a notification, and no other is.
pub proof fn law_only_blocked_and_done_trigger(status: AgentStatus, k: Option<TriggerKind>)
    requires
        call_ensures(trigger_kind, (status,), k),
    ensures
        k == Some(TriggerKind::Blocked) <==> status is Blocked,
        k == Some(TriggerKind::Done) <==> status is Done,
{
}

/// What is sent: the relay's word for what happened, the daemon's name as the title, and a
/// text that names the workspace by its name, or by its id if it has none. Asked to be
/// generic, the text names nothing.
pub proof fn law_a_notification_names_the_workspace_at_most(
    kind: TriggerKind,
    ev: &AgentStatusChanged,
    verbosity: &str,
    c: NotifyContent,
)
    requires
        call_ensures(content_for, (kind, ev, verbosity), c),
    ensures
        c.kind@ == (if kind is Blocked {
            "agent_blocked"@
        } else {
            "agent_done"@
        }),
        c.title matches Some(t) && t@ == "Muxr"@,
        verbosity@ == "generic"@ ==> (c.body matches Some(b) && b@ == "Attention needed"@),
        verbosity@ != "generic"@ ==> (c.body matches Some(b) && b@ == (if kind is Blocked {
            "Agent blocked in "@
        } else {
            "Agent finished in "@
        }) + (if ev.workspace_name matches Some(name) && name@.len() > 0 {
            ev.workspace_name->0@
        } else {
            ev.workspace_id@
        })),
{
}

/// There is a content exactly for what a device is told of.
pub proof fn law_only_what_is_told_has_a_content(
    ev: &AgentStatusChanged,
    verbosity: &str,
    c: Option<NotifyContent>,
)
    requires
        call_ensures(build_content, (ev, verbosity), c),
    ensures
        c is Some <==> ev.status is Blocked || (ev.status is Done && !ev.synthetic),
        c matches Some(x) ==> x.kind@ == (if ev.status is Blocked {
            "agent_blocked"@
        } else {
            "agent_done"@
        }),
{
}

/// A notification goes out exactly if the same one, for the same pane, did not go out
/// within the window; then it counts as sent now. Whatever else was sent within the window
/// is kept in mind, and nothing older.
pub proof fn law_the_same_notification_waits_for_the_window(
    d: &mut Debouncer,
    pane: u32,
    kind: TriggerKind,
    now: u64,
    send: bool,
    s: Sent,
)
    requires
        call_ensures(Debouncer::should_send, (d, pane, kind, now), send),
    ensures
        send <==> forall|i: int|
            0 <= i < old(d)@.len() ==> !((#[trigger] old(d)@[i]).pane == pane && old(d)@[i].kind
                == kind && (old(d)@[i].at > now && old(d).span() > 0 || now >= old(d)@[i].at && now
                - old(d)@[i].at < old(d).span())),
        final(d)@.contains(s) <==> (old(d)@.contains(s) && (s.at > now && old(d).span() > 0 || now
            >= s.at && now - s.at < old(d).span())) || (send && s == (Sent { pane, kind, at: now })),
        final(d).span() == old(d).span(),
{
    let all = old(d)@;
    let p = is_recent(now, old(d).span());
    lemma_filter_meaning(all, p);
    let kept = all.filter(p);
    assert forall|i: int| 0 <= i < all.len() implies (is_about(#[trigger] all[i], pane, kind) && p(
        all[i],
    ) <==> (all[i].pane == pane && all[i].kind == kind && (all[i].at > now && old(d).span() > 0
        || now >= all[i].at && now - all[i].at < old(d).span()))) by {}
    let next = final(d)@;
    if kept.contains(s) {
        let j = choose|j: int| 0 <= j < kept.len() && kept[j] == s;
        assert(next[j] == s);
    }
    if send {
        assert(next == kept.push(Sent { pane, kind, at: now }));
        assert(next[kept.len() as int] == (Sent { pane, kind, at: now }));
        if next.contains(s) && s != (Sent { pane, kind, at: now }) {
            let j = choose|j: int| 0 <= j < next.len() && next[j] == s;
            assert(kept[j] == s);
        }
    }
}

/// The relay's answers: 204 is delivered, 404 and 410 mean that the device is gone, 429
/// asks for fewer posts, and everything else, no answer among it, may pass.
pub proof fn law_the_relays_answers(status: Option<u16>, o: SendOutcome)
    requires
        call_ensures(send_outcome, (status,), o),
    ensures
        o is Delivered <==> status == Some(204u16),
        o is Gone <==> status == Some(404u16) || status == Some(410u16),
        o is RateLimited <==> status == Some(429u16),
{
}

/// Notifications are posted to the relay's address without the slashes at its end,
/// followed by the path.
pub proof fn law_the_address_has_one_slash_before_the_path(base: &str, url: String)
    requires
        call_ensures(notify_url, (base,), url),
    ensures
        exists|n: int|
            0 <= n <= base@.len() && url@ == #[trigger] base@.take(n) + "/v1/notify"@ && (n > 0
                ==> base@[n - 1] != '/') && forall|i: int|
                n <= i < base@.len() ==> #[trigger] base@[i] == '/',
{
    lemma_without_slashes(base@);
}

proof fn lemma_without_slashes(text: Seq<char>)
    ensures
        ({
            let n = without_slashes(text).len() as int;
            &&& n <= text.len()
            &&& without_slashes(text) == text.take(n)
            &&& n > 0 ==> text[n - 1] != '/'
            &&& forall|i: int| n <= i < text.len() ==> #[trigger] text[i] == '/'
        }),
    decreases text.len(),
{
    if text.len() > 0 && text.last() == '/' {
        let init = text.drop_last();
        lemma_without_slashes(init);
        let n = without_slashes(text).len() as int;
        assert(init.take(n) =~= text.take(n));
        assert forall|i: int| n <= i < text.len() implies #[trigger] text[i] == '/' by {
            if i < init.len() {
                assert(init[i] == text[i]);
            }
        }
        if n > 0 {
            assert(init[n - 1] == text[n - 1]);
        }
    } else {
        assert(text.take(text.len() as int) =~= text);
    }
}

/// A content goes to each handle in turn: a failure that may pass gets one retry at the
/// same handle, anything else passes the turn on, and only a handle that is gone is to be
/// taken out.
pub proof fn law_each_handle_has_its_turn(
    f: &mut Fanout,
    outcome: SendOutcome,
    r: (FanoutStep, Option<usize>),
)
    requires
        old(f).next < old(f).handles@.len(),
        call_ensures(Fanout::posted, (f, outcome), r),
    ensures
        outcome is Transient && !old(f).retried ==> r.0 == FanoutStep::Retry(old(f).next) && final(
            f).next == old(f).next && final(f).retried,
        !(outcome is Transient && !old(f).retried) ==> final(f).next == old(f).next + 1 && !final(
            f).retried && r.0 == (if old(f).next + 1 < old(f).handles@.len() {
            FanoutStep::Post((old(f).next + 1) as usize)
        } else {
            FanoutStep::Finished
        }),
        r.1 == (if outcome is Gone {
            Some(old(f).next)
        } else {
            None
        }),
        final(f).handles@ == old(f).handles@,
        final(f).content == old(f).content,
{
}

/// The first post goes to the first handle; without a handle there is none.
pub proof fn law_the_first_post_goes_to_the_first_handle(f: &Fanout, step: FanoutStep)
    requires
        f.next == 0,
        call_ensures(Fanout::start, (f,), step),
    ensures
        f.handles@.len() > 0 ==> step == FanoutStep::Post(0),
        f.handles@.len() == 0 ==> step is Finished,
{
}

/// An event goes out exactly if a device is told of it, there is a device, and the same
/// was not sent within the window: to the handle of every device, in order, with the
/// content of that event. What does not go out is not noted as sent.
pub proof fn law_an_event_goes_to_every_device(
    ev: &AgentStatusChanged,
    verbosity: &str,
    d: &mut Debouncer,
    devices: &Vec<PushDevice>,
    now: u64,
    r: Option<Fanout>,
)
    requires
        call_ensures(handle_event, (ev, verbosity, d, devices, now), r),
    ensures
        r is Some ==> devices@.len() > 0 && (ev.status is Blocked || (ev.status is Done
            && !ev.synthetic)),
        devices@.len() > 0 && ev.status is Blocked && (forall|i: int|
            0 <= i < old(d)@.len() ==> (#[trigger] old(d)@[i]).pane != ev.pane
                || old(d)@[i].kind is Done) ==> r is Some,
        devices@.len() > 0 && ev.status is Done && !ev.synthetic && (forall|i: int|
            0 <= i < old(d)@.len() ==> (#[trigger] old(d)@[i]).pane != ev.pane
                || old(d)@[i].kind is Blocked) ==> r is Some,
        r matches Some(f) ==> f.handles@.len() == devices@.len() && f.next == 0 && !f.retried
            && forall|i: int|
            0 <= i < devices@.len() ==> (#[trigger] f.handles@[i])@ == devices@[i].push_handle@,
        r matches Some(f) ==> f.content.kind@ == (if ev.status is Blocked {
            "agent_blocked"@
        } else {
            "agent_done"@
        }),
        devices@.len() == 0 ==> r is None && final(d)@ == old(d)@,
        !(ev.status is Blocked || (ev.status is Done && !ev.synthetic)) ==> r is None && final(d)@
            == old(d)@,
{
    if let Some(f) = r {
        assert(handle_texts(f.handles@).len() == f.handles@.len());
        assert(handles_of(devices@).len() == devices@.len());
        assert forall|i: int| 0 <= i < devices@.len() implies (#[trigger] f.handles@[i])@
            == devices@[i].push_handle@ by {
            assert(handle_texts(f.handles@)[i] == f.handles@[i]@);
            assert(handles_of(devices@)[i] == devices@[i].push_handle@);
        }
    }
}

/// A handle is taken out exactly if a post at its turn found it gone.
pub proof fn law_only_a_handle_that_was_gone_is_taken_out(outcomes: Seq<SendOutcome>, i: usize)
    requires
        turns(outcomes).0 <= usize::MAX,
    ensures
        gone_after(outcomes).contains(i) <==> exists|k: int|
            0 <= k < outcomes.len() && #[trigger] outcomes[k] is Gone && turns(outcomes.take(k)).0
                == i,
    decreases outcomes.len(),
{
    if outcomes.len() > 0 {
        let init = outcomes.drop_last();
        let n = outcomes.len() - 1;
        law_only_a_handle_that_was_gone_is_taken_out(init, i);
        assert(outcomes.take(n) =~= init);
        let before = gone_after(init);
        let all = gone_after(outcomes);
        if before.contains(i) {
            let j = choose|j: int| 0 <= j < before.len() && before[j] == i;
            assert(all[j] == i);
        }
        if all.contains(i) && !before.contains(i) {
            let j = choose|j: int| 0 <= j < all.len() && all[j] == i;
            assert(j == before.len());
            assert(outcomes[n] is Gone && turns(outcomes.take(n)).0 == i);
        }
        if exists|k: int|
            0 <= k < init.len() && #[trigger] init[k] is Gone && turns(init.take(k)).0 == i {
            let k = choose|k: int|
                0 <= k < init.len() && #[trigger] init[k] is Gone && turns(init.take(k)).0 == i;
            assert(outcomes.take(k) =~= init.take(k));
            assert(outcomes[k] is Gone);
        }
        if exists|k: int|
            0 <= k < outcomes.len() && #[trigger] outcomes[k] is Gone && turns(outcomes.take(k)).0
                == i {
            let k = choose|k: int|
                0 <= k < outcomes.len() && #[trigger] outcomes[k] is Gone && turns(
                    outcomes.take(k),
                ).0 == i;
            if k < n {
                assert(outcomes.take(k) =~= init.take(k));
                assert(init[k] is Gone);
            } else {
                assert(all[before.len() as int] == i);
            }
        }
    } else {
        assert(!gone_after(outcomes).contains(i));
    }
}

/// The notifier hands every status change on, passes over everything else that is no word
/// to end, and ends when the bus closes, or when it is told to or nobody can tell it any
/// more.
pub proof fn law_the_notifier_hands_on_every_status_change(heard: Heard, step: NotifierStep)
    requires
        call_ensures(notifier_step, (heard,), step),
    ensures
        heard matches Heard::Event(MuxEvent::AgentStatusChanged(ev)) ==> (
        step matches NotifierStep::Handle(e) && e == ev),
        step is Handle ==> (heard matches Heard::Event(MuxEvent::AgentStatusChanged(_))),
        step is Stop <==> heard is Closed || (heard matches Heard::Shutdown(flag) && flag != Some(
            false,
        )),
{
}

/// The relay's words for what happened.
pub proof fn law_what_happened_has_its_word(kind: TriggerKind, word: &'static str)
    requires
        call_ensures(TriggerKind::wire, (kind,), word),
    ensures
        kind is Blocked ==> word@ == "agent_blocked"@,
        kind is Done ==> word@ == "agent_done"@,
{
}

/// Every handle before the one whose turn it is had a post.
proof fn lemma_had_its_turn(outcomes: Seq<SendOutcome>, i: nat)
    requires
        i < turns(outcomes).0,
    ensures
        exists|k: int| 0 <= k < outcomes.len() && turns(#[trigger] outcomes.take(k)).0 == i,
    decreases outcomes.len(),
{
    let init = outcomes.drop_last();
    let n = outcomes.len() - 1;
    assert(outcomes.take(n) =~= init);
    if i < turns(init).0 {
        lemma_had_its_turn(init, i);
        let k = choose|k: int| 0 <= k < init.len() && turns(#[trigger] init.take(k)).0 == i;
        assert(outcomes.take(k) =~= init.take(k));
    } else {
        assert(turns(outcomes.take(n)).0 == i);
    }
}

/// A content is posted to every handle, as it is. A handle is reported gone exactly if the
/// relay said so of it: there is such an answer for each one that is reported, and another
/// answer for each one that is not.
pub proof fn law_every_handle_is_posted_to<T: RelayTransport>(
    transport: &T,
    fanout: Fanout,
    gone: Vec<usize>,
    i: usize,
)
    requires
        call_ensures(fan_out::<T>, (transport, fanout), gone),
    ensures
        gone@.contains(i) ==> i < fanout.handles@.len(),
        i < fanout.handles@.len() ==> exists|h: &str, o: SendOutcome|
            #![trigger call_ensures(T::send, (transport, h, &fanout.content), o)]
            h@ == fanout.handles@[i as int]@ && call_ensures(
                T::send,
                (transport, h, &fanout.content),
                o,
            ) && (o is Gone <==> gone@.contains(i)),
{
    let outcomes = choose|outcomes: Seq<SendOutcome>|
        #![trigger gone_after(outcomes)]
        {
            &&& turns(outcomes) == (fanout.handles@.len(), false)
            &&& posts_of(transport, &fanout.content, fanout.handles@, outcomes)
            &&& gone@ == gone_after(outcomes)
            &&& had_retry(outcomes) ==> call_ensures(T::pause, (transport, RETRY_DELAY_MS), ())
        };
    assert(fanout.handles.len() == fanout.handles@.len());
    law_only_a_handle_that_was_gone_is_taken_out(outcomes, i);
    if gone@.contains(i) {
        let k = choose|k: int|
            0 <= k < outcomes.len() && #[trigger] outcomes[k] is Gone && turns(
                outcomes.take(k),
            ).0 == i;
        assert(post_of(transport, &fanout.content, fanout.handles@, outcomes, k));
    } else if i < fanout.handles@.len() {
        lemma_had_its_turn(outcomes, i as nat);
        let k = choose|k: int|
            0 <= k < outcomes.len() && turns(#[trigger] outcomes.take(k)).0 == i;
        assert(!(outcomes[k] is Gone));
        assert(post_of(transport, &fanout.content, fanout.handles@, outcomes, k));
    }
}

} // verus!
