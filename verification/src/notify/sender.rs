//! What is pushed to devices, and when.
//!
//! A device is told when an agent is blocked or has finished, and of nothing else.
//! What is sent passes through the relay and the platforms' push services, so it names
//! the workspace at most and never what a terminal shows. Without a registered device
//! nothing is sent at all.
//!
//! The decisions are here. Whoever runs the notifier reads the registry, posts to the
//! relay and waits, as told.

use vstd::prelude::*;
use vstd::string::*;

use super::devices::PushDevice;
use crate::multiplexer::events::{AgentStatus, AgentStatusChanged, MuxEvent};
use crate::multiplexer::herdr::subscribe::since;
use crate::seqs::{lemma_filter_meaning, lemma_filter_step};
use crate::text::text_eq;

verus! {

/// How long the same notification is held back after it was sent, in milliseconds.
pub const DEBOUNCE_WINDOW_MS: u64 = 30_000;

/// Longest wait for the relay, in milliseconds.
pub const REQUEST_TIMEOUT_MS: u64 = 10_000;

/// Wait before the one retry, in milliseconds.
pub const RETRY_DELAY_MS: u64 = 5_000;

/// Path of the relay that takes notifications.
pub const NOTIFY_PATH: &'static str = "/v1/notify";

/// What a device is told of.
#[derive(Debug, Clone, Copy, PartialEq, Eq, Structural)]
pub enum TriggerKind {
    Blocked,
    Done,
}

impl TriggerKind {
    /// The relay's word for it.
    pub open spec fn word(self) -> Seq<char> {
        match self {
            TriggerKind::Blocked => "agent_blocked"@,
            TriggerKind::Done => "agent_done"@,
        }
    }

    /// The relay's word for it.
    pub fn wire(self) -> (s: &'static str)
        ensures
            s@ == self.word(),
    {
        match self {
            TriggerKind::Blocked => "agent_blocked",
            TriggerKind::Done => "agent_done",
        }
    }
}

/// What a status tells a device, if anything.
pub open spec fn trigger_of(status: AgentStatus) -> Option<TriggerKind> {
    match status {
        AgentStatus::Blocked => Some(TriggerKind::Blocked),
        AgentStatus::Done => Some(TriggerKind::Done),
        _ => None,
    }
}

/// What a status tells a device, if anything.
pub fn trigger_kind(status: AgentStatus) -> (k: Option<TriggerKind>)
    ensures
        k == trigger_of(status),
{
    match status {
        AgentStatus::Blocked => Some(TriggerKind::Blocked),
        AgentStatus::Done => Some(TriggerKind::Done),
        _ => None,
    }
}

/// What an event tells a device, if anything. That an agent has finished is not told
/// when it is merely observed after the fact: it may have been told before. That one
/// is blocked still is.
pub open spec fn told_of(status: AgentStatus, synthetic: bool) -> Option<TriggerKind> {
    if synthetic && status is Done {
        None
    } else {
        trigger_of(status)
    }
}

/// What an event tells a device, if anything.
pub fn event_trigger(ev: &AgentStatusChanged) -> (k: Option<TriggerKind>)
    ensures
        k == told_of(ev.status, ev.synthetic),
{
    match trigger_kind(ev.status) {
        Some(TriggerKind::Done) => if ev.synthetic {
            None
        } else {
            Some(TriggerKind::Done)
        },
        k => k,
    }
}

/// What is sent for an event. The device's handle is not part of it, so that one
/// content goes to every device.
#[derive(Debug, Clone, PartialEq, Eq)]
pub struct NotifyContent {
    /// The relay's word for what happened.
    pub kind: String,
    pub title: Option<String>,
    pub body: Option<String>,
}

/// What a workspace is called in a notification: its name if it has one, else its id.
pub open spec fn label_of(ev: AgentStatusChanged) -> Seq<char> {
    match ev.workspace_name {
        Some(name) => if name@.len() > 0 {
            name@
        } else {
            ev.workspace_id@
        },
        None => ev.workspace_id@,
    }
}

/// The text of a notification.
pub open spec fn body_of(kind: TriggerKind, ev: AgentStatusChanged, verbosity: Seq<char>) -> Seq<
    char,
> {
    if verbosity == "generic"@ {
        "Attention needed"@
    } else {
        match kind {
            TriggerKind::Blocked => "Agent blocked in "@ + label_of(ev),
            TriggerKind::Done => "Agent finished in "@ + label_of(ev),
        }
    }
}

impl NotifyContent {
    /// The content is that of this event.
    pub open spec fn is_for(
        &self,
        kind: TriggerKind,
        ev: AgentStatusChanged,
        verbosity: Seq<char>,
    ) -> bool {
        &&& self.kind@ == kind.word()
        &&& self.title matches Some(t) && t@ == "Muxr"@
        &&& self.body matches Some(b) && b@ == body_of(kind, ev, verbosity)
    }
}

/// The content for an event.
pub fn content_for(kind: TriggerKind, ev: &AgentStatusChanged, verbosity: &str) -> (c:
    NotifyContent)
    ensures
        c.is_for(kind, *ev, verbosity@),
{
    let body = if text_eq(verbosity, "generic") {
        "Attention needed".to_owned()
    } else {
        let label = match &ev.workspace_name {
            Some(name) => if name.as_str().unicode_len() > 0 {
                name.as_str()
            } else {
                ev.workspace_id.as_str()
            },
            None => ev.workspace_id.as_str(),
        };
        match kind {
            TriggerKind::Blocked => "Agent blocked in ".to_owned().concat(label),
            TriggerKind::Done => "Agent finished in ".to_owned().concat(label),
        }
    };
    NotifyContent { kind: kind.wire().to_owned(), title: Some("Muxr".to_owned()), body: Some(body) }
}

/// The content for an event, if it tells a device anything.
pub fn build_content(ev: &AgentStatusChanged, verbosity: &str) -> (c: Option<NotifyContent>)
    ensures
        match told_of(ev.status, ev.synthetic) {
            Some(kind) => c matches Some(x) && x.is_for(kind, *ev, verbosity@),
            None => c is None,
        },
{
    match event_trigger(ev) {
        Some(kind) => Some(content_for(kind, ev, verbosity)),
        None => None,
    }
}

// ------------------------------------------------------------------- debounce

/// A notification that was sent.
#[derive(Debug, Clone, Copy, PartialEq, Eq, Structural)]
pub struct Sent {
    pub pane: u32,
    pub kind: TriggerKind,
    /// When, in milliseconds.
    pub at: u64,
}

/// Whether a notification was sent less than a window ago.
pub open spec fn is_recent(now: u64, window: u64) -> spec_fn(Sent) -> bool {
    |s: Sent| since(now, s.at) < window
}

/// Whether a notification is about this pane and of this kind.
pub open spec fn is_about(s: Sent, pane: u32, kind: TriggerKind) -> bool {
    s.pane == pane && s.kind == kind
}

/// Whether the same notification was sent less than a window ago.
pub open spec fn held_back(
    sent: Seq<Sent>,
    window: u64,
    pane: u32,
    kind: TriggerKind,
    now: u64,
) -> bool {
    exists|i: int|
        0 <= i < sent.len() && is_about(#[trigger] sent[i], pane, kind) && is_recent(now, window)(
            sent[i],
        )
}

/// What was sent and still counts, after a decision.
pub open spec fn sent_after(
    sent: Seq<Sent>,
    window: u64,
    pane: u32,
    kind: TriggerKind,
    now: u64,
) -> Seq<Sent> {
    let kept = sent.filter(is_recent(now, window));
    if held_back(sent, window, pane, kind, now) {
        kept
    } else {
        kept.push(Sent { pane, kind, at: now })
    }
}

/// Holds back notifications that repeat too soon.
#[derive(Debug)]
pub struct Debouncer {
    last_sent: Vec<Sent>,
    window: u64,
}

impl View for Debouncer {
    type V = Seq<Sent>;

    closed spec fn view(&self) -> Seq<Sent> {
        self.last_sent@
    }
}

impl Debouncer {
    /// How long a repetition is held back.
    pub closed spec fn span(&self) -> u64 {
        self.window
    }

    /// A debouncer that has seen nothing.
    pub fn new(window: u64) -> (d: Self)
        ensures
            d@ == Seq::<Sent>::empty(),
            d.span() == window,
    {
        Debouncer { last_sent: Vec::new(), window }
    }

    /// Whether a notification is to be sent now; if so, it counts as sent. What was
    /// sent a window ago or earlier is forgotten.
    pub fn should_send(&mut self, pane: u32, kind: TriggerKind, now: u64) -> (send: bool)
        ensures
            send == !held_back(old(self)@, old(self).span(), pane, kind, now),
            final(self)@ == sent_after(old(self)@, old(self).span(), pane, kind, now),
            final(self).span() == old(self).span(),
    {
        let ghost all = self.last_sent@;
        let ghost p = is_recent(now, self.window);
        let mut kept: Vec<Sent> = Vec::new();
        let mut held = false;
        let n: usize = self.last_sent.len();
        let mut i: usize = 0;
        proof {
            reveal(Seq::filter);
            assert(all.take(0).filter(p) =~= kept@);
        }
        while i < n
            invariant
                i <= n,
                n == all.len(),
                self.last_sent@ == all,
                *self == *old(self),
                p == is_recent(now, self.window),
                kept@ == all.take(i as int).filter(p),
                held <==> exists|j: int|
                    0 <= j < i && is_about(#[trigger] all[j], pane, kind) && p(all[j]),
            decreases n - i,
        {
            proof {
                lemma_filter_step(all, p, i as int);
            }
            let s = self.last_sent[i];
            let age: u64 = if now >= s.at {
                now - s.at
            } else {
                0
            };
            if age < self.window {
                kept.push(s);
                if s.pane == pane && s.kind == kind {
                    proof {
                        assert(is_about(all[i as int], pane, kind) && p(all[i as int]));
                    }
                    held = true;
                }
            }
            i = i + 1;
        }
        proof {
            assert(all.take(n as int) =~= all);
        }
        if !held {
            kept.push(Sent { pane, kind, at: now });
        }
        self.last_sent = kept;
        !held
    }
}

// -------------------------------------------------------------------- sending

/// What came of a post to the relay.
#[derive(Debug, Clone, Copy, PartialEq, Eq, Structural)]
pub enum SendOutcome {
    /// The relay took it.
    Delivered,
    /// The relay does not know the handle any more.
    Gone,
    /// The relay wants fewer posts.
    RateLimited,
    /// Anything else, which may pass.
    Transient,
}

/// What a reply of the relay means; no status means that there was no reply.
pub open spec fn outcome_of(status: Option<u16>) -> SendOutcome {
    match status {
        Some(s) => if s == 204 {
            SendOutcome::Delivered
        } else if s == 404 || s == 410 {
            SendOutcome::Gone
        } else if s == 429 {
            SendOutcome::RateLimited
        } else {
            SendOutcome::Transient
        },
        None => SendOutcome::Transient,
    }
}

/// What a reply of the relay means.
pub fn send_outcome(status: Option<u16>) -> (o: SendOutcome)
    ensures
        o == outcome_of(status),
{
    match status {
        Some(204) => SendOutcome::Delivered,
        Some(404) => SendOutcome::Gone,
        Some(410) => SendOutcome::Gone,
        Some(429) => SendOutcome::RateLimited,
        _ => SendOutcome::Transient,
    }
}

/// A text without the slashes at its end.
pub open spec fn without_slashes(text: Seq<char>) -> Seq<char>
    decreases text.len(),
{
    if text.len() > 0 && text.last() == '/' {
        without_slashes(text.drop_last())
    } else {
        text
    }
}

/// Where notifications are posted to, given the relay's address.
pub fn notify_url(relay_base: &str) -> (url: String)
    ensures
        url@ == without_slashes(relay_base@) + NOTIFY_PATH@,
{
    let mut n: usize = relay_base.unicode_len();
    proof {
        assert(relay_base@.take(n as int) =~= relay_base@);
    }
    while n > 0 && relay_base.get_char(n - 1) == '/'
        invariant
            n <= relay_base@.len(),
            without_slashes(relay_base@) == without_slashes(relay_base@.take(n as int)),
        decreases n,
    {
        proof {
            assert(relay_base@.take(n as int).last() == relay_base@[n - 1]);
            assert(relay_base@.take(n as int).drop_last() =~= relay_base@.take(n - 1));
        }
        n = n - 1;
    }
    proof {
        assert(n > 0 ==> relay_base@.take(n as int).last() == relay_base@[n - 1]);
        assert(relay_base@.subrange(0, n as int) =~= relay_base@.take(n as int));
    }
    relay_base.substring_char(0, n).to_owned().concat(NOTIFY_PATH)
}

/// A content on its way to every device.
#[derive(Debug)]
pub struct Fanout {
    pub content: NotifyContent,
    /// The handles, in the order of the registry.
    pub handles: Vec<String>,
    /// The handle whose turn it is.
    pub next: usize,
    /// Whether this handle had its retry.
    pub retried: bool,
}

/// What comes next for a content on its way.
#[derive(Debug, Clone, Copy, PartialEq, Eq, Structural)]
pub enum FanoutStep {
    /// Post to the handle at this place.
    Post(usize),
    /// Wait, then post to the handle at this place again.
    Retry(usize),
    /// Every handle had its turn.
    Finished,
}

/// The handles of devices.
pub open spec fn handles_of(devices: Seq<PushDevice>) -> Seq<Seq<char>> {
    devices.map_values(|d: PushDevice| d.push_handle@)
}

/// Handles, mathematically.
pub open spec fn handle_texts(handles: Seq<String>) -> Seq<Seq<char>> {
    handles.map_values(|h: String| h@)
}

/// The step for a place.
pub open spec fn post_at(i: int, len: int) -> FanoutStep {
    if i < len {
        FanoutStep::Post(i as usize)
    } else {
        FanoutStep::Finished
    }
}

/// Whose turn it is after a post, and whether that handle had its retry: a failure that
/// may pass gets one retry, and anything else passes the turn on.
pub open spec fn turn(at: (nat, bool), outcome: SendOutcome) -> (nat, bool) {
    if outcome is Transient && !at.1 {
        (at.0, true)
    } else {
        (at.0 + 1, false)
    }
}

/// What [`Fanout::posted`] does. Only a handle that is gone is to be taken out of the
/// registry.
pub open spec fn fanout_moves(
    before: Fanout,
    after: Fanout,
    outcome: SendOutcome,
    r: (FanoutStep, Option<usize>),
) -> bool {
    &&& after.content == before.content
    &&& after.handles == before.handles
    &&& (after.next as nat, after.retried) == turn((before.next as nat, before.retried), outcome)
    &&& r.0 == if after.next == before.next {
        FanoutStep::Retry(before.next)
    } else {
        post_at(after.next as int, before.handles@.len() as int)
    }
    &&& r.1 == if outcome is Gone {
        Some(before.next)
    } else {
        None
    }
}

impl Fanout {
    /// There is a handle whose turn it is.
    pub open spec fn under_way(&self) -> bool {
        self.next < self.handles@.len()
    }

    /// The first step.
    pub fn start(&self) -> (step: FanoutStep)
        ensures
            step == post_at(self.next as int, self.handles@.len() as int),
    {
        if self.next < self.handles.len() {
            FanoutStep::Post(self.next)
        } else {
            FanoutStep::Finished
        }
    }

    /// Takes the outcome of a post: what comes next, and the place of a handle that is
    /// to be taken out of the registry, if this one is gone. A failure that may pass
    /// gets one retry; nothing else does.
    pub fn posted(&mut self, outcome: SendOutcome) -> (r: (FanoutStep, Option<usize>))
        requires
            old(self).under_way(),
        ensures
            fanout_moves(*old(self), *final(self), outcome, r),
    {
        let at: usize = self.next;
        let n: usize = self.handles.len();
        if outcome == SendOutcome::Transient && !self.retried {
            self.retried = true;
            return (FanoutStep::Retry(at), None);
        }
        let prune = if outcome == SendOutcome::Gone {
            Some(at)
        } else {
            None
        };
        self.next = at + 1;
        self.retried = false;
        let step = if at + 1 < n {
            FanoutStep::Post(at + 1)
        } else {
            FanoutStep::Finished
        };
        (step, prune)
    }
}

/// Whether an event is sent on: it tells a device something, there is a device, and it
/// is not held back.
pub open spec fn goes_out(
    ev: AgentStatusChanged,
    devices: Seq<PushDevice>,
    sent: Seq<Sent>,
    window: u64,
    now: u64,
) -> bool {
    told_of(ev.status, ev.synthetic) matches Some(kind) && devices.len() > 0 && !held_back(
        sent,
        window,
        ev.pane,
        kind,
        now,
    )
}

/// Decides on an event, given the devices as just read from the registry. The debounce
/// takes note only of what really goes out to a device.
pub fn handle_event(
    ev: &AgentStatusChanged,
    verbosity: &str,
    debouncer: &mut Debouncer,
    devices: &Vec<PushDevice>,
    now: u64,
) -> (r: Option<Fanout>)
    ensures
        final(debouncer).span() == old(debouncer).span(),
        match told_of(ev.status, ev.synthetic) {
            Some(kind) => if devices@.len() == 0 {
                r is None && final(debouncer)@ == old(debouncer)@
            } else {
                &&& final(debouncer)@ == sent_after(
                    old(debouncer)@,
                    old(debouncer).span(),
                    ev.pane,
                    kind,
                    now,
                )
                &&& r is Some <==> goes_out(
                    *ev,
                    devices@,
                    old(debouncer)@,
                    old(debouncer).span(),
                    now,
                )
                &&& r matches Some(f) ==> {
                    &&& f.content.is_for(kind, *ev, verbosity@)
                    &&& handle_texts(f.handles@) == handles_of(devices@)
                    &&& f.next == 0
                    &&& !f.retried
                }
            },
            None => r is None && final(debouncer)@ == old(debouncer)@,
        },
{
    let kind = match event_trigger(ev) {
        Some(k) => k,
        None => {
            return None;
        },
    };
    if devices.len() == 0 {
        return None;
    }
    if !debouncer.should_send(ev.pane, kind, now) {
        return None;
    }
    let content = content_for(kind, ev, verbosity);
    let mut handles: Vec<String> = Vec::new();
    let n: usize = devices.len();
    let mut i: usize = 0;
    while i < n
        invariant
            i <= n,
            n == devices@.len(),
            handles@.len() == i,
            forall|j: int| 0 <= j < i ==> (#[trigger] handles@[j])@ == devices@[j].push_handle@,
        decreases n - i,
    {
        handles.push(devices[i].push_handle.clone());
        i = i + 1;
    }
    proof {
        assert(handle_texts(handles@) =~= handles_of(devices@));
    }
    Some(Fanout { content, handles, next: 0, retried: false })
}

/// The way to the relay.
pub trait RelayTransport: Sized {
    /// Posts a content to the device behind a handle.
    fn send(&self, handle: &str, content: &NotifyContent) -> SendOutcome;

    /// Waits.
    fn pause(&self, millis: u64);
}

/// Whether the relay can have given this outcome for a handle.
pub open spec fn answered<T: RelayTransport>(
    transport: &T,
    handle: Seq<char>,
    content: &NotifyContent,
    outcome: SendOutcome,
) -> bool {
    exists|h: &str|
        #![trigger call_ensures(T::send, (transport, h, content), outcome)]
        h@ == handle && call_ensures(T::send, (transport, h, content), outcome)
}

/// The places of the handles that were gone, given the outcomes of all posts.
pub open spec fn gone_after(outcomes: Seq<SendOutcome>) -> Seq<usize>
    decreases outcomes.len(),
{
    if outcomes.len() == 0 {
        Seq::empty()
    } else {
        let init = outcomes.drop_last();
        if outcomes.last() is Gone {
            gone_after(init).push(turns(init).0 as usize)
        } else {
            gone_after(init)
        }
    }
}

/// Whether one of these posts called for a retry.
pub open spec fn had_retry(outcomes: Seq<SendOutcome>) -> bool
    decreases outcomes.len(),
{
    outcomes.len() > 0 && (had_retry(outcomes.drop_last()) || (outcomes.last() is Transient
        && !turns(outcomes.drop_last()).1))
}

/// Whether the outcome of the `k`th post can have come from the handle whose turn it was.
pub open spec fn post_of<T: RelayTransport>(
    transport: &T,
    content: &NotifyContent,
    handles: Seq<String>,
    outcomes: Seq<SendOutcome>,
    k: int,
) -> bool {
    let at = turns(outcomes.take(k)).0;
    at < handles.len() && answered(transport, handles[at as int]@, content, outcomes[k])
}

/// Whether these can be the outcomes of posting a content to handles, in order and with
/// at most one retry each.
pub open spec fn posts_of<T: RelayTransport>(
    transport: &T,
    content: &NotifyContent,
    handles: Seq<String>,
    outcomes: Seq<SendOutcome>,
) -> bool {
    forall|k: int|
        0 <= k < outcomes.len() ==> #[trigger] post_of(transport, content, handles, outcomes, k)
}

/// One more post, to the handle whose turn it is.
proof fn lemma_one_more_post<T: RelayTransport>(
    transport: &T,
    content: &NotifyContent,
    handles: Seq<String>,
    outcomes: Seq<SendOutcome>,
    outcome: SendOutcome,
)
    requires
        posts_of(transport, content, handles, outcomes),
        turns(outcomes).0 < handles.len(),
        answered(transport, handles[turns(outcomes).0 as int]@, content, outcome),
    ensures
        posts_of(transport, content, handles, outcomes.push(outcome)),
{
    let more = outcomes.push(outcome);
    assert forall|k: int| 0 <= k < more.len() implies #[trigger] post_of(
        transport,
        content,
        handles,
        more,
        k,
    ) by {
        assert(more.take(k) =~= outcomes.take(k));
        if k < outcomes.len() {
            assert(post_of(transport, content, handles, outcomes, k));
            assert(outcomes[k] == more[k]);
        } else {
            assert(outcomes.take(k) =~= outcomes);
        }
    }
}

/// What one more outcome makes of the turns, of the handles that are gone and of the
/// retries.
proof fn lemma_one_more_outcome(outcomes: Seq<SendOutcome>, outcome: SendOutcome)
    ensures
        turns(outcomes.push(outcome)) == turn(turns(outcomes), outcome),
        gone_after(outcomes.push(outcome)) == if outcome is Gone {
            gone_after(outcomes).push(turns(outcomes).0 as usize)
        } else {
            gone_after(outcomes)
        },
        had_retry(outcomes.push(outcome)) <==> had_retry(outcomes) || (outcome is Transient
            && !turns(outcomes).1),
{
    assert(outcomes.push(outcome).drop_last() =~= outcomes);
}

/// Posts a content to every handle, with a wait before each retry: the places of the
/// handles that are gone.
pub fn fan_out<T: RelayTransport>(transport: &T, fanout: Fanout) -> (gone: Vec<usize>)
    requires
        fanout.next == 0,
        !fanout.retried,
    ensures
        exists|outcomes: Seq<SendOutcome>|
            #![trigger gone_after(outcomes)]
            {
                &&& turns(outcomes) == (fanout.handles@.len(), false)
                &&& posts_of(transport, &fanout.content, fanout.handles@, outcomes)
                &&& gone@ == gone_after(outcomes)
                &&& had_retry(outcomes) ==> call_ensures(
                    T::pause,
                    (transport, RETRY_DELAY_MS),
                    (),
                )
            },
{
    let mut state = fanout;
    let mut gone: Vec<usize> = Vec::new();
    let ghost mut outcomes: Seq<SendOutcome> = Seq::empty();
    let mut step = state.start();
    while step != FanoutStep::Finished
        invariant
            state.handles == fanout.handles,
            state.content == fanout.content,
            turns(outcomes) == (state.next as nat, state.retried),
            posts_of(transport, &fanout.content, fanout.handles@, outcomes),
            gone@ == gone_after(outcomes),
            had_retry(outcomes) ==> step is Retry || call_ensures(
                T::pause,
                (transport, RETRY_DELAY_MS),
                (),
            ),
            match step {
                FanoutStep::Post(i) => i == state.next && state.under_way(),
                FanoutStep::Retry(i) => i == state.next && state.under_way() && state.retried,
                FanoutStep::Finished => state.next == state.handles@.len() && !state.retried,
            },
        decreases
                2 * (state.handles@.len() - state.next) - if state.retried {
                    1int
                } else {
                    0int
                },
    {
        let at: usize = state.next;
        if let FanoutStep::Retry(_) = step {
            transport.pause(RETRY_DELAY_MS);
        }
        let handle = state.handles[at].as_str();
        let outcome = transport.send(handle, &state.content);
        proof {
            assert(call_ensures(T::send, (transport, handle, &state.content), outcome));
            lemma_one_more_post(transport, &fanout.content, fanout.handles@, outcomes, outcome);
            lemma_one_more_outcome(outcomes, outcome);
            outcomes = outcomes.push(outcome);
        }
        let (next, prune) = state.posted(outcome);
        if let Some(i) = prune {
            gone.push(i);
        }
        step = next;
    }
    gone
}

/// What the notifier hears.
#[derive(Debug)]
pub enum Heard {
    /// An event on the bus.
    Event(MuxEvent),
    /// Events were missed, this many.
    Lagged(u64),
    /// The bus is closed.
    Closed,
    /// The flag to end changed to this value; none if nobody can set it any more.
    Shutdown(Option<bool>),
}

/// What the notifier does about it.
#[derive(Debug)]
pub enum NotifierStep {
    /// Go on.
    Continue,
    /// Hand this to [`handle_event`], with the devices read anew.
    Handle(AgentStatusChanged),
    /// End.
    Stop,
}

/// What the notifier does. Missed events are no reason to end: a status is a state, and
/// the next event or resync brings it.
pub fn notifier_step(heard: Heard) -> (step: NotifierStep)
    ensures
        match heard {
            Heard::Event(MuxEvent::AgentStatusChanged(ev)) => step == NotifierStep::Handle(ev),
            Heard::Event(MuxEvent::LayoutChanged(_)) => step is Continue,
            Heard::Lagged(_) => step is Continue,
            Heard::Closed => step is Stop,
            Heard::Shutdown(flag) => if flag == Some(false) {
                step is Continue
            } else {
                step is Stop
            },
        },
{
    match heard {
        Heard::Event(MuxEvent::AgentStatusChanged(ev)) => NotifierStep::Handle(ev),
        Heard::Event(MuxEvent::LayoutChanged(_)) => NotifierStep::Continue,
        Heard::Lagged(_) => NotifierStep::Continue,
        Heard::Closed => NotifierStep::Stop,
        Heard::Shutdown(Some(false)) => NotifierStep::Continue,
        Heard::Shutdown(_) => NotifierStep::Stop,
    }
}

// ----------------------------------------------------------------------- laws

/// What is sent does not depend on the title of the pane, which may show what the
/// terminal holds.
pub proof fn law_the_title_is_never_sent(
    kind: TriggerKind,
    a: AgentStatusChanged,
    b: AgentStatusChanged,
    verbosity: Seq<char>,
    content: NotifyContent,
)
    requires
        a.workspace_id@ == b.workspace_id@,
        a.workspace_name == b.workspace_name,
        content.is_for(kind, a, verbosity),
    ensures
        content.is_for(kind, b, verbosity),
{
}

/// The generic verbosity does not even name the workspace: what is sent depends on
/// nothing but what happened.
pub proof fn law_generic_content_names_nothing(
    kind: TriggerKind,
    a: AgentStatusChanged,
    b: AgentStatusChanged,
    content: NotifyContent,
)
    requires
        content.is_for(kind, a, "generic"@),
    ensures
        content.is_for(kind, b, "generic"@),
{
}

/// Without a device nothing goes out, and nothing is noted as sent.
pub proof fn law_no_device_no_traffic(
    ev: AgentStatusChanged,
    sent: Seq<Sent>,
    window: u64,
    now: u64,
)
    ensures
        !goes_out(ev, Seq::empty(), sent, window, now),
{
}

/// A notification that was just sent is held back until the window has passed, and is
/// sent again after it.
pub proof fn law_a_repetition_is_held_back_for_the_window(
    sent: Seq<Sent>,
    window: u64,
    pane: u32,
    kind: TriggerKind,
    now: u64,
    later: u64,
)
    requires
        !held_back(sent, window, pane, kind, now),
        now <= later,
        forall|i: int| 0 <= i < sent.len() ==> (#[trigger] sent[i]).at <= now,
    ensures
        held_back(sent_after(sent, window, pane, kind, now), window, pane, kind, later)
            <==> later - now < window,
{
    let next = sent_after(sent, window, pane, kind, now);
    let p = is_recent(now, window);
    lemma_filter_meaning(sent, p);
    let last = next.len() - 1;
    assert(next[last] == (Sent { pane, kind, at: now }));
    if later - now < window {
        assert(is_about(next[last], pane, kind) && is_recent(later, window)(next[last]));
    }
    if held_back(next, window, pane, kind, later) {
        let i = choose|i: int|
            0 <= i < next.len() && is_about(#[trigger] next[i], pane, kind) && is_recent(
                later,
                window,
            )(next[i]);
        if i < last {
            assert(sent.filter(p)[i] == next[i]);
            assert(sent.filter(p).contains(next[i]));
            let j = choose|j: int| 0 <= j < sent.len() && sent[j] == next[i];
            assert(is_about(sent[j], pane, kind) && p(sent[j]));
        }
    }
}

/// A decision about one pane and kind changes nothing for another pane or kind: that an
/// agent has finished is never held back because it was blocked before.
pub proof fn law_other_notifications_are_not_held_back(
    sent: Seq<Sent>,
    window: u64,
    pane: u32,
    kind: TriggerKind,
    now: u64,
    other_pane: u32,
    other_kind: TriggerKind,
)
    requires
        other_pane != pane || other_kind != kind,
    ensures
        held_back(sent_after(sent, window, pane, kind, now), window, other_pane, other_kind, now)
            <==> held_back(sent, window, other_pane, other_kind, now),
{
    let next = sent_after(sent, window, pane, kind, now);
    let p = is_recent(now, window);
    lemma_filter_meaning(sent, p);
    if held_back(sent, window, other_pane, other_kind, now) {
        let i = choose|i: int|
            0 <= i < sent.len() && is_about(#[trigger] sent[i], other_pane, other_kind) && p(
                sent[i],
            );
        assert(sent.contains(sent[i]));
        assert(sent.filter(p).contains(sent[i]));
        let j = choose|j: int| 0 <= j < sent.filter(p).len() && sent.filter(p)[j] == sent[i];
        assert(next[j] == sent[i]);
        assert(is_about(next[j], other_pane, other_kind));
    }
    if held_back(next, window, other_pane, other_kind, now) {
        let i = choose|i: int|
            0 <= i < next.len() && is_about(#[trigger] next[i], other_pane, other_kind) && p(
                next[i],
            );
        assert(i < sent.filter(p).len());
        assert(sent.filter(p).contains(sent.filter(p)[i]));
        let j = choose|j: int| 0 <= j < sent.len() && sent[j] == next[i];
        assert(is_about(sent[j], other_pane, other_kind));
    }
}

/// Nothing older than the window is remembered.
pub proof fn law_the_debounce_forgets(
    sent: Seq<Sent>,
    window: u64,
    pane: u32,
    kind: TriggerKind,
    now: u64,
    i: int,
)
    requires
        window > 0,
        0 <= i < sent_after(sent, window, pane, kind, now).len(),
    ensures
        since(now, sent_after(sent, window, pane, kind, now)[i].at) < window,
{
    let p = is_recent(now, window);
    lemma_filter_meaning(sent, p);
    if i < sent.filter(p).len() {
        assert(p(sent.filter(p)[i]));
    }
}

/// Whose turn it is after several posts.
pub open spec fn turns(outcomes: Seq<SendOutcome>) -> (nat, bool)
    decreases outcomes.len(),
{
    if outcomes.len() == 0 {
        (0, false)
    } else {
        turn(turns(outcomes.drop_last()), outcomes.last())
    }
}

/// Every device is posted to once or twice, whatever the relay answers: after so many
/// posts at least half as many devices had their turn, and at most as many.
pub proof fn law_each_device_gets_one_post_or_two(outcomes: Seq<SendOutcome>)
    ensures
        turns(outcomes).0 <= outcomes.len(),
        outcomes.len() <= 2 * turns(outcomes).0 + if turns(outcomes).1 {
            1int
        } else {
            0int
        },
    decreases outcomes.len(),
{
    if outcomes.len() > 0 {
        law_each_device_gets_one_post_or_two(outcomes.drop_last());
    }
}

/// A post that did not fail in passing is never repeated, and a failed one is repeated
/// at most once.
pub proof fn law_one_retry_at_most(at: nat, first: SendOutcome, second: SendOutcome)
    ensures
        turn((at, false), first) == if first is Transient {
            (at, true)
        } else {
            (at + 1, false)
        },
        turn((at, true), second) == (at + 1, false),
{
}

} // verus!
