//! The event kernel: two subscriptions to herdr, kept up side by side.
//!
//! The lifecycle connection subscribes to panes coming and going; it takes no pane
//! ids and is complete once acknowledged. The agent-status connection subscribes per
//! pane, so it covers a set of panes and has to be built anew when a pane appears
//! outside that set. The lifecycle connection is always up first: whatever happens
//! while the panes are enumerated is then announced on it and not lost.
//!
//! The kernel is a state machine. Whoever runs it performs what [`Kernel::carry_on`]
//! names, hands the outcome back, and waits or drains as told. Times are milliseconds
//! of a clock that never runs backwards.

use vstd::arithmetic::power2::{lemma2_to64, lemma_pow2_unfold, pow2};
use vstd::prelude::*;
use vstd::string::*;

use std::collections::HashMap;

use super::json::json_value_at;
use super::listing::{AllPanes};
use super::panes::{
    bootstrap_pane_set, changes_of, pane_needs_widening, pane_set_after, widens, PaneSet,
};
use super::pushed::{
    acknowledges, agent_status_entries, agent_status_request_line, classify_pushed, fields_of,
    is_subscription_ack, meaning, neutral, registry_after, subscribe_error, subscribe_line, texts,
    Meaning, Pushed, AGENT_STATUS_REQUEST_ID,
};
use super::registry::{knows_pane, pane_id_of, HerdrPaneRegistry, PaneKey};
use super::resync::{
    build_resync_events, change_seq, known_after, moved, observe_all, unannounced,
    watchdog_verdict, Listed, Verdict,
};
use crate::multiplexer::events::{AgentStatus, AgentStatusChanged, StatusChange};
use crate::seqs::lemma_filter_step;
use crate::text::{trim_end, trimmed_end};

verus! {

broadcast use vstd::std_specs::hash::group_hash_axioms;

// --------------------------------------------------------------------- tuning

/// First wait after a connection was lost.
pub const INITIAL_BACKOFF_MS: u64 = 1_000;

/// Longest wait after a connection was lost.
pub const MAX_BACKOFF_MS: u64 = 60_000;

/// A connection that was up this long was stable: its waits start over.
pub const STABLE_THRESHOLD_MS: u64 = 60_000;

/// Longest wait for the acknowledgement of a subscription.
pub const ACK_TIMEOUT_MS: u64 = 10_000;

/// How long announcements are gathered before the agent-status connection is built
/// anew, so that a burst of new panes costs one rebuild.
pub const GROW_COALESCE_WINDOW_MS: u64 = 250;

/// The stretch of time over which rebuilds are counted.
pub const GROW_STORM_WINDOW_MS: u64 = 30_000;

/// More rebuilds than this within that stretch are a storm.
pub const GROW_STORM_THRESHOLD: usize = 8;

/// Time between two liveness probes.
pub const LIVENESS_PROBE_INTERVAL_MS: u64 = 60_000;

/// How many probes in a row must suspect a connection before it is given up.
pub const LIVENESS_STRIKES: u32 = 2;

/// All times and thresholds of the kernel.
#[derive(Debug, Clone, Copy, PartialEq, Eq, Structural)]
pub struct Tuning {
    pub initial_backoff: u64,
    pub max_backoff: u64,
    pub stable_threshold: u64,
    pub ack_timeout: u64,
    pub grow_coalesce_window: u64,
    pub grow_storm_window: u64,
    pub grow_storm_threshold: usize,
    pub probe_interval: u64,
    pub probe_strikes: u32,
}

impl Default for Tuning {
    fn default() -> (t: Self)
        ensures
            t.initial_backoff == INITIAL_BACKOFF_MS,
            t.max_backoff == MAX_BACKOFF_MS,
            t.stable_threshold == STABLE_THRESHOLD_MS,
            t.ack_timeout == ACK_TIMEOUT_MS,
            t.grow_coalesce_window == GROW_COALESCE_WINDOW_MS,
            t.grow_storm_window == GROW_STORM_WINDOW_MS,
            t.grow_storm_threshold == GROW_STORM_THRESHOLD,
            t.probe_interval == LIVENESS_PROBE_INTERVAL_MS,
            t.probe_strikes == LIVENESS_STRIKES,
    {
        Tuning {
            initial_backoff: INITIAL_BACKOFF_MS,
            max_backoff: MAX_BACKOFF_MS,
            stable_threshold: STABLE_THRESHOLD_MS,
            ack_timeout: ACK_TIMEOUT_MS,
            grow_coalesce_window: GROW_COALESCE_WINDOW_MS,
            grow_storm_window: GROW_STORM_WINDOW_MS,
            grow_storm_threshold: GROW_STORM_THRESHOLD,
            probe_interval: LIVENESS_PROBE_INTERVAL_MS,
            probe_strikes: LIVENESS_STRIKES,
        }
    }
}

/// The wait after `prev`: twice as long, but no longer than `max`.
pub open spec fn backoff_after(prev: u64, max: u64) -> u64 {
    if 2 * prev <= max {
        (2 * prev) as u64
    } else {
        max
    }
}

/// The wait after `prev`: twice as long, but no longer than `max`.
pub fn next_backoff(prev: u64, max: u64) -> (b: u64)
    ensures
        b == backoff_after(prev, max),
{
    if prev <= max / 2 {
        prev * 2
    } else {
        max
    }
}

/// Time from `then` to `now`, none if `then` is later.
pub open spec fn since(now: u64, then: u64) -> int {
    if now >= then {
        now - then
    } else {
        0
    }
}

fn elapsed(now: u64, then: u64) -> (t: u64)
    ensures
        t == since(now, then),
{
    if now >= then {
        now - then
    } else {
        0
    }
}

/// Whether a rebuild at a given time still counts.
pub open spec fn recent(now: u64, window: u64) -> spec_fn(u64) -> bool {
    |t: u64| since(now, t) < window
}

/// The rebuilds that count, after one more.
pub open spec fn recorded(history: Seq<u64>, now: u64, window: u64) -> Seq<u64> {
    history.filter(recent(now, window)).push(now)
}

/// Records a rebuild and says whether there were too many lately.
pub fn record_grow_and_check_storm(
    history: &mut Vec<u64>,
    now: u64,
    window: u64,
    threshold: usize,
) -> (storm: bool)
    ensures
        final(history)@ == recorded(old(history)@, now, window),
        storm == (recorded(old(history)@, now, window).len() > threshold),
{
    let ghost p = recent(now, window);
    let mut kept: Vec<u64> = Vec::new();
    let n: usize = history.len();
    let mut i: usize = 0;
    proof {
        reveal(Seq::filter);
        assert(history@.take(0).filter(p) =~= kept@);
    }
    while i < n
        invariant
            i <= n,
            n == history@.len(),
            p == recent(now, window),
            kept@ == history@.take(i as int).filter(p),
        decreases n - i,
    {
        proof {
            lemma_filter_step(history@, p, i as int);
        }
        let t: u64 = history[i];
        if elapsed(now, t) < window {
            kept.push(t);
        }
        i = i + 1;
    }
    proof {
        assert(history@.take(n as int) =~= history@);
    }
    kept.push(now);
    *history = kept;
    history.len() > threshold
}

// ---------------------------------------------------------------------- state

/// When a connection came up, and when it last delivered anything.
#[derive(Debug, Clone, Copy, PartialEq, Eq, Structural)]
pub struct ConnTimes {
    pub opened: u64,
    pub last_event: u64,
}

/// How often in a row each connection was suspected.
#[derive(Debug, Clone, Copy, PartialEq, Eq, Structural)]
pub struct Strikes {
    pub lifecycle: u32,
    pub status: u32,
}

/// No suspicion.
pub open spec fn no_strikes() -> Strikes {
    Strikes { lifecycle: 0, status: 0 }
}

/// The kernel. Only what it decides by is here; the connections themselves are with
/// whoever runs it.
#[derive(Debug)]
pub struct Kernel {
    tuning: Tuning,
    lifecycle: Option<ConnTimes>,
    status: Option<ConnTimes>,
    subscribed: PaneSet,
    lifecycle_backoff: u64,
    status_backoff: u64,
    grow_history: Vec<u64>,
    strikes: Strikes,
    last_status: HashMap<u32, AgentStatus>,
}

/// What a [`Kernel`] is mathematically.
#[verifier::ext_equal]
pub struct KernelState {
    pub tuning: Tuning,
    /// The lifecycle connection, if it is up.
    pub lifecycle: Option<ConnTimes>,
    /// The agent-status connection, if it is up.
    pub status: Option<ConnTimes>,
    /// The panes that the agent-status connection covers.
    pub subscribed: Set<Seq<char>>,
    pub lifecycle_backoff: u64,
    pub status_backoff: u64,
    /// When the agent-status connection was built anew.
    pub grow_history: Seq<u64>,
    pub strikes: Strikes,
    /// The last known status of each pane.
    pub known: Map<u32, AgentStatus>,
}

impl View for Kernel {
    type V = KernelState;

    closed spec fn view(&self) -> KernelState {
        KernelState {
            tuning: self.tuning,
            lifecycle: self.lifecycle,
            status: self.status,
            subscribed: self.subscribed@,
            lifecycle_backoff: self.lifecycle_backoff,
            status_backoff: self.status_backoff,
            grow_history: self.grow_history@,
            strikes: self.strikes,
            known: self.last_status@,
        }
    }
}

/// A kernel with neither connection up.
pub open spec fn initial_state(tuning: Tuning) -> KernelState {
    KernelState {
        tuning,
        lifecycle: None,
        status: None,
        subscribed: Set::empty(),
        lifecycle_backoff: tuning.initial_backoff,
        status_backoff: tuning.initial_backoff,
        grow_history: Seq::empty(),
        strikes: no_strikes(),
        known: Map::empty(),
    }
}

/// What the kernel wants next.
#[derive(Debug, Clone, Copy, PartialEq, Eq, Structural)]
pub enum Task {
    /// End.
    Stop,
    /// Bring the lifecycle connection up, and report to
    /// [`Kernel::lifecycle_brought`].
    ConnectLifecycle,
    /// Bring the agent-status connection up, and report to [`Kernel::status_brought`].
    ConnectStatus,
    /// Read both connections until [`Kernel::pump_tick`] ends it, and report to
    /// [`Kernel::pumped`].
    Pump,
}

/// What came of bringing a connection up.
#[derive(Debug, Clone, Copy, PartialEq, Eq, Structural)]
pub enum Bring {
    /// The kernel is to end.
    Shutdown,
    /// It did not come up.
    Failed,
    /// The lifecycle connection was lost meanwhile.
    LifecycleLost,
    /// It is up, since this time.
    Ready { opened: u64 },
}

/// What ended the reading of both connections.
#[derive(Debug, Clone, Copy, PartialEq, Eq, Structural)]
pub enum PumpEnd {
    /// The kernel is to end.
    Shutdown,
    /// The lifecycle connection is lost or given up.
    LifecycleLost,
    /// The agent-status connection is lost or given up.
    StatusLost,
    /// A pane appeared that the agent-status connection does not cover.
    Widen,
}

/// What ended the gathering of announcements.
#[derive(Debug, Clone, Copy, PartialEq, Eq, Structural)]
pub enum Drain {
    /// The time is over.
    Done,
    /// The lifecycle connection is lost.
    Lost,
    /// The kernel is to end.
    Shutdown,
}

/// One of the two connections.
#[derive(Debug, Clone, Copy, PartialEq, Eq, Structural)]
pub enum Watcher {
    Lifecycle,
    Status,
}

/// A wait before a connection is tried again.
#[derive(Debug, Clone, Copy, PartialEq, Eq, Structural)]
pub struct Wait {
    /// The connection whose waits grow by it.
    pub watcher: Watcher,
    pub millis: u64,
    /// Another wait follows, for a storm.
    pub storm: bool,
}

/// What follows an outcome.
#[derive(Debug, Clone, Copy, PartialEq, Eq, Structural)]
pub enum Next {
    /// Ask [`Kernel::carry_on`].
    Go,
    /// End.
    Stop,
    /// Wait, and report to [`Kernel::waited`].
    Wait(Wait),
    /// Gather announcements this long with [`Kernel::drain_tick`], and report to
    /// [`Kernel::drained`].
    Drain { millis: u64, storm: bool },
}

// ---------------------------------------------------------------- transitions

/// What a kernel wants next.
pub open spec fn task_of(s: KernelState, shutdown: bool) -> Task {
    if shutdown {
        Task::Stop
    } else if s.lifecycle is None {
        Task::ConnectLifecycle
    } else if s.status is None {
        Task::ConnectStatus
    } else {
        Task::Pump
    }
}

/// The wait after a connection was lost at `now`: after a stable session, the first
/// one again.
pub open spec fn wait_after(t: Tuning, backoff: u64, lost: Option<ConnTimes>, now: u64) -> u64 {
    if lost matches Some(c) && since(now, c.opened) >= t.stable_threshold {
        t.initial_backoff
    } else {
        backoff
    }
}

/// The lifecycle connection is lost at `now`. The agent-status connection is built
/// anew only once there is a lifecycle connection again.
pub open spec fn lose_lifecycle(s: KernelState, now: u64, storm: bool) -> (KernelState, Next) {
    let millis = wait_after(s.tuning, s.lifecycle_backoff, s.lifecycle, now);
    (
        KernelState { lifecycle: None, lifecycle_backoff: millis, ..s },
        Next::Wait(Wait { watcher: Watcher::Lifecycle, millis, storm }),
    )
}

/// The agent-status connection is lost at `now`.
pub open spec fn lose_status(s: KernelState, now: u64) -> (KernelState, Next) {
    let millis = wait_after(s.tuning, s.status_backoff, s.status, now);
    (
        KernelState { status: None, status_backoff: millis, ..s },
        Next::Wait(Wait { watcher: Watcher::Status, millis, storm: false }),
    )
}

/// The lifecycle connection was to be brought up. A fresh one means that the
/// agent-status connection has to be a fresh one too.
pub open spec fn after_lifecycle(s: KernelState, outcome: Bring) -> (KernelState, Next) {
    match outcome {
        Bring::Shutdown => (s, Next::Stop),
        Bring::Failed | Bring::LifecycleLost => (
            s,
            Next::Wait(
                Wait { watcher: Watcher::Lifecycle, millis: s.lifecycle_backoff, storm: false },
            ),
        ),
        Bring::Ready { opened } => (
            KernelState {
                lifecycle: Some(ConnTimes { opened, last_event: opened }),
                status: None,
                subscribed: Set::empty(),
                strikes: no_strikes(),
                ..s
            },
            Next::Go,
        ),
    }
}

/// The agent-status connection was to be brought up.
pub open spec fn after_status(s: KernelState, outcome: Bring, now: u64) -> (KernelState, Next) {
    match outcome {
        Bring::Shutdown => (s, Next::Stop),
        Bring::LifecycleLost => lose_lifecycle(s, now, false),
        Bring::Failed => (
            s,
            Next::Wait(Wait { watcher: Watcher::Status, millis: s.status_backoff, storm: false }),
        ),
        Bring::Ready { opened } => (
            KernelState {
                status: Some(ConnTimes { opened, last_event: opened }),
                strikes: no_strikes(),
                ..s
            },
            Next::Go,
        ),
    }
}

/// Both connections were read until something ended it.
pub open spec fn after_pump(s: KernelState, end: PumpEnd, now: u64) -> (KernelState, Next) {
    match end {
        PumpEnd::Shutdown => (s, Next::Stop),
        PumpEnd::LifecycleLost => lose_lifecycle(s, now, false),
        PumpEnd::StatusLost => lose_status(s, now),
        PumpEnd::Widen => {
            let history = recorded(s.grow_history, now, s.tuning.grow_storm_window);
            (
                KernelState { status: None, grow_history: history, ..s },
                Next::Drain {
                    millis: s.tuning.grow_coalesce_window,
                    storm: history.len() > s.tuning.grow_storm_threshold,
                },
            )
        },
    }
}

/// The wait that a storm calls for.
pub open spec fn storm_wait(s: KernelState) -> Next {
    Next::Wait(Wait { watcher: Watcher::Status, millis: s.status_backoff, storm: false })
}

/// Announcements were gathered.
pub open spec fn after_drain(s: KernelState, outcome: Drain, storm: bool, now: u64) -> (
    KernelState,
    Next,
) {
    match outcome {
        Drain::Shutdown => (s, Next::Stop),
        Drain::Lost => lose_lifecycle(s, now, storm),
        Drain::Done => (
            s,
            if storm {
                storm_wait(s)
            } else {
                Next::Go
            },
        ),
    }
}

/// A wait is over, or was interrupted.
pub open spec fn after_wait(s: KernelState, wait: Wait, interrupted: bool) -> (KernelState, Next) {
    if interrupted {
        (s, Next::Stop)
    } else {
        let next = match wait.watcher {
            Watcher::Lifecycle => KernelState {
                lifecycle_backoff: backoff_after(s.lifecycle_backoff, s.tuning.max_backoff),
                ..s
            },
            Watcher::Status => KernelState {
                status_backoff: backoff_after(s.status_backoff, s.tuning.max_backoff),
                ..s
            },
        };
        (
            next,
            if wait.storm {
                storm_wait(next)
            } else {
                Next::Go
            },
        )
    }
}

impl Kernel {
    /// A kernel with neither connection up.
    pub fn new(tuning: Tuning) -> (k: Self)
        ensures
            k@ == initial_state(tuning),
    {
        let k = Kernel {
            tuning,
            lifecycle: None,
            status: None,
            subscribed: PaneSet::new(),
            lifecycle_backoff: tuning.initial_backoff,
            status_backoff: tuning.initial_backoff,
            grow_history: Vec::new(),
            strikes: Strikes { lifecycle: 0, status: 0 },
            last_status: HashMap::new(),
        };
        proof {
            assert(k@ =~= initial_state(tuning));
        }
        k
    }

    /// What the kernel wants next.
    pub fn carry_on(&self, shutdown: bool) -> (t: Task)
        ensures
            t == task_of(self@, shutdown),
    {
        if shutdown {
            Task::Stop
        } else if self.lifecycle.is_none() {
            Task::ConnectLifecycle
        } else if self.status.is_none() {
            Task::ConnectStatus
        } else {
            Task::Pump
        }
    }

    /// How long a wait for an acknowledgement may take, and how far apart probes are.
    pub fn timings(&self) -> (t: Tuning)
        ensures
            t == self@.tuning,
    {
        self.tuning
    }

    /// The wait before a lost connection is tried again.
    fn back_off(&self, backoff: u64, lost: Option<ConnTimes>, now: u64) -> (millis: u64)
        ensures
            millis == wait_after(self@.tuning, backoff, lost, now),
    {
        match lost {
            Some(c) => if elapsed(now, c.opened) >= self.tuning.stable_threshold {
                self.tuning.initial_backoff
            } else {
                backoff
            },
            None => backoff,
        }
    }

    fn lifecycle_lost(&mut self, now: u64, storm: bool) -> (n: Next)
        ensures
            (final(self)@, n) == lose_lifecycle(old(self)@, now, storm),
    {
        let millis: u64 = self.back_off(self.lifecycle_backoff, self.lifecycle, now);
        self.lifecycle = None;
        self.lifecycle_backoff = millis;
        Next::Wait(Wait { watcher: Watcher::Lifecycle, millis, storm })
    }

    fn status_lost(&mut self, now: u64) -> (n: Next)
        ensures
            (final(self)@, n) == lose_status(old(self)@, now),
    {
        let millis: u64 = self.back_off(self.status_backoff, self.status, now);
        self.status = None;
        self.status_backoff = millis;
        Next::Wait(Wait { watcher: Watcher::Status, millis, storm: false })
    }

    /// The lifecycle connection was to be brought up.
    pub fn lifecycle_brought(&mut self, outcome: Bring) -> (n: Next)
        ensures
            (final(self)@, n) == after_lifecycle(old(self)@, outcome),
    {
        match outcome {
            Bring::Shutdown => Next::Stop,
            Bring::Failed | Bring::LifecycleLost => Next::Wait(
                Wait {
                    watcher: Watcher::Lifecycle,
                    millis: self.lifecycle_backoff,
                    storm: false,
                },
            ),
            Bring::Ready { opened } => {
                self.lifecycle = Some(ConnTimes { opened, last_event: opened });
                self.status = None;
                self.subscribed.clear();
                self.strikes = Strikes { lifecycle: 0, status: 0 };
                Next::Go
            },
        }
    }

    /// The agent-status connection was to be brought up.
    pub fn status_brought(&mut self, outcome: Bring, now: u64) -> (n: Next)
        ensures
            (final(self)@, n) == after_status(old(self)@, outcome, now),
    {
        match outcome {
            Bring::Shutdown => Next::Stop,
            Bring::LifecycleLost => self.lifecycle_lost(now, false),
            Bring::Failed => Next::Wait(
                Wait { watcher: Watcher::Status, millis: self.status_backoff, storm: false },
            ),
            Bring::Ready { opened } => {
                self.status = Some(ConnTimes { opened, last_event: opened });
                self.strikes = Strikes { lifecycle: 0, status: 0 };
                Next::Go
            },
        }
    }

    /// Both connections were read until something ended it.
    pub fn pumped(&mut self, end: PumpEnd, now: u64) -> (n: Next)
        ensures
            (final(self)@, n) == after_pump(old(self)@, end, now),
    {
        match end {
            PumpEnd::Shutdown => Next::Stop,
            PumpEnd::LifecycleLost => self.lifecycle_lost(now, false),
            PumpEnd::StatusLost => self.status_lost(now),
            PumpEnd::Widen => {
                self.status = None;
                let storm = record_grow_and_check_storm(
                    &mut self.grow_history,
                    now,
                    self.tuning.grow_storm_window,
                    self.tuning.grow_storm_threshold,
                );
                Next::Drain { millis: self.tuning.grow_coalesce_window, storm }
            },
        }
    }

    /// Announcements were gathered.
    pub fn drained(&mut self, outcome: Drain, storm: bool, now: u64) -> (n: Next)
        ensures
            (final(self)@, n) == after_drain(old(self)@, outcome, storm, now),
    {
        match outcome {
            Drain::Shutdown => Next::Stop,
            Drain::Lost => self.lifecycle_lost(now, storm),
            Drain::Done => if storm {
                Next::Wait(
                    Wait { watcher: Watcher::Status, millis: self.status_backoff, storm: false },
                )
            } else {
                Next::Go
            },
        }
    }

    /// A wait is over, or was interrupted.
    pub fn waited(&mut self, wait: Wait, interrupted: bool) -> (n: Next)
        ensures
            (final(self)@, n) == after_wait(old(self)@, wait, interrupted),
    {
        if interrupted {
            return Next::Stop;
        }
        match wait.watcher {
            Watcher::Lifecycle => {
                self.lifecycle_backoff =
                next_backoff(self.lifecycle_backoff, self.tuning.max_backoff);
            },
            Watcher::Status => {
                self.status_backoff = next_backoff(self.status_backoff, self.tuning.max_backoff);
            },
        }
        if wait.storm {
            Next::Wait(
                Wait { watcher: Watcher::Status, millis: self.status_backoff, storm: false },
            )
        } else {
            Next::Go
        }
    }
}

// ----------------------------------------------- opening a subscription

/// Something happened while an acknowledgement is awaited.
#[derive(Debug)]
pub enum AckTick {
    /// The kernel is to end.
    Shutdown,
    /// The time is over.
    Timeout,
    /// A line, or the end of the stream.
    Line(Option<String>),
}

/// What follows while an acknowledgement is awaited.
#[derive(Debug, PartialEq, Eq)]
pub enum AckStep {
    /// Go on waiting.
    Continue,
    /// The subscription stands.
    Acked,
    /// herdr refused, with this error.
    Refused(String),
    /// It came to nothing.
    Failed,
    /// The kernel is to end.
    Shutdown,
}

/// What follows a line, once it is known whether it acknowledges the subscription and
/// whether it holds an error. A line that does neither is passed over.
pub fn ack_line(acknowledged: bool, error: Option<String>) -> (step: AckStep)
    ensures
        match (acknowledged, error) {
            (true, _) => step == AckStep::Acked,
            (false, Some(e)) => step matches AckStep::Refused(t) && t@ == e@,
            (false, None) => step == AckStep::Continue,
        },
{
    if acknowledged {
        return AckStep::Acked;
    }
    match error {
        Some(e) => AckStep::Refused(e),
        None => AckStep::Continue,
    }
}

/// What follows while an acknowledgement is awaited.
pub fn ack_tick(tick: AckTick) -> (step: AckStep)
    ensures
        match tick {
            AckTick::Shutdown => step == AckStep::Shutdown,
            AckTick::Timeout | AckTick::Line(None) => step == AckStep::Failed,
            AckTick::Line(Some(line)) => {
                let text = trimmed_end(line@);
                if acknowledges(text) {
                    step == AckStep::Acked
                } else {
                    match json_value_at(text, "/error"@) {
                        Some(e) => step matches AckStep::Refused(t) && t@ == e,
                        None => step == AckStep::Continue,
                    }
                }
            },
        },
{
    match tick {
        AckTick::Shutdown => AckStep::Shutdown,
        AckTick::Timeout => AckStep::Failed,
        AckTick::Line(None) => AckStep::Failed,
        AckTick::Line(Some(line)) => {
            let text = trim_end(line.as_str());
            let acknowledged = is_subscription_ack(text);
            let error = subscribe_error(text);
            ack_line(acknowledged, error)
        },
    }
}

// -------------------------------------- bringing the agent-status connection up

/// Something happened while the panes are enumerated.
#[derive(Debug)]
pub enum EnumTick {
    /// The kernel is to end.
    Shutdown,
    /// The enumeration is over: the panes, or why there are none.
    Enumerated(Result<Vec<String>, String>),
    /// A line on the lifecycle connection, or its end.
    Line(Option<String>),
}

/// What follows while the panes are enumerated.
#[derive(Debug)]
pub enum EnumStep {
    /// Go on.
    Continue,
    /// Subscribe to these panes with this request.
    Subscribe { pane_ids: Vec<String>, request: String },
    /// It came to nothing.
    End(Bring),
}

/// A connection that delivered something at `now`.
pub open spec fn marked(c: Option<ConnTimes>, now: u64) -> Option<ConnTimes> {
    match c {
        Some(t) => Some(ConnTimes { opened: t.opened, last_event: now }),
        None => None,
    }
}

fn mark_event(c: Option<ConnTimes>, now: u64) -> (r: Option<ConnTimes>)
    ensures
        r == marked(c, now),
{
    match c {
        Some(t) => Some(ConnTimes { opened: t.opened, last_event: now }),
        None => None,
    }
}

impl Kernel {
    /// What follows while the panes are enumerated. Lines of the lifecycle connection
    /// are held back until the enumeration is over, and then taken into account.
    pub fn enum_tick(&mut self, buffered: &mut Vec<String>, tick: EnumTick, now: u64) -> (step:
        EnumStep)
        ensures
            match tick {
                EnumTick::Shutdown => step == EnumStep::End(Bring::Shutdown) && final(self)@
                    == old(self)@ && final(buffered)@ == old(buffered)@,
                EnumTick::Enumerated(Err(_)) => step == EnumStep::End(Bring::Failed) && final(self)@ == old(self)@ && final(buffered)@ == old(buffered)@,
                EnumTick::Line(None) => step == EnumStep::End(Bring::LifecycleLost) && final(self)@ == old(self)@ && final(buffered)@ == old(buffered)@,
                EnumTick::Line(Some(line)) => {
                    &&& step == EnumStep::Continue
                    &&& final(self)@ == (KernelState {
                        lifecycle: marked(old(self)@.lifecycle, now),
                        ..old(self)@
                    })
                    &&& final(buffered)@ == old(buffered)@.push(line)
                },
                EnumTick::Enumerated(Ok(ids)) => {
                    let panes = pane_set_after(
                        texts(ids@),
                        changes_of(texts(old(buffered)@)),
                    );
                    &&& step matches EnumStep::Subscribe { pane_ids, request }
                    &&& texts(pane_ids@) == panes
                    &&& request@ == subscribe_line(
                        AGENT_STATUS_REQUEST_ID@,
                        agent_status_entries(panes),
                    )
                    &&& final(self)@ == old(self)@
                    &&& final(buffered)@ == old(buffered)@
                },
            },
    {
        match tick {
            EnumTick::Shutdown => EnumStep::End(Bring::Shutdown),
            EnumTick::Enumerated(Err(_)) => EnumStep::End(Bring::Failed),
            EnumTick::Enumerated(Ok(ids)) => {
                let pane_ids = bootstrap_pane_set(ids, buffered);
                let request = agent_status_request_line(&pane_ids);
                EnumStep::Subscribe { pane_ids, request }
            },
            EnumTick::Line(None) => EnumStep::End(Bring::LifecycleLost),
            EnumTick::Line(Some(line)) => {
                self.lifecycle = mark_event(self.lifecycle, now);
                buffered.push(line);
                EnumStep::Continue
            },
        }
    }

    /// The agent-status subscription stands: it covers these panes.
    pub fn status_acked(&mut self, pane_ids: Vec<String>)
        ensures
            final(self)@ == (KernelState {
                subscribed: texts(pane_ids@).to_set(),
                ..old(self)@
            }),
    {
        self.subscribed = PaneSet::of(pane_ids);
    }

    /// Takes what a resync listed: the events to publish. A resync that failed is
    /// passed over.
    pub fn resynced(
        &mut self,
        listing: Result<AllPanes, String>,
        panes: &mut HerdrPaneRegistry,
    ) -> (events: Vec<AgentStatusChanged>)
        requires
            old(panes).wf(),
            listing matches Ok(a) ==> a.complete(),
        ensures
            final(panes).wf(),
            match listing {
                Ok(a) => {
                    let input = listed_of_all(a);
                    &&& final(panes)@ == observe_all(old(panes)@, old(self)@.known, input).reg
                    &&& change_seq(events@) == observe_all(
                        old(panes)@,
                        old(self)@.known,
                        input,
                    ).events
                    &&& final(self)@ == (KernelState {
                        known: known_after(old(panes)@, old(self)@.known, input),
                        ..old(self)@
                    })
                },
                Err(_) => {
                    &&& events@.len() == 0
                    &&& final(panes)@ == old(panes)@
                    &&& final(self)@ == old(self)@
                },
            },
    {
        match listing {
            Ok(all) => {
                let input = all.resync_input();
                build_resync_events(&input, panes, &mut self.last_status)
            },
            Err(_) => Vec::new(),
        }
    }
}

/// What a listing says for a resync.
pub open spec fn listed_of_all(a: AllPanes) -> Seq<Listed> {
    a.all().map_values(
        |r: (super::api::WorkspaceInfo, super::api::PaneInfo)| super::listing::listed_of(r),
    )
}

// -------------------------------------------------------------------- pumping

/// Something happened while both connections are read.
#[derive(Debug)]
pub enum Tick {
    /// The kernel is to end.
    Shutdown,
    /// What came on the lifecycle connection, or its end.
    Lifecycle(Option<Pushed>),
    /// What came on the agent-status connection, or its end.
    Status(Option<Pushed>),
    /// It is time for a probe.
    Probe,
}

/// What follows while both connections are read.
#[derive(Debug)]
pub enum PumpStep {
    /// Go on.
    Continue,
    /// Publish this, and go on.
    Publish(AgentStatusChanged),
    /// Probe, and hand the verdict to [`Kernel::probed`].
    Probe { lifecycle_idle: bool, status_idle: bool },
    /// Stop reading.
    End(PumpEnd),
}

/// What a [`PumpStep`] is mathematically.
pub enum PumpMove {
    Continue,
    Publish(StatusChange),
    Probe { lifecycle_idle: bool, status_idle: bool },
    End(PumpEnd),
}

impl View for PumpStep {
    type V = PumpMove;

    open spec fn view(&self) -> PumpMove {
        match self {
            PumpStep::Continue => PumpMove::Continue,
            PumpStep::Publish(e) => PumpMove::Publish(e@),
            PumpStep::Probe { lifecycle_idle, status_idle } => PumpMove::Probe {
                lifecycle_idle: *lifecycle_idle,
                status_idle: *status_idle,
            },
            PumpStep::End(e) => PumpMove::End(*e),
        }
    }
}

/// The status of a published event is the last known one from now on.
pub open spec fn published(s: KernelState, e: StatusChange) -> (KernelState, PumpMove) {
    (KernelState { known: s.known.insert(e.pane, e.status), ..s }, PumpMove::Publish(e))
}

/// A set without what is gone.
pub open spec fn without_pane(s: Set<Seq<char>>, pane: Option<Seq<char>>) -> Set<Seq<char>> {
    match pane {
        Some(p) => s.remove(p),
        None => s,
    }
}

/// Statuses without those of a pane that is gone.
pub open spec fn without_status(known: Map<u32, AgentStatus>, pane: Option<u32>) -> Map<
    u32,
    AgentStatus,
> {
    match pane {
        Some(id) => known.remove(id),
        None => known,
    }
}

/// What follows a line on the lifecycle connection.
pub open spec fn heard_lifecycle(s: KernelState, m: Meaning, now: u64) -> (KernelState, PumpMove) {
    let at = KernelState { lifecycle: marked(s.lifecycle, now), ..s };
    match m {
        Meaning::PaneCreated(pane) => (
            at,
            if widens(pane, s.subscribed) {
                PumpMove::End(PumpEnd::Widen)
            } else {
                PumpMove::Continue
            },
        ),
        Meaning::PaneGone { herdr_pane_id, pane } => (
            KernelState {
                subscribed: without_pane(s.subscribed, herdr_pane_id),
                known: without_status(s.known, pane),
                ..at
            },
            PumpMove::Continue,
        ),
        Meaning::AgentStatus(e) => published(at, e),
        Meaning::Ignored => (at, PumpMove::Continue),
    }
}

/// What follows a line on the agent-status connection: only statuses count there.
pub open spec fn heard_status(s: KernelState, m: Meaning, now: u64) -> (KernelState, PumpMove) {
    let at = KernelState { status: marked(s.status, now), ..s };
    match m {
        Meaning::AgentStatus(e) => published(at, e),
        _ => (at, PumpMove::Continue),
    }
}

/// Whether a connection delivered nothing for a whole probe interval.
pub open spec fn idle(c: Option<ConnTimes>, t: Tuning, now: u64) -> bool {
    c matches Some(times) && since(now, times.last_event) >= t.probe_interval
}

/// What follows when it is time for a probe: none is needed while both connections
/// deliver.
pub open spec fn probe_due(s: KernelState, now: u64) -> (KernelState, PumpMove) {
    let lifecycle_idle = idle(s.lifecycle, s.tuning, now);
    let status_idle = idle(s.status, s.tuning, now);
    if !lifecycle_idle && !status_idle {
        (KernelState { strikes: no_strikes(), ..s }, PumpMove::Continue)
    } else {
        (s, PumpMove::Probe { lifecycle_idle, status_idle })
    }
}

/// One strike more.
pub open spec fn one_more(n: u32) -> u32 {
    if n == u32::MAX {
        n
    } else {
        (n + 1) as u32
    }
}

/// What follows a probe. A verdict counts against a connection only if that one was
/// idle; no verdict counts for nothing.
pub open spec fn after_probe(
    s: KernelState,
    verdict: Option<Verdict>,
    lifecycle_idle: bool,
    status_idle: bool,
) -> (KernelState, PumpMove) {
    match verdict {
        None => (s, PumpMove::Continue),
        Some(v) => if v is LifecycleWedged && lifecycle_idle {
            let n = one_more(s.strikes.lifecycle);
            (
                KernelState { strikes: Strikes { lifecycle: n, status: 0 }, ..s },
                if n >= s.tuning.probe_strikes {
                    PumpMove::End(PumpEnd::LifecycleLost)
                } else {
                    PumpMove::Continue
                },
            )
        } else if v is StatusWedged && status_idle {
            let n = one_more(s.strikes.status);
            (
                KernelState { strikes: Strikes { lifecycle: 0, status: n }, ..s },
                if n >= s.tuning.probe_strikes {
                    PumpMove::End(PumpEnd::StatusLost)
                } else {
                    PumpMove::Continue
                },
            )
        } else {
            (KernelState { strikes: no_strikes(), ..s }, PumpMove::Continue)
        },
    }
}

/// What follows while both connections are read.
pub open spec fn after_tick(s: KernelState, tick: Tick, now: u64) -> (KernelState, PumpMove) {
    match tick {
        Tick::Shutdown => (s, PumpMove::End(PumpEnd::Shutdown)),
        Tick::Lifecycle(None) => (s, PumpMove::End(PumpEnd::LifecycleLost)),
        Tick::Lifecycle(Some(p)) => heard_lifecycle(s, p@, now),
        Tick::Status(None) => (s, PumpMove::End(PumpEnd::StatusLost)),
        Tick::Status(Some(p)) => heard_status(s, p@, now),
        Tick::Probe => probe_due(s, now),
    }
}

/// The verdict on a listing.
pub open spec fn verdict_on_listing(
    a: AllPanes,
    reg: Seq<PaneKey>,
    subscribed: Set<Seq<char>>,
    known: Map<u32, AgentStatus>,
) -> Verdict {
    let all = a.all();
    if exists|i: int| 0 <= i < all.len() && !subscribed.contains((#[trigger] all[i]).1.pane_id@) {
        Verdict::LifecycleWedged
    } else if exists|i: int|
        0 <= i < all.len() && {
            let pane = (#[trigger] all[i]).1;
            let id = pane_id_of(reg, pane.pane_id@) as u32;
            &&& knows_pane(reg, pane.pane_id@)
            &&& known.dom().contains(id)
            &&& known[id] != neutral(pane.agent_status)
        } {
        Verdict::StatusWedged
    } else {
        Verdict::Healthy
    }
}

impl Kernel {
    /// Takes a status change in, before it is published.
    fn publish(&mut self, e: AgentStatusChanged) -> (step: PumpStep)
        ensures
            (final(self)@, step@) == published(old(self)@, e@),
    {
        self.last_status.insert(e.pane, e.status);
        PumpStep::Publish(e)
    }

    fn lifecycle_pushed(&mut self, pushed: Pushed, now: u64) -> (step: PumpStep)
        ensures
            (final(self)@, step@) == heard_lifecycle(old(self)@, pushed@, now),
    {
        self.lifecycle = mark_event(self.lifecycle, now);
        match pushed {
            Pushed::PaneCreated(pane) => {
                let wider = match &pane {
                    Some(p) => pane_needs_widening(Some(p.as_str()), &self.subscribed),
                    None => pane_needs_widening(None, &self.subscribed),
                };
                if wider {
                    PumpStep::End(PumpEnd::Widen)
                } else {
                    PumpStep::Continue
                }
            },
            Pushed::PaneGone { herdr_pane_id, pane } => {
                if let Some(id) = pane {
                    self.last_status.remove(&id);
                }
                if let Some(p) = herdr_pane_id {
                    self.subscribed.remove(p.as_str());
                }
                PumpStep::Continue
            },
            Pushed::AgentStatus(e) => self.publish(e),
            Pushed::Ignored => PumpStep::Continue,
        }
    }

    fn status_pushed(&mut self, pushed: Pushed, now: u64) -> (step: PumpStep)
        ensures
            (final(self)@, step@) == heard_status(old(self)@, pushed@, now),
    {
        self.status = mark_event(self.status, now);
        match pushed {
            Pushed::AgentStatus(e) => self.publish(e),
            _ => PumpStep::Continue,
        }
    }

    fn is_idle(&self, c: Option<ConnTimes>, now: u64) -> (yes: bool)
        ensures
            yes == idle(c, self@.tuning, now),
    {
        match c {
            Some(times) => elapsed(now, times.last_event) >= self.tuning.probe_interval,
            None => false,
        }
    }

    fn probe_tick(&mut self, now: u64) -> (step: PumpStep)
        ensures
            (final(self)@, step@) == probe_due(old(self)@, now),
    {
        let lifecycle_idle = self.is_idle(self.lifecycle, now);
        let status_idle = self.is_idle(self.status, now);
        if !lifecycle_idle && !status_idle {
            self.strikes = Strikes { lifecycle: 0, status: 0 };
            PumpStep::Continue
        } else {
            PumpStep::Probe { lifecycle_idle, status_idle }
        }
    }

    /// What follows while both connections are read.
    pub fn pump_tick(&mut self, tick: Tick, now: u64) -> (step: PumpStep)
        ensures
            (final(self)@, step@) == after_tick(old(self)@, tick, now),
    {
        match tick {
            Tick::Shutdown => PumpStep::End(PumpEnd::Shutdown),
            Tick::Lifecycle(None) => PumpStep::End(PumpEnd::LifecycleLost),
            Tick::Lifecycle(Some(pushed)) => self.lifecycle_pushed(pushed, now),
            Tick::Status(None) => PumpStep::End(PumpEnd::StatusLost),
            Tick::Status(Some(pushed)) => self.status_pushed(pushed, now),
            Tick::Probe => self.probe_tick(now),
        }
    }

    /// What follows a line on one of the connections.
    pub fn line_tick(
        &mut self,
        watcher: Watcher,
        line: &str,
        panes: &mut HerdrPaneRegistry,
        now: u64,
    ) -> (step: PumpStep)
        requires
            old(panes).wf(),
        ensures
            final(panes).wf(),
            final(panes)@ == registry_after(fields_of(trimmed_end(line@)), old(panes)@),
            ({
                let m = meaning(fields_of(trimmed_end(line@)), old(panes)@);
                (final(self)@, step@) == match watcher {
                    Watcher::Lifecycle => heard_lifecycle(old(self)@, m, now),
                    Watcher::Status => heard_status(old(self)@, m, now),
                }
            }),
    {
        let pushed = classify_pushed(trim_end(line), panes);
        match watcher {
            Watcher::Lifecycle => self.pump_tick(Tick::Lifecycle(Some(pushed)), now),
            Watcher::Status => self.pump_tick(Tick::Status(Some(pushed)), now),
        }
    }

    /// The verdict on what a probe listed; none if the listing failed.
    pub fn liveness_probe(
        &self,
        listing: &Result<AllPanes, String>,
        panes: &HerdrPaneRegistry,
    ) -> (v: Option<Verdict>)
        requires
            panes.wf(),
            *listing matches Ok(a) ==> a.complete(),
        ensures
            v == match listing {
                Ok(a) => Some(verdict_on_listing(*a, panes@, self@.subscribed, self@.known)),
                Err(_) => None,
            },
    {
        match listing {
            Ok(all) => {
                let observed = all.probe_panes(panes);
                let v = watchdog_verdict(&observed, &self.subscribed, &self.last_status);
                proof {
                    let s = self@.subscribed;
                    let k = self@.known;
                    assert forall|i: int| 0 <= i < observed@.len() implies (unannounced(
                        #[trigger] observed@[i],
                        s,
                    ) <==> !s.contains(all.all()[i].1.pane_id@)) by {}
                    if exists|i: int|
                        0 <= i < observed@.len() && unannounced(#[trigger] observed@[i], s) {
                        let i = choose|i: int|
                            0 <= i < observed@.len() && unannounced(#[trigger] observed@[i], s);
                        assert(!s.contains(all.all()[i].1.pane_id@));
                    }
                    if exists|i: int|
                        0 <= i < all.all().len() && !s.contains(
                            (#[trigger] all.all()[i]).1.pane_id@,
                        ) {
                        let i = choose|i: int|
                            0 <= i < all.all().len() && !s.contains(
                                (#[trigger] all.all()[i]).1.pane_id@,
                            );
                        assert(unannounced(observed@[i], s));
                    }
                    if exists|i: int| 0 <= i < observed@.len() && moved(#[trigger] observed@[i], k) {
                        let i = choose|i: int|
                            0 <= i < observed@.len() && moved(#[trigger] observed@[i], k);
                        let pane = all.all()[i].1;
                        assert(knows_pane(panes@, pane.pane_id@));
                    }
                    assert forall|i: int|
                        0 <= i < all.all().len() && {
                            let pane = (#[trigger] all.all()[i]).1;
                            let id = pane_id_of(panes@, pane.pane_id@) as u32;
                            &&& knows_pane(panes@, pane.pane_id@)
                            &&& k.dom().contains(id)
                            &&& k[id] != neutral(pane.agent_status)
                        } implies moved(observed@[i], k) by {}
                }
                Some(v)
            },
            Err(_) => None,
        }
    }

    /// What follows a probe.
    pub fn probed(
        &mut self,
        verdict: Option<Verdict>,
        lifecycle_idle: bool,
        status_idle: bool,
    ) -> (step: PumpStep)
        ensures
            (final(self)@, step@) == after_probe(
                old(self)@,
                verdict,
                lifecycle_idle,
                status_idle,
            ),
    {
        match verdict {
            None => PumpStep::Continue,
            Some(Verdict::LifecycleWedged) if lifecycle_idle => {
                let n: u32 = self.strikes.lifecycle.saturating_add(1);
                self.strikes = Strikes { lifecycle: n, status: 0 };
                if n >= self.tuning.probe_strikes {
                    PumpStep::End(PumpEnd::LifecycleLost)
                } else {
                    PumpStep::Continue
                }
            },
            Some(Verdict::StatusWedged) if status_idle => {
                let n: u32 = self.strikes.status.saturating_add(1);
                self.strikes = Strikes { lifecycle: 0, status: n };
                if n >= self.tuning.probe_strikes {
                    PumpStep::End(PumpEnd::StatusLost)
                } else {
                    PumpStep::Continue
                }
            },
            Some(_) => {
                self.strikes = Strikes { lifecycle: 0, status: 0 };
                PumpStep::Continue
            },
        }
    }

    /// What follows while announcements are gathered: a line of the lifecycle
    /// connection is read and dropped, since the panes are enumerated anew anyway.
    pub fn drain_tick(&mut self, tick: DrainTick, now: u64) -> (end: Option<Drain>)
        ensures
            match tick {
                DrainTick::Shutdown => end == Some(Drain::Shutdown) && final(self)@ == old(self)@,
                DrainTick::Elapsed => end == Some(Drain::Done) && final(self)@ == old(self)@,
                DrainTick::Ended => end == Some(Drain::Lost) && final(self)@ == old(self)@,
                DrainTick::Line => end is None && final(self)@ == (KernelState {
                    lifecycle: marked(old(self)@.lifecycle, now),
                    ..old(self)@
                }),
            },
    {
        match tick {
            DrainTick::Shutdown => Some(Drain::Shutdown),
            DrainTick::Elapsed => Some(Drain::Done),
            DrainTick::Ended => Some(Drain::Lost),
            DrainTick::Line => {
                self.lifecycle = mark_event(self.lifecycle, now);
                None
            },
        }
    }
}

/// Something happened while announcements are gathered.
#[derive(Debug, Clone, Copy, PartialEq, Eq, Structural)]
pub enum DrainTick {
    /// The kernel is to end.
    Shutdown,
    /// The time is over.
    Elapsed,
    /// A line came.
    Line,
    /// The stream ended or failed.
    Ended,
}

// ----------------------------------------------------------------------- laws

/// Anything that the kernel is told.
pub enum Outcome {
    Lifecycle(Bring),
    Status(Bring),
    Pump(PumpEnd),
    Drain(Drain, bool),
    Wait(Wait, bool),
}

/// What follows an outcome.
pub open spec fn advance(s: KernelState, o: Outcome, now: u64) -> (KernelState, Next) {
    match o {
        Outcome::Lifecycle(b) => after_lifecycle(s, b),
        Outcome::Status(b) => after_status(s, b, now),
        Outcome::Pump(e) => after_pump(s, e, now),
        Outcome::Drain(d, storm) => after_drain(s, d, storm, now),
        Outcome::Wait(w, interrupted) => after_wait(s, w, interrupted),
    }
}

/// Both waits are between the first and the longest one.
pub open spec fn waits_in_bounds(s: KernelState) -> bool {
    &&& s.tuning.initial_backoff <= s.lifecycle_backoff <= s.tuning.max_backoff
    &&& s.tuning.initial_backoff <= s.status_backoff <= s.tuning.max_backoff
}

/// No wait is ever shorter than the first one or longer than the longest.
pub proof fn law_waits_stay_in_bounds(s: KernelState, o: Outcome, now: u64)
    requires
        waits_in_bounds(s),
    ensures
        waits_in_bounds(advance(s, o, now).0),
        advance(s, o, now).0.tuning == s.tuning,
        advance(s, o, now).1 matches Next::Wait(w) ==> s.tuning.initial_backoff <= w.millis
            <= s.tuning.max_backoff,
{
}

/// A kernel starts with its waits in bounds, and with everything to do.
pub proof fn law_a_kernel_starts_in_bounds(t: Tuning)
    requires
        t.initial_backoff <= t.max_backoff,
    ensures
        waits_in_bounds(initial_state(t)),
        task_of(initial_state(t), false) == Task::ConnectLifecycle,
{
}

/// The agent-status connection is only ever built, and events are only ever read,
/// with the lifecycle connection up.
pub proof fn law_the_lifecycle_connection_comes_first(s: KernelState, shutdown: bool)
    ensures
        task_of(s, shutdown) is ConnectStatus ==> s.lifecycle is Some,
        task_of(s, shutdown) is Pump ==> s.lifecycle is Some && s.status is Some,
{
}

/// A fresh lifecycle connection means a fresh agent-status connection, which covers
/// nothing until it is built.
pub proof fn law_a_fresh_lifecycle_means_a_fresh_status(s: KernelState, opened: u64)
    ensures
        ({
            let next = after_lifecycle(s, Bring::Ready { opened }).0;
            &&& next.status is None
            &&& next.subscribed == Set::<Seq<char>>::empty()
            &&& next.strikes == no_strikes()
            &&& task_of(next, false) == Task::ConnectStatus
        }),
{
}

/// Whether an outcome is about the agent-status connection alone.
pub open spec fn about_status(o: Outcome) -> bool {
    match o {
        Outcome::Lifecycle(_) => false,
        Outcome::Status(b) => !(b is LifecycleLost),
        Outcome::Pump(e) => !(e is LifecycleLost),
        Outcome::Drain(d, _) => !(d is Lost),
        Outcome::Wait(w, _) => w.watcher is Status,
    }
}

/// Trouble with the agent-status connection, a storm included, never touches the
/// lifecycle connection or its waits.
pub proof fn law_status_trouble_leaves_the_lifecycle_connection_up(
    s: KernelState,
    o: Outcome,
    now: u64,
)
    requires
        about_status(o),
    ensures
        advance(s, o, now).0.lifecycle == s.lifecycle,
        advance(s, o, now).0.lifecycle_backoff == s.lifecycle_backoff,
        advance(s, o, now).1 matches Next::Wait(w) ==> w.watcher is Status,
{
}

/// Trouble with the lifecycle connection never lengthens the waits of the agent-status
/// connection, and forgets no status.
pub proof fn law_lifecycle_trouble_leaves_the_status_waits(s: KernelState, o: Outcome, now: u64)
    requires
        !about_status(o),
    ensures
        advance(s, o, now).0.status_backoff == s.status_backoff,
        advance(s, o, now).0.known == s.known,
{
}

/// A request to end is followed, whenever it comes.
pub proof fn law_shutdown_ends_the_kernel(s: KernelState, storm: bool, wait: Wait, now: u64)
    ensures
        task_of(s, true) == Task::Stop,
        after_lifecycle(s, Bring::Shutdown).1 == Next::Stop,
        after_status(s, Bring::Shutdown, now).1 == Next::Stop,
        after_pump(s, PumpEnd::Shutdown, now).1 == Next::Stop,
        after_drain(s, Drain::Shutdown, storm, now).1 == Next::Stop,
        after_wait(s, wait, true).1 == Next::Stop,
        after_tick(s, Tick::Shutdown, now).1 == PumpMove::End(PumpEnd::Shutdown),
{
}

/// The wait before the attempt that follows `k` failures.
pub open spec fn ladder(first: u64, max: u64, k: nat) -> u64
    decreases k,
{
    if k == 0 {
        first
    } else {
        backoff_after(ladder(first, max, (k - 1) as nat), max)
    }
}

/// Waits double from the first one until they reach the longest, and stay there.
pub proof fn law_waits_double_up_to_the_longest(first: u64, max: u64, k: nat)
    requires
        first <= max,
    ensures
        ladder(first, max, k) == if first * pow2(k) <= max {
            first * pow2(k)
        } else {
            max as int
        },
    decreases k,
{
    if k == 0 {
        lemma2_to64();
    } else {
        let j = (k - 1) as nat;
        law_waits_double_up_to_the_longest(first, max, j);
        lemma_pow2_unfold(k);
        assert(first * pow2(k) == 2 * (first * pow2(j))) by (nonlinear_arith)
            requires
                pow2(k) == 2 * pow2(j),
        ;
        assert(first * pow2(j) >= 0) by (nonlinear_arith);
    }
}

/// The kernel after `k` failed attempts at the lifecycle connection, each followed by
/// its wait.
pub open spec fn after_failures(s: KernelState, k: nat) -> KernelState
    decreases k,
{
    if k == 0 {
        s
    } else {
        let before = after_failures(s, (k - 1) as nat);
        match after_lifecycle(before, Bring::Failed) {
            (mid, Next::Wait(w)) => after_wait(mid, w, false).0,
            (mid, _) => mid,
        }
    }
}

/// After `k` failures in a row the next wait is `k` doublings long, and nothing else
/// has changed.
pub proof fn law_failures_lengthen_the_wait(s: KernelState, k: nat)
    ensures
        after_failures(s, k) == (KernelState {
            lifecycle_backoff: ladder(s.lifecycle_backoff, s.tuning.max_backoff, k),
            ..s
        }),
        after_lifecycle(after_failures(s, k), Bring::Failed).1 == Next::Wait(
            Wait {
                watcher: Watcher::Lifecycle,
                millis: ladder(s.lifecycle_backoff, s.tuning.max_backoff, k),
                storm: false,
            },
        ),
    decreases k,
{
    if k > 0 {
        law_failures_lengthen_the_wait(s, (k - 1) as nat);
    }
}

/// After a session that was stable the waits start over; after one that was not, they
/// go on where they were.
pub proof fn law_a_stable_session_starts_the_waits_over(
    t: Tuning,
    backoff: u64,
    c: ConnTimes,
    now: u64,
)
    ensures
        since(now, c.opened) >= t.stable_threshold ==> wait_after(t, backoff, Some(c), now)
            == t.initial_backoff,
        since(now, c.opened) < t.stable_threshold ==> wait_after(t, backoff, Some(c), now)
            == backoff,
{
}

/// The first rebuilds are never a storm, however fast they come.
pub proof fn law_few_rebuilds_are_no_storm(history: Seq<u64>, now: u64, window: u64, threshold: nat)
    requires
        history.len() < threshold,
    ensures
        recorded(history, now, window).len() <= threshold,
{
    history.lemma_filter_len(recent(now, window));
}

/// Once a whole window has passed without a rebuild, the next one counts alone.
pub proof fn law_a_quiet_window_ends_a_storm(history: Seq<u64>, now: u64, window: u64)
    requires
        forall|i: int| 0 <= i < history.len() ==> since(now, #[trigger] history[i]) >= window,
    ensures
        recorded(history, now, window) == seq![now],
    decreases history.len(),
{
    reveal(Seq::filter);
    if history.len() > 0 {
        let init = history.drop_last();
        assert forall|i: int| 0 <= i < init.len() implies since(now, #[trigger] init[i])
            >= window by {
            assert(init[i] == history[i]);
        }
        law_a_quiet_window_ends_a_storm(init, now, window);
        assert(since(now, history[history.len() - 1]) >= window);
        assert(recorded(init, now, window).drop_last() =~= init.filter(recent(now, window)));
    }
    assert(recorded(history, now, window) =~= seq![now]);
}

/// The verdict against a connection.
pub open spec fn verdict_against(w: Watcher) -> Verdict {
    match w {
        Watcher::Lifecycle => Verdict::LifecycleWedged,
        Watcher::Status => Verdict::StatusWedged,
    }
}

/// The kernel after `k` probes in a row that suspect a connection.
pub open spec fn suspected(s: KernelState, w: Watcher, k: nat) -> KernelState
    decreases k,
{
    if k == 0 {
        s
    } else {
        after_probe(suspected(s, w, (k - 1) as nat), Some(verdict_against(w)), true, true).0
    }
}

/// A connection, whichever of the two, is given up once enough probes in a row
/// suspected it, and not before.
pub proof fn law_a_connection_is_given_up_after_enough_strikes(
    s: KernelState,
    w: Watcher,
    k: nat,
)
    requires
        s.strikes == no_strikes(),
        k < s.tuning.probe_strikes,
    ensures
        suspected(s, w, k) == (KernelState {
            strikes: match w {
                Watcher::Lifecycle => Strikes { lifecycle: k as u32, status: 0 },
                Watcher::Status => Strikes { lifecycle: 0, status: k as u32 },
            },
            ..s
        }),
        after_probe(suspected(s, w, k), Some(verdict_against(w)), true, true).1 == if k + 1
            < s.tuning.probe_strikes {
            PumpMove::Continue
        } else {
            PumpMove::End(
                match w {
                    Watcher::Lifecycle => PumpEnd::LifecycleLost,
                    Watcher::Status => PumpEnd::StatusLost,
                },
            )
        },
    decreases k,
{
    if k > 0 {
        law_a_connection_is_given_up_after_enough_strikes(s, w, (k - 1) as nat);
    }
}

/// One probe that finds nothing wrong clears both connections of all suspicion, and a
/// probe without a verdict changes nothing.
pub proof fn law_a_quiet_system_is_never_torn_down(
    s: KernelState,
    lifecycle_idle: bool,
    status_idle: bool,
)
    ensures
        after_probe(s, Some(Verdict::Healthy), lifecycle_idle, status_idle) == (
            (KernelState { strikes: no_strikes(), ..s }),
            PumpMove::Continue,
        ),
        after_probe(s, None, lifecycle_idle, status_idle) == (s, PumpMove::Continue),
{
}

/// A connection that delivers is never given up, whatever a probe concludes.
pub proof fn law_a_delivering_connection_is_never_given_up(
    s: KernelState,
    verdict: Option<Verdict>,
    lifecycle_idle: bool,
    status_idle: bool,
)
    ensures
        !lifecycle_idle ==> after_probe(s, verdict, lifecycle_idle, status_idle).1
            != PumpMove::End(PumpEnd::LifecycleLost),
        !status_idle ==> after_probe(s, verdict, lifecycle_idle, status_idle).1 != PumpMove::End(
            PumpEnd::StatusLost,
        ),
{
}

/// A pane that ended is no longer covered: when it comes back, the agent-status
/// connection is built anew for it.
pub proof fn law_a_pane_that_comes_back_is_subscribed_anew(
    s: KernelState,
    pane: Seq<char>,
    id: Option<u32>,
    now: u64,
    later: u64,
)
    ensures
        ({
            let gone = Meaning::PaneGone { herdr_pane_id: Some(pane), pane: id };
            let mid = heard_lifecycle(s, gone, now).0;
            heard_lifecycle(mid, Meaning::PaneCreated(Some(pane)), later).1 == PumpMove::End(
                PumpEnd::Widen,
            )
        }),
{
}

/// A pane that is already covered never causes a rebuild.
pub proof fn law_a_covered_pane_causes_no_rebuild(s: KernelState, pane: Seq<char>, now: u64)
    requires
        s.subscribed.contains(pane),
    ensures
        heard_lifecycle(s, Meaning::PaneCreated(Some(pane)), now).1 == PumpMove::Continue,
{
}

/// A published status is what the watchdog and the next resync compare with: neither
/// takes it for news.
pub proof fn law_a_published_status_is_known(s: KernelState, e: StatusChange, now: u64)
    ensures
        super::resync::is_known(
            heard_status(s, Meaning::AgentStatus(e), now).0.known,
            e.pane,
            e.status,
        ),
        super::resync::is_known(
            heard_lifecycle(s, Meaning::AgentStatus(e), now).0.known,
            e.pane,
            e.status,
        ),
{
}

} // verus!
