//! What the event kernel does in each case, stated over its calls in terms of times,
//! panes and statuses.

use vstd::prelude::*;
use vstd::string::*;

use std::collections::HashMap;

use super::json::{json_text_at, json_value_at};
use super::listing::{inner, law_a_listing_is_complete, AllPanes};
use super::pushed::{fields_of, meaning, neutral, texts, Pushed};
use super::registry::{is_pane, knows_pane, pane_id_of, HerdrPaneRegistry};
use super::resync::{build_resync_events, change_seq, listed_views, ResyncPane, Verdict};
use super::resync_laws::same_status;
use super::subscribe::{
    ack_line, ack_tick, listed_of_all, next_backoff, recent, record_grow_and_check_storm, AckStep,
    AckTick, Bring,
    ConnTimes, Drain, DrainTick, EnumStep, EnumTick, Kernel, Next, PumpEnd, PumpStep,
    Strikes, Task, Tick, Tuning, Wait, Watcher,
};
use crate::multiplexer::events::{AgentStatus, AgentStatusChanged};
use crate::seqs::{first_index, lemma_filter_meaning, lemma_first_index_meaning};
use crate::text::trimmed_end;

verus! {

/// The kernel's times and thresholds, unless others are set: waits from one second to one
/// minute, a minute of stability, ten seconds for an acknowledgement, a quarter of a second
/// to gather announcements, eight rebuilds in half a minute, and two suspicions in a row
/// from probes a minute apart.
pub proof fn law_the_usual_times(t: Tuning)
    requires
        call_ensures(Tuning::default, (), t),
    ensures
        t.initial_backoff == 1_000,
        t.max_backoff == 60_000,
        t.stable_threshold == 60_000,
        t.ack_timeout == 10_000,
        t.grow_coalesce_window == 250,
        t.grow_storm_window == 30_000,
        t.grow_storm_threshold == 8,
        t.probe_interval == 60_000,
        t.probe_strikes == 2,
{
}

/// Each wait is twice the one before it, up to the longest.
pub proof fn law_a_wait_doubles_up_to_the_longest(prev: u64, max: u64, b: u64)
    requires
        call_ensures(next_backoff, (prev, max), b),
    ensures
        2 * prev <= max ==> b == 2 * prev,
        2 * prev > max ==> b == max,
{
}

/// A rebuild is a storm exactly if more of them than the threshold, this one among them,
/// fall into the window. What falls out of the window is forgotten, and nothing else is.
pub proof fn law_rebuilds_are_counted_within_the_window(
    history: &mut Vec<u64>,
    now: u64,
    window: u64,
    threshold: usize,
    storm: bool,
    t: u64,
)
    requires
        call_ensures(record_grow_and_check_storm, (history, now, window, threshold), storm),
        window > 0,
    ensures
        storm <==> final(history)@.len() > threshold,
        final(history)@.len() > 0 && final(history)@.last() == now,
        final(history)@.contains(t) <==> t == now || (old(history)@.contains(t) && (t > now || now
            - t < window)),
{
    let p = recent(now, window);
    lemma_filter_meaning(old(history)@, p);
    let kept = old(history)@.filter(p);
    let all = final(history)@;
    assert(all == kept.push(now));
    if kept.contains(t) {
        let j = choose|j: int| 0 <= j < kept.len() && kept[j] == t;
        assert(all[j] == t);
    }
    assert(all[kept.len() as int] == now);
    if all.contains(t) && t != now {
        let j = choose|j: int| 0 <= j < all.len() && all[j] == t;
        assert(kept[j] == t);
    }
}

/// What the kernel wants next: to end if it was told to, else whichever connection is not
/// up, the lifecycle connection first, and only with both up to read them.
pub proof fn law_the_missing_connection_comes_next(k: &Kernel, shutdown: bool, t: Task)
    requires
        call_ensures(Kernel::carry_on, (k, shutdown), t),
    ensures
        t is Stop <==> shutdown,
        t is ConnectLifecycle <==> !shutdown && k@.lifecycle is None,
        t is ConnectStatus <==> !shutdown && k@.lifecycle is Some && k@.status is None,
        t is Pump <==> !shutdown && k@.lifecycle is Some && k@.status is Some,
{
}

/// A kernel starts with nothing: no connection, no pane covered, no status known.
pub proof fn law_a_kernel_starts_with_nothing(tuning: Tuning, k: Kernel)
    requires
        call_ensures(Kernel::new, (tuning,), k),
    ensures
        k@.tuning == tuning,
        k@.lifecycle is None,
        k@.status is None,
        forall|p: Seq<char>| !k@.subscribed.contains(p),
        k@.lifecycle_backoff == tuning.initial_backoff,
        k@.status_backoff == tuning.initial_backoff,
        k@.grow_history.len() == 0,
        forall|id: u32| !k@.known.dom().contains(id),
{
}

/// A lifecycle connection that comes up is up since that time; the agent-status connection
/// is then down and covers nothing. One that does not come up is waited for, as long as it
/// is its turn to wait.
pub proof fn law_a_lifecycle_connection_is_brought_up(k: &mut Kernel, outcome: Bring, n: Next)
    requires
        call_ensures(Kernel::lifecycle_brought, (k, outcome), n),
    ensures
        outcome matches Bring::Ready { opened } ==> n is Go && final(k)@.lifecycle == Some(
            ConnTimes { opened, last_event: opened },
        ) && final(k)@.status is None && (forall|p: Seq<char>|
            !final(k)@.subscribed.contains(p)) && final(k)@.strikes.lifecycle == 0
            && final(k)@.strikes.status == 0 && final(k)@.known == old(k)@.known,
        outcome is Shutdown ==> n is Stop && final(k)@ == old(k)@,
        outcome is Failed || outcome is LifecycleLost ==> (n matches Next::Wait(w)
            && w.watcher is Lifecycle && w.millis == old(k)@.lifecycle_backoff && !w.storm)
            && final(k)@ == old(k)@,
{
}

/// An agent-status connection that comes up is up since that time, next to the lifecycle
/// connection as it is. One that does not come up is waited for.
pub proof fn law_a_status_connection_is_brought_up(
    k: &mut Kernel,
    outcome: Bring,
    now: u64,
    n: Next,
)
    requires
        call_ensures(Kernel::status_brought, (k, outcome, now), n),
    ensures
        outcome matches Bring::Ready { opened } ==> n is Go && final(k)@.status == Some(
            ConnTimes { opened, last_event: opened },
        ) && final(k)@.lifecycle == old(k)@.lifecycle && final(k)@.subscribed
            == old(k)@.subscribed && final(k)@.known == old(k)@.known,
        outcome is Shutdown ==> n is Stop && final(k)@ == old(k)@,
        outcome is Failed ==> (n matches Next::Wait(w) && w.watcher is Status && w.millis
            == old(k)@.status_backoff && !w.storm) && final(k)@ == old(k)@,
        outcome is LifecycleLost ==> (n matches Next::Wait(w) && w.watcher is Lifecycle)
            && final(k)@.lifecycle is None,
{
}

/// Whether a connection that came up at `opened` was stable by `now`.
pub open spec fn was_stable(c: Option<ConnTimes>, t: Tuning, now: u64) -> bool {
    c matches Some(times) && (if now >= times.opened {
        now - times.opened
    } else {
        0
    }) >= t.stable_threshold
}

/// A lost connection is down and waited for: as long as its last wait, or as long as the
/// first one if it was stable. The other connection is left alone. A pane that is not
/// covered takes the agent-status connection down and has announcements gathered first.
pub proof fn law_a_lost_connection_is_waited_for(k: &mut Kernel, end: PumpEnd, now: u64, n: Next)
    requires
        call_ensures(Kernel::pumped, (k, end, now), n),
    ensures
        end is Shutdown ==> n is Stop && final(k)@ == old(k)@,
        end is LifecycleLost ==> final(k)@.lifecycle is None && final(k)@.status == old(k)@.status
            && (n matches Next::Wait(w) && w.watcher is Lifecycle && !w.storm && w.millis == (
        if was_stable(old(k)@.lifecycle, old(k)@.tuning, now) {
            old(k)@.tuning.initial_backoff
        } else {
            old(k)@.lifecycle_backoff
        }) && final(k)@.lifecycle_backoff == w.millis && final(k)@.status_backoff
            == old(k)@.status_backoff),
        end is StatusLost ==> final(k)@.status is None && final(k)@.lifecycle
            == old(k)@.lifecycle && (n matches Next::Wait(w) && w.watcher is Status && !w.storm
            && w.millis == (if was_stable(old(k)@.status, old(k)@.tuning, now) {
            old(k)@.tuning.initial_backoff
        } else {
            old(k)@.status_backoff
        }) && final(k)@.status_backoff == w.millis && final(k)@.lifecycle_backoff
            == old(k)@.lifecycle_backoff),
        end is Widen ==> final(k)@.status is None && final(k)@.lifecycle == old(k)@.lifecycle && (
        n matches Next::Drain { millis, storm } && millis == old(k)@.tuning.grow_coalesce_window
            && (storm <==> final(k)@.grow_history.len() > old(k)@.tuning.grow_storm_threshold)),
        final(k)@.known == old(k)@.known,
        final(k)@.subscribed == old(k)@.subscribed,
{
}

/// Once announcements are gathered the kernel goes on, after a wait for the agent-status
/// connection if there was a storm.
pub proof fn law_a_storm_is_waited_out(
    k: &mut Kernel,
    outcome: Drain,
    storm: bool,
    now: u64,
    n: Next,
)
    requires
        call_ensures(Kernel::drained, (k, outcome, storm, now), n),
    ensures
        outcome is Shutdown ==> n is Stop,
        outcome is Done && !storm ==> n is Go && final(k)@ == old(k)@,
        outcome is Done && storm ==> (n matches Next::Wait(w) && w.watcher is Status && w.millis
            == old(k)@.status_backoff && !w.storm) && final(k)@ == old(k)@,
        outcome is Lost ==> final(k)@.lifecycle is None && (n matches Next::Wait(w)
            && w.watcher is Lifecycle && w.storm == storm),
{
}

/// A wait that is over makes the next wait for that connection twice as long, up to the
/// longest, and that of the other one no longer; an interrupted one ends the kernel.
pub proof fn law_a_wait_lengthens_its_own_connections_next(
    k: &mut Kernel,
    wait: Wait,
    interrupted: bool,
    n: Next,
)
    requires
        call_ensures(Kernel::waited, (k, wait, interrupted), n),
    ensures
        interrupted ==> n is Stop && final(k)@ == old(k)@,
        !interrupted && !wait.storm ==> n is Go,
        !interrupted && wait.storm ==> (n matches Next::Wait(w) && w.watcher is Status && !w.storm
            && w.millis == final(k)@.status_backoff),
        !interrupted && wait.watcher is Lifecycle ==> final(k)@.status_backoff
            == old(k)@.status_backoff && final(k)@.lifecycle_backoff == (if 2
            * old(k)@.lifecycle_backoff <= old(k)@.tuning.max_backoff {
            2 * old(k)@.lifecycle_backoff
        } else {
            old(k)@.tuning.max_backoff as int
        }),
        !interrupted && wait.watcher is Status ==> final(k)@.lifecycle_backoff
            == old(k)@.lifecycle_backoff && final(k)@.status_backoff == (if 2
            * old(k)@.status_backoff <= old(k)@.tuning.max_backoff {
            2 * old(k)@.status_backoff
        } else {
            old(k)@.tuning.max_backoff as int
        }),
        final(k)@.lifecycle == old(k)@.lifecycle,
        final(k)@.status == old(k)@.status,
        final(k)@.known == old(k)@.known,
        final(k)@.subscribed == old(k)@.subscribed,
{
}

/// A subscription stands once a line says that it has started. A line with an error
/// refuses it with that error, any other line is passed over, and the end of the stream or
/// of the time is a failure.
pub proof fn law_a_subscription_stands_once_acknowledged(tick: AckTick, step: AckStep)
    requires
        call_ensures(ack_tick, (tick,), step),
    ensures
        step is Acked <==> (tick matches AckTick::Line(Some(line)) && json_text_at(
            trimmed_end(line@),
            "/result/type"@,
        ) == Some("subscription_started"@)),
        step matches AckStep::Refused(why) ==> (tick matches AckTick::Line(Some(line))
            && json_value_at(trimmed_end(line@), "/error"@) == Some(why@)),
        step is Failed <==> tick is Timeout || (tick matches AckTick::Line(None)),
        step is Shutdown <==> tick is Shutdown,
{
}

/// While the panes are enumerated every line of the lifecycle connection is held back, in
/// order, and counts as a sign of life.
pub proof fn law_announcements_are_held_back_in_order(
    k: &mut Kernel,
    buffered: &mut Vec<String>,
    tick: EnumTick,
    now: u64,
    step: EnumStep,
)
    requires
        call_ensures(Kernel::enum_tick, (k, buffered, tick, now), step),
    ensures
        tick matches EnumTick::Line(Some(line)) ==> step is Continue && final(buffered)@ == old(
            buffered)@.push(line) && (old(k)@.lifecycle matches Some(c) ==> final(k)@.lifecycle
            == Some(ConnTimes { opened: c.opened, last_event: now })),
        tick matches EnumTick::Line(None) ==> (step matches EnumStep::End(b)
            && b is LifecycleLost),
        tick matches EnumTick::Enumerated(Err(_)) ==> (step matches EnumStep::End(b)
            && b is Failed),
        tick is Shutdown ==> (step matches EnumStep::End(b) && b is Shutdown),
        step is Subscribe <==> (tick matches EnumTick::Enumerated(Ok(_))),
{
}

/// A covered pane that is announced changes nothing; one that is not covered, or not
/// named, ends the reading so that the subscription can be widened. A pane that is gone is
/// covered no longer, and its status is forgotten.
pub proof fn law_panes_come_and_go_on_the_lifecycle_connection(
    k: &mut Kernel,
    pushed: Pushed,
    now: u64,
    step: PumpStep,
)
    requires
        call_ensures(Kernel::pump_tick, (k, Tick::Lifecycle(Some(pushed)), now), step),
    ensures
        pushed matches Pushed::PaneCreated(None) ==> step == PumpStep::End(PumpEnd::Widen),
        pushed matches Pushed::PaneCreated(Some(p)) ==> (if old(k)@.subscribed.contains(p@) {
            step is Continue
        } else {
            step == PumpStep::End(PumpEnd::Widen)
        }),
        pushed is PaneCreated ==> final(k)@.subscribed == old(k)@.subscribed && final(k)@.known
            == old(k)@.known,
        pushed matches Pushed::PaneGone { herdr_pane_id: Some(p), .. } ==> step is Continue
            && forall|x: Seq<char>| #[trigger]
            final(k)@.subscribed.contains(x) <==> old(k)@.subscribed.contains(x) && x != p@,
        pushed matches Pushed::PaneGone { pane: Some(id), .. } ==> forall|x: u32| #[trigger]
            final(k)@.known.dom().contains(x) <==> old(k)@.known.dom().contains(x) && x != id,
        pushed is Ignored ==> step is Continue && final(k)@.subscribed == old(k)@.subscribed
            && final(k)@.known == old(k)@.known,
        old(k)@.lifecycle matches Some(c) ==> final(k)@.lifecycle == Some(
            ConnTimes { opened: c.opened, last_event: now },
        ),
        final(k)@.status == old(k)@.status,
{
}

/// A status change is published as it came, on whichever connection it came, and is the
/// last known status of its pane from then on; no other pane's changes.
pub proof fn law_a_status_change_is_published_as_it_came(
    k: &mut Kernel,
    pushed: Pushed,
    on_status: bool,
    now: u64,
    step: PumpStep,
)
    requires
        pushed is AgentStatus,
        call_ensures(
            Kernel::pump_tick,
            (
                k,
                if on_status {
                    Tick::Status(Some(pushed))
                } else {
                    Tick::Lifecycle(Some(pushed))
                },
                now,
            ),
            step,
        ),
    ensures
        step matches PumpStep::Publish(e) && e@ == pushed->AgentStatus_0@,
        ({
            let e = pushed->AgentStatus_0;
            &&& final(k)@.known.dom().contains(e.pane)
            &&& final(k)@.known[e.pane] == e.status
            &&& forall|x: u32|
                x != e.pane ==> (#[trigger] final(k)@.known.dom().contains(x)
                    <==> old(k)@.known.dom().contains(x)) && final(k)@.known[x]
                    == old(k)@.known[x]
        }),
        final(k)@.subscribed == old(k)@.subscribed,
{
}

/// A published status is the one that the line itself names: an agent is published as
/// blocked only where herdr's payload says blocked, and as done only where it says done.
pub proof fn law_only_what_herdr_says_is_published(
    k: &mut Kernel,
    watcher: Watcher,
    line: &str,
    panes: &mut HerdrPaneRegistry,
    now: u64,
    step: PumpStep,
)
    requires
        call_ensures(Kernel::line_tick, (k, watcher, line, panes, now), step),
    ensures
        step matches PumpStep::Publish(e) ==> (json_value_at(
            trimmed_end(line@),
            "/data/agent_status"@,
        ) matches Some(json) && (e.status is Blocked ==> json == "\"blocked\""@ || json
            == "{\"blocked\":null}"@) && (e.status is Done ==> json == "\"done\""@ || json
            == "{\"done\":null}"@) && (e.status is Idle ==> json == "\"idle\""@ || json
            == "{\"idle\":null}"@) && (e.status is Working ==> json == "\"working\""@ || json
            == "{\"working\":null}"@)),
        step matches PumpStep::Publish(e) ==> !e.synthetic && json_text_at(
            trimmed_end(line@),
            "/data/workspace_id"@,
        ) == Some(e.workspace_id@),
{
    let m = meaning(fields_of(trimmed_end(line@)), old(panes)@);
}

/// Whether a connection delivered nothing for a whole probe interval.
pub open spec fn silent(c: Option<ConnTimes>, t: Tuning, now: u64) -> bool {
    c matches Some(times) && (if now >= times.last_event {
        now - times.last_event
    } else {
        0
    }) >= t.probe_interval
}

/// A probe is made exactly if one of the connections was silent for a whole interval, and
/// is told which; otherwise all suspicion is cleared. The end of a connection, or the word
/// to end, ends the reading.
pub proof fn law_a_probe_follows_a_silent_interval(
    k: &mut Kernel,
    tick: Tick,
    now: u64,
    step: PumpStep,
)
    requires
        call_ensures(Kernel::pump_tick, (k, tick, now), step),
    ensures
        tick is Probe ==> match step {
            PumpStep::Probe { lifecycle_idle, status_idle } => {
                &&& lifecycle_idle <==> silent(old(k)@.lifecycle, old(k)@.tuning, now)
                &&& status_idle <==> silent(old(k)@.status, old(k)@.tuning, now)
                &&& lifecycle_idle || status_idle
                &&& final(k)@ == old(k)@
            },
            PumpStep::Continue => {
                &&& !silent(old(k)@.lifecycle, old(k)@.tuning, now)
                &&& !silent(old(k)@.status, old(k)@.tuning, now)
                &&& final(k)@.strikes.lifecycle == 0
                &&& final(k)@.strikes.status == 0
            },
            _ => false,
        },
        tick matches Tick::Lifecycle(None) ==> step == PumpStep::End(PumpEnd::LifecycleLost),
        tick matches Tick::Status(None) ==> step == PumpStep::End(PumpEnd::StatusLost),
        tick is Shutdown ==> step == PumpStep::End(PumpEnd::Shutdown),
{
}

/// A suspicion against a silent connection counts, and enough of them in a row give it up;
/// one against the other connection, or none, clears it.
pub proof fn law_a_suspicion_counts_against_a_silent_connection(
    k: &mut Kernel,
    verdict: Option<Verdict>,
    lifecycle_idle: bool,
    status_idle: bool,
    step: PumpStep,
)
    requires
        old(k)@.strikes.lifecycle < u32::MAX,
        old(k)@.strikes.status < u32::MAX,
        call_ensures(Kernel::probed, (k, verdict, lifecycle_idle, status_idle), step),
    ensures
        verdict is None ==> step is Continue && final(k)@ == old(k)@,
        verdict == Some(Verdict::LifecycleWedged) && lifecycle_idle ==> final(k)@.strikes == (
        Strikes { lifecycle: (old(k)@.strikes.lifecycle + 1) as u32, status: 0 }) && (step
            == PumpStep::End(PumpEnd::LifecycleLost) <==> old(k)@.strikes.lifecycle + 1
            >= old(k)@.tuning.probe_strikes),
        verdict == Some(Verdict::StatusWedged) && status_idle ==> final(k)@.strikes == (
        Strikes { lifecycle: 0, status: (old(k)@.strikes.status + 1) as u32 }) && (step
            == PumpStep::End(PumpEnd::StatusLost) <==> old(k)@.strikes.status + 1
            >= old(k)@.tuning.probe_strikes),
        verdict == Some(Verdict::Healthy) ==> step is Continue && final(k)@.strikes.lifecycle == 0
            && final(k)@.strikes.status == 0,
        !lifecycle_idle ==> step != PumpStep::End(PumpEnd::LifecycleLost),
        !status_idle ==> step != PumpStep::End(PumpEnd::StatusLost),
{
}

/// While announcements are gathered, a line is a sign of life and nothing else; the end
/// of the time, of the stream or of the kernel ends the gathering as such.
pub proof fn law_gathering_ends_with_its_time(
    k: &mut Kernel,
    tick: DrainTick,
    now: u64,
    end: Option<Drain>,
)
    requires
        call_ensures(Kernel::drain_tick, (k, tick, now), end),
    ensures
        tick is Line ==> end is None,
        tick is Elapsed ==> end == Some(Drain::Done),
        tick is Ended ==> end == Some(Drain::Lost),
        tick is Shutdown ==> end == Some(Drain::Shutdown),
        final(k)@.known == old(k)@.known,
        final(k)@.subscribed == old(k)@.subscribed,
        final(k)@.status == old(k)@.status,
{
}

/// A line that acknowledges a subscription does so whatever else it says. Any other line is
/// a refusal if it carries an error, with that error, and else is passed over.
pub proof fn law_an_acknowledgement_beats_a_refusal(
    acknowledged: bool,
    error: Option<String>,
    step: AckStep,
)
    requires
        call_ensures(ack_line, (acknowledged, error), step),
    ensures
        step is Acked <==> acknowledged,
        step is Refused <==> !acknowledged && error is Some,
        step is Continue <==> !acknowledged && error is None,
        step matches AckStep::Refused(t) ==> (error matches Some(e) && t@ == e@),
{
}

/// Once acknowledged, the agent-status connection covers the panes that it asked for, and
/// nothing else about the kernel changes.
pub proof fn law_an_acknowledged_connection_covers_its_panes(
    kernel: &mut Kernel,
    ids: Vec<String>,
    pane: Seq<char>,
)
    requires
        call_ensures(Kernel::status_acked, (kernel, ids), ()),
    ensures
        final(kernel)@.subscribed.contains(pane) <==> exists|i: int|
            0 <= i < ids@.len() && (#[trigger] ids@[i])@ == pane,
        final(kernel)@.known == old(kernel)@.known,
        final(kernel)@.lifecycle == old(kernel)@.lifecycle,
        final(kernel)@.status == old(kernel)@.status,
        final(kernel)@.lifecycle_backoff == old(kernel)@.lifecycle_backoff,
        final(kernel)@.status_backoff == old(kernel)@.status_backoff,
        final(kernel)@.grow_history == old(kernel)@.grow_history,
        final(kernel)@.strikes == old(kernel)@.strikes,
{
    let all = texts(ids@);
    if all.contains(pane) {
        let i = choose|i: int| 0 <= i < all.len() && all[i] == pane;
        assert(ids@[i]@ == pane);
    }
    if exists|i: int| 0 <= i < ids@.len() && (#[trigger] ids@[i])@ == pane {
        let i = choose|i: int| 0 <= i < ids@.len() && (#[trigger] ids@[i])@ == pane;
        assert(all[i] == pane);
    }
}

/// A kernel's times are those it was made with.
pub proof fn law_a_kernel_keeps_its_times(kernel: &Kernel, t: Tuning)
    requires
        call_ensures(Kernel::timings, (kernel,), t),
    ensures
        t == kernel@.tuning,
{
}

/// A resync of the kernel is a resync of what was listed: it reports the same changes, and
/// leaves the same ids and the same statuses.
pub proof fn law_a_kernel_resyncs_with_what_was_listed(
    kernel: &mut Kernel,
    a: AllPanes,
    panes: &mut HerdrPaneRegistry,
    events: Vec<AgentStatusChanged>,
    input: Vec<ResyncPane>,
    reg: &mut HerdrPaneRegistry,
    last: &mut HashMap<u32, AgentStatus>,
    others: Vec<AgentStatusChanged>,
)
    requires
        call_ensures(Kernel::resynced, (kernel, Ok(a), panes), events),
        call_ensures(AllPanes::resync_input, (&a,), input),
        old(reg)@ == old(panes)@,
        old(last)@ == old(kernel)@.known,
        call_ensures(build_resync_events, (&input, reg, last), others),
    ensures
        final(panes)@ == final(reg)@,
        final(kernel)@.known == final(last)@,
        final(kernel)@.subscribed == old(kernel)@.subscribed,
        final(kernel)@.strikes == old(kernel)@.strikes,
        events@.len() == others@.len(),
        forall|i: int| 0 <= i < events@.len() ==> (#[trigger] events@[i])@ == others@[i]@,
{
    assert(listed_views(input@) == listed_of_all(a));
    assert(change_seq(events@) == change_seq(others@));
    assert(change_seq(events@).len() == events@.len());
    assert(change_seq(others@).len() == others@.len());
    assert forall|i: int| 0 <= i < events@.len() implies (#[trigger] events@[i])@
        == others@[i]@ by {
        assert(change_seq(events@)[i] == events@[i]@);
        assert(change_seq(others@)[i] == others@[i]@);
    }
}

/// A listing that failed changes nothing and is no evidence.
pub proof fn law_a_failed_listing_changes_nothing(
    kernel: &mut Kernel,
    why: String,
    panes: &mut HerdrPaneRegistry,
    events: Vec<AgentStatusChanged>,
    other: &Kernel,
    reg: &HerdrPaneRegistry,
    v: Option<Verdict>,
)
    requires
        call_ensures(Kernel::resynced, (kernel, Err(why), panes), events),
        call_ensures(Kernel::liveness_probe, (other, &Err(why), reg), v),
    ensures
        events@.len() == 0,
        final(panes)@ == old(panes)@,
        final(kernel)@ == old(kernel)@,
        v is None,
{
}

/// A probe of the kernel concludes from every pane of a listing: it suspects the lifecycle
/// connection exactly if one of them is not covered, and the agent-status connection exactly
/// if all are but the last known status of one of them is another than the listed one.
pub proof fn law_a_kernel_probes_every_listed_pane(
    kernel: &Kernel,
    a: AllPanes,
    panes: &HerdrPaneRegistry,
    v: Option<Verdict>,
)
    requires
        a.complete(),
        panes.wf(),
        call_ensures(Kernel::liveness_probe, (kernel, &Ok(a), panes), v),
    ensures
        v is Some,
        v == Some(Verdict::LifecycleWedged) <==> exists|w: int, p: int|
            0 <= w < a.panes@.len() && 0 <= p < a.panes@[w]@.len() && !kernel@.subscribed.contains(
                (#[trigger] a.panes@[w]@[p]).pane_id@,
            ),
        v == Some(Verdict::StatusWedged) ==> exists|w: int, p: int, id: u32|
            0 <= w < a.panes@.len() && 0 <= p < a.panes@[w]@.len() && 1 <= id <= panes@.len()
                && panes@[id - 1].pane_id == (#[trigger] a.panes@[w]@[p]).pane_id@
                && #[trigger] kernel@.known.dom().contains(id) && !same_status(
                kernel@.known[id],
                a.panes@[w]@[p].agent_status,
            ),
        v == Some(Verdict::Healthy) ==> forall|w: int, p: int, id: u32|
            0 <= w < a.panes@.len() && 0 <= p < a.panes@[w]@.len() && 1 <= id <= panes@.len()
                && panes@[id - 1].pane_id == (#[trigger] a.panes@[w]@[p]).pane_id@
                && #[trigger] kernel@.known.dom().contains(id) ==> same_status(
                kernel@.known[id],
                a.panes@[w]@[p].agent_status,
            ),
{
    let all = a.all();
    let groups = inner(a.panes@);
    if v == Some(Verdict::LifecycleWedged) {
        let i = choose|i: int|
            0 <= i < all.len() && !kernel@.subscribed.contains((#[trigger] all[i]).1.pane_id@);
        let (w, p) = lemma_row_place(a, i);
        assert(!kernel@.subscribed.contains(a.panes@[w]@[p].pane_id@));
    }
    if exists|w: int, p: int|
        0 <= w < a.panes@.len() && 0 <= p < a.panes@[w]@.len() && !kernel@.subscribed.contains(
            (#[trigger] a.panes@[w]@[p]).pane_id@,
        ) {
        let (w, p) = choose|w: int, p: int|
            0 <= w < a.panes@.len() && 0 <= p < a.panes@[w]@.len() && !kernel@.subscribed.contains(
                (#[trigger] a.panes@[w]@[p]).pane_id@,
            );
        let row = (a.workspaces@[w], a.panes@[w]@[p]);
        assert(groups[w] == a.panes@[w]@);
        assert(groups[w].contains(row.1));
        law_a_listing_is_complete(a.workspaces@, groups, row);
        let i = choose|i: int| 0 <= i < all.len() && all[i] == row;
        assert(!kernel@.subscribed.contains(all[i].1.pane_id@));
    }
    if v == Some(Verdict::StatusWedged) {
        let i = choose|i: int|
            0 <= i < all.len() && {
                let pane = (#[trigger] all[i]).1;
                let id = pane_id_of(panes@, pane.pane_id@) as u32;
                &&& knows_pane(panes@, pane.pane_id@)
                &&& kernel@.known.dom().contains(id)
                &&& kernel@.known[id] != neutral(pane.agent_status)
            };
        let (w, p) = lemma_row_place(a, i);
        let name = all[i].1.pane_id@;
        lemma_first_index_meaning(panes@, is_pane(name));
        let id = pane_id_of(panes@, name) as u32;
        assert(a.panes@[w]@[p].pane_id@ == name);
        assert(kernel@.known.dom().contains(id));
    }
    if v == Some(Verdict::Healthy) {
        assert forall|w: int, p: int, id: u32|
            0 <= w < a.panes@.len() && 0 <= p < a.panes@[w]@.len() && 1 <= id <= panes@.len()
                && panes@[id - 1].pane_id == (#[trigger] a.panes@[w]@[p]).pane_id@
                && #[trigger] kernel@.known.dom().contains(id) implies same_status(
            kernel@.known[id],
            a.panes@[w]@[p].agent_status,
        ) by {
            let row = (a.workspaces@[w], a.panes@[w]@[p]);
            assert(groups[w] == a.panes@[w]@);
            assert(groups[w].contains(row.1));
            law_a_listing_is_complete(a.workspaces@, groups, row);
            let i = choose|i: int| 0 <= i < all.len() && all[i] == row;
            let name = row.1.pane_id@;
            lemma_first_index_meaning(panes@, is_pane(name));
            let k = first_index(panes@, is_pane(name));
            assert(is_pane(name)(panes@[id - 1]));
            assert(panes@[k].pane_id == panes@[id - 1].pane_id);
            assert(k == id - 1);
            assert(all[i].1.pane_id@ == name);
            assert(pane_id_of(panes@, name) as u32 == id);
            assert(kernel@.known[id] == neutral(row.1.agent_status));
        }
    }
}

/// Where a row of a listing comes from.
proof fn lemma_row_place(a: AllPanes, i: int) -> (at: (int, int))
    requires
        a.complete(),
        0 <= i < a.all().len(),
    ensures
        0 <= at.0 < a.panes@.len(),
        0 <= at.1 < a.panes@[at.0]@.len(),
        a.all()[i].1 == a.panes@[at.0]@[at.1],
{
    let row = a.all()[i];
    let groups = inner(a.panes@);
    assert(a.all().contains(row));
    law_a_listing_is_complete(a.workspaces@, groups, row);
    let w = choose|w: int|
        0 <= w < groups.len() && row.0 == a.workspaces@[w] && (#[trigger] groups[w]).contains(
            row.1,
        );
    let p = choose|p: int| 0 <= p < groups[w].len() && groups[w][p] == row.1;
    assert(groups[w] == a.panes@[w]@);
    (w, p)
}

} // verus!
