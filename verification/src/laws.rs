//! What holds of the switcher as a whole.
use crate::clock::{is_timer_reading, secs_in_nanos};
use crate::config::{ConfigView, StreamServerView};
use crate::error::Error;
use crate::rules::{
    enabled, find_server, named, optional_scenes, should_delay_normal_recovery,
    should_instant_degrade, tracker_follows, Verdict,
};
use crate::scenes::{SwitchType, SwitchingScenesView};
use crate::state::{
    server_has_scene, BroadcastingSoftwareState, BroadcastingSoftwareStateView, StateView,
};
use crate::status::StreamStatus;
use crate::steps::{
    ClockReadings, RunEvent, RunStep, SceneChangeView, SceneRequestView, SwitchReply,
    SwitchStepView, SwitchTracker,
};
use crate::views::{first_from, lemma_first_from, lemma_first_from_skips};
use std::time::Instant;
use vstd::prelude::*;

verus! {

// Pending switches.

/// After a switch to a scene was accepted, a switch to that scene and to no
/// other is pending, and only until the timeout.
pub proof fn law_accepted_switch_is_pending(
    software: BroadcastingSoftwareStateView,
    scene: Seq<char>,
    at: Instant,
    other: Seq<char>,
    age: int,
)
    ensures
        software.with_pending_switch(scene, at).switch_pending(other, age) <==> other == scene
            && age < secs_in_nanos(BroadcastingSoftwareState::PENDING_SWITCH_TIMEOUT as int),
{
}

/// Nothing is pending once the pending switch was cleared, or once the
/// broadcasting software is gone.
pub proof fn law_cleared_switch_is_not_pending(
    software: BroadcastingSoftwareStateView,
    scene: Seq<char>,
    age: int,
)
    ensures
        !software.without_pending_switch().switch_pending(scene, age),
        !software.disconnected().switch_pending(scene, age),
        software.disconnected() == software.without_pending_switch().disconnected(),
        software.disconnected().disconnected() == software.disconnected(),
{
}

/// While an accepted switch plays out, the same request is not sent again,
/// whichever switch type asks for it.
pub proof fn law_no_duplicate_request(
    state: StateView,
    request: SceneRequestView,
    at: Instant,
    switch_type: SwitchType,
    age: int,
)
    requires
        age < secs_in_nanos(BroadcastingSoftwareState::PENDING_SWITCH_TIMEOUT as int),
    ensures
        state.request_accepted(request, at).scene_request(request.scene, switch_type, age) == Ok::<
            Option<SceneRequestView>,
            Error,
        >(None),
{
}

/// A pending switch does not stand in the way of a switch to another scene:
/// that is decided as if nothing were pending.
pub proof fn law_other_scene_is_not_blocked(
    state: StateView,
    request: SceneRequestView,
    at: Instant,
    other: Seq<char>,
    switch_type: SwitchType,
    age: int,
)
    requires
        other != request.scene,
    ensures
        state.request_accepted(request, at).scene_request(other, switch_type, age) == (StateView {
            broadcasting_software: state.broadcasting_software.without_pending_switch(),
            ..state
        }).scene_request(other, switch_type, age),
{
}

/// A request that was accepted and never confirmed is sent again, the same as
/// before, once the timeout is over.
pub proof fn law_stale_request_is_repeated(
    state: StateView,
    scene: Seq<char>,
    switch_type: SwitchType,
    first_age: int,
    request: SceneRequestView,
    at: Instant,
    age: int,
)
    requires
        state.scene_request(scene, switch_type, first_age) == Ok::<
            Option<SceneRequestView>,
            Error,
        >(Some(request)),
        age >= secs_in_nanos(BroadcastingSoftwareState::PENDING_SWITCH_TIMEOUT as int),
    ensures
        state.request_accepted(request, at).scene_request(scene, switch_type, age) == Ok::<
            Option<SceneRequestView>,
            Error,
        >(Some(request)),
{
}

/// The state once the broadcasting software has confirmed that `scene` is
/// shown.
pub open spec fn confirmed(state: StateView, scene: Seq<char>) -> StateView {
    StateView {
        broadcasting_software: BroadcastingSoftwareStateView {
            current_scene: scene,
            pending_switch: None,
            ..state.broadcasting_software
        },
        ..state
    }
}

/// A scene that is shown is never requested, connected or not.
pub proof fn law_shown_scene_is_not_requested(
    state: StateView,
    scene: Seq<char>,
    switch_type: SwitchType,
    age: int,
)
    ensures
        confirmed(state, scene).scene_request(scene, switch_type, age) == Ok::<
            Option<SceneRequestView>,
            Error,
        >(None),
{
}

/// From a switchable scene that is confirmed, a switch to any other scene is
/// requested, as long as there is a software to ask, unless the starting scene
/// is to stay.
pub proof fn law_next_switch_goes_ahead(
    state: StateView,
    scene: Seq<char>,
    other: Seq<char>,
    switch_type: SwitchType,
    age: int,
)
    requires
        state.switcher_state.switchable_scenes.contains(scene),
        state.broadcasting_software.software_set,
        other != scene,
        !confirmed(state, scene).waits_on_starting_scene(switch_type),
    ensures
        confirmed(state, scene).scene_request(other, switch_type, age) == Ok::<
            Option<SceneRequestView>,
            Error,
        >(
            Some(
                SceneRequestView {
                    scene: other,
                    announcement: state.announcement(other, switch_type),
                },
            ),
        ),
{
}

/// While the switcher has nothing to wait for, the scene that is shown may be
/// left: a request is held back only because the scene is shown already, or is
/// pending, or because the starting scene is to stay.
pub proof fn law_awake_switcher_may_leave_scene(
    state: StateView,
    scene: Seq<char>,
    switch_type: SwitchType,
    age: int,
)
    requires
        state.sleep_notifier() is None,
    ensures
        state.scene_request(scene, switch_type, age) == Ok::<Option<SceneRequestView>, Error>(None)
            <==> {
            ||| state.broadcasting_software.current_scene == scene
            ||| state.broadcasting_software.switch_pending(scene, age)
            ||| state.waits_on_starting_scene(switch_type)
        },
{
}

/// Once the broadcasting software is gone, an enabled switcher waits until it
/// is back.
pub proof fn law_disconnected_switcher_sleeps(state: StateView)
    requires
        state.config.switcher.bitrate_switcher_enabled,
    ensures
        (StateView {
            broadcasting_software: state.broadcasting_software.disconnected(),
            ..state
        }).sleep_notifier() == Some(state.broadcasting_software.connected_notifier),
{
}

// Counting.

/// A drop in quality that is to be acted upon at once never has to wait.
pub proof fn law_instant_degrade_is_due(
    state: StateView,
    tracker: SwitchTracker,
    server: Option<StreamServerView>,
    current: SwitchType,
    clock: ClockReadings,
)
    requires
        should_instant_degrade(server, state.servers(), tracker.prev_switch_type, current),
    ensures
        state.verdict(tracker, server, current, clock).due == Some(current),
{
}

/// A delayed recovery is never forced: in the pass that sees the normal type
/// first, it is due exactly if the time is up. Only that pass goes by the time.
/// To the next one, whichever server it goes by, the type is not a new one.
pub proof fn law_delayed_recovery_goes_by_time(
    state: StateView,
    tracker: SwitchTracker,
    server: Option<StreamServerView>,
    current: SwitchType,
    clock: ClockReadings,
)
    requires
        should_delay_normal_recovery(server, tracker.prev_switch_type, current),
    ensures
        !state.forced(tracker, server, current),
        state.verdict(tracker, server, current, clock).due is Some <==> clock.fresh_age
            >= secs_in_nanos(state.config.switcher.retry_attempts),
        forall|other: Option<StreamServerView>|
            !(#[trigger] should_delay_normal_recovery(
                other,
                state.verdict(tracker, server, current, clock).tracker.prev_switch_type,
                current,
            )),
{
}

/// A stream that comes back is shown at once if the settings say so and its
/// server does not ask for a delay.
pub proof fn law_instant_recovery_is_due(
    state: StateView,
    tracker: SwitchTracker,
    server: Option<StreamServerView>,
    current: SwitchType,
    clock: ClockReadings,
)
    requires
        state.config.switcher.instantly_switch_on_recover,
        tracker.prev_switch_type == SwitchType::Offline,
        current != SwitchType::Offline,
        !should_delay_normal_recovery(server, tracker.prev_switch_type, current),
    ensures
        state.verdict(tracker, server, current, clock).due is Some,
{
}

/// Acting upon a switch type, and seeing another one, both start the count
/// over. Whatever is seen is what the next pass compares with.
pub proof fn law_count_starts_over(
    state: StateView,
    tracker: SwitchTracker,
    server: Option<StreamServerView>,
    current: SwitchType,
    clock: ClockReadings,
)
    ensures
        ({
            let verdict = state.verdict(tracker, server, current, clock);
            &&& verdict.tracker.prev_switch_type == current
            &&& verdict.due is Some || tracker.prev_switch_type != current
                ==> verdict.tracker.same_type == 0
            &&& tracker.prev_switch_type != current ==> verdict.tracker.same_type_seconds
                == clock.now
        }),
{
}

/// What can happen to a tracker.
pub enum TrackerEvent {
    /// A step of a pass.
    Step { step: SwitchStepView, reply: SwitchReply, clock: ClockReadings },
    /// A break is over, at this time.
    Resume { at: tokio::time::Instant },
}

/// What one event after another makes of a tracker. Each comes with the state
/// at that time.
pub open spec fn tracker_after(
    tracker: SwitchTracker,
    events: Seq<(StateView, TrackerEvent)>,
) -> SwitchTracker
    decreases events.len(),
{
    if events.len() == 0 {
        tracker
    } else {
        let before = tracker_after(tracker, events.drop_last());
        let (state, event) = events.last();
        match event {
            TrackerEvent::Step { step, reply, clock } => state.next_step(
                before,
                step,
                reply,
                clock,
            ).0,
            TrackerEvent::Resume { at } => SwitchTracker { same_type_seconds: at, ..before },
        }
    }
}

/// With at least one retry attempt, the count stays below the number of
/// attempts, whatever happens in whatever order and however the state changes
/// in between, so it never overflows. Only the number of attempts may not go
/// down on the way.
pub proof fn law_count_stays_below_attempts(
    attempts: int,
    tracker: SwitchTracker,
    events: Seq<(StateView, TrackerEvent)>,
    state: StateView,
    current: SwitchType,
)
    requires
        tracker.same_type < attempts <= u8::MAX,
        forall|i: int|
            0 <= i < events.len() ==> attempts <= (
            #[trigger] events[i]).0.config.switcher.retry_attempts <= u8::MAX,
        forall|i: int, j: int|
            0 <= i <= j < events.len() ==> (#[trigger] events[i]).0.config.switcher.retry_attempts
                <= (#[trigger] events[j]).0.config.switcher.retry_attempts,
    ensures
        tracker_after(tracker, events).same_type < (if events.len() == 0 {
            attempts
        } else {
            events.last().0.config.switcher.retry_attempts
        }),
        state.same_type_count(tracker_after(tracker, events), current) <= u8::MAX,
    decreases events.len(),
{
    if events.len() > 0 {
        let earlier = events.drop_last();
        assert(forall|i: int| 0 <= i < earlier.len() ==> #[trigger] earlier[i] == events[i]);
        law_count_stays_below_attempts(attempts, tracker, earlier, state, current);
    }
}

/// One pass that came up with the same switch type again.
pub struct SameTypePass {
    /// The state at that time
    pub state: StateView,
    /// The stream server that reported the type
    pub server: Option<StreamServerView>,
    pub clock: ClockReadings,
}

/// What a pass makes of a tracker if it comes up with `current`.
pub open spec fn pass_verdict(
    pass: SameTypePass,
    tracker: SwitchTracker,
    current: SwitchType,
) -> Verdict {
    pass.state.verdict(tracker, pass.server, current, pass.clock)
}

/// The tracker after these passes, each of which came up with `current`.
pub open spec fn seen_again(
    tracker: SwitchTracker,
    current: SwitchType,
    passes: Seq<SameTypePass>,
) -> SwitchTracker
    decreases passes.len(),
{
    if passes.len() == 0 {
        tracker
    } else {
        pass_verdict(
            passes.last(),
            seen_again(tracker, current, passes.drop_last()),
            current,
        ).tracker
    }
}

/// A switch type that stays the same is acted upon when it has been seen again
/// as many times as there are retry attempts, not earlier and not later, and
/// the timer runs on until then. The state may change in between, as long as
/// the number of attempts does not and no server takes over.
pub proof fn law_due_after_retry_attempts(
    attempts: int,
    tracker: SwitchTracker,
    current: SwitchType,
    passes: Seq<SameTypePass>,
    pass: SameTypePass,
)
    requires
        tracker.prev_switch_type == current,
        tracker.same_type == 0,
        passes.len() < attempts <= u8::MAX,
        forall|i: int|
            0 <= i < passes.len() ==> (
            #[trigger] passes[i]).state.config.switcher.retry_attempts == attempts
                && !passes[i].state.takes_over(passes[i].server, current),
        pass.state.config.switcher.retry_attempts == attempts,
        !pass.state.takes_over(pass.server, current),
    ensures
        seen_again(tracker, current, passes) == (SwitchTracker {
            same_type: passes.len() as u8,
            ..tracker
        }),
        pass_verdict(pass, seen_again(tracker, current, passes), current).due == (if passes.len()
            + 1 == attempts {
            Some(current)
        } else {
            None
        }),
    decreases passes.len(),
{
    if passes.len() > 0 {
        let earlier = passes.drop_last();
        assert(forall|i: int| 0 <= i < earlier.len() ==> #[trigger] earlier[i] == passes[i]);
        law_due_after_retry_attempts(attempts, tracker, current, earlier, passes.last());
    }
}

/// A step that fits, whatever the clock says, fits by every reading of the
/// clock.
pub proof fn law_fitting_step_never_overflows(
    state: StateView,
    tracker: SwitchTracker,
    step: SwitchStepView,
    reply: SwitchReply,
    clock: ClockReadings,
)
    requires
        state.step_fits(tracker, step, reply),
    ensures
        state.checked_next_step(tracker, step, reply, clock) == Some(
            state.next_step(tracker, step, reply, clock),
        ),
{
}

/// Right after a stream has started, the offline timeout neither stops it nor
/// fails for want of a software, as long as reading the clock takes less time
/// than the timeout.
pub proof fn law_started_stream_is_not_stopped(
    state: StateView,
    tracker: SwitchTracker,
    server: Option<int>,
    current: SwitchType,
    clock: ClockReadings,
)
    requires
        state.just_started(clock.stream_age as int),
        state.config.optional_options.offline_timeout matches Some(minutes) ==> clock.fresh_age
            < secs_in_nanos(minutes * 60),
    ensures
        ({
            let step = state.act_on(
                server,
                state.verdict(tracker, state.server_at(server), current, clock),
            );
            &&& step != SwitchStepView::StopStream
            &&& step != SwitchStepView::Done(Err(Error::NoSoftwareSet))
        }),
{
}

/// A stream is stopped only while there is one, only over a connection that is
/// there, and only if it has been offline for the whole timeout.
pub proof fn law_stream_is_stopped_only_after_timeout(
    state: StateView,
    server: Option<int>,
    verdict: Verdict,
)
    ensures
        state.act_on(server, verdict) == SwitchStepView::StopStream <==> {
            &&& verdict.due == Some(SwitchType::Offline)
            &&& state.offline_timeout_reached(verdict.age)
            &&& state.broadcasting_software.software_set
        },
        state.offline_timeout_reached(verdict.age) ==> state.broadcasting_software.is_streaming,
{
}

// One pass.

/// Whether `reply` is an answer to `step`.
pub open spec fn answers(step: SwitchStepView, reply: SwitchReply) -> bool {
    match step {
        SwitchStepView::Begin => reply is Go,
        SwitchStepView::AskSwitchType { .. } => reply is Reported,
        SwitchStepView::StopStream => reply is StreamStopped,
        SwitchStepView::AskRecording => reply is Recording,
        SwitchStepView::ToggleRecording => reply is RecordingToggled,
        SwitchStepView::SendOfflineTimeout { .. } => reply is OfflineTimeoutSent,
        SwitchStepView::AskOnline { .. } => reply is Online,
        SwitchStepView::Commit(_) => false,
        SwitchStepView::Done(_) => false,
    }
}

/// A bound on how many steps are left in a pass.
pub open spec fn steps_left(state: StateView, step: SwitchStepView) -> int {
    match step {
        SwitchStepView::Begin => 7int + state.servers().len(),
        SwitchStepView::AskSwitchType { server, .. } => if server < state.servers().len() {
            6int + state.servers().len() - server
        } else {
            6
        },
        SwitchStepView::StopStream => 5,
        SwitchStepView::AskRecording => 4,
        SwitchStepView::ToggleRecording => 3,
        SwitchStepView::SendOfflineTimeout { .. } => 2,
        SwitchStepView::AskOnline { .. } => 1,
        SwitchStepView::Commit(_) => 0,
        SwitchStepView::Done(_) => 0,
    }
}

/// Every answer brings the end of a pass nearer, and whatever is no answer
/// changes nothing. So every pass ends.
pub proof fn law_every_pass_ends(
    state: StateView,
    tracker: SwitchTracker,
    step: SwitchStepView,
    reply: SwitchReply,
    clock: ClockReadings,
)
    requires
        step matches SwitchStepView::AskSwitchType { server, .. } ==> 0 <= server,
    ensures
        ({
            let next = state.next_step(tracker, step, reply, clock);
            &&& answers(step, reply) ==> 0 <= steps_left(state, next.1) < steps_left(state, step)
            &&& !answers(step, reply) ==> next == (tracker, step)
        }),
{
    if let SwitchStepView::AskSwitchType { server, .. } = step {
        lemma_first_from(state.servers(), enabled(), server + 1);
    }
    lemma_first_from(state.servers(), enabled(), 0);
}

/// Holds of the stream servers that are enabled and, going by `reports`, not
/// offline.
pub open spec fn is_online(
    servers: Seq<StreamServerView>,
    reports: Seq<SwitchType>,
    index: int,
) -> bool {
    servers[index].enabled && reports[index] != SwitchType::Offline
}

/// The first stream server at or after `from` that is enabled and not offline,
/// with what it reports.
pub open spec fn first_online(
    servers: Seq<StreamServerView>,
    reports: Seq<SwitchType>,
    from: int,
) -> (Option<int>, SwitchType)
    decreases servers.len() - from,
{
    if from < 0 || from >= servers.len() {
        (None, SwitchType::Offline)
    } else if is_online(servers, reports, from) {
        (Some(from), reports[from])
    } else {
        first_online(servers, reports, from + 1)
    }
}

/// Where a pass gets to if each stream server that it asks answers with its
/// entry in `reports`.
pub open spec fn after_reports(
    state: StateView,
    tracker: SwitchTracker,
    step: SwitchStepView,
    reports: Seq<SwitchType>,
    clock: ClockReadings,
) -> (SwitchTracker, SwitchStepView)
    decreases steps_left(state, step),
    via after_reports_ends
{
    match step {
        SwitchStepView::AskSwitchType { server, .. } => if server < 0 {
            (tracker, step)
        } else {
            let (next_tracker, next) = state.next_step(
                tracker,
                step,
                SwitchReply::Reported(reports[server]),
                clock,
            );
            after_reports(state, next_tracker, next, reports, clock)
        },
        _ => (tracker, step),
    }
}

#[via_fn]
proof fn after_reports_ends(
    state: StateView,
    tracker: SwitchTracker,
    step: SwitchStepView,
    reports: Seq<SwitchType>,
    clock: ClockReadings,
) {
    if let SwitchStepView::AskSwitchType { server, .. } = step {
        if server >= 0 {
            law_every_pass_ends(
                state,
                tracker,
                step,
                SwitchReply::Reported(reports[server]),
                clock,
            );
        }
    }
}

/// What a pass comes to once the switch type is settled.
pub open spec fn settled_pass(
    state: StateView,
    tracker: SwitchTracker,
    found: (Option<int>, SwitchType),
    clock: ClockReadings,
) -> (SwitchTracker, SwitchStepView) {
    let verdict = state.verdict(tracker, state.server_at(found.0), found.1, clock);
    (verdict.tracker, state.act_on(found.0, verdict))
}

/// A search that goes on at `from` ends at the first stream server from there
/// on that is online.
proof fn lemma_search_finds_first_online(
    state: StateView,
    tracker: SwitchTracker,
    from: int,
    reports: Seq<SwitchType>,
    clock: ClockReadings,
)
    requires
        0 <= from,
        reports.len() == state.servers().len(),
    ensures
        ({
            let found = first_online(state.servers(), reports, from);
            match state.search_from(from) {
                Err(server) => after_reports(
                    state,
                    tracker,
                    state.ask_switch_type(server),
                    reports,
                    clock,
                ) == settled_pass(state, tracker, found, clock),
                Ok(settled) => settled == found,
            }
        }),
    decreases state.servers().len() - from,
{
    let servers = state.servers();
    if from < servers.len() {
        lemma_search_finds_first_online(state, tracker, from + 1, reports, clock);
        if servers[from].enabled {
            reveal_with_fuel(after_reports, 2);
            assert(state.search_from(from) == Err::<(Option<int>, SwitchType), int>(from));
        } else {
            assert(state.search_from(from) == state.search_from(from + 1));
        }
    }
}

/// A pass goes by the first enabled stream server that is not offline. Servers
/// that are not enabled, and those behind the one that it found, have no say.
/// If it finds none, the stream is offline.
pub proof fn law_pass_goes_by_first_online_server(
    state: StateView,
    tracker: SwitchTracker,
    reports: Seq<SwitchType>,
    clock: ClockReadings,
)
    requires
        reports.len() == state.servers().len(),
    ensures
        ({
            let begun = state.next_step(tracker, SwitchStepView::Begin, SwitchReply::Go, clock);
            let found = first_online(state.servers(), reports, 0);
            &&& after_reports(state, begun.0, begun.1, reports, clock) == settled_pass(
                state,
                tracker,
                found,
                clock,
            )
            &&& match found.0 {
                Some(i) => 0 <= i < state.servers().len() && is_online(state.servers(), reports, i)
                    && found.1 == reports[i] && forall|j: int|
                    0 <= j < i ==> !is_online(state.servers(), reports, j),
                None => found.1 == SwitchType::Offline && forall|j: int|
                    0 <= j < state.servers().len() ==> !is_online(state.servers(), reports, j),
            }
        }),
{
    lemma_search_finds_first_online(state, tracker, 0, reports, clock);
    lemma_first_online(state.servers(), reports, 0);
}

proof fn lemma_first_online(
    servers: Seq<StreamServerView>,
    reports: Seq<SwitchType>,
    from: int,
)
    requires
        0 <= from,
    ensures
        ({
            let found = first_online(servers, reports, from);
            match found.0 {
                Some(i) => from <= i < servers.len() && is_online(servers, reports, i) && found.1
                    == reports[i] && forall|j: int|
                    from <= j < i ==> !is_online(servers, reports, j),
                None => found.1 == SwitchType::Offline && forall|j: int|
                    from <= j < servers.len() ==> !is_online(servers, reports, j),
            }
        }),
    decreases servers.len() - from,
{
    if from < servers.len() && !is_online(servers, reports, from) {
        lemma_first_online(servers, reports, from + 1);
    }
}

// From pass to pass.

/// One event of a run: the state and the tracker that it met, and the tracker
/// and the step that came of it.
pub struct RunEntry {
    pub state: StateView,
    pub before: SwitchTracker,
    pub event: RunEvent,
    pub after: SwitchTracker,
    pub step: RunStep,
}

/// Whether `event` is what doing `step` leads to.
pub open spec fn ends_step(step: RunStep, event: RunEvent) -> bool {
    match step {
        RunStep::AwaitTick => event is Ticked,
        RunStep::AwaitNotifier(_) => event is Woken,
        RunStep::Pass => event is PassEnded,
    }
}

/// Whether this is how the switcher may run from its start on. Anything may
/// happen to the state at any time, and a pass may do anything to the tracker.
pub open spec fn is_run(entries: Seq<RunEntry>) -> bool {
    &&& entries.len() > 0 ==> entries[0].event is Started
    &&& forall|i: int|
        0 <= i < entries.len() ==> (#[trigger] entries[i]).step == entries[i].state.run_step(
            entries[i].event,
        ) && tracker_follows(entries[i].before, entries[i].event, entries[i].after)
    &&& forall|i: int, j: int|
        0 <= i && j == i + 1 && j < entries.len() ==> ends_step(
            (#[trigger] entries[i]).step,
            (#[trigger] entries[j]).event,
        ) && (entries[i].step is Pass || entries[j].before == entries[i].after)
}

/// A run starts with a tick. A pass is only ever done right at a tick, and only
/// if there is nothing to wait for then.
pub proof fn law_pass_is_done_only_while_awake(entries: Seq<RunEntry>, i: int)
    requires
        is_run(entries),
        0 <= i < entries.len(),
    ensures
        entries[0].step == RunStep::AwaitTick,
        entries[i].step == RunStep::Pass <==> entries[i].event == RunEvent::Ticked
            && entries[i].state.sleep_notifier() is None,
        entries[i].step == RunStep::Pass ==> 0 < i && entries[i - 1].step == RunStep::AwaitTick
            && entries[i].after == entries[i - 1].after,
{
    assert(i > 0 ==> ends_step(entries[i - 1].step, entries[i].event));
}

/// After a wait the timer starts again, and the type and the count are kept. No
/// pass comes before it has been asked again whether there is anything to wait
/// for: that is asked at the next tick, of the state as it is then.
pub proof fn law_after_a_wait_it_is_asked_again(entries: Seq<RunEntry>, i: int)
    requires
        is_run(entries),
        0 <= i < entries.len(),
        entries[i].step is AwaitNotifier,
    ensures
        i + 1 < entries.len() ==> {
            &&& entries[i + 1].event == RunEvent::Woken
            &&& entries[i + 1].step == RunStep::AwaitTick
            &&& is_timer_reading(entries[i + 1].after.same_type_seconds)
            &&& entries[i + 1].after.prev_switch_type == entries[i].before.prev_switch_type
            &&& entries[i + 1].after.same_type == entries[i].before.same_type
        },
        i + 2 < entries.len() ==> {
            &&& entries[i + 2].event == RunEvent::Ticked
            &&& entries[i + 2].step == entries[i + 2].state.run_step(RunEvent::Ticked)
            &&& entries[i + 2].after == entries[i + 1].after
        },
{
    assert(i + 1 < entries.len() ==> ends_step(entries[i].step, entries[i + 1].event));
    assert(i + 2 < entries.len() ==> ends_step(entries[i + 1].step, entries[i + 2].event));
}

/// A pass, whether it succeeds or fails, is followed by another tick, with the
/// tracker that the pass left.
pub proof fn law_after_a_pass_comes_a_tick(entries: Seq<RunEntry>, i: int)
    requires
        is_run(entries),
        0 <= i < entries.len(),
        entries[i].step == RunStep::Pass,
    ensures
        i + 1 < entries.len() ==> {
            &&& entries[i + 1].event is PassEnded
            &&& entries[i + 1].step == RunStep::AwaitTick
            &&& entries[i + 1].after == entries[i + 1].before
        },
        i + 2 < entries.len() ==> {
            &&& entries[i + 2].event == RunEvent::Ticked
            &&& entries[i + 2].before == entries[i + 1].before
            &&& entries[i + 2].after == entries[i + 1].before
        },
{
    assert(i + 1 < entries.len() ==> ends_step(entries[i].step, entries[i + 1].event));
    assert(i + 2 < entries.len() ==> ends_step(entries[i + 1].step, entries[i + 2].event));
}

// Scenes.

/// Whether these are the scenes that a stream server has of its own, or its
/// backup scenes.
pub open spec fn server_has_scenes(server: StreamServerView, scenes: SwitchingScenesView) -> bool {
    ||| server.override_scenes == Some(scenes)
    ||| server.depends_on matches Some(depends) && depends.backup_scenes == scenes
}

/// Whether the settings hold these scenes: as the general ones, or for one of
/// the stream servers.
pub open spec fn settings_hold_scenes(config: ConfigView, scenes: SwitchingScenesView) -> bool {
    ||| config.switcher.switching_scenes == scenes
    ||| exists|i: int|
        0 <= i < config.switcher.stream_servers.len() && #[trigger] server_has_scenes(
            config.switcher.stream_servers[i],
            scenes,
        )
}

/// Whether the settings name the scene to go to for this very switch type. Only
/// going back to the previous scene may lead elsewhere: to whichever scene is
/// remembered.
pub open spec fn goes_to_known_scene(state: StateView, change: SceneChangeView) -> bool {
    if change.switch_type == SwitchType::Previous {
        change.scene == state.broadcasting_software.prev_scene
    } else {
        exists|scenes: SwitchingScenesView| #[trigger]
            settings_hold_scenes(state.config, scenes) && scenes.scene(change.switch_type) == Some(
                change.scene,
            )
    }
}

/// A scene that the settings name for some switch type is a scene of the
/// settings.
proof fn lemma_held_scenes_are_known(
    config: ConfigView,
    scenes: SwitchingScenesView,
    scene: Seq<char>,
)
    requires
        settings_hold_scenes(config, scenes),
        scenes.has(scene),
    ensures
        config.has_scene(scene),
{
    if config.switcher.switching_scenes != scenes {
        let i = choose|i: int|
            0 <= i < config.switcher.stream_servers.len() && #[trigger] server_has_scenes(
                config.switcher.stream_servers[i],
                scenes,
            );
        assert(server_has_scene(config.switcher.stream_servers[i], scene));
    }
}

/// Whether a step does not lead to a scene that nobody named.
pub open spec fn step_is_sound(state: StateView, step: SwitchStepView) -> bool {
    step matches SwitchStepView::Commit(change) ==> goes_to_known_scene(state, change)
}

proof fn lemma_scene_change_goes_to_known_scene(
    state: StateView,
    server: Option<int>,
    switch_type: SwitchType,
    online: bool,
)
    ensures
        goes_to_known_scene(state, state.scene_change(server, switch_type, online)),
{
    let scenes = match optional_scenes(state.server_at(server), online) {
        Some(scenes) => {
            assert(server_has_scenes(state.servers()[server->0], scenes));
            scenes
        },
        None => state.config.switcher.switching_scenes,
    };
    assert(settings_hold_scenes(state.config, scenes));
}

/// A pass leads to a scene that the settings name for the switch type, or back
/// to the previous scene. This holds at every step, from `Begin` on.
pub proof fn law_pass_leads_to_known_scene(
    state: StateView,
    tracker: SwitchTracker,
    step: SwitchStepView,
    reply: SwitchReply,
    clock: ClockReadings,
)
    requires
        step_is_sound(state, step),
    ensures
        step_is_sound(state, SwitchStepView::Begin),
        step_is_sound(state, state.next_step(tracker, step, reply, clock).1),
{
    let next = state.next_step(tracker, step, reply, clock).1;
    if let SwitchStepView::Commit(change) = next {
        assert forall|server: Option<int>, switch_type: SwitchType, online: bool|
            goes_to_known_scene(
                state,
                #[trigger] state.scene_change(server, switch_type, online),
            ) by {
            lemma_scene_change_goes_to_known_scene(state, server, switch_type, online);
        }
    }
}

/// Whether every scene that the settings name is switchable, and so is the
/// previous scene, if there is one.
pub open spec fn scenes_are_switchable(state: StateView) -> bool {
    &&& forall|scene: Seq<char>| #[trigger]
        state.config.has_scene(scene) ==> state.switcher_state.switchable_scenes.contains(scene)
    &&& state.broadcasting_software.prev_scene.len() > 0
        ==> state.switcher_state.switchable_scenes.contains(
        state.broadcasting_software.prev_scene,
    )
}

/// Once all scenes were made switchable, they stay so: no scene that a pass
/// leads to and no request takes that away. So the switcher can always leave
/// the scenes that it goes to.
pub proof fn law_scenes_stay_switchable(
    state: StateView,
    change: SceneChangeView,
    request: SceneRequestView,
    at: Instant,
)
    requires
        scenes_are_switchable(state),
        goes_to_known_scene(state, change),
    ensures
        scenes_are_switchable(state.committed(change)),
        scenes_are_switchable(state.request_accepted(request, at)),
        change.switch_type != SwitchType::Previous || change.scene.len() > 0
            ==> state.switcher_state.switchable_scenes.contains(change.scene),
{
    assert(state.committed(change).config == state.config);
    assert(state.request_accepted(request, at).config == state.config);
    if change.switch_type != SwitchType::Previous {
        let scenes = choose|scenes: SwitchingScenesView| #[trigger]
            settings_hold_scenes(state.config, scenes) && scenes.scene(change.switch_type) == Some(
                change.scene,
            );
        lemma_held_scenes_are_known(state.config, scenes, change.scene);
    }
}

/// Making all scenes switchable makes those of the settings so, takes away
/// none, adds no other, and does nothing when done twice. The previous scene
/// is among them if it was settled on by these settings, or if there is none.
pub proof fn law_all_scenes_become_switchable(state: StateView)
    ensures
        scenes_are_switchable(state.with_all_switchable_scenes())
            <==> state.broadcasting_software.prev_scene.len() == 0
            || state.config.has_scene(state.broadcasting_software.prev_scene)
            || state.switcher_state.switchable_scenes.contains(
            state.broadcasting_software.prev_scene,
        ),
        forall|scene: Seq<char>|
            #![trigger state.switcher_state.switchable_scenes.contains(scene)]
            #![trigger state.with_all_switchable_scenes().switcher_state.switchable_scenes.contains(scene)]
            state.with_all_switchable_scenes().switcher_state.switchable_scenes.contains(scene)
                <==> state.switcher_state.switchable_scenes.contains(scene)
                || state.config.has_scene(scene),
        state.with_all_switchable_scenes().with_all_switchable_scenes()
            == state.with_all_switchable_scenes(),
{
    let all = state.with_all_switchable_scenes();
    assert(all.config == state.config);
    assert(all.with_all_switchable_scenes().switcher_state.switchable_scenes
        =~= all.switcher_state.switchable_scenes);
}

/// Going back to the previous scene goes to the normal or low scene that was
/// settled on last, however often the stream went offline in between.
pub proof fn law_previous_scene_comes_back(
    state: StateView,
    change: SceneChangeView,
    offline: SceneChangeView,
    server: Option<int>,
    online: bool,
)
    requires
        change.switch_type == SwitchType::Normal || change.switch_type == SwitchType::Low,
        offline.switch_type == SwitchType::Offline,
    ensures
        state.committed(change).scene_change(server, SwitchType::Previous, online).scene
            == change.scene,
        state.committed(change).committed(offline) == state.committed(change),
{
}

/// Going back to the previous scene does not change what the previous scene
/// is.
pub proof fn law_previous_scene_is_kept(
    state: StateView,
    server: Option<int>,
    online: bool,
)
    ensures
        ({
            let change = state.scene_change(server, SwitchType::Previous, online);
            state.committed(change).broadcasting_software == state.broadcasting_software
        }),
{
}

/// While the stream is offline, the stream server that was shown last decides
/// on the scene. When the stream is back, that server does not take over from
/// itself.
pub proof fn law_last_used_server_decides_offline_scene(
    state: StateView,
    change: SceneChangeView,
    server: Option<int>,
    index: int,
)
    requires
        change.switch_type != SwitchType::Offline,
        0 <= index < state.servers().len(),
        change.server_name == Some(state.servers()[index].name),
        forall|j: int| 0 <= j < index ==> (#[trigger] state.servers()[j]).name
            != state.servers()[index].name,
    ensures
        state.committed(change).relevant_server(server, SwitchType::Offline) == Some(index),
        forall|current: SwitchType|
            !(#[trigger] state.committed(change).takes_over(Some(state.servers()[index]), current)),
{
    let name = state.servers()[index].name;
    lemma_first_from_skips(state.servers(), named(name), 0, index);
    assert(find_server(state.servers(), name) == first_from(state.servers(), named(name), index));
}

/// A stream server that takes over from another one shows its normal scene at
/// once, not the previous scene of the other.
pub proof fn law_server_that_takes_over_shows_normal_scene(
    state: StateView,
    tracker: SwitchTracker,
    server: Option<StreamServerView>,
    clock: ClockReadings,
)
    requires
        state.takes_over(server, SwitchType::Previous),
    ensures
        state.verdict(tracker, server, SwitchType::Previous, clock).due == Some(
            SwitchType::Normal,
        ),
{
}

// Stream figures.

/// Counted from itself, a stream has no frames. Counting from a start and
/// counting from a later point add up.
pub proof fn law_frames_add_up(status: StreamStatus, middle: StreamStatus, start: StreamStatus)
    requires
        status.counts_from(middle),
        middle.counts_from(start),
    ensures
        status.counts_from(start),
        status.since(start).counts_from(middle.since(start)),
        status.since(start).since(middle.since(start)) == status.since(middle),
        status.since(start).num_total_frames == status.since(middle).num_total_frames
            + middle.since(start).num_total_frames,
        status.since(start).num_dropped_frames == status.since(middle).num_dropped_frames
            + middle.since(start).num_dropped_frames,
        status.since(start).render_total_frames == status.since(middle).render_total_frames
            + middle.since(start).render_total_frames,
        status.since(start).render_missed_frames == status.since(middle).render_missed_frames
            + middle.since(start).render_missed_frames,
        status.since(start).output_total_frames == status.since(middle).output_total_frames
            + middle.since(start).output_total_frames,
        status.since(start).output_skipped_frames == status.since(middle).output_skipped_frames
            + middle.since(start).output_skipped_frames,
        status.since(status).num_total_frames == 0,
        status.since(status).num_dropped_frames == 0,
        status.since(status).render_total_frames == 0,
        status.since(status).render_missed_frames == 0,
        status.since(status).output_total_frames == 0,
        status.since(status).output_skipped_frames == 0,
{
}

} // verus!
