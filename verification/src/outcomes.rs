//! What comes of each decision of the switcher, told by nothing but the settings,
//! the state, what was answered and what the clock said.
use crate::clock::{is_age_of, is_reading, is_timer_age_of, is_timer_reading, secs_in_nanos};
use crate::config::{Config, StreamServer, StreamServerView};
use crate::error::Error;
use crate::laws::{is_run, RunEntry};
use crate::rules::{
    enabled, find_server, named, optional_scenes, should_delay_normal_recovery,
    should_instant_degrade, tracker_follows, Verdict,
};
use crate::scenes::{SwitchType, SwitchingScenes, SwitchingScenesView};
use crate::state::{
    server_has_scene, BroadcastingSoftwareStateView, ClientStatus, State, StateView,
    SwitcherStateView,
};
use crate::status::StreamStatus;
use crate::steps::{
    AnnouncementView, ClockReadings, RunEvent, RunStep, SceneChangeView, SceneRequest,
    SceneRequestView, SwitchReply, SwitchStep, SwitchStepView, SwitchTracker,
};
use crate::switcher::{index_view, request_view};
use crate::triggers::Triggers;
use crate::views::{first_from, lemma_first_from, lemma_first_from_skips};
use std::sync::Arc;
use std::time::{Duration, Instant};
use tokio::sync::Notify;
use vstd::prelude::*;

verus! {

// Waiting.

/// The switcher has nothing to wait for exactly if it is enabled, the
/// broadcasting software is connected, there is a stream or none is needed, and
/// the scene that is shown may be left. Otherwise it waits for the first of
/// these that is missing, in this order.
pub proof fn law_switcher_waits_for_what_is_missing(state: StateView)
    ensures
        state.sleep_notifier() is None <==> {
            &&& state.config.switcher.bitrate_switcher_enabled
            &&& state.broadcasting_software.status == ClientStatus::Connected
            &&& state.config.switcher.only_switch_when_streaming
                ==> state.broadcasting_software.is_streaming
            &&& state.switcher_state.switchable_scenes.contains(
                state.broadcasting_software.current_scene,
            )
        },
        !state.config.switcher.bitrate_switcher_enabled ==> state.sleep_notifier() == Some(
            state.switcher_state.switcher_enabled_notifier,
        ),
        state.config.switcher.bitrate_switcher_enabled && state.broadcasting_software.status
            != ClientStatus::Connected ==> state.sleep_notifier() == Some(
            state.broadcasting_software.connected_notifier,
        ),
        state.config.switcher.bitrate_switcher_enabled && state.broadcasting_software.status
            == ClientStatus::Connected && state.config.switcher.only_switch_when_streaming
            && !state.broadcasting_software.is_streaming ==> state.sleep_notifier() == Some(
            state.broadcasting_software.start_streaming_notifier,
        ),
        state.config.switcher.bitrate_switcher_enabled && state.broadcasting_software.status
            == ClientStatus::Connected && (state.config.switcher.only_switch_when_streaming
            ==> state.broadcasting_software.is_streaming)
            && !state.switcher_state.switchable_scenes.contains(
            state.broadcasting_software.current_scene,
        ) ==> state.sleep_notifier() == Some(state.broadcasting_software.switch_scene_notifier),
{
}

/// A pass is done at a tick if nothing is missing, and if something is, the
/// tick leads to a wait for it. Every other event leads to the next tick.
pub proof fn law_tick_leads_to_pass_or_wait(
    state: StateView,
    event: RunEvent,
    notifier: Arc<Notify>,
)
    ensures
        state.run_step(event) == RunStep::Pass <==> {
            &&& event == RunEvent::Ticked
            &&& state.config.switcher.bitrate_switcher_enabled
            &&& state.broadcasting_software.status == ClientStatus::Connected
            &&& state.config.switcher.only_switch_when_streaming
                ==> state.broadcasting_software.is_streaming
            &&& state.switcher_state.switchable_scenes.contains(
                state.broadcasting_software.current_scene,
            )
        },
        state.run_step(event) == RunStep::AwaitNotifier(notifier) <==> event == RunEvent::Ticked
            && state.sleep_notifier() == Some(notifier),
        state.run_step(event) == RunStep::AwaitTick <==> event != RunEvent::Ticked,
{
}

/// Between two passes only the end of a break touches the tracker, and of the
/// tracker only the timer.
pub proof fn law_only_a_break_restarts_the_timer(
    before: SwitchTracker,
    event: RunEvent,
    after: SwitchTracker,
)
    ensures
        event != RunEvent::Woken ==> (tracker_follows(before, event, after) <==> before == after),
        event == RunEvent::Woken ==> (tracker_follows(before, event, after) <==> {
            &&& is_timer_reading(after.same_type_seconds)
            &&& before == (SwitchTracker { same_type_seconds: before.same_type_seconds, ..after })
        }),
{
}

/// However a run goes, scenes are switched without a stream only if the
/// settings allow it, and never while the switcher is disabled, the software is
/// gone, or a scene is shown that is not to be left.
pub proof fn law_passes_of_a_run_are_allowed(entries: Seq<RunEntry>, i: int)
    requires
        is_run(entries),
        0 <= i < entries.len(),
        entries[i].step == RunStep::Pass,
    ensures
        entries[i].state.config.switcher.bitrate_switcher_enabled,
        entries[i].state.broadcasting_software.status == ClientStatus::Connected,
        entries[i].state.config.switcher.only_switch_when_streaming
            ==> entries[i].state.broadcasting_software.is_streaming,
        entries[i].state.switcher_state.switchable_scenes.contains(
            entries[i].state.broadcasting_software.current_scene,
        ),
{
}

// When to act.

/// A drop in quality is one from normal to low or offline, or from low to
/// offline. It is acted upon at once if the server that reports it says so, and
/// when the stream is gone also if any enabled server does.
pub proof fn law_which_drops_are_acted_upon_at_once(
    server: Option<StreamServerView>,
    servers: Seq<StreamServerView>,
    previous: SwitchType,
    current: SwitchType,
    i: int,
)
    ensures
        should_instant_degrade(server, servers, previous, current) ==> {
            ||| previous == SwitchType::Normal && current == SwitchType::Low
            ||| previous == SwitchType::Normal && current == SwitchType::Offline
            ||| previous == SwitchType::Low && current == SwitchType::Offline
        },
        (previous == SwitchType::Normal && current == SwitchType::Low) ==> (
        should_instant_degrade(server, servers, previous, current) <==> (server is Some
            && server->0.instant_degrade)),
        (previous == SwitchType::Normal || previous == SwitchType::Low) && current
            == SwitchType::Offline && server is Some && server->0.instant_degrade
            ==> should_instant_degrade(server, servers, previous, current),
        (previous == SwitchType::Normal || previous == SwitchType::Low) && current
            == SwitchType::Offline && 0 <= i < servers.len() && servers[i].enabled
            && servers[i].instant_degrade ==> should_instant_degrade(
            server,
            servers,
            previous,
            current,
        ),
        should_instant_degrade(server, servers, previous, current) && !(server is Some
            && server->0.instant_degrade) ==> exists|j: int|
            0 <= j < servers.len() && (#[trigger] servers[j]).enabled
                && servers[j].instant_degrade,
{
}

/// A recovery is delayed if the stream was anything but normal, is normal now,
/// and the server that says so asks for a delay.
pub proof fn law_which_recoveries_are_delayed(
    server: StreamServerView,
    previous: SwitchType,
    current: SwitchType,
)
    ensures
        should_delay_normal_recovery(Some(server), previous, current) <==> (previous
            == SwitchType::Low || previous == SwitchType::Offline || previous
            == SwitchType::Previous) && current == SwitchType::Normal
            && server.delay_normal_recovery,
        !should_delay_normal_recovery(None, previous, current),
{
}

/// A pass acts upon a switch type exactly if one of these holds: the type has
/// been seen again as often as there are retry attempts; a stream is back, and
/// the settings want it shown at once; quality drops, and a server wants that
/// acted upon at once; another server takes over; or a delayed recovery has
/// lasted as many seconds as there are attempts. A recovery that is delayed goes
/// by none of the others.
pub proof fn law_when_a_type_is_acted_upon(
    state: StateView,
    tracker: SwitchTracker,
    server: Option<StreamServerView>,
    current: SwitchType,
    clock: ClockReadings,
)
    ensures
        ({
            let previous = tracker.prev_switch_type;
            let attempts = state.config.switcher.retry_attempts;
            let servers = state.config.switcher.stream_servers;
            let delayed = current == SwitchType::Normal && previous != SwitchType::Normal
                && server is Some && server->0.delay_normal_recovery;
            let seen_often_enough = if previous == current {
                tracker.same_type + 1 == attempts
            } else {
                attempts == 0
            };
            let is_back = state.config.switcher.instantly_switch_on_recover && previous
                == SwitchType::Offline && current != SwitchType::Offline;
            let drops = {
                &&& previous == SwitchType::Normal || previous == SwitchType::Low
                &&& current == SwitchType::Low || current == SwitchType::Offline
                &&& previous != current
                &&& {
                    ||| server is Some && server->0.instant_degrade
                    ||| current == SwitchType::Offline && exists|i: int|
                        0 <= i < servers.len() && (#[trigger] servers[i]).enabled
                            && servers[i].instant_degrade
                }
            };
            let takes_over = current == SwitchType::Previous && server is Some
                && state.switcher_state.last_used_server is Some
                && state.switcher_state.last_used_server->0 != server->0.name;
            state.verdict(tracker, server, current, clock).due is Some <==> if delayed {
                clock.fresh_age >= attempts * 1_000_000_000
            } else {
                seen_often_enough || is_back || drops || takes_over
            }
        }),
{
}

/// A switch type that a pass sees for the first time is only counted, as long
/// as retries are wanted, nothing asks for haste, and no time limit is up.
pub proof fn law_new_type_is_only_counted(
    state: StateView,
    tracker: SwitchTracker,
    server: Option<StreamServerView>,
    current: SwitchType,
    clock: ClockReadings,
)
    requires
        current != tracker.prev_switch_type,
        state.config.switcher.retry_attempts > 0,
        state.config.switcher.instantly_switch_on_recover ==> tracker.prev_switch_type
            != SwitchType::Offline,
        server is Some ==> !server->0.instant_degrade && !server->0.delay_normal_recovery,
        forall|i: int|
            0 <= i < state.config.switcher.stream_servers.len()
                && (#[trigger] state.config.switcher.stream_servers[i]).enabled
                ==> !state.config.switcher.stream_servers[i].instant_degrade,
        state.switcher_state.last_used_server is None || current != SwitchType::Previous || (
        server is Some ==> state.switcher_state.last_used_server == Some(server->0.name)),
    ensures
        state.verdict(tracker, server, current, clock) == (Verdict {
            tracker: SwitchTracker {
                prev_switch_type: current,
                same_type: 0,
                same_type_seconds: clock.now,
            },
            due: None,
            age: clock.fresh_age as int,
        }),
{
}

/// What is acted upon is the type that was seen, except that a server that takes
/// over from another one gets its normal scene in place of the previous one.
pub proof fn law_which_type_is_acted_upon(
    state: StateView,
    tracker: SwitchTracker,
    server: Option<StreamServerView>,
    current: SwitchType,
    clock: ClockReadings,
)
    ensures
        ({
            let due = state.verdict(tracker, server, current, clock).due;
            let last = state.switcher_state.last_used_server;
            &&& current != SwitchType::Previous && due is Some ==> due == Some(current)
            &&& current == SwitchType::Previous && due is Some ==> {
                &&& due == Some(SwitchType::Previous) || due == Some(SwitchType::Normal)
                &&& due == Some(SwitchType::Normal) <==> server is Some && last is Some && last->0
                    != server->0.name
            }
        }),
{
}

/// The count goes up by one if a type is seen again and not acted upon, and is
/// zero otherwise. The timer is set to the present if the type is a new one, or
/// if one is acted upon within the retry attempts and five more seconds of the
/// start of a stream while switching does not depend on streams. Otherwise the
/// timer runs on.
pub proof fn law_count_and_timer_of_a_pass(
    state: StateView,
    tracker: SwitchTracker,
    server: Option<StreamServerView>,
    current: SwitchType,
    clock: ClockReadings,
)
    ensures
        ({
            let verdict = state.verdict(tracker, server, current, clock);
            let again = tracker.prev_switch_type == current;
            let restarts = !again || verdict.due is Some
                && !state.config.switcher.only_switch_when_streaming && clock.stream_age <= (
            state.config.switcher.retry_attempts + 5) * 1_000_000_000;
            &&& verdict.tracker.prev_switch_type == current
            &&& again && verdict.due is None && tracker.same_type < u8::MAX
                ==> verdict.tracker.same_type == tracker.same_type + 1
            &&& !again || verdict.due is Some ==> verdict.tracker.same_type == 0
            &&& restarts ==> verdict.tracker.same_type_seconds == clock.now && verdict.age
                == clock.fresh_age
            &&& !restarts ==> verdict.tracker.same_type_seconds == tracker.same_type_seconds
                && verdict.age == clock.type_age
        }),
{
}

// Overflow.

/// A step is refused exactly if the count of the type that it settles is full,
/// or if that type is due and the grace period after the start of a stream does
/// not fit its counter, or if the stream is to be found offline and the timeout
/// in seconds does not fit.
pub proof fn law_which_steps_overflow(
    state: StateView,
    tracker: SwitchTracker,
    step: SwitchStepView,
    reply: SwitchReply,
    clock: ClockReadings,
)
    ensures
        state.checked_next_step(tracker, step, reply, clock) is Some
            ==> state.checked_next_step(tracker, step, reply, clock) == Some(
            state.next_step(tracker, step, reply, clock),
        ),
        state.checked_next_step(tracker, step, reply, clock) is None <==> {
            &&& state.settled(step, reply) matches Some(Ok((server, current)))
            &&& {
                let due = state.verdict(tracker, state.server_at(server), current, clock).due is Some;
                ||| tracker.prev_switch_type == current && tracker.same_type == 255
                ||| due && !state.config.switcher.only_switch_when_streaming
                    && state.config.switcher.retry_attempts > 250
                ||| due && current == SwitchType::Offline
                    && state.broadcasting_software.is_streaming
                    && state.config.optional_options.offline_timeout is Some
                    && state.config.optional_options.offline_timeout->0 > 71_582_788
            }
        },
{
}

/// A step fits, whatever the clock says, exactly if it is refused by no reading
/// of the clock.
pub proof fn law_fitting_steps_fit_by_every_clock(
    state: StateView,
    tracker: SwitchTracker,
    step: SwitchStepView,
    reply: SwitchReply,
)
    requires
        0 <= state.config.switcher.retry_attempts <= u8::MAX,
    ensures
        state.step_fits(tracker, step, reply) <==> forall|clock: ClockReadings|
            (#[trigger] state.checked_next_step(tracker, step, reply, clock)) is Some,
{
    let late = ClockReadings {
        now: tracker.same_type_seconds,
        fresh_age: 255_000_000_000,
        type_age: 0,
        stream_age: 0,
    };
    if !state.step_fits(tracker, step, reply) {
        assert(state.checked_next_step(tracker, step, reply, late) is None);
    }
}

// The steps of a pass.

/// A pass begins with the first enabled server, and asks by the triggers of the
/// settings.
pub proof fn law_pass_begins_with_first_enabled_server(
    state: StateView,
    tracker: SwitchTracker,
    clock: ClockReadings,
    first: int,
)
    requires
        0 <= first < state.config.switcher.stream_servers.len(),
        state.config.switcher.stream_servers[first].enabled,
        forall|j: int|
            0 <= j < first ==> !(#[trigger] state.config.switcher.stream_servers[j]).enabled,
    ensures
        state.next_step(tracker, SwitchStepView::Begin, SwitchReply::Go, clock) == (
            tracker,
            SwitchStepView::AskSwitchType {
                server: first,
                triggers: state.config.switcher.triggers,
            },
        ),
{
    lemma_first_from_skips(state.servers(), enabled(), 0, first);
}

/// After a server that is offline comes the next enabled one.
pub proof fn law_offline_server_hands_on_to_next_enabled(
    state: StateView,
    tracker: SwitchTracker,
    clock: ClockReadings,
    asked: int,
    triggers: Triggers,
    next: int,
)
    requires
        0 <= asked < next < state.config.switcher.stream_servers.len(),
        state.config.switcher.stream_servers[next].enabled,
        forall|j: int|
            asked < j < next ==> !(#[trigger] state.config.switcher.stream_servers[j]).enabled,
    ensures
        state.next_step(
            tracker,
            SwitchStepView::AskSwitchType { server: asked, triggers },
            SwitchReply::Reported(SwitchType::Offline),
            clock,
        ) == (
            tracker,
            SwitchStepView::AskSwitchType {
                server: next,
                triggers: state.config.switcher.triggers,
            },
        ),
{
    lemma_first_from_skips(state.servers(), enabled(), asked + 1, next);
}

/// With no enabled server left to ask, the pass goes by an offline stream that
/// no server has reported.
pub proof fn law_pass_without_online_server_is_offline(
    state: StateView,
    tracker: SwitchTracker,
    clock: ClockReadings,
    asked: int,
    triggers: Triggers,
)
    requires
        0 <= asked,
    ensures
        ({
            let servers = state.config.switcher.stream_servers;
            let verdict = state.verdict(tracker, None, SwitchType::Offline, clock);
            let gone = (verdict.tracker, state.act_on(None, verdict));
            let found_none = Some(
                Ok::<(Option<int>, SwitchType), int>((None, SwitchType::Offline)),
            );
            let ask = SwitchStepView::AskSwitchType { server: asked, triggers };
            let offline = SwitchReply::Reported(SwitchType::Offline);
            &&& (forall|j: int| 0 <= j < servers.len() ==> !(#[trigger] servers[j]).enabled) ==> {
                &&& state.settled(SwitchStepView::Begin, SwitchReply::Go) == found_none
                &&& state.next_step(tracker, SwitchStepView::Begin, SwitchReply::Go, clock) == gone
            }
            &&& (forall|j: int| asked < j < servers.len() ==> !(#[trigger] servers[j]).enabled)
                ==> {
                &&& state.settled(ask, offline) == found_none
                &&& state.next_step(tracker, ask, offline, clock) == gone
            }
        }),
{
    lemma_first_from(state.servers(), enabled(), 0);
    lemma_first_from(state.servers(), enabled(), asked + 1);
    let servers = state.config.switcher.stream_servers;
    if forall|j: int| 0 <= j < servers.len() ==> !(#[trigger] servers[j]).enabled {
        assert(first_from(state.servers(), enabled(), 0) is None);
    }
    if forall|j: int| asked < j < servers.len() ==> !(#[trigger] servers[j]).enabled {
        assert(first_from(state.servers(), enabled(), asked + 1) is None);
    }
}

/// A server that is not offline settles the switch type of the pass: its report
/// is looked at, and nobody else is asked.
pub proof fn law_online_server_settles_the_type(
    state: StateView,
    tracker: SwitchTracker,
    clock: ClockReadings,
    asked: int,
    triggers: Triggers,
    reported: SwitchType,
)
    requires
        0 <= asked,
        reported != SwitchType::Offline,
    ensures
        ({
            let servers = state.config.switcher.stream_servers;
            let reported_by = if asked < servers.len() {
                Some(servers[asked])
            } else {
                None
            };
            let verdict = state.verdict(tracker, reported_by, reported, clock);
            let ask = SwitchStepView::AskSwitchType { server: asked, triggers };
            &&& state.settled(ask, SwitchReply::Reported(reported)) == Some(
                Ok::<(Option<int>, SwitchType), int>((Some(asked), reported)),
            )
            &&& state.next_step(tracker, ask, SwitchReply::Reported(reported), clock) == (
                verdict.tracker,
                state.act_on(Some(asked), verdict),
            )
        }),
{
}

/// Which server an index stands for.
pub proof fn law_index_stands_for_server(state: StateView, index: int)
    ensures
        0 <= index < state.config.switcher.stream_servers.len() ==> state.server_at(Some(index))
            == Some(state.config.switcher.stream_servers[index]),
        !(0 <= index < state.config.switcher.stream_servers.len()) ==> state.server_at(Some(index))
            is None,
        state.server_at(None) is None,
{
}

/// Only a switch type that is settled can be looked at: no other step and reply
/// touch the tracker.
pub proof fn law_other_steps_leave_the_tracker(
    state: StateView,
    tracker: SwitchTracker,
    step: SwitchStepView,
    reply: SwitchReply,
    clock: ClockReadings,
)
    requires
        !(step is Begin && reply is Go),
        !(step is AskSwitchType && reply is Reported),
    ensures
        state.settled(step, reply) is None,
        state.next_step(tracker, step, reply, clock).0 == tracker,
{
}

/// A stream is stopped exactly if it is offline and that is due, there is a
/// stream, a timeout is set and over, and there is a software to ask. If only
/// the software is missing, the pass fails. If the timeout is not over, the pass
/// goes on to a scene. What else the settings say has no say in this.
pub proof fn law_when_a_stream_is_stopped(
    state: StateView,
    server: Option<int>,
    verdict: Verdict,
)
    ensures
        ({
            let timeout = state.config.optional_options.offline_timeout;
            let streaming = state.broadcasting_software.is_streaming;
            let software_set = state.broadcasting_software.software_set;
            let over = timeout is Some && verdict.age >= timeout->0 * 60 * 1_000_000_000;
            let step = state.act_on(server, verdict);
            &&& step == SwitchStepView::StopStream <==> verdict.due == Some(SwitchType::Offline)
                && streaming && over && software_set
            &&& step == SwitchStepView::Done(Err(Error::NoSoftwareSet)) <==> verdict.due == Some(
                SwitchType::Offline,
            ) && streaming && over && !software_set
            &&& step == SwitchStepView::Done(Ok(())) <==> verdict.due is None
            &&& verdict.due is Some && !(verdict.due == Some(SwitchType::Offline) && streaming
                && over) ==> step == state.choose_scene(server, verdict.due->0)
        }),
{
    let timeout = state.config.optional_options.offline_timeout;
    if timeout is Some {
        assert(timeout->0 * 60 * 1_000_000_000 == (timeout->0 * 60) * 1_000_000_000);
    }
}

/// The timeout is over exactly if there is a stream, a timeout is set, and at
/// least that many minutes have gone by. Once over, it stays over.
pub proof fn law_when_the_offline_timeout_is_over(state: StateView, age: int, later: int)
    ensures
        state.offline_timeout_reached(age) <==> {
            &&& state.broadcasting_software.is_streaming
            &&& state.config.optional_options.offline_timeout is Some
            &&& age >= state.config.optional_options.offline_timeout->0 * 60_000_000_000
        },
        state.offline_timeout_reached(age) && age <= later ==> state.offline_timeout_reached(later),
        state.offline_timeout_fits() <==> !state.broadcasting_software.is_streaming
            || state.config.optional_options.offline_timeout is None
            || state.config.optional_options.offline_timeout->0 <= 71_582_788,
{
}

/// After a stream was stopped its recording is asked about, if recordings go
/// along with streams, and stopped if there is one. Then chat is told, if there
/// is one, and last comes the offline scene. A request that fails ends the pass
/// there.
pub proof fn law_what_follows_a_stopped_stream(
    state: StateView,
    tracker: SwitchTracker,
    clock: ClockReadings,
    error: Error,
    platform: Seq<char>,
    channel: Seq<char>,
)
    ensures
        ({
            let after = |step: SwitchStepView, reply: SwitchReply|
                state.next_step(tracker, step, reply, clock).1;
            let offline_scene = state.choose_scene(None, SwitchType::Offline);
            let told = if state.config.chat is Some {
                SwitchStepView::SendOfflineTimeout {
                    platform: state.config.chat->0.platform,
                    channel: state.config.chat->0.username,
                }
            } else {
                offline_scene
            };
            &&& after(SwitchStepView::StopStream, SwitchReply::StreamStopped(false))
                == SwitchStepView::Done(Ok(()))
            &&& state.config.optional_options.record_while_streaming ==> after(
                SwitchStepView::StopStream,
                SwitchReply::StreamStopped(true),
            ) == SwitchStepView::AskRecording
            &&& !state.config.optional_options.record_while_streaming ==> after(
                SwitchStepView::StopStream,
                SwitchReply::StreamStopped(true),
            ) == told
            &&& after(SwitchStepView::AskRecording, SwitchReply::Recording(Ok(true)))
                == SwitchStepView::ToggleRecording
            &&& after(SwitchStepView::AskRecording, SwitchReply::Recording(Ok(false))) == told
            &&& after(SwitchStepView::AskRecording, SwitchReply::Recording(Err(error)))
                == SwitchStepView::Done(Err(error))
            &&& after(SwitchStepView::ToggleRecording, SwitchReply::RecordingToggled(true)) == told
            &&& after(SwitchStepView::ToggleRecording, SwitchReply::RecordingToggled(false))
                == SwitchStepView::Done(Ok(()))
            &&& after(
                SwitchStepView::SendOfflineTimeout { platform, channel },
                SwitchReply::OfflineTimeoutSent,
            ) == offline_scene
        }),
{
}

/// Once it is known whether the other server is online, the scene is settled.
pub proof fn law_answer_about_dependency_settles_scene(
    state: StateView,
    tracker: SwitchTracker,
    clock: ClockReadings,
    server: int,
    dependency: int,
    switch_type: SwitchType,
    online: bool,
)
    ensures
        state.next_step(
            tracker,
            SwitchStepView::AskOnline { server, dependency, switch_type },
            SwitchReply::Online(online),
            clock,
        ) == (
            tracker,
            SwitchStepView::Commit(state.scene_change(Some(server), switch_type, online)),
        ),
{
}

// Which scene.

/// The scene for each switch type, and which scenes are among the three.
pub proof fn law_scene_for_each_type(scenes: SwitchingScenesView, scene: Seq<char>)
    ensures
        scenes.scene(SwitchType::Normal) == Some(scenes.normal),
        scenes.scene(SwitchType::Low) == Some(scenes.low),
        scenes.scene(SwitchType::Offline) == Some(scenes.offline),
        scenes.scene(SwitchType::Previous) is None,
        scenes.has(scene) <==> exists|switch_type: SwitchType| #[trigger]
            scenes.scene(switch_type) == Some(scene),
{
    if scenes.has(scene) {
        assert(scenes.scene(SwitchType::Normal) == Some(scene) || scenes.scene(SwitchType::Low)
            == Some(scene) || scenes.scene(SwitchType::Offline) == Some(scene));
    }
}

/// Backup scenes are used exactly while the server that one depends on is not
/// online. Otherwise a server has its own scenes, if it has any.
pub proof fn law_which_scenes_a_server_uses(server: StreamServerView, online: bool)
    ensures
        server.depends_on is Some && !online ==> optional_scenes(Some(server), online) == Some(
            server.depends_on->0.backup_scenes,
        ),
        server.depends_on is None || online ==> optional_scenes(Some(server), online)
            == server.override_scenes,
        optional_scenes(None, online) is None,
{
}

/// Where a switch type leads on a server: with the other server offline, to the
/// backup scene; else to the scene of its own, if it has any, or to the general
/// one. Going back leads to the scene that is remembered, whichever server it
/// is. The change says for which type and which server it is.
pub proof fn law_where_a_type_leads(
    state: StateView,
    index: int,
    switch_type: SwitchType,
    online: bool,
)
    requires
        0 <= index < state.config.switcher.stream_servers.len(),
    ensures
        ({
            let server = state.config.switcher.stream_servers[index];
            let general = state.config.switcher.switching_scenes;
            let change = state.scene_change(Some(index), switch_type, online);
            let backup = server.depends_on is Some && !online;
            &&& change.switch_type == switch_type
            &&& change.server_name == Some(server.name)
            &&& switch_type == SwitchType::Previous ==> change.scene
                == state.broadcasting_software.prev_scene
            &&& switch_type == SwitchType::Normal ==> {
                &&& backup ==> change.scene == server.depends_on->0.backup_scenes.normal
                &&& !backup && server.override_scenes is Some ==> change.scene
                    == server.override_scenes->0.normal
                &&& !backup && server.override_scenes is None ==> change.scene == general.normal
            }
            &&& switch_type == SwitchType::Low ==> {
                &&& backup ==> change.scene == server.depends_on->0.backup_scenes.low
                &&& !backup && server.override_scenes is Some ==> change.scene
                    == server.override_scenes->0.low
                &&& !backup && server.override_scenes is None ==> change.scene == general.low
            }
            &&& switch_type == SwitchType::Offline ==> {
                &&& backup ==> change.scene == server.depends_on->0.backup_scenes.offline
                &&& !backup && server.override_scenes is Some ==> change.scene
                    == server.override_scenes->0.offline
                &&& !backup && server.override_scenes is None ==> change.scene == general.offline
            }
        }),
{
}

/// Without a server, a switch type leads to the general scene, and going back
/// to the scene that is remembered.
pub proof fn law_where_a_type_leads_without_server(
    state: StateView,
    index: Option<int>,
    switch_type: SwitchType,
    online: bool,
)
    requires
        index is Some ==> !(0 <= index->0 < state.config.switcher.stream_servers.len()),
    ensures
        ({
            let general = state.config.switcher.switching_scenes;
            let change = state.scene_change(index, switch_type, online);
            &&& change.switch_type == switch_type
            &&& change.server_name is None
            &&& switch_type == SwitchType::Normal ==> change.scene == general.normal
            &&& switch_type == SwitchType::Low ==> change.scene == general.low
            &&& switch_type == SwitchType::Offline ==> change.scene == general.offline
            &&& switch_type == SwitchType::Previous ==> change.scene
                == state.broadcasting_software.prev_scene
        }),
{
}

/// The state as it would be if no server had been shown yet.
pub open spec fn with_no_server_shown(state: StateView) -> StateView {
    StateView {
        switcher_state: SwitcherStateView { last_used_server: None, ..state.switcher_state },
        ..state
    }
}

/// The server that is shown last has a say only in the offline scene. There it
/// stands in for the server of the pass, or for no server if there is none of
/// that name any more.
pub proof fn law_server_shown_last_stands_in_while_offline(
    state: StateView,
    server: Option<int>,
    switch_type: SwitchType,
    index: int,
)
    ensures
        ({
            let servers = state.config.switcher.stream_servers;
            let last = state.switcher_state.last_used_server;
            let fresh = with_no_server_shown(state);
            &&& switch_type != SwitchType::Offline || last is None ==> state.choose_scene(
                server,
                switch_type,
            ) == fresh.choose_scene(server, switch_type)
            &&& switch_type == SwitchType::Offline && last is Some && 0 <= index < servers.len()
                && servers[index].name == last->0 && (forall|j: int|
                0 <= j < index ==> (#[trigger] servers[j]).name != last->0)
                ==> state.choose_scene(server, switch_type) == fresh.choose_scene(
                Some(index),
                switch_type,
            )
            &&& switch_type == SwitchType::Offline && last is Some && (forall|j: int|
                0 <= j < servers.len() ==> (#[trigger] servers[j]).name != last->0)
                ==> state.choose_scene(server, switch_type) == fresh.choose_scene(
                None,
                switch_type,
            )
        }),
{
    let last = state.switcher_state.last_used_server;
    let fresh = with_no_server_shown(state);
    let servers = state.config.switcher.stream_servers;
    assert(fresh.servers() == servers && state.servers() == servers);
    assert(forall|s: Option<int>| #[trigger] fresh.server_at(s) == state.server_at(s));
    assert(forall|s: Option<int>, t: SwitchType, online: bool| #[trigger]
        fresh.scene_change(s, t, online) == state.scene_change(s, t, online));
    if last is Some {
        lemma_first_found(servers, last->0, index);
    }
}

/// The first server of a name is the one that has it and none before it has.
proof fn lemma_first_found(servers: Seq<StreamServerView>, name: Seq<char>, index: int)
    ensures
        0 <= index < servers.len() && servers[index].name == name && (forall|j: int|
            0 <= j < index ==> (#[trigger] servers[j]).name != name) ==> find_server(servers, name)
            == Some(index),
        (forall|j: int| 0 <= j < servers.len() ==> (#[trigger] servers[j]).name != name)
            ==> find_server(servers, name) is None,
{
    lemma_first_from(servers, named(name), 0);
    if 0 <= index < servers.len() && servers[index].name == name && (forall|j: int|
        0 <= j < index ==> (#[trigger] servers[j]).name != name) {
        lemma_first_from_skips(servers, named(name), 0, index);
    }
}

/// A server that depends on no other leads straight to its scene. One that does
/// leads to a question about the first server of that name, or straight to its
/// backup scene if there is none of that name. No server at all leads straight
/// to a general scene.
pub proof fn law_which_question_comes_before_the_scene(
    state: StateView,
    server: Option<int>,
    switch_type: SwitchType,
    online: bool,
    dependency: int,
)
    requires
        switch_type != SwitchType::Offline || state.switcher_state.last_used_server is None,
    ensures
        ({
            let servers = state.config.switcher.stream_servers;
            let there = server is Some && 0 <= server->0 < servers.len();
            let depends_on = servers[server->0].depends_on;
            let step = state.choose_scene(server, switch_type);
            &&& !there || depends_on is None ==> step == SwitchStepView::Commit(
                state.scene_change(server, switch_type, online),
            )
            &&& there && depends_on is Some && 0 <= dependency < servers.len()
                && servers[dependency].name == depends_on->0.name && (forall|j: int|
                0 <= j < dependency ==> (#[trigger] servers[j]).name != depends_on->0.name)
                ==> step == (SwitchStepView::AskOnline {
                server: server->0,
                dependency,
                switch_type,
            })
            &&& there && depends_on is Some && (forall|j: int|
                0 <= j < servers.len() ==> (#[trigger] servers[j]).name != depends_on->0.name)
                ==> step == SwitchStepView::Commit(state.scene_change(server, switch_type, false))
        }),
{
    let servers = state.config.switcher.stream_servers;
    if server is Some && 0 <= server->0 < servers.len() {
        if let Some(depends_on) = servers[server->0].depends_on {
            lemma_first_found(servers, depends_on.name, dependency);
        }
    }
}

/// Going to a normal or low scene makes it the one to come back to; no other
/// type does. Any type but offline makes its server the one shown last. Nothing
/// else changes.
pub proof fn law_what_is_remembered(state: StateView, change: SceneChangeView)
    ensures
        ({
            let after = state.committed(change);
            let old = state.broadcasting_software;
            let new = after.broadcasting_software;
            &&& change.switch_type == SwitchType::Normal || change.switch_type == SwitchType::Low
                ==> new.prev_scene == change.scene
            &&& change.switch_type == SwitchType::Offline || change.switch_type
                == SwitchType::Previous ==> new.prev_scene == old.prev_scene
            &&& change.switch_type == SwitchType::Offline
                ==> after.switcher_state.last_used_server == state.switcher_state.last_used_server
            &&& change.switch_type != SwitchType::Offline
                ==> after.switcher_state.last_used_server == change.server_name
            &&& after.config == state.config
            &&& after.switcher_state.switchable_scenes == state.switcher_state.switchable_scenes
            &&& after.switcher_state.switcher_enabled_notifier
                == state.switcher_state.switcher_enabled_notifier
            &&& old == (BroadcastingSoftwareStateView { prev_scene: old.prev_scene, ..new })
        }),
{
}

// Requests and announcements.

/// A switch to a scene is pending exactly if it was the last one to be accepted,
/// less than thirty seconds ago.
pub proof fn law_when_a_switch_is_pending(
    software: BroadcastingSoftwareStateView,
    scene: Seq<char>,
    age: int,
)
    ensures
        software.switch_pending(scene, age) <==> software.pending_switch is Some
            && software.pending_switch->0.scene == scene && age < 30_000_000_000,
{
}

/// No request is made exactly if the scene is shown already, or a switch to it
/// was accepted less than thirty seconds ago, or the starting scene is shown and
/// stays while there is no stream, or a scene is shown that is not switchable.
/// Else the switch fails exactly if there is no software to ask.
pub proof fn law_when_a_request_is_made(
    state: StateView,
    scene: Seq<char>,
    switch_type: SwitchType,
    age: int,
)
    ensures
        ({
            let software = state.broadcasting_software;
            let pending = software.pending_switch;
            let starting = state.config.optional_scenes.starting;
            let held_back = {
                ||| software.current_scene == scene
                ||| pending is Some && pending->0.scene == scene && age < 30_000_000_000
                ||| starting is Some && starting->0 == software.current_scene
                    && state.config.optional_options.switch_from_starting_scene_to_live_scene
                    && switch_type == SwitchType::Offline
                ||| !state.switcher_state.switchable_scenes.contains(software.current_scene)
            };
            let request = state.scene_request(scene, switch_type, age);
            &&& request is Ok && request->Ok_0 is None <==> held_back
            &&& request is Err <==> !held_back && !software.software_set
            &&& request is Err ==> request->Err_0 == Error::NoSoftwareSet
            &&& request is Ok && request->Ok_0 is Some <==> !held_back && software.software_set
        }),
{
}

/// A request asks for the scene that is wanted. It carries an announcement
/// exactly while streaming, with a chat to tell and if announcements are wanted,
/// for every scene and every switch type; and the announcement tells that chat
/// that scene and that type.
pub proof fn law_what_a_request_says(
    state: StateView,
    scene: Seq<char>,
    switch_type: SwitchType,
    age: int,
    request: SceneRequestView,
)
    requires
        state.scene_request(scene, switch_type, age) == Ok::<Option<SceneRequestView>, Error>(
            Some(request),
        ),
    ensures
        request.scene == scene,
        request.announcement is Some <==> state.broadcasting_software.is_streaming
            && state.config.switcher.auto_switch_notification && state.config.chat is Some,
        request.announcement is Some ==> {
            &&& request.announcement->0.platform == state.config.chat->0.platform
            &&& request.announcement->0.channel == state.config.chat->0.username
            &&& request.announcement->0.scene == scene
            &&& request.announcement->0.switch_type == switch_type
        },
{
}

/// Two requests that are made of the same state differ in nothing but the scene
/// and the switch type that they were made for.
pub proof fn law_requests_differ_only_in_what_is_wanted(
    state: StateView,
    scene: Seq<char>,
    switch_type: SwitchType,
    age: int,
    request: SceneRequestView,
    other_scene: Seq<char>,
    other_type: SwitchType,
    other_age: int,
    other: SceneRequestView,
)
    requires
        state.scene_request(scene, switch_type, age) == Ok::<Option<SceneRequestView>, Error>(
            Some(request),
        ),
        state.scene_request(other_scene, other_type, other_age) == Ok::<
            Option<SceneRequestView>,
            Error,
        >(Some(other)),
    ensures
        other == (SceneRequestView {
            scene: other_scene,
            announcement: match request.announcement {
                Some(announcement) => Some(
                    AnnouncementView {
                        scene: other_scene,
                        switch_type: other_type,
                        ..announcement
                    },
                ),
                None => None,
            },
        }),
{
}

/// An accepted request is pending from then on, and nothing else changes.
pub proof fn law_accepted_request_is_noted(
    state: StateView,
    request: SceneRequestView,
    at: Instant,
)
    ensures
        ({
            let after = state.request_accepted(request, at);
            let new = after.broadcasting_software;
            let old = state.broadcasting_software;
            &&& new == old.with_pending_switch(request.scene, at)
            &&& new.pending_switch is Some
            &&& new.pending_switch->0.scene == request.scene
            &&& new.pending_switch->0.requested_at == at
            &&& old == (BroadcastingSoftwareStateView { pending_switch: old.pending_switch, ..new })
            &&& after.config == state.config
            &&& after.switcher_state == state.switcher_state
        }),
{
}

/// Forgetting the pending switch changes nothing else. A software that is gone
/// has no stream and nothing pending, and all else is kept for its return.
pub proof fn law_what_is_forgotten(software: BroadcastingSoftwareStateView)
    ensures
        software.without_pending_switch().pending_switch is None,
        software == (BroadcastingSoftwareStateView {
            pending_switch: software.pending_switch,
            ..software.without_pending_switch()
        }),
        software.disconnected().pending_switch is None,
        software.disconnected().status == ClientStatus::Disconnected,
        !software.disconnected().is_streaming,
        software == (BroadcastingSoftwareStateView {
            pending_switch: software.pending_switch,
            status: software.status,
            is_streaming: software.is_streaming,
            ..software.disconnected()
        }),
{
}

// Switchable scenes.

/// A scene becomes switchable exactly if it was so before, or is one of the
/// general scenes, of the scenes of some server or of its backup scenes, or is
/// the starting scene and that is to be left. Nothing but the set of switchable
/// scenes changes.
pub proof fn law_which_scenes_become_switchable(state: StateView, scene: Seq<char>)
    ensures
        ({
            let after = state.with_all_switchable_scenes();
            let general = state.config.switcher.switching_scenes;
            let servers = state.config.switcher.stream_servers;
            let named = {
                ||| scene == general.normal || scene == general.low || scene == general.offline
                ||| exists|i: int|
                    0 <= i < servers.len() && {
                        let own = (#[trigger] servers[i]).override_scenes;
                        let depends_on = servers[i].depends_on;
                        ||| own is Some && (scene == own->0.normal || scene == own->0.low || scene
                            == own->0.offline)
                        ||| depends_on is Some && (scene == depends_on->0.backup_scenes.normal
                            || scene == depends_on->0.backup_scenes.low || scene
                            == depends_on->0.backup_scenes.offline)
                    }
                ||| state.config.optional_options.switch_from_starting_scene_to_live_scene
                    && state.config.optional_scenes.starting is Some
                    && state.config.optional_scenes.starting->0 == scene
            };
            &&& state.config.has_scene(scene) <==> named
            &&& after.switcher_state.switchable_scenes.contains(scene)
                <==> state.switcher_state.switchable_scenes.contains(scene) || named
            &&& after.config == state.config
            &&& after.broadcasting_software == state.broadcasting_software
            &&& after.switcher_state.last_used_server == state.switcher_state.last_used_server
            &&& after.switcher_state.switcher_enabled_notifier
                == state.switcher_state.switcher_enabled_notifier
        }),
{
    let servers = state.config.switcher.stream_servers;
    if state.config.has_scene(scene) && exists|i: int|
        0 <= i < servers.len() && #[trigger] server_has_scene(servers[i], scene) {
        let i = choose|i: int|
            0 <= i < servers.len() && #[trigger] server_has_scene(servers[i], scene);
        assert(0 <= i < servers.len() && (servers[i].override_scenes is Some
            || servers[i].depends_on is Some));
    }
    assert forall|i: int| 0 <= i < servers.len() && server_has_scene(#[trigger] servers[i], scene)
        implies state.config.has_scene(scene) by {}
}

// Stream figures.

/// Each frame counter, counted from an earlier point, makes up for what is
/// missing to the counter now. The other figures are those of now.
pub proof fn law_figures_since_an_earlier_point(now: StreamStatus, old: StreamStatus)
    ensures
        now.counts_from(old) <==> now.num_total_frames >= old.num_total_frames
            && now.num_dropped_frames >= old.num_dropped_frames && now.render_total_frames
            >= old.render_total_frames && now.render_missed_frames >= old.render_missed_frames
            && now.output_total_frames >= old.output_total_frames && now.output_skipped_frames
            >= old.output_skipped_frames,
        now.counts_from(old) ==> {
            &&& old.num_total_frames + now.since(old).num_total_frames == now.num_total_frames
            &&& old.num_dropped_frames + now.since(old).num_dropped_frames
                == now.num_dropped_frames
            &&& old.render_total_frames + now.since(old).render_total_frames
                == now.render_total_frames
            &&& old.render_missed_frames + now.since(old).render_missed_frames
                == now.render_missed_frames
            &&& old.output_total_frames + now.since(old).output_total_frames
                == now.output_total_frames
            &&& old.output_skipped_frames + now.since(old).output_skipped_frames
                == now.output_skipped_frames
        },
        now.since(old).bitrate == now.bitrate,
        now.since(old).fps_bits == now.fps_bits,
        now.since(old).cpu_usage_bits == now.cpu_usage_bits,
        now.since(old).memory_usage_bits == now.memory_usage_bits,
        now.since(old).available_disk_space_bits == now.available_disk_space_bits,
{
}

// The clock.

/// Seconds are counted in steps of a thousand million nanoseconds.
pub proof fn law_seconds_in_nanoseconds(secs: int, more: int)
    ensures
        secs_in_nanos(0) == 0,
        secs_in_nanos(secs + 1) == secs_in_nanos(secs) + 1_000_000_000,
        secs_in_nanos(secs) + secs_in_nanos(more) == secs_in_nanos(secs + more),
        secs_in_nanos(secs) == secs * 1_000_000_000,
{
}

/// Each reading goes by its own point in time.
pub proof fn law_readings_go_by_their_own_time(
    clock: ClockReadings,
    type_since: tokio::time::Instant,
    stream_since: Instant,
    software: BroadcastingSoftwareStateView,
    age: u128,
)
    ensures
        clock.are_of(type_since, stream_since) ==> {
            &&& call_ensures(tokio::time::Instant::now, (), clock.now)
            &&& is_timer_age_of(clock.fresh_age, clock.now)
            &&& is_timer_age_of(clock.type_age, type_since)
            &&& is_age_of(clock.stream_age, stream_since)
        },
        is_timer_age_of(clock.type_age, type_since) ==> exists|elapsed: Duration| #[trigger]
            call_ensures(tokio::time::Instant::elapsed, (&type_since,), elapsed) && call_ensures(
                Duration::as_nanos,
                (&elapsed,),
                clock.type_age,
            ),
        is_age_of(clock.stream_age, stream_since) ==> exists|elapsed: Duration| #[trigger]
            call_ensures(Instant::elapsed, (&stream_since,), elapsed) && call_ensures(
                Duration::as_nanos,
                (&elapsed,),
                clock.stream_age,
            ),
        is_reading(stream_since) ==> call_ensures(Instant::now, (), stream_since),
        is_timer_reading(type_since) ==> call_ensures(tokio::time::Instant::now, (), type_since),
        software.is_pending_age(age) && software.pending_switch is Some ==> is_age_of(
            age,
            software.pending_switch->0.requested_at,
        ),
        software.is_pending_age(age) && software.pending_switch is None ==> age == 0,
{
}

// Text.

/// The text about the software names both scenes, the status, whether there is a
/// stream and whether there is a connection, in this order.
pub proof fn law_text_tells_the_state(
    software: BroadcastingSoftwareStateView,
    prev_scene: Seq<char>,
    current_scene: Seq<char>,
    status: Seq<char>,
    streaming: Seq<char>,
    connection: Seq<char>,
)
    requires
        software.status == ClientStatus::Connected ==> status == "Connected"@,
        software.status != ClientStatus::Connected ==> status == "Disconnected"@,
        software.is_streaming ==> streaming == "true"@,
        !software.is_streaming ==> streaming == "false"@,
        software.software_set ==> connection == "true"@,
        !software.software_set ==> connection == "false"@,
    ensures
        software.debug_text(prev_scene, current_scene)
            == "BroadcastingSoftwareState { prev_scene: "@ + prev_scene + ", curent_scene: "@
            + current_scene + ", status: "@ + status + ", is_streaming: "@ + streaming
            + ", Does have a software set: "@ + connection + " }"@,
{
}

// Views.

/// The view of the settings shows each setting, and each server in its place.
pub proof fn law_settings_are_shown(config: Config, i: int)
    ensures
        config@.switcher.bitrate_switcher_enabled == config.switcher.bitrate_switcher_enabled,
        config@.switcher.only_switch_when_streaming == config.switcher.only_switch_when_streaming,
        config@.switcher.instantly_switch_on_recover == config.switcher.instantly_switch_on_recover,
        config@.switcher.auto_switch_notification == config.switcher.auto_switch_notification,
        config@.switcher.retry_attempts == config.switcher.retry_attempts,
        config@.switcher.triggers == config.switcher.triggers,
        config@.switcher.switching_scenes.normal == config.switcher.switching_scenes.normal@,
        config@.switcher.switching_scenes.low == config.switcher.switching_scenes.low@,
        config@.switcher.switching_scenes.offline == config.switcher.switching_scenes.offline@,
        config@.switcher.stream_servers.len() == config.switcher.stream_servers@.len(),
        0 <= i < config.switcher.stream_servers@.len() ==> config@.switcher.stream_servers[i]
            == config.switcher.stream_servers@[i]@,
        config.chat is Some <==> config@.chat is Some,
        config.chat is Some ==> config@.chat->0.platform == config.chat->0.platform@
            && config@.chat->0.username == config.chat->0.username@,
        config.optional_scenes.starting is Some <==> config@.optional_scenes.starting is Some,
        config.optional_scenes.starting is Some ==> config@.optional_scenes.starting->0
            == config.optional_scenes.starting->0@,
        config@.optional_options == config.optional_options,
{
}

/// The view of a server shows what it is called, what it wants, its scenes and
/// what it depends on.
pub proof fn law_server_is_shown(server: StreamServer, scenes: SwitchingScenes)
    ensures
        server@.name == server.name@,
        server@.enabled == server.enabled,
        server@.instant_degrade == server.instant_degrade,
        server@.delay_normal_recovery == server.delay_normal_recovery,
        server@.override_scenes is Some <==> server.override_scenes is Some,
        server.override_scenes is Some ==> server@.override_scenes->0
            == server.override_scenes->0@,
        server@.depends_on is Some <==> server.depends_on is Some,
        server.depends_on is Some ==> server@.depends_on->0.name == server.depends_on->0.name@
            && server@.depends_on->0.backup_scenes == server.depends_on->0.backup_scenes@,
        scenes@.normal == scenes.normal@,
        scenes@.low == scenes.low@,
        scenes@.offline == scenes.offline@,
{
}

/// The view of the state shows each part of it.
pub proof fn law_state_is_shown(state: State)
    ensures
        state@.config == state.config@,
        state@.switcher_state.last_used_server is Some
            <==> state.switcher_state.last_used_server is Some,
        state.switcher_state.last_used_server is Some ==> state@.switcher_state.last_used_server->0
            == state.switcher_state.last_used_server->0@,
        state@.switcher_state.switchable_scenes == state.switcher_state.switchable_scenes@,
        state@.switcher_state.switcher_enabled_notifier
            == state.switcher_state.switcher_enabled_notifier,
        ({
            let software = state.broadcasting_software;
            let shown = state@.broadcasting_software;
            &&& shown == software@
            &&& shown.prev_scene == software.prev_scene@
            &&& shown.current_scene == software.current_scene@
            &&& shown.status == software.status
            &&& shown.is_streaming == software.is_streaming
            &&& shown.last_stream_started_at == software.last_stream_started_at
            &&& shown.initial_stream_status == software.initial_stream_status
            &&& shown.stream_status == software.stream_status
            &&& shown.pending_switch is Some <==> software.pending_switch is Some
            &&& software.pending_switch is Some ==> shown.pending_switch->0.scene
                == software.pending_switch->0.scene@ && shown.pending_switch->0.requested_at
                == software.pending_switch->0.requested_at
            &&& shown.software_set == software.software_set
            &&& shown.connected_notifier == software.connected_notifier
            &&& shown.start_streaming_notifier == software.start_streaming_notifier
            &&& shown.switch_scene_notifier == software.switch_scene_notifier
        }),
{
}

/// The view of a step is of the same kind and shows what the step carries.
pub proof fn law_step_is_shown(step: SwitchStep)
    ensures
        step == SwitchStep::Begin <==> step@ == SwitchStepView::Begin,
        step == SwitchStep::StopStream <==> step@ == SwitchStepView::StopStream,
        step == SwitchStep::AskRecording <==> step@ == SwitchStepView::AskRecording,
        step == SwitchStep::ToggleRecording <==> step@ == SwitchStepView::ToggleRecording,
        step matches SwitchStep::AskSwitchType { server, triggers }
            ==> step@ == (SwitchStepView::AskSwitchType { server: server as int, triggers }),
        step matches SwitchStep::SendOfflineTimeout { platform, channel }
            ==> step@ == (SwitchStepView::SendOfflineTimeout {
            platform: platform@,
            channel: channel@,
        }),
        step matches SwitchStep::AskOnline { server, dependency, switch_type }
            ==> step@ == (SwitchStepView::AskOnline {
            server: server as int,
            dependency: dependency as int,
            switch_type,
        }),
        step matches SwitchStep::Commit(change) ==> {
            &&& step@ is Commit
            &&& step@->Commit_0.scene == change.scene@
            &&& step@->Commit_0.switch_type == change.switch_type
            &&& step@->Commit_0.server_name is Some <==> change.server_name is Some
            &&& change.server_name is Some ==> step@->Commit_0.server_name->0
                == change.server_name->0@
        },
        step matches SwitchStep::Done(result) ==> step@ == SwitchStepView::Done(result),
{
}

/// The view of a request shows the scene and each part of the announcement, and
/// an error is shown as it is.
pub proof fn law_request_is_shown(result: Result<Option<SceneRequest>, Error>, index: Option<usize>)
    ensures
        result is Err <==> request_view(result) is Err,
        result is Err ==> request_view(result)->Err_0 == result->Err_0,
        result is Ok ==> (request_view(result)->Ok_0 is Some <==> result->Ok_0 is Some),
        result is Ok && result->Ok_0 is Some ==> {
            let request = result->Ok_0->0;
            let shown = request_view(result)->Ok_0->0;
            &&& shown.scene == request.scene@
            &&& shown.announcement is Some <==> request.announcement is Some
            &&& request.announcement is Some ==> {
                &&& shown.announcement->0.platform == request.announcement->0.platform@
                &&& shown.announcement->0.channel == request.announcement->0.channel@
                &&& shown.announcement->0.scene == request.announcement->0.scene@
                &&& shown.announcement->0.switch_type == request.announcement->0.switch_type
            }
        },
        index_view(index) is Some <==> index is Some,
        index is Some ==> index_view(index)->0 == index->0,
{
}

} // verus!
