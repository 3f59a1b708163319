//! What a caller gets from each call, whatever it calls with: the laws of single
//! decisions, said of the calls that make them.
use crate::clock::{is_age_of, is_reading, is_timer_reading, nanos_from_secs};
use crate::config::StreamServer;
use crate::debug::quoted;
use crate::error::Error;
use crate::outcomes::{
    law_what_a_request_says, law_when_a_request_is_made, law_when_a_switch_is_pending,
};
use crate::scenes::{SwitchType, SwitchingScenes};
use crate::state::{
    BroadcastingSoftwareState, BroadcastingSoftwareStateView, ClientStatus, State, StateView,
    SwitcherState,
};
use crate::status::StreamStatus;
use crate::steps::{
    Announcement, ClockReadings, RunEvent, RunStep, SceneChange, SceneRequest, SwitchReply,
    SwitchStep, SwitchTracker,
};
use crate::switcher::{get_optional_scenes, request_view, Switcher};
use crate::triggers::Triggers;
use crate::views::{opt_view, seq_view};
use std::sync::Arc;
use std::time::Instant;
use tokio::sync::Notify;
use vstd::prelude::*;

verus! {

// Waiting.

/// A caller is told to wait exactly if the switcher is disabled, the software is
/// gone, a stream is needed and missing, or the scene that is shown is not to be
/// left; and it waits for the first of these to end.
pub proof fn law_sleep_notifier_call(switcher: Switcher, r: Option<Arc<Notify>>)
    requires
        call_ensures(Switcher::get_sleep_notifier_if_necessary, (&switcher,), r),
    ensures
        ({
            let config = switcher.state.config.switcher;
            let software = switcher.state.broadcasting_software;
            let scenes = switcher.state.switcher_state.switchable_scenes@;
            let disabled = !config.bitrate_switcher_enabled;
            let gone = software.status == ClientStatus::Disconnected;
            let no_stream = config.only_switch_when_streaming && !software.is_streaming;
            let stuck = !scenes.contains(software.current_scene@);
            &&& r is Some <==> disabled || gone || no_stream || stuck
            &&& disabled ==> r == Some(switcher.state.switcher_state.switcher_enabled_notifier)
            &&& !disabled && gone ==> r == Some(software.connected_notifier)
            &&& !disabled && !gone && no_stream ==> r == Some(software.start_streaming_notifier)
            &&& !disabled && !gone && !no_stream && stuck ==> r == Some(
                software.switch_scene_notifier,
            )
        }),
{
}

/// A tick leads to a pass or to the wait that is due, and every other event to
/// the next tick. Only the end of a break touches the tracker, and only its
/// timer.
pub proof fn law_run_step_call(
    switcher: Switcher,
    tracker: &mut SwitchTracker,
    event: RunEvent,
    r: RunStep,
)
    requires
        call_ensures(Switcher::next_run_step, (&switcher, tracker, event), r),
    ensures
        event == RunEvent::Ticked && switcher.state@.sleep_notifier() is None ==> r
            == RunStep::Pass,
        event == RunEvent::Ticked && switcher.state@.sleep_notifier() is Some ==> r
            == RunStep::AwaitNotifier(switcher.state@.sleep_notifier()->0),
        event != RunEvent::Ticked ==> r == RunStep::AwaitTick,
        event != RunEvent::Woken ==> *final(tracker) == *old(tracker),
        event == RunEvent::Woken ==> {
            &&& is_timer_reading(final(tracker).same_type_seconds)
            &&& final(tracker).prev_switch_type == old(tracker).prev_switch_type
            &&& final(tracker).same_type == old(tracker).same_type
        },
{
}

/// A new tracker has seen an offline stream, never again, since a reading of the
/// clock. A break changes only the last of these.
pub proof fn law_tracker_calls(new: SwitchTracker, tracker: &mut SwitchTracker, unit: ())
    requires
        call_ensures(SwitchTracker::new, (), new),
        call_ensures(SwitchTracker::resume, (tracker,), unit),
    ensures
        new.prev_switch_type == SwitchType::Offline,
        new.same_type == 0,
        is_timer_reading(new.same_type_seconds),
        is_timer_reading(final(tracker).same_type_seconds),
        *old(tracker) == (SwitchTracker {
            same_type_seconds: old(tracker).same_type_seconds,
            ..*final(tracker)
        }),
{
}

/// Each notifier that is handed out is the one that was asked for.
pub proof fn law_notifier_calls(
    switcher_state: SwitcherState,
    software: BroadcastingSoftwareState,
    enabled: Arc<Notify>,
    connected: Arc<Notify>,
    streaming: Arc<Notify>,
    switched: Arc<Notify>,
)
    requires
        call_ensures(SwitcherState::switcher_enabled_notifier, (&switcher_state,), enabled),
        call_ensures(BroadcastingSoftwareState::connected_notifier, (&software,), connected),
        call_ensures(BroadcastingSoftwareState::start_streaming_notifier, (&software,), streaming),
        call_ensures(BroadcastingSoftwareState::switch_scene_notifier, (&software,), switched),
    ensures
        enabled == switcher_state.switcher_enabled_notifier,
        connected == software.connected_notifier,
        streaming == software.start_streaming_notifier,
        switched == software.switch_scene_notifier,
{
}

// Deciding.

/// Looking at a switch type gives what the rules say of it, and leaves the
/// tracker as they say.
pub proof fn law_evaluate_call(
    switcher: Switcher,
    tracker: &mut SwitchTracker,
    server: Option<usize>,
    current: SwitchType,
    clock: ClockReadings,
    r: (Option<SwitchType>, u128),
)
    requires
        call_ensures(Switcher::evaluate, (&switcher, tracker, server, current, clock), r),
    ensures
        ({
            let servers = switcher.state@.config.switcher.stream_servers;
            let reported_by = if server is Some && server->0 < servers.len() {
                Some(servers[server->0 as int])
            } else {
                None
            };
            let verdict = switcher.state@.verdict(*old(tracker), reported_by, current, clock);
            &&& *final(tracker) == verdict.tracker
            &&& r.0 == verdict.due
            &&& r.1 == verdict.age
        }),
{
}

/// The two questions about a change of type are answered by the server that
/// reports it and, when the stream is gone, by the enabled ones.
pub proof fn law_degrade_and_recovery_calls(
    server: Option<&StreamServer>,
    servers: &[StreamServer],
    previous: SwitchType,
    current: SwitchType,
    degrade: bool,
    delay: bool,
)
    requires
        call_ensures(Switcher::should_instant_degrade, (server, servers, previous, current), degrade),
        call_ensures(Switcher::should_delay_normal_recovery, (server, previous, current), delay),
    ensures
        delay <==> current == SwitchType::Normal && previous != SwitchType::Normal && server is Some
            && server->0.delay_normal_recovery,
        degrade <==> {
            &&& previous == SwitchType::Normal || previous == SwitchType::Low
            &&& current == SwitchType::Low || current == SwitchType::Offline
            &&& previous != current
            &&& {
                ||| server is Some && server->0.instant_degrade
                ||| current == SwitchType::Offline && exists|i: int|
                    0 <= i < servers@.len() && (#[trigger] servers@[i]).enabled
                        && servers@[i].instant_degrade
            }
        },
{
    let views = seq_view(servers@);
    assert(forall|i: int| 0 <= i < servers@.len() ==> #[trigger] views[i] == servers@[i]@);
    if exists|i: int|
        0 <= i < servers@.len() && (#[trigger] servers@[i]).enabled && servers@[i].instant_degrade {
        let i = choose|i: int|
            0 <= i < servers@.len() && (#[trigger] servers@[i]).enabled
                && servers@[i].instant_degrade;
        assert(views[i].enabled && views[i].instant_degrade);
    }
    if exists|i: int|
        0 <= i < views.len() && (#[trigger] views[i]).enabled && views[i].instant_degrade {
        let i = choose|i: int|
            0 <= i < views.len() && (#[trigger] views[i]).enabled && views[i].instant_degrade;
        assert(servers@[i].enabled && servers@[i].instant_degrade);
    }
}

/// The offline timeout is over exactly if there is a stream, a timeout is set,
/// and at least that many minutes have gone by.
pub proof fn law_offline_timeout_call(switcher: Switcher, age: u128, r: bool)
    requires
        call_ensures(Switcher::offline_timeout_reached, (&switcher, age), r),
    ensures
        r <==> {
            let timeout = switcher.state.config.optional_options.offline_timeout;
            &&& switcher.state.broadcasting_software.is_streaming
            &&& timeout is Some
            &&& age >= timeout->0 * 60_000_000_000
        },
{
}

/// Backup scenes are given exactly while the server that one depends on is not
/// online. Otherwise a server's own scenes are, if it has any.
pub proof fn law_optional_scenes_call(
    server: Option<&StreamServer>,
    online: bool,
    r: Option<&SwitchingScenes>,
)
    requires
        call_ensures(get_optional_scenes, (server, online), r),
    ensures
        server is None ==> r is None,
        server is Some && server->0.depends_on is Some && !online ==> r is Some && r->0@
            == server->0.depends_on->0.backup_scenes@,
        server is Some && (server->0.depends_on is None || online) ==> opt_view(r) == opt_view(
            server->0.override_scenes,
        ),
{
}

/// Each type but the previous one has its scene.
pub proof fn law_type_to_scene_call(
    scenes: SwitchingScenes,
    switch_type: SwitchType,
    r: Result<&str, Error>,
)
    requires
        call_ensures(SwitchingScenes::type_to_scene, (&scenes, &switch_type), r),
    ensures
        switch_type == SwitchType::Normal ==> r is Ok && r->Ok_0@ == scenes.normal@,
        switch_type == SwitchType::Low ==> r is Ok && r->Ok_0@ == scenes.low@,
        switch_type == SwitchType::Offline ==> r is Ok && r->Ok_0@ == scenes.offline@,
        switch_type == SwitchType::Previous ==> r is Err && r->Err_0
            == Error::SwitchTypeNotSupported,
{
}

// Stepping.

/// By given readings of the clock, a step is the one that the rules say. The
/// form without a condition gives that very step, or none exactly if it does not
/// fit.
pub proof fn law_step_calls_by_given_clock(
    switcher: Switcher,
    tracker: &mut SwitchTracker,
    step: SwitchStep,
    reply: SwitchReply,
    clock: ClockReadings,
    next: SwitchStep,
    tried: Option<SwitchStep>,
    fits: bool,
)
    ensures
        call_ensures(Switcher::next_step_at, (&switcher, tracker, step, reply, clock), next) ==> (
            *final(tracker),
            next@,
        ) == switcher.state@.next_step(*old(tracker), step@, reply, clock),
        call_ensures(Switcher::try_next_step_at, (&switcher, tracker, step, reply, clock), tried)
            ==> {
            let expected = switcher.state@.checked_next_step(*old(tracker), step@, reply, clock);
            &&& tried is Some <==> expected is Some
            &&& tried is Some ==> expected == Some((*final(tracker), tried->0@))
            &&& tried is None ==> *final(tracker) == *old(tracker)
        },
        call_ensures(Switcher::step_fits_at, (&switcher, old(tracker), &step, reply, clock), fits)
            ==> (fits <==> switcher.state@.checked_next_step(*old(tracker), step@, reply, clock)
            is Some),
        call_ensures(Switcher::step_fits, (&switcher, old(tracker), &step, reply), fits) && fits
            ==> switcher.state@.checked_next_step(*old(tracker), step@, reply, clock) is Some,
        call_ensures(Switcher::step_fits, (&switcher, old(tracker), &step, reply), fits)
            ==> fits == switcher.state@.step_fits(*old(tracker), step@, reply),
{
}

/// A step by the clock itself is a step by some readings, of which each goes by
/// its own point in time: the tracker's timer, and the start of the last stream.
pub proof fn law_step_calls_by_the_clock(
    switcher: Switcher,
    tracker: &mut SwitchTracker,
    step: SwitchStep,
    reply: SwitchReply,
    next: SwitchStep,
    tried: Option<SwitchStep>,
)
    ensures
        call_ensures(Switcher::next_step, (&switcher, tracker, step, reply), next)
            ==> exists|clock: ClockReadings|
            clock.are_of(
                old(tracker).same_type_seconds,
                switcher.state.broadcasting_software.last_stream_started_at,
            ) && (*final(tracker), next@) == #[trigger] switcher.state@.next_step(
                *old(tracker),
                step@,
                reply,
                clock,
            ),
        call_ensures(Switcher::try_next_step, (&switcher, tracker, step, reply), tried) ==> {
            &&& tried is None ==> *final(tracker) == *old(tracker)
            &&& exists|clock: ClockReadings|
                clock.are_of(
                    old(tracker).same_type_seconds,
                    switcher.state.broadcasting_software.last_stream_started_at,
                ) && #[trigger] switcher.state@.checked_next_step(
                    *old(tracker),
                    step@,
                    reply,
                    clock,
                ) == (if tried is Some {
                    Some((*final(tracker), tried->0@))
                } else {
                    None
                })
        },
{
}

/// Going to a normal or low scene makes it the one to come back to, and any type
/// but offline makes its server the one shown last. Nothing else changes.
pub proof fn law_commit_call(switcher: &mut Switcher, change: SceneChange, unit: ())
    requires
        call_ensures(Switcher::commit, (switcher, &change), unit),
    ensures
        ({
            let before = old(switcher).state@;
            let after = final(switcher).state@;
            let comes_back = change.switch_type == SwitchType::Normal || change.switch_type
                == SwitchType::Low;
            &&& after.broadcasting_software == (BroadcastingSoftwareStateView {
                prev_scene: after.broadcasting_software.prev_scene,
                ..before.broadcasting_software
            })
            &&& after.config == before.config
            &&& after.switcher_state.switchable_scenes == before.switcher_state.switchable_scenes
            &&& after.switcher_state.switcher_enabled_notifier
                == before.switcher_state.switcher_enabled_notifier
            &&& comes_back ==> after.broadcasting_software.prev_scene == change.scene@
            &&& !comes_back ==> after.broadcasting_software.prev_scene
                == before.broadcasting_software.prev_scene
            &&& change.switch_type != SwitchType::Offline
                ==> after.switcher_state.last_used_server == opt_view(change.server_name)
            &&& change.switch_type == SwitchType::Offline
                ==> after.switcher_state.last_used_server == before.switcher_state.last_used_server
        }),
{
}

// Requesting.

/// Whether a request for `scene` is held back, if the last one that was accepted
/// is `age` nanoseconds old.
pub open spec fn held_back(state: State, scene: Seq<char>, switch_type: SwitchType, age: int)
    -> bool {
    let software = state.broadcasting_software;
    let starting = state.config.optional_scenes.starting;
    ||| software.current_scene@ == scene
    ||| software.pending_switch is Some && software.pending_switch->0.scene@ == scene && age
        < 30_000_000_000
    ||| starting is Some && starting->0@ == software.current_scene@
        && state.config.optional_options.switch_from_starting_scene_to_live_scene && switch_type
        == SwitchType::Offline
    ||| !state.switcher_state.switchable_scenes@.contains(software.current_scene@)
}

/// Unless it is held back, a request is made for the scene that is wanted, or
/// the call fails for want of a software. While streaming, with a chat to tell
/// and if announcements are wanted, every request carries the announcement of
/// that scene and that type to that chat; no other request carries one.
pub proof fn law_request_call_by_given_age(
    switcher: Switcher,
    scene: &str,
    switch_type: SwitchType,
    age: u128,
    r: Result<Option<SceneRequest>, Error>,
)
    requires
        call_ensures(
            Switcher::switch_if_necessary_at_age,
            (&switcher, scene, switch_type, age),
            r,
        ),
    ensures
        ({
            let state = switcher.state;
            let held_back = held_back(state, scene@, switch_type, age as int);
            &&& r is Ok && r->Ok_0 is None <==> held_back
            &&& r is Err <==> !held_back && !state.broadcasting_software.software_set
            &&& r is Err ==> r->Err_0 == Error::NoSoftwareSet
            &&& r is Ok && r->Ok_0 is Some ==> {
                let request = r->Ok_0->0;
                let chat = state.config.chat;
                &&& request.scene@ == scene@
                &&& request.announcement is Some <==> state.broadcasting_software.is_streaming
                    && state.config.switcher.auto_switch_notification && chat is Some
                &&& request.announcement is Some ==> {
                    let announcement = request.announcement->0;
                    &&& announcement.platform@ == chat->0.platform@
                    &&& announcement.channel@ == chat->0.username@
                    &&& announcement.scene@ == scene@
                    &&& announcement.switch_type == switch_type
                }
            }
        }),
{
    law_when_a_request_is_made(switcher.state@, scene@, switch_type, age as int);
    if r is Ok && r->Ok_0 is Some {
        law_what_a_request_says(
            switcher.state@,
            scene@,
            switch_type,
            age as int,
            r->Ok_0->0@,
        );
    }
}

/// A request by the clock itself goes by some age of the switch that is pending,
/// and by no age if none is.
pub proof fn law_request_call_by_the_clock(
    switcher: Switcher,
    scene: &str,
    switch_type: SwitchType,
    r: Result<Option<SceneRequest>, Error>,
)
    requires
        call_ensures(Switcher::switch_if_necessary, (&switcher, scene, switch_type), r),
    ensures
        exists|age: u128|
            switcher.state@.broadcasting_software.is_pending_age(age) && request_view(r)
                == #[trigger] switcher.state@.scene_request(scene@, switch_type, age as int),
{
}

/// The announcement of a request comes back exactly if the request was accepted
/// and has one. An accepted request is the pending one from a reading of the
/// clock on, and nothing else changes; after one that failed, nothing does.
pub proof fn law_request_answered_call(
    switcher: &mut Switcher,
    request: SceneRequest,
    accepted: bool,
    r: Option<Announcement>,
)
    requires
        call_ensures(Switcher::request_answered, (switcher, request, accepted), r),
    ensures
        accepted ==> opt_view(r) == opt_view(request.announcement),
        !accepted ==> r is None && *final(switcher) == *old(switcher),
        accepted ==> {
            let before = old(switcher).state@;
            let after = final(switcher).state@;
            &&& after.broadcasting_software.pending_switch is Some
            &&& after.broadcasting_software.pending_switch->0.scene == request.scene@
            &&& is_reading(after.broadcasting_software.pending_switch->0.requested_at)
            &&& after == (StateView {
                broadcasting_software: BroadcastingSoftwareStateView {
                    pending_switch: after.broadcasting_software.pending_switch,
                    ..before.broadcasting_software
                },
                ..before
            })
        },
{
    if accepted {
        let at = choose|at: Instant|
            is_reading(at) && final(switcher).state@ == #[trigger] old(
                switcher,
            ).state@.request_accepted(request@, at);
        assert(final(switcher).state@ == old(switcher).state@.request_accepted(request@, at));
    }
}

/// A switch is pending exactly if it is to the scene of the request that was
/// accepted last, and that is less than thirty seconds old.
pub proof fn law_pending_calls(
    software: BroadcastingSoftwareState,
    scene: &str,
    age: u128,
    at_age: bool,
    by_clock: bool,
)
    requires
        call_ensures(
            BroadcastingSoftwareState::is_switch_pending_at_age,
            (&software, scene, age),
            at_age,
        ),
        call_ensures(BroadcastingSoftwareState::is_switch_pending, (&software, scene), by_clock),
    ensures
        at_age <==> software.pending_switch is Some && software.pending_switch->0.scene@ == scene@
            && age < 30_000_000_000,
        by_clock ==> software.pending_switch is Some && software.pending_switch->0.scene@ == scene@
            && exists|read: u128| #[trigger]
            is_age_of(read, software.pending_switch->0.requested_at) && read < 30_000_000_000,
        !by_clock && software.pending_switch is Some && software.pending_switch->0.scene@ == scene@
            ==> exists|read: u128| #[trigger]
            is_age_of(read, software.pending_switch->0.requested_at) && read >= 30_000_000_000,
{
    let read = choose|read: u128|
        software@.is_pending_age(read) && by_clock == #[trigger] software@.switch_pending(
            scene@,
            read as int,
        );
    law_when_a_switch_is_pending(software@, scene@, read as int);
    if software.pending_switch is Some {
        assert(is_age_of(read, software.pending_switch->0.requested_at));
    }
}

/// Noting a switch, forgetting it, and losing the software change just what they
/// are about.
pub proof fn law_software_calls(software: &mut BroadcastingSoftwareState, scene: String, unit: ())
    ensures
        call_ensures(BroadcastingSoftwareState::set_pending_switch, (software, scene), unit) ==> {
            let after = final(software)@;
            &&& after.pending_switch is Some
            &&& after.pending_switch->0.scene == scene@
            &&& is_reading(after.pending_switch->0.requested_at)
            &&& after == (BroadcastingSoftwareStateView {
                pending_switch: after.pending_switch,
                ..old(software)@
            })
        },
        call_ensures(BroadcastingSoftwareState::clear_pending_switch, (software,), unit)
            ==> final(software)@ == (BroadcastingSoftwareStateView {
            pending_switch: None,
            ..old(software)@
        }),
        call_ensures(BroadcastingSoftwareState::mark_disconnected, (software,), unit)
            ==> final(software)@ == (BroadcastingSoftwareStateView {
            pending_switch: None,
            status: ClientStatus::Disconnected,
            is_streaming: false,
            ..old(software)@
        }),
{
    if call_ensures(BroadcastingSoftwareState::set_pending_switch, (software, scene), unit) {
        let at = choose|at: Instant|
            is_reading(at) && final(software)@ == #[trigger] old(software)@.with_pending_switch(
                scene@,
                at,
            );
        assert(final(software)@ == old(software)@.with_pending_switch(scene@, at));
    }
}

// The rest.

/// Making the scenes of the settings switchable changes the set of switchable
/// scenes and nothing else. The set gains just those that the settings name.
pub proof fn law_switchable_scenes_call(state: &mut State, scene: Seq<char>, unit: ())
    requires
        call_ensures(State::set_all_switchable_scenes, (state,), unit),
    ensures
        final(state)@.switcher_state.switchable_scenes.contains(scene)
            <==> old(state)@.switcher_state.switchable_scenes.contains(scene) || old(
            state,
        )@.config.has_scene(scene),
        final(state)@.config == old(state)@.config,
        final(state)@.broadcasting_software == old(state)@.broadcasting_software,
        final(state)@.switcher_state.last_used_server == old(
            state,
        )@.switcher_state.last_used_server,
        final(state)@.switcher_state.switcher_enabled_notifier == old(
            state,
        )@.switcher_state.switcher_enabled_notifier,
{
}

/// The figures of the current stream: counters count from the start of it, and
/// the others are those of now.
pub proof fn law_current_figures_call(now: StreamStatus, start: StreamStatus, r: StreamStatus)
    requires
        now.counts_from(start),
        call_ensures(StreamStatus::calculate_current, (&now, &start), r),
    ensures
        start.num_total_frames + r.num_total_frames == now.num_total_frames,
        start.num_dropped_frames + r.num_dropped_frames == now.num_dropped_frames,
        start.render_total_frames + r.render_total_frames == now.render_total_frames,
        start.render_missed_frames + r.render_missed_frames == now.render_missed_frames,
        start.output_total_frames + r.output_total_frames == now.output_total_frames,
        start.output_skipped_frames + r.output_skipped_frames == now.output_skipped_frames,
        r.bitrate == now.bitrate,
        r.fps_bits == now.fps_bits,
        r.cpu_usage_bits == now.cpu_usage_bits,
        r.memory_usage_bits == now.memory_usage_bits,
        r.available_disk_space_bits == now.available_disk_space_bits,
{
}

/// Setting the trigger for the low scene sets that one alone.
pub proof fn law_set_low_call(triggers: &mut Triggers, value: Option<u32>, unit: ())
    requires
        call_ensures(Triggers::set_low, (triggers, value), unit),
    ensures
        final(triggers).low == value,
        final(triggers).rtt == old(triggers).rtt,
        final(triggers).offline == old(triggers).offline,
        final(triggers).rtt_offline == old(triggers).rtt_offline,
{
}

/// A second has a thousand million nanoseconds.
pub proof fn law_nanos_call(secs: u64, r: u128)
    requires
        call_ensures(nanos_from_secs, (secs,), r),
    ensures
        r == secs * 1_000_000_000,
{
}

/// The text about the software is the one about its state, with the names of the
/// scenes in quotes, or as they are given.
pub proof fn law_text_call(
    software: BroadcastingSoftwareState,
    prev_scene: &str,
    current_scene: &str,
    r: String,
    in_quotes: String,
)
    requires
        call_ensures(
            BroadcastingSoftwareState::debug_string_with,
            (&software, prev_scene, current_scene),
            r,
        ),
        call_ensures(BroadcastingSoftwareState::debug_string, (&software,), in_quotes),
    ensures
        r@ == software@.debug_text(prev_scene@, current_scene@),
        in_quotes@ == software@.debug_text(
            quoted(software.prev_scene@),
            quoted(software.current_scene@),
        ),
{
}

} // verus!
