//! When to switch, and to which scene: the rules, stated over views.
use crate::clock::{is_timer_reading, secs_in_nanos};
use crate::config::StreamServerView;
use crate::error::Error;
use crate::scenes::{SwitchType, SwitchingScenesView};
use crate::state::{
    BroadcastingSoftwareStateView, ClientStatus, StateView, SwitcherStateView,
};
use crate::steps::{
    AnnouncementView, ClockReadings, RunEvent, RunStep, SceneChangeView, SceneRequestView,
    SwitchReply, SwitchStepView, SwitchTracker,
};
use crate::views::first_from;
use std::sync::Arc;
use std::time::Instant;
use tokio::sync::Notify;
use vstd::prelude::*;

verus! {

/// Holds of the stream servers that are enabled.
pub open spec fn enabled() -> spec_fn(StreamServerView) -> bool {
    |server: StreamServerView| server.enabled
}

/// Holds of the stream servers called `name`.
pub open spec fn named(name: Seq<char>) -> spec_fn(StreamServerView) -> bool {
    |server: StreamServerView| server.name == name
}

/// The first stream server called `name`.
pub open spec fn find_server(servers: Seq<StreamServerView>, name: Seq<char>) -> Option<int> {
    first_from(servers, named(name), 0)
}

/// A drop in quality is acted upon at once if the server that reports it says
/// so. While all servers are offline, it is enough that an enabled one does.
pub open spec fn should_instant_degrade(
    server: Option<StreamServerView>,
    servers: Seq<StreamServerView>,
    previous: SwitchType,
    current: SwitchType,
) -> bool {
    &&& previous == SwitchType::Normal || previous == SwitchType::Low
    &&& current == SwitchType::Low || current == SwitchType::Offline
    &&& previous != current
    &&& {
        ||| server is Some && server->0.instant_degrade
        ||| current == SwitchType::Offline && exists|i: int|
            0 <= i < servers.len() && (#[trigger] servers[i]).enabled && servers[i].instant_degrade
    }
}

/// A return to the normal scene has to wait if the server says so. It is a
/// return only in the pass that sees the normal type first.
pub open spec fn should_delay_normal_recovery(
    server: Option<StreamServerView>,
    previous: SwitchType,
    current: SwitchType,
) -> bool {
    &&& current == SwitchType::Normal
    &&& previous != SwitchType::Normal
    &&& server is Some
    &&& server->0.delay_normal_recovery
}

/// The scenes that a stream server has instead of the general ones, if any:
/// the backup scenes while the server that it depends on is offline, and
/// otherwise its own.
pub open spec fn optional_scenes(
    server: Option<StreamServerView>,
    dependency_online: bool,
) -> Option<SwitchingScenesView> {
    match server {
        None => None,
        Some(server) => match server.depends_on {
            Some(depends) => if dependency_online {
                server.override_scenes
            } else {
                Some(depends.backup_scenes)
            },
            None => server.override_scenes,
        },
    }
}

/// What `event` makes of the tracker: a break that is over restarts its timer,
/// and nothing else between two passes changes it.
pub open spec fn tracker_follows(
    before: SwitchTracker,
    event: RunEvent,
    after: SwitchTracker,
) -> bool {
    match event {
        RunEvent::Woken => {
            &&& is_timer_reading(after.same_type_seconds)
            &&& after.prev_switch_type == before.prev_switch_type
            &&& after.same_type == before.same_type
        },
        _ => after == before,
    }
}

/// The outcome of looking at a switch type.
pub struct Verdict {
    /// The tracker for the next pass
    pub tracker: SwitchTracker,
    /// The switch type to act upon, if it is time to act
    pub due: Option<SwitchType>,
    /// Nanoseconds since the tracker's timer started
    pub age: int,
}

impl StateView {
    /// The stream servers.
    pub open spec fn servers(self) -> Seq<StreamServerView> {
        self.config.switcher.stream_servers
    }

    /// The stream server with this index.
    pub open spec fn server_at(self, index: Option<int>) -> Option<StreamServerView> {
        match index {
            Some(i) => if 0 <= i < self.servers().len() {
                Some(self.servers()[i])
            } else {
                None
            },
            None => None,
        }
    }

    /// What to wait for before the switcher can do anything, if anything:
    /// that it is enabled, then that there is a connection, then a stream if
    /// it needs one, then a scene that it may switch away from.
    pub open spec fn sleep_notifier(self) -> Option<Arc<Notify>> {
        if !self.config.switcher.bitrate_switcher_enabled {
            Some(self.switcher_state.switcher_enabled_notifier)
        } else if self.broadcasting_software.status == ClientStatus::Disconnected {
            Some(self.broadcasting_software.connected_notifier)
        } else if self.config.switcher.only_switch_when_streaming
            && !self.broadcasting_software.is_streaming {
            Some(self.broadcasting_software.start_streaming_notifier)
        } else if !self.switcher_state.switchable_scenes.contains(
            self.broadcasting_software.current_scene,
        ) {
            Some(self.broadcasting_software.switch_scene_notifier)
        } else {
            None
        }
    }

    /// What the switcher does after `event`. Whether there is anything to wait
    /// for is asked at each tick, and only then.
    pub open spec fn run_step(self, event: RunEvent) -> RunStep {
        match event {
            RunEvent::Ticked => match self.sleep_notifier() {
                Some(notifier) => RunStep::AwaitNotifier(notifier),
                None => RunStep::Pass,
            },
            _ => RunStep::AwaitTick,
        }
    }

    /// Whether `server` takes over from another one. Then going back to the
    /// previous scene would go back to a scene of the other server.
    pub open spec fn takes_over(self, server: Option<StreamServerView>, current: SwitchType) -> bool {
        &&& current == SwitchType::Previous
        &&& server is Some
        &&& self.switcher_state.last_used_server is Some
        &&& self.switcher_state.last_used_server->0 != server->0.name
    }

    /// Whether to act without waiting for the type to be seen again: when a
    /// stream is back, when quality drops, or when another server takes over.
    pub open spec fn forced(
        self,
        tracker: SwitchTracker,
        server: Option<StreamServerView>,
        current: SwitchType,
    ) -> bool {
        let previous = tracker.prev_switch_type;
        let instant_recover = self.config.switcher.instantly_switch_on_recover && previous
            == SwitchType::Offline && current != SwitchType::Offline;
        let instant_degrade = should_instant_degrade(server, self.servers(), previous, current);
        ||| (instant_recover || instant_degrade) && !should_delay_normal_recovery(
            server,
            previous,
            current,
        )
        ||| self.takes_over(server, current)
    }

    /// How many passes in a row have seen `current` again, this one included.
    pub open spec fn same_type_count(self, tracker: SwitchTracker, current: SwitchType) -> int {
        if tracker.prev_switch_type == current {
            tracker.same_type + 1
        } else {
            0
        }
    }

    /// Whether the type has been seen often enough. A delayed recovery goes by
    /// the time instead, as many seconds as there would be passes, but only in
    /// the pass that sees the normal type first. From the next pass on the type
    /// is no longer a new one, and the count decides.
    pub open spec fn retry_satisfied(
        self,
        tracker: SwitchTracker,
        server: Option<StreamServerView>,
        current: SwitchType,
        age: int,
    ) -> bool {
        if should_delay_normal_recovery(server, tracker.prev_switch_type, current) {
            age >= secs_in_nanos(self.config.switcher.retry_attempts)
        } else {
            self.same_type_count(tracker, current) == self.config.switcher.retry_attempts
        }
    }

    /// Whether it is too early in a stream for the offline timeout to count.
    pub open spec fn just_started(self, stream_age: int) -> bool {
        &&& !self.config.switcher.only_switch_when_streaming
        &&& stream_age <= secs_in_nanos(self.config.switcher.retry_attempts + 5)
    }

    /// Looks at the switch type that a pass came up with. The timer starts
    /// over with each new type, and again when acting right after a stream
    /// has started.
    pub open spec fn verdict(
        self,
        tracker: SwitchTracker,
        server: Option<StreamServerView>,
        current: SwitchType,
        clock: ClockReadings,
    ) -> Verdict {
        let changed = tracker.prev_switch_type != current;
        let since = if changed {
            clock.now
        } else {
            tracker.same_type_seconds
        };
        let age = if changed {
            clock.fresh_age as int
        } else {
            clock.type_age as int
        };
        if self.retry_satisfied(tracker, server, current, age) || self.forced(
            tracker,
            server,
            current,
        ) {
            let restart = self.just_started(clock.stream_age as int);
            Verdict {
                tracker: SwitchTracker {
                    prev_switch_type: current,
                    same_type: 0,
                    same_type_seconds: if restart {
                        clock.now
                    } else {
                        since
                    },
                },
                due: Some(
                    if self.takes_over(server, current) {
                        SwitchType::Normal
                    } else {
                        current
                    },
                ),
                age: if restart {
                    clock.fresh_age as int
                } else {
                    age
                },
            }
        } else {
            Verdict {
                tracker: SwitchTracker {
                    prev_switch_type: current,
                    same_type: self.same_type_count(tracker, current) as u8,
                    same_type_seconds: since,
                },
                due: None,
                age,
            }
        }
    }

    /// Whether the stream has been offline for so long that it is to be
    /// stopped.
    pub open spec fn offline_timeout_reached(self, age: int) -> bool {
        &&& self.config.optional_options.offline_timeout matches Some(minutes)
        &&& self.broadcasting_software.is_streaming
        &&& age >= secs_in_nanos(minutes * 60)
    }

    /// Whether no counter overflows while looking at `current`, if `due` says
    /// whether it is to be acted upon.
    pub open spec fn counters_fit(
        self,
        tracker: SwitchTracker,
        current: SwitchType,
        due: bool,
    ) -> bool {
        &&& self.same_type_count(tracker, current) <= u8::MAX
        &&& due && !self.config.switcher.only_switch_when_streaming
            ==> self.config.switcher.retry_attempts + 5 <= u8::MAX
    }

    /// Whether the offline timeout fits a counter of seconds. It is only looked
    /// at while there is a stream.
    pub open spec fn offline_timeout_fits(self) -> bool {
        self.broadcasting_software.is_streaming ==> (
        self.config.optional_options.offline_timeout matches Some(minutes) ==> minutes * 60
            <= u32::MAX)
    }

    /// Whether no counter or limit overflows while looking at `current` and
    /// acting upon it, if `due` says whether it is to be acted upon.
    pub open spec fn verdict_fits(
        self,
        tracker: SwitchTracker,
        current: SwitchType,
        due: bool,
    ) -> bool {
        &&& self.counters_fit(tracker, current, due)
        &&& due && current == SwitchType::Offline ==> self.offline_timeout_fits()
    }

    /// Whether `current` may come out as due, whatever the clock says.
    pub open spec fn may_be_due(
        self,
        tracker: SwitchTracker,
        server: Option<StreamServerView>,
        current: SwitchType,
    ) -> bool {
        ||| should_delay_normal_recovery(server, tracker.prev_switch_type, current)
        ||| self.same_type_count(tracker, current) == self.config.switcher.retry_attempts
        ||| self.forced(tracker, server, current)
    }

    /// The scene change for `switch_type` on the stream server `server`, once
    /// it is known whether the server that it depends on is online.
    pub open spec fn scene_change(
        self,
        server: Option<int>,
        switch_type: SwitchType,
        dependency_online: bool,
    ) -> SceneChangeView {
        let scenes = match optional_scenes(self.server_at(server), dependency_online) {
            Some(scenes) => scenes,
            None => self.config.switcher.switching_scenes,
        };
        SceneChangeView {
            scene: match scenes.scene(switch_type) {
                Some(scene) => scene,
                None => self.broadcasting_software.prev_scene,
            },
            switch_type,
            server_name: match self.server_at(server) {
                Some(server) => Some(server.name),
                None => None,
            },
        }
    }

    /// The stream server to go by. While there is no stream, that is the one
    /// that was shown last.
    pub open spec fn relevant_server(self, server: Option<int>, switch_type: SwitchType) -> Option<
        int,
    > {
        match self.switcher_state.last_used_server {
            Some(name) => if switch_type == SwitchType::Offline {
                find_server(self.servers(), name)
            } else {
                server
            },
            None => server,
        }
    }

    /// The step that leads to a scene for `switch_type`: to ask about the
    /// server that the relevant one depends on, or to go to the scene.
    pub open spec fn choose_scene(self, server: Option<int>, switch_type: SwitchType)
        -> SwitchStepView {
        let relevant = self.relevant_server(server, switch_type);
        match self.server_at(relevant) {
            Some(view) => match view.depends_on {
                Some(depends) => match find_server(self.servers(), depends.name) {
                    Some(dependency) => SwitchStepView::AskOnline {
                        server: relevant->0,
                        dependency,
                        switch_type,
                    },
                    None => SwitchStepView::Commit(
                        self.scene_change(relevant, switch_type, false),
                    ),
                },
                None => SwitchStepView::Commit(self.scene_change(relevant, switch_type, true)),
            },
            None => SwitchStepView::Commit(self.scene_change(relevant, switch_type, true)),
        }
    }

    /// The step after the stream was stopped: to say so in chat, if there is
    /// one, and then to go to the offline scene.
    pub open spec fn stream_stopped(self) -> SwitchStepView {
        match self.config.chat {
            Some(chat) => SwitchStepView::SendOfflineTimeout {
                platform: chat.platform,
                channel: chat.username,
            },
            None => self.choose_scene(None, SwitchType::Offline),
        }
    }

    /// The step that a verdict leads to.
    pub open spec fn act_on(self, server: Option<int>, verdict: Verdict) -> SwitchStepView {
        match verdict.due {
            None => SwitchStepView::Done(Ok(())),
            Some(switch_type) => if switch_type == SwitchType::Offline
                && self.offline_timeout_reached(verdict.age) {
                if self.broadcasting_software.software_set {
                    SwitchStepView::StopStream
                } else {
                    SwitchStepView::Done(Err(Error::NoSoftwareSet))
                }
            } else {
                self.choose_scene(server, switch_type)
            },
        }
    }

    /// The switch type that a pass has come up with, and the stream server
    /// that reported it, if this reply settles it. `Err` is the index of the
    /// stream server to ask next.
    pub open spec fn settled(self, step: SwitchStepView, reply: SwitchReply) -> Option<
        Result<(Option<int>, SwitchType), int>,
    > {
        match (step, reply) {
            (SwitchStepView::Begin, SwitchReply::Go) => Some(self.search_from(0)),
            (
                SwitchStepView::AskSwitchType { server, triggers: _ },
                SwitchReply::Reported(switch_type),
            ) => Some(
                if switch_type == SwitchType::Offline {
                    self.search_from(server + 1)
                } else {
                    Ok((Some(server), switch_type))
                },
            ),
            _ => None,
        }
    }

    /// The next enabled stream server to ask. If there is none left, all of
    /// them are offline.
    pub open spec fn search_from(self, index: int) -> Result<(Option<int>, SwitchType), int> {
        match first_from(self.servers(), enabled(), index) {
            Some(next) => Err(next),
            None => Ok((None, SwitchType::Offline)),
        }
    }

    /// The step that asks a stream server for its switch type, by the triggers
    /// of the settings.
    pub open spec fn ask_switch_type(self, server: int) -> SwitchStepView {
        SwitchStepView::AskSwitchType { server, triggers: self.config.switcher.triggers }
    }

    /// Whether no counter or limit overflows in the next step, whatever the
    /// clock says.
    pub open spec fn step_fits(
        self,
        tracker: SwitchTracker,
        step: SwitchStepView,
        reply: SwitchReply,
    ) -> bool {
        match self.settled(step, reply) {
            Some(Ok((server, current))) => self.verdict_fits(
                tracker,
                current,
                self.may_be_due(tracker, self.server_at(server), current),
            ),
            _ => true,
        }
    }

    /// Whether no counter or limit overflows in the next step, if this is what
    /// the clock says.
    pub open spec fn step_fits_at(
        self,
        tracker: SwitchTracker,
        step: SwitchStepView,
        reply: SwitchReply,
        clock: ClockReadings,
    ) -> bool {
        match self.settled(step, reply) {
            Some(Ok((server, current))) => self.verdict_fits(
                tracker,
                current,
                self.verdict(tracker, self.server_at(server), current, clock).due is Some,
            ),
            _ => true,
        }
    }

    /// One step of a pass: the tracker and the step after `reply` came to
    /// `step`. A reply to some other step changes nothing.
    pub open spec fn next_step(
        self,
        tracker: SwitchTracker,
        step: SwitchStepView,
        reply: SwitchReply,
        clock: ClockReadings,
    ) -> (SwitchTracker, SwitchStepView) {
        match self.settled(step, reply) {
            Some(Ok((server, current))) => {
                let verdict = self.verdict(tracker, self.server_at(server), current, clock);
                (verdict.tracker, self.act_on(server, verdict))
            },
            Some(Err(server)) => (tracker, self.ask_switch_type(server)),
            None => (tracker, self.follow_up(step, reply)),
        }
    }

    /// One step of a pass, or `None` if a counter or a limit would overflow.
    pub open spec fn checked_next_step(
        self,
        tracker: SwitchTracker,
        step: SwitchStepView,
        reply: SwitchReply,
        clock: ClockReadings,
    ) -> Option<(SwitchTracker, SwitchStepView)> {
        if self.step_fits_at(tracker, step, reply, clock) {
            Some(self.next_step(tracker, step, reply, clock))
        } else {
            None
        }
    }

    /// The step after the switch type is settled.
    pub open spec fn follow_up(self, step: SwitchStepView, reply: SwitchReply) -> SwitchStepView {
        match (step, reply) {
            (SwitchStepView::StopStream, SwitchReply::StreamStopped(stopped)) => if !stopped {
                SwitchStepView::Done(Ok(()))
            } else if self.config.optional_options.record_while_streaming {
                SwitchStepView::AskRecording
            } else {
                self.stream_stopped()
            },
            (SwitchStepView::AskRecording, SwitchReply::Recording(recording)) => match recording {
                Err(error) => SwitchStepView::Done(Err(error)),
                Ok(true) => SwitchStepView::ToggleRecording,
                Ok(false) => self.stream_stopped(),
            },
            (SwitchStepView::ToggleRecording, SwitchReply::RecordingToggled(toggled)) => if toggled {
                self.stream_stopped()
            } else {
                SwitchStepView::Done(Ok(()))
            },
            (SwitchStepView::SendOfflineTimeout { .. }, SwitchReply::OfflineTimeoutSent) => {
                self.choose_scene(None, SwitchType::Offline)
            },
            (
                SwitchStepView::AskOnline { server, dependency: _, switch_type },
                SwitchReply::Online(online),
            ) => SwitchStepView::Commit(self.scene_change(Some(server), switch_type, online)),
            _ => step,
        }
    }

    /// The state once it is settled to go to a scene: a normal or low scene is
    /// the one to come back to, and unless there is no stream, the server is
    /// the one that was shown last.
    pub open spec fn committed(self, change: SceneChangeView) -> Self {
        StateView {
            broadcasting_software: BroadcastingSoftwareStateView {
                prev_scene: if change.switch_type == SwitchType::Normal || change.switch_type
                    == SwitchType::Low {
                    change.scene
                } else {
                    self.broadcasting_software.prev_scene
                },
                ..self.broadcasting_software
            },
            switcher_state: SwitcherStateView {
                last_used_server: if change.switch_type != SwitchType::Offline {
                    change.server_name
                } else {
                    self.switcher_state.last_used_server
                },
                ..self.switcher_state
            },
            ..self
        }
    }

    /// Whether the starting scene is shown and stays until there is a stream.
    pub open spec fn waits_on_starting_scene(self, switch_type: SwitchType) -> bool {
        &&& self.config.optional_scenes.starting == Some(self.broadcasting_software.current_scene)
        &&& self.config.optional_options.switch_from_starting_scene_to_live_scene
        &&& switch_type == SwitchType::Offline
    }

    /// Whether to leave everything as it is: `scene` is shown already, or a
    /// switch to it is pending, or the scene that is shown is not to be left.
    pub open spec fn keeps_scene(
        self,
        scene: Seq<char>,
        switch_type: SwitchType,
        pending_age: int,
    ) -> bool {
        ||| self.broadcasting_software.current_scene == scene
        ||| self.broadcasting_software.switch_pending(scene, pending_age)
        ||| self.waits_on_starting_scene(switch_type)
        ||| !self.switcher_state.switchable_scenes.contains(
            self.broadcasting_software.current_scene,
        )
    }

    /// The announcement of a switch, while streaming and if it is wanted.
    pub open spec fn announcement(self, scene: Seq<char>, switch_type: SwitchType) -> Option<
        AnnouncementView,
    > {
        match self.config.chat {
            Some(chat) => if self.broadcasting_software.is_streaming
                && self.config.switcher.auto_switch_notification {
                Some(
                    AnnouncementView {
                        platform: chat.platform,
                        channel: chat.username,
                        scene,
                        switch_type,
                    },
                )
            } else {
                None
            },
            None => None,
        }
    }

    /// The request for the broadcasting software, if one is necessary.
    pub open spec fn scene_request(
        self,
        scene: Seq<char>,
        switch_type: SwitchType,
        pending_age: int,
    ) -> Result<Option<SceneRequestView>, Error> {
        if self.keeps_scene(scene, switch_type, pending_age) {
            Ok(None)
        } else if !self.broadcasting_software.software_set {
            Err(Error::NoSoftwareSet)
        } else {
            Ok(
                Some(
                    SceneRequestView {
                        scene,
                        announcement: self.announcement(scene, switch_type),
                    },
                ),
            )
        }
    }

    /// The state once the broadcasting software has accepted a request.
    pub open spec fn request_accepted(self, request: SceneRequestView, at: Instant) -> Self {
        StateView {
            broadcasting_software: self.broadcasting_software.with_pending_switch(
                request.scene,
                at,
            ),
            ..self
        }
    }
}

} // verus!
