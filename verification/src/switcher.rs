//! The switcher.
//!
//! [`Switcher::next_run_step`] tells what to do from one event to the next: to
//! wait, or to do a pass.
//!
//! One pass of the switcher is a chain of [`SwitchStep`]s. The program around
//! this library starts with [`SwitchStep::Begin`], does what each step asks
//! for and hands the outcome to [`Switcher::try_next_step`], or to
//! [`Switcher::next_step`] if it knows that nothing overflows, until the pass
//! is over. A step that asks for another scene goes through
//! [`Switcher::commit`] and then [`Switcher::switch_if_necessary`].
use crate::clock::{is_reading, nanos_from_secs};
use crate::config::StreamServer;
use crate::error::Error;
use crate::rules;
pub use crate::scenes::{SwitchType, SwitchingScenes};
use crate::state::{ClientStatus, State, StateView};
pub use crate::steps::{
    Announcement, ClockReadings, RunEvent, RunStep, SceneChange, SceneRequest, SceneRequestView,
    SwitchReply, SwitchStep, SwitchTracker,
};
pub use crate::triggers::{TriggerType, Triggers};
use crate::views::{first_from, opt_view, seq_view};
use std::sync::Arc;
use std::time::Instant;
use tokio::sync::Notify;
use vstd::prelude::*;

verus! {

/// Switches scenes by the state that it holds.
pub struct Switcher {
    pub state: State,
}

/// An index as a mathematical integer.
pub open spec fn index_view(index: Option<usize>) -> Option<int> {
    match index {
        Some(i) => Some(i as int),
        None => None,
    }
}

/// The first enabled stream server at or after `from`.
fn next_enabled_server(servers: &[StreamServer], from: usize) -> (r: Option<usize>)
    ensures
        index_view(r) == first_from(seq_view(servers@), rules::enabled(), from as int),
{
    let ghost views = seq_view(servers@);
    let mut i: usize = from;
    while i < servers.len()
        invariant
            from <= i,
            i <= servers.len() || i == from,
            views == seq_view(servers@),
            first_from(views, rules::enabled(), from as int) == first_from(
                views,
                rules::enabled(),
                i as int,
            ),
        decreases servers.len() - i,
    {
        assert(views[i as int] == servers@[i as int]@);
        if servers[i].enabled {
            return Some(i);
        }
        i += 1;
    }
    None
}

/// The first stream server called `name`.
fn find_server(servers: &[StreamServer], name: &String) -> (r: Option<usize>)
    ensures
        index_view(r) == rules::find_server(seq_view(servers@), name@),
{
    let ghost views = seq_view(servers@);
    let mut i: usize = 0;
    while i < servers.len()
        invariant
            i <= servers.len(),
            views == seq_view(servers@),
            rules::find_server(views, name@) == first_from(views, rules::named(name@), i as int),
        decreases servers.len() - i,
    {
        assert(views[i as int] == servers@[i as int]@);
        if servers[i].name == *name {
            return Some(i);
        }
        i += 1;
    }
    None
}

/// Whether any enabled stream server wants a drop in quality to be acted upon
/// at once.
fn any_instant_degrade(servers: &[StreamServer]) -> (r: bool)
    ensures
        r == exists|i: int|
            0 <= i < servers@.len() && (#[trigger] seq_view(servers@)[i]).enabled
                && seq_view(servers@)[i].instant_degrade,
{
    let ghost views = seq_view(servers@);
    let mut i: usize = 0;
    while i < servers.len()
        invariant
            i <= servers.len(),
            views == seq_view(servers@),
            forall|j: int|
                0 <= j < i ==> !((#[trigger] views[j]).enabled && views[j].instant_degrade),
        decreases servers.len() - i,
    {
        assert(views[i as int] == servers@[i as int]@);
        if servers[i].enabled && servers[i].instant_degrade {
            return true;
        }
        i += 1;
    }
    false
}

/// The scenes that a stream server has instead of the general ones, once it is
/// known whether the server that it depends on is online.
pub fn get_optional_scenes(server: Option<&StreamServer>, dependency_online: bool) -> (r: Option<
    &SwitchingScenes,
>)
    ensures
        opt_view(r) == rules::optional_scenes(opt_view(server), dependency_online),
{
    match server {
        None => None,
        Some(server) => {
            if let Some(depends) = &server.depends_on {
                if !dependency_online {
                    return Some(&depends.backup_scenes);
                }
            }
            server.override_scenes.as_ref()
        },
    }
}

impl Switcher {
    /// What to wait for before the switcher can do anything, if anything.
    pub fn get_sleep_notifier_if_necessary(&self) -> (r: Option<Arc<Notify>>)
        ensures
            r == self.state@.sleep_notifier(),
    {
        let state = &self.state;
        if !state.config.switcher.bitrate_switcher_enabled {
            return Some(state.switcher_state.switcher_enabled_notifier());
        }
        if state.broadcasting_software.status == ClientStatus::Disconnected {
            return Some(state.broadcasting_software.connected_notifier());
        }
        if state.config.switcher.only_switch_when_streaming
            && !state.broadcasting_software.is_streaming {
            return Some(state.broadcasting_software.start_streaming_notifier());
        }
        if !state.switcher_state.switchable_scenes.contains(
            state.broadcasting_software.current_scene.as_str(),
        ) {
            return Some(state.broadcasting_software.switch_scene_notifier());
        }
        None
    }

    /// What the switcher does next: it waits for a tick, and at each tick it
    /// either has something to wait for first or does one pass. After a break
    /// the tracker's timer starts again, and the next tick asks again whether
    /// there is anything to wait for.
    pub fn next_run_step(&self, tracker: &mut SwitchTracker, event: RunEvent) -> (r: RunStep)
        ensures
            r == self.state@.run_step(event),
            rules::tracker_follows(*old(tracker), event, *final(tracker)),
    {
        match event {
            RunEvent::Ticked => match self.get_sleep_notifier_if_necessary() {
                Some(notifier) => RunStep::AwaitNotifier(notifier),
                None => RunStep::Pass,
            },
            RunEvent::Woken => {
                tracker.resume();
                RunStep::AwaitTick
            },
            RunEvent::Started | RunEvent::PassEnded(_) => RunStep::AwaitTick,
        }
    }

    /// Whether a drop in quality is acted upon at once.
    pub fn should_instant_degrade(
        server: Option<&StreamServer>,
        stream_servers: &[StreamServer],
        previous: SwitchType,
        current: SwitchType,
    ) -> (r: bool)
        ensures
            r == rules::should_instant_degrade(
                opt_view(server),
                seq_view(stream_servers@),
                previous,
                current,
            ),
    {
        if !matches!(previous, SwitchType::Normal | SwitchType::Low) || !matches!(
            current,
            SwitchType::Low | SwitchType::Offline
        ) || previous == current {
            return false;
        }
        if let Some(server) = server {
            if server.instant_degrade {
                return true;
            }
        }
        current == SwitchType::Offline && any_instant_degrade(stream_servers)
    }

    /// Whether a return to the normal scene has to wait.
    pub fn should_delay_normal_recovery(
        server: Option<&StreamServer>,
        previous: SwitchType,
        current: SwitchType,
    ) -> (r: bool)
        ensures
            r == rules::should_delay_normal_recovery(opt_view(server), previous, current),
    {
        match server {
            Some(server) => current == SwitchType::Normal && previous != SwitchType::Normal
                && server.delay_normal_recovery,
            None => false,
        }
    }

    /// The stream server with this index.
    fn server_at(&self, index: Option<usize>) -> (r: Option<&StreamServer>)
        ensures
            opt_view(r) == self.state@.server_at(index_view(index)),
    {
        let servers = &self.state.config.switcher.stream_servers;
        match index {
            Some(i) => if i < servers.len() {
                Some(&servers[i])
            } else {
                None
            },
            None => None,
        }
    }

    /// Whether `server` takes over from another one.
    fn takes_over(&self, server: Option<&StreamServer>, current: SwitchType) -> (r: bool)
        ensures
            r == self.state@.takes_over(opt_view(server), current),
    {
        match (server, &self.state.switcher_state.last_used_server) {
            (Some(server), Some(last)) => current == SwitchType::Previous && *last != server.name,
            _ => false,
        }
    }

    /// Whether to act without waiting for the type to be seen again.
    fn forced(
        &self,
        tracker: &SwitchTracker,
        server: Option<&StreamServer>,
        current: SwitchType,
    ) -> (r: bool)
        ensures
            r == self.state@.forced(*tracker, opt_view(server), current),
    {
        let config = &self.state.config.switcher;
        let previous = tracker.prev_switch_type;
        let instant_recover = config.instantly_switch_on_recover && previous
            == SwitchType::Offline && current != SwitchType::Offline;
        let instant_degrade = Self::should_instant_degrade(
            server,
            config.stream_servers.as_slice(),
            previous,
            current,
        );
        (instant_recover || instant_degrade) && !Self::should_delay_normal_recovery(
            server,
            previous,
            current,
        ) || self.takes_over(server, current)
    }

    /// Looks at the switch type that a pass came up with: counts it, and tells
    /// which type to act upon, if it is time to, and for how long the tracker's
    /// timer has been running.
    pub fn evaluate(
        &self,
        tracker: &mut SwitchTracker,
        server: Option<usize>,
        current: SwitchType,
        clock: ClockReadings,
    ) -> (r: (Option<SwitchType>, u128))
        requires
            self.state@.counters_fit(
                *old(tracker),
                current,
                self.state@.verdict(
                    *old(tracker),
                    self.state@.server_at(index_view(server)),
                    current,
                    clock,
                ).due is Some,
            ),
        ensures
            ({
                let verdict = self.state@.verdict(
                    *old(tracker),
                    self.state@.server_at(index_view(server)),
                    current,
                    clock,
                );
                &&& *final(tracker) == verdict.tracker
                &&& r.0 == verdict.due
                &&& r.1 == verdict.age
            }),
    {
        let config = &self.state.config.switcher;
        let server = self.server_at(server);
        let force_switch = self.forced(tracker, server, current);
        let delay_normal_recovery = Self::should_delay_normal_recovery(
            server,
            tracker.prev_switch_type,
            current,
        );
        let mut age: u128 = clock.type_age;
        if tracker.prev_switch_type == current {
            tracker.same_type = tracker.same_type + 1;
        } else {
            tracker.prev_switch_type = current;
            tracker.same_type = 0;
            tracker.same_type_seconds = clock.now;
            age = clock.fresh_age;
        }
        let retry_satisfied = if delay_normal_recovery {
            age >= nanos_from_secs(config.retry_attempts as u64)
        } else {
            tracker.same_type == config.retry_attempts
        };
        if !(retry_satisfied || force_switch) {
            return (None, age);
        }
        // Avoid triggering the offline timeout when starting the stream.
        if !config.only_switch_when_streaming && clock.stream_age <= nanos_from_secs(
            (config.retry_attempts + 5) as u64,
        ) {
            tracker.same_type_seconds = clock.now;
            age = clock.fresh_age;
        }
        tracker.same_type = 0;
        if self.takes_over(server, current) {
            (Some(SwitchType::Normal), age)
        } else {
            (Some(current), age)
        }
    }

    /// Whether the stream has been offline for so long, `age` nanoseconds, that
    /// it is to be stopped.
    pub fn offline_timeout_reached(&self, age: u128) -> (r: bool)
        requires
            self.state@.offline_timeout_fits(),
        ensures
            r == self.state@.offline_timeout_reached(age as int),
    {
        match self.state.config.optional_options.offline_timeout {
            Some(minutes) => self.state.broadcasting_software.is_streaming && age
                >= nanos_from_secs((minutes * 60) as u64),
            None => false,
        }
    }

    /// The scene change for `switch_type` on the stream server `server`, once
    /// it is known whether the server that it depends on is online.
    fn scene_change(
        &self,
        server: Option<usize>,
        switch_type: SwitchType,
        dependency_online: bool,
    ) -> (r: SceneChange)
        ensures
            r@ == self.state@.scene_change(index_view(server), switch_type, dependency_online),
    {
        let server = self.server_at(server);
        let scenes = match get_optional_scenes(server, dependency_online) {
            Some(scenes) => scenes,
            None => &self.state.config.switcher.switching_scenes,
        };
        let scene = match scenes.type_to_scene(&switch_type) {
            Ok(scene) => String::from(scene),
            Err(_) => self.state.broadcasting_software.prev_scene.clone(),
        };
        let server_name = match server {
            Some(server) => Some(server.name.clone()),
            None => None,
        };
        SceneChange { scene, switch_type, server_name }
    }

    /// The step that leads to a scene for `switch_type`.
    fn choose_scene(&self, server: Option<usize>, switch_type: SwitchType) -> (r: SwitchStep)
        ensures
            r@ == self.state@.choose_scene(index_view(server), switch_type),
    {
        let servers = self.state.config.switcher.stream_servers.as_slice();
        let relevant = match &self.state.switcher_state.last_used_server {
            Some(name) => if switch_type == SwitchType::Offline {
                find_server(servers, name)
            } else {
                server
            },
            None => server,
        };
        let ghost model = self.state@.relevant_server(index_view(server), switch_type);
        assert(index_view(relevant) == model);
        if let Some(index) = relevant {
            if index < servers.len() {
                assert(self.state@.server_at(model) == Some(servers@[index as int]@));
                if let Some(depends) = &servers[index].depends_on {
                    return match find_server(servers, &depends.name) {
                        Some(dependency) => SwitchStep::AskOnline {
                            server: index,
                            dependency,
                            switch_type,
                        },
                        None => SwitchStep::Commit(
                            self.scene_change(relevant, switch_type, false),
                        ),
                    };
                }
            }
        }
        SwitchStep::Commit(self.scene_change(relevant, switch_type, true))
    }

    /// The step after the stream was stopped.
    fn stream_stopped(&self) -> (r: SwitchStep)
        ensures
            r@ == self.state@.stream_stopped(),
    {
        match &self.state.config.chat {
            Some(chat) => SwitchStep::SendOfflineTimeout {
                platform: chat.platform.clone(),
                channel: chat.username.clone(),
            },
            None => self.choose_scene(None, SwitchType::Offline),
        }
    }

    /// The step that a verdict leads to.
    fn act_on(&self, server: Option<usize>, due: Option<SwitchType>, age: u128) -> (r: SwitchStep)
        requires
            due == Some(SwitchType::Offline) ==> self.state@.offline_timeout_fits(),
        ensures
            forall|tracker: SwitchTracker|
                r@ == #[trigger] self.state@.act_on(
                    index_view(server),
                    rules::Verdict { tracker, due, age: age as int },
                ),
    {
        match due {
            None => SwitchStep::Done(Ok(())),
            Some(switch_type) => if switch_type == SwitchType::Offline
                && self.offline_timeout_reached(age) {
                if self.state.broadcasting_software.software_set {
                    SwitchStep::StopStream
                } else {
                    SwitchStep::Done(Err(Error::NoSoftwareSet))
                }
            } else {
                self.choose_scene(server, switch_type)
            },
        }
    }

    /// Looks at a reply that may settle the switch type of the pass: the type
    /// and the stream server that reported it, or `Err` with the index of the
    /// stream server to ask next. `None` if the reply is about something else.
    fn settled(&self, step: &SwitchStep, reply: SwitchReply) -> (r: Option<
        Result<(Option<usize>, SwitchType), usize>,
    >)
        ensures
            match r {
                Some(Ok((server, current))) => self.state@.settled(step@, reply) == Some(
                    Ok::<(Option<int>, SwitchType), int>((index_view(server), current)),
                ),
                Some(Err(index)) => self.state@.settled(step@, reply) == Some(
                    Err::<(Option<int>, SwitchType), int>(index as int),
                ),
                None => self.state@.settled(step@, reply) is None,
            },
    {
        let servers = self.state.config.switcher.stream_servers.as_slice();
        let next = match (step, reply) {
            (SwitchStep::Begin, SwitchReply::Go) => next_enabled_server(servers, 0),
            (
                SwitchStep::AskSwitchType { server, triggers: _ },
                SwitchReply::Reported(switch_type),
            ) => {
                if switch_type != SwitchType::Offline {
                    return Some(Ok((Some(*server), switch_type)));
                }
                if *server < servers.len() {
                    next_enabled_server(servers, *server + 1)
                } else {
                    None
                }
            },
            _ => {
                return None;
            },
        };
        match next {
            Some(index) => Some(Err(index)),
            None => Some(Ok((None, SwitchType::Offline))),
        }
    }

    /// Whether no counter or limit overflows in the next step, whatever the
    /// clock says. To be asked before [`Switcher::next_step`].
    pub fn step_fits(&self, tracker: &SwitchTracker, step: &SwitchStep, reply: SwitchReply) -> (r:
        bool)
        ensures
            r == self.state@.step_fits(*tracker, step@, reply),
    {
        let (index, current) = match self.settled(step, reply) {
            Some(Ok(settled)) => settled,
            _ => {
                return true;
            },
        };
        let server = self.server_at(index);
        let delay_normal_recovery = Self::should_delay_normal_recovery(
            server,
            tracker.prev_switch_type,
            current,
        );
        match Self::same_type_count(tracker, current) {
            Some(count) => {
                let may_be_due = delay_normal_recovery || count
                    == self.state.config.switcher.retry_attempts || self.forced(
                    tracker,
                    server,
                    current,
                );
                !may_be_due || self.limits_fit(current)
            },
            None => false,
        }
    }

    /// Whether no counter or limit overflows in the next step, if this is what
    /// the clock says. To be asked before [`Switcher::next_step_at`].
    pub fn step_fits_at(
        &self,
        tracker: &SwitchTracker,
        step: &SwitchStep,
        reply: SwitchReply,
        clock: ClockReadings,
    ) -> (r: bool)
        ensures
            r == self.state@.step_fits_at(*tracker, step@, reply, clock),
    {
        let (index, current) = match self.settled(step, reply) {
            Some(Ok(settled)) => settled,
            _ => {
                return true;
            },
        };
        let server = self.server_at(index);
        let delay_normal_recovery = Self::should_delay_normal_recovery(
            server,
            tracker.prev_switch_type,
            current,
        );
        let attempts: u8 = self.state.config.switcher.retry_attempts;
        match Self::same_type_count(tracker, current) {
            Some(count) => {
                // A delayed recovery is always one to another type.
                let retry_satisfied = if delay_normal_recovery {
                    clock.fresh_age >= nanos_from_secs(attempts as u64)
                } else {
                    count == attempts
                };
                let due = retry_satisfied || self.forced(tracker, server, current);
                !due || self.limits_fit(current)
            },
            None => false,
        }
    }

    /// How many passes in a row have seen `current` again, this one included, if
    /// the counter holds it.
    fn same_type_count(tracker: &SwitchTracker, current: SwitchType) -> (r: Option<u8>)
        ensures
            forall|state: StateView|
                match r {
                    Some(count) => #[trigger] state.same_type_count(*tracker, current) == count,
                    None => state.same_type_count(*tracker, current) > u8::MAX,
                },
    {
        if tracker.prev_switch_type == current {
            tracker.same_type.checked_add(1)
        } else {
            Some(0)
        }
    }

    /// Whether no limit overflows if `current` is acted upon.
    fn limits_fit(&self, current: SwitchType) -> (r: bool)
        ensures
            r == ((!self.state@.config.switcher.only_switch_when_streaming
                ==> self.state@.config.switcher.retry_attempts + 5 <= u8::MAX) && (current
                == SwitchType::Offline ==> self.state@.offline_timeout_fits())),
    {
        let config = &self.state.config.switcher;
        if !config.only_switch_when_streaming && config.retry_attempts > u8::MAX - 5 {
            return false;
        }
        match self.state.config.optional_options.offline_timeout {
            Some(minutes) => !(current == SwitchType::Offline
                && self.state.broadcasting_software.is_streaming && minutes > u32::MAX / 60),
            None => true,
        }
    }

    /// One step of a pass: what to do after `reply` came to `step`. A reply to
    /// some other step changes nothing. The clock is read on the way.
    pub fn next_step(
        &self,
        tracker: &mut SwitchTracker,
        step: SwitchStep,
        reply: SwitchReply,
    ) -> (r: SwitchStep)
        requires
            self.state@.step_fits(*old(tracker), step@, reply),
        ensures
            exists|clock: ClockReadings|
                clock.are_of(
                    old(tracker).same_type_seconds,
                    self.state@.broadcasting_software.last_stream_started_at,
                ) && (*final(tracker), r@) == #[trigger] self.state@.next_step(
                    *old(tracker),
                    step@,
                    reply,
                    clock,
                ),
    {
        let clock = ClockReadings::take(
            tracker,
            &self.state.broadcasting_software.last_stream_started_at,
        );
        let ghost view = step@;
        let r = self.next_step_at(tracker, step, reply, clock);
        assert((*tracker, r@) == self.state@.next_step(*old(tracker), view, reply, clock));
        r
    }

    /// One step of a pass, like [`Switcher::next_step`], for callers that have
    /// not asked whether it fits. The clock is read on the way. `None` if, by
    /// what the clock says, a counter or a limit would overflow; the tracker is
    /// then left as it was.
    pub fn try_next_step(
        &self,
        tracker: &mut SwitchTracker,
        step: SwitchStep,
        reply: SwitchReply,
    ) -> (r: Option<SwitchStep>)
        ensures
            exists|clock: ClockReadings|
                clock.are_of(
                    old(tracker).same_type_seconds,
                    self.state@.broadcasting_software.last_stream_started_at,
                ) && #[trigger] self.state@.checked_next_step(
                    *old(tracker),
                    step@,
                    reply,
                    clock,
                ) == (match r {
                    Some(next) => Some((*final(tracker), next@)),
                    None => None,
                }),
            r is None ==> *final(tracker) == *old(tracker),
    {
        let clock = ClockReadings::take(
            tracker,
            &self.state.broadcasting_software.last_stream_started_at,
        );
        self.try_next_step_at(tracker, step, reply, clock)
    }

    /// One step of a pass, if this is what the clock says. `None` if a counter
    /// or a limit would overflow; the tracker is then left as it was.
    pub fn try_next_step_at(
        &self,
        tracker: &mut SwitchTracker,
        step: SwitchStep,
        reply: SwitchReply,
        clock: ClockReadings,
    ) -> (r: Option<SwitchStep>)
        ensures
            self.state@.checked_next_step(*old(tracker), step@, reply, clock) == (match r {
                Some(next) => Some((*final(tracker), next@)),
                None => None,
            }),
            r is None ==> *final(tracker) == *old(tracker),
    {
        if self.step_fits_at(tracker, &step, reply, clock) {
            Some(self.next_step_at(tracker, step, reply, clock))
        } else {
            None
        }
    }

    /// One step of a pass, if this is what the clock says.
    pub fn next_step_at(
        &self,
        tracker: &mut SwitchTracker,
        step: SwitchStep,
        reply: SwitchReply,
        clock: ClockReadings,
    ) -> (r: SwitchStep)
        requires
            self.state@.step_fits_at(*old(tracker), step@, reply, clock),
        ensures
            (*final(tracker), r@) == self.state@.next_step(*old(tracker), step@, reply, clock),
    {
        match self.settled(&step, reply) {
            Some(Ok((server, current))) => {
                let (due, age) = self.evaluate(tracker, server, current, clock);
                self.act_on(server, due, age)
            },
            Some(Err(server)) => SwitchStep::AskSwitchType {
                server,
                triggers: self.state.config.switcher.triggers,
            },
            None => self.follow_up(step, reply),
        }
    }

    /// The step after the switch type is settled.
    fn follow_up(&self, step: SwitchStep, reply: SwitchReply) -> (r: SwitchStep)
        ensures
            r@ == self.state@.follow_up(step@, reply),
    {
        match (&step, reply) {
            (SwitchStep::StopStream, SwitchReply::StreamStopped(stopped)) => {
                if !stopped {
                    SwitchStep::Done(Ok(()))
                } else if self.state.config.optional_options.record_while_streaming {
                    SwitchStep::AskRecording
                } else {
                    self.stream_stopped()
                }
            },
            (SwitchStep::AskRecording, SwitchReply::Recording(recording)) => match recording {
                Err(error) => SwitchStep::Done(Err(error)),
                Ok(true) => SwitchStep::ToggleRecording,
                Ok(false) => self.stream_stopped(),
            },
            (SwitchStep::ToggleRecording, SwitchReply::RecordingToggled(toggled)) => {
                if toggled {
                    self.stream_stopped()
                } else {
                    SwitchStep::Done(Ok(()))
                }
            },
            (SwitchStep::SendOfflineTimeout { .. }, SwitchReply::OfflineTimeoutSent) => {
                self.choose_scene(None, SwitchType::Offline)
            },
            (
                SwitchStep::AskOnline { server, dependency: _, switch_type },
                SwitchReply::Online(online),
            ) => SwitchStep::Commit(self.scene_change(Some(*server), *switch_type, online)),
            _ => step,
        }
    }

    /// Remembers where the switcher goes: a normal or low scene is the one to
    /// come back to, and unless there is no stream, the server is the one that
    /// was shown last.
    pub fn commit(&mut self, change: &SceneChange)
        ensures
            final(self).state@ == old(self).state@.committed(change@),
    {
        if matches!(change.switch_type, SwitchType::Normal | SwitchType::Low) {
            self.state.broadcasting_software.prev_scene = change.scene.clone();
        }
        if change.switch_type != SwitchType::Offline {
            self.state.switcher_state.last_used_server = match &change.server_name {
                Some(name) => Some(name.clone()),
                None => None,
            };
        }
    }

    /// The request for the broadcasting software that brings `switch_scene` on,
    /// if one is necessary. The clock says how old the last request is.
    pub fn switch_if_necessary(&self, switch_scene: &str, switch_type: SwitchType) -> (r: Result<
        Option<SceneRequest>,
        Error,
    >)
        ensures
            exists|pending_age: u128|
                self.state@.broadcasting_software.is_pending_age(pending_age) && request_view(r)
                    == #[trigger] self.state@.scene_request(
                        switch_scene@,
                        switch_type,
                        pending_age as int,
                    ),
    {
        let pending_age: u128 = self.state.broadcasting_software.pending_switch_age();
        let r = self.switch_if_necessary_at_age(switch_scene, switch_type, pending_age);
        assert(request_view(r) == self.state@.scene_request(
            switch_scene@,
            switch_type,
            pending_age as int,
        ));
        r
    }

    /// The request for the broadcasting software that brings `switch_scene` on,
    /// if one is necessary and the last request is `pending_age` nanoseconds
    /// old.
    pub fn switch_if_necessary_at_age(
        &self,
        switch_scene: &str,
        switch_type: SwitchType,
        pending_age: u128,
    ) -> (r: Result<Option<SceneRequest>, Error>)
        ensures
            request_view(r) == self.state@.scene_request(
                switch_scene@,
                switch_type,
                pending_age as int,
            ),
    {
        let state = &self.state;
        let current_scene = &state.broadcasting_software.current_scene;
        if *current_scene == String::from(switch_scene) {
            return Ok(None);
        }
        // A switch to this scene has already been requested and OBS
        // hasn't confirmed the change yet (e.g. while a long stinger
        // transition is still playing out). Avoid sending a duplicate
        // request and a duplicate chat announcement.
        if state.broadcasting_software.is_switch_pending_at_age(switch_scene, pending_age) {
            return Ok(None);
        }
        let skip = match &state.config.optional_scenes.starting {
            Some(starting_scene) => *current_scene == *starting_scene
                && state.config.optional_options.switch_from_starting_scene_to_live_scene
                && switch_type == SwitchType::Offline,
            None => false,
        };
        if skip || !state.switcher_state.switchable_scenes.contains(current_scene.as_str()) {
            return Ok(None);
        }
        if !state.broadcasting_software.software_set {
            return Err(Error::NoSoftwareSet);
        }
        let announcement = match &state.config.chat {
            Some(chat) => if state.broadcasting_software.is_streaming
                && state.config.switcher.auto_switch_notification {
                Some(
                    Announcement {
                        platform: chat.platform.clone(),
                        channel: chat.username.clone(),
                        scene: String::from(switch_scene),
                        switch_type,
                    },
                )
            } else {
                None
            },
            None => None,
        };
        Ok(Some(SceneRequest { scene: String::from(switch_scene), announcement }))
    }

    /// Takes note of what the broadcasting software made of a request. One
    /// that it accepted is pending from now on, and the announcement is due.
    /// One that failed is as if it had never been sent.
    pub fn request_answered(&mut self, request: SceneRequest, accepted: bool) -> (r: Option<
        Announcement,
    >)
        ensures
            accepted ==> opt_view(r) == request@.announcement,
            accepted ==> exists|requested_at: Instant|
                is_reading(requested_at) && final(self).state@
                    == #[trigger] old(self).state@.request_accepted(request@, requested_at),
            !accepted ==> r is None && *final(self) == *old(self),
    {
        if !accepted {
            return None;
        }
        let ghost view = request@;
        let ghost before = self.state@;
        let SceneRequest { scene, announcement } = request;
        self.state.broadcasting_software.set_pending_switch(scene);
        proof {
            let at = choose|at: Instant|
                is_reading(at) && self.state@.broadcasting_software
                    == #[trigger] before.broadcasting_software.with_pending_switch(view.scene, at);
            assert(self.state@ == before.request_accepted(view, at));
        }
        announcement
    }
}

/// The view of a decision to send a request or not.
pub open spec fn request_view(r: Result<Option<SceneRequest>, Error>) -> Result<
    Option<SceneRequestView>,
    Error,
> {
    match r {
        Ok(request) => Ok(opt_view(request)),
        Err(error) => Err(error),
    }
}

} // verus!
