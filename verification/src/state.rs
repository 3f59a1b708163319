//! What the switcher knows of itself and of the broadcasting software.
use crate::clock::{
    age_in_nanos, clock_now, is_age_of, is_reading, nanos_from_secs, secs_in_nanos,
};
use crate::config::{Config, ConfigView, StreamServerView};
use crate::notify::{is_new_notifier, new_notifier};
pub use crate::status::StreamStatus;
use crate::views::opt_view;
use crate::scenes::SwitchingScenes;
use std::sync::Arc;
use std::time::Instant;
use tokio::sync::Notify;
use vstd::hash_set::StringHashSet;
use vstd::prelude::*;

verus! {

/// Whether the broadcasting software can be reached.
#[derive(Debug, Clone, Copy, PartialEq, Eq, Structural)]
pub enum ClientStatus {
    Connected,
    Disconnected,
}

/// A scene switch that the broadcasting software has accepted, and when.
#[derive(Debug)]
pub struct PendingSwitch {
    pub scene: String,
    pub requested_at: Instant,
}

pub struct PendingSwitchView {
    pub scene: Seq<char>,
    pub requested_at: Instant,
}

impl View for PendingSwitch {
    type V = PendingSwitchView;

    open spec fn view(&self) -> PendingSwitchView {
        PendingSwitchView { scene: self.scene@, requested_at: self.requested_at }
    }
}

impl Clone for PendingSwitch {
    fn clone(&self) -> (r: Self)
        ensures
            r == *self,
    {
        PendingSwitch { scene: self.scene.clone(), requested_at: self.requested_at }
    }
}

/// What the switcher remembers between switches.
pub struct SwitcherState {
    /// Name of the stream server that was shown last
    pub last_used_server: Option<String>,
    /// All switchable scenes
    pub switchable_scenes: StringHashSet,
    /// Notified when the switcher is enabled
    pub switcher_enabled_notifier: Arc<Notify>,
}

pub struct SwitcherStateView {
    pub last_used_server: Option<Seq<char>>,
    pub switchable_scenes: Set<Seq<char>>,
    pub switcher_enabled_notifier: Arc<Notify>,
}

impl View for SwitcherState {
    type V = SwitcherStateView;

    open spec fn view(&self) -> SwitcherStateView {
        SwitcherStateView {
            last_used_server: opt_view(self.last_used_server),
            switchable_scenes: self.switchable_scenes@,
            switcher_enabled_notifier: self.switcher_enabled_notifier,
        }
    }
}

impl SwitcherState {
    /// The notifier to wait on until the switcher is enabled.
    pub fn switcher_enabled_notifier(&self) -> (r: Arc<Notify>)
        ensures
            r == self@.switcher_enabled_notifier,
    {
        self.switcher_enabled_notifier.clone()
    }
}

impl Default for SwitcherState {
    /// No server used yet and no scene switchable.
    fn default() -> (r: Self)
        ensures
            r@.last_used_server is None,
            r@.switchable_scenes == Set::<Seq<char>>::empty(),
            is_new_notifier(r@.switcher_enabled_notifier),
    {
        SwitcherState {
            last_used_server: None,
            switchable_scenes: StringHashSet::new(),
            switcher_enabled_notifier: new_notifier(),
        }
    }
}

/// What is known of the broadcasting software.
pub struct BroadcastingSoftwareState {
    /// The normal or low scene that was switched to last
    pub prev_scene: String,
    /// The scene that is shown
    pub current_scene: String,
    pub status: ClientStatus,
    pub is_streaming: bool,
    pub last_stream_started_at: Instant,
    pub initial_stream_status: Option<StreamStatus>,
    pub stream_status: Option<StreamStatus>,
    /// A scene switch request that was accepted by the broadcasting
    /// software but not yet confirmed as the current scene. Used to avoid
    /// sending duplicate switch requests / announcements while a long
    /// transition (e.g. a stinger) is still playing out.
    pub pending_switch: Option<PendingSwitch>,
    /// Whether there is a connection to send requests over. The connection
    /// itself is kept by the program around this library.
    pub software_set: bool,
    /// Notified when the broadcasting software is connected
    pub connected_notifier: Arc<Notify>,
    /// Notified when a stream starts
    pub start_streaming_notifier: Arc<Notify>,
    /// Notified when another scene is shown
    pub switch_scene_notifier: Arc<Notify>,
}

pub struct BroadcastingSoftwareStateView {
    pub prev_scene: Seq<char>,
    pub current_scene: Seq<char>,
    pub status: ClientStatus,
    pub is_streaming: bool,
    pub last_stream_started_at: Instant,
    pub initial_stream_status: Option<StreamStatus>,
    pub stream_status: Option<StreamStatus>,
    pub pending_switch: Option<PendingSwitchView>,
    pub software_set: bool,
    pub connected_notifier: Arc<Notify>,
    pub start_streaming_notifier: Arc<Notify>,
    pub switch_scene_notifier: Arc<Notify>,
}

impl View for BroadcastingSoftwareState {
    type V = BroadcastingSoftwareStateView;

    open spec fn view(&self) -> BroadcastingSoftwareStateView {
        BroadcastingSoftwareStateView {
            prev_scene: self.prev_scene@,
            current_scene: self.current_scene@,
            status: self.status,
            is_streaming: self.is_streaming,
            last_stream_started_at: self.last_stream_started_at,
            initial_stream_status: self.initial_stream_status,
            stream_status: self.stream_status,
            pending_switch: opt_view(self.pending_switch),
            software_set: self.software_set,
            connected_notifier: self.connected_notifier,
            start_streaming_notifier: self.start_streaming_notifier,
            switch_scene_notifier: self.switch_scene_notifier,
        }
    }
}

impl BroadcastingSoftwareStateView {
    /// Whether a switch to `scene` is pending, if the last request is `age`
    /// nanoseconds old.
    pub open spec fn switch_pending(self, scene: Seq<char>, age: int) -> bool {
        &&& self.pending_switch matches Some(pending)
        &&& pending.scene == scene
        &&& age < secs_in_nanos(BroadcastingSoftwareState::PENDING_SWITCH_TIMEOUT as int)
    }

    /// Whether the clock may put the age of the last request at `age`
    /// nanoseconds. Without a pending switch it counts as zero.
    pub open spec fn is_pending_age(self, age: u128) -> bool {
        match self.pending_switch {
            Some(pending) => is_age_of(age, pending.requested_at),
            None => age == 0,
        }
    }

    /// The state once a switch to `scene` was accepted at `requested_at`.
    pub open spec fn with_pending_switch(self, scene: Seq<char>, requested_at: Instant) -> Self {
        BroadcastingSoftwareStateView {
            pending_switch: Some(PendingSwitchView { scene, requested_at }),
            ..self
        }
    }

    /// The state without a pending switch.
    pub open spec fn without_pending_switch(self) -> Self {
        BroadcastingSoftwareStateView { pending_switch: None, ..self }
    }

    /// The state once the broadcasting software is gone.
    pub open spec fn disconnected(self) -> Self {
        BroadcastingSoftwareStateView {
            status: ClientStatus::Disconnected,
            is_streaming: false,
            pending_switch: None,
            ..self
        }
    }
}

impl BroadcastingSoftwareState {
    /// How many seconds a requested scene switch is considered "pending"
    /// before it's treated as stale and eligible to be retried. This is the
    /// safety net for missed/late confirmation events (e.g. a dropped
    /// connection), and should comfortably exceed any expected transition
    /// duration.
    pub const PENDING_SWITCH_TIMEOUT: u64 = 30;

    /// The notifier to wait on until the broadcasting software is connected.
    pub fn connected_notifier(&self) -> (r: Arc<Notify>)
        ensures
            r == self@.connected_notifier,
    {
        self.connected_notifier.clone()
    }

    /// The notifier to wait on until a stream starts.
    pub fn start_streaming_notifier(&self) -> (r: Arc<Notify>)
        ensures
            r == self@.start_streaming_notifier,
    {
        self.start_streaming_notifier.clone()
    }

    /// The notifier to wait on until another scene is shown.
    pub fn switch_scene_notifier(&self) -> (r: Arc<Notify>)
        ensures
            r == self@.switch_scene_notifier,
    {
        self.switch_scene_notifier.clone()
    }

    /// Whether a switch to `scene` was already requested and is still
    /// within the timeout window, i.e. it doesn't need to be requested
    /// again. How old the request is, the clock says.
    pub fn is_switch_pending(&self, scene: &str) -> (r: bool)
        ensures
            exists|age: u128|
                self@.is_pending_age(age) && r == #[trigger] self@.switch_pending(
                    scene@,
                    age as int,
                ),
    {
        let age: u128 = self.pending_switch_age();
        let r = self.is_switch_pending_at_age(scene, age);
        assert(r == self@.switch_pending(scene@, age as int));
        r
    }

    /// How many nanoseconds ago the pending switch was requested, by the
    /// clock; zero if none is pending.
    pub(crate) fn pending_switch_age(&self) -> (r: u128)
        ensures
            self@.is_pending_age(r),
    {
        match &self.pending_switch {
            Some(pending) => age_in_nanos(&pending.requested_at),
            None => 0,
        }
    }

    /// Whether a switch to `scene` is pending, if the last request is `age`
    /// nanoseconds old.
    pub fn is_switch_pending_at_age(&self, scene: &str, age: u128) -> (r: bool)
        ensures
            r == self@.switch_pending(scene@, age as int),
    {
        match &self.pending_switch {
            Some(pending) => pending.scene == String::from(scene) && age < nanos_from_secs(
                Self::PENDING_SWITCH_TIMEOUT,
            ),
            None => false,
        }
    }

    /// Notes that a switch to `scene` has just been accepted.
    pub fn set_pending_switch(&mut self, scene: String)
        ensures
            exists|requested_at: Instant|
                is_reading(requested_at) && final(self)@
                    == #[trigger] old(self)@.with_pending_switch(scene@, requested_at),
    {
        let requested_at = clock_now();
        self.pending_switch = Some(PendingSwitch { scene, requested_at });
        assert(self@ == old(self)@.with_pending_switch(scene@, requested_at));
    }

    /// Forgets the pending switch.
    pub fn clear_pending_switch(&mut self)
        ensures
            final(self)@ == old(self)@.without_pending_switch(),
    {
        self.pending_switch = None;
    }

    /// Resets connection-dependent state after OBS disconnects. Any
    /// in-flight switch can no longer be confirmed by an event, so it
    /// must not be left pending until the timeout.
    pub fn mark_disconnected(&mut self)
        ensures
            final(self)@ == old(self)@.disconnected(),
    {
        self.status = ClientStatus::Disconnected;
        self.is_streaming = false;
        self.clear_pending_switch();
    }
}

impl Default for BroadcastingSoftwareState {
    /// Not connected, not streaming, nothing pending. The last stream counts
    /// as started now.
    fn default() -> (r: Self)
        ensures
            r@.prev_scene == Seq::<char>::empty(),
            r@.current_scene == Seq::<char>::empty(),
            r@.status == ClientStatus::Disconnected,
            !r@.is_streaming,
            is_reading(r@.last_stream_started_at),
            r@.initial_stream_status is None,
            r@.stream_status is None,
            r@.pending_switch is None,
            !r@.software_set,
            is_new_notifier(r@.connected_notifier),
            is_new_notifier(r@.start_streaming_notifier),
            is_new_notifier(r@.switch_scene_notifier),
    {
        BroadcastingSoftwareState {
            prev_scene: String::new(),
            current_scene: String::new(),
            status: ClientStatus::Disconnected,
            is_streaming: false,
            last_stream_started_at: clock_now(),
            initial_stream_status: None,
            stream_status: None,
            pending_switch: None,
            software_set: false,
            connected_notifier: new_notifier(),
            start_streaming_notifier: new_notifier(),
            switch_scene_notifier: new_notifier(),
        }
    }
}

/// All that the switcher goes by.
pub struct State {
    pub config: Config,
    pub switcher_state: SwitcherState,
    pub broadcasting_software: BroadcastingSoftwareState,
}

pub struct StateView {
    pub config: ConfigView,
    pub switcher_state: SwitcherStateView,
    pub broadcasting_software: BroadcastingSoftwareStateView,
}

impl View for State {
    type V = StateView;

    open spec fn view(&self) -> StateView {
        StateView {
            config: self.config@,
            switcher_state: self.switcher_state@,
            broadcasting_software: self.broadcasting_software@,
        }
    }
}

/// Whether `scene` is one that only this stream server uses: one of its own
/// scenes, or a backup scene.
pub open spec fn server_has_scene(server: StreamServerView, scene: Seq<char>) -> bool {
    ||| server.override_scenes matches Some(scenes) && scenes.has(scene)
    ||| server.depends_on matches Some(depends) && depends.backup_scenes.has(scene)
}

impl ConfigView {
    /// Whether the settings name `scene` as one to switch to, or as the
    /// starting scene that is to be left.
    pub open spec fn has_scene(self, scene: Seq<char>) -> bool {
        ||| self.switcher.switching_scenes.has(scene)
        ||| exists|i: int|
            0 <= i < self.switcher.stream_servers.len() && #[trigger] server_has_scene(
                self.switcher.stream_servers[i],
                scene,
            )
        ||| self.optional_options.switch_from_starting_scene_to_live_scene
            && self.optional_scenes.starting == Some(scene)
    }
}

impl StateView {
    /// The state with every scene of the settings switchable, besides those
    /// that already were.
    pub open spec fn with_all_switchable_scenes(self) -> Self {
        StateView {
            switcher_state: SwitcherStateView {
                switchable_scenes: self.switcher_state.switchable_scenes.union(
                    Set::new(|scene: Seq<char>| self.config.has_scene(scene)),
                ),
                ..self.switcher_state
            },
            ..self
        }
    }
}

/// Puts the three scenes into the set.
fn insert_scenes(set: &mut StringHashSet, scenes: &SwitchingScenes)
    ensures
        forall|s: Seq<char>| #[trigger]
            final(set)@.contains(s) <==> old(set)@.contains(s) || scenes@.has(s),
{
    set.insert(scenes.low.clone());
    set.insert(scenes.normal.clone());
    set.insert(scenes.offline.clone());
}

impl State {
    /// Makes every scene of the settings switchable. To be done once after
    /// loading the settings, and after adding stream servers.
    pub fn set_all_switchable_scenes(&mut self)
        ensures
            final(self)@ == old(self)@.with_all_switchable_scenes(),
    {
        let ghost servers = self@.config.switcher.stream_servers;
        let ghost all_before = self@.switcher_state.switchable_scenes;
        insert_scenes(
            &mut self.switcher_state.switchable_scenes,
            &self.config.switcher.switching_scenes,
        );
        let mut i: usize = 0;
        while i < self.config.switcher.stream_servers.len()
            invariant
                i <= self.config.switcher.stream_servers.len(),
                servers == self@.config.switcher.stream_servers,
                self@ == (StateView {
                    switcher_state: SwitcherStateView {
                        switchable_scenes: self@.switcher_state.switchable_scenes,
                        ..old(self)@.switcher_state
                    },
                    ..old(self)@
                }),
                forall|s: Seq<char>| #[trigger]
                    self@.switcher_state.switchable_scenes.contains(s) <==> {
                        ||| all_before.contains(s)
                        ||| self@.config.switcher.switching_scenes.has(s)
                        ||| exists|j: int|
                            0 <= j < i && #[trigger] server_has_scene(servers[j], s)
                    },
            decreases self.config.switcher.stream_servers.len() - i,
        {
            let ghost before = self@.switcher_state.switchable_scenes;
            let server = &self.config.switcher.stream_servers[i];
            if let Some(scenes) = &server.override_scenes {
                insert_scenes(&mut self.switcher_state.switchable_scenes, scenes);
            }
            if let Some(depends_on) = &server.depends_on {
                insert_scenes(
                    &mut self.switcher_state.switchable_scenes,
                    &depends_on.backup_scenes,
                );
            }
            assert(servers[i as int] == server@);
            assert(forall|s: Seq<char>| #[trigger]
                self@.switcher_state.switchable_scenes.contains(s) <==> before.contains(s)
                    || server_has_scene(servers[i as int], s));
            i += 1;
        }
        if let Some(starting_scene) = &self.config.optional_scenes.starting {
            if self.config.optional_options.switch_from_starting_scene_to_live_scene {
                self.switcher_state.switchable_scenes.insert(starting_scene.clone());
            }
        }
        assert(self@.switcher_state.switchable_scenes
            =~= old(self)@.with_all_switchable_scenes().switcher_state.switchable_scenes);
    }
}

} // verus!
