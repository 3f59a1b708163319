use noalbs::config::{
    Chat, Config, DependsOn, OptionalOptions, OptionalScenes, StreamServer, SwitcherConfig,
};
use noalbs::state::{
    BroadcastingSoftwareState, ClientStatus, PendingSwitch, State, StreamStatus, SwitcherState,
};
use noalbs::switcher::{SwitchingScenes, Triggers};
use std::sync::Arc;
use std::time::{Duration, Instant};

const TIMEOUT: Duration = Duration::from_secs(BroadcastingSoftwareState::PENDING_SWITCH_TIMEOUT);

#[test]
fn no_pending_switch_by_default() {
    let bs = BroadcastingSoftwareState::default();
    assert!(!bs.is_switch_pending("live"));
}

#[test]
fn switch_is_pending_right_after_being_set() {
    let mut bs = BroadcastingSoftwareState::default();
    bs.set_pending_switch("live".to_string());

    assert!(bs.is_switch_pending("live"));
}

#[test]
fn a_different_scene_is_not_considered_pending() {
    let mut bs = BroadcastingSoftwareState::default();
    bs.set_pending_switch("live".to_string());

    assert!(!bs.is_switch_pending("low"));
}

#[test]
fn pending_switch_expires_after_the_timeout() {
    let mut bs = BroadcastingSoftwareState::default();
    bs.pending_switch = Some(PendingSwitch {
        scene: "live".to_string(),
        requested_at: Instant::now() - (TIMEOUT + Duration::from_secs(1)),
    });

    assert!(!bs.is_switch_pending("live"));
}

#[test]
fn pending_switch_is_still_pending_just_before_the_timeout() {
    let mut bs = BroadcastingSoftwareState::default();
    bs.pending_switch = Some(PendingSwitch {
        scene: "live".to_string(),
        requested_at: Instant::now() - (TIMEOUT - Duration::from_secs(1)),
    });

    assert!(bs.is_switch_pending("live"));
}

#[test]
fn clear_pending_switch_removes_it() {
    let mut bs = BroadcastingSoftwareState::default();
    bs.set_pending_switch("live".to_string());
    bs.clear_pending_switch();

    assert!(!bs.is_switch_pending("live"));
}

#[test]
fn mark_disconnected_clears_pending_switch_and_state() {
    let mut bs = BroadcastingSoftwareState::default();
    bs.status = ClientStatus::Connected;
    bs.is_streaming = true;
    bs.set_pending_switch("live".to_string());

    bs.mark_disconnected();

    assert_eq!(bs.status, ClientStatus::Disconnected);
    assert!(!bs.is_streaming);
    assert!(!bs.is_switch_pending("live"));
}

#[test]
fn the_timeout_is_thirty_seconds_to_the_nanosecond() {
    let mut bs = BroadcastingSoftwareState::default();
    bs.set_pending_switch("live".to_string());

    assert!(bs.is_switch_pending_at_age("live", 29_999_999_999));
    assert!(!bs.is_switch_pending_at_age("live", 30_000_000_000));
    assert!(!bs.is_switch_pending_at_age("Live", 0));
}

#[test]
fn a_pending_switch_can_be_cloned() {
    let pending = PendingSwitch {
        scene: "live".to_string(),
        requested_at: Instant::now(),
    };
    let copy = pending.clone();
    assert_eq!(copy.scene, "live");
    assert_eq!(copy.requested_at, pending.requested_at);
}

#[test]
fn default_software_state_is_disconnected_and_empty() {
    let before = Instant::now();
    let bs = BroadcastingSoftwareState::default();
    assert_eq!(bs.prev_scene, "");
    assert_eq!(bs.current_scene, "");
    assert_eq!(bs.status, ClientStatus::Disconnected);
    assert!(!bs.is_streaming);
    assert!(!bs.software_set);
    assert!(bs.pending_switch.is_none());
    assert!(bs.stream_status.is_none());
    assert!(bs.initial_stream_status.is_none());
    assert!(bs.last_stream_started_at >= before);
}

#[test]
fn notifiers_are_shared_and_distinct() {
    let bs = BroadcastingSoftwareState::default();
    assert!(Arc::ptr_eq(&bs.connected_notifier(), &bs.connected_notifier()));
    assert!(!Arc::ptr_eq(
        &bs.connected_notifier(),
        &bs.start_streaming_notifier()
    ));
    assert!(!Arc::ptr_eq(
        &bs.connected_notifier(),
        &bs.switch_scene_notifier()
    ));
    assert!(!Arc::ptr_eq(
        &bs.start_streaming_notifier(),
        &bs.switch_scene_notifier()
    ));

    let switcher_state = SwitcherState::default();
    assert!(Arc::ptr_eq(
        &switcher_state.switcher_enabled_notifier(),
        &switcher_state.switcher_enabled_notifier
    ));
    assert!(switcher_state.last_used_server.is_none());
    assert!(switcher_state.switchable_scenes.is_empty());
}

#[test]
fn debug_string_quotes_the_scenes() {
    let mut bs = BroadcastingSoftwareState::default();
    bs.prev_scene = "li\"ve".to_string();
    bs.current_scene = "low".to_string();
    bs.status = ClientStatus::Connected;
    bs.software_set = true;

    assert_eq!(
        bs.debug_string(),
        "BroadcastingSoftwareState { prev_scene: \"li\\\"ve\", curent_scene: \"low\", \
         status: Connected, is_streaming: false, Does have a software set: true }"
    );
    assert_eq!(
        BroadcastingSoftwareState::default().debug_string_with("A", "B"),
        "BroadcastingSoftwareState { prev_scene: A, curent_scene: B, \
         status: Disconnected, is_streaming: false, Does have a software set: false }"
    );
}

fn server(name: &str) -> StreamServer {
    StreamServer {
        name: name.to_string(),
        enabled: true,
        instant_degrade: false,
        delay_normal_recovery: false,
        override_scenes: None,
        depends_on: None,
    }
}

fn state() -> State {
    State {
        config: Config {
            switcher: SwitcherConfig {
                bitrate_switcher_enabled: true,
                only_switch_when_streaming: true,
                instantly_switch_on_recover: true,
                auto_switch_notification: true,
                retry_attempts: 5,
                triggers: Triggers::default(),
                switching_scenes: SwitchingScenes::new("n", "l", "o"),
                stream_servers: vec![
                    StreamServer {
                        override_scenes: Some(SwitchingScenes::new("n1", "l1", "o1")),
                        ..server("one")
                    },
                    StreamServer {
                        enabled: false,
                        depends_on: Some(DependsOn {
                            name: "one".to_string(),
                            backup_scenes: SwitchingScenes::new("n2", "l2", "o2"),
                        }),
                        ..server("two")
                    },
                ],
            },
            chat: Some(Chat {
                platform: "Twitch".to_string(),
                username: "715209".to_string(),
            }),
            optional_scenes: OptionalScenes {
                starting: Some("starting".to_string()),
            },
            optional_options: OptionalOptions {
                offline_timeout: None,
                record_while_streaming: false,
                switch_from_starting_scene_to_live_scene: false,
            },
        },
        switcher_state: SwitcherState::default(),
        broadcasting_software: BroadcastingSoftwareState::default(),
    }
}

#[test]
fn all_configured_scenes_become_switchable() {
    let mut state = state();
    state
        .switcher_state
        .switchable_scenes
        .insert("kept".to_string());
    state.set_all_switchable_scenes();

    let scenes = &state.switcher_state.switchable_scenes;
    for scene in ["kept", "n", "l", "o", "n1", "l1", "o1", "n2", "l2", "o2"] {
        assert!(scenes.contains(scene), "{} is missing", scene);
    }
    assert!(!scenes.contains("starting"));
    assert_eq!(scenes.len(), 10);

    state.set_all_switchable_scenes();
    assert_eq!(state.switcher_state.switchable_scenes.len(), 10);
}

#[test]
fn the_starting_scene_is_switchable_if_it_is_to_be_left() {
    let mut state = state();
    state
        .config
        .optional_options
        .switch_from_starting_scene_to_live_scene = true;
    state.set_all_switchable_scenes();
    assert!(state.switcher_state.switchable_scenes.contains("starting"));
    assert_eq!(state.switcher_state.switchable_scenes.len(), 10);
}

fn status(bitrate: u64, fps: f64, frames: [u64; 6]) -> StreamStatus {
    StreamStatus {
        bitrate,
        fps_bits: fps.to_bits(),
        num_total_frames: frames[0],
        num_dropped_frames: frames[1],
        render_total_frames: frames[2],
        render_missed_frames: frames[3],
        output_total_frames: frames[4],
        output_skipped_frames: frames[5],
        cpu_usage_bits: (fps / 2.0).to_bits(),
        memory_usage_bits: (fps * 2.0).to_bits(),
        available_disk_space_bits: (fps * 3.0).to_bits(),
    }
}

#[test]
fn current_figures_count_from_the_start() {
    let start = status(1, 30.0, [10, 1, 20, 2, 30, 3]);
    let now = status(6000, 59.94, [110, 3, 220, 5, 330, 7]);
    let current = now.calculate_current(&start);
    assert_eq!(current, status(6000, 59.94, [100, 2, 200, 3, 300, 4]));
    assert_eq!(f64::from_bits(current.fps_bits), 59.94);
}

#[test]
fn frames_since_a_start_and_since_a_later_point_add_up() {
    let start = status(1, 30.0, [10, 1, 20, 2, 30, 3]);
    let middle = status(2, 30.0, [40, 2, 60, 3, 70, 4]);
    let now = status(3, 30.0, [110, 3, 220, 5, 330, 7]);
    assert_eq!(
        now.calculate_current(&start)
            .calculate_current(&middle.calculate_current(&start)),
        now.calculate_current(&middle)
    );
    let (all, late) = (now.calculate_current(&start), now.calculate_current(&middle));
    let early = middle.calculate_current(&start);
    assert_eq!(all, status(3, 30.0, [100, 2, 200, 3, 300, 4]));
    assert_eq!(late, status(3, 30.0, [70, 1, 160, 2, 260, 3]));
    assert_eq!(early, status(2, 30.0, [30, 1, 40, 1, 40, 1]));
    assert_eq!(
        now.calculate_current(&now),
        status(3, 30.0, [0, 0, 0, 0, 0, 0])
    );
}

#[test]
fn default_figures_are_zero() {
    assert_eq!(
        StreamStatus::default(),
        status(0, 0.0, [0, 0, 0, 0, 0, 0])
    );
}
