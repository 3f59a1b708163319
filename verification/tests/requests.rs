use noalbs::config::{Chat, Config, OptionalOptions, OptionalScenes, SwitcherConfig};
use noalbs::error::Error;
use noalbs::state::{
    BroadcastingSoftwareState, ClientStatus, PendingSwitch, State, SwitcherState,
};
use noalbs::switcher::{Announcement, SwitchType, Switcher, SwitchingScenes, Triggers};
use std::sync::Arc;
use std::time::{Duration, Instant};

/// A fake broadcasting software that records every scene it was asked to
/// switch to.
struct FakeObs {
    calls: Vec<String>,
    fail_next: bool,
}

impl FakeObs {
    fn new() -> Self {
        Self {
            calls: Vec::new(),
            fail_next: false,
        }
    }

    /// Makes the next `switch_scene` call fail, simulating a genuine
    /// OBS-side failure (as opposed to a duplicate we should suppress).
    fn fail_next_call(&mut self) {
        self.fail_next = true;
    }

    fn switch_scene(&mut self, scene: &str) -> Result<String, Error> {
        if std::mem::replace(&mut self.fail_next, false) {
            return Err(Error::NoSourceFound);
        }
        self.calls.push(scene.to_string());
        Ok(scene.to_string())
    }
}

/// A switcher, the software that it talks to and the chat.
struct Rig {
    switcher: Switcher,
    fake: FakeObs,
    chat: Vec<Announcement>,
}

impl Rig {
    fn switch_if_necessary(&mut self, scene: &str, switch_type: SwitchType) -> Result<(), Error> {
        if let Some(request) = self.switcher.switch_if_necessary(scene, switch_type)? {
            let accepted = self.fake.switch_scene(&request.scene).is_ok();
            if let Some(announcement) = self.switcher.request_answered(request, accepted) {
                self.chat.push(announcement);
            }
        }
        Ok(())
    }
}

/// Builds a `Switcher` with `current_scene` already set.
fn build_switcher(fake: FakeObs, current_scene: &str) -> Rig {
    let config = Config {
        switcher: SwitcherConfig {
            bitrate_switcher_enabled: true,
            only_switch_when_streaming: true,
            instantly_switch_on_recover: true,
            auto_switch_notification: true,
            retry_attempts: 5,
            triggers: Triggers::default(),
            switching_scenes: SwitchingScenes::new("a", "b", "c"),
            stream_servers: Vec::new(),
        },
        chat: Some(Chat {
            platform: "Twitch".to_string(),
            username: "test".to_string(),
        }),
        optional_scenes: OptionalScenes { starting: None },
        optional_options: OptionalOptions {
            offline_timeout: None,
            record_while_streaming: false,
            switch_from_starting_scene_to_live_scene: false,
        },
    };

    let mut broadcasting_software = BroadcastingSoftwareState::default();
    broadcasting_software.current_scene = current_scene.to_string();
    broadcasting_software.is_streaming = true;
    broadcasting_software.status = ClientStatus::Connected;
    broadcasting_software.software_set = true;

    let mut state = State {
        config,
        switcher_state: SwitcherState::default(),
        broadcasting_software,
    };
    state.set_all_switchable_scenes();

    Rig {
        switcher: Switcher { state },
        fake,
        chat: Vec::new(),
    }
}

#[test]
fn immediate_switch_sends_request_and_announces_once() {
    let mut rig = build_switcher(FakeObs::new(), "a");

    rig.switch_if_necessary("b", SwitchType::Normal).unwrap();

    assert_eq!(rig.fake.calls, vec!["b".to_string()]);
    assert_eq!(rig.chat.len(), 1, "expected one announcement");
    assert_eq!(rig.chat[0].platform, "Twitch");
    assert_eq!(rig.chat[0].channel, "test");
    assert_eq!(rig.chat[0].scene, "b");
    assert_eq!(rig.chat[0].switch_type, SwitchType::Normal);
}

#[test]
fn already_on_target_scene_is_a_no_op() {
    let mut rig = build_switcher(FakeObs::new(), "b");

    rig.switch_if_necessary("b", SwitchType::Normal).unwrap();

    assert!(rig.fake.calls.is_empty());
    assert!(rig.chat.is_empty());
}

/// A long OBS transition (e.g. a stinger): OBS accepts the request, but
/// `current_scene` doesn't update until the transition actually finishes.
/// Repeated polling cycles during that window must not send duplicate
/// requests or duplicate announcements.
#[test]
fn duplicate_switch_suppressed_while_transition_pending() {
    let mut rig = build_switcher(FakeObs::new(), "a");

    // The switch A -> B is decided on and accepted.
    rig.switch_if_necessary("b", SwitchType::Normal).unwrap();
    assert_eq!(rig.fake.calls, vec!["b".to_string()]);
    assert!(rig.chat.pop().is_some(), "expected one announcement");

    // OBS does not immediately report scene B as current (the transition is
    // still playing out), and several polling cycles occur while it's still
    // active.
    for _ in 0..3 {
        rig.switch_if_necessary("b", SwitchType::Normal).unwrap();
    }

    // Must not have sent another identical request or repeated the
    // announcement.
    assert_eq!(rig.fake.calls, vec!["b".to_string()]);
    assert!(
        rig.chat.pop().is_none(),
        "must not repeat the announcement while the switch is pending"
    );

    // The transition ends.
    {
        let state = &mut rig.switcher.state;
        state.broadcasting_software.current_scene = "b".to_string();
        state.broadcasting_software.clear_pending_switch();
    }

    // Back to normal operation -- already on the target scene, so this is a
    // no-op.
    rig.switch_if_necessary("b", SwitchType::Normal).unwrap();
    assert_eq!(rig.fake.calls, vec!["b".to_string()]);

    // A later legitimate switch to a new scene must still work.
    rig.switch_if_necessary("c", SwitchType::Low).unwrap();
    assert_eq!(rig.fake.calls, vec!["b".to_string(), "c".to_string()]);
    assert!(rig.chat.pop().is_some(), "the new switch should announce");
}

#[test]
fn different_target_scene_is_not_blocked_by_a_pending_switch() {
    let mut rig = build_switcher(FakeObs::new(), "a");

    rig.switch_if_necessary("b", SwitchType::Normal).unwrap();

    // A different target is requested while the switch to "b" is still
    // pending (current_scene is still "a" in this fixture).
    rig.switch_if_necessary("c", SwitchType::Low).unwrap();

    assert_eq!(rig.fake.calls, vec!["b".to_string(), "c".to_string()]);
}

#[test]
fn pending_switch_times_out_and_allows_retry() {
    let mut rig = build_switcher(FakeObs::new(), "a");

    rig.switch_if_necessary("b", SwitchType::Normal).unwrap();
    assert_eq!(rig.fake.calls, vec!["b".to_string()]);

    // Simulate the confirmation event never arriving (e.g. a dropped
    // connection) for long enough that the pending switch goes stale.
    {
        let state = &mut rig.switcher.state;
        state.broadcasting_software.pending_switch = Some(PendingSwitch {
            scene: "b".to_string(),
            requested_at: Instant::now()
                - (Duration::from_secs(BroadcastingSoftwareState::PENDING_SWITCH_TIMEOUT)
                    + Duration::from_secs(1)),
        });
    }

    rig.switch_if_necessary("b", SwitchType::Normal).unwrap();
    assert_eq!(rig.fake.calls, vec!["b".to_string(), "b".to_string()]);
}

/// A genuine failure (as opposed to a duplicate while pending) must not be
/// treated as accepted, so retry behavior for real failures is unaffected.
#[test]
fn failed_switch_does_not_set_pending_and_can_retry() {
    let mut fake = FakeObs::new();
    fake.fail_next_call();
    let mut rig = build_switcher(fake, "a");

    rig.switch_if_necessary("b", SwitchType::Normal).unwrap();
    assert!(
        rig.fake.calls.is_empty(),
        "a failed call must not be recorded as accepted"
    );
    assert!(rig.chat.is_empty());
    assert!(rig
        .switcher
        .state
        .broadcasting_software
        .pending_switch
        .is_none());

    // Retry immediately -- must not be blocked by a bogus pending state left
    // over from the failed attempt.
    rig.switch_if_necessary("b", SwitchType::Normal).unwrap();
    assert_eq!(rig.fake.calls, vec!["b".to_string()]);
    assert_eq!(rig.chat.len(), 1);
}

#[test]
fn the_pending_window_ends_at_the_timeout() {
    let mut rig = build_switcher(FakeObs::new(), "a");
    rig.switch_if_necessary("b", SwitchType::Normal).unwrap();

    let at_age = |age: u128| {
        rig.switcher
            .switch_if_necessary_at_age("b", SwitchType::Normal, age)
            .unwrap()
            .is_some()
    };
    assert!(!at_age(0));
    assert!(!at_age(29_999_999_999));
    assert!(at_age(30_000_000_000));
}

#[test]
fn a_scene_that_is_not_switchable_is_not_left() {
    let mut rig = build_switcher(FakeObs::new(), "private");
    rig.switcher.state.broadcasting_software.software_set = false;
    rig.switch_if_necessary("b", SwitchType::Normal).unwrap();
    assert!(rig.fake.calls.is_empty());
}

#[test]
fn without_a_software_there_is_an_error() {
    let mut rig = build_switcher(FakeObs::new(), "a");
    rig.switcher.state.broadcasting_software.software_set = false;
    assert_eq!(
        rig.switch_if_necessary("b", SwitchType::Normal),
        Err(Error::NoSoftwareSet)
    );
    // Nothing is asked of the software if the scene is shown already.
    assert_eq!(rig.switch_if_necessary("a", SwitchType::Normal), Ok(()));
}

#[test]
fn the_starting_scene_stays_until_there_is_a_stream() {
    let mut rig = build_switcher(FakeObs::new(), "starting");
    let config = &mut rig.switcher.state.config;
    config.optional_scenes.starting = Some("starting".to_string());
    config
        .optional_options
        .switch_from_starting_scene_to_live_scene = true;
    rig.switcher.state.set_all_switchable_scenes();

    rig.switch_if_necessary("c", SwitchType::Offline).unwrap();
    assert!(rig.fake.calls.is_empty());
    rig.switch_if_necessary("a", SwitchType::Normal).unwrap();
    assert_eq!(rig.fake.calls, vec!["a".to_string()]);
}

#[test]
fn announcements_need_a_stream_a_chat_and_the_setting() {
    let mut rig = build_switcher(FakeObs::new(), "a");
    rig.switcher.state.broadcasting_software.is_streaming = false;
    rig.switch_if_necessary("b", SwitchType::Normal).unwrap();

    let mut rig2 = build_switcher(FakeObs::new(), "a");
    rig2.switcher.state.config.switcher.auto_switch_notification = false;
    rig2.switch_if_necessary("b", SwitchType::Normal).unwrap();

    let mut rig3 = build_switcher(FakeObs::new(), "a");
    rig3.switcher.state.config.chat = None;
    rig3.switch_if_necessary("b", SwitchType::Normal).unwrap();

    for rig in [rig, rig2, rig3] {
        assert_eq!(rig.fake.calls, vec!["b".to_string()]);
        assert!(rig.chat.is_empty());
    }
}

#[test]
fn the_switcher_sleeps_until_each_condition_is_met() {
    let mut rig = build_switcher(FakeObs::new(), "private");
    {
        let state = &mut rig.switcher.state;
        state.config.switcher.bitrate_switcher_enabled = false;
        state.broadcasting_software.status = ClientStatus::Disconnected;
        state.broadcasting_software.is_streaming = false;
    }
    let sleeps_on = |rig: &Rig| rig.switcher.get_sleep_notifier_if_necessary().unwrap();

    assert!(Arc::ptr_eq(
        &sleeps_on(&rig),
        &rig.switcher.state.switcher_state.switcher_enabled_notifier()
    ));
    rig.switcher.state.config.switcher.bitrate_switcher_enabled = true;

    assert!(Arc::ptr_eq(
        &sleeps_on(&rig),
        &rig.switcher.state.broadcasting_software.connected_notifier()
    ));
    rig.switcher.state.broadcasting_software.status = ClientStatus::Connected;

    assert!(Arc::ptr_eq(
        &sleeps_on(&rig),
        &rig.switcher
            .state
            .broadcasting_software
            .start_streaming_notifier()
    ));
    rig.switcher.state.config.switcher.only_switch_when_streaming = false;

    assert!(Arc::ptr_eq(
        &sleeps_on(&rig),
        &rig.switcher
            .state
            .broadcasting_software
            .switch_scene_notifier()
    ));
    rig.switcher.state.broadcasting_software.current_scene = "a".to_string();

    assert!(rig.switcher.get_sleep_notifier_if_necessary().is_none());
}

#[test]
fn without_a_connection_the_switcher_waits_for_one() {
    let mut rig = build_switcher(FakeObs::new(), "a");
    assert!(rig.switcher.get_sleep_notifier_if_necessary().is_none());

    rig.switcher.state.broadcasting_software.mark_disconnected();
    assert!(Arc::ptr_eq(
        &rig.switcher.get_sleep_notifier_if_necessary().unwrap(),
        &rig.switcher.state.broadcasting_software.connected_notifier()
    ));
}
