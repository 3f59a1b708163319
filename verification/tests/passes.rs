use noalbs::config::{
    Chat, Config, DependsOn, OptionalOptions, OptionalScenes, StreamServer, SwitcherConfig,
};
use noalbs::error::Error;
use noalbs::state::{BroadcastingSoftwareState, ClientStatus, State, SwitcherState};
use noalbs::switcher::{
    get_optional_scenes, ClockReadings, RunEvent, RunStep, SceneChange, SwitchReply, SwitchStep,
    SwitchTracker, SwitchType, Switcher, SwitchingScenes, TriggerType, Triggers,
};
use std::time::Duration;
use tokio::time::Instant;
use SwitchType::{Low, Normal, Offline, Previous};

const SEC: u128 = 1_000_000_000;

fn server(name: &str) -> StreamServer {
    StreamServer {
        name: name.to_string(),
        enabled: true,
        instant_degrade: false,
        delay_normal_recovery: false,
        override_scenes: None,
        depends_on: None,
    }
}

fn switcher(stream_servers: Vec<StreamServer>) -> Switcher {
    let mut broadcasting_software = BroadcastingSoftwareState::default();
    broadcasting_software.prev_scene = "before".to_string();
    broadcasting_software.current_scene = "live".to_string();
    broadcasting_software.is_streaming = true;
    broadcasting_software.status = ClientStatus::Connected;
    broadcasting_software.software_set = true;
    let mut state = State {
        config: Config {
            switcher: SwitcherConfig {
                bitrate_switcher_enabled: true,
                only_switch_when_streaming: true,
                instantly_switch_on_recover: false,
                auto_switch_notification: true,
                retry_attempts: 3,
                triggers: Triggers::default(),
                switching_scenes: SwitchingScenes::new("live", "low", "offline"),
                stream_servers,
            },
            chat: Some(Chat {
                platform: "Twitch".to_string(),
                username: "channel".to_string(),
            }),
            optional_scenes: OptionalScenes { starting: None },
            optional_options: OptionalOptions {
                offline_timeout: None,
                record_while_streaming: false,
                switch_from_starting_scene_to_live_scene: false,
            },
        },
        switcher_state: SwitcherState::default(),
        broadcasting_software,
    };
    state.set_all_switchable_scenes();
    Switcher { state }
}

fn tracker(prev_switch_type: SwitchType, same_type: u8) -> SwitchTracker {
    SwitchTracker {
        prev_switch_type,
        same_type,
        same_type_seconds: Instant::now(),
    }
}

/// A clock by which the tracker's timer has run for `type_age` and the stream
/// for an hour.
fn clock(type_age: u128) -> ClockReadings {
    ClockReadings {
        now: Instant::now(),
        fresh_age: 0,
        type_age,
        stream_age: 3600 * SEC,
    }
}

fn committed(step: SwitchStep) -> (String, SwitchType, Option<String>) {
    match step {
        SwitchStep::Commit(SceneChange {
            scene,
            switch_type,
            server_name,
        }) => (scene, switch_type, server_name),
        other => panic!("expected a scene, got {:?}", other),
    }
}

fn scene(name: &str, switch_type: SwitchType, server: Option<&str>) -> (String, SwitchType, Option<String>) {
    (name.to_string(), switch_type, server.map(|s| s.to_string()))
}

fn ask(server: usize) -> SwitchStep {
    SwitchStep::AskSwitchType {
        server,
        triggers: Triggers::default(),
    }
}

fn report(
    switcher: &Switcher,
    tracker: &mut SwitchTracker,
    index: usize,
    switch_type: SwitchType,
    clock: ClockReadings,
) -> SwitchStep {
    switcher.next_step_at(
        tracker,
        ask(index),
        SwitchReply::Reported(switch_type),
        clock,
    )
}

#[test]
fn servers_are_asked_in_order_and_only_if_enabled() {
    let mut sw = switcher(vec![
        StreamServer {
            enabled: false,
            ..server("zero")
        },
        server("one"),
        StreamServer {
            enabled: false,
            ..server("two")
        },
        server("three"),
        server("four"),
    ]);
    sw.state.config.switcher.triggers.set_low(Some(1234));
    let mut tr = tracker(SwitchType::Normal, 2);
    let step = sw.next_step(&mut tr, SwitchStep::Begin, SwitchReply::Go);
    match &step {
        SwitchStep::AskSwitchType { server, triggers } => {
            assert_eq!(*server, 1);
            assert_eq!(triggers.low, Some(1234));
        }
        other => panic!("expected a question, got {:?}", other),
    }
    let step = sw.next_step(&mut tr, step, SwitchReply::Reported(SwitchType::Offline));
    assert!(matches!(step, SwitchStep::AskSwitchType { server: 3, .. }));
    // Seen three times now, so it is acted upon, and the last server has no say.
    let step = sw.next_step(&mut tr, step, SwitchReply::Reported(SwitchType::Normal));
    assert_eq!(
        committed(step),
        scene("live", SwitchType::Normal, Some("three"))
    );
    assert_eq!(tr.same_type, 0);
}

#[test]
fn with_no_server_online_the_stream_is_offline() {
    let sw = switcher(vec![server("one")]);
    let mut tr = tracker(SwitchType::Offline, 2);
    let step = sw.next_step(&mut tr, SwitchStep::Begin, SwitchReply::Go);
    let step = sw.next_step(&mut tr, step, SwitchReply::Reported(SwitchType::Offline));
    assert_eq!(committed(step), scene("offline", SwitchType::Offline, None));

    let empty = switcher(Vec::new());
    let mut tr = tracker(SwitchType::Offline, 2);
    let step = empty.next_step(&mut tr, SwitchStep::Begin, SwitchReply::Go);
    assert_eq!(committed(step), scene("offline", SwitchType::Offline, None));
}

#[test]
fn a_type_is_acted_upon_after_the_retry_attempts() {
    let sw = switcher(vec![server("one")]);
    let mut tr = tracker(SwitchType::Normal, 0);
    // Another type starts the count, and three more make it due.
    for count in [0u8, 1, 2] {
        let step = report(&sw, &mut tr, 0, SwitchType::Low, clock(0));
        assert!(matches!(step, SwitchStep::Done(Ok(()))));
        assert_eq!(tr.prev_switch_type, SwitchType::Low);
        assert_eq!(tr.same_type, count);
    }
    let step = report(&sw, &mut tr, 0, SwitchType::Low, clock(0));
    assert_eq!(committed(step), scene("low", SwitchType::Low, Some("one")));
    assert_eq!(tr.same_type, 0);
}

#[test]
fn the_count_never_reaches_the_retry_attempts() {
    let mut sw = switcher(vec![server("one")]);
    sw.state.config.switcher.retry_attempts = 1;
    let mut tr = SwitchTracker::new();
    for i in 0..600 {
        let switch_type = if i % 7 == 0 {
            SwitchType::Low
        } else {
            SwitchType::Normal
        };
        let step = ask(0);
        let reply = SwitchReply::Reported(switch_type);
        assert!(sw.step_fits(&tr, &step, reply));
        sw.next_step(&mut tr, step, reply);
        assert_eq!(tr.same_type, 0);
    }
}

#[test]
fn a_new_tracker_is_offline_and_a_break_restarts_its_timer() {
    let before = Instant::now();
    let mut tr = SwitchTracker::new();
    assert_eq!(tr.prev_switch_type, SwitchType::Offline);
    assert_eq!(tr.same_type, 0);
    assert!(tr.same_type_seconds >= before);

    tr.same_type = 2;
    tr.same_type_seconds = before - Duration::from_secs(5);
    tr.resume();
    assert_eq!(tr.prev_switch_type, SwitchType::Offline);
    assert_eq!(tr.same_type, 2);
    assert!(tr.same_type_seconds >= before);
}

#[test]
fn a_stream_that_is_back_is_shown_at_once() {
    let mut sw = switcher(vec![server("one")]);
    let mut tr = tracker(SwitchType::Offline, 0);
    let step = report(&sw, &mut tr, 0, SwitchType::Normal, clock(0));
    assert!(matches!(step, SwitchStep::Done(Ok(()))));

    sw.state.config.switcher.instantly_switch_on_recover = true;
    let mut tr = tracker(SwitchType::Offline, 0);
    let step = report(&sw, &mut tr, 0, SwitchType::Normal, clock(0));
    assert_eq!(
        committed(step),
        scene("live", SwitchType::Normal, Some("one"))
    );
}

#[test]
fn instant_degrade_rules() {
    let instant = StreamServer {
        instant_degrade: true,
        ..server("instant")
    };
    let disabled = StreamServer {
        instant_degrade: true,
        enabled: false,
        ..server("disabled")
    };
    let plain = server("plain");
    let check = Switcher::should_instant_degrade;

    assert!(check(Some(&instant), &[], Normal, Low));
    assert!(check(Some(&instant), &[], Low, Offline));
    assert!(!check(Some(&instant), &[], Low, Low));
    assert!(!check(Some(&instant), &[], Low, Normal));
    assert!(!check(Some(&instant), &[], Offline, Low));
    assert!(!check(Some(&instant), &[], Previous, Low));
    assert!(!check(Some(&plain), &[], Normal, Low));

    let servers = [
        server("plain"),
        StreamServer {
            instant_degrade: true,
            ..server("instant")
        },
    ];
    assert!(check(None, &servers, Normal, Offline));
    assert!(!check(None, &servers, Normal, Low));
    assert!(!check(None, &[disabled], Normal, Offline));
}

#[test]
fn an_instant_drop_does_not_wait() {
    let sw = switcher(vec![StreamServer {
        instant_degrade: true,
        ..server("one")
    }]);
    let mut tr = tracker(SwitchType::Normal, 0);
    let step = report(&sw, &mut tr, 0, SwitchType::Offline, clock(0));
    assert_eq!(committed(step), scene("offline", SwitchType::Offline, None));
}

#[test]
fn delayed_recovery_rules() {
    let slow = StreamServer {
        delay_normal_recovery: true,
        ..server("slow")
    };
    let plain = server("plain");
    let check = Switcher::should_delay_normal_recovery;

    assert!(check(Some(&slow), Low, Normal));
    assert!(check(Some(&slow), Offline, Normal));
    assert!(!check(Some(&slow), Normal, Normal));
    assert!(!check(Some(&slow), Normal, Low));
    assert!(!check(Some(&plain), Low, Normal));
    assert!(!check(None, Low, Normal));
}

#[test]
fn a_delayed_recovery_goes_by_the_time() {
    let mut sw = switcher(vec![StreamServer {
        delay_normal_recovery: true,
        ..server("one")
    }]);
    sw.state.config.switcher.instantly_switch_on_recover = true;
    let mut readings = clock(0);

    readings.fresh_age = 3 * SEC - 1;
    let mut tr = tracker(SwitchType::Offline, 0);
    let step = report(&sw, &mut tr, 0, SwitchType::Normal, readings);
    assert!(matches!(step, SwitchStep::Done(Ok(()))));
    assert_eq!(tr.same_type_seconds, readings.now);

    readings.fresh_age = 3 * SEC;
    let mut tr = tracker(SwitchType::Offline, 0);
    let step = report(&sw, &mut tr, 0, SwitchType::Normal, readings);
    assert_eq!(
        committed(step),
        scene("live", SwitchType::Normal, Some("one"))
    );
}

#[test]
fn previous_goes_back_unless_another_server_takes_over() {
    let mut sw = switcher(vec![server("one"), server("two")]);
    sw.state.switcher_state.last_used_server = Some("two".to_string());

    let mut tr = tracker(SwitchType::Previous, 2);
    let step = report(&sw, &mut tr, 1, SwitchType::Previous, clock(0));
    assert_eq!(
        committed(step),
        scene("before", SwitchType::Previous, Some("two"))
    );

    let mut tr = tracker(SwitchType::Previous, 0);
    let step = report(&sw, &mut tr, 0, SwitchType::Previous, clock(0));
    assert_eq!(
        committed(step),
        scene("live", SwitchType::Normal, Some("one"))
    );
    assert_eq!(tr.prev_switch_type, SwitchType::Previous);
}

fn offline_switcher() -> Switcher {
    let mut sw = switcher(Vec::new());
    sw.state.config.optional_options.offline_timeout = Some(2);
    sw.state.config.optional_options.record_while_streaming = true;
    sw
}

fn offline_pass(sw: &Switcher, readings: ClockReadings) -> SwitchStep {
    let mut tr = tracker(SwitchType::Offline, 2);
    sw.next_step_at(&mut tr, SwitchStep::Begin, SwitchReply::Go, readings)
}

#[test]
fn the_offline_timeout_stops_stream_and_recording() {
    let mut sw = offline_switcher();
    assert!(matches!(
        offline_pass(&sw, clock(120 * SEC - 1)),
        SwitchStep::Commit(_)
    ));

    let mut tr = tracker(SwitchType::Offline, 0);
    let step = offline_pass(&sw, clock(120 * SEC));
    assert!(matches!(step, SwitchStep::StopStream));
    let step = sw.next_step(&mut tr, step, SwitchReply::StreamStopped(true));
    assert!(matches!(step, SwitchStep::AskRecording));
    let step = sw.next_step(&mut tr, step, SwitchReply::Recording(Ok(true)));
    assert!(matches!(step, SwitchStep::ToggleRecording));
    let step = sw.next_step(&mut tr, step, SwitchReply::RecordingToggled(true));
    match &step {
        SwitchStep::SendOfflineTimeout { platform, channel } => {
            assert_eq!(platform, "Twitch");
            assert_eq!(channel, "channel");
        }
        other => panic!("expected a message, got {:?}", other),
    }
    let step = sw.next_step(&mut tr, step, SwitchReply::OfflineTimeoutSent);
    assert_eq!(committed(step), scene("offline", SwitchType::Offline, None));

    // Without chat there is nothing to send.
    sw.state.config.chat = None;
    let step = sw.next_step(
        &mut tr,
        SwitchStep::AskRecording,
        SwitchReply::Recording(Ok(false)),
    );
    assert!(matches!(step, SwitchStep::Commit(_)));
}

#[test]
fn the_offline_timeout_gives_up_on_failures() {
    let sw = offline_switcher();
    let mut tr = tracker(SwitchType::Offline, 0);
    let step = sw.next_step(
        &mut tr,
        SwitchStep::StopStream,
        SwitchReply::StreamStopped(false),
    );
    assert!(matches!(step, SwitchStep::Done(Ok(()))));
    let step = sw.next_step(
        &mut tr,
        SwitchStep::AskRecording,
        SwitchReply::Recording(Err(Error::RequestFailed)),
    );
    assert!(matches!(step, SwitchStep::Done(Err(Error::RequestFailed))));
    let step = sw.next_step(
        &mut tr,
        SwitchStep::ToggleRecording,
        SwitchReply::RecordingToggled(false),
    );
    assert!(matches!(step, SwitchStep::Done(Ok(()))));
}

#[test]
fn the_offline_timeout_needs_a_stream_and_a_software() {
    let mut sw = offline_switcher();
    sw.state.broadcasting_software.software_set = false;
    assert!(matches!(
        offline_pass(&sw, clock(120 * SEC)),
        SwitchStep::Done(Err(Error::NoSoftwareSet))
    ));
    sw.state.broadcasting_software.is_streaming = false;
    assert!(matches!(
        offline_pass(&sw, clock(120 * SEC)),
        SwitchStep::Commit(_)
    ));
    assert!(!sw.offline_timeout_reached(1000 * SEC));
}

#[test]
fn the_offline_timeout_waits_while_a_stream_starts() {
    let mut sw = offline_switcher();
    sw.state.config.switcher.only_switch_when_streaming = false;
    let mut readings = clock(120 * SEC);

    readings.stream_age = 8 * SEC;
    let mut tr = tracker(SwitchType::Offline, 2);
    let step = sw.next_step_at(&mut tr, SwitchStep::Begin, SwitchReply::Go, readings);
    assert!(matches!(step, SwitchStep::Commit(_)));
    assert_eq!(tr.same_type_seconds, readings.now);

    readings.stream_age = 8 * SEC + 1;
    let mut tr = tracker(SwitchType::Offline, 2);
    let since = tr.same_type_seconds;
    let step = sw.next_step_at(&mut tr, SwitchStep::Begin, SwitchReply::Go, readings);
    assert!(matches!(step, SwitchStep::StopStream));
    assert_eq!(tr.same_type_seconds, since);
}

#[test]
fn the_clock_is_read_for_the_offline_timeout() {
    let sw = offline_switcher();
    let mut tr = tracker(SwitchType::Offline, 2);
    tr.same_type_seconds = Instant::now() - Duration::from_secs(121);
    let step = sw.next_step(&mut tr, SwitchStep::Begin, SwitchReply::Go);
    assert!(matches!(step, SwitchStep::StopStream));
}

fn depending() -> StreamServer {
    StreamServer {
        override_scenes: Some(SwitchingScenes::new("n1", "l1", "o1")),
        depends_on: Some(DependsOn {
            name: "two".to_string(),
            backup_scenes: SwitchingScenes::new("n2", "l2", "o2"),
        }),
        ..server("one")
    }
}

#[test]
fn backup_scenes_are_used_while_the_other_server_is_offline() {
    let sw = switcher(vec![depending(), server("two")]);
    let mut tr = tracker(SwitchType::Low, 2);
    let step = report(&sw, &mut tr, 0, SwitchType::Low, clock(0));
    assert!(matches!(
        step,
        SwitchStep::AskOnline {
            server: 0,
            dependency: 1,
            switch_type: SwitchType::Low
        }
    ));
    let step = sw.next_step(&mut tr, step, SwitchReply::Online(false));
    assert_eq!(committed(step), scene("l2", SwitchType::Low, Some("one")));

    let ask = SwitchStep::AskOnline {
        server: 0,
        dependency: 1,
        switch_type: SwitchType::Low,
    };
    let step = sw.next_step(&mut tr, ask, SwitchReply::Online(true));
    assert_eq!(committed(step), scene("l1", SwitchType::Low, Some("one")));
}

#[test]
fn a_server_that_is_not_there_counts_as_offline() {
    let sw = switcher(vec![depending()]);
    let mut tr = tracker(SwitchType::Normal, 2);
    let step = report(&sw, &mut tr, 0, SwitchType::Normal, clock(0));
    assert_eq!(committed(step), scene("n2", SwitchType::Normal, Some("one")));
}

#[test]
fn optional_scenes_of_a_server() {
    let one = depending();
    assert_eq!(get_optional_scenes(Some(&one), true).unwrap().normal, "n1");
    assert_eq!(get_optional_scenes(Some(&one), false).unwrap().normal, "n2");
    assert!(get_optional_scenes(Some(&server("plain")), false).is_none());
    assert!(get_optional_scenes(None, true).is_none());
}

#[test]
fn the_last_used_server_decides_on_the_offline_scene() {
    let mut sw = switcher(vec![
        server("one"),
        StreamServer {
            override_scenes: Some(SwitchingScenes::new("n1", "l1", "o1")),
            ..server("two")
        },
    ]);
    let shown = SceneChange {
        scene: "l1".to_string(),
        switch_type: SwitchType::Low,
        server_name: Some("two".to_string()),
    };
    sw.commit(&shown);
    assert_eq!(sw.state.broadcasting_software.prev_scene, "l1");
    assert_eq!(
        sw.state.switcher_state.last_used_server.as_deref(),
        Some("two")
    );

    let mut tr = tracker(SwitchType::Offline, 2);
    let step = sw.next_step(
        &mut tr,
        ask(1),
        SwitchReply::Reported(SwitchType::Offline),
    );
    assert_eq!(
        committed(step),
        scene("o1", SwitchType::Offline, Some("two"))
    );

    // Going offline changes nothing that is remembered, so the stream comes
    // back to the same scene.
    sw.commit(&SceneChange {
        scene: "o1".to_string(),
        switch_type: SwitchType::Offline,
        server_name: None,
    });
    let mut tr = tracker(SwitchType::Previous, 2);
    let step = report(&sw, &mut tr, 1, SwitchType::Previous, clock(0));
    let back = SceneChange {
        scene: "l1".to_string(),
        switch_type: SwitchType::Previous,
        server_name: Some("two".to_string()),
    };
    assert_eq!(
        committed(step),
        scene("l1", SwitchType::Previous, Some("two"))
    );
    sw.commit(&back);
    assert_eq!(sw.state.broadcasting_software.prev_scene, "l1");
}

#[test]
fn a_reply_to_another_step_changes_nothing() {
    let sw = offline_switcher();
    let mut tr = tracker(SwitchType::Normal, 1);
    let step = sw.next_step(&mut tr, SwitchStep::StopStream, SwitchReply::Online(true));
    assert!(matches!(step, SwitchStep::StopStream));
    let step = sw.next_step(&mut tr, SwitchStep::Done(Ok(())), SwitchReply::Go);
    assert!(matches!(step, SwitchStep::Done(Ok(()))));
    assert_eq!(tr.prev_switch_type, SwitchType::Normal);
    assert_eq!(tr.same_type, 1);
}

#[test]
fn steps_that_would_overflow_are_told_apart() {
    let mut sw = switcher(vec![server("one")]);
    let step = ask(0);
    let low = SwitchReply::Reported(SwitchType::Low);
    assert!(sw.step_fits(&tracker(SwitchType::Low, 254), &step, low));
    assert!(!sw.step_fits(&tracker(SwitchType::Low, 255), &step, low));
    assert!(sw.step_fits(&tracker(SwitchType::Normal, 255), &step, low));
    assert!(sw.step_fits(&tracker(SwitchType::Low, 255), &step, SwitchReply::Go));

    sw.state.config.switcher.retry_attempts = 251;
    assert!(sw.step_fits(&tracker(SwitchType::Low, 250), &step, low));
    sw.state.config.switcher.only_switch_when_streaming = false;
    assert!(!sw.step_fits(&tracker(SwitchType::Low, 250), &step, low));
    assert!(sw.step_fits(&tracker(SwitchType::Low, 249), &step, low));

    let mut sw = offline_switcher();
    let begin = SwitchStep::Begin;
    sw.state.config.optional_options.offline_timeout = Some(71_582_788);
    assert!(sw.step_fits(&tracker(SwitchType::Offline, 2), &begin, SwitchReply::Go));
    sw.state.config.optional_options.offline_timeout = Some(71_582_789);
    assert!(!sw.step_fits(&tracker(SwitchType::Offline, 2), &begin, SwitchReply::Go));
    assert!(sw.step_fits(&tracker(SwitchType::Offline, 1), &begin, SwitchReply::Go));
}

#[test]
fn a_step_is_refused_only_if_it_overflows_by_the_clock() {
    // A delayed recovery may come out as due, and then 251 attempts are too
    // many. With next to no time gone by it does not.
    let mut sw = switcher(vec![StreamServer {
        delay_normal_recovery: true,
        ..server("one")
    }]);
    sw.state.config.switcher.retry_attempts = 251;
    sw.state.config.switcher.only_switch_when_streaming = false;
    let normal = SwitchReply::Reported(Normal);
    let mut tr = tracker(Offline, 7);
    assert!(!sw.step_fits(&tr, &ask(0), normal));
    let mut readings = clock(0);
    readings.fresh_age = 251 * SEC - 1;
    assert!(sw.step_fits_at(&tr, &ask(0), normal, readings));
    let step = sw.try_next_step(&mut tr, ask(0), normal);
    assert!(matches!(step, Some(SwitchStep::Done(Ok(())))));
    assert_eq!((tr.prev_switch_type, tr.same_type), (Normal, 0));

    let mut tr = tracker(Offline, 7);
    let since = tr.same_type_seconds;
    readings.fresh_age = 251 * SEC;
    assert!(!sw.step_fits_at(&tr, &ask(0), normal, readings));
    let step = sw.try_next_step_at(&mut tr, ask(0), normal, readings);
    assert!(step.is_none());
    assert_eq!((tr.prev_switch_type, tr.same_type), (Offline, 7));
    assert_eq!(tr.same_type_seconds, since);

    // A count that is full overflows by any clock.
    let low = SwitchReply::Reported(Low);
    let mut tr = tracker(Low, 255);
    assert!(sw.try_next_step(&mut tr, ask(0), low).is_none());
    assert_eq!((tr.prev_switch_type, tr.same_type), (Low, 255));

    // A step that fits is taken as usual.
    let sw = switcher(vec![server("one")]);
    let mut tr = tracker(Low, 2);
    let step = sw.try_next_step(&mut tr, ask(0), low).unwrap();
    assert_eq!(committed(step), scene("low", Low, Some("one")));
}

#[test]
fn a_verdict_does_not_need_the_offline_timeout_to_fit() {
    let mut sw = offline_switcher();
    sw.state.config.optional_options.offline_timeout = Some(u32::MAX);
    let mut tr = tracker(Offline, 2);
    let readings = clock(5 * SEC);
    assert_eq!(
        sw.evaluate(&mut tr, None, Offline, readings),
        (Some(Offline), 5 * SEC)
    );
    assert_eq!(tr.same_type, 0);
    let tr = tracker(Offline, 2);
    assert!(!sw.step_fits_at(&tr, &SwitchStep::Begin, SwitchReply::Go, readings));
}

#[test]
fn the_count_stays_below_the_attempts_while_the_state_changes() {
    let mut sw = switcher(vec![server("one"), server("two")]);
    let mut tr = SwitchTracker::new();
    for i in 0..400usize {
        if i == 200 {
            sw.state.config.switcher.retry_attempts = 5;
        }
        if i % 11 == 0 {
            tr.resume();
        }
        let switch_type = [Low, Low, Low, Low, Low, Normal, Previous][i % 7];
        let step = sw
            .try_next_step(&mut tr, ask(i % 2), SwitchReply::Reported(switch_type))
            .unwrap();
        if let SwitchStep::Commit(change) = step {
            sw.commit(&change);
        }
        assert!(tr.same_type < sw.state.config.switcher.retry_attempts);
    }
}

#[test]
fn the_scene_is_the_one_for_the_switch_type() {
    let sw = switcher(vec![depending(), server("two")]);
    for (switch_type, own, backup, general) in [
        (Normal, "n1", "n2", "live"),
        (Low, "l1", "l2", "low"),
        (Previous, "before", "before", "before"),
    ] {
        for (online, expected) in [(true, own), (false, backup)] {
            let mut tr = tracker(switch_type, 2);
            let step = report(&sw, &mut tr, 0, switch_type, clock(0));
            let step = sw.next_step(&mut tr, step, SwitchReply::Online(online));
            assert_eq!(committed(step), scene(expected, switch_type, Some("one")));
        }
        let mut tr = tracker(switch_type, 2);
        let step = report(&sw, &mut tr, 1, switch_type, clock(0));
        assert_eq!(committed(step), scene(general, switch_type, Some("two")));
    }
}

#[test]
fn a_run_waits_for_a_tick_before_each_pass() {
    let sw = switcher(vec![server("one")]);
    let mut tr = tracker(Low, 2);
    let since = tr.same_type_seconds;

    for event in [
        RunEvent::Started,
        RunEvent::PassEnded(Ok(())),
        RunEvent::PassEnded(Err(Error::NoSoftwareSet)),
    ] {
        let step = sw.next_run_step(&mut tr, event);
        assert!(matches!(step, RunStep::AwaitTick));
        let step = sw.next_run_step(&mut tr, RunEvent::Ticked);
        assert!(matches!(step, RunStep::Pass));
        assert_eq!((tr.prev_switch_type, tr.same_type), (Low, 2));
        assert_eq!(tr.same_type_seconds, since);
    }
}

#[test]
fn after_a_wait_the_run_asks_again_and_the_timer_starts_over() {
    let mut sw = switcher(vec![server("one")]);
    sw.state.config.switcher.bitrate_switcher_enabled = false;
    let mut tr = tracker(Low, 2);
    tr.same_type_seconds = Instant::now() - Duration::from_secs(121);
    let since = tr.same_type_seconds;

    let step = sw.next_run_step(&mut tr, RunEvent::Ticked);
    match step {
        RunStep::AwaitNotifier(notifier) => assert!(std::sync::Arc::ptr_eq(
            &notifier,
            &sw.state.switcher_state.switcher_enabled_notifier()
        )),
        other => panic!("expected to wait, got {:?}", other),
    }
    assert_eq!(tr.same_type_seconds, since);

    let before = Instant::now();
    let step = sw.next_run_step(&mut tr, RunEvent::Woken);
    assert!(matches!(step, RunStep::AwaitTick));
    assert!(tr.same_type_seconds >= before);
    assert_eq!((tr.prev_switch_type, tr.same_type), (Low, 2));

    // Still disabled: another wait. Enabled by then: a pass.
    let step = sw.next_run_step(&mut tr, RunEvent::Ticked);
    assert!(matches!(step, RunStep::AwaitNotifier(_)));
    sw.next_run_step(&mut tr, RunEvent::Woken);
    sw.state.config.switcher.bitrate_switcher_enabled = true;
    let step = sw.next_run_step(&mut tr, RunEvent::Ticked);
    assert!(matches!(step, RunStep::Pass));
}

#[test]
fn a_delayed_recovery_goes_by_the_count_from_the_next_pass_on() {
    let sw = switcher(vec![StreamServer {
        delay_normal_recovery: true,
        ..server("one")
    }]);
    let mut tr = tracker(Low, 0);
    // However long the timer has run, it takes three more passes.
    for count in [0u8, 1, 2] {
        let step = report(&sw, &mut tr, 0, Normal, clock(1000 * SEC));
        assert!(matches!(step, SwitchStep::Done(Ok(()))));
        assert_eq!(tr.same_type, count);
    }
    let step = report(&sw, &mut tr, 0, Normal, clock(1000 * SEC));
    assert_eq!(committed(step), scene("live", Normal, Some("one")));
}

#[test]
fn every_type_but_previous_has_a_scene() {
    let scenes = SwitchingScenes::new("n", "l".to_string(), "o");
    assert_eq!(scenes.type_to_scene(&SwitchType::Normal), Ok("n"));
    assert_eq!(scenes.type_to_scene(&SwitchType::Low), Ok("l"));
    assert_eq!(scenes.type_to_scene(&SwitchType::Offline), Ok("o"));
    assert_eq!(
        scenes.type_to_scene(&SwitchType::Previous),
        Err(Error::SwitchTypeNotSupported)
    );
    let copy = scenes.clone();
    assert_eq!(copy.normal, "n");
    assert_eq!(copy.low, "l");
    assert_eq!(copy.offline, "o");
}

#[test]
fn default_triggers() {
    let mut triggers = Triggers::default();
    assert_eq!(triggers.low, Some(800));
    assert_eq!(triggers.rtt, Some(2500));
    assert_eq!(triggers.offline, None);
    assert_eq!(triggers.rtt_offline, None);

    triggers.set_low(Some(1000));
    let copy = triggers.clone();
    assert_eq!(copy.low, Some(1000));
    assert_eq!(copy.rtt, Some(2500));
    triggers.set_low(None);
    assert_eq!(triggers.low, None);
    assert_eq!(format!("{:?}", TriggerType::RttOffline), "RttOffline");
}

/// Answers each step of a pass, the servers all being offline, and counts the
/// steps.
fn run_to_the_end(sw: &Switcher, tr: &mut SwitchTracker) -> (usize, SwitchStep) {
    let mut step = SwitchStep::Begin;
    let mut steps: usize = 0;
    loop {
        let reply = match &step {
            SwitchStep::Begin => SwitchReply::Go,
            SwitchStep::AskSwitchType { .. } => SwitchReply::Reported(Offline),
            SwitchStep::StopStream => SwitchReply::StreamStopped(true),
            SwitchStep::AskRecording => SwitchReply::Recording(Ok(true)),
            SwitchStep::ToggleRecording => SwitchReply::RecordingToggled(true),
            SwitchStep::SendOfflineTimeout { .. } => SwitchReply::OfflineTimeoutSent,
            SwitchStep::AskOnline { .. } => SwitchReply::Online(false),
            SwitchStep::Commit(_) | SwitchStep::Done(_) => return (steps, step),
        };
        step = sw.next_step(tr, step, reply);
        steps += 1;
    }
}

#[test]
fn the_longest_pass_ends() {
    let mut sw = offline_switcher();
    sw.state.config.switcher.stream_servers = vec![depending(), server("two"), server("three")];
    sw.state.switcher_state.last_used_server = Some("one".to_string());
    let mut tr = tracker(Offline, 2);
    tr.same_type_seconds = Instant::now() - Duration::from_secs(121);

    let (steps, step) = run_to_the_end(&sw, &mut tr);
    assert_eq!(committed(step), scene("o2", Offline, Some("one")));
    // Three servers to ask, then to stop the stream, to ask for the recording
    // and to stop it, the message, the other server, and the scene.
    assert_eq!(steps, 9);
}

#[test]
fn the_scenes_that_are_gone_to_are_switchable() {
    let mut sw = switcher(vec![depending(), server("two")]);
    sw.state.broadcasting_software.prev_scene = String::new();
    for (index, switch_type, online) in [
        (0, Normal, true),
        (0, Low, false),
        (1, Low, true),
        (0, Previous, true),
        (1, Normal, true),
    ] {
        let mut tr = tracker(switch_type, 2);
        let mut step = report(&sw, &mut tr, index, switch_type, clock(0));
        if let SwitchStep::AskOnline { .. } = step {
            step = sw.next_step(&mut tr, step, SwitchReply::Online(online));
        }
        match step {
            SwitchStep::Commit(change) => {
                sw.commit(&change);
                let scenes = &sw.state.switcher_state.switchable_scenes;
                assert!(scenes.contains(&change.scene), "{}", change.scene);
            }
            other => panic!("expected a scene, got {:?}", other),
        }
    }
}
