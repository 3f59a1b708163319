//! The steps of one pass of the switcher, and what is answered to them.
use crate::clock::{
    age_in_nanos, is_age_of, is_timer_age_of, is_timer_reading, timer_age_in_nanos, timer_now,
};
use crate::error::Error;
use crate::scenes::SwitchType;
use crate::triggers::Triggers;
use crate::views::opt_view;
use std::sync::Arc;
use std::time::Instant;
use tokio::sync::Notify;
use vstd::prelude::*;

verus! {

/// How the switch types seen so far add up. It is kept from one pass to the
/// next.
#[derive(Debug)]
pub struct SwitchTracker {
    /// The switch type of the last pass
    pub prev_switch_type: SwitchType,
    /// How many passes in a row have seen that type again
    pub same_type: u8,
    /// Since when that type has been seen
    pub same_type_seconds: tokio::time::Instant,
}

impl SwitchTracker {
    /// Before the first pass the stream counts as offline, since now.
    pub fn new() -> (r: Self)
        ensures
            r.prev_switch_type == SwitchType::Offline,
            r.same_type == 0,
            is_timer_reading(r.same_type_seconds),
    {
        SwitchTracker {
            prev_switch_type: SwitchType::Offline,
            same_type: 0,
            same_type_seconds: timer_now(),
        }
    }

    /// Takes up work after a break: the time that went by does not count. The
    /// timer starts again from a reading of the clock, and the count stays.
    pub fn resume(&mut self)
        ensures
            final(self).prev_switch_type == old(self).prev_switch_type,
            final(self).same_type == old(self).same_type,
            is_timer_reading(final(self).same_type_seconds),
    {
        self.same_type_seconds = timer_now();
    }
}

/// What the clock says during one step.
#[derive(Debug, Clone, Copy)]
pub struct ClockReadings {
    /// The present
    pub now: tokio::time::Instant,
    /// Nanoseconds since `now`, for a timer that was started just now
    pub fresh_age: u128,
    /// Nanoseconds since the tracker's `same_type_seconds`
    pub type_age: u128,
    /// Nanoseconds since the last stream started
    pub stream_age: u128,
}

impl ClockReadings {
    /// Whether these may be the readings while the tracker's timer runs since
    /// `type_since` and the last stream since `stream_since`: the present is a
    /// reading of the clock, and each age is the age of its own point in time.
    pub open spec fn are_of(
        self,
        type_since: tokio::time::Instant,
        stream_since: Instant,
    ) -> bool {
        &&& is_timer_reading(self.now)
        &&& is_timer_age_of(self.fresh_age, self.now)
        &&& is_timer_age_of(self.type_age, type_since)
        &&& is_age_of(self.stream_age, stream_since)
    }

    /// Reads the clock. What it says is up to the clock.
    pub(crate) fn take(tracker: &SwitchTracker, last_stream_started_at: &Instant) -> (r: Self)
        ensures
            r.are_of(tracker.same_type_seconds, *last_stream_started_at),
    {
        let now = timer_now();
        ClockReadings {
            now,
            fresh_age: timer_age_in_nanos(&now),
            type_age: timer_age_in_nanos(&tracker.same_type_seconds),
            stream_age: age_in_nanos(last_stream_started_at),
        }
    }
}

/// What happened to the switcher, pass after pass.
#[derive(Debug, Clone, Copy)]
pub enum RunEvent {
    /// The switcher was started.
    Started,
    /// It is time to look again: a while has gone by, or there is news from a
    /// stream server.
    Ticked,
    /// The notifier that was waited on has called.
    Woken,
    /// A pass is over, with this result.
    PassEnded(Result<(), Error>),
}

/// What the switcher does until the next event.
#[derive(Debug)]
pub enum RunStep {
    /// Wait until it is time to look again.
    AwaitTick,
    /// Wait for a call of this notifier.
    AwaitNotifier(Arc<Notify>),
    /// Do one pass.
    Pass,
}

/// A scene to go to.
#[derive(Debug)]
pub struct SceneChange {
    pub scene: String,
    pub switch_type: SwitchType,
    /// Name of the stream server that the scene is for
    pub server_name: Option<String>,
}

pub struct SceneChangeView {
    pub scene: Seq<char>,
    pub switch_type: SwitchType,
    pub server_name: Option<Seq<char>>,
}

impl View for SceneChange {
    type V = SceneChangeView;

    open spec fn view(&self) -> SceneChangeView {
        SceneChangeView {
            scene: self.scene@,
            switch_type: self.switch_type,
            server_name: opt_view(self.server_name),
        }
    }
}

/// What one pass of the switcher asks to be done next.
#[derive(Debug)]
pub enum SwitchStep {
    /// Nothing yet: the pass begins.
    Begin,
    /// Ask the stream server with this index for its switch type, by these
    /// triggers.
    AskSwitchType { server: usize, triggers: Triggers },
    /// Ask the broadcasting software to stop the stream.
    StopStream,
    /// Ask the broadcasting software whether it is recording.
    AskRecording,
    /// Ask the broadcasting software to stop the recording.
    ToggleRecording,
    /// Say in chat that the offline timeout was reached.
    SendOfflineTimeout { platform: String, channel: String },
    /// Ask whether the stream server `dependency` is online, which `server`
    /// depends on.
    AskOnline { server: usize, dependency: usize, switch_type: SwitchType },
    /// Go to a scene. The pass is over.
    Commit(SceneChange),
    /// Do nothing more. The pass is over.
    Done(Result<(), Error>),
}

pub enum SwitchStepView {
    Begin,
    AskSwitchType { server: int, triggers: Triggers },
    StopStream,
    AskRecording,
    ToggleRecording,
    SendOfflineTimeout { platform: Seq<char>, channel: Seq<char> },
    AskOnline { server: int, dependency: int, switch_type: SwitchType },
    Commit(SceneChangeView),
    Done(Result<(), Error>),
}

impl View for SwitchStep {
    type V = SwitchStepView;

    open spec fn view(&self) -> SwitchStepView {
        match self {
            SwitchStep::Begin => SwitchStepView::Begin,
            SwitchStep::AskSwitchType { server, triggers } => SwitchStepView::AskSwitchType {
                server: *server as int,
                triggers: *triggers,
            },
            SwitchStep::StopStream => SwitchStepView::StopStream,
            SwitchStep::AskRecording => SwitchStepView::AskRecording,
            SwitchStep::ToggleRecording => SwitchStepView::ToggleRecording,
            SwitchStep::SendOfflineTimeout { platform, channel } => {
                SwitchStepView::SendOfflineTimeout { platform: platform@, channel: channel@ }
            },
            SwitchStep::AskOnline { server, dependency, switch_type } => {
                SwitchStepView::AskOnline {
                    server: *server as int,
                    dependency: *dependency as int,
                    switch_type: *switch_type,
                }
            },
            SwitchStep::Commit(change) => SwitchStepView::Commit(change@),
            SwitchStep::Done(result) => SwitchStepView::Done(*result),
        }
    }
}

/// What came of a step.
#[derive(Debug, Clone, Copy)]
pub enum SwitchReply {
    /// To `Begin`
    Go,
    /// To `AskSwitchType`
    Reported(SwitchType),
    /// To `StopStream`: whether the request got through
    StreamStopped(bool),
    /// To `AskRecording`
    Recording(Result<bool, Error>),
    /// To `ToggleRecording`: whether the request got through
    RecordingToggled(bool),
    /// To `SendOfflineTimeout`, whether or not anybody got the message
    OfflineTimeoutSent,
    /// To `AskOnline`
    Online(bool),
}

/// A message for chat: the scene was switched.
#[derive(Debug)]
pub struct Announcement {
    pub platform: String,
    pub channel: String,
    pub scene: String,
    pub switch_type: SwitchType,
}

pub struct AnnouncementView {
    pub platform: Seq<char>,
    pub channel: Seq<char>,
    pub scene: Seq<char>,
    pub switch_type: SwitchType,
}

impl View for Announcement {
    type V = AnnouncementView;

    open spec fn view(&self) -> AnnouncementView {
        AnnouncementView {
            platform: self.platform@,
            channel: self.channel@,
            scene: self.scene@,
            switch_type: self.switch_type,
        }
    }
}

/// A request to the broadcasting software, and what to announce if it is
/// accepted.
#[derive(Debug)]
pub struct SceneRequest {
    pub scene: String,
    pub announcement: Option<Announcement>,
}

pub struct SceneRequestView {
    pub scene: Seq<char>,
    pub announcement: Option<AnnouncementView>,
}

impl View for SceneRequest {
    type V = SceneRequestView;

    open spec fn view(&self) -> SceneRequestView {
        SceneRequestView { scene: self.scene@, announcement: opt_view(self.announcement) }
    }
}

} // verus!
