//! The settings that the switcher goes by.
use crate::scenes::{SwitchingScenes, SwitchingScenesView};
use crate::triggers::Triggers;
use crate::views::{opt_view, seq_view};
use vstd::prelude::*;

verus! {

/// Another stream server that one needs to be online as well.
#[derive(Debug)]
pub struct DependsOn {
    /// Name of the other server
    pub name: String,
    /// Scenes to use while the other server is offline
    pub backup_scenes: SwitchingScenes,
}

pub struct DependsOnView {
    pub name: Seq<char>,
    pub backup_scenes: SwitchingScenesView,
}

impl View for DependsOn {
    type V = DependsOnView;

    open spec fn view(&self) -> DependsOnView {
        DependsOnView { name: self.name@, backup_scenes: self.backup_scenes@ }
    }
}

/// A stream server, as far as the switcher decides by it. Asking the server
/// over the network is left to the program around this library.
#[derive(Debug)]
pub struct StreamServer {
    pub name: String,
    /// Servers that are not enabled are not asked for their switch type.
    pub enabled: bool,
    /// Whether a drop in quality is acted upon at once
    pub instant_degrade: bool,
    /// Whether a return to the normal scene has to wait
    pub delay_normal_recovery: bool,
    /// Scenes to use in place of the general ones
    pub override_scenes: Option<SwitchingScenes>,
    pub depends_on: Option<DependsOn>,
}

pub struct StreamServerView {
    pub name: Seq<char>,
    pub enabled: bool,
    pub instant_degrade: bool,
    pub delay_normal_recovery: bool,
    pub override_scenes: Option<SwitchingScenesView>,
    pub depends_on: Option<DependsOnView>,
}

impl View for StreamServer {
    type V = StreamServerView;

    open spec fn view(&self) -> StreamServerView {
        StreamServerView {
            name: self.name@,
            enabled: self.enabled,
            instant_degrade: self.instant_degrade,
            delay_normal_recovery: self.delay_normal_recovery,
            override_scenes: opt_view(self.override_scenes),
            depends_on: opt_view(self.depends_on),
        }
    }
}

/// Settings of the switcher itself.
#[derive(Debug)]
pub struct SwitcherConfig {
    /// Whether scenes are switched at all
    pub bitrate_switcher_enabled: bool,
    /// Whether scenes are switched only while streaming
    pub only_switch_when_streaming: bool,
    /// Whether a stream that comes back is shown at once
    pub instantly_switch_on_recover: bool,
    /// Whether a switch is announced in chat
    pub auto_switch_notification: bool,
    /// How many times in a row a switch type has to be seen before it is acted
    /// upon
    pub retry_attempts: u8,
    pub triggers: Triggers,
    pub switching_scenes: SwitchingScenes,
    /// The stream servers, the one to prefer first
    pub stream_servers: Vec<StreamServer>,
}

pub struct SwitcherConfigView {
    pub bitrate_switcher_enabled: bool,
    pub only_switch_when_streaming: bool,
    pub instantly_switch_on_recover: bool,
    pub auto_switch_notification: bool,
    pub retry_attempts: int,
    pub triggers: Triggers,
    pub switching_scenes: SwitchingScenesView,
    pub stream_servers: Seq<StreamServerView>,
}

impl View for SwitcherConfig {
    type V = SwitcherConfigView;

    open spec fn view(&self) -> SwitcherConfigView {
        SwitcherConfigView {
            bitrate_switcher_enabled: self.bitrate_switcher_enabled,
            only_switch_when_streaming: self.only_switch_when_streaming,
            instantly_switch_on_recover: self.instantly_switch_on_recover,
            auto_switch_notification: self.auto_switch_notification,
            retry_attempts: self.retry_attempts as int,
            triggers: self.triggers,
            switching_scenes: self.switching_scenes@,
            stream_servers: seq_view(self.stream_servers@),
        }
    }
}

/// Where chat messages go.
#[derive(Debug)]
pub struct Chat {
    /// The kind of chat platform
    pub platform: String,
    pub username: String,
}

pub struct ChatView {
    pub platform: Seq<char>,
    pub username: Seq<char>,
}

impl View for Chat {
    type V = ChatView;

    open spec fn view(&self) -> ChatView {
        ChatView { platform: self.platform@, username: self.username@ }
    }
}

/// Scenes that need not be there.
#[derive(Debug)]
pub struct OptionalScenes {
    /// The scene that is shown before a stream starts
    pub starting: Option<String>,
}

pub struct OptionalScenesView {
    pub starting: Option<Seq<char>>,
}

impl View for OptionalScenes {
    type V = OptionalScenesView;

    open spec fn view(&self) -> OptionalScenesView {
        OptionalScenesView { starting: opt_view(self.starting) }
    }
}

/// Settings that need not be used.
#[derive(Debug)]
pub struct OptionalOptions {
    /// Minutes after which an offline stream is stopped
    pub offline_timeout: Option<u32>,
    /// Whether recording starts and stops with streaming
    pub record_while_streaming: bool,
    /// Whether the starting scene is left once there is a stream
    pub switch_from_starting_scene_to_live_scene: bool,
}

/// All settings.
#[derive(Debug)]
pub struct Config {
    pub switcher: SwitcherConfig,
    pub chat: Option<Chat>,
    pub optional_scenes: OptionalScenes,
    pub optional_options: OptionalOptions,
}

pub struct ConfigView {
    pub switcher: SwitcherConfigView,
    pub chat: Option<ChatView>,
    pub optional_scenes: OptionalScenesView,
    pub optional_options: OptionalOptions,
}

impl View for Config {
    type V = ConfigView;

    open spec fn view(&self) -> ConfigView {
        ConfigView {
            switcher: self.switcher@,
            chat: opt_view(self.chat),
            optional_scenes: self.optional_scenes@,
            optional_options: self.optional_options,
        }
    }
}

} // verus!
