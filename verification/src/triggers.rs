//! Limits at which a stream server asks for another scene.
use vstd::prelude::*;

verus! {

/// Which limit was crossed.
#[derive(Debug)]
pub enum TriggerType {
    Low,
    Rtt,
    Offline,
    RttOffline,
}

/// The limits. One that is `None` is never crossed.
#[derive(Debug, Clone, Copy, PartialEq, Eq, Structural)]
pub struct Triggers {
    /// Trigger to switch to the low scene
    pub low: Option<u32>,
    /// Trigger to switch to the low scene when RTT is high
    pub rtt: Option<u32>,
    /// Trigger to switch to the offline scene
    pub offline: Option<u32>,
    /// Trigger to switch to the offline scene when RTT is high
    pub rtt_offline: Option<u32>,
}

impl Triggers {
    /// Sets the trigger for the low scene and leaves the others alone.
    pub fn set_low(&mut self, value: Option<u32>)
        ensures
            *final(self) == (Triggers { low: value, ..*old(self) }),
    {
        self.low = value;
    }
}

impl Default for Triggers {
    /// Low scene under 800 Kbps or over 2500 ms of RTT, and no trigger for the
    /// offline scene.
    fn default() -> (r: Self)
        ensures
            r == (Triggers { low: Some(800), rtt: Some(2500), offline: None, rtt_offline: None }),
    {
        Triggers { low: Some(800), rtt: Some(2500), offline: None, rtt_offline: None }
    }
}

} // verus!
