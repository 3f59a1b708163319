//! Switch types and the scenes that go with them.
use crate::error::Error;
use vstd::prelude::*;

verus! {

/// What a stream server asks for, judging by the quality of the stream.
#[derive(Debug, PartialEq, Eq, Clone, Copy, Structural)]
pub enum SwitchType {
    /// The stream is fine.
    Normal,
    /// The stream is of low quality.
    Low,
    /// Back to the scene that was shown before.
    Previous,
    /// There is no stream.
    Offline,
}

/// The scene to show for each quality of the stream.
#[derive(Debug)]
pub struct SwitchingScenes {
    pub normal: String,
    pub low: String,
    pub offline: String,
}

/// The scene names of `SwitchingScenes`.
pub struct SwitchingScenesView {
    pub normal: Seq<char>,
    pub low: Seq<char>,
    pub offline: Seq<char>,
}

impl SwitchingScenesView {
    /// The scene for a switch type. `Previous` has none of its own.
    pub open spec fn scene(self, switch_type: SwitchType) -> Option<Seq<char>> {
        match switch_type {
            SwitchType::Normal => Some(self.normal),
            SwitchType::Low => Some(self.low),
            SwitchType::Offline => Some(self.offline),
            SwitchType::Previous => None,
        }
    }

    /// Whether `scene` is one of the three.
    pub open spec fn has(self, scene: Seq<char>) -> bool {
        scene == self.normal || scene == self.low || scene == self.offline
    }
}

impl View for SwitchingScenes {
    type V = SwitchingScenesView;

    open spec fn view(&self) -> SwitchingScenesView {
        SwitchingScenesView { normal: self.normal@, low: self.low@, offline: self.offline@ }
    }
}

impl Clone for SwitchingScenes {
    fn clone(&self) -> (r: Self)
        ensures
            r == *self,
    {
        SwitchingScenes {
            normal: self.normal.clone(),
            low: self.low.clone(),
            offline: self.offline.clone(),
        }
    }
}

/// `String::from` copies a string slice: the string holds the same characters.
pub assume_specification<'a, 'b>[ <String as From<&'a str>>::from ](s: &'b str) -> (r: String)
    ensures
        r@ == s@,
;

impl SwitchingScenes {
    /// Three scene names, each whatever its argument converts to.
    pub fn new<N, L, O>(normal: N, low: L, offline: O) -> (r: Self) where
        N: Into<String>,
        L: Into<String>,
        O: Into<String>,

        ensures
            call_ensures(N::into, (normal,), r.normal),
            call_ensures(L::into, (low,), r.low),
            call_ensures(O::into, (offline,), r.offline),
    {
        SwitchingScenes { normal: normal.into(), low: low.into(), offline: offline.into() }
    }

    /// The scene for a switch type. `Previous` is not supported: which scene
    /// was shown before is not known here.
    pub fn type_to_scene(&self, s_type: &SwitchType) -> (r: Result<&str, Error>)
        ensures
            match self@.scene(*s_type) {
                Some(scene) => r is Ok && r->Ok_0@ == scene,
                None => r == Err::<&str, Error>(Error::SwitchTypeNotSupported),
            },
    {
        match s_type {
            SwitchType::Normal => Ok(self.normal.as_str()),
            SwitchType::Low => Ok(self.low.as_str()),
            SwitchType::Offline => Ok(self.offline.as_str()),
            SwitchType::Previous => Err(Error::SwitchTypeNotSupported),
        }
    }
}

} // verus!
