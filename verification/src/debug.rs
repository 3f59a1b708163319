//! A line of text for the log.
use crate::state::{BroadcastingSoftwareState, BroadcastingSoftwareStateView, ClientStatus};
use vstd::prelude::*;

verus! {

/// How the standard library writes a string for debugging: in quotes, with
/// special characters escaped.
pub uninterp spec fn quoted(text: Seq<char>) -> Seq<char>;

/// Calls `format!` with the debug form of a string slice. Which characters are
/// escaped, and how, is left to the standard library: the claim is only that
/// it goes by the characters of the string.
#[verifier::external_body]
fn quote(text: &str) -> (r: String)
    ensures
        r@ == quoted(text@),
{
    format!("{:?}", text)
}

/// `true` or `false`.
pub open spec fn bool_text(b: bool) -> Seq<char> {
    if b {
        "true"@
    } else {
        "false"@
    }
}

impl BroadcastingSoftwareStateView {
    /// The state as text, the names of the scenes being written as given.
    pub open spec fn debug_text(self, prev_scene: Seq<char>, current_scene: Seq<char>) -> Seq<
        char,
    > {
        "BroadcastingSoftwareState { prev_scene: "@ + prev_scene + ", curent_scene: "@
            + current_scene + ", status: "@ + (match self.status {
            ClientStatus::Connected => "Connected"@,
            ClientStatus::Disconnected => "Disconnected"@,
        }) + ", is_streaming: "@ + bool_text(self.is_streaming)
            + ", Does have a software set: "@ + bool_text(self.software_set) + " }"@
    }
}

fn bool_str(b: bool) -> (r: &'static str)
    ensures
        r@ == bool_text(b),
{
    if b {
        "true"
    } else {
        "false"
    }
}

impl BroadcastingSoftwareState {
    /// The state as text.
    pub fn debug_string(&self) -> (r: String)
        ensures
            r@ == self@.debug_text(quoted(self@.prev_scene), quoted(self@.current_scene)),
    {
        let prev_scene = quote(self.prev_scene.as_str());
        let current_scene = quote(self.current_scene.as_str());
        self.debug_string_with(prev_scene.as_str(), current_scene.as_str())
    }

    /// The state as text, the names of the scenes being written as given.
    pub fn debug_string_with(&self, prev_scene: &str, current_scene: &str) -> (r: String)
        ensures
            r@ == self@.debug_text(prev_scene@, current_scene@),
    {
        let status = match self.status {
            ClientStatus::Connected => "Connected",
            ClientStatus::Disconnected => "Disconnected",
        };
        let mut text = String::from("BroadcastingSoftwareState { prev_scene: ");
        text.append(prev_scene);
        text.append(", curent_scene: ");
        text.append(current_scene);
        text.append(", status: ");
        text.append(status);
        text.append(", is_streaming: ");
        text.append(bool_str(self.is_streaming));
        text.append(", Does have a software set: ");
        text.append(bool_str(self.software_set));
        text.append(" }");
        text
    }
}

} // verus!
