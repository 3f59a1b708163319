//! Wake-up calls between tasks.
use std::sync::Arc;
use tokio::sync::Notify;
use vstd::prelude::*;

verus! {

/// tokio's `Notify`, carried through as an opaque value: waiting on one is
/// left to the program around this library.
#[verifier::external_type_specification]
#[verifier::external_body]
pub struct ExNotify(tokio::sync::Notify);

/// `Notify::new` makes a `Notify` that holds no permit and that nobody waits
/// on. Nothing is claimed of the opaque value.
pub assume_specification[ tokio::sync::Notify::new ]() -> (r: tokio::sync::Notify);

/// Whether a call of `Notify::new` gave what `notifier` shares. Who else shares
/// it, and what it has been used for since, is not part of it.
pub open spec fn is_new_notifier(notifier: Arc<Notify>) -> bool {
    call_ensures(Notify::new, (), *notifier)
}

/// Makes a notifier that other tasks can share.
pub(crate) fn new_notifier() -> (r: Arc<Notify>)
    ensures
        is_new_notifier(r),
{
    Arc::new(Notify::new())
}

} // verus!
