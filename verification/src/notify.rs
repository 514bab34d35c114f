//! Notification of users.

use vstd::prelude::*;

verus! {

/// Hands a notification to the dispatcher, if one is there. No dispatcher is
/// part of this crate, so the call returns at once. It takes nothing that it
/// could change and hands nothing back: no flow can come to depend on it.
pub fn send_email_if_possible(_subject: &str, _content: &str, _to: &str) {
}

} // verus!
