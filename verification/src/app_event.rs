//! A message for the notification area.

use vstd::prelude::*;

verus! {

/// A message to show in the notification area.
#[derive(Debug, Clone)]
pub struct NotificationEvent(pub String);

impl NotificationEvent {
    /// A notification showing `message`.
    pub fn new(message: String) -> (event: Self)
        ensures
            event.0 == message,
    {
        NotificationEvent(message)
    }
}

} // verus!
