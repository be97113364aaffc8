//! The unit handed to the transport: a batch of state changes or a calendar
//! alert.

use crate::changes::{same_changes, Changes};
use crate::types::CalendarAlert;
use vstd::prelude::*;

verus! {

/// A notification for delivery to a client.
#[derive(Debug, Clone)]
pub enum PushNotification {
    StateChange(Changes),
    CalendarAlert(CalendarAlert),
}

/// Two notifications are equal when they are of the same variant and carry
/// equal payloads.
pub open spec fn same_notification(a: &PushNotification, b: &PushNotification) -> bool {
    match (a, b) {
        (PushNotification::StateChange(x), PushNotification::StateChange(y)) => same_changes(x, y),
        (PushNotification::CalendarAlert(x), PushNotification::CalendarAlert(y)) => x == y,
        _ => false,
    }
}

impl PartialEq for PushNotification {
    fn eq(&self, other: &PushNotification) -> (r: bool)
        ensures
            r == same_notification(self, other),
    {
        match (self, other) {
            (PushNotification::StateChange(x), PushNotification::StateChange(y)) => x == y,
            (PushNotification::CalendarAlert(x), PushNotification::CalendarAlert(y)) => x == y,
            _ => false,
        }
    }
}

impl Eq for PushNotification {

}

impl vstd::std_specs::cmp::PartialEqSpecImpl for PushNotification {
    open spec fn obeys_eq_spec() -> bool {
        true
    }

    open spec fn eq_spec(&self, other: &PushNotification) -> bool {
        same_notification(self, other)
    }
}

} // verus!
