use vstd::prelude::*;

verus! {

/// A kind of object whose state a client can track.
#[derive(Debug, Clone, Copy, PartialEq, Eq, Hash, Structural)]
pub enum DataType {
    Email,
    EmailDelivery,
    EmailSubmission,
    Mailbox,
    Thread,
    Identity,
    Core,
    PushSubscription,
    SearchSnippet,
    VacationResponse,
    Mdn,
    Quota,
    SieveScript,
    Calendar,
    CalendarEvent,
    CalendarEventNotification,
    AddressBook,
    ContactCard,
    FileNode,
    Principal,
    ShareNotification,
    ParticipantIdentity,
    Task,
}

/// A scheduled reminder, produced by the calendar alert scheduler.
#[derive(Debug, Clone, Copy, PartialEq, Eq, Structural)]
pub struct CalendarAlert {
    pub account_id: u32,
    pub event_id: u32,
    pub alert_id: u32,
    pub event_start: i64,
    pub event_end: i64,
}

} // verus!
