//! The payload and subscription model of a server-push change channel:
//! subscription parameters, change sets keyed by account and data type,
//! and the notification envelope handed to a transport.

pub mod types;
pub mod account_map;
pub mod laws;
pub mod changes;
pub mod notification;
pub mod url_parameter;
