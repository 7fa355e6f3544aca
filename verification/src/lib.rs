//! A notification broker: accepts, replaces, looks up and dismisses
//! short-lived notification records, and retires the ones whose time to
//! live has run out.
//!
//! The crate holds the lifecycle logic only. It is single-threaded and
//! performs no I/O: callers serialise access to an [`Interface`] and emit
//! the [`Signal`]s that its operations hand back.

mod clock;
pub mod dbus;
pub mod notification;
pub mod queue;
pub mod store;

pub use crate::dbus::{Error, Interface, Reason, Signal};
pub use crate::notification::{DbusNotification, Notification, Urgency};
pub use crate::queue::Notifications;
pub use crate::store::NotificationStore;
