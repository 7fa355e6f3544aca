//! The operations behind the `org.freedesktop.Notifications` interface.

use crate::clock::now_millis;
use crate::notification::{Notification, NotificationView, Urgency};
use crate::store::{records_view, NotificationStore, StoreView};
use std::collections::HashMap;
use vstd::prelude::*;

verus! {

/// The bus name that the service answers to.
pub const BUS_NAME: &'static str = "org.freedesktop.Notifications";

/// The object path that the service is served at.
pub const OBJ_PATH: &'static str = "/org/freedesktop/Notifications";

/// How long the service rests between two sweeps, in milliseconds.
pub const SWEEP_INTERVAL: u64 = 2_000;

/// Why a notification was closed.
#[derive(Clone, Copy, Debug, PartialEq, Eq, Structural)]
pub enum Reason {
    /// Its time to live ran out.
    Expired,
    /// The user dismissed it.
    Dismissed,
    /// A client asked for it to be closed.
    Closed,
    /// None of the above.
    Undefined,
}

impl Reason {
    /// The number that stands for this reason on the wire.
    pub open spec fn spec_code(&self) -> u32 {
        match self {
            Reason::Expired => 1,
            Reason::Dismissed => 2,
            Reason::Closed => 3,
            Reason::Undefined => 4,
        }
    }

    /// The text that describes this reason in diagnostics.
    pub open spec fn description(&self) -> Seq<char> {
        match self {
            Reason::Expired => "expired"@,
            Reason::Dismissed => "dismissed by user"@,
            Reason::Closed => "closed by CloseNotification"@,
            Reason::Undefined => "undefined reason"@,
        }
    }

    /// The number that stands for this reason on the wire.
    #[verifier::when_used_as_spec(spec_code)]
    pub fn code(&self) -> (code: u32)
        ensures
            code == self.spec_code(),
    {
        match self {
            Reason::Expired => 1,
            Reason::Dismissed => 2,
            Reason::Closed => 3,
            Reason::Undefined => 4,
        }
    }

    /// Reads a reason from its wire number; a number that names no reason
    /// reads as [`Reason::Undefined`].
    pub fn from_code(code: u32) -> (reason: Reason)
        ensures
            1 <= code <= 4 ==> reason.spec_code() == code,
            !(1 <= code <= 4) ==> reason == Reason::Undefined,
    {
        match code {
            1 => Reason::Expired,
            2 => Reason::Dismissed,
            3 => Reason::Closed,
            _ => Reason::Undefined,
        }
    }

    /// A short description of the reason, for diagnostics.
    pub fn to_str(&self) -> (text: &'static str)
        ensures
            text@ == self.description(),
    {
        match self {
            Reason::Expired => "expired",
            Reason::Dismissed => "dismissed by user",
            Reason::Closed => "closed by CloseNotification",
            Reason::Undefined => "undefined reason",
        }
    }
}

/// An event that the service owes its clients. The operations hand the
/// signals back; whoever runs the service sends them.
#[derive(Clone, Copy, Debug, PartialEq, Eq, Structural)]
pub enum Signal {
    /// A notification was stored under this id.
    NewNotification(u32),
    /// The notification under this id is gone, for this reason.
    NotificationClosed(u32, Reason),
}

/// What a lookup can fail with.
#[derive(Clone, Copy, Debug, PartialEq, Eq, Structural)]
pub enum Error {
    /// No live notification has the id that was asked for.
    NotFound,
}

impl Error {
    /// The text that describes the error to a client.
    pub fn message(&self) -> (text: &'static str)
        ensures
            text@ == "Notification with given ID does not exist"@,
    {
        match self {
            Error::NotFound => "Notification with given ID does not exist",
        }
    }
}

/// The signals that a sweep owes for the records in `expired`: one
/// closure for each, with [`Reason::Expired`].
pub open spec fn expiry_signals(expired: Set<u32>) -> Set<Signal> {
    Set::new(
        |signal: Signal|
            match signal {
                Signal::NotificationClosed(id, reason) => reason == Reason::Expired
                    && expired.contains(id),
                Signal::NewNotification(_) => false,
            },
    )
}

/// The notification service: the store and the operations that clients
/// reach it through.
pub struct Interface {
    notifications: NotificationStore,
}

impl View for Interface {
    type V = StoreView;

    closed spec fn view(&self) -> StoreView {
        self.notifications@
    }
}

impl Interface {
    /// A service over `notifications`.
    pub fn new(notifications: NotificationStore) -> (interface: Interface)
        ensures
            interface@ == notifications@,
    {
        Interface { notifications }
    }

    /// Takes the notification under `id` out of the store. A closure
    /// signal with `reason` is owed if and only if there was one; an id
    /// without a record is no error.
    pub fn delete_notification(&mut self, id: u32, reason: Reason) -> (signal: Option<Signal>)
        ensures
            final(self)@ == old(self)@.remove(id),
            signal == if old(self)@.records.contains_key(id) {
                Some(Signal::NotificationClosed(id, reason))
            } else {
                None
            },
            final(self)@.well_formed(),
    {
        match self.notifications.remove(id) {
            Some(_) => Some(Signal::NotificationClosed(id, reason)),
            None => None,
        }
    }

    /// The features that the service supports.
    pub fn get_capabilities(&self) -> (capabilities: Vec<&'static str>)
        ensures
            capabilities@.len() == 2,
            capabilities@[0]@ == "body"@,
            capabilities@[1]@ == "persistence"@,
    {
        let mut capabilities: Vec<&'static str> = Vec::new();
        capabilities.push("body");
        capabilities.push("persistence");
        capabilities
    }

    /// Stores a request that is accepted at `now`: as a new notification
    /// if `replaces_id` is zero, else under `replaces_id`, in place of
    /// whatever was there. Returns the id used and the signal that
    /// announces it. The icon and the actions are not kept.
    #[allow(unused_variables)]
    pub fn notify_at(
        &mut self,
        app_name: String,
        replaces_id: u32,
        app_icon: String,
        summary: String,
        body: String,
        actions: Vec<String>,
        urgency: Urgency,
        expire_timeout: i32,
        now: i64,
    ) -> (reply: (u32, Signal))
        ensures
            reply.0 == old(self)@.replace_id(replaces_id),
            reply.1 == Signal::NewNotification(reply.0),
            final(self)@ == old(self)@.replace(
                replaces_id,
                NotificationView::accepted(
                    replaces_id,
                    app_name@,
                    summary@,
                    body@,
                    urgency,
                    expire_timeout,
                    now,
                ),
            ),
            final(self)@.well_formed(),
    {
        let notification = Notification::at(
            replaces_id,
            app_name,
            summary,
            body,
            urgency,
            expire_timeout,
            now,
        );
        let id: u32 = self.notifications.replace(replaces_id, notification);
        (id, Signal::NewNotification(id))
    }

    /// Stores a request that is accepted now, by the wall clock. See
    /// [`Interface::notify_at`].
    pub fn notify(
        &mut self,
        app_name: String,
        replaces_id: u32,
        app_icon: String,
        summary: String,
        body: String,
        actions: Vec<String>,
        urgency: Urgency,
        expire_timeout: i32,
    ) -> (reply: (u32, Signal))
        ensures
            reply.0 == old(self)@.replace_id(replaces_id),
            reply.1 == Signal::NewNotification(reply.0),
            exists|now: i64|
                final(self)@ == old(self)@.replace(
                    replaces_id,
                    #[trigger] NotificationView::accepted(
                        replaces_id,
                        app_name@,
                        summary@,
                        body@,
                        urgency,
                        expire_timeout,
                        now,
                    ),
                ),
            final(self)@.well_formed(),
    {
        let now: i64 = now_millis();
        self.notify_at(
            app_name,
            replaces_id,
            app_icon,
            summary,
            body,
            actions,
            urgency,
            expire_timeout,
            now,
        )
    }

    /// Closes the notification under `id` at a client's request.
    pub fn close_notification(&mut self, id: u32) -> (signal: Option<Signal>)
        ensures
            final(self)@ == old(self)@.remove(id),
            signal == if old(self)@.records.contains_key(id) {
                Some(Signal::NotificationClosed(id, Reason::Closed))
            } else {
                None
            },
            final(self)@.well_formed(),
    {
        self.delete_notification(id, Reason::Closed)
    }

    /// Closes the notification under `id` because the user dismissed it.
    pub fn dismiss_notification(&mut self, id: u32) -> (signal: Option<Signal>)
        ensures
            final(self)@ == old(self)@.remove(id),
            signal == if old(self)@.records.contains_key(id) {
                Some(Signal::NotificationClosed(id, Reason::Dismissed))
            } else {
                None
            },
            final(self)@.well_formed(),
    {
        self.delete_notification(id, Reason::Dismissed)
    }

    /// The name, the vendor and the version of the server, and the version
    /// of the desktop notification protocol that it speaks.
    pub fn get_server_information(&self) -> (information: (
        &'static str,
        &'static str,
        &'static str,
        &'static str,
    ))
        ensures
            information.0@ == "notifyd"@,
            information.1@ == "freedesktop.org"@,
            information.2@ == "0.1.0"@,
            information.3@ == "1.2"@,
    {
        ("notifyd", "freedesktop.org", "0.1.0", "1.2")
    }

    /// A copy of the notification under `id`.
    pub fn get_notification(&self, id: u32) -> (found: Result<Notification, Error>)
        ensures
            match found {
                Ok(record) => self@.get(id) == Some(record@) && record.id == id,
                Err(error) => error == Error::NotFound && self@.get(id) is None,
            },
    {
        match self.notifications.get(id) {
            Some(record) => Ok(record),
            None => Err(Error::NotFound),
        }
    }

    /// A copy of all live notifications, by id.
    pub fn get_notifications(&self) -> (snapshot: HashMap<u32, Notification>)
        ensures
            records_view(snapshot@) == self@.records,
            self@.well_formed(),
    {
        self.notifications.to_map()
    }

    /// Retires every notification that has expired at `now`, and returns
    /// the closure signals that are owed for them: one for each, in no
    /// particular order.
    pub fn sweep_at(&mut self, now: i64) -> (signals: Vec<Signal>)
        ensures
            final(self)@ == old(self)@.sweep(now),
            signals@.no_duplicates(),
            signals@.to_set() == expiry_signals(old(self)@.expired(now)),
            final(self)@.well_formed(),
    {
        let ids = self.notifications.expired_ids(now);
        let mut signals: Vec<Signal> = Vec::new();
        let mut at: usize = 0;
        let ghost close = |id: u32| Signal::NotificationClosed(id, Reason::Expired);
        while at < ids.len()
            invariant
                at <= ids.len(),
                close == |id: u32| Signal::NotificationClosed(id, Reason::Expired),
                ids@.no_duplicates(),
                ids@.to_set() == old(self)@.expired(now),
                self@.last_id == old(self)@.last_id,
                self@.well_formed(),
                self@.records == old(self)@.records.remove_keys(ids@.take(at as int).to_set()),
                signals@ == ids@.take(at as int).map_values(close),
            decreases ids.len() - at,
        {
            let id: u32 = ids[at];
            let ghost done = ids@.take(at as int);
            proof {
                assert(ids@.to_set().contains(id));
                assert(!done.to_set().contains(id)) by {
                    if done.contains(id) {
                        assert(ids@[done.index_of(id)] == ids@[at as int]);
                    }
                }
                assert(ids@.take(at + 1) =~= done.push(id));
                done.lemma_push_to_set_commute(id);
                assert(old(self)@.records.remove_keys(done.to_set()).remove(id) =~= old(
                    self,
                )@.records.remove_keys(done.to_set().insert(id)));
            }
            match self.notifications.remove(id) {
                Some(_) => {
                    signals.push(Signal::NotificationClosed(id, Reason::Expired));
                },
                None => {},
            }
            at = at + 1;
        }
        proof {
            assert(ids@.take(at as int) =~= ids@);
            assert forall|signal: Signal|
                signals@.to_set().contains(signal) <==> expiry_signals(
                    old(self)@.expired(now),
                ).contains(signal) by {
                if signals@.contains(signal) {
                    assert(ids@.to_set().contains(ids@[signals@.index_of(signal)]));
                }
                if expiry_signals(old(self)@.expired(now)).contains(signal) {
                    let id = signal->NotificationClosed_0;
                    assert(signals@[ids@.index_of(id)] == signal);
                }
            }
        }
        signals
    }

    /// Retires every notification that has expired by now, by the wall
    /// clock. See [`Interface::sweep_at`].
    pub fn sweep(&mut self) -> (signals: Vec<Signal>)
        ensures
            exists|now: i64|
                final(self)@ == #[trigger] old(self)@.sweep(now) && signals@.to_set()
                    == expiry_signals(old(self)@.expired(now)),
            signals@.no_duplicates(),
            final(self)@.well_formed(),
    {
        let now: i64 = now_millis();
        self.sweep_at(now)
    }
}

} // verus!
