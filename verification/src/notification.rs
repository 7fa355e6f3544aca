//! Notification records and the rule that decides when one expires.
//!
//! Instants are milliseconds since the Unix epoch, durations are
//! milliseconds.

use crate::clock::now_millis;
use vstd::prelude::*;
use vstd::std_specs::cmp::PartialEqSpecImpl;

verus! {

/// How long a low-urgency notification lives when the client leaves the
/// timeout to the server, in milliseconds.
pub const DEFAULT_TIMEOUT_LOW: u32 = 60_000;

/// How long a normal-urgency notification lives when the client leaves the
/// timeout to the server, in milliseconds.
pub const DEFAULT_TIMEOUT_NORMAL: u32 = 120_000;

/// The priority class of a notification. It only feeds the expiry rule.
#[derive(Clone, Copy, Debug, PartialEq, Eq, Structural)]
pub enum Urgency {
    Low,
    Normal,
    Critical,
    /// The client sent no urgency, or one that names no class.
    Unspecified,
}

impl Urgency {
    /// The class that a client's `urgency` hint names.
    pub open spec fn spec_from_hint(hint: Option<u32>) -> Urgency {
        match hint {
            Some(0) => Urgency::Low,
            Some(1) => Urgency::Normal,
            Some(2) => Urgency::Critical,
            _ => Urgency::Unspecified,
        }
    }

    /// The `urgency` hint that names this class, if any does.
    pub open spec fn spec_hint(&self) -> Option<u32> {
        match self {
            Urgency::Low => Some(0),
            Urgency::Normal => Some(1),
            Urgency::Critical => Some(2),
            Urgency::Unspecified => None,
        }
    }

    /// Reads the class from a client's `urgency` hint. A missing hint and
    /// a value that names no class both read as [`Urgency::Unspecified`].
    #[verifier::when_used_as_spec(spec_from_hint)]
    pub fn from_hint(hint: Option<u32>) -> (urgency: Urgency)
        ensures
            urgency == Urgency::spec_from_hint(hint),
    {
        match hint {
            Some(0) => Urgency::Low,
            Some(1) => Urgency::Normal,
            Some(2) => Urgency::Critical,
            _ => Urgency::Unspecified,
        }
    }

    /// The `urgency` hint that names this class; none for
    /// [`Urgency::Unspecified`].
    #[verifier::when_used_as_spec(spec_hint)]
    pub fn hint(&self) -> (hint: Option<u32>)
        ensures
            hint == self.spec_hint(),
            Urgency::spec_from_hint(hint) == *self,
    {
        match self {
            Urgency::Low => Some(0),
            Urgency::Normal => Some(1),
            Urgency::Critical => Some(2),
            Urgency::Unspecified => None,
        }
    }
}

/// The time to live that a request is given: none when the notification
/// never expires on its own.
///
/// A timeout of zero asks for no expiry, a positive one is taken as it
/// stands, and a negative one leaves the choice to the server, which goes
/// by the urgency.
pub open spec fn spec_resolve_expiry(requested_timeout: i32, urgency: Urgency) -> Option<u32> {
    if requested_timeout == 0 {
        None
    } else if requested_timeout > 0 {
        Some(requested_timeout as u32)
    } else {
        match urgency {
            Urgency::Critical => None,
            Urgency::Normal => Some(DEFAULT_TIMEOUT_NORMAL),
            Urgency::Low | Urgency::Unspecified => Some(DEFAULT_TIMEOUT_LOW),
        }
    }
}

/// Computes the time to live of a request from the timeout the client
/// asked for and the urgency of the notification.
#[verifier::when_used_as_spec(spec_resolve_expiry)]
pub fn resolve_expiry(requested_timeout: i32, urgency: Urgency) -> (lifetime: Option<u32>)
    ensures
        lifetime == spec_resolve_expiry(requested_timeout, urgency),
{
    if requested_timeout == 0 {
        None
    } else if requested_timeout > 0 {
        Some(requested_timeout as u32)
    } else {
        match urgency {
            Urgency::Critical => None,
            Urgency::Normal => Some(DEFAULT_TIMEOUT_NORMAL),
            Urgency::Low | Urgency::Unspecified => Some(DEFAULT_TIMEOUT_LOW),
        }
    }
}

/// A notification.
#[derive(Debug)]
pub struct Notification {
    /// The key under which the store holds the record.
    pub id: u32,
    pub app_name: String,
    pub summary: String,
    pub body: String,
    pub urgency: Urgency,
    /// When the request was accepted.
    pub created_at: i64,
    /// How long after `created_at` the record expires; none if it never
    /// does.
    pub lifetime: Option<u32>,
}

/// What a [`Notification`] holds, as plain values.
pub struct NotificationView {
    pub id: u32,
    pub app_name: Seq<char>,
    pub summary: Seq<char>,
    pub body: Seq<char>,
    pub urgency: Urgency,
    pub created_at: i64,
    pub lifetime: Option<u32>,
}

impl NotificationView {
    /// The record of a request that was accepted at `now`.
    pub open spec fn accepted(
        id: u32,
        app_name: Seq<char>,
        summary: Seq<char>,
        body: Seq<char>,
        urgency: Urgency,
        expire_timeout: i32,
        now: i64,
    ) -> NotificationView {
        NotificationView {
            id,
            app_name,
            summary,
            body,
            urgency,
            created_at: now,
            lifetime: spec_resolve_expiry(expire_timeout, urgency),
        }
    }

    /// The instant from which on the record counts as expired.
    pub open spec fn expires_at(self) -> Option<int> {
        match self.lifetime {
            Some(lifetime) => Some(self.created_at + lifetime),
            None => None,
        }
    }

    /// Whether the record has expired at `now`.
    pub open spec fn expired_at(self, now: int) -> bool {
        match self.expires_at() {
            Some(deadline) => now >= deadline,
            None => false,
        }
    }

    /// The same record under another id.
    pub open spec fn with_id(self, id: u32) -> NotificationView {
        NotificationView { id, ..self }
    }

    /// A notification of critical urgency whose timeout was left to the
    /// server never expires.
    pub proof fn lemma_critical_default_never_expires(
        id: u32,
        app_name: Seq<char>,
        summary: Seq<char>,
        body: Seq<char>,
        expire_timeout: i32,
        created_at: i64,
        now: int,
    )
        requires
            expire_timeout < 0,
        ensures
            !NotificationView::accepted(
                id,
                app_name,
                summary,
                body,
                Urgency::Critical,
                expire_timeout,
                created_at,
            ).expired_at(now),
    {
    }

    /// A notification of low urgency whose timeout was left to the server
    /// has expired from [`DEFAULT_TIMEOUT_LOW`] after its creation on, and
    /// at no instant before.
    pub proof fn lemma_low_default_expires_on_time(
        id: u32,
        app_name: Seq<char>,
        summary: Seq<char>,
        body: Seq<char>,
        expire_timeout: i32,
        created_at: i64,
        now: int,
    )
        requires
            expire_timeout < 0,
        ensures
            NotificationView::accepted(
                id,
                app_name,
                summary,
                body,
                Urgency::Low,
                expire_timeout,
                created_at,
            ).expired_at(now) <==> now >= created_at + DEFAULT_TIMEOUT_LOW,
    {
    }

    /// A notification with a timeout of its own has expired from that
    /// long after its creation on, and at no instant before; with a
    /// timeout of zero it never expires.
    pub proof fn lemma_requested_timeout_is_kept(
        id: u32,
        app_name: Seq<char>,
        summary: Seq<char>,
        body: Seq<char>,
        urgency: Urgency,
        expire_timeout: i32,
        created_at: i64,
        now: int,
    )
        requires
            expire_timeout >= 0,
        ensures
            NotificationView::accepted(
                id,
                app_name,
                summary,
                body,
                urgency,
                expire_timeout,
                created_at,
            ).expired_at(now) <==> expire_timeout > 0 && now >= created_at + expire_timeout,
    {
    }
}

impl View for Notification {
    type V = NotificationView;

    open spec fn view(&self) -> NotificationView {
        NotificationView {
            id: self.id,
            app_name: self.app_name@,
            summary: self.summary@,
            body: self.body@,
            urgency: self.urgency,
            created_at: self.created_at,
            lifetime: self.lifetime,
        }
    }
}

impl Clone for Notification {
    fn clone(&self) -> (copy: Self)
        ensures
            copy == *self,
    {
        Notification {
            id: self.id,
            app_name: self.app_name.clone(),
            summary: self.summary.clone(),
            body: self.body.clone(),
            urgency: self.urgency,
            created_at: self.created_at,
            lifetime: self.lifetime,
        }
    }
}

impl PartialEq for Notification {
    fn eq(&self, other: &Notification) -> (equal: bool) {
        self.id == other.id && self.app_name == other.app_name && self.summary == other.summary
            && self.body == other.body && self.urgency == other.urgency && self.created_at
            == other.created_at && self.lifetime == other.lifetime
    }
}

impl PartialEqSpecImpl for Notification {
    open spec fn obeys_eq_spec() -> bool {
        true
    }

    /// Two notifications are equal when they hold the same values.
    open spec fn eq_spec(&self, other: &Notification) -> bool {
        self@ == other@
    }
}

impl Notification {
    /// Builds the record of a request that is accepted at `now`.
    pub fn at(
        id: u32,
        app_name: String,
        summary: String,
        body: String,
        urgency: Urgency,
        expire_timeout: i32,
        now: i64,
    ) -> (notification: Notification)
        ensures
            notification@ == NotificationView::accepted(
                id,
                app_name@,
                summary@,
                body@,
                urgency,
                expire_timeout,
                now,
            ),
    {
        Notification {
            id,
            app_name,
            summary,
            body,
            urgency,
            created_at: now,
            lifetime: resolve_expiry(expire_timeout, urgency),
        }
    }

    /// Builds the record of a request that is accepted now, by the wall
    /// clock.
    pub fn new(
        id: u32,
        app_name: String,
        summary: String,
        body: String,
        urgency: Urgency,
        expire_timeout: i32,
    ) -> (notification: Notification)
        ensures
            notification@ == NotificationView::accepted(
                id,
                app_name@,
                summary@,
                body@,
                urgency,
                expire_timeout,
                notification.created_at,
            ),
    {
        let now: i64 = now_millis();
        Notification::at(id, app_name, summary, body, urgency, expire_timeout, now)
    }

    /// Whether the notification has expired at `now`: it has a deadline
    /// and `now` has reached it.
    pub fn expired_at(&self, now: i64) -> (expired: bool)
        ensures
            expired == self@.expired_at(now as int),
    {
        match self.lifetime {
            Some(lifetime) => (now as i128) - (self.created_at as i128) >= (lifetime as i128),
            None => false,
        }
    }

    /// Whether the notification has expired by now, by the wall clock.
    pub fn expired(&self) -> (expired: bool)
        ensures
            exists|now: i64| expired == #[trigger] self@.expired_at(now as int),
            self.lifetime is None ==> !expired,
    {
        let now: i64 = now_millis();
        self.expired_at(now)
    }

    /// The part of the notification that clients get to see.
    pub fn to_dbus(&self) -> (shown: DbusNotification)
        ensures
            shown == (DbusNotification {
                id: self.id,
                app_name: self.app_name,
                summary: self.summary,
                body: self.body,
                urgency: self.urgency,
            }),
    {
        DbusNotification {
            id: self.id,
            app_name: self.app_name.clone(),
            summary: self.summary.clone(),
            body: self.body.clone(),
            urgency: self.urgency,
        }
    }
}

/// A notification as it goes out to clients.
#[derive(Debug, PartialEq)]
pub struct DbusNotification {
    pub id: u32,
    pub app_name: String,
    pub summary: String,
    pub body: String,
    pub urgency: Urgency,
}

} // verus!
