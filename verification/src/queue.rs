//! A notification queue kept in a vector, looked up by id.

use crate::notification::Notification;
use vstd::prelude::*;

verus! {

/// Whether some notification in `queue` has the id `id`.
pub open spec fn has_id(queue: Seq<Notification>, id: u32) -> bool {
    exists|at: int| 0 <= at < queue.len() && (#[trigger] queue[at]).id == id
}

/// Whether `at` is the place of the first notification in `queue` with
/// the id `id`.
pub open spec fn is_first_with_id(queue: Seq<Notification>, id: u32, at: int) -> bool {
    &&& 0 <= at < queue.len()
    &&& queue[at].id == id
    &&& forall|before: int| 0 <= before < at ==> (#[trigger] queue[before]).id != id
}

/// Whether `at` is the place of the last notification in `queue` with the
/// id `id`.
pub open spec fn is_last_with_id(queue: Seq<Notification>, id: u32, at: int) -> bool {
    &&& 0 <= at < queue.len()
    &&& queue[at].id == id
    &&& forall|after: int| at < after < queue.len() ==> (#[trigger] queue[after]).id != id
}

/// Whether `at` is the place of the first notification in `queue` that
/// holds the same values as `notification`.
pub open spec fn is_first_equal(queue: Seq<Notification>, notification: Notification, at: int) -> bool {
    &&& 0 <= at < queue.len()
    &&& queue[at]@ == notification@
    &&& forall|before: int| 0 <= before < at ==> (#[trigger] queue[before])@ != notification@
}

/// Whether no two notifications in `queue` have the same id.
pub open spec fn has_unique_ids(queue: Seq<Notification>) -> bool {
    forall|first: int, second: int|
        0 <= first < second < queue.len() ==> (#[trigger] queue[first]).id != (
        #[trigger] queue[second]).id
}

/// Helper methods on a queue of notifications.
pub trait Notifications {
    /// The notifications in the queue, in order.
    spec fn queue(&self) -> Seq<Notification>;

    /// The index of the last notification with the given id.
    fn index_notification_by_id(&self, id: u32) -> (index: Option<usize>)
        ensures
            match index {
                Some(at) => is_last_with_id(self.queue(), id, at as int),
                None => !has_id(self.queue(), id),
            },
    ;

    /// The index of the first notification that equals the given one.
    fn index_notification(&self, notification: &Notification) -> (index: Option<usize>)
        ensures
            match index {
                Some(at) => is_first_equal(self.queue(), *notification, at as int),
                None => forall|at: int|
                    0 <= at < self.queue().len() ==> (#[trigger] self.queue()[at])@
                        != notification@,
            },
    ;

    /// The first notification with the given id.
    fn get_notification(&self, id: u32) -> (found: Option<&Notification>)
        ensures
            match found {
                Some(notification) => exists|at: int|
                    is_first_with_id(self.queue(), id, at) && *notification == #[trigger] self.queue()[at],
                None => !has_id(self.queue(), id),
            },
    ;

    /// Stores `replacement` under the given id: in the place of the last
    /// notification with that id, which is returned, or at the end of a
    /// queue that has none.
    fn replace_notification(&mut self, id: u32, replacement: Notification) -> (replaced: Option<
        Notification,
    >)
        ensures
            match replaced {
                Some(previous) => exists|at: int|
                    is_last_with_id(old(self).queue(), id, at) && previous == #[trigger] old(
                        self,
                    ).queue()[at] && final(self).queue() == old(self).queue().update(
                        at,
                        (Notification { id, ..replacement }),
                    ),
                None => !has_id(old(self).queue(), id) && final(self).queue() == old(
                    self,
                ).queue().push((Notification { id, ..replacement })),
            },
            has_unique_ids(old(self).queue()) ==> has_unique_ids(final(self).queue()),
    ;

    /// Takes the last notification with the given id out of the queue and
    /// returns it. A queue without such a notification stays as it is.
    fn remove_notification(&mut self, id: u32) -> (removed: Option<Notification>)
        ensures
            match removed {
                Some(previous) => exists|at: int|
                    is_last_with_id(old(self).queue(), id, at) && previous == #[trigger] old(
                        self,
                    ).queue()[at] && final(self).queue() == old(self).queue().remove(at),
                None => !has_id(old(self).queue(), id) && final(self).queue() == old(self).queue(),
            },
            has_unique_ids(old(self).queue()) ==> has_unique_ids(final(self).queue()),
    ;

    /// Adds a notification to the queue. An id that is taken is no error:
    /// the notification takes the place of the last one with its id, and
    /// the queue keeps its length. Otherwise it goes to the end. The
    /// result is always `Ok`.
    fn push_notification(&mut self, notification: Notification) -> (pushed: Result<(), String>)
        ensures
            pushed is Ok,
            has_id(old(self).queue(), notification.id) ==> exists|at: int|
                #[trigger] is_last_with_id(old(self).queue(), notification.id, at)
                    && final(self).queue() == old(self).queue().update(at, notification),
            !has_id(old(self).queue(), notification.id) ==> final(self).queue() == old(
                self,
            ).queue().push(notification),
            has_unique_ids(old(self).queue()) ==> has_unique_ids(final(self).queue()),
    ;
}

impl Notifications for Vec<Notification> {
    open spec fn queue(&self) -> Seq<Notification> {
        self@
    }

    fn index_notification_by_id(&self, id: u32) -> (index: Option<usize>) {
        let mut at: usize = self.len();
        while at > 0
            invariant
                at <= self.len(),
                forall|after: int| at <= after < self.len() ==> (#[trigger] self@[after]).id != id,
            decreases at,
        {
            at = at - 1;
            if self[at].id == id {
                return Some(at);
            }
        }
        None
    }

    fn index_notification(&self, notification: &Notification) -> (index: Option<usize>) {
        let mut at: usize = 0;
        while at < self.len()
            invariant
                at <= self.len(),
                forall|before: int|
                    0 <= before < at ==> (#[trigger] self@[before])@ != notification@,
            decreases self.len() - at,
        {
            if self[at].eq(notification) {
                return Some(at);
            }
            at = at + 1;
        }
        None
    }

    fn get_notification(&self, id: u32) -> (found: Option<&Notification>) {
        let mut at: usize = 0;
        while at < self.len()
            invariant
                at <= self.len(),
                forall|before: int| 0 <= before < at ==> (#[trigger] self@[before]).id != id,
            decreases self.len() - at,
        {
            if self[at].id == id {
                let found = &self[at];
                assert(is_first_with_id(self.queue(), id, at as int) && *found
                    == self.queue()[at as int]);
                return Some(found);
            }
            at = at + 1;
        }
        None
    }

    fn replace_notification(&mut self, id: u32, replacement: Notification) -> (replaced: Option<
        Notification,
    >) {
        let mut replacement = replacement;
        replacement.id = id;
        match self.index_notification_by_id(id) {
            Some(at) => {
                self.push(replacement);
                let previous = self.swap_remove(at);
                Some(previous)
            },
            None => {
                self.push(replacement);
                None
            },
        }
    }

    fn remove_notification(&mut self, id: u32) -> (removed: Option<Notification>) {
        match self.index_notification_by_id(id) {
            Some(at) => {
                let previous = self.remove(at);
                Some(previous)
            },
            None => None,
        }
    }

    fn push_notification(&mut self, notification: Notification) -> (pushed: Result<(), String>) {
        let id: u32 = notification.id;
        self.replace_notification(id, notification);
        Ok(())
    }
}

} // verus!
