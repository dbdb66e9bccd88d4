//! Notifications shown for a few seconds in the corner of the screen.

use vstd::prelude::*;
use crate::models::Notification;
use std::time::{Duration, Instant};

verus! {

#[verifier::external_type_specification]
#[verifier::external_body]
pub struct ExInstant(Instant);

/// The current instant (`Instant::now`); nothing is known of it.
#[verifier::external_body]
fn instant_now() -> Instant {
    Instant::now()
}

/// The time elapsed since `t` (`Instant::elapsed`); it depends on the
/// clock, so nothing is stated of it.
#[verifier::external_body]
fn elapsed(t: &Instant) -> Duration {
    t.elapsed()
}

/// The whole milliseconds of a duration (`Duration::as_millis`).
#[verifier::external_body]
fn duration_millis(d: &Duration) -> u128 {
    d.as_millis()
}

/// How long a notification stays, in milliseconds.
pub const NOTIFICATION_LIFETIME_MS: u128 = 5000;

/// The entries of `s` whose flag in `keep` is set, in order.
pub open spec fn kept<T>(s: Seq<T>, keep: Seq<bool>) -> Seq<T>
    decreases s.len(),
{
    if s.len() == 0 || keep.len() == 0 {
        seq![]
    } else {
        let rest = kept(s.drop_last(), keep.drop_last());
        if keep.last() { rest.push(s.last()) } else { rest }
    }
}

/// For each age in milliseconds, whether a notification of that age is
/// still shown.
pub open spec fn young_flags(ages: Seq<u128>) -> Seq<bool> {
    ages.map_values(|a: u128| a < NOTIFICATION_LIFETIME_MS)
}

/// The notifications being shown, each with the time it arrived.
pub struct NotificationList {
    notifications: Vec<(Notification, Instant)>,
}

impl View for NotificationList {
    type V = Seq<Notification>;

    closed spec fn view(&self) -> Seq<Notification> {
        self.notifications@.map_values(|p: (Notification, Instant)| p.0)
    }
}

impl NotificationList {
    /// No notifications.
    pub fn new() -> (l: Self)
        ensures
            l@ == Seq::<Notification>::empty(),
    {
        let l = NotificationList { notifications: Vec::new() };
        assert(l@ =~= Seq::<Notification>::empty());
        l
    }

    /// Shows a notification, after those shown already.
    pub fn push(&mut self, notification: Notification)
        ensures
            final(self)@ == old(self)@.push(notification),
    {
        let now = instant_now();
        self.notifications.push((notification, now));
        assert(self@ =~= old(self)@.push(notification));
    }

    /// How many milliseconds ago each notification arrived, oldest first;
    /// the ages depend on the clock, so only their number is stated.
    pub fn ages_ms(&self) -> (ages: Vec<u128>)
        ensures
            ages@.len() == self@.len(),
    {
        let mut ages: Vec<u128> = Vec::new();
        let mut i: usize = 0;
        while i < self.notifications.len()
            invariant
                i <= self.notifications.len(),
                ages@.len() == i,
            decreases self.notifications.len() - i,
        {
            let age = elapsed(&self.notifications[i].1);
            ages.push(duration_millis(&age));
            i = i + 1;
        }
        ages
    }

    /// Given the age of each notification in milliseconds, oldest first,
    /// keeps exactly those younger than five seconds, in order; tells
    /// whether any was removed.
    pub fn retain_younger(&mut self, ages_ms: &Vec<u128>) -> (changed: bool)
        requires
            ages_ms@.len() == old(self)@.len(),
        ensures
            final(self)@ == kept(old(self)@, young_flags(ages_ms@)),
            changed == (final(self)@.len() != old(self)@.len()),
    {
        let before = self.notifications.len();
        let mut taken: Vec<(Notification, Instant)> = Vec::new();
        std::mem::swap(&mut taken, &mut self.notifications);
        let ghost old_seq = taken@.map_values(|p: (Notification, Instant)| p.0);
        let mut remaining: Vec<(Notification, Instant)> = Vec::new();
        let mut rest = taken;
        // walk from the front; `rest` holds the entries not yet seen
        let ghost all = rest@;
        let n: usize = ages_ms.len();
        let mut i: usize = 0;
        while rest.len() > 0
            invariant
                n == ages_ms@.len(),
                0 <= i <= all.len(),
                all.len() == ages_ms@.len(),
                i + rest.len() == all.len(),
                rest@ == all.subrange(i as int, all.len() as int),
                remaining@.map_values(|p: (Notification, Instant)| p.0) == kept(
                    all.take(i as int).map_values(|p: (Notification, Instant)| p.0),
                    young_flags(ages_ms@.take(i as int)),
                ),
            decreases rest.len(),
        {
            let ghost rest_before = rest@;
            let entry = rest.remove(0);
            proof {
                assert(rest_before[0] == all[i as int]);
                assert(rest@ =~= all.subrange(i + 1, all.len() as int));
            }
            let young = ages_ms[i] < NOTIFICATION_LIFETIME_MS;
            if young {
                remaining.push(entry);
            }
            proof {
                let t = all.take(i + 1).map_values(|p: (Notification, Instant)| p.0);
                let k = young_flags(ages_ms@.take(i + 1));
                assert(t.drop_last() =~= all.take(i as int).map_values(|p: (Notification, Instant)| p.0));
                assert(k.drop_last() =~= young_flags(ages_ms@.take(i as int)));
                assert(k.last() == young);
                assert(t.last() == all[i as int].0);
                assert(remaining@.map_values(|p: (Notification, Instant)| p.0) =~= kept(t, k));
            }
            i = i + 1;
        }
        assert(all.take(all.len() as int) =~= all);
        assert(ages_ms@.take(all.len() as int) =~= ages_ms@);
        self.notifications = remaining;
        assert(old_seq == old(self)@);
        self.notifications.len() != before
    }

    /// Removes the notifications that arrived five seconds ago or earlier,
    /// keeping the order of the others; tells whether any was removed.
    /// Which ones those are depends on the clock: the list left is the one
    /// `retain_younger` leaves for some ages of the notifications.
    pub fn tick(&mut self) -> (changed: bool)
        ensures
            exists|ages: Seq<u128>| ages.len() == old(self)@.len() && final(self)@ == kept(old(self)@, young_flags(ages)),
            changed == (final(self)@.len() != old(self)@.len()),
    {
        let ages = self.ages_ms();
        self.retain_younger(&ages)
    }

    /// The notifications being shown, oldest first.
    pub fn notifications(&self) -> (r: Vec<&Notification>)
        ensures
            r.len() == self@.len(),
            forall|i: int| 0 <= i < r.len() ==> *#[trigger] r[i] == self@[i],
    {
        let mut r: Vec<&Notification> = Vec::new();
        let mut i: usize = 0;
        while i < self.notifications.len()
            invariant
                i <= self.notifications.len(),
                r.len() == i,
                forall|k: int| 0 <= k < i ==> *#[trigger] r[k] == self@[k],
            decreases self.notifications.len() - i,
        {
            r.push(&self.notifications[i].0);
            i = i + 1;
        }
        r
    }
}

/// The title of a notification's box: its kind.
pub open spec fn spec_notification_title(n: Notification) -> &'static str {
    match n {
        Notification::Error(_) => "Error",
        Notification::Warning(_) => "Warning",
        Notification::Success(_) => "Success",
        Notification::Info(_) => "Info",
    }
}

/// The title of a notification's box and its message.
pub fn notification_parts(n: &Notification) -> (r: (&'static str, &String))
    ensures
        r.0 == spec_notification_title(*n),
        *r.1 == match *n {
            Notification::Error(m) => m,
            Notification::Warning(m) => m,
            Notification::Success(m) => m,
            Notification::Info(m) => m,
        },
{
    match n {
        Notification::Error(m) => ("Error", m),
        Notification::Warning(m) => ("Warning", m),
        Notification::Success(m) => ("Success", m),
        Notification::Info(m) => ("Info", m),
    }
}

/// The box of a notification is titled by its kind, whatever its message:
/// "Error", "Warning", "Success" or "Info"; the four titles differ.
pub proof fn lemma_notification_titles(m: String)
    ensures
        spec_notification_title(Notification::Error(m))@ == "Error"@,
        spec_notification_title(Notification::Warning(m))@ == "Warning"@,
        spec_notification_title(Notification::Success(m))@ == "Success"@,
        spec_notification_title(Notification::Info(m))@ == "Info"@,
        forall|a: Notification, b: Notification|
            spec_notification_title(a)@ == spec_notification_title(b)@ ==> (a is Error <==> b is Error)
                && (a is Warning <==> b is Warning) && (a is Success <==> b is Success) && (a is Info <==> b is Info),
{
    reveal_strlit("Error");
    reveal_strlit("Warning");
    reveal_strlit("Success");
    reveal_strlit("Info");
    assert("Error"@ != "Info"@) by { assert("Error"@[0] != "Info"@[0]); }
    assert("Error"@ != "Warning"@) by { assert("Error"@[0] != "Warning"@[0]); }
    assert("Error"@ != "Success"@) by { assert("Error"@[0] != "Success"@[0]); }
    assert("Warning"@ != "Success"@) by { assert("Warning"@[0] != "Success"@[0]); }
    assert("Warning"@ != "Info"@) by { assert("Warning"@[0] != "Info"@[0]); }
    assert("Success"@ != "Info"@) by { assert("Success"@[0] != "Info"@[0]); }
}

} // verus!
