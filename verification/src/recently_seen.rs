//! The queue of contacts that are seen recently, ordered by the time when they stop
//! being so, and the decisions of the loop that reports them when that time comes.

use vstd::prelude::*;

use crate::contact::{ContactId, SEEN_RECENTLY_SECONDS};

verus! {

/// How long the loop sleeps when no contact is waiting, in seconds: one day.
pub const IDLE_SLEEP_SECONDS: u64 = 86400;

/// Contacts that are seen recently, each with the time (Unix seconds) when it stops
/// being seen recently.
#[derive(Debug, Clone)]
pub struct UnseenQueue {
    entries: Vec<(i64, u32)>,
}

/// Entry `i` of `s` is the one to take next: no entry is due earlier, and among those
/// due at the same time it has the largest contact ID.
pub open spec fn is_next(s: Seq<(i64, u32)>, i: int) -> bool {
    &&& 0 <= i < s.len()
    &&& forall|j: int|
        0 <= j < s.len() ==> (#[trigger] s[j]).0 > s[i].0 || (s[j].0 == s[i].0 && s[j].1 <= s[i].1)
}

/// What the loop does next.
#[derive(Debug, Clone, Copy, PartialEq, Eq, Structural)]
pub enum WaitPlan {
    /// Wait this many seconds for an interrupt; when they pass, report the contact, if
    /// one is named.
    Wait { seconds: u64, contact: Option<ContactId> },
    /// The time of the next contact has passed already: report it at once.
    Due { contact: ContactId },
}

impl UnseenQueue {
    /// The entries, as pairs of time and contact ID.
    pub closed spec fn view(&self) -> Seq<(i64, u32)> {
        self.entries@
    }

    /// An empty queue.
    pub fn new() -> (r: UnseenQueue)
        ensures
            r.view() == Seq::<(i64, u32)>::empty(),
    {
        UnseenQueue { entries: Vec::new() }
    }

    /// The number of contacts waiting.
    pub fn len(&self) -> (r: usize)
        ensures
            r == self.view().len(),
    {
        self.entries.len()
    }

    /// Adds a contact last seen at `last_seen`: it stops being seen recently ten minutes
    /// later.
    pub fn push(&mut self, contact_id: ContactId, last_seen: i64)
        requires
            last_seen <= i64::MAX - SEEN_RECENTLY_SECONDS,
        ensures
            final(self).view() == old(self).view().push(
                ((last_seen + SEEN_RECENTLY_SECONDS) as i64, contact_id.id()),
            ),
    {
        self.entries.push((last_seen + SEEN_RECENTLY_SECONDS, contact_id.to_u32()));
    }

    fn next_index(&self) -> (r: Option<usize>)
        ensures
            r is None <==> self.view().len() == 0,
            r matches Some(i) ==> is_next(self.view(), i as int),
    {
        if self.entries.len() == 0 {
            return None;
        }
        let mut best: usize = 0;
        let mut i: usize = 1;
        while i < self.entries.len()
            invariant
                0 <= best < i <= self.entries@.len(),
                forall|j: int|
                    0 <= j < i ==> (#[trigger] self.entries@[j]).0 > self.entries@[best as int].0 || (
                    self.entries@[j].0 == self.entries@[best as int].0 && self.entries@[j].1
                        <= self.entries@[best as int].1),
            decreases self.entries@.len() - i,
        {
            let (t, c) = self.entries[i];
            let (bt, bc) = self.entries[best];
            if t < bt || (t == bt && c > bc) {
                best = i;
            }
            i = i + 1;
        }
        Some(best)
    }

    /// The contact to report next and its time, if any.
    pub fn peek(&self) -> (r: Option<(i64, ContactId)>)
        ensures
            r is None <==> self.view().len() == 0,
            r matches Some(x) ==> exists|i: int|
                is_next(self.view(), i) && self.view()[i] == (x.0, x.1.id()),
    {
        match self.next_index() {
            Some(i) => {
                let (t, c) = self.entries[i];
                let r = (t, ContactId::new(c));
                proof {
                    assert(is_next(self.view(), i as int) && self.view()[i as int] == (r.0, r.1.id()));
                }
                Some(r)
            },
            None => None,
        }
    }

    /// Takes the next contact out of the queue; none where the queue is empty.
    pub fn pop(&mut self) -> (r: Option<ContactId>)
        ensures
            old(self).view().len() == 0 ==> r is None && final(self).view() == old(self).view(),
            old(self).view().len() > 0 ==> exists|i: int|
                is_next(old(self).view(), i) && r == Some(ContactId::spec_new(old(self).view()[i].1))
                    && final(self).view() == old(self).view().remove(i),
    {
        match self.next_index() {
            Some(i) => {
                let (_t, c) = self.entries.remove(i);
                let r = ContactId::new(c);
                proof {
                    ContactId::lemma_spec_new_id(c);
                    crate::contact::lemma_contact_id_eq(r, ContactId::spec_new(c));
                    assert(is_next(old(self).view(), i as int) && Some(r) == Some(
                        ContactId::spec_new(old(self).view()[i as int].1),
                    ) && self.view() == old(self).view().remove(i as int));
                }
                Some(r)
            },
            None => None,
        }
    }

    /// What the loop does next at time `now`: where no contact waits, it sleeps a day;
    /// else it waits until one second after the next contact's time, or reports that
    /// contact at once where that moment has passed.
    pub fn wait_plan(&self, now: i64) -> (r: WaitPlan)
        ensures
            self.view().len() == 0 ==> r == (WaitPlan::Wait { seconds: IDLE_SLEEP_SECONDS, contact: None }),
            self.view().len() > 0 ==> exists|i: int|
                is_next(self.view(), i) && r == (if self.view()[i].0 + 1 >= now {
                    (WaitPlan::Wait {
                        seconds: (self.view()[i].0 + 1 - now) as u64,
                        contact: Some(ContactId::spec_new(self.view()[i].1)),
                    })
                } else {
                    (WaitPlan::Due { contact: ContactId::spec_new(self.view()[i].1) })
                }),
    {
        match self.next_index() {
            None => WaitPlan::Wait { seconds: IDLE_SLEEP_SECONDS, contact: None },
            Some(i) => {
                let (t, c) = self.entries[i];
                let id = ContactId::new(c);
                proof {
                    ContactId::lemma_spec_new_id(c);
                    crate::contact::lemma_contact_id_eq(id, ContactId::spec_new(c));
                }
                let until: i128 = (t as i128) + 1;
                if until >= now as i128 {
                    let secs = (until - now as i128) as u64;
                    WaitPlan::Wait { seconds: secs, contact: Some(id) }
                } else {
                    WaitPlan::Due { contact: id }
                }
            },
        }
    }

    /// An interrupt for `contact_id`, seen at `timestamp`: the contact is queued, unless
    /// the ID is undefined.
    pub fn on_interrupt(&mut self, contact_id: ContactId, timestamp: i64)
        requires
            timestamp <= i64::MAX - SEEN_RECENTLY_SECONDS,
        ensures
            contact_id.id() == 0 ==> final(self).view() == old(self).view(),
            contact_id.id() != 0 ==> final(self).view() == old(self).view().push(
                ((timestamp + SEEN_RECENTLY_SECONDS) as i64, contact_id.id()),
            ),
    {
        if contact_id.to_u32() != 0 {
            self.push(contact_id, timestamp);
        }
    }
}

} // verus!
