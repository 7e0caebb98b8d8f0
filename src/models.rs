//! The records of the board and the filter that selects them by time.
use vstd::prelude::*;

verus! {

/// A stored message: its identity and timestamp are assigned by the store.
pub struct Message {
    pub id: i32,
    pub username: String,
    pub message: String,
    pub timestamp: i64,
}

pub struct MessageView {
    pub id: int,
    pub username: Seq<char>,
    pub message: Seq<char>,
    pub timestamp: int,
}

impl View for Message {
    type V = MessageView;

    open spec fn view(&self) -> MessageView {
        MessageView {
            id: self.id as int,
            username: self.username@,
            message: self.message@,
            timestamp: self.timestamp as int,
        }
    }
}

/// A message as a client submits it, before the store gives it an identity.
pub struct NewMessage {
    pub username: String,
    pub message: String,
}

pub struct NewMessageView {
    pub username: Seq<char>,
    pub message: Seq<char>,
}

impl View for NewMessage {
    type V = NewMessageView;

    open spec fn view(&self) -> NewMessageView {
        NewMessageView { username: self.username@, message: self.message@ }
    }
}

/// An optional time window; both bounds are exclusive.
pub struct TimeRange {
    pub before: Option<i64>,
    pub after: Option<i64>,
}

/// Whether a timestamp lies strictly inside the bounds that are present.
pub open spec fn in_range(before: Option<i64>, after: Option<i64>, t: int) -> bool {
    (after matches Some(a) ==> a < t) && (before matches Some(b) ==> t < b)
}

/// The records whose timestamps lie in the window, in their order.
pub open spec fn records_in_range(range: TimeRange, s: Seq<MessageView>) -> Seq<MessageView> {
    s.filter(|m: MessageView| in_range(range.before, range.after, m.timestamp))
}

impl TimeRange {
    /// The window that lets every record through.
    pub fn unbounded() -> (r: TimeRange)
        ensures
            r.before is None,
            r.after is None,
    {
        TimeRange { before: None, after: None }
    }

    pub open spec fn spec_admits(&self, t: int) -> bool {
        in_range(self.before, self.after, t)
    }

    /// Whether the window lets a record with this timestamp through.
    pub fn admits(&self, timestamp: i64) -> (r: bool)
        ensures
            r == self.spec_admits(timestamp as int),
    {
        let above = match self.after {
            Some(a) => a < timestamp,
            None => true,
        };
        let below = match self.before {
            Some(b) => timestamp < b,
            None => true,
        };
        above && below
    }

    /// Keeps the records that the window lets through, in their order.
    pub fn select(&self, records: Vec<Message>) -> (r: Vec<Message>)
        ensures
            r@.map_values(|m: Message| m@) == records_in_range(
                *self,
                records@.map_values(|m: Message| m@),
            ),
    {
        let ghost all = records@.map_values(|m: Message| m@);
        let mut kept: Vec<Message> = Vec::new();
        let mut i: usize = 0;
        while i < records.len()
            invariant
                all == records@.map_values(|m: Message| m@),
                i <= records@.len(),
                kept@.map_values(|m: Message| m@) == records_in_range(*self, all.subrange(0, i as int)),
            decreases records.len() - i,
        {
            proof {
                let pre = all.subrange(0, i as int);
                let post = all.subrange(0, i + 1);
                assert(pre.push(all[i as int]) =~= post);
                pre.lemma_filter_push(
                    all[i as int],
                    |v: MessageView| in_range(self.before, self.after, v.timestamp),
                );
            }
            let m = &records[i];
            if self.admits(m.timestamp) {
                let copy = Message {
                    id: m.id,
                    username: m.username.clone(),
                    message: m.message.clone(),
                    timestamp: m.timestamp,
                };
                kept.push(copy);
                assert(kept@.map_values(|m: Message| m@) =~= records_in_range(
                    *self,
                    all.subrange(0, i + 1),
                ));
            }
            i = i + 1;
        }
        assert(all.subrange(0, i as int) =~= all);
        kept
    }
}

} // verus!
