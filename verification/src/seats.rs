//! Unlocked sessions, each held under the seat its client was given.
//! A request reaches a session only through that session's seat.

use crate::state::{missing, missing_message, Service};
use crate::text::same_text;
use vstd::prelude::*;

verus! {

/// The session last seated under `seat` in `entries`, if any.
pub open spec fn seated_in<S>(entries: Seq<(String, S)>, seat: Seq<char>) -> Option<S>
    decreases entries.len(),
{
    if entries.len() == 0 {
        None
    } else if entries.last().0@ == seat {
        Some(entries.last().1)
    } else {
        seated_in(entries.drop_last(), seat)
    }
}

/// Sessions by seat.
pub struct SeatBook<S> {
    entries: Vec<(String, S)>,
}

impl<S> SeatBook<S> {
    /// The session under `seat`, if any. The empty seat holds none.
    pub closed spec fn seated(self, seat: Seq<char>) -> Option<S> {
        if seat.len() == 0 {
            None
        } else {
            seated_in(self.entries@, seat)
        }
    }

    /// A caller without a seat reaches no session, whatever was seated
    /// before it: nobody inherits the last account.
    pub proof fn law_no_session_without_seat(self)
        ensures
            self.seated(Seq::empty()) is None,
    {
    }

    /// A book with no session.
    pub fn new() -> (book: Self)
        ensures
            forall|seat: Seq<char>| #[trigger] book.seated(seat) is None,
    {
        SeatBook { entries: Vec::new() }
    }

    /// Seats `session` under `seat`, replacing whatever sat there. The empty
    /// seat is refused and the session handed back.
    pub fn seat(&mut self, seat: String, session: S) -> (refused: Option<S>)
        ensures
            seat@.len() == 0 ==> refused == Some(session),
            seat@.len() == 0 ==> forall|other: Seq<char>|
                #[trigger] final(self).seated(other) == old(self).seated(other),
            seat@.len() > 0 ==> refused is None,
            seat@.len() > 0 ==> forall|other: Seq<char>| #[trigger]
                final(self).seated(other) == if other == seat@ {
                    Some(session)
                } else {
                    old(self).seated(other)
                },
    {
        if seat.as_str().is_empty() {
            return Some(session);
        }
        let ghost prev = self.entries@;
        let ghost key = seat@;
        self.entries.push((seat, session));
        proof {
            assert(self.entries@.drop_last() =~= prev);
            assert forall|other: Seq<char>| other.len() > 0 implies #[trigger]
                seated_in(self.entries@, other) == if other == key {
                    Some(session)
                } else {
                    seated_in(prev, other)
                } by {}
        }
        None
    }

    /// The position of the session that `seated` names, counting from the
    /// end of `entries[..end]`.
    fn position(&self, seat: &str) -> (at: Option<usize>)
        ensures
            match at {
                Some(i) => i < self.entries@.len() && seated_in(self.entries@, seat@) == Some(
                    self.entries@[i as int].1,
                ) && self.entries@[i as int].0@ == seat@ && forall|j: int|
                    i < j < self.entries@.len() ==> (#[trigger] self.entries@[j]).0@ != seat@,
                None => seated_in(self.entries@, seat@) is None,
            },
    {
        let mut end = self.entries.len();
        assert(self.entries@.take(end as int) =~= self.entries@);
        while end > 0
            invariant
                end <= self.entries@.len(),
                seated_in(self.entries@, seat@) == seated_in(self.entries@.take(end as int), seat@),
                forall|j: int| end <= j < self.entries@.len() ==> (#[trigger] self.entries@[j]).0@ != seat@,
            decreases end,
        {
            let i = end - 1;
            let ghost prefix = self.entries@.take(end as int);
            assert(prefix.drop_last() =~= self.entries@.take(i as int));
            assert(prefix.last() == self.entries@[i as int]);
            if same_text(self.entries[i].0.as_str(), seat) {
                return Some(i);
            }
            end = i;
        }
        None
    }

    /// The session under `seat`, or "no unlocked session".
    pub fn find(&self, seat: &str) -> (found: Result<&S, String>)
        ensures
            match self.seated(seat@) {
                Some(session) => found matches Ok(s) && *s == session,
                None => found matches Err(error) && error@ == missing_message(Service::Session),
            },
            seat@.len() == 0 ==> found is Err,
    {
        if seat.is_empty() {
            return Err(missing(Service::Session));
        }
        match self.position(seat) {
            Some(i) => Ok(&self.entries[i].1),
            None => Err(missing(Service::Session)),
        }
    }

    /// The session under `seat`, borrowed for change, or "no unlocked
    /// session". Only that seat's session can change.
    pub fn find_mut(&mut self, seat: &str) -> (found: Result<&mut S, String>)
        ensures
            match old(self).seated(seat@) {
                Some(session) => found matches Ok(s) && *s == session && forall|other: Seq<char>|
                    #[trigger] final(self).seated(other) == if other == seat@ {
                        Some(*final(s))
                    } else {
                        old(self).seated(other)
                    },
                None => (found matches Err(error) && error@ == missing_message(Service::Session))
                    && forall|other: Seq<char>| #[trigger]
                    final(self).seated(other) == old(self).seated(other),
            },
            seat@.len() == 0 ==> found is Err,
    {
        if seat.is_empty() {
            return Err(missing(Service::Session));
        }
        match self.position(seat) {
            Some(i) => {
                proof {
                    let entries = self.entries@;
                    assert forall|session: S, other: Seq<char>| #[trigger]
                        seated_in(entries.update(i as int, (entries[i as int].0, session)), other)
                            == if other == seat@ {
                            Some(session)
                        } else {
                            seated_in(entries, other)
                        } by {
                        lemma_update_last(entries, seat@, i as int, session);
                    }
                }
                let entry = &mut self.entries[i];
                Ok(&mut entry.1)
            },
            None => Err(missing(Service::Session)),
        }
    }
}

/// Changing the session of the last entry under `seat` changes what that
/// seat finds, and nothing else.
proof fn lemma_update_last<S>(entries: Seq<(String, S)>, seat: Seq<char>, i: int, session: S)
    requires
        0 <= i < entries.len(),
        entries[i].0@ == seat,
        forall|j: int| i < j < entries.len() ==> (#[trigger] entries[j]).0@ != seat,
    ensures
        forall|other: Seq<char>| #[trigger]
            seated_in(entries.update(i, (entries[i].0, session)), other) == if other == seat {
                Some(session)
            } else {
                seated_in(entries, other)
            },
    decreases entries.len(),
{
    let updated = entries.update(i, (entries[i].0, session));
    assert(updated.len() == entries.len());
    if i == entries.len() - 1 {
        assert(updated.drop_last() =~= entries.drop_last());
        assert(updated.last() == (entries[i].0, session));
        assert forall|other: Seq<char>| #[trigger] seated_in(updated, other) == if other == seat {
            Some(session)
        } else {
            seated_in(entries, other)
        } by {
            assert(entries.last() == entries[i]);
        }
    } else {
        let rest = entries.drop_last();
        assert(entries.last() == entries[entries.len() - 1]);
        assert(updated.last() == entries.last());
        assert(entries.last().0@ != seat);
        assert(updated.drop_last() =~= rest.update(i, (rest[i].0, session)));
        assert forall|j: int| i < j < rest.len() implies (#[trigger] rest[j]).0@ != seat by {
            assert(rest[j] == entries[j]);
        }
        lemma_update_last(rest, seat, i, session);
        assert forall|other: Seq<char>| #[trigger] seated_in(updated, other) == if other == seat {
            Some(session)
        } else {
            seated_in(entries, other)
        } by {
            assert(seated_in(rest.update(i, (rest[i].0, session)), other) == if other == seat {
                Some(session)
            } else {
                seated_in(rest, other)
            });
        }
    }
}

} // verus!
