//! Inputs of the relay lottery and of the in-process talk net.

use crate::state::{missing, missing_message, Service};
use crate::sync::{company_hex, opt_view, present, prior_commit, prior_commit_of, zero_commit};
use crate::text::{byte_hex, byte_hex_text, lemma_repeated_len, repeat_text, repeated};
use vstd::prelude::*;

verus! {

/// A request for a relay plan or a talk net, as the client sent it.
pub struct PlanBody {
    pub epoch: u64,
    pub candidates: Vec<String>,
    pub prior_commit: Option<String>,
    pub company: Option<String>,
    pub relay_count: Option<usize>,
}

/// The arguments of a relay plan or a talk net, defaults filled in.
pub struct NetPlan {
    pub epoch: u64,
    pub prior_commit: String,
    pub candidates: Vec<String>,
    pub company: Option<String>,
    pub relay_count: Option<usize>,
}

/// The views of a list of strings.
pub open spec fn texts(list: Seq<String>) -> Seq<Seq<char>> {
    list.map_values(|text: String| text@)
}

/// The view of an optional owned string.
pub open spec fn opt_string(value: Option<String>) -> Option<Seq<char>> {
    match value {
        Some(text) => Some(text@),
        None => None,
    }
}

/// The first byte of the fixed fallback relays.
pub open spec fn first_fallback_byte() -> int {
    10
}

/// The number of fixed fallback relays.
pub open spec fn fallback_count() -> int {
    7
}

/// The fixed fallback relay `i`: the byte `10 + i` repeated 32 times, in hex.
pub open spec fn fallback_relay(i: int) -> Seq<char> {
    repeated(byte_hex((first_fallback_byte() + i) as u8), 32)
}

/// Who may relay for the talk net of an account: the account itself, then
/// its contacts in order, then the fixed fallback relays.
pub open spec fn talk_candidates_of(me: Seq<char>, contacts: Seq<Seq<char>>) -> Seq<Seq<char>> {
    seq![me] + contacts + Seq::new(fallback_count() as nat, |i: int| fallback_relay(i))
}

/// Pushing a string pushes its view.
proof fn lemma_texts_push(list: Seq<String>, text: String)
    ensures
        texts(list.push(text)) == texts(list).push(text@),
{
    assert(texts(list.push(text)) =~= texts(list).push(text@));
}

impl PlanBody {
    /// The plan with its defaults filled in: the prior commit defaults to
    /// 32 zero bytes in hex, and an empty company means none.
    pub fn resolve(&self) -> (plan: NetPlan)
        ensures
            plan.epoch == self.epoch,
            plan.prior_commit@ == prior_commit_of(opt_string(self.prior_commit)),
            texts(plan.candidates@) == texts(self.candidates@),
            opt_string(plan.company) == present(opt_string(self.company)),
            plan.relay_count == self.relay_count,
    {
        let prior = match &self.prior_commit {
            Some(text) => prior_commit(Some(text.as_str())),
            None => prior_commit(None),
        };
        let company = match &self.company {
            Some(text) => match company_hex(Some(text.as_str())) {
                Some(found) => Some(found.to_owned()),
                None => None,
            },
            None => None,
        };
        NetPlan {
            epoch: self.epoch,
            prior_commit: prior,
            candidates: copy_texts(&self.candidates),
            company,
            relay_count: self.relay_count,
        }
    }
}

/// A copy of a list of strings.
fn copy_texts(list: &Vec<String>) -> (copy: Vec<String>)
    ensures
        texts(copy@) == texts(list@),
{
    let mut copy: Vec<String> = Vec::new();
    assert(texts(copy@) =~= texts(list@).take(0));
    let mut i: usize = 0;
    while i < list.len()
        invariant
            i <= list.len(),
            texts(copy@) == texts(list@).take(i as int),
        decreases list.len() - i,
    {
        let ghost before = copy@;
        copy.push(list[i].clone());
        proof {
            lemma_texts_push(before, list@[i as int]);
            assert(texts(list@).take(i + 1) =~= texts(list@).take(i as int).push(list@[i as int]@));
        }
        i = i + 1;
    }
    assert(texts(list@).take(list.len() as int) =~= texts(list@));
    copy
}

/// The candidates of the talk net that the host opens for an account by
/// itself: the account, its contacts, then the seven fixed fallback relays
/// `0a..0a` to `10..10`.
pub fn talk_candidates(me: &str, contacts: &Vec<String>) -> (candidates: Vec<String>)
    ensures
        texts(candidates@) == talk_candidates_of(me@, texts(contacts@)),
{
    let mut candidates: Vec<String> = Vec::new();
    let first = me.to_owned();
    candidates.push(first);
    proof {
        lemma_texts_push(Seq::empty(), first);
        assert(texts(contacts@).take(0) =~= Seq::<Seq<char>>::empty());
        assert(texts(candidates@) =~= seq![me@] + texts(contacts@).take(0));
    }
    let mut i: usize = 0;
    while i < contacts.len()
        invariant
            i <= contacts.len(),
            texts(candidates@) == seq![me@] + texts(contacts@).take(i as int),
        decreases contacts.len() - i,
    {
        let ghost before = candidates@;
        candidates.push(contacts[i].clone());
        proof {
            lemma_texts_push(before, contacts@[i as int]);
            assert(texts(contacts@).take(i + 1) =~= texts(contacts@).take(i as int).push(
                contacts@[i as int]@,
            ));
            assert(texts(candidates@) =~= seq![me@] + texts(contacts@).take(i + 1));
        }
        i = i + 1;
    }
    assert(texts(contacts@).take(contacts.len() as int) =~= texts(contacts@));
    let ghost base = seq![me@] + texts(contacts@);
    let mut byte: u8 = 10;
    while byte <= 16
        invariant
            10 <= byte <= 17,
            texts(candidates@) == base + Seq::new((byte - 10) as nat, |i: int| fallback_relay(i)),
        decreases 17 - byte,
    {
        let pair = byte_hex_text(byte);
        let relay = repeat_text(pair.as_str(), 32);
        let ghost before = candidates@;
        candidates.push(relay);
        proof {
            lemma_texts_push(before, relay);
            assert(fallback_relay((byte - 10) as int) == relay@);
        }
        assert(texts(candidates@) =~= base + Seq::new((byte + 1 - 10) as nat, |i: int| fallback_relay(i)));
        byte = byte + 1;
    }
    candidates
}

/// The talk net of an account always lists the account first, then every
/// contact in order, then the seven fallback relays, each 64 characters.
pub proof fn law_talk_candidates(me: Seq<char>, contacts: Seq<Seq<char>>)
    ensures
        talk_candidates_of(me, contacts).len() == contacts.len() + 8,
        talk_candidates_of(me, contacts)[0] == me,
        forall|i: int|
            0 <= i < contacts.len() ==> talk_candidates_of(me, contacts)[i + 1] == contacts[i],
        forall|i: int|
            0 <= i < fallback_count() ==> (#[trigger] fallback_relay(i)).len() == 64
                && talk_candidates_of(me, contacts)[contacts.len() + 1 + i] == fallback_relay(i),
{
    assert forall|i: int| 0 <= i < fallback_count() implies (#[trigger] fallback_relay(i)).len() == 64 by {
        lemma_repeated_len(byte_hex((first_fallback_byte() + i) as u8), 32);
    }
}

/// The plan of the talk net that the host opens for an account by itself:
/// epoch 1, the zero prior commit, no company, two relays.
pub open spec fn is_default_talk_plan(plan: NetPlan, me: Seq<char>, contacts: Seq<Seq<char>>) -> bool {
    &&& plan.epoch == 1
    &&& plan.prior_commit@ == zero_commit()
    &&& texts(plan.candidates@) == talk_candidates_of(me, contacts)
    &&& plan.company is None
    &&& plan.relay_count == Some(2usize)
}

/// The default talk plan of an account lists the account, then every one of
/// its contacts at the next positions in order, then the seven fallback
/// relays: `contacts.len() + 8` candidates in all.
pub proof fn law_default_plan_lists_every_contact(
    plan: NetPlan,
    me: Seq<char>,
    contacts: Seq<Seq<char>>,
)
    requires
        is_default_talk_plan(plan, me, contacts),
    ensures
        texts(plan.candidates@).len() == contacts.len() + 8,
        texts(plan.candidates@)[0] == me,
        forall|i: int| 0 <= i < contacts.len() ==> #[trigger] texts(plan.candidates@)[i + 1] == contacts[i],
        forall|j: int| 0 <= j < 7 ==> #[trigger] texts(plan.candidates@)[contacts.len() + 1 + j]
            == repeated(byte_hex((10 + j) as u8), 32),
        plan.epoch == 1,
        plan.company is None,
        plan.relay_count == Some(2usize),
{
    law_talk_candidates(me, contacts);
}

/// What the host must do before a talk request: nothing when the net is
/// already open; refuse without an unlocked session; else open the default
/// net for the account `me` with its contacts.
pub fn talk_setup(talk_open: bool, me: Option<&str>, contacts: &Vec<String>) -> (setup: Result<
    Option<NetPlan>,
    String,
>)
    ensures
        talk_open ==> setup == Ok::<Option<NetPlan>, String>(None),
        !talk_open && me is None ==> (setup matches Err(error) && error@ == missing_message(
            Service::Session,
        )),
        !talk_open && me is Some ==> (setup matches Ok(Some(plan)) && is_default_talk_plan(
            plan,
            me->0@,
            texts(contacts@),
        )),
        setup matches Ok(Some(plan)) ==> texts(plan.candidates@).len() == contacts@.len() + 8
            && me is Some && texts(plan.candidates@)[0] == me->0@ && forall|i: int|
            0 <= i < contacts@.len() ==> #[trigger] texts(plan.candidates@)[i + 1] == contacts@[i]@,
{
    if talk_open {
        return Ok(None);
    }
    match me {
        None => Err(missing(Service::Session)),
        Some(me) => Ok(
            Some(
                NetPlan {
                    epoch: 1,
                    prior_commit: repeat_text("00", 32),
                    candidates: talk_candidates(me, contacts),
                    company: None,
                    relay_count: Some(2),
                },
            ),
        ),
    }
}

} // verus!
