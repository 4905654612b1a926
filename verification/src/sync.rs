//! Epoch relay lottery inputs. The company host is never required.

use crate::text::{lemma_repeated_chars, lemma_repeated_len, repeat_text, repeated};
use vstd::prelude::*;

verus! {

/// The prior commit used when none is given: 32 zero bytes in hex.
pub open spec fn zero_commit() -> Seq<char> {
    repeated("00"@, 32)
}

/// An optional text field, with the empty text read as absent.
pub open spec fn present(value: Option<Seq<char>>) -> Option<Seq<char>> {
    match value {
        Some(text) => if text.len() == 0 { None } else { Some(text) },
        None => None,
    }
}

/// The prior commit for a plan: the given one, or `zero_commit()`.
pub open spec fn prior_commit_of(value: Option<Seq<char>>) -> Seq<char> {
    match present(value) {
        Some(text) => text,
        None => zero_commit(),
    }
}

/// The view of an optional borrowed string.
pub open spec fn opt_view(value: Option<&str>) -> Option<Seq<char>> {
    match value {
        Some(text) => Some(text@),
        None => None,
    }
}

/// The prior commit: the given text when it is present and not empty,
/// else 32 zero bytes in hex.
pub fn prior_commit(value: Option<&str>) -> (commit: String)
    ensures
        commit@ == prior_commit_of(opt_view(value)),
        value is Some && value->0@.len() > 0 ==> commit@ == value->0@,
        (value is None || value->0@.len() == 0) ==> commit@ == zero_commit(),
{
    match value {
        Some(text) => {
            if text.is_empty() {
                repeat_text("00", 32)
            } else {
                text.to_owned()
            }
        },
        None => repeat_text("00", 32),
    }
}

/// The company host: the given text when it is present and not empty.
pub fn company_hex(value: Option<&str>) -> (company: Option<&str>)
    ensures
        opt_view(company) == present(opt_view(value)),
        company matches Some(text) ==> value == Some(text),
        value is Some && value->0@.len() > 0 ==> company == value,
        company is None ==> (value is None || value->0@.len() == 0),
{
    match value {
        Some(text) => {
            if text.is_empty() {
                None
            } else {
                Some(text)
            }
        },
        None => None,
    }
}

/// The default prior commit is 64 characters, every one of them '0'.
pub proof fn lemma_zero_commit()
    ensures
        zero_commit().len() == 64,
        forall|i: int| 0 <= i < 64 ==> zero_commit()[i] == '0',
{
    reveal_strlit("00");
    lemma_repeated_len("00"@, 32);
    assert forall|i: int| 0 <= i < 64 implies zero_commit()[i] == '0' by {
        lemma_repeated_chars("00"@, 32, i);
    }
}

/// Filling in the prior commit is settled in one step: the result is never
/// empty, and filling in again gives it back unchanged.
pub proof fn law_prior_commit_idempotent(value: Option<Seq<char>>)
    ensures
        prior_commit_of(value).len() > 0,
        prior_commit_of(Some(prior_commit_of(value))) == prior_commit_of(value),
{
    lemma_zero_commit();
}

/// Reading the company twice is reading it once, and an empty company is
/// the same as none.
pub proof fn law_company_absent_when_empty(value: Option<Seq<char>>)
    ensures
        present(present(value)) == present(value),
        present(Some(Seq::<char>::empty())) == None::<Seq<char>>,
{
}

/// Any text that is not empty is present as given, and a given prior
/// commit that is not empty is used unchanged.
pub proof fn law_nonempty_text_present(text: Seq<char>)
    requires
        text.len() > 0,
    ensures
        present(Some(text)) == Some(text),
        prior_commit_of(Some(text)) == text,
{
}

/// Only an absent or empty text is absent, and then the prior commit is
/// 64 zeros.
pub proof fn law_absent_only_when_empty(value: Option<Seq<char>>)
    ensures
        present(value) is None <==> (value is None || value->0.len() == 0),
        present(value) is None ==> prior_commit_of(value) == zero_commit(),
        present(value) matches Some(text) ==> value == Some(text),
{
}

} // verus!
