//! The host's optional services and what is answered when one is missing.

use vstd::prelude::*;

verus! {

/// A part of the host state that a request may need.
#[derive(Clone, Copy, Debug, PartialEq, Eq, Structural)]
pub enum Service {
    /// The unlocked account session.
    Session,
    /// The attention-market sandbox.
    Market,
    /// The checkpoint chain.
    Chain,
    /// The durable grid.
    Durable,
    /// The reputation book.
    Reputation,
    /// The proof-of-contribution book.
    Work,
    /// The in-process talk net.
    Talk,
}

/// The error text for a request that needs `service` while it is missing.
pub open spec fn missing_message(service: Service) -> Seq<char> {
    match service {
        Service::Session => "no unlocked session"@,
        Service::Market => "market is not open"@,
        Service::Chain => "chain is not open"@,
        Service::Durable => "durable grid is not open"@,
        Service::Reputation => "reputation book is not open"@,
        Service::Work => "work book is not open"@,
        Service::Talk => "talk net is not open"@,
    }
}

/// The error text for a request that needs `service` while it is missing.
pub fn missing(service: Service) -> (message: String)
    ensures
        message@ == missing_message(service),
{
    let text = match service {
        Service::Session => "no unlocked session",
        Service::Market => "market is not open",
        Service::Chain => "chain is not open",
        Service::Durable => "durable grid is not open",
        Service::Reputation => "reputation book is not open",
        Service::Work => "work book is not open",
        Service::Talk => "talk net is not open",
    };
    text.to_owned()
}

/// The open service in `slot`, or the error that it is missing.
pub fn require<T>(slot: &Option<T>, service: Service) -> (found: Result<&T, String>)
    ensures
        match slot {
            Some(value) => found == Ok::<&T, String>(value),
            None => found matches Err(error) && error@ == missing_message(service),
        },
{
    match slot {
        Some(value) => Ok(value),
        None => Err(missing(service)),
    }
}

/// The open service in `slot`, borrowed for change, or the error that it
/// is missing (the slot is then left as it was).
pub fn require_mut<T>(slot: &mut Option<T>, service: Service) -> (found: Result<&mut T, String>)
    ensures
        match *old(slot) {
            Some(value) => found matches Ok(r) && *r == value && *final(slot) == Some(*final(r)),
            None => *final(slot) == None::<T> && (found matches Err(error) && error@
                == missing_message(service)),
        },
{
    match slot {
        Some(value) => Ok(value),
        None => Err(missing(service)),
    }
}

} // verus!
