//! Inbound events and the filter that admits the owner's.

use crate::media::Content;
use crate::router::{is_owner, is_owner_spec};
use vstd::prelude::*;

verus! {

/// One inbound message.
#[derive(Clone, Debug, PartialEq, Eq)]
pub struct Event {
    /// The event's number in the remote stream.
    pub sequence: u32,
    /// Who sent it, where the service tells.
    pub sender: Option<u64>,
    /// The chat it belongs to.
    pub conversation: i64,
    /// What it holds.
    pub content: Content,
}

/// An event is admitted if and only if its sender is known and is the owner.
pub open spec fn is_admitted_spec(event: Event, owner: u64) -> bool {
    is_owner_spec(event.sender, owner)
}

/// Whether `event` comes from `owner`.
pub fn is_admitted(event: &Event, owner: u64) -> (admitted: bool)
    ensures
        admitted == is_admitted_spec(*event, owner),
        admitted <==> event.sender == Some(owner),
        event.sender is None ==> !admitted,
{
    is_owner(event.sender, owner)
}

/// The predicate "is admitted for `owner`".
pub open spec fn admits(owner: u64) -> spec_fn(Event) -> bool {
    |event: Event| is_admitted_spec(event, owner)
}

/// The events of `batch` that are admitted for `owner`, in their order.
pub open spec fn admitted(batch: Seq<Event>, owner: u64) -> Seq<Event> {
    batch.filter(admits(owner))
}

} // verus!
