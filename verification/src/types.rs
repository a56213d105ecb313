//! Vocabulary shared by the collectors.

use vstd::prelude::*;

verus! {

/// The node or the transport rejected a subscribe call: no stream was
/// created. `cause` is the error that the call came back with.
#[derive(Debug, PartialEq, Eq)]
pub struct SubscriptionError<E> {
    pub cause: E,
}

} // verus!
