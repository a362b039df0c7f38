//! Queue resolution: picking the destination queue from the backend's
//! enumeration.
//!
//! The backend enumeration itself is a network call made by the embedding
//! process; this module decides what the enumeration's outcome means. The
//! policy is the first entry in the backend's listing order, re-resolved on
//! every operation so that queues created or deleted out of band are seen.

use vstd::prelude::*;

use crate::errors::MessagingError;

verus! {

/// The queue an operation targets, given a non-empty enumeration: the first
/// entry in listing order.
pub open spec fn selected_queue(urls: Seq<String>) -> String
    recommends
        urls.len() > 0,
{
    urls[0]
}

/// Selects the destination queue from the backend's enumeration, or reports
/// `NoQueueAvailable` exactly when the enumeration is empty.
pub fn resolve_queue(urls: &Vec<String>) -> (r: Result<String, MessagingError>)
    ensures
        match r {
            Ok(q) => urls@.len() > 0 && q == selected_queue(urls@),
            Err(e) => urls@.len() == 0 && e == MessagingError::NoQueueAvailable,
        },
{
    if urls.is_empty() {
        Err(MessagingError::NoQueueAvailable)
    } else {
        Ok(urls[0].clone())
    }
}

} // verus!
