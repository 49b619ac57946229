//! The consumer of the pending-transaction feed, one reply at a time.

use vstd::prelude::*;
use crate::error::ClientError;
use crate::types::{Report, TransactionRecord, TxHash};

verus! {

/// The request whose reply the consumer is waiting for.
#[derive(Clone, Copy, Debug, PartialEq, Eq)]
pub enum Pending {
    /// Opening the subscription to the feed of pending-transaction hashes.
    Subscription,
    /// The feed's next hash.
    NextHash,
    /// The lookup of the transaction with this hash.
    Lookup(TxHash),
}

/// A reply of the node client.
#[derive(Debug, PartialEq, Eq)]
pub enum Event<E> {
    /// The subscription was opened, or opening it failed.
    Subscribed(Result<(), E>),
    /// The feed gave its next hash, or ended.
    Hash(Option<TxHash>),
    /// The lookup found a record, found none, or failed.
    Lookup(Result<Option<TransactionRecord>, E>),
}

/// What follows a reply.
#[derive(Debug, PartialEq, Eq)]
pub enum Next<E> {
    /// Make this request and come back with its reply.
    Await(Pending),
    /// The consumer is done: return this to the caller.
    Return(Result<(), ClientError<E>>),
}

/// The consumer's decision on one reply.
#[derive(Debug, PartialEq, Eq)]
pub struct Step<E> {
    /// What to hand to the output sink, if anything.
    pub report: Option<Report>,
    /// What to do after that.
    pub next: Next<E>,
}

/// The report on a hash whose lookup gave `lookup`: one where a record was
/// found, none where the record is absent or the lookup failed.
pub open spec fn report_for<E>(
    hash: TxHash,
    lookup: Result<Option<TransactionRecord>, E>,
) -> Option<Report> {
    match lookup {
        Ok(Some(record)) => Some(Report::of(hash, record)),
        _ => None,
    }
}

/// Whether `event` is a reply to the request `pending`.
pub open spec fn answers<E>(pending: Pending, event: Event<E>) -> bool {
    match (pending, event) {
        (Pending::Subscription, Event::Subscribed(_)) => true,
        (Pending::NextHash, Event::Hash(_)) => true,
        (Pending::Lookup(_), Event::Lookup(_)) => true,
        _ => false,
    }
}

/// The consumer's decision on `event`, taken as the reply to the request
/// `pending`; `None` where `event` is no reply to that request.
///
/// A subscription that cannot be opened ends the consumer with the inner
/// error, re-tagged. Once open, the feed is read hash by hash until it
/// ends, which is success. Each hash is looked up before the next is read:
/// a record that was found is reported under that hash, an absent record
/// and a failed lookup are passed over in silence.
pub open spec fn step<E>(pending: Pending, event: Event<E>) -> Option<Step<E>> {
    match (pending, event) {
        (Pending::Subscription, Event::Subscribed(Ok(_))) => Some(
            Step { report: None, next: Next::Await(Pending::NextHash) },
        ),
        (Pending::Subscription, Event::Subscribed(Err(err))) => Some(
            Step { report: None, next: Next::Return(Err(ClientError::MiddlewareError(err))) },
        ),
        (Pending::NextHash, Event::Hash(Some(hash))) => Some(
            Step { report: None, next: Next::Await(Pending::Lookup(hash)) },
        ),
        (Pending::NextHash, Event::Hash(None)) => Some(
            Step { report: None, next: Next::Return(Ok(())) },
        ),
        (Pending::Lookup(hash), Event::Lookup(lookup)) => Some(
            Step { report: report_for(hash, lookup), next: Next::Await(Pending::NextHash) },
        ),
        _ => None,
    }
}

} // verus!
