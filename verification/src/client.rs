//! The delegating client wrapper.

use vstd::prelude::*;
use crate::error::ClientError;
use crate::feed::{answers, step, Event, Next, Pending, Step};
use crate::session::{after, reported};
use crate::types::Report;

verus! {

/// A client layer that owns the inner client `M`.
///
/// It adds nothing to a reply of the inner client and takes nothing away:
/// [`ClientMiddleware::forward`] is what every forwarded call returns. Its
/// one behavior of its own is the consumer of the pending-transaction feed,
/// [`ClientMiddleware::listen_transactions`].
#[derive(Debug)]
pub struct ClientMiddleware<M> {
    inner: M,
}

/// What the layer returns for a call that it forwards, given the inner
/// client's reply: a success as it is, a failure re-tagged.
pub open spec fn forwarded<R, E>(reply: Result<R, E>) -> Result<R, ClientError<E>> {
    match reply {
        Ok(value) => Ok(value),
        Err(err) => Err(ClientError::MiddlewareError(err)),
    }
}

/// The inner client's reply behind what the layer returned.
pub open spec fn unwrapped<R, E>(result: Result<R, ClientError<E>>) -> Result<R, E> {
    match result {
        Ok(value) => Ok(value),
        Err(err) => Err(err.cause()),
    }
}

impl<M> View for ClientMiddleware<M> {
    type V = M;

    /// The inner client.
    closed spec fn view(&self) -> M {
        self.inner
    }
}

impl<M> ClientMiddleware<M> {
    /// Wraps `inner`, taking ownership of it.
    pub fn new(inner: M) -> (client: Self)
        ensures
            client@ == inner,
    {
        Self { inner }
    }

    /// The inner client, the next layer down.
    pub fn inner(&self) -> (inner: &M)
        ensures
            *inner == self@,
    {
        &self.inner
    }

    /// Hands on the inner client's reply to a forwarded call: a success
    /// unchanged, a failure as `MiddlewareError` around the inner error.
    pub fn forward<R, E>(&self, reply: Result<R, E>) -> (result: Result<R, ClientError<E>>)
        ensures
            result == forwarded(reply),
            unwrapped(result) == reply,
    {
        match reply {
            Ok(value) => Ok(value),
            Err(err) => Err(ClientError::from(err)),
        }
    }

    /// Decides what the feed consumer does on `event`, the reply to the
    /// request `pending` that it was waiting for.
    ///
    /// The consumer starts by awaiting [`Pending::Subscription`]. The caller
    /// makes the request that is awaited, calls this with the reply, hands
    /// the step's report (if any) to the output sink, and goes on as the
    /// step's `next` says, until that is [`Next::Return`]. `None` is
    /// returned where `event` is no reply to `pending`.
    pub fn listen_transactions<E>(&self, pending: Pending, event: Event<E>) -> (out: Option<
        Step<E>,
    >)
        ensures
            out == step(pending, event),
            out is Some <==> answers(pending, event),
    {
        match pending {
            Pending::Subscription => match event {
                Event::Subscribed(reply) => match self.forward(reply) {
                    Ok(_) => Some(Step { report: None, next: Next::Await(Pending::NextHash) }),
                    Err(err) => Some(Step { report: None, next: Next::Return(Err(err)) }),
                },
                _ => None,
            },
            Pending::NextHash => match event {
                Event::Hash(Some(hash)) => Some(
                    Step { report: None, next: Next::Await(Pending::Lookup(hash)) },
                ),
                Event::Hash(None) => Some(Step { report: None, next: Next::Return(Ok(())) }),
                _ => None,
            },
            Pending::Lookup(hash) => match event {
                Event::Lookup(Ok(Some(record))) => Some(
                    Step {
                        report: Some(Report::new(hash, record)),
                        next: Next::Await(Pending::NextHash),
                    },
                ),
                Event::Lookup(_) => Some(
                    Step { report: None, next: Next::Await(Pending::NextHash) },
                ),
                _ => None,
            },
        }
    }

    /// Runs the feed consumer from its start over recorded replies, in
    /// order: returns what it reports, first report first, and where it
    /// stands after the last reply (`None` where some reply did not answer
    /// the request that was awaited, or came after the consumer was done).
    pub fn replay<E>(&self, events: Vec<Event<E>>) -> (out: (Vec<Report>, Option<Next<E>>))
        ensures
            out.0@ == reported(Pending::Subscription, events@),
            out.1 == after(Pending::Subscription, events@),
    {
        let ghost all = events@;
        let mut reports: Vec<Report> = Vec::new();
        let mut state: Option<Next<E>> = Some(Next::Await(Pending::Subscription));
        for event in it: events.into_iter()
            invariant
                it.seq() == all,
                reports@ == reported(Pending::Subscription, all.take(it.index() as int)),
                state == after(Pending::Subscription, all.take(it.index() as int)),
        {
            proof {
                let seen = all.take(it.index() + 1);
                assert(seen.drop_last() == all.take(it.index() as int));
                assert(seen.last() == event);
            }
            state = match state {
                Some(Next::Await(pending)) => match self.listen_transactions(pending, event) {
                    Some(decision) => {
                        match decision.report {
                            Some(report) => reports.push(report),
                            None => {},
                        }
                        Some(decision.next)
                    },
                    None => None,
                },
                _ => None,
            };
        }
        proof {
            assert(all.take(all.len() as int) == all);
        }
        (reports, state)
    }
}

/// The wrapper is its inner client and nothing else: two wrappers around
/// the same inner client are the same value.
pub proof fn lemma_wrapper_is_its_inner<M>(a: ClientMiddleware<M>, b: ClientMiddleware<M>)
    requires
        a@ == b@,
    ensures
        a == b,
{
}

/// Forwarding loses nothing: from what the layer returns, the inner
/// client's reply is recovered unchanged. A success comes through as it is,
/// and a failure is the inner error under `MiddlewareError`.
pub proof fn lemma_forward_round_trip<R, E>(reply: Result<R, E>)
    ensures
        unwrapped(forwarded(reply)) == reply,
        reply matches Ok(value) ==> forwarded(reply) == Ok::<R, ClientError<E>>(value),
        reply matches Err(err) ==> forwarded(reply) == Err::<R, ClientError<E>>(
            ClientError::MiddlewareError(err),
        ) && forwarded(reply)->Err_0.cause() == err,
{
}

/// Layers stack: through two layers a failure is wrapped twice, and the
/// innermost reply is still recovered by unwrapping twice.
pub proof fn lemma_layers_stack<R, E>(reply: Result<R, E>)
    ensures
        unwrapped(unwrapped(forwarded(forwarded(reply)))) == reply,
        reply matches Err(err) ==> forwarded(forwarded(reply)) == Err::<
            R,
            ClientError<ClientError<E>>,
        >(ClientError::MiddlewareError(ClientError::MiddlewareError(err))),
{
}

} // verus!
