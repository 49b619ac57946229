//! Whole runs of the feed consumer: what it has reported, and where it
//! stands, after a sequence of replies.

use vstd::prelude::*;
use crate::error::ClientError;
use crate::feed::{report_for, step, Event, Next, Pending};
use crate::types::{Report, TransactionRecord, TxHash};

verus! {

/// One hash of a recorded feed, with the reply to its lookup.
#[derive(Debug, PartialEq, Eq)]
pub struct FeedItem<E> {
    /// The hash as the feed gave it.
    pub hash: TxHash,
    /// The reply to the lookup of that hash.
    pub lookup: Result<Option<TransactionRecord>, E>,
}

impl<E> FeedItem<E> {
    /// The report that this item gives rise to, if any.
    pub open spec fn report(self) -> Option<Report> {
        report_for(self.hash, self.lookup)
    }
}

/// An option as a sequence of no or one element.
pub open spec fn seq_of<T>(item: Option<T>) -> Seq<T> {
    match item {
        Some(value) => seq![value],
        None => Seq::empty(),
    }
}

/// Where a consumer that was waiting for `pending` stands after `events`,
/// each taken as the reply to the request then awaited. `None` where some
/// event was no reply to that request, or came after the consumer was done.
pub open spec fn after<E>(pending: Pending, events: Seq<Event<E>>) -> Option<Next<E>>
    decreases events.len(),
{
    if events.len() == 0 {
        Some(Next::Await(pending))
    } else {
        match after(pending, events.drop_last()) {
            Some(Next::Await(awaited)) => match step(awaited, events.last()) {
                Some(decision) => Some(decision.next),
                None => None,
            },
            _ => None,
        }
    }
}

/// What a consumer that was waiting for `pending` has handed to the output
/// sink by the end of `events`, first report first.
pub open spec fn reported<E>(pending: Pending, events: Seq<Event<E>>) -> Seq<Report>
    decreases events.len(),
{
    if events.len() == 0 {
        Seq::empty()
    } else {
        let earlier = reported(pending, events.drop_last());
        match after(pending, events.drop_last()) {
            Some(Next::Await(awaited)) => match step(awaited, events.last()) {
                Some(decision) => earlier + seq_of(decision.report),
                None => earlier,
            },
            _ => earlier,
        }
    }
}

/// The replies that reading `feed` takes: for each item its hash from the
/// feed, then the reply to its lookup.
pub open spec fn exchanges<E>(feed: Seq<FeedItem<E>>) -> Seq<Event<E>>
    decreases feed.len(),
{
    if feed.len() == 0 {
        Seq::empty()
    } else {
        exchanges(feed.drop_last()).push(Event::Hash(Some(feed.last().hash))).push(
            Event::Lookup(feed.last().lookup),
        )
    }
}

/// The replies of a complete run over `feed`: the subscription opens, the
/// feed gives its items and ends.
pub open spec fn session<E>(feed: Seq<FeedItem<E>>) -> Seq<Event<E>> {
    (seq![Event::Subscribed(Ok(()))] + exchanges(feed)).push(Event::Hash(None))
}

/// The reports that `feed` calls for: one for each item whose lookup found
/// a record, in the order of the feed.
pub open spec fn reports_of<E>(feed: Seq<FeedItem<E>>) -> Seq<Report> {
    feed.filter(|item: FeedItem<E>| item.report() is Some).map_values(
        |item: FeedItem<E>| item.report()->Some_0,
    )
}

/// Adding an item to a feed adds its report, if it has one, behind the
/// reports of the feed so far.
pub proof fn lemma_reports_of_push<E>(feed: Seq<FeedItem<E>>, item: FeedItem<E>)
    ensures
        reports_of(feed.push(item)) == reports_of(feed) + seq_of(item.report()),
{
    reveal(Seq::filter);
    let kept = |item: FeedItem<E>| item.report() is Some;
    assert(feed.push(item).drop_last() == feed);
    assert(feed.push(item).last() == item);
    assert(feed.push(item).filter(kept) == if kept(item) {
        feed.filter(kept).push(item)
    } else {
        feed.filter(kept)
    });
}

/// While the subscription is open and the feed has not ended, the consumer
/// is back at the feed after each item, having reported what the items so
/// far call for.
pub proof fn lemma_open_feed<E>(feed: Seq<FeedItem<E>>)
    ensures
        after(Pending::Subscription, seq![Event::Subscribed(Ok(()))] + exchanges(feed)) == Some(
            Next::<E>::Await(Pending::NextHash),
        ),
        reported(Pending::Subscription, seq![Event::Subscribed(Ok(()))] + exchanges(feed))
            == reports_of(feed),
    decreases feed.len(),
{
    let opened = seq![Event::<E>::Subscribed(Ok(()))];
    if feed.len() == 0 {
        assert(opened + exchanges(feed) == opened);
        assert(opened.drop_last() == Seq::<Event<E>>::empty());
        assert(after(Pending::Subscription, opened.drop_last()) == Some(
            Next::<E>::Await(Pending::Subscription),
        ));
        reveal(Seq::filter);
        assert(reports_of(feed) == Seq::<Report>::empty());
        assert(reported(Pending::Subscription, opened.drop_last()) == Seq::<Report>::empty());
        assert(opened.last() == Event::<E>::Subscribed(Ok(())));
        assert(reported(Pending::Subscription, opened) == Seq::<Report>::empty());
    } else {
        let earlier = feed.drop_last();
        let item = feed.last();
        lemma_open_feed(earlier);
        lemma_reports_of_push(earlier, item);
        assert(earlier.push(item) == feed);
        let before = opened + exchanges(earlier);
        let asked = before.push(Event::Hash(Some(item.hash)));
        let answered = asked.push(Event::Lookup(item.lookup));
        assert(opened + exchanges(feed) == answered);
        assert(asked.drop_last() == before);
        assert(answered.drop_last() == asked);
        assert(after(Pending::Subscription, asked) == Some(
            Next::<E>::Await(Pending::Lookup(item.hash)),
        ));
        assert(reported(Pending::Subscription, asked) == reports_of(earlier));
        assert(reported(Pending::Subscription, answered) == reports_of(earlier) + seq_of(
            item.report(),
        ));
    }
}

/// A complete run reports exactly what the feed calls for, in the order of
/// the feed, and returns success: absent records and failed lookups leave
/// no trace and do not stop the consumer.
pub proof fn lemma_session_reports<E>(feed: Seq<FeedItem<E>>)
    ensures
        after(Pending::Subscription, session(feed)) == Some(Next::<E>::Return(Ok(()))),
        reported(Pending::Subscription, session(feed)) == reports_of(feed),
{
    lemma_open_feed(feed);
    let open = seq![Event::<E>::Subscribed(Ok(()))] + exchanges(feed);
    assert(session(feed).drop_last() == open);
}

/// Reports are made item by item: a feed in two parts calls for the reports
/// of the first part followed by those of the second. What came earlier,
/// the same hash included, changes nothing in what an item contributes.
pub proof fn lemma_reports_of_concat<E>(first: Seq<FeedItem<E>>, second: Seq<FeedItem<E>>)
    ensures
        reports_of(first + second) == reports_of(first) + reports_of(second),
{
    let kept = |item: FeedItem<E>| item.report() is Some;
    Seq::filter_distributes_over_add(first, second, kept);
}

/// No deduplication: a hash that the feed gives twice, a record found each
/// time, is reported twice, whatever the feed held before.
pub proof fn lemma_replayed_hash_reported_twice<E>(
    feed: Seq<FeedItem<E>>,
    hash: TxHash,
    first: TransactionRecord,
    second: TransactionRecord,
)
    ensures
        reported(
            Pending::Subscription,
            session(
                feed.push(FeedItem { hash, lookup: Ok(Some(first)) }).push(
                    FeedItem { hash, lookup: Ok(Some(second)) },
                ),
            ),
        ) == reports_of(feed).push(Report::of(hash, first)).push(Report::of(hash, second)),
{
    let once = feed.push(FeedItem { hash, lookup: Ok(Some(first)) });
    let twice = once.push(FeedItem { hash, lookup: Ok(Some(second)) });
    lemma_reports_of_push(feed, FeedItem { hash, lookup: Ok(Some(first)) });
    lemma_reports_of_push(once, FeedItem { hash, lookup: Ok(Some(second)) });
    lemma_session_reports(twice);
}

/// A feed that ends at once yields no report and a successful return.
pub proof fn lemma_empty_feed<E>()
    ensures
        after(Pending::Subscription, session(Seq::<FeedItem<E>>::empty())) == Some(
            Next::<E>::Return(Ok(())),
        ),
        reported(Pending::Subscription, session(Seq::<FeedItem<E>>::empty())) == Seq::<
            Report,
        >::empty(),
{
    let feed = Seq::<FeedItem<E>>::empty();
    lemma_session_reports(feed);
    reveal(Seq::filter);
    assert(reports_of(feed) == Seq::<Report>::empty());
}

/// A subscription that cannot be opened ends the consumer at once: nothing
/// is reported and the inner error is returned under `MiddlewareError`.
pub proof fn lemma_failed_subscription<E>(err: E)
    ensures
        after(Pending::Subscription, seq![Event::Subscribed(Err(err))]) == Some(
            Next::Return(Err(ClientError::MiddlewareError(err))),
        ),
        reported(Pending::Subscription, seq![Event::Subscribed(Err(err))]) == Seq::<
            Report,
        >::empty(),
{
    let events = seq![Event::<E>::Subscribed(Err(err))];
    assert(events.drop_last() == Seq::<Event<E>>::empty());
    assert(after(Pending::Subscription, events.drop_last()) == Some(
        Next::<E>::Await(Pending::Subscription),
    ));
    assert(reported(Pending::Subscription, events.drop_last()) == Seq::<Report>::empty());
    assert(events.last() == Event::<E>::Subscribed(Err(err)));
}

/// Only a subscription that cannot be opened makes the consumer return an
/// error, and that error holds the inner one.
pub proof fn lemma_only_failed_subscription_is_fatal<E>(
    pending: Pending,
    event: Event<E>,
    err: ClientError<E>,
)
    requires
        step(pending, event) matches Some(decision) && decision.next == Next::Return(
            Err::<(), ClientError<E>>(err),
        ),
    ensures
        pending == Pending::Subscription,
        event == Event::Subscribed(Err::<(), E>(err.cause())),
{
}

/// No reply to a lookup stops the consumer: whether the record was found,
/// absent, or the lookup failed, the feed's next hash is awaited.
pub proof fn lemma_lookup_never_stops<E>(hash: TxHash, lookup: Result<Option<TransactionRecord>, E>)
    ensures
        step(Pending::Lookup(hash), Event::Lookup(lookup)) matches Some(decision)
            && decision.next == Next::<E>::Await(Pending::NextHash)
            && decision.report == report_for(hash, lookup),
{
}

} // verus!
