use vstd::prelude::*;
use crate::config::ConfigFeedReceiver;
use crate::database::{select_new, sorted_by_published, with_ids, DatabaseFeedItem};
use crate::feed::{atom_batch_is, atom_cleaned, rss_batch_is, Feed, FeedError};
use crate::source::{atom_document, lossy_text, rss_document};
use crate::receivers::{notification_for, notification_is, notification_renders, Notification};

verus! {

/// Where one poll of a feed stands. A poll fetches, parses and sorts, records the
/// items, then posts one notification per new item and receiver, oldest item
/// first and receivers in their order. The first failure ends it.
#[derive(Debug)]
pub enum Poll {
    /// Waiting for the feed document.
    Fetching,
    /// Waiting for the store to record `items`.
    Storing { items: Vec<DatabaseFeedItem> },
    /// Waiting for the post of the notification of `items[item]` for receiver `receiver`.
    Notifying { items: Vec<DatabaseFeedItem>, item: usize, receiver: usize },
    /// Every notification was posted.
    Done,
    /// The poll ended on `error`.
    Failed { error: FeedError },
}

/// What the caller does next.
#[derive(Debug)]
pub enum PollAction {
    /// Fetch the feed's URL and report the status and body.
    Fetch,
    /// Insert the items of the `Storing` state and report the ids inserted.
    Store,
    /// Post this notification and report whether it was accepted.
    Send { notification: Notification },
    /// The poll is over.
    Finish,
}

/// The first place at or after (`item`, `receiver`) in item-major order over
/// `n_items` items and `n_receivers` receivers, where `receiver` may be one past
/// the last receiver.
pub open spec fn next_position(item: int, receiver: int, n_items: int, n_receivers: int) -> Option<(int, int)> {
    let (i, j) = if receiver < n_receivers {
        (item, receiver)
    } else {
        (item + 1, 0)
    };
    if 0 <= i < n_items && 0 <= j < n_receivers {
        Some((i, j))
    } else {
        None
    }
}

/// `r` is the step that resumes notifying `items` at (`item`, `receiver`):
/// done past the end, else a post of the notification there, or a failure where
/// it does not render.
pub open spec fn resumes_at(
    r: (Poll, PollAction),
    items: Seq<DatabaseFeedItem>,
    item: int,
    receiver: int,
    receivers: Seq<ConfigFeedReceiver>,
) -> bool {
    match next_position(item, receiver, items.len() as int, receivers.len() as int) {
        None => r.0 is Done && r.1 is Finish,
        Some((i, j)) => if notification_renders(receivers[j], items[i].variables@) {
            &&& r.0 matches Poll::Notifying { items: its, item: ni, receiver: nj } && its@ == items
                && ni == i && nj == j
            &&& r.1 matches PollAction::Send { notification } && notification_is(
                Ok(notification),
                receivers[j],
                items[i].variables@,
            )
        } else {
            r.0 matches Poll::Failed { error: FeedError::Render { .. } } && r.1 is Finish
        },
    }
}

fn resume(items: Vec<DatabaseFeedItem>, item: usize, receiver: usize, receivers: &Vec<ConfigFeedReceiver>) -> (r: (Poll, PollAction))
    requires
        receiver <= receivers@.len(),
        item < items@.len() || receiver == 0,
    ensures
        resumes_at(r, items@, item as int, receiver as int, receivers@),
{
    let (i, j) = if receiver < receivers.len() {
        (item, receiver)
    } else {
        if item >= items.len() {
            return (Poll::Done, PollAction::Finish);
        }
        (item + 1, 0)
    };
    if i >= items.len() || j >= receivers.len() {
        return (Poll::Done, PollAction::Finish);
    }
    match notification_for(&receivers[j], &items[i]) {
        Ok(notification) => (Poll::Notifying { items, item: i, receiver: j }, PollAction::Send { notification }),
        Err(e) => (Poll::Failed { error: FeedError::Render { variable: e.variable } }, PollAction::Finish),
    }
}

impl Poll {
    /// A poll that has not fetched yet; its first action is `Fetch`.
    pub fn new() -> (r: (Poll, PollAction))
        ensures
            r.0 is Fetching,
            r.1 is Fetch,
    {
        (Poll::Fetching, PollAction::Fetch)
    }

    /// Whether the poll waits for the post of a notification of `feed`.
    pub open spec fn spec_awaits_delivery(&self, feed: &Feed) -> bool {
        (self matches Poll::Notifying { items, item, receiver } && item < items@.len()
            && receiver < feed.spec_receivers().len())
    }

    /// Whether the poll waits for the post of a notification of `feed`, computed.
    pub fn awaits_delivery(&self, feed: &Feed) -> (r: bool)
        ensures
            r == self.spec_awaits_delivery(feed),
    {
        match self {
            Poll::Notifying { items, item, receiver } => *item < items.len() && *receiver < feed.receivers().len(),
            _ => false,
        }
    }

    /// The fetch answered with `status` and `body`. Any status but 200 ends the
    /// poll with a `Fetch` error and nothing is recorded; a body that does not
    /// parse ends it with `Parse`; otherwise the sorted items go to the store.
    pub fn on_fetched(self, feed: &Feed, status: u16, body: &[u8]) -> (r: (Poll, PollAction))
        requires
            self is Fetching,
        ensures
            status != 200 <==> r.0 == (Poll::Failed { error: FeedError::Fetch { status } }),
            r.0 is Failed <==> r.1 is Finish,
            r.0 is Storing <==> r.1 is Store,
            r.0 is Failed || r.0 is Storing,
            r.0 matches Poll::Failed { error } ==> (error is Fetch || error is Parse),
            r.0 matches Poll::Storing { items } ==> sorted_by_published(items@),
            r.0 matches Poll::Storing { items } ==> forall|k: int| 0 <= k < items@.len() ==> (#[trigger] items@[k]).feed_name@ == feed.spec_id()@,
            status == 200 && !feed.spec_is_atom() ==> (r.0 is Storing <==> rss_document(body@) is Some),
            status == 200 && !feed.spec_is_atom() ==> (r.0 matches Poll::Storing { items } ==> rss_batch_is(
                feed.spec_id()@,
                feed.spec_regex(),
                rss_document(body@)->0,
                items@,
            )),
            status == 200 && feed.spec_is_atom() ==> (r.0 is Storing <==> atom_document(
                atom_cleaned(lossy_text(body@)),
            ) is Some),
            status == 200 && feed.spec_is_atom() ==> (r.0 matches Poll::Storing { items } ==> atom_batch_is(
                feed.spec_id()@,
                feed.spec_regex(),
                atom_document(atom_cleaned(lossy_text(body@)))->0,
                items@,
            )),
    {
        match feed.fetch_and_parse_feed(status, body) {
            Ok(items) => (Poll::Storing { items }, PollAction::Store),
            Err(error) => (Poll::Failed { error }, PollAction::Finish),
        }
    }

    /// The store answered: `Some` with the ids it inserted, `None` when it failed.
    /// A failure ends the poll with `Persistence`; otherwise notifying starts at the
    /// oldest new item and the first receiver.
    pub fn on_stored(self, feed: &Feed, inserted: Option<Vec<String>>) -> (r: (Poll, PollAction))
        requires
            self is Storing,
        ensures
            inserted is None ==> r.0 == (Poll::Failed { error: FeedError::Persistence }) && r.1 is Finish,
            inserted matches Some(ids) ==> (self matches Poll::Storing { items } && resumes_at(
                r,
                with_ids(items@, ids@),
                0,
                0,
                feed.spec_receivers(),
            )),
    {
        match self {
            Poll::Storing { items } => match inserted {
                None => (Poll::Failed { error: FeedError::Persistence }, PollAction::Finish),
                Some(ids) => {
                    let new_items = select_new(items, &ids);
                    resume(new_items, 0, 0, feed.receivers())
                },
            },
            _ => (Poll::Failed { error: FeedError::Persistence }, PollAction::Finish),
        }
    }

    /// The last notification was posted (`accepted`) or not. A refused post ends
    /// the poll with `Delivery`; otherwise notifying goes on with the next receiver,
    /// or the next item's first receiver.
    pub fn on_delivered(self, feed: &Feed, accepted: bool) -> (r: (Poll, PollAction))
        requires
            self.spec_awaits_delivery(feed),
        ensures
            !accepted ==> r.0 == (Poll::Failed { error: FeedError::Delivery }) && r.1 is Finish,
            accepted ==> (self matches Poll::Notifying { items, item, receiver } && resumes_at(
                r,
                items@,
                item as int,
                receiver + 1,
                feed.spec_receivers(),
            )),
    {
        match self {
            Poll::Notifying { items, item, receiver } => {
                if !accepted {
                    (Poll::Failed { error: FeedError::Delivery }, PollAction::Finish)
                } else {
                    let receivers = feed.receivers();
                    let n = receivers.len();
                    assert(receiver < n);
                    resume(items, item, receiver + 1, receivers)
                }
            },
            _ => (Poll::Failed { error: FeedError::Delivery }, PollAction::Finish),
        }
    }
}

/// Notifications go out oldest item first: over a batch in ascending order of
/// publication, the place a poll resumes at after a post is a later receiver of
/// the same item or an item published no earlier.
pub proof fn lemma_notifications_in_publication_order(
    items: Seq<DatabaseFeedItem>,
    item: int,
    receiver: int,
    n_receivers: int,
)
    requires
        sorted_by_published(items),
        0 <= item < items.len(),
        0 <= receiver < n_receivers,
    ensures
        next_position(item, receiver + 1, items.len() as int, n_receivers) matches Some((i, j)) ==> {
            &&& item <= i
            &&& items[item].published_at <= items[i].published_at
            &&& (i == item ==> j == receiver + 1)
            &&& (i > item ==> j == 0)
        },
{
}

/// Over the batch that a poll stores (ascending publication order) and the ids
/// the store reports as new, each post is followed by one for the same item or
/// for a new item published no earlier.
pub proof fn lemma_poll_notifies_oldest_first(
    items: Seq<DatabaseFeedItem>,
    ids: Seq<String>,
    item: int,
    receiver: int,
    n_receivers: int,
)
    requires
        sorted_by_published(items),
        0 <= item < with_ids(items, ids).len(),
        0 <= receiver < n_receivers,
    ensures
        next_position(item, receiver + 1, with_ids(items, ids).len() as int, n_receivers) matches Some((i, j))
            ==> item <= i && with_ids(items, ids)[item].published_at <= with_ids(items, ids)[i].published_at,
{
    crate::database::lemma_selected_items_keep_publication_order(items, ids);
    lemma_notifications_in_publication_order(with_ids(items, ids), item, receiver, n_receivers);
}

} // verus!
