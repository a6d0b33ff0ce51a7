use vstd::prelude::*;
use crate::config::{ConfigFeed, ConfigFeedReceiver};
use crate::database::{published_at_time, sort_by_published, sorted_by_published, DatabaseFeedItem};
use crate::source::{
    atom_document, first_match, lossy_text, read_atom, read_rss, regex_first_match, rss_document, text_of,
    AtomEntry, RssEntry,
};
use crate::text::{replace_all, replaced};
use crate::variables::{
    atom_variables, atom_vars, published_seconds, rss_published_at, rss_variables, rss_vars, vars_view,
};

verus! {

/// Why one poll of a feed failed.
#[derive(Debug, Clone, PartialEq, Eq)]
pub enum FeedError {
    /// The fetch answered with a status other than 200.
    Fetch { status: u16 },
    /// The body is not a feed document of the configured format.
    Parse,
    /// A template names a variable that the item does not have.
    Render { variable: String },
    /// The store could not record the batch.
    Persistence,
    /// A notification could not be posted.
    Delivery,
}

/// A feed as it is polled.
#[derive(Debug, Clone)]
pub struct Feed {
    pub id: String,
    url: String,
    user_agent: Option<String>,
    receivers: Vec<ConfigFeedReceiver>,
    regex: Option<String>,
    atom: Option<bool>,
}

/// The id kept for an entry whose raw id is `raw`, given what the pattern found in it.
pub open spec fn chosen_id(raw: Seq<char>, found: Option<String>) -> Seq<char> {
    match found {
        Some(m) => m@,
        None => raw,
    }
}

/// The stored id of an entry with raw id `raw`: the first match of `pattern` in it
/// where there is one, `raw` itself otherwise.
pub open spec fn unique_id(raw: Seq<char>, pattern: Option<String>) -> Seq<char> {
    match pattern {
        Some(p) => match regex_first_match(p@, raw) {
            Some(m) => m,
            None => raw,
        },
        None => raw,
    }
}

/// Keeps what the pattern found in a raw id, or the raw id where it found nothing.
pub fn choose_id(raw: String, found: Option<String>) -> (r: String)
    ensures
        r@ == chosen_id(raw@, found),
{
    match found {
        Some(m) => m,
        None => raw,
    }
}

/// The stored id of an entry: the first match of `pattern` in `raw`, or `raw`
/// unchanged where there is no pattern, no match or the pattern is not a valid regex.
pub fn get_unique_id(raw: String, pattern: &Option<String>) -> (r: String)
    ensures
        r@ == unique_id(raw@, *pattern),
{
    match pattern {
        Some(p) => {
            let found = first_match(p.as_str(), raw.as_str());
            choose_id(raw, found)
        },
        None => raw,
    }
}

/// The raw id of an RSS entry: its guid, else its link.
pub open spec fn rss_raw_id(e: RssEntry) -> Seq<char> {
    match e.guid {
        Some(g) => g@,
        None => match e.link {
            Some(l) => l@,
            None => Seq::empty(),
        },
    }
}

/// The item that RSS entry `e` of feed `feed` becomes.
pub open spec fn rss_item_is(item: DatabaseFeedItem, feed: Seq<char>, pattern: Option<String>, e: RssEntry) -> bool {
    &&& item.feed_name@ == feed
    &&& item.external_id@ == unique_id(rss_raw_id(e), pattern)
    &&& item.published_at == match e.pub_date {
        Some(d) => published_seconds(d@),
        None => 0,
    }
    &&& vars_view(item.variables@) == rss_vars(e)
}

/// The item that Atom entry `e` of feed `feed` becomes.
pub open spec fn atom_item_is(item: DatabaseFeedItem, feed: Seq<char>, pattern: Option<String>, e: AtomEntry) -> bool {
    &&& item.feed_name@ == feed
    &&& item.external_id@ == unique_id(e.id@, pattern)
    &&& item.published_at == e.updated
    &&& vars_view(item.variables@) == atom_vars(e)
}

/// The entries of `s` that have a link.
pub open spec fn rss_linked(s: Seq<RssEntry>) -> Seq<RssEntry>
    decreases s.len(),
{
    if s.len() == 0 {
        Seq::empty()
    } else if s.last().link is Some {
        rss_linked(s.drop_last()).push(s.last())
    } else {
        rss_linked(s.drop_last())
    }
}

/// The entries of `s` that have a link.
pub open spec fn atom_linked(s: Seq<AtomEntry>) -> Seq<AtomEntry>
    decreases s.len(),
{
    if s.len() == 0 {
        Seq::empty()
    } else if s.last().link is Some {
        atom_linked(s.drop_last()).push(s.last())
    } else {
        atom_linked(s.drop_last())
    }
}

/// The text that the Atom parser is given: `atom:` prefixes of elements removed,
/// and the XML declaration that declares `standalone="yes"` taken out.
pub open spec fn atom_cleaned(s: Seq<char>) -> Seq<char> {
    replaced(
        replaced(replaced(s, "<atom:"@, "<"@), "</atom:"@, "</"@),
        "<?xml version=\"1.0\" encoding=\"UTF-8\" standalone=\"yes\"?>"@,
        ""@,
    )
}

/// Removes the `atom:` element prefixes and the standalone XML declaration that
/// the Atom parser rejects.
pub fn clean_atom_text(content: &str) -> (r: String)
    ensures
        r@ == atom_cleaned(content@),
{
    let a = replace_all(content, "<atom:", "<");
    let b = replace_all(a.as_str(), "</atom:", "</");
    replace_all(b.as_str(), "<?xml version=\"1.0\" encoding=\"UTF-8\" standalone=\"yes\"?>", "")
}

/// Turns RSS entries into items of feed `feed`, in order, dropping those without a link.
pub fn rss_items(feed: &String, pattern: &Option<String>, entries: &Vec<RssEntry>) -> (r: Vec<DatabaseFeedItem>)
    ensures
        r@.len() == rss_linked(entries@).len(),
        forall|k: int| 0 <= k < r@.len() ==> rss_item_is(#[trigger] r@[k], feed@, *pattern, rss_linked(entries@)[k]),
{
    let mut out: Vec<DatabaseFeedItem> = Vec::new();
    let mut n: usize = 0;
    while n < entries.len()
        invariant
            n <= entries@.len(),
            out@.len() == rss_linked(entries@.take(n as int)).len(),
            forall|k: int| 0 <= k < out@.len() ==> rss_item_is(#[trigger] out@[k], feed@, *pattern, rss_linked(entries@.take(n as int))[k]),
        decreases entries@.len() - n,
    {
        let e = &entries[n];
        proof {
            assert(entries@.take(n + 1).drop_last() =~= entries@.take(n as int));
            assert(entries@.take(n + 1).last() == *e);
        }
        match &e.link {
            Some(link) => {
                let raw = match &e.guid {
                    Some(g) => g.clone(),
                    None => link.clone(),
                };
                let item = DatabaseFeedItem {
                    feed_name: feed.clone(),
                    external_id: get_unique_id(raw, pattern),
                    published_at: rss_published_at(e),
                    variables: rss_variables(e),
                };
                out.push(item);
            },
            None => {},
        }
        n = n + 1;
    }
    assert(entries@.take(n as int) =~= entries@);
    out
}

/// Turns Atom entries into items of feed `feed`, in order, dropping those without a link.
pub fn atom_items(feed: &String, pattern: &Option<String>, entries: &Vec<AtomEntry>) -> (r: Vec<DatabaseFeedItem>)
    ensures
        r@.len() == atom_linked(entries@).len(),
        forall|k: int| 0 <= k < r@.len() ==> atom_item_is(#[trigger] r@[k], feed@, *pattern, atom_linked(entries@)[k]),
{
    let mut out: Vec<DatabaseFeedItem> = Vec::new();
    let mut n: usize = 0;
    while n < entries.len()
        invariant
            n <= entries@.len(),
            out@.len() == atom_linked(entries@.take(n as int)).len(),
            forall|k: int| 0 <= k < out@.len() ==> atom_item_is(#[trigger] out@[k], feed@, *pattern, atom_linked(entries@.take(n as int))[k]),
        decreases entries@.len() - n,
    {
        let e = &entries[n];
        proof {
            assert(entries@.take(n + 1).drop_last() =~= entries@.take(n as int));
            assert(entries@.take(n + 1).last() == *e);
        }
        if e.link.is_some() {
            let item = DatabaseFeedItem {
                feed_name: feed.clone(),
                external_id: get_unique_id(e.id.clone(), pattern),
                published_at: e.updated,
                variables: atom_variables(e),
            };
            out.push(item);
        }
        n = n + 1;
    }
    assert(entries@.take(n as int) =~= entries@);
    out
}

/// `items` is `u` in ascending order of publication, items of one instant in
/// their order in `u`.
pub open spec fn stable_sorted_of(items: Seq<DatabaseFeedItem>, u: Seq<DatabaseFeedItem>) -> bool {
    &&& sorted_by_published(items)
    &&& forall|t: i64| #[trigger] published_at_time(items, t) == published_at_time(u, t)
}

/// `u` is what the RSS entries `es` of feed `feed` become, in document order.
pub open spec fn rss_items_are(feed: Seq<char>, pattern: Option<String>, es: Seq<RssEntry>, u: Seq<DatabaseFeedItem>) -> bool {
    &&& u.len() == rss_linked(es).len()
    &&& forall|k: int| 0 <= k < u.len() ==> rss_item_is(#[trigger] u[k], feed, pattern, rss_linked(es)[k])
}

/// `u` is what the Atom entries `es` of feed `feed` become, in document order.
pub open spec fn atom_items_are(feed: Seq<char>, pattern: Option<String>, es: Seq<AtomEntry>, u: Seq<DatabaseFeedItem>) -> bool {
    &&& u.len() == atom_linked(es).len()
    &&& forall|k: int| 0 <= k < u.len() ==> atom_item_is(#[trigger] u[k], feed, pattern, atom_linked(es)[k])
}

/// `items` is the batch that the RSS entries `es` of feed `feed` give.
pub open spec fn rss_batch_is(feed: Seq<char>, pattern: Option<String>, es: Seq<RssEntry>, items: Seq<DatabaseFeedItem>) -> bool {
    exists|u: Seq<DatabaseFeedItem>| #[trigger] rss_items_are(feed, pattern, es, u) && stable_sorted_of(items, u)
}

/// `items` is the batch that the Atom entries `es` of feed `feed` give.
pub open spec fn atom_batch_is(feed: Seq<char>, pattern: Option<String>, es: Seq<AtomEntry>, items: Seq<DatabaseFeedItem>) -> bool {
    exists|u: Seq<DatabaseFeedItem>| #[trigger] atom_items_are(feed, pattern, es, u) && stable_sorted_of(items, u)
}

impl Feed {
    /// The feed that a configuration entry describes.
    pub fn from_config(config: ConfigFeed) -> (r: Feed)
        ensures
            r.spec_id() == config.id,
            r.spec_url() == config.rss_url,
            r.spec_user_agent() == config.user_agent,
            r.spec_receivers() == config.receivers@,
            r.spec_regex() == config.guid_regex,
            r.spec_is_atom() == (config.atom == Some(true)),
    {
        Feed {
            id: config.id,
            url: config.rss_url,
            user_agent: config.user_agent,
            receivers: config.receivers,
            regex: config.guid_regex,
            atom: config.atom,
        }
    }

    pub closed spec fn spec_id(&self) -> String {
        self.id
    }

    pub closed spec fn spec_url(&self) -> String {
        self.url
    }

    pub closed spec fn spec_user_agent(&self) -> Option<String> {
        self.user_agent
    }

    pub closed spec fn spec_receivers(&self) -> Seq<ConfigFeedReceiver> {
        self.receivers@
    }

    pub closed spec fn spec_regex(&self) -> Option<String> {
        self.regex
    }

    /// Whether the feed is parsed as Atom rather than RSS.
    pub closed spec fn spec_is_atom(&self) -> bool {
        self.atom == Some(true)
    }

    /// Where the feed is fetched from.
    pub fn url(&self) -> (r: &String)
        ensures
            *r == self.spec_url(),
    {
        &self.url
    }

    /// The `User-Agent` header to send with the fetch, if any.
    pub fn user_agent(&self) -> (r: &Option<String>)
        ensures
            *r == self.spec_user_agent(),
    {
        &self.user_agent
    }

    /// The receivers notified of each new item.
    pub fn receivers(&self) -> (r: &Vec<ConfigFeedReceiver>)
        ensures
            r@ == self.spec_receivers(),
    {
        &self.receivers
    }

    /// Whether the feed is parsed as Atom rather than RSS.
    pub fn is_atom(&self) -> (r: bool)
        ensures
            r == self.spec_is_atom(),
    {
        match self.atom {
            Some(b) => b,
            None => false,
        }
    }

    /// The batch of this feed that the RSS entries give: those with a link, as
    /// items, in ascending order of publication, ties in document order.
    pub fn items_from_rss(&self, entries: &Vec<RssEntry>) -> (r: Vec<DatabaseFeedItem>)
        ensures
            rss_batch_is(self.spec_id()@, self.spec_regex(), entries@, r@),
            sorted_by_published(r@),
            forall|k: int| 0 <= k < r@.len() ==> (#[trigger] r@[k]).feed_name@ == self.spec_id()@,
    {
        let u = rss_items(&self.id, &self.regex, entries);
        let ghost gu = u@;
        let r = sort_by_published(u);
        assert(rss_items_are(self.id@, self.regex, entries@, gu) && stable_sorted_of(r@, gu));
        proof {
            assert forall|k: int| 0 <= k < r@.len() implies (#[trigger] r@[k]).feed_name@ == self.id@ by {
                vstd::seq_lib::to_multiset_contains(r@, r@[k]);
                vstd::seq_lib::to_multiset_contains(gu, r@[k]);
                assert(r@.contains(r@[k]));
                let j = choose|j: int| 0 <= j < gu.len() && gu[j] == r@[k];
                assert(rss_item_is(gu[j], self.id@, self.regex, rss_linked(entries@)[j]));
            }
        }
        r
    }

    /// The batch of this feed that the Atom entries give: those with a link, as
    /// items, in ascending order of publication, ties in document order.
    pub fn items_from_atom(&self, entries: &Vec<AtomEntry>) -> (r: Vec<DatabaseFeedItem>)
        ensures
            atom_batch_is(self.spec_id()@, self.spec_regex(), entries@, r@),
            sorted_by_published(r@),
            forall|k: int| 0 <= k < r@.len() ==> (#[trigger] r@[k]).feed_name@ == self.spec_id()@,
    {
        let u = atom_items(&self.id, &self.regex, entries);
        let ghost gu = u@;
        let r = sort_by_published(u);
        assert(atom_items_are(self.id@, self.regex, entries@, gu) && stable_sorted_of(r@, gu));
        proof {
            assert forall|k: int| 0 <= k < r@.len() implies (#[trigger] r@[k]).feed_name@ == self.id@ by {
                vstd::seq_lib::to_multiset_contains(r@, r@[k]);
                vstd::seq_lib::to_multiset_contains(gu, r@[k]);
                assert(r@.contains(r@[k]));
                let j = choose|j: int| 0 <= j < gu.len() && gu[j] == r@[k];
                assert(atom_item_is(gu[j], self.id@, self.regex, atom_linked(entries@)[j]));
            }
        }
        r
    }

    /// Turns a fetched response into the feed's items, in ascending order of
    /// publication. Any status but 200 is a `Fetch` error and nothing is parsed;
    /// a body that is not a feed of the configured format is a `Parse` error.
    pub fn fetch_and_parse_feed(&self, status: u16, body: &[u8]) -> (r: Result<Vec<DatabaseFeedItem>, FeedError>)
        ensures
            status != 200 <==> r == Err::<Vec<DatabaseFeedItem>, FeedError>(FeedError::Fetch { status }),
            status == 200 && r is Err ==> r == Err::<Vec<DatabaseFeedItem>, FeedError>(FeedError::Parse),
            status == 200 && !self.spec_is_atom() ==> (r is Ok <==> rss_document(body@) is Some),
            status == 200 && !self.spec_is_atom() && r is Ok ==> rss_batch_is(
                self.spec_id()@,
                self.spec_regex(),
                rss_document(body@)->0,
                (r->Ok_0)@,
            ),
            status == 200 && self.spec_is_atom() ==> (r is Ok <==> atom_document(
                atom_cleaned(lossy_text(body@)),
            ) is Some),
            status == 200 && self.spec_is_atom() && r is Ok ==> atom_batch_is(
                self.spec_id()@,
                self.spec_regex(),
                atom_document(atom_cleaned(lossy_text(body@)))->0,
                (r->Ok_0)@,
            ),
            r matches Ok(items) ==> sorted_by_published(items@),
            r matches Ok(items) ==> forall|k: int| 0 <= k < items@.len() ==> (#[trigger] items@[k]).feed_name@ == self.spec_id()@,
    {
        if status != 200 {
            return Err(FeedError::Fetch { status });
        }
        if self.is_atom() {
            let text = clean_atom_text(text_of(body).as_str());
            match read_atom(text.as_str()) {
                Some(entries) => {
                    let items = self.items_from_atom(&entries);
                    let res: Result<Vec<DatabaseFeedItem>, FeedError> = Ok(items);
                    assert((res->Ok_0)@ == items@);
                    res
                },
                None => Err(FeedError::Parse),
            }
        } else {
            match read_rss(body) {
                Some(entries) => {
                    let items = self.items_from_rss(&entries);
                    let res: Result<Vec<DatabaseFeedItem>, FeedError> = Ok(items);
                    assert((res->Ok_0)@ == items@);
                    res
                },
                None => Err(FeedError::Parse),
            }
        }
    }
}

} // verus!
