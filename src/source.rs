use vstd::prelude::*;

verus! {

/// One namespaced extension element of an RSS entry.
#[derive(Debug, Clone)]
pub struct RssExtension {
    /// Qualified element name, such as `media:content`.
    pub name: String,
    /// Text content, if any.
    pub value: Option<String>,
    /// Attributes, name then value, in ascending name order.
    pub attrs: Vec<(String, String)>,
}

/// The parts of an RSS entry that notifications are made of.
#[derive(Debug, Clone)]
pub struct RssEntry {
    pub title: Option<String>,
    pub link: Option<String>,
    pub description: Option<String>,
    pub comments: Option<String>,
    /// Publication date as written in the document (RFC 2822).
    pub pub_date: Option<String>,
    /// The entry's `guid` value.
    pub guid: Option<String>,
    /// Category names, in document order.
    pub categories: Vec<String>,
    pub extensions: Vec<RssExtension>,
}

/// The parts of an Atom entry that notifications are made of.
#[derive(Debug, Clone)]
pub struct AtomEntry {
    pub id: String,
    pub title: String,
    pub summary: Option<String>,
    /// Target of the entry's first link; `None` when it has no link.
    pub link: Option<String>,
    /// Name of the entry's first author.
    pub author: Option<String>,
    /// The `updated` instant, in seconds since the Unix epoch.
    pub updated: i64,
    /// The `updated` instant as `%v %R %Z` in the offset it was written with.
    pub updated_text: String,
    /// Category terms, in document order.
    pub categories: Vec<String>,
}

/// The entries that the rss crate reads from the document `body`, copied out in
/// document order, or `None` where it is not an RSS channel.
pub uninterp spec fn rss_document(body: Seq<u8>) -> Option<Seq<RssEntry>>;

/// The entries that the atom_syndication crate reads from the feed text `text`,
/// copied out in document order, or `None` where it is not an Atom feed.
pub uninterp spec fn atom_document(text: Seq<char>) -> Option<Seq<AtomEntry>>;

/// The text that `String::from_utf8_lossy` makes of `body`.
pub uninterp spec fn lossy_text(body: Seq<u8>) -> Seq<char>;

/// Relies on `rss::Channel::read_from` and the public fields of `rss::Item`,
/// `rss::Guid`, `rss::Category` and `rss::extension::Extension` (extensions
/// namespace by namespace, in the maps' order).
#[verifier::external_body]
pub(crate) fn read_rss(body: &[u8]) -> (r: Option<Vec<RssEntry>>)
    ensures
        r is Some <==> rss_document(body@) is Some,
        r matches Some(v) ==> v@ == rss_document(body@)->0,
{
    rss::Channel::read_from(body).ok().map(|c| c.items.into_iter().map(|i| RssEntry {
        title: i.title,
        link: i.link,
        description: i.description,
        comments: i.comments,
        pub_date: i.pub_date,
        guid: i.guid.map(|g| g.value),
        categories: i.categories.into_iter().map(|c| c.name).collect(),
        extensions: i.extensions.into_values().flat_map(|m| m.into_values()).flatten()
            .map(|e| RssExtension { name: e.name, value: e.value, attrs: e.attrs.into_iter().collect() })
            .collect(),
    }).collect())
}

/// Relies on `atom_syndication::Feed::read_from`, the public fields of
/// `atom_syndication::Entry` and its parts (first link, first author), and on
/// chrono's `timestamp` and `format("%v %R %Z")` for the `updated` instant.
#[verifier::external_body]
pub(crate) fn read_atom(text: &str) -> (r: Option<Vec<AtomEntry>>)
    ensures
        r is Some <==> atom_document(text@) is Some,
        r matches Some(v) ==> v@ == atom_document(text@)->0,
{
    atom_syndication::Feed::read_from(text.as_bytes()).ok().map(|f| f.entries.into_iter().map(|e| AtomEntry {
        id: e.id,
        title: e.title.value,
        summary: e.summary.map(|s| s.value),
        link: e.links.into_iter().next().map(|l| l.href),
        author: e.authors.into_iter().next().map(|a| a.name),
        updated: e.updated.timestamp(),
        updated_text: e.updated.format("%v %R %Z").to_string(),
        categories: e.categories.into_iter().map(|c| c.term).collect(),
    }).collect())
}

/// Relies on `String::from_utf8_lossy`: the body as text.
#[verifier::external_body]
pub(crate) fn text_of(body: &[u8]) -> (r: String)
    ensures
        r@ == lossy_text(body@),
{
    String::from_utf8_lossy(body).into_owned()
}

/// The instant that chrono's RFC 2822 parser reads from `s`, in seconds since
/// the Unix epoch, or `None` where it rejects `s`.
pub uninterp spec fn rfc2822_seconds(s: Seq<char>) -> Option<i64>;

/// The text that chrono writes for the instant `secs` seconds after the Unix
/// epoch in UTC as `%v %R %Z`.
pub uninterp spec fn utc_text(secs: i64) -> Seq<char>;

/// Relies on `chrono::DateTime::parse_from_rfc2822` and `timestamp`.
#[verifier::external_body]
pub(crate) fn parse_rfc2822(s: &str) -> (r: Option<i64>)
    ensures
        r == rfc2822_seconds(s@),
{
    chrono::DateTime::parse_from_rfc2822(s).ok().map(|d| d.timestamp())
}

/// Relies on `chrono::DateTime::from_timestamp` (the epoch where it is out of
/// range), `with_timezone(&chrono_tz::Tz::UTC)` and `format("%v %R %Z")`.
#[verifier::external_body]
pub(crate) fn utc_date_text(secs: i64) -> (r: String)
    ensures
        r@ == utc_text(secs),
{
    let d = chrono::DateTime::from_timestamp(secs, 0).unwrap_or_default();
    d.with_timezone(&chrono_tz::Tz::UTC).format("%v %R %Z").to_string()
}

/// The first match of regex `pattern` in `text` by fancy-regex, or `None` where
/// there is none, the pattern does not compile or matching fails.
pub uninterp spec fn regex_first_match(pattern: Seq<char>, text: Seq<char>) -> Option<Seq<char>>;

/// Relies on `fancy_regex::Regex::new`, `Regex::find` and `Match::as_str`.
#[verifier::external_body]
pub(crate) fn first_match(pattern: &str, text: &str) -> (r: Option<String>)
    ensures
        r matches Some(m) ==> regex_first_match(pattern@, text@) == Some(m@),
        r is None ==> regex_first_match(pattern@, text@) is None,
{
    match fancy_regex::Regex::new(pattern) {
        Ok(re) => match re.find(text) {
            Ok(Some(m)) => Some(m.as_str().to_string()),
            _ => None,
        },
        Err(_) => None,
    }
}

} // verus!
