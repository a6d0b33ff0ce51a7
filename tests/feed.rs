use rss2discord::config::{ConfigFeed, ConfigFeedDiscordReceiver, ConfigFeedReceiver, ConfigFeedReceiverType};
use rss2discord::database::{select_new, DatabaseFeedItem, MemoryDatabase};
use rss2discord::feed::{choose_id, get_unique_id, Feed, FeedError};
use rss2discord::receivers::notification_for;
use rss2discord::source::{AtomEntry, RssEntry, RssExtension};
use rss2discord::feed::{atom_items, rss_items};
use rss2discord::variables::{atom_variables, rss_variables};

fn config(id: &str, atom: bool, regex: Option<&str>) -> ConfigFeed {
    ConfigFeed {
        id: id.to_string(),
        rss_url: format!("http://example.com/{}", id),
        interval: 60,
        guid_regex: regex.map(String::from),
        receivers: vec![ConfigFeedReceiver {
            receiver_type: ConfigFeedReceiverType::Discord,
            discord: ConfigFeedDiscordReceiver {
                webhook_url: "http://hook".to_string(),
                content: Some("New post: {title} ({link})".to_string()),
                embeds: Vec::new(),
                overrides: Vec::new(),
            },
        }],
        user_agent: Some("agent/1".to_string()),
        atom: Some(atom),
    }
}

fn rss_doc(items: &[(&str, &str, &str)]) -> Vec<u8> {
    let mut s = String::from("<?xml version=\"1.0\"?><rss version=\"2.0\"><channel><title>T</title><link>http://example.com</link><description>D</description>");
    for (title, guid, date) in items {
        s.push_str(&format!(
            "<item><title>{}</title><link>http://example.com/{}</link><guid>{}</guid><pubDate>{}</pubDate></item>",
            title, guid, guid, date
        ));
    }
    s.push_str("</channel></rss>");
    s.into_bytes()
}

fn var<'a>(item: &'a DatabaseFeedItem, key: &str) -> Option<&'a str> {
    item.variables.iter().rev().find(|(k, _)| k == key).map(|(_, v)| v.as_str())
}

#[test]
fn id_extraction_takes_first_match() {
    let id = get_unique_id("tag:example.com,2020:/posts/42".to_string(), &Some(r"\d+".to_string()));
    assert_eq!(id, "2020");
    let id = get_unique_id("tag:example.com:/posts/42".to_string(), &Some(r"\d+".to_string()));
    assert_eq!(id, "42");
}

#[test]
fn id_extraction_scenario() {
    let id = get_unique_id("tag:example.com,2020:/posts/42".to_string(), &Some(r"(?<=/posts/)\d+".to_string()));
    assert_eq!(id, "42");
}

#[test]
fn id_kept_without_match_or_with_bad_regex() {
    assert_eq!(get_unique_id("abc".to_string(), &Some(r"\d+".to_string())), "abc");
    assert_eq!(get_unique_id("abc".to_string(), &Some("(".to_string())), "abc");
    assert_eq!(get_unique_id("abc".to_string(), &None), "abc");
}

#[test]
fn choose_id_prefers_found() {
    assert_eq!(choose_id("raw".to_string(), Some("m".to_string())), "m");
    assert_eq!(choose_id("raw".to_string(), None), "raw");
}

#[test]
fn non_200_is_fetch_error() {
    let feed = Feed::from_config(config("a", false, None));
    let body = rss_doc(&[("A", "1", "Tue, 02 Jan 2024 10:00:00 +0000")]);
    assert_eq!(feed.fetch_and_parse_feed(503, &body).unwrap_err(), FeedError::Fetch { status: 503 });
    assert_eq!(feed.fetch_and_parse_feed(404, &[]).unwrap_err(), FeedError::Fetch { status: 404 });
    assert_eq!(feed.fetch_and_parse_feed(200, &body).unwrap().len(), 1);
}

#[test]
fn malformed_body_is_parse_error() {
    let feed = Feed::from_config(config("a", false, None));
    assert_eq!(feed.fetch_and_parse_feed(200, b"not xml at all").unwrap_err(), FeedError::Parse);
    let atom = Feed::from_config(config("b", true, None));
    assert_eq!(atom.fetch_and_parse_feed(200, b"<html></html>").unwrap_err(), FeedError::Parse);
}

#[test]
fn items_come_out_in_publication_order() {
    let feed = Feed::from_config(config("a", false, None));
    let body = rss_doc(&[
        ("Third", "3", "Thu, 04 Jan 2024 10:00:00 +0000"),
        ("First", "1", "Tue, 02 Jan 2024 10:00:00 +0000"),
        ("Second", "2", "Wed, 03 Jan 2024 10:00:00 +0000"),
    ]);
    let items = feed.fetch_and_parse_feed(200, &body).unwrap();
    let titles: Vec<&str> = items.iter().map(|i| var(i, "title").unwrap()).collect();
    assert_eq!(titles, vec!["First", "Second", "Third"]);
    assert_eq!(items[0].published_at, 1704189600);
    assert_eq!(items[0].feed_name, "a");
    assert_eq!(items[0].external_id, "1");
    assert_eq!(var(&items[0], "pub_date"), Some(" 2-Jan-2024 10:00 UTC"));
    assert_eq!(var(&items[0], "link"), Some("http://example.com/1"));
    assert_eq!(var(&items[0], "categories"), Some(""));

    let mut db = MemoryDatabase::new();
    let ids = db.insert_and_select_feed_items(&items);
    let new = select_new(items, &ids);
    let order: Vec<String> = new
        .iter()
        .map(|i| notification_for(&feed_receivers()[0], i).as_ref().unwrap().message.content.clone().unwrap())
        .collect();
    assert_eq!(order[0], "New post: First (http://example.com/1)");
    assert_eq!(order[2], "New post: Third (http://example.com/3)");
}

fn feed_receivers() -> Vec<ConfigFeedReceiver> {
    config("a", false, None).receivers
}

#[test]
fn unparsable_date_is_epoch() {
    let feed = Feed::from_config(config("a", false, None));
    let items = feed.fetch_and_parse_feed(200, &rss_doc(&[("A", "1", "yesterday")])).unwrap();
    assert_eq!(items[0].published_at, 0);
}

#[test]
fn failing_feed_does_not_affect_other() {
    let a = Feed::from_config(config("a", false, None));
    let b = Feed::from_config(config("b", false, None));
    let mut db = MemoryDatabase::new();
    assert_eq!(a.fetch_and_parse_feed(200, b"<rss").unwrap_err(), FeedError::Parse);
    let items = b.fetch_and_parse_feed(200, &rss_doc(&[("B", "9", "Tue, 02 Jan 2024 10:00:00 +0000")])).unwrap();
    let ids = db.insert_and_select_feed_items(&items);
    assert_eq!(ids, vec!["9".to_string()]);
    let new = select_new(items, &ids);
    let n = notification_for(&b.receivers()[0], &new[0]);
    assert_eq!(n.as_ref().unwrap().message.content.as_deref(), Some("New post: B (http://example.com/9)"));
}

#[test]
fn atom_feed_with_prefixes_is_parsed() {
    let feed = Feed::from_config(config("a", true, Some(r"\d+")));
    let doc = "<?xml version=\"1.0\" encoding=\"UTF-8\" standalone=\"yes\"?>\n<atom:feed xmlns:atom=\"http://www.w3.org/2005/Atom\"><atom:title>T</atom:title><atom:id>urn:feed</atom:id><atom:updated>2024-01-03T10:00:00Z</atom:updated>\
<atom:entry><atom:title>Later</atom:title><atom:id>urn:entry:7</atom:id><atom:updated>2024-01-03T10:00:00Z</atom:updated><atom:link href=\"http://example.com/7\"/><atom:author><atom:name>Ann</atom:name></atom:author></atom:entry>\
<atom:entry><atom:title>Earlier</atom:title><atom:id>urn:entry:5</atom:id><atom:updated>2024-01-02T10:00:00Z</atom:updated><atom:link href=\"http://example.com/5\"/></atom:entry>\
<atom:entry><atom:title>No link</atom:title><atom:id>urn:entry:6</atom:id><atom:updated>2024-01-02T10:00:00Z</atom:updated></atom:entry>\
</atom:feed>";
    let items = feed.fetch_and_parse_feed(200, doc.as_bytes()).unwrap();
    assert_eq!(items.len(), 2);
    assert_eq!(items[0].external_id, "5");
    assert_eq!(items[1].external_id, "7");
    assert_eq!(items[0].published_at, 1704189600);
    assert_eq!(var(&items[1], "author"), Some("Ann"));
    assert_eq!(var(&items[1], "title"), Some("Later"));
    assert_eq!(var(&items[1], "link"), Some("http://example.com/7"));
}

#[test]
fn rss_entries_become_items() {
    let with_link = RssEntry {
        title: Some("T".to_string()),
        link: Some("http://l".to_string()),
        description: Some("D".to_string()),
        comments: Some("http://c".to_string()),
        pub_date: None,
        guid: None,
        categories: vec!["a".to_string(), "b".to_string()],
        extensions: vec![
            RssExtension {
                name: "media:content".to_string(),
                value: None,
                attrs: vec![("medium".to_string(), "image".to_string()), ("url".to_string(), "http://img".to_string())],
            },
            RssExtension { name: "x:note".to_string(), value: Some("hello".to_string()), attrs: Vec::new() },
        ],
    };
    let mut no_link = with_link.clone();
    no_link.link = None;
    let items = rss_items(&"f".to_string(), &None, &vec![no_link, with_link.clone()]);
    assert_eq!(items.len(), 1);
    assert_eq!(items[0].external_id, "http://l");
    assert_eq!(items[0].published_at, 0);
    let vars = rss_variables(&with_link);
    let keys: Vec<&str> = vars.iter().map(|(k, _)| k.as_str()).collect();
    assert_eq!(
        keys,
        vec!["title", "description", "link", "comments", "categories", "media_content_medium", "media_content_url", "x_note"]
    );
    assert_eq!(var(&items[0], "categories"), Some("a, b"));
    assert_eq!(var(&items[0], "media_content_url"), Some("http://img"));
    assert_eq!(var(&items[0], "x_note"), Some("hello"));
}

#[test]
fn rss_extensions_are_read_from_document() {
    let feed = Feed::from_config(config("a", false, None));
    let doc = "<?xml version=\"1.0\"?><rss version=\"2.0\" xmlns:media=\"http://search.yahoo.com/mrss/\" xmlns:x=\"http://example.com/x\"><channel><title>T</title><link>http://e</link><description>D</description>\
<item><title>A</title><link>http://e/1</link><category>c1</category><category>c2</category><media:content url=\"http://img\" medium=\"image\"/><x:note>hello</x:note></item></channel></rss>";
    let items = feed.fetch_and_parse_feed(200, doc.as_bytes()).unwrap();
    assert_eq!(items[0].external_id, "http://e/1");
    assert_eq!(var(&items[0], "categories"), Some("c1, c2"));
    assert_eq!(var(&items[0], "media_content_url"), Some("http://img"));
    assert_eq!(var(&items[0], "media_content_medium"), Some("image"));
    assert_eq!(var(&items[0], "x_note"), Some("hello"));
}

#[test]
fn atom_entries_become_items() {
    let e = AtomEntry {
        id: "urn:1".to_string(),
        title: "T".to_string(),
        summary: Some("S".to_string()),
        link: Some("http://l".to_string()),
        author: None,
        updated: 5,
        updated_text: "when".to_string(),
        categories: vec!["x".to_string()],
    };
    let items = atom_items(&"f".to_string(), &Some("[0-9]".to_string()), &vec![e.clone()]);
    assert_eq!(items[0].external_id, "1");
    assert_eq!(items[0].published_at, 5);
    let keys: Vec<String> = atom_variables(&e).into_iter().map(|(k, _)| k).collect();
    assert_eq!(keys, vec!["title", "description", "link", "pub_date", "categories"]);
}

#[test]
fn feed_getters() {
    let feed = Feed::from_config(config("a", true, None));
    assert_eq!(feed.id, "a");
    assert_eq!(feed.url(), "http://example.com/a");
    assert_eq!(feed.user_agent().as_deref(), Some("agent/1"));
    assert!(feed.is_atom());
    assert_eq!(feed.receivers().len(), 1);
}

#[test]
fn batch_keeps_document_order_on_equal_dates() {
    let feed = Feed::from_config(config("a", false, None));
    let entry = |id: &str, date: &str| RssEntry {
        title: Some(id.to_string()),
        link: Some(format!("http://e/{}", id)),
        description: None,
        comments: None,
        pub_date: Some(date.to_string()),
        guid: Some(id.to_string()),
        categories: Vec::new(),
        extensions: Vec::new(),
    };
    let entries = vec![
        entry("late", "Thu, 04 Jan 2024 10:00:00 +0000"),
        entry("x", "Tue, 02 Jan 2024 10:00:00 +0000"),
        entry("y", "Tue, 02 Jan 2024 10:00:00 +0000"),
    ];
    let ids: Vec<String> = feed.items_from_rss(&entries).into_iter().map(|i| i.external_id).collect();
    assert_eq!(ids, vec!["x", "y", "late"]);
    assert!(feed.items_from_atom(&Vec::new()).is_empty());
}
