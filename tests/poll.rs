use rss2discord::config::{ConfigFeed, ConfigFeedDiscordReceiver, ConfigFeedReceiver, ConfigFeedReceiverType};
use rss2discord::database::MemoryDatabase;
use rss2discord::feed::{Feed, FeedError};
use rss2discord::poll::{Poll, PollAction};

fn discord(content: &str, hook: &str) -> ConfigFeedReceiver {
    ConfigFeedReceiver {
        receiver_type: ConfigFeedReceiverType::Discord,
        discord: ConfigFeedDiscordReceiver {
            webhook_url: hook.to_string(),
            content: Some(content.to_string()),
            embeds: Vec::new(),
            overrides: Vec::new(),
        },
    }
}

fn feed(id: &str, receivers: Vec<ConfigFeedReceiver>) -> Feed {
    Feed::from_config(ConfigFeed {
        id: id.to_string(),
        rss_url: "http://example.com/feed".to_string(),
        interval: 60,
        guid_regex: None,
        receivers,
        user_agent: None,
        atom: None,
    })
}

fn rss_doc(items: &[(&str, &str)]) -> Vec<u8> {
    let mut s = String::from("<rss version=\"2.0\"><channel><title>T</title><link>http://e</link><description>D</description>");
    for (guid, date) in items {
        s.push_str(&format!("<item><title>{}</title><link>http://e/{}</link><guid>{}</guid><pubDate>{}</pubDate></item>", guid, guid, guid, date));
    }
    s.push_str("</channel></rss>");
    s.into_bytes()
}

/// Drives a poll with a fetch result, a store and posts that succeed unless
/// `refuse` names the post (by its content) to refuse. Returns the contents
/// posted and the final state.
fn run(f: &Feed, status: u16, body: &[u8], db: &mut MemoryDatabase, refuse: Option<&str>) -> (Vec<String>, Poll) {
    let (mut poll, mut action) = Poll::new();
    let mut sent = Vec::new();
    loop {
        let (p, a) = match action {
            PollAction::Fetch => poll.on_fetched(f, status, body),
            PollAction::Store => {
                let ids = match &poll {
                    Poll::Storing { items } => db.insert_and_select_feed_items(items),
                    _ => panic!("store outside storing"),
                };
                poll.on_stored(f, Some(ids))
            }
            PollAction::Send { notification } => {
                assert!(poll.awaits_delivery(f));
                let content = notification.message.content.clone().unwrap_or_default();
                let ok = refuse != Some(content.as_str());
                sent.push(content);
                poll.on_delivered(f, ok)
            }
            PollAction::Finish => return (sent, poll),
        };
        poll = p;
        action = a;
    }
}

#[test]
fn poll_notifies_oldest_first_for_each_receiver() {
    let f = feed("a", vec![discord("1:{title}", "http://h1"), discord("2:{title}", "http://h2")]);
    let body = rss_doc(&[
        ("c", "Thu, 04 Jan 2024 10:00:00 +0000"),
        ("a", "Tue, 02 Jan 2024 10:00:00 +0000"),
        ("b", "Wed, 03 Jan 2024 10:00:00 +0000"),
    ]);
    let mut db = MemoryDatabase::new();
    let (sent, end) = run(&f, 200, &body, &mut db, None);
    assert_eq!(sent, vec!["1:a", "2:a", "1:b", "2:b", "1:c", "2:c"]);
    assert!(matches!(end, Poll::Done));
    let (again, end) = run(&f, 200, &body, &mut db, None);
    assert!(again.is_empty());
    assert!(matches!(end, Poll::Done));
}

#[test]
fn poll_503_fails_and_stores_nothing() {
    let f = feed("a", vec![discord("{title}", "http://h")]);
    let mut db = MemoryDatabase::new();
    let (sent, end) = run(&f, 503, &rss_doc(&[("a", "Tue, 02 Jan 2024 10:00:00 +0000")]), &mut db, None);
    assert!(sent.is_empty());
    assert!(matches!(end, Poll::Failed { error: FeedError::Fetch { status: 503 } }));
    assert!(!db.contains(&"a".to_string(), &"a".to_string()));
    let (sent, end) = run(&f, 200, &rss_doc(&[("a", "Tue, 02 Jan 2024 10:00:00 +0000")]), &mut db, None);
    assert_eq!(sent, vec!["a"]);
    assert!(matches!(end, Poll::Done));
}

#[test]
fn poll_parse_error_leaves_other_feed_alone() {
    let a = feed("a", vec![discord("A {title}", "http://h")]);
    let b = feed("b", vec![discord("B {title}", "http://h")]);
    let mut db = MemoryDatabase::new();
    let (sent_a, end_a) = run(&a, 200, b"<rss><channel>", &mut db, None);
    let (sent_b, end_b) = run(&b, 200, &rss_doc(&[("x", "Tue, 02 Jan 2024 10:00:00 +0000")]), &mut db, None);
    assert!(sent_a.is_empty());
    assert!(matches!(end_a, Poll::Failed { error: FeedError::Parse }));
    assert_eq!(sent_b, vec!["B x"]);
    assert!(matches!(end_b, Poll::Done));
}

#[test]
fn poll_stops_at_refused_post() {
    let f = feed("a", vec![discord("{title}", "http://h")]);
    let mut db = MemoryDatabase::new();
    let body = rss_doc(&[("a", "Tue, 02 Jan 2024 10:00:00 +0000"), ("b", "Wed, 03 Jan 2024 10:00:00 +0000")]);
    let (sent, end) = run(&f, 200, &body, &mut db, Some("a"));
    assert_eq!(sent, vec!["a"]);
    assert!(matches!(end, Poll::Failed { error: FeedError::Delivery }));
}

#[test]
fn poll_stops_at_render_error() {
    let f = feed("a", vec![discord("{title}", "http://h"), discord("{missing}", "http://h")]);
    let mut db = MemoryDatabase::new();
    let (sent, end) = run(&f, 200, &rss_doc(&[("a", "Tue, 02 Jan 2024 10:00:00 +0000")]), &mut db, None);
    assert_eq!(sent, vec!["a"]);
    match end {
        Poll::Failed { error: FeedError::Render { variable } } => assert_eq!(variable, "missing"),
        other => panic!("unexpected end {:?}", other),
    }
}

#[test]
fn poll_store_failure_is_persistence_error() {
    let f = feed("a", vec![discord("{title}", "http://h")]);
    let (p, a) = Poll::new();
    assert!(matches!(a, PollAction::Fetch));
    let (p, a) = p.on_fetched(&f, 200, &rss_doc(&[("a", "Tue, 02 Jan 2024 10:00:00 +0000")]));
    assert!(matches!(a, PollAction::Store));
    let (p, a) = p.on_stored(&f, None);
    assert!(matches!(a, PollAction::Finish));
    assert!(matches!(p, Poll::Failed { error: FeedError::Persistence }));
}

#[test]
fn poll_without_receivers_is_done() {
    let f = feed("a", Vec::new());
    let mut db = MemoryDatabase::new();
    let (sent, end) = run(&f, 200, &rss_doc(&[("a", "Tue, 02 Jan 2024 10:00:00 +0000")]), &mut db, None);
    assert!(sent.is_empty());
    assert!(matches!(end, Poll::Done));
    assert!(db.contains(&"a".to_string(), &"a".to_string()));
}
