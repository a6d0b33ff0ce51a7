use rss2discord::database::{contains_id, select_new, sort_by_published, DatabaseFeedItem, MemoryDatabase};
use rss2discord::webhook::Webhook;

fn item(feed: &str, id: &str, at: i64) -> DatabaseFeedItem {
    DatabaseFeedItem { feed_name: feed.to_string(), external_id: id.to_string(), published_at: at, variables: Vec::new() }
}

#[test]
fn inserting_twice_reports_new_once() {
    let mut db = MemoryDatabase::new();
    let batch = vec![item("f", "a", 1), item("f", "b", 2), item("f", "c", 3)];
    assert_eq!(db.insert_and_select_feed_items(&batch), vec!["a", "b", "c"]);
    assert!(db.insert_and_select_feed_items(&batch).is_empty());
}

#[test]
fn keys_are_per_feed() {
    let mut db = MemoryDatabase::new();
    assert_eq!(db.insert_and_select_feed_items(&vec![item("f", "a", 1)]), vec!["a"]);
    assert_eq!(db.insert_and_select_feed_items(&vec![item("g", "a", 1), item("f", "a", 1)]), vec!["a"]);
    assert!(db.contains(&"g".to_string(), &"a".to_string()));
    assert!(!db.contains(&"h".to_string(), &"a".to_string()));
}

#[test]
fn duplicate_in_batch_is_new_once() {
    let mut db = MemoryDatabase::new();
    assert_eq!(db.insert_and_select_feed_items(&vec![item("f", "a", 1), item("f", "a", 2)]), vec!["a"]);
    assert!(db.insert_and_select_feed_items(&Vec::new()).is_empty());
}

#[test]
fn sort_is_ascending_and_stable() {
    let items = vec![item("f", "c", 30), item("f", "a", 10), item("f", "x", 20), item("f", "y", 20), item("f", "z", -5)];
    let ids: Vec<String> = sort_by_published(items).into_iter().map(|i| i.external_id).collect();
    assert_eq!(ids, vec!["z", "a", "x", "y", "c"]);
    assert!(sort_by_published(Vec::new()).is_empty());
}

#[test]
fn select_new_keeps_order() {
    let items = vec![item("f", "a", 1), item("f", "b", 2), item("f", "c", 3)];
    let ids = vec!["c".to_string(), "a".to_string()];
    let kept: Vec<String> = select_new(items, &ids).into_iter().map(|i| i.external_id).collect();
    assert_eq!(kept, vec!["a", "c"]);
    assert!(contains_id(&ids, &"a".to_string()));
    assert!(!contains_id(&ids, &"b".to_string()));
}

#[test]
fn webhook_keeps_url() {
    let w = Webhook::new("http://hook".to_string());
    assert_eq!(w.url(), "http://hook");
}
