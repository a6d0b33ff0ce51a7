use rss2discord::feed::clean_atom_text;
use rss2discord::text::replace_all;
use rss2discord::variables::{join, underscore_colons};

#[test]
fn replace_all_is_left_to_right_without_overlap() {
    assert_eq!(replace_all("aaa", "aa", "b"), "ba");
    assert_eq!(replace_all("x<atom:y</atom:z", "<atom:", "<"), "x<y</atom:z");
    assert_eq!(replace_all("abc", "", "z"), "abc");
    assert_eq!(replace_all("", "a", "b"), "");
}

#[test]
fn atom_text_is_cleaned() {
    let t = "<?xml version=\"1.0\" encoding=\"UTF-8\" standalone=\"yes\"?><atom:feed><atom:id>1</atom:id></atom:feed>";
    assert_eq!(clean_atom_text(t), "<feed><id>1</id></feed>");
}

#[test]
fn join_puts_separator_between() {
    let parts: Vec<String> = vec!["a".to_string(), "b".to_string(), "c".to_string()];
    assert_eq!(join(&parts, ", "), "a, b, c");
    assert_eq!(join(&vec!["one".to_string()], ", "), "one");
    assert_eq!(join(&Vec::new(), ", "), "");
}

#[test]
fn colons_become_underscores() {
    assert_eq!(underscore_colons("media:content"), "media_content");
    assert_eq!(underscore_colons("plain"), "plain");
}
