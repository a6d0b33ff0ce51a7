use rss2discord::template::{substitute, RenderError};

fn vars(pairs: &[(&str, &str)]) -> Vec<(String, String)> {
    pairs.iter().map(|(k, v)| (k.to_string(), v.to_string())).collect()
}

#[test]
fn substitutes_title_and_link() {
    let v = vars(&[("title", "Hello"), ("link", "http://x")]);
    let r = substitute("New post: {title} ({link})", &v).unwrap();
    assert_eq!(r, "New post: Hello (http://x)");
}

#[test]
fn undefined_variable_is_render_error() {
    let v = vars(&[("title", "Hello"), ("link", "http://x")]);
    let r = substitute("By {author}", &v);
    assert_eq!(r, Err(RenderError { variable: "author".to_string() }));
}

#[test]
fn template_without_placeholders_is_kept() {
    let v = vars(&[]);
    assert_eq!(substitute("plain text", &v).unwrap(), "plain text");
    assert_eq!(substitute("", &v).unwrap(), "");
}

#[test]
fn unclosed_brace_is_literal() {
    let v = vars(&[("a", "1")]);
    assert_eq!(substitute("x {a} { y", &v).unwrap(), "x 1 { y");
    assert_eq!(substitute("} {a}", &v).unwrap(), "} 1");
}

#[test]
fn last_binding_wins() {
    let v = vars(&[("a", "first"), ("a", "second")]);
    assert_eq!(substitute("{a}", &v).unwrap(), "second");
}

#[test]
fn adjacent_placeholders_and_unicode() {
    let v = vars(&[("a", "é"), ("b", "日本")]);
    assert_eq!(substitute("{a}{b}!", &v).unwrap(), "é日本!");
}

#[test]
fn empty_name_must_be_bound() {
    let v = vars(&[("a", "1")]);
    assert_eq!(substitute("{}", &v), Err(RenderError { variable: String::new() }));
}
