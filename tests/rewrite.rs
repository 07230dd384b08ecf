use external_links::rewrite::{rewrite, Exl};
use pulldown_cmark::{html, Event, Parser, Tag};

fn events(text: &str) -> Vec<Event<'_>> {
    Parser::new(text).collect()
}

fn html_of(text: &str) -> String {
    let mut out = String::new();
    html::push_html(&mut out, Parser::new(text));
    out
}

fn has_link_event(text: &str) -> bool {
    events(text)
        .iter()
        .any(|e| matches!(e, Event::Start(Tag::Link(..)) | Event::End(Tag::Link(..))))
}

#[test]
fn inline_http_link_with_title() {
    let out = rewrite(r#"[site](http://example.com "Site")"#).unwrap();
    assert!(out.contains(r#"<a href="http://example.com" title="Site" target="_blank">site</a>"#));
}

#[test]
fn relative_link_unchanged() {
    let out = rewrite("[page](./page.md)").unwrap();
    assert_eq!(out, "[page](./page.md)");
}

#[test]
fn email_autolink_becomes_mailto_anchor() {
    let out = rewrite("<user@example.com>").unwrap();
    assert_eq!(out.trim(), r#"<a href="mailto:user@example.com">user@example.com</a>"#);
}

#[test]
fn url_autolink_opens_new_context() {
    let out = rewrite("<http://example.com>").unwrap();
    assert_eq!(out.trim(), r#"<a href="http://example.com" target="_blank">http://example.com</a>"#);
}

#[test]
fn undefined_reference_is_not_turned_into_an_anchor() {
    let input = "[text][undefined-ref]";
    assert!(!has_link_event(input));
    let out = rewrite(input).unwrap();
    assert!(!out.contains("<a"));
    assert!(!out.contains("target"));
    assert!(out.contains("text"));
    assert!(out.contains("undefined-ref"));
    assert_eq!(html_of(&out), html_of(input));
    assert_eq!(html_of(&out), "<p>[text][undefined-ref]</p>\n");
}

#[test]
fn text_without_links_round_trips() {
    let input = "# Title\n\nSome *emphasis*, **strong** and `code`.\n\n- one\n- two\n";
    assert!(!has_link_event(input));
    let out = rewrite(input).unwrap();
    assert_eq!(events(&out), events(input));
}

#[test]
fn rewriting_twice_changes_nothing_more() {
    let input = "See [site](http://example.com) and <user@example.com> or <http://a.b>.";
    let once = rewrite(input).unwrap();
    assert!(!has_link_event(&once));
    let twice = rewrite(&once).unwrap();
    assert_eq!(twice, once);
}

#[test]
fn reference_and_shortcut_http_links() {
    let input = "[a][r] and [r]\n\n[r]: https://example.org \"T\"\n";
    let out = rewrite(input).unwrap();
    assert_eq!(out.matches(r#"<a href="https://example.org" title="T" target="_blank">"#).count(), 2);
    assert_eq!(out.matches("</a>").count(), 2);
}

#[test]
fn http_prefix_without_scheme_separator_is_external() {
    let out = rewrite("[x](httpfoo)").unwrap();
    assert!(out.contains(r#"<a href="httpfoo" title="" target="_blank">x</a>"#));
}

#[test]
fn links_inside_emphasis_keep_surrounding_formatting() {
    let out = rewrite("*see [site](http://e.com)*").unwrap();
    assert!(out.starts_with('*'));
    assert!(out.contains(r#"<a href="http://e.com" title="" target="_blank">site</a>"#));
}

#[test]
fn empty_document() {
    assert_eq!(rewrite("").unwrap(), "");
}

#[test]
fn chapter_content_goes_through_rewrite() {
    let exl = Exl::new();
    assert_eq!(exl.replace_anchors("[page](./page.md)").unwrap(), "[page](./page.md)");
}
