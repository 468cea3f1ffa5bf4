use prior_web::pages::dashboard::markdown::{escape_raw_events, escape_raw_html, render_markdown, MdEvent};

#[test]
fn raw_html_is_escaped() {
    assert_eq!(escape_raw_html("<a href='x'>&\"/"), "&lt;a href=&#x27;x&#x27;&gt;&amp;&quot;&#x2F;");
    assert_eq!(escape_raw_html("plain é"), "plain é");
}

#[test]
fn markdown_renders() {
    assert_eq!(render_markdown("**a**"), "<p><strong>a</strong></p>\n");
    assert_eq!(render_markdown("~~x~~"), "<p><del>x</del></p>\n");
    let out = render_markdown("hi <b>x</b>");
    assert!(!out.contains("<b>"));
    assert!(out.starts_with("<p>hi "));
    let block = render_markdown("<div>\nraw\n</div>\n");
    assert!(!block.contains("<div>"));
}

#[test]
fn raw_html_events_become_escaped_text() {
    let out = escape_raw_events(vec![
        MdEvent::Html("<div>".to_string()),
        MdEvent::Text("a<b".to_string()),
        MdEvent::InlineHtml("<i>".to_string()),
        MdEvent::Other(pulldown_cmark::Event::SoftBreak),
    ]);
    assert_eq!(out.len(), 4);
    assert!(matches!(&out[0], MdEvent::Text(t) if t == "&lt;div&gt;"));
    assert!(matches!(&out[1], MdEvent::Text(t) if t == "a<b"));
    assert!(matches!(&out[2], MdEvent::Text(t) if t == "&lt;i&gt;"));
    assert!(matches!(&out[3], MdEvent::Other(pulldown_cmark::Event::SoftBreak)));
}
