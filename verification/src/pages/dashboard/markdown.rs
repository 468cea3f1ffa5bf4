//! Chat messages rendered from markdown to HTML, with raw HTML shown as text.
use pulldown_cmark::{html, CowStr, Event, Options, Parser};
use vstd::prelude::*;
use vstd::string::*;

verus! {

/// The HTML entity form of the characters `encode_safe` escapes.
pub open spec fn html_safe_char(c: char) -> Seq<char> {
    if c == '&' {
        "&amp;"@
    } else if c == '<' {
        "&lt;"@
    } else if c == '>' {
        "&gt;"@
    } else if c == '"' {
        "&quot;"@
    } else if c == '\'' {
        "&#x27;"@
    } else if c == '/' {
        "&#x2F;"@
    } else {
        seq![c]
    }
}

/// `s` with `&`, `<`, `>`, `"`, `'` and `/` written as HTML entities.
pub open spec fn html_safe(s: Seq<char>) -> Seq<char>
    decreases s.len(),
{
    if s.len() == 0 {
        Seq::empty()
    } else {
        html_safe(s.drop_last()) + html_safe_char(s.last())
    }
}

/// `html_escape::encode_safe`: `&`, `<`, `>`, `"`, `'` and `/` become the
/// entities `&amp;`, `&lt;`, `&gt;`, `&quot;`, `&#x27;` and `&#x2F;`; every
/// other char is kept.
#[verifier::external_body]
fn html_encode_safe(s: &str) -> (r: String)
    ensures
        r@ == html_safe(s@),
{
    html_escape::encode_safe(s).into_owned()
}

/// Raw HTML met in a chat message, made safe to show as text.
pub fn escape_raw_html(raw: &str) -> (r: String)
    ensures
        r@ == html_safe(raw@),
{
    html_encode_safe(raw)
}

/// A markdown event from pulldown-cmark, carried through unread.
#[verifier::external_type_specification]
#[verifier::external_body]
pub struct ExMarkdownEvent<'a>(Event<'a>);

/// One markdown event: a raw HTML block, inline raw HTML, text, or any other
/// event.
#[derive(Debug)]
pub enum MdEvent {
    Html(String),
    InlineHtml(String),
    Text(String),
    Other(Event<'static>),
}

/// An event with its text taken by value.
pub enum MdEventView {
    Html(Seq<char>),
    InlineHtml(Seq<char>),
    Text(Seq<char>),
    Other(Event<'static>),
}

pub open spec fn md_view(e: MdEvent) -> MdEventView {
    match e {
        MdEvent::Html(s) => MdEventView::Html(s@),
        MdEvent::InlineHtml(s) => MdEventView::InlineHtml(s@),
        MdEvent::Text(s) => MdEventView::Text(s@),
        MdEvent::Other(e) => MdEventView::Other(e),
    }
}

pub open spec fn md_views(es: Seq<MdEvent>) -> Seq<MdEventView> {
    es.map_values(|e: MdEvent| md_view(e))
}

/// The events pulldown-cmark reads from `content` as markdown with
/// strikethrough, tables, task lists and smart punctuation.
pub uninterp spec fn markdown_events_of(content: Seq<char>) -> Seq<MdEventView>;

/// The HTML pulldown-cmark writes for these events.
pub uninterp spec fn events_html(events: Seq<MdEventView>) -> Seq<char>;

/// Raw HTML, block or inline, is shown as escaped text; other events stay.
pub open spec fn escape_view(e: MdEventView) -> MdEventView {
    match e {
        MdEventView::Html(s) => MdEventView::Text(html_safe(s)),
        MdEventView::InlineHtml(s) => MdEventView::Text(html_safe(s)),
        other => other,
    }
}

/// What a chat bubble shows for `content`: its markdown events, raw HTML
/// turned into escaped text, written as HTML.
pub open spec fn markdown_html(content: Seq<char>) -> Seq<char> {
    events_html(markdown_events_of(content).map_values(|e: MdEventView| escape_view(e)))
}

/// pulldown-cmark's `Parser::new_ext` with strikethrough, tables, task lists
/// and smart punctuation; raw HTML and inline HTML events are told apart from
/// the rest, which are kept as they are.
#[verifier::external_body]
fn markdown_events(content: &str) -> (r: Vec<MdEvent>)
    ensures
        md_views(r@) == markdown_events_of(content@),
{
    let options = Options::ENABLE_STRIKETHROUGH | Options::ENABLE_TABLES
        | Options::ENABLE_TASKLISTS | Options::ENABLE_SMART_PUNCTUATION;
    Parser::new_ext(content, options).map(|event| match event {
        Event::Html(raw) => MdEvent::Html(raw.into_string()),
        Event::InlineHtml(raw) => MdEvent::InlineHtml(raw.into_string()),
        other => MdEvent::Other(other.into_static()),
    }).collect()
}

/// pulldown-cmark's `html::push_html` on these events.
#[verifier::external_body]
fn write_html(events: Vec<MdEvent>) -> (r: String)
    ensures
        r@ == events_html(md_views(events@)),
{
    let mut rendered = String::new();
    html::push_html(&mut rendered, events.into_iter().map(|event| match event {
        MdEvent::Html(s) => Event::Html(CowStr::from(s)),
        MdEvent::InlineHtml(s) => Event::InlineHtml(CowStr::from(s)),
        MdEvent::Text(s) => Event::Text(CowStr::from(s)),
        MdEvent::Other(e) => e,
    }));
    rendered
}

/// Raw HTML, block or inline, becomes escaped text; every other event is
/// kept, in order.
pub fn escape_raw_events(events: Vec<MdEvent>) -> (r: Vec<MdEvent>)
    ensures
        md_views(r@) == md_views(events@).map_values(|e: MdEventView| escape_view(e)),
{
    let ghost all = events@;
    let n = events.len();
    let mut rest = events;
    let mut out: Vec<MdEvent> = Vec::new();
    let mut i: usize = 0;
    while i < n
        invariant
            n == all.len(),
            i <= n,
            rest@ == all.skip(i as int),
            md_views(out@) == md_views(all.take(i as int)).map_values(|e: MdEventView| escape_view(e)),
        decreases n - i,
    {
        let e = rest.remove(0);
        proof {
            assert(rest@ =~= all.skip(i + 1));
            assert(e == all[i as int]);
        }
        let escaped = match e {
            MdEvent::Html(raw) => MdEvent::Text(escape_raw_html(raw.as_str())),
            MdEvent::InlineHtml(raw) => MdEvent::Text(escape_raw_html(raw.as_str())),
            other => other,
        };
        let ghost prev = out@;
        out.push(escaped);
        proof {
            assert(md_views(out@) =~= md_views(prev).push(md_view(escaped)));
            assert(md_views(all.take(i + 1)) =~= md_views(all.take(i as int)).push(md_view(all[i as int])));
            assert(md_views(all.take(i + 1)).map_values(|e: MdEventView| escape_view(e)) =~= md_views(
                all.take(i as int),
            ).map_values(|e: MdEventView| escape_view(e)).push(escape_view(md_view(all[i as int]))));
        }
        i = i + 1;
    }
    assert(all.take(n as int) =~= all);
    out
}

/// The HTML shown in a chat bubble for a message's markdown.
pub fn render_markdown(content: &str) -> (r: String)
    ensures
        r@ == markdown_html(content@),
{
    let events = markdown_events(content);
    let escaped = escape_raw_events(events);
    write_html(escaped)
}

} // verus!
