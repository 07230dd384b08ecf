//! The event-stream rewrite: parse a document into Markdown events, replace
//! the link events that the policy substitutes by raw markup, and serialize
//! the stream back into Markdown text.
use vstd::prelude::*;
use pulldown_cmark::{Alignment, CodeBlockKind, CowStr, Event, HeadingLevel, LinkType, Parser, Tag};
use crate::policy::{link_markup, markup_of, Edge, Link, LinkKind, LinkView};

verus! {

/// pulldown_cmark::Event, with its variants visible, so that verified code
/// can tell link events from the others and rebuild them.
#[verifier::external_type_specification]
pub struct ExEvent<'a>(Event<'a>);

/// pulldown_cmark::Tag, with its variants visible: `Tag::Link` carries a link
/// event's type, destination and title.
#[verifier::external_type_specification]
pub struct ExTag<'a>(Tag<'a>);

/// pulldown_cmark::LinkType, the parser's classification of a link, with its
/// variants visible.
#[verifier::external_type_specification]
pub struct ExLinkType(LinkType);

/// pulldown_cmark::CowStr, the parser's string type, carried through opaque.
#[verifier::external_type_specification]
#[verifier::external_body]
pub struct ExCowStr<'a>(CowStr<'a>);

/// pulldown_cmark::CodeBlockKind, carried through opaque inside `Tag`.
#[verifier::external_type_specification]
#[verifier::external_body]
pub struct ExCodeBlockKind<'a>(CodeBlockKind<'a>);

/// pulldown_cmark::HeadingLevel, carried through opaque inside `Tag`.
#[verifier::external_type_specification]
#[verifier::external_body]
pub struct ExHeadingLevel(HeadingLevel);

/// pulldown_cmark::Alignment, carried through opaque inside `Tag`.
#[verifier::external_type_specification]
#[verifier::external_body]
pub struct ExAlignment(Alignment);

/// std::fmt::Error, the error that pulldown_cmark_to_cmark::cmark reports.
#[verifier::external_type_specification]
#[verifier::external_body]
pub struct ExFmtError(std::fmt::Error);

/// The serializer could not turn the rewritten event stream back into text.
#[derive(Clone, Copy, Debug, PartialEq, Eq, Structural)]
pub struct SerializationError;

impl SerializationError {
    /// A human-readable description of the failure.
    pub fn message(&self) -> (r: String)
        ensures
            r@ == "Markdown serialization failed"@,
    {
        String::from_str("Markdown serialization failed")
    }
}

/// The link kind that the parser reports as `lt`.
pub open spec fn kind_spec(lt: LinkType) -> LinkKind {
    match lt {
        LinkType::Inline => LinkKind::Inline,
        LinkType::Reference => LinkKind::Reference,
        LinkType::ReferenceUnknown => LinkKind::ReferenceUnknown,
        LinkType::Collapsed => LinkKind::Collapsed,
        LinkType::CollapsedUnknown => LinkKind::CollapsedUnknown,
        LinkType::Shortcut => LinkKind::Shortcut,
        LinkType::ShortcutUnknown => LinkKind::ShortcutUnknown,
        LinkType::Autolink => LinkKind::Autolink,
        LinkType::Email => LinkKind::Email,
    }
}

/// Maps the parser's link type onto [`LinkKind`].
pub fn kind_of(lt: LinkType) -> (r: LinkKind)
    ensures
        r == kind_spec(lt),
{
    match lt {
        LinkType::Inline => LinkKind::Inline,
        LinkType::Reference => LinkKind::Reference,
        LinkType::ReferenceUnknown => LinkKind::ReferenceUnknown,
        LinkType::Collapsed => LinkKind::Collapsed,
        LinkType::CollapsedUnknown => LinkKind::CollapsedUnknown,
        LinkType::Shortcut => LinkKind::Shortcut,
        LinkType::ShortcutUnknown => LinkKind::ShortcutUnknown,
        LinkType::Autolink => LinkKind::Autolink,
        LinkType::Email => LinkKind::Email,
    }
}


/// The link type of a link start or end event; `None` for any other event.
pub open spec fn link_type_of(e: Event<'_>) -> Option<LinkType> {
    match e {
        Event::Start(Tag::Link(lt, _, _)) => Some(lt),
        Event::End(Tag::Link(lt, _, _)) => Some(lt),
        _ => None,
    }
}

/// The text that a pulldown-cmark string holds.
pub uninterp spec fn cow_text(c: CowStr<'_>) -> Seq<char>;

/// The events that pulldown-cmark's parser yields for `text`, in document
/// order.
pub uninterp spec fn parsed_of(text: Seq<char>) -> Seq<Event<'static>>;

/// The Markdown text that pulldown-cmark-to-cmark writes for `events`.
pub uninterp spec fn serialized_of(events: Seq<Event<'_>>) -> Seq<char>;

/// The model of a link event with these parts.
pub open spec fn link_view(edge: Edge, lt: LinkType, dest: CowStr<'_>, title: CowStr<'_>) -> LinkView {
    LinkView { edge, kind: kind_spec(lt), dest: cow_text(dest), title: cow_text(title) }
}

/// `r` stands for the link event `e`, described by `link`: a raw markup event
/// holding exactly the policy's markup where the policy substitutes the link,
/// else `e` itself.
pub open spec fn link_event_rewritten(link: LinkView, e: Event<'_>, r: Event<'_>) -> bool {
    match markup_of(link) {
        Some(m) => (r matches Event::Html(c) && cow_text(c) == m),
        None => r == e,
    }
}

/// `r` is what the rewrite makes of the event `e`: a link start or end event
/// goes by the policy, every other event is kept.
pub open spec fn event_rewritten(e: Event<'_>, r: Event<'_>) -> bool {
    match e {
        Event::Start(Tag::Link(lt, d, t)) => link_event_rewritten(
            link_view(Edge::Open, lt, d, t),
            e,
            r,
        ),
        Event::End(Tag::Link(lt, d, t)) => link_event_rewritten(
            link_view(Edge::Close, lt, d, t),
            e,
            r,
        ),
        _ => r == e,
    }
}

/// `after` is the event stream `before` rewritten event by event, with no
/// event dropped, added or moved.
pub open spec fn rewritten(before: Seq<Event<'_>>, after: Seq<Event<'_>>) -> bool {
    &&& after.len() == before.len()
    &&& forall|i: int| 0 <= i < before.len() ==> event_rewritten(#[trigger] before[i], after[i])
}

/// Relies on pulldown_cmark::Parser::new: the events of `text`, in document
/// order, as the parser yields them; the parser depends on the text alone.
#[verifier::external_body]
fn parse_events<'a>(text: &'a str) -> (r: Vec<Event<'a>>)
    ensures
        r@ == parsed_of(text@),
{
    Parser::new(text).collect()
}

/// Relies on CowStr's dereference to `str`: an owned copy of the text that
/// `c` holds.
#[verifier::external_body]
fn cow_string(c: &CowStr<'_>) -> (r: String)
    ensures
        r@ == cow_text(*c),
{
    c.to_string()
}

/// Relies on pulldown_cmark's `From<String>` for CowStr: a CowStr that owns
/// `s`, and so holds its text.
#[verifier::external_body]
fn cow_from_string<'a>(s: String) -> (r: CowStr<'a>)
    ensures
        cow_text(r) == s@,
{
    CowStr::from(s)
}

/// Relies on pulldown_cmark_to_cmark::cmark: the Markdown text of `events`.
/// Its errors come only from the output buffer, and a `String` buffer does not
/// fail.
#[verifier::external_body]
fn serialize(events: &Vec<Event<'_>>) -> (r: Result<String, std::fmt::Error>)
    ensures
        r is Ok,
        r->Ok_0@ == serialized_of(events@),
{
    let mut buf = String::new();
    pulldown_cmark_to_cmark::cmark(events.iter(), &mut buf).map(|_| buf)
}

/// The raw markup that the policy puts in place of a link event with these
/// parts, or `None` where the event is kept.
fn link_substitute(edge: Edge, lt: LinkType, dest: &CowStr<'_>, title: &CowStr<'_>) -> (r: Option<
    String,
>)
    ensures
        r matches Some(s) ==> markup_of(link_view(edge, lt, *dest, *title)) == Some(s@),
        r is None <==> markup_of(link_view(edge, lt, *dest, *title)) is None,
{
    let link = Link { edge, kind: kind_of(lt), dest: cow_string(dest), title: cow_string(title) };
    link_markup(&link)
}

/// What the rewrite makes of one event: a link event that the policy
/// substitutes becomes a raw markup event holding the anchor markup; every
/// other event is returned as it came.
pub fn rewrite_event<'a>(e: Event<'a>) -> (r: Event<'a>)
    ensures
        event_rewritten(e, r),
{
    match e {
        Event::Start(Tag::Link(lt, dest, title)) => {
            match link_substitute(Edge::Open, lt, &dest, &title) {
                Some(m) => Event::Html(cow_from_string(m)),
                None => Event::Start(Tag::Link(lt, dest, title)),
            }
        },
        Event::End(Tag::Link(lt, dest, title)) => {
            match link_substitute(Edge::Close, lt, &dest, &title) {
                Some(m) => Event::Html(cow_from_string(m)),
                None => Event::End(Tag::Link(lt, dest, title)),
            }
        },
        other => other,
    }
}

/// Rewrites every event of the stream in place, keeping the stream's length
/// and order.
pub fn rewrite_events(events: &mut Vec<Event<'_>>)
    ensures
        rewritten(old(events)@, final(events)@),
{
    let n = events.len();
    let mut i: usize = 0;
    while i < n
        invariant
            n == old(events)@.len(),
            i <= n,
            events@.len() == n,
            forall|j: int| 0 <= j < i ==> event_rewritten(#[trigger] old(events)@[j], events@[j]),
            forall|j: int| i <= j < n ==> #[trigger] events@[j] == old(events)@[j],
        decreases n - i,
    {
        let mut cur = Event::Rule;
        std::mem::swap(&mut cur, &mut events[i]);
        events[i] = rewrite_event(cur);
        i = i + 1;
    }
}

/// Rewrites the links of the Markdown document `text`: its events are
/// rewritten one by one as [`rewrite_event`] does, and the stream is
/// serialized back into Markdown.
pub fn rewrite<'a>(text: &'a str) -> (r: Result<String, SerializationError>)
    ensures
        r is Ok,
        exists|after: Seq<Event<'a>>|
            rewritten(parsed_of(text@), after) && r->Ok_0@ == serialized_of(after),
{
    let mut events = parse_events(text);
    rewrite_events(&mut events);
    let out = serialize(&events);
    assert(rewritten(parsed_of(text@), events@));
    match out {
        Ok(out) => Ok(out),
        Err(_) => Err(SerializationError),
    }
}

/// The preprocessor that rewrites external links of each chapter.
#[derive(Clone, Copy, Debug, PartialEq, Eq, Structural)]
pub struct Exl;

impl Exl {
    pub fn new() -> (r: Exl)
        ensures
            r == Exl,
    {
        Exl
    }

    /// The name under which the preprocessor is registered.
    pub fn name(&self) -> (r: &'static str)
        ensures
            r@ == "external-links-preprocessor"@,
    {
        "external-links-preprocessor"
    }

    /// Every renderer is supported: the rewrite has no renderer-specific part.
    pub fn supports_renderer(&self, renderer: &str) -> (r: bool)
        ensures
            r,
    {
        true
    }

    /// The content of one chapter with its links rewritten, as [`rewrite`]
    /// gives it.
    pub fn replace_anchors<'a>(&self, content: &'a str) -> (r: Result<String, SerializationError>)
        ensures
            r is Ok,
            exists|after: Seq<Event<'a>>|
                rewritten(parsed_of(content@), after) && r->Ok_0@ == serialized_of(after),
    {
        rewrite(content)
    }
}

} // verus!
