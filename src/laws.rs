//! Properties of the link policy and of the rewrite plan.
use vstd::prelude::*;
use crate::policy::{is_http, is_resolved, is_substituted, markup_of, Edge, LinkKind, LinkView};
use crate::rewrite::{cow_text, event_rewritten, kind_spec, link_type_of, parsed_of, rewritten, serialized_of};
use pulldown_cmark::{CowStr, Event, LinkType, Tag};

verus! {

/// Closing an attribute value and adding `target="_blank"` leaves the text
/// ending with the `target` attribute.
proof fn lemma_ends_with_target(x: Seq<char>)
    ensures
        " target=\"_blank\">"@.is_suffix_of(x + "\" target=\"_blank\">"@),
{
    reveal_strlit("\" target=\"_blank\">");
    reveal_strlit(" target=\"_blank\">");
    let full = x + "\" target=\"_blank\">"@;
    assert(full.subrange(full.len() - " target=\"_blank\">"@.len(), full.len() as int)
        =~= " target=\"_blank\">"@);
}

/// `a` begins the concatenation `a + b`.
proof fn lemma_prefix_of_concat(a: Seq<char>, b: Seq<char>)
    ensures
        a.is_prefix_of(a + b),
{
    assert((a + b).subrange(0, a.len() as int) =~= a);
}

/// A resolved link whose destination begins with `http` opens as an anchor to
/// that destination that ends with `target="_blank"`, and closes with `</a>`.
pub proof fn http_link_opens_new_context(link: LinkView)
    requires
        is_resolved(link.kind),
        is_http(link.dest),
    ensures
        link.edge == Edge::Open ==> (markup_of(link) matches Some(m) && ("<a href=\""@
            + link.dest).is_prefix_of(m) && " target=\"_blank\">"@.is_suffix_of(m)),
        link.edge == Edge::Close ==> markup_of(link) == Some("</a>"@),
{
    let head = "<a href=\""@ + link.dest;
    let m = head + "\" title=\""@ + link.title + "\" target=\"_blank\">"@;
    assert(m.subrange(0, head.len() as int) =~= head);
    lemma_ends_with_target(head + "\" title=\""@ + link.title);
}

/// A resolved link whose destination does not begin with `http` is kept as an
/// ordinary Markdown link, at both of its events.
pub proof fn relative_link_is_kept(link: LinkView)
    requires
        is_resolved(link.kind),
        !is_http(link.dest),
    ensures
        markup_of(link) is None,
{
}

/// An email link opens as an anchor whose one attribute is an `href` made of
/// `mailto:` and the address, and closes with `</a>`.
pub proof fn email_link_is_mailto(link: LinkView)
    requires
        link.kind == LinkKind::Email,
    ensures
        link.edge == Edge::Open ==> (markup_of(link) matches Some(m)
            && "<a href=\"mailto:"@.is_prefix_of(m) && m == "<a href=\"mailto:"@ + link.dest
            + "\">"@),
        link.edge == Edge::Close ==> markup_of(link) == Some("</a>"@),
{
    lemma_prefix_of_concat("<a href=\"mailto:"@, link.dest);
    lemma_prefix_of_concat("<a href=\"mailto:"@ + link.dest, "\">"@);
}

/// An autolink opens as an anchor whose `href` is the destination itself,
/// with nothing put before it, ending with `target="_blank"`, and closes with
/// `</a>`.
pub proof fn autolink_opens_new_context(link: LinkView)
    requires
        link.kind == LinkKind::Autolink,
    ensures
        link.edge == Edge::Open ==> (markup_of(link) matches Some(m) && m == "<a href=\""@
            + link.dest + "\" target=\"_blank\">"@ && " target=\"_blank\">"@.is_suffix_of(m)),
        link.edge == Edge::Close ==> markup_of(link) == Some("</a>"@),
{
    lemma_ends_with_target("<a href=\""@ + link.dest);
}

/// A link whose reference could not be resolved is kept as it was written, at
/// both of its events.
pub proof fn unknown_link_is_kept(link: LinkView)
    requires
        link.kind == LinkKind::ReferenceUnknown || link.kind == LinkKind::CollapsedUnknown
            || link.kind == LinkKind::ShortcutUnknown,
    ensures
        markup_of(link) is None,
{
}

/// A stream with no link events comes out of the rewrite as it went in.
pub proof fn stream_without_links_is_kept(before: Seq<Event<'_>>, after: Seq<Event<'_>>)
    requires
        rewritten(before, after),
        forall|i: int| 0 <= i < before.len() ==> link_type_of(#[trigger] before[i]) is None,
    ensures
        after == before,
{
    assert forall|i: int| 0 <= i < before.len() implies after[i] == before[i] by {
        assert(event_rewritten(before[i], after[i]));
        assert(link_type_of(before[i]) is None);
    }
    assert(after =~= before);
}

/// A document whose parse holds no link events is rewritten into the
/// serialization of its own events: nothing in it is replaced. Anchors already
/// written as raw HTML are no link events, so rewriting such output again
/// changes nothing but what the serializer itself normalizes.
pub proof fn text_without_links_is_kept(text: Seq<char>, out: Seq<char>)
    requires
        forall|i: int|
            0 <= i < parsed_of(text).len() ==> link_type_of(#[trigger] parsed_of(text)[i]) is None,
        exists|after: Seq<Event<'static>>|
            rewritten(parsed_of(text), after) && out == serialized_of(after),
    ensures
        out == serialized_of(parsed_of(text)),
{
    let after = choose|after: Seq<Event<'static>>|
        rewritten(parsed_of(text), after) && out == serialized_of(after);
    stream_without_links_is_kept(parsed_of(text), after);
}

/// In a rewritten stream, the start event of a link goes by its kind and
/// destination: an email link becomes a `mailto:` anchor, an autolink an anchor
/// with `target="_blank"`, a resolved link to an `http` destination an anchor
/// with its title and `target="_blank"`; a resolved link to any other
/// destination, and an unresolved one, stand unchanged.
pub proof fn stream_link_start_follows_policy(
    before: Seq<Event<'_>>,
    after: Seq<Event<'_>>,
    i: int,
    lt: LinkType,
    d: CowStr<'_>,
    t: CowStr<'_>,
)
    requires
        rewritten(before, after),
        0 <= i < before.len(),
        before[i] == Event::Start(Tag::Link(lt, d, t)),
    ensures
        lt == LinkType::Email ==> (after[i] matches Event::Html(c) && cow_text(c)
            == "<a href=\"mailto:"@ + cow_text(d) + "\">"@),
        lt == LinkType::Autolink ==> (after[i] matches Event::Html(c) && cow_text(c)
            == "<a href=\""@ + cow_text(d) + "\" target=\"_blank\">"@),
        is_resolved(kind_spec(lt)) && is_http(cow_text(d)) ==> (after[i] matches Event::Html(c)
            && cow_text(c) == "<a href=\""@ + cow_text(d) + "\" title=\""@ + cow_text(t)
            + "\" target=\"_blank\">"@),
        is_resolved(kind_spec(lt)) && !is_http(cow_text(d)) ==> after[i] == before[i],
        (lt == LinkType::ReferenceUnknown || lt == LinkType::CollapsedUnknown || lt
            == LinkType::ShortcutUnknown) ==> after[i] == before[i],
{
    assert(event_rewritten(before[i], after[i]));
}

/// In a rewritten stream, the end event of a link whose start became an anchor
/// becomes `</a>`; the end of any other link stands unchanged.
pub proof fn stream_link_end_follows_policy(
    before: Seq<Event<'_>>,
    after: Seq<Event<'_>>,
    i: int,
    lt: LinkType,
    d: CowStr<'_>,
    t: CowStr<'_>,
)
    requires
        rewritten(before, after),
        0 <= i < before.len(),
        before[i] == Event::End(Tag::Link(lt, d, t)),
    ensures
        is_substituted(kind_spec(lt), cow_text(d)) ==> (after[i] matches Event::Html(c)
            && cow_text(c) == "</a>"@),
        !is_substituted(kind_spec(lt), cow_text(d)) ==> after[i] == before[i],
{
    assert(event_rewritten(before[i], after[i]));
}

} // verus!
