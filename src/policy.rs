//! The link policy: which link occurrences are replaced by raw anchor markup,
//! and what that markup is.
use vstd::prelude::*;
use vstd::string::*;

verus! {

/// The syntactic form in which a link was written.
#[derive(Clone, Copy, Debug, PartialEq, Eq, Structural)]
pub enum LinkKind {
    /// `[text](dest)`
    Inline,
    /// `[text][label]`
    Reference,
    /// `[text][label]` whose label has no definition.
    ReferenceUnknown,
    /// `[label][]`
    Collapsed,
    /// `[label][]` whose label has no definition.
    CollapsedUnknown,
    /// `[label]`
    Shortcut,
    /// `[label]` whose label has no definition.
    ShortcutUnknown,
    /// `<http://host/path>`
    Autolink,
    /// `<user@host>`
    Email,
}

/// Whether an event opens or closes a link.
#[derive(Clone, Copy, Debug, PartialEq, Eq, Structural)]
pub enum Edge {
    Open,
    Close,
}

/// One link event: its edge, kind, destination and title.
#[derive(Debug)]
pub struct Link {
    pub edge: Edge,
    pub kind: LinkKind,
    pub dest: String,
    pub title: String,
}

/// The mathematical value of a [`Link`].
pub ghost struct LinkView {
    pub edge: Edge,
    pub kind: LinkKind,
    pub dest: Seq<char>,
    pub title: Seq<char>,
}

impl View for Link {
    type V = LinkView;

    open spec fn view(&self) -> LinkView {
        LinkView { edge: self.edge, kind: self.kind, dest: self.dest@, title: self.title@ }
    }
}

/// The link forms whose destination the document resolves.
pub open spec fn is_resolved(kind: LinkKind) -> bool {
    matches!(kind, LinkKind::Shortcut | LinkKind::Inline | LinkKind::Reference | LinkKind::Collapsed)
}

/// The destination begins with the four characters `http`.
pub open spec fn is_http(dest: Seq<char>) -> bool {
    &&& dest.len() >= 4
    &&& dest[0] == 'h'
    &&& dest[1] == 't'
    &&& dest[2] == 't'
    &&& dest[3] == 'p'
}

/// Whether links of this kind and destination are replaced by raw markup.
pub open spec fn is_substituted(kind: LinkKind, dest: Seq<char>) -> bool {
    match kind {
        LinkKind::Email | LinkKind::Autolink => true,
        _ => is_resolved(kind) && is_http(dest),
    }
}

/// The opening anchor written in place of a substituted link's start.
pub open spec fn open_anchor(kind: LinkKind, dest: Seq<char>, title: Seq<char>) -> Seq<char> {
    match kind {
        LinkKind::Email => "<a href=\"mailto:"@ + dest + "\">"@,
        LinkKind::Autolink => "<a href=\""@ + dest + "\" target=\"_blank\">"@,
        _ => "<a href=\""@ + dest + "\" title=\""@ + title + "\" target=\"_blank\">"@,
    }
}

/// The raw markup that replaces a link event, or `None` where the event is
/// kept as it is.
pub open spec fn markup_of(link: LinkView) -> Option<Seq<char>> {
    if !is_substituted(link.kind, link.dest) {
        None
    } else {
        match link.edge {
            Edge::Open => Some(open_anchor(link.kind, link.dest, link.title)),
            Edge::Close => Some("</a>"@),
        }
    }
}

/// Tests whether `dest` begins with `http`.
pub fn starts_with_http(dest: &str) -> (r: bool)
    ensures
        r == is_http(dest@),
{
    let n = dest.unicode_len();
    if n < 4 {
        return false;
    }
    dest.get_char(0) == 'h' && dest.get_char(1) == 't' && dest.get_char(2) == 't'
        && dest.get_char(3) == 'p'
}

/// Tests whether links of this kind and destination are replaced.
pub fn substitutes(kind: LinkKind, dest: &str) -> (r: bool)
    ensures
        r == is_substituted(kind, dest@),
{
    match kind {
        LinkKind::Email | LinkKind::Autolink => true,
        LinkKind::Shortcut | LinkKind::Inline | LinkKind::Reference | LinkKind::Collapsed => {
            starts_with_http(dest)
        },
        LinkKind::ReferenceUnknown | LinkKind::CollapsedUnknown | LinkKind::ShortcutUnknown => {
            false
        },
    }
}

/// Builds the opening anchor for a substituted link.
pub fn anchor_open(kind: LinkKind, dest: &str, title: &str) -> (r: String)
    ensures
        r@ == open_anchor(kind, dest@, title@),
{
    match kind {
        LinkKind::Email => {
            let mut s = String::from_str("<a href=\"mailto:");
            s.append(dest);
            s.append("\">");
            s
        },
        LinkKind::Autolink => {
            let mut s = String::from_str("<a href=\"");
            s.append(dest);
            s.append("\" target=\"_blank\">");
            s
        },
        _ => {
            let mut s = String::from_str("<a href=\"");
            s.append(dest);
            s.append("\" title=\"");
            s.append(title);
            s.append("\" target=\"_blank\">");
            s
        },
    }
}

/// The raw markup that replaces `link`, or `None` where the link event is
/// kept unchanged.
pub fn link_markup(link: &Link) -> (r: Option<String>)
    ensures
        r matches Some(s) ==> markup_of(link@) == Some(s@),
        r is None <==> markup_of(link@) is None,
{
    if !substitutes(link.kind, link.dest.as_str()) {
        return None;
    }
    match link.edge {
        Edge::Open => Some(anchor_open(link.kind, link.dest.as_str(), link.title.as_str())),
        Edge::Close => Some(String::from_str("</a>")),
    }
}

} // verus!
