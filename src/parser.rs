//! Reading fields out of HTML pages: the line that holds a marker, then one
//! element of that line parsed as a fragment.
use crate::text::{chars_of, contains, contains_text, pieces, split_on};
use crate::Error;
use vstd::prelude::*;

pub mod identity;
pub mod user;

verus! {

/// The first of `lines` that holds `marker`.
pub open spec fn first_containing(lines: Seq<Seq<char>>, marker: Seq<char>) -> Option<Seq<char>>
    decreases lines.len(),
{
    if lines.len() == 0 {
        None
    } else if contains(lines[0], marker) {
        Some(lines[0])
    } else {
        first_containing(lines.drop_first(), marker)
    }
}

/// The lines of `document`: it cut at every `'\n'`.
pub open spec fn lines_of(document: Seq<char>) -> Seq<Seq<char>> {
    pieces(document, '\n')
}

/// The first line of `document` that holds `marker`.
pub open spec fn find_line_spec(document: Seq<char>, marker: Seq<char>) -> Option<Seq<char>> {
    first_containing(lines_of(document), marker)
}

proof fn lemma_first_containing(lines: Seq<Seq<char>>, marker: Seq<char>)
    ensures
        (forall|i: int| 0 <= i < lines.len() ==> !contains(#[trigger] lines[i], marker))
            ==> first_containing(lines, marker) is None,
        forall|i: int|
            0 <= i < lines.len() && contains(#[trigger] lines[i], marker) && (forall|j: int|
                0 <= j < i ==> !contains(#[trigger] lines[j], marker)) ==> first_containing(
                lines,
                marker,
            ) == Some(lines[i]),
    decreases lines.len(),
{
    if lines.len() > 0 {
        let rest = lines.drop_first();
        lemma_first_containing(rest, marker);
        assert forall|i: int| 0 <= i < rest.len() implies rest[i] == lines[i + 1] by {}
        if !contains(lines[0], marker) {
            assert forall|i: int|
                0 <= i < lines.len() && contains(#[trigger] lines[i], marker) && (forall|j: int|
                    0 <= j < i ==> !contains(#[trigger] lines[j], marker)) implies first_containing(
                lines,
                marker,
            ) == Some(lines[i]) by {
                assert(i > 0);
                assert(rest[i - 1] == lines[i]);
                assert forall|j: int| 0 <= j < i - 1 implies !contains(#[trigger] rest[j], marker) by {
                    assert(rest[j] == lines[j + 1]);
                }
            }
            if forall|i: int| 0 <= i < lines.len() ==> !contains(#[trigger] lines[i], marker) {
                assert forall|i: int| 0 <= i < rest.len() implies !contains(#[trigger] rest[i], marker) by {
                    assert(rest[i] == lines[i + 1]);
                }
            }
        } else {
            assert forall|i: int|
                0 <= i < lines.len() && contains(#[trigger] lines[i], marker) && (forall|j: int|
                    0 <= j < i ==> !contains(#[trigger] lines[j], marker)) implies first_containing(
                lines,
                marker,
            ) == Some(lines[i]) by {
                if i > 0 {
                    assert(!contains(lines[0], marker));
                }
            }
        }
    }
}

/// The line finder reports no line when no line of the document holds the marker,
/// and when several lines hold it, it gives the first of them.
pub proof fn lemma_find_line_first_match(document: Seq<char>, marker: Seq<char>)
    ensures
        (forall|i: int|
            0 <= i < lines_of(document).len() ==> !contains(#[trigger] lines_of(document)[i], marker))
            ==> find_line_spec(document, marker) is None,
        forall|i: int|
            0 <= i < lines_of(document).len() && contains(#[trigger] lines_of(document)[i], marker)
                && (forall|j: int|
                0 <= j < i ==> !contains(#[trigger] lines_of(document)[j], marker))
                ==> find_line_spec(document, marker) == Some(lines_of(document)[i]),
{
    lemma_first_containing(lines_of(document), marker);
}

/// The first line of `document` that holds `pattern`, or `None` if no line does.
pub fn filter_line<'a>(pattern: &str, document: &'a str) -> (r: Option<&'a str>)
    ensures
        match r {
            Some(line) => find_line_spec(document@, pattern@) == Some(line@),
            None => find_line_spec(document@, pattern@) is None,
        },
{
    let lines = split_on(document, '\n');
    let ghost all = lines@.map_values(|p: &str| p@);
    let mut i: usize = 0;
    assert(all.skip(0) =~= all);
    while i < lines.len()
        invariant
            all == lines@.map_values(|p: &str| p@),
            all == lines_of(document@),
            i <= lines.len(),
            first_containing(all, pattern@) == first_containing(all.skip(i as int), pattern@),
        decreases lines.len() - i,
    {
        let line = lines[i];
        let found = contains_text(line, pattern);
        assert(all.skip(i as int)[0] == line@);
        assert(all.skip(i as int).drop_first() =~= all.skip(i + 1));
        if found {
            return Some(line);
        }
        i = i + 1;
    }
    assert(all.skip(i as int) =~= Seq::<Seq<char>>::empty());
    None
}

/// The longest line, in characters, that is handed to the HTML parser: at four bytes a
/// character its UTF-8 text stays below the parser's limit of `u32::MAX` bytes.
pub const MAX_FRAGMENT_CHARS: usize = 0x3fff_ffff;

/// Whether `c` is an ASCII letter.
pub open spec fn is_ascii_letter(c: char) -> bool {
    ('a' <= c && c <= 'z') || ('A' <= c && c <= 'Z')
}

/// Whether `tag` is a plain element name: an ASCII letter followed by ASCII letters
/// and digits, as `span`, `a` or `h1`.
pub open spec fn is_tag_name(tag: Seq<char>) -> bool {
    &&& tag.len() > 0
    &&& is_ascii_letter(tag[0])
    &&& forall|i: int|
        0 <= i < tag.len() ==> is_ascii_letter(#[trigger] tag[i]) || ('0' <= tag[i] && tag[i] <= '9')
}

/// Whether `tag` is a plain element name.
pub fn check_tag_name(tag: &str) -> (r: bool)
    ensures
        r == is_tag_name(tag@),
{
    let cs = chars_of(tag);
    if cs.len() == 0 {
        return false;
    }
    let first = cs[0];
    if !(('a' <= first && first <= 'z') || ('A' <= first && first <= 'Z')) {
        return false;
    }
    let mut i: usize = 0;
    while i < cs.len()
        invariant
            cs@ == tag@,
            i <= cs.len(),
            forall|k: int|
                0 <= k < i ==> is_ascii_letter(#[trigger] cs@[k]) || ('0' <= cs@[k] && cs@[k]
                    <= '9'),
        decreases cs.len() - i,
    {
        let c = cs[i];
        if !(('a' <= c && c <= 'z') || ('A' <= c && c <= 'Z') || ('0' <= c && c <= '9')) {
            return false;
        }
        i = i + 1;
    }
    true
}

/// What scraper finds for `attribute` on the first element named `tag` in `fragment`,
/// parsed as a standalone HTML fragment.
pub uninterp spec fn fragment_attribute(
    fragment: Seq<char>,
    tag: Seq<char>,
    attribute: Seq<char>,
) -> Option<Seq<char>>;

/// The text of the first child node, when it is a text node, of the first element
/// named `tag` in `fragment`, parsed as a standalone HTML fragment.
pub uninterp spec fn fragment_text(fragment: Seq<char>, tag: Seq<char>) -> Option<Seq<char>>;

/// Relies on scraper: `Html::parse_fragment`, `Selector::parse` on the tag name, the
/// first element that `Html::select` yields, and `Element::attr`. The answer depends on
/// the three strings alone. The parser holds the fragment in one buffer of at most
/// `u32::MAX` bytes and panics beyond it, hence the bound. The selector parser recurses
/// on nested selectors without a depth limit, so only a plain element name is handed
/// to it.
#[verifier::external_body]
fn first_attribute(fragment: &str, tag: &str, attribute: &str) -> (r: Option<String>)
    requires
        fragment@.len() <= MAX_FRAGMENT_CHARS,
        is_tag_name(tag@),
    ensures
        r is Some <==> fragment_attribute(fragment@, tag@, attribute@) is Some,
        r is Some ==> r->0@ == fragment_attribute(fragment@, tag@, attribute@)->0,
{
    let html = scraper::Html::parse_fragment(fragment);
    let selector = scraper::Selector::parse(tag).ok()?;
    let element = html.select(&selector).next()?;
    element.value().attr(attribute).map(|v| v.to_string())
}

/// Relies on scraper: `Html::parse_fragment`, `Selector::parse` on the tag name, the
/// first element that `Html::select` yields, its first child node, and `Node::as_text`.
/// The answer depends on the two strings alone. The parser holds the fragment in one
/// buffer of at most `u32::MAX` bytes and panics beyond it, hence the bound. The
/// selector parser recurses on nested selectors without a depth limit, so only a plain
/// element name is handed to it.
#[verifier::external_body]
fn first_text(fragment: &str, tag: &str) -> (r: Option<String>)
    requires
        fragment@.len() <= MAX_FRAGMENT_CHARS,
        is_tag_name(tag@),
    ensures
        r is Some <==> fragment_text(fragment@, tag@) is Some,
        r is Some ==> r->0@ == fragment_text(fragment@, tag@)->0,
{
    let html = scraper::Html::parse_fragment(fragment);
    let selector = scraper::Selector::parse(tag).ok()?;
    let element = html.select(&selector).next()?;
    let child = element.children().next()?;
    child.value().as_text().map(|t| t.to_string())
}

/// The characters of an optional text.
pub open spec fn text_view(t: Option<&str>) -> Option<Seq<char>> {
    match t {
        Some(x) => Some(x@),
        None => None,
    }
}

/// What `decode_field` reads from `line`: the attribute's value when one is named,
/// else the first child text. A line too long for the parser is refused, and a `tag`
/// that is not a plain element name matches no element.
pub open spec fn field_spec(line: Seq<char>, tag: Seq<char>, attribute: Option<Seq<char>>) -> Result<
    Seq<char>,
    Error,
> {
    if line.len() > MAX_FRAGMENT_CHARS {
        Err(Error::FragmentTooLong)
    } else if !is_tag_name(tag) {
        Err(Error::FieldNotFound)
    } else {
        match match attribute {
            Some(a) => fragment_attribute(line, tag, a),
            None => fragment_text(line, tag),
        } {
            Some(v) => Ok(v),
            None => Err(Error::FieldNotFound),
        }
    }
}

/// Parses `line` as a standalone fragment and reads the first element named `tag`: the
/// value of `attribute` if one is given, else its first child text node. `tag` must be
/// a plain element name; any other text finds nothing.
pub fn decode_field(line: &str, tag: &str, attribute: Option<&str>) -> (r: Result<String, Error>)
    ensures
        match field_spec(line@, tag@, text_view(attribute)) {
            Ok(v) => r is Ok && r->Ok_0@ == v,
            Err(e) => r == Err::<String, Error>(e),
        },
{
    if line.unicode_len() > MAX_FRAGMENT_CHARS {
        return Err(Error::FragmentTooLong);
    }
    if !check_tag_name(tag) {
        return Err(Error::FieldNotFound);
    }
    let found = match attribute {
        Some(a) => first_attribute(line, tag, a),
        None => first_text(line, tag),
    };
    match found {
        Some(v) => Ok(v),
        None => Err(Error::FieldNotFound),
    }
}

/// What `extract_field` reads from `document`: the field of the first line that holds
/// `marker`.
pub open spec fn extract_spec(
    document: Seq<char>,
    marker: Seq<char>,
    tag: Seq<char>,
    attribute: Option<Seq<char>>,
) -> Result<Seq<char>, Error> {
    match find_line_spec(document, marker) {
        None => Err(Error::LineNotFound),
        Some(line) => field_spec(line, tag, attribute),
    }
}

/// Finds the first line of `document` that holds `marker` and decodes the field of
/// its first `tag` element.
pub fn extract_field(document: &str, marker: &str, tag: &str, attribute: Option<&str>) -> (r: Result<
    String,
    Error,
>)
    ensures
        match extract_spec(document@, marker@, tag@, text_view(attribute)) {
            Ok(v) => r is Ok && r->Ok_0@ == v,
            Err(e) => r == Err::<String, Error>(e),
        },
{
    match filter_line(marker, document) {
        None => Err(Error::LineNotFound),
        Some(line) => decode_field(line, tag, attribute),
    }
}

} // verus!
