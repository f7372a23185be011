//! The identity suffix of the authenticated landing page.
use crate::parser::{extract_field, extract_spec};
use crate::text::chars_of;
use crate::Error;
use vstd::prelude::*;

verus! {

/// The marker of the line that holds the identity link.
pub open spec fn identity_marker() -> Seq<char> {
    "text-style-link"@
}

/// The identity suffix that the link target `href` gives: the target without its
/// leading separator. An empty target has none.
pub open spec fn identity_of_href(href: Seq<char>) -> Result<Seq<char>, Error> {
    if href.len() == 0 {
        Err(Error::FieldNotFound)
    } else {
        Ok(href.drop_first())
    }
}

/// What `parse_identity` reads from `document`.
pub open spec fn identity_spec(document: Seq<char>) -> Result<Seq<char>, Error> {
    match extract_spec(document, identity_marker(), "a"@, Some("href"@)) {
        Err(e) => Err(e),
        Ok(href) => identity_of_href(href),
    }
}

/// The identity suffix of the link target `href`: `href` without its first character.
pub fn identity_from_href(href: &str) -> (r: Result<String, Error>)
    ensures
        match identity_of_href(href@) {
            Ok(v) => r is Ok && r->Ok_0@ == v,
            Err(e) => r == Err::<String, Error>(e),
        },
{
    let cs = chars_of(href);
    if cs.len() == 0 {
        return Err(Error::FieldNotFound);
    }
    let rest = href.substring_char(1, cs.len());
    assert(rest@ =~= href@.drop_first());
    Ok(String::from_str(rest))
}

/// The identity suffix of the landing page `document`: the `href` of the first `a` on
/// the line that mentions `text-style-link`, without its leading separator.
pub fn parse_identity(document: &str) -> (r: Result<String, Error>)
    ensures
        match identity_spec(document@) {
            Ok(v) => r is Ok && r->Ok_0@ == v,
            Err(e) => r == Err::<String, Error>(e),
        },
{
    match extract_field(document, "text-style-link", "a", Some("href")) {
        Err(e) => Err(e),
        Ok(href) => identity_from_href(href.as_str()),
    }
}

} // verus!
