//! The fields of the profile page.
use crate::parser::{extract_field, extract_spec};
use crate::utils::formkey_spec;
use crate::wilma::user::{User, UserView};
use crate::text::pieces;
use crate::Error;
use vstd::prelude::*;

verus! {

/// The marker of the line that holds the user's name.
pub open spec fn name_marker() -> Seq<char> {
    "class=\"teacher\""@
}

/// The marker of the line that holds the school's name.
pub open spec fn school_marker() -> Seq<char> {
    "class=\"school\""@
}

/// The marker of the line that holds the formkey.
pub open spec fn formkey_marker() -> Seq<char> {
    "formkey"@
}

/// The user's name: the first text of the `span` on the line marked `class="teacher"`.
pub fn parse_name(document: &str) -> (r: Result<String, Error>)
    ensures
        match extract_spec(document@, name_marker(), "span"@, None) {
            Ok(v) => r is Ok && r->Ok_0@ == v,
            Err(e) => r == Err::<String, Error>(e),
        },
{
    extract_field(document, "class=\"teacher\"", "span", None)
}

/// The formkey: the `value` of the `input` on the line that mentions `formkey`.
pub fn parse_formkey(document: &str) -> (r: Result<String, Error>)
    ensures
        match extract_spec(document@, formkey_marker(), "input"@, Some("value"@)) {
            Ok(v) => r is Ok && r->Ok_0@ == v,
            Err(e) => r == Err::<String, Error>(e),
        },
{
    extract_field(document, "formkey", "input", Some("value"))
}

/// The school's name: the first text of the `span` on the line marked `class="school"`.
pub fn parse_school(document: &str) -> (r: Result<String, Error>)
    ensures
        match extract_spec(document@, school_marker(), "span"@, None) {
            Ok(v) => r is Ok && r->Ok_0@ == v,
            Err(e) => r == Err::<String, Error>(e),
        },
{
    extract_field(document, "class=\"school\"", "span", None)
}

/// What `parse_user` reads from the profile page `document`.
pub open spec fn user_page_spec(document: Seq<char>) -> Result<UserView, Error> {
    match extract_spec(document, name_marker(), "span"@, None) {
        Err(e) => Err(e),
        Ok(name) => match extract_spec(document, school_marker(), "span"@, None) {
            Err(e) => Err(e),
            Ok(school) => match extract_spec(document, formkey_marker(), "input"@, Some("value"@)) {
                Err(e) => Err(e),
                Ok(formkey) => match formkey_spec(formkey) {
                    Err(e) => Err(e),
                    Ok((t, _, _)) => Ok(
                        UserView {
                            name,
                            school,
                            formkey,
                            user_type: t,
                            user_id: pieces(formkey, ':')[1],
                        },
                    ),
                },
            },
        },
    }
}

/// The profile on the page `document`: name, school and formkey, in that order; the
/// first that cannot be read gives the error.
pub fn parse_user(document: &str) -> (r: Result<User, Error>)
    ensures
        match user_page_spec(document@) {
            Ok(u) => r is Ok && r->Ok_0@ == u,
            Err(e) => r is Err && r->Err_0 == e,
        },
{
    let name = match parse_name(document) {
        Ok(v) => v,
        Err(e) => return Err(e),
    };
    let school = match parse_school(document) {
        Ok(v) => v,
        Err(e) => return Err(e),
    };
    let formkey = match parse_formkey(document) {
        Ok(v) => v,
        Err(e) => return Err(e),
    };
    User::new(name, school, formkey)
}

} // verus!
