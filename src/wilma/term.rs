//! School terms.
use vstd::prelude::*;

verus! {

/// A term of the school year.
#[derive(Clone, Debug)]
pub struct Term {
    pub end_date: String,
    pub name: String,
    pub start_date: String,
}

} // verus!
