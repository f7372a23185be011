//! Course groups.
use vstd::prelude::*;

verus! {

/// A course group that the user belongs to.
#[derive(Clone, Debug)]
pub struct Group {
    pub id: u32,
    pub course_id: u32,
    pub course_name: String,
    pub code: String,
    pub name: String,
    pub caption: String,
    pub start_date: String,
    pub end_date: String,
    pub committed: bool,
}

} // verus!
