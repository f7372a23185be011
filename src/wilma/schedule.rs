//! The user's schedule.
use crate::wilma::reservation::Reservation;
use crate::wilma::term::Term;
use vstd::prelude::*;

verus! {

/// The terms of the school year and the lessons of the schedule.
#[derive(Clone, Debug)]
pub struct Schedule {
    pub terms: Vec<Term>,
    pub reservations: Vec<Reservation>,
}

} // verus!
