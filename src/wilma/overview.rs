//! The overview page: lessons and exams together.
use crate::wilma::exam::Exam;
use crate::wilma::reservation::Reservation;
use vstd::prelude::*;

verus! {

/// The lessons and exams that the overview page lists.
#[derive(Clone, Debug)]
pub struct Overview {
    pub schedule: Vec<Reservation>,
    pub exams: Vec<Exam>,
}

} // verus!
