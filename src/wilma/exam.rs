//! Exams.
use vstd::prelude::*;

verus! {

/// An exam of a course.
#[derive(Clone, Debug)]
pub struct Exam {
    /// The id of the exam's entry.
    pub id: u32,
    /// The id of the exam.
    pub exam_id: u32,
    /// The course the exam is from.
    pub course: String,
    /// The id of the course the exam is from.
    pub course_id: u32,
    /// `None` while the exam has not been given a name.
    pub name: Option<String>,
    /// The title of the course the exam is from.
    pub course_title: String,
    /// The grade given for the exam; `None` until one is given.
    pub grade: Option<String>,
    /// The teachers of the exam.
    pub teachers: Vec<Teacher>,
    /// The date of the exam.
    pub date: String,
}

/// A teacher of an exam.
#[derive(Clone, Debug)]
pub struct Teacher {
    /// The id of the teacher.
    pub id: u32,
    /// The name of the teacher.
    pub name: String,
    /// An abbreviation of the teacher's name, usually the initials.
    pub code: String,
}

} // verus!
