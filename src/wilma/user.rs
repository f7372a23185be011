//! The logged-in user's profile.
use crate::text::{pieces, same_text, split_on};
use crate::utils::{formkey_spec, parse_formkey};
use crate::Error;
use vstd::prelude::*;

verus! {

/// The kind of account, as the first part of a formkey names it.
#[derive(Clone, Copy, Debug, PartialEq, Eq, Structural)]
pub enum UserType {
    /// Teacher
    Teacher,
    /// Student
    Student,
    /// School personnel
    Personnel,
    /// Parent of the student
    Guardian,
    /// Workplace instructor
    Instructor,
    /// Management
    Management,
    /// An account that has to choose a role before going on, for example a guardian
    /// of several students.
    Passwd,
    /// Any other name
    Unknown,
}

/// The account kind that `name` stands for; a name outside the closed set is `Unknown`.
pub open spec fn user_type_of(name: Seq<char>) -> UserType {
    if name == "teacher"@ {
        UserType::Teacher
    } else if name == "student"@ {
        UserType::Student
    } else if name == "personnel"@ {
        UserType::Personnel
    } else if name == "guardian"@ {
        UserType::Guardian
    } else if name == "instructor"@ {
        UserType::Instructor
    } else if name == "management"@ {
        UserType::Management
    } else if name == "passwd"@ {
        UserType::Passwd
    } else {
        UserType::Unknown
    }
}

impl UserType {
    /// The account kind that `name` stands for, `Unknown` when it is none of the known ones.
    pub fn from_name(name: &str) -> (r: UserType)
        ensures
            r == user_type_of(name@),
    {
        if same_text(name, "teacher") {
            UserType::Teacher
        } else if same_text(name, "student") {
            UserType::Student
        } else if same_text(name, "personnel") {
            UserType::Personnel
        } else if same_text(name, "guardian") {
            UserType::Guardian
        } else if same_text(name, "instructor") {
            UserType::Instructor
        } else if same_text(name, "management") {
            UserType::Management
        } else if same_text(name, "passwd") {
            UserType::Passwd
        } else {
            UserType::Unknown
        }
    }
}

impl<'a> From<&'a str> for UserType {
    fn from(name: &'a str) -> (r: UserType)
        ensures
            r == user_type_of(name@),
    {
        UserType::from_name(name)
    }
}

impl<'a> vstd::std_specs::convert::FromSpecImpl<&'a str> for UserType {
    open spec fn obeys_from_spec() -> bool {
        true
    }

    open spec fn from_spec(name: &'a str) -> UserType {
        user_type_of(name@)
    }
}

/// What a `User` holds.
pub struct UserView {
    pub name: Seq<char>,
    pub school: Seq<char>,
    pub formkey: Seq<char>,
    pub user_type: UserType,
    pub user_id: Seq<char>,
}

/// A user's profile.
#[derive(Clone, Debug)]
pub struct User {
    name: String,
    school: String,
    formkey: String,
    user_type: UserType,
    user_id: String,
}

impl View for User {
    type V = UserView;

    closed spec fn view(&self) -> UserView {
        UserView {
            name: self.name@,
            school: self.school@,
            formkey: self.formkey@,
            user_type: self.user_type,
            user_id: self.user_id@,
        }
    }
}

impl User {
    /// A profile with the given name, school and formkey; the account kind and user id
    /// come from the formkey, the id as the formkey writes it. A formkey that
    /// `parse_formkey` refuses gives its error.
    pub fn new(name: String, school: String, formkey: String) -> (r: Result<User, Error>)
        ensures
            match formkey_spec(formkey@) {
                Ok((t, _, _)) => r is Ok && r->Ok_0@ == (UserView {
                    name: name@,
                    school: school@,
                    formkey: formkey@,
                    user_type: t,
                    user_id: pieces(formkey@, ':')[1],
                }),
                Err(e) => r == Err::<User, Error>(e),
            },
    {
        match parse_formkey(formkey.as_str()) {
            Err(e) => Err(e),
            Ok((user_type, _, _)) => {
                let parts = split_on(formkey.as_str(), ':');
                assert(parts@.len() == pieces(formkey@, ':').len());
                assert(parts@[1]@ == pieces(formkey@, ':')[1]);
                let user_id = String::from_str(parts[1]);
                Ok(User { name, school, formkey, user_type, user_id })
            },
        }
    }

    /// A formkey is like a CSRF token, but only changes when logging in and out.
    /// It has the structure `user_type:user_id:session_key`.
    pub fn formkey(&self) -> (r: &String)
        ensures
            r@ == self@.formkey,
    {
        &self.formkey
    }

    /// The user's name.
    pub fn name(&self) -> (r: &String)
        ensures
            r@ == self@.name,
    {
        &self.name
    }

    /// The school the user goes to.
    pub fn school(&self) -> (r: &String)
        ensures
            r@ == self@.school,
    {
        &self.school
    }

    /// The kind of account.
    pub fn user_type(&self) -> (r: &UserType)
        ensures
            *r == self@.user_type,
    {
        &self.user_type
    }

    /// The account's id, as the formkey writes it.
    pub fn user_id(&self) -> (r: &String)
        ensures
            r@ == self@.user_id,
    {
        &self.user_id
    }
}

} // verus!
