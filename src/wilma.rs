//! The records that the portal's pages and JSON answers describe.
use vstd::prelude::*;

pub mod exam;
pub mod group;
pub mod overview;
pub mod reservation;
pub mod schedule;
pub mod term;
pub mod user;

pub use exam::Exam;
pub use schedule::Schedule;
pub use user::User;

verus! {

/// What `IndexResponse` holds.
pub struct IndexResponseView {
    pub login_result: Seq<char>,
    pub session_id: Seq<char>,
    pub api_version: u32,
}

/// The answer of the unauthenticated `index_json` endpoint.
#[derive(Clone, Debug)]
pub struct IndexResponse {
    login_result: String,
    session_id: String,
    api_version: u32,
}

impl View for IndexResponse {
    type V = IndexResponseView;

    closed spec fn view(&self) -> IndexResponseView {
        IndexResponseView {
            login_result: self.login_result@,
            session_id: self.session_id@,
            api_version: self.api_version,
        }
    }
}

impl IndexResponse {
    /// An answer with the given fields.
    pub fn new(login_result: String, session_id: String, api_version: u32) -> (r: IndexResponse)
        ensures
            r@.login_result == login_result@,
            r@.session_id == session_id@,
            r@.api_version == api_version,
    {
        IndexResponse { login_result, session_id, api_version }
    }

    pub fn api_version(&self) -> (r: u32)
        ensures
            r == self@.api_version,
    {
        self.api_version
    }

    pub fn login_result(&self) -> (r: &String)
        ensures
            r@ == self@.login_result,
    {
        &self.login_result
    }

    /// The session id that the login form must carry.
    pub fn session_id(&self) -> (r: &String)
        ensures
            r@ == self@.session_id,
    {
        &self.session_id
    }
}

} // verus!
