//! The login handshake, as a state machine. The caller performs each action that it
//! returns (a request) and hands the answer back as the next event; the machine
//! decides what to send and reads what came back.
use crate::parser::identity::{identity_spec, parse_identity};
use crate::text::same_text;
use crate::utils::{server_url, verify_url};
use crate::wilma::{IndexResponse, IndexResponseView};
use crate::Error;
use vstd::prelude::*;

verus! {

/// The account to log in with and the host name of its server, `turku.inschool.fi`
/// for example.
#[derive(Clone, Debug)]
pub struct Credentials<'a> {
    pub username: &'a str,
    pub password: &'a str,
    pub server: &'a str,
}

/// How far the handshake has come.
#[derive(Clone, Copy, Debug, PartialEq, Eq, Structural)]
pub enum Phase {
    /// The session id has been asked for.
    AwaitingIndex,
    /// The credentials have been sent.
    AwaitingLogin,
    /// The landing page has been asked for with the session cookie.
    AwaitingIdentity,
    /// The session is established.
    Ready,
    /// The handshake has failed; it never produces a session.
    Failed,
}

/// An answer to the last action.
#[derive(Clone, Debug)]
pub enum Event {
    /// The decoded answer of `index_json`.
    Index(IndexResponse),
    /// The cookies that the login answer sets, as (name, value) pairs in order.
    LoginCookies(Vec<(String, String)>),
    /// The body of the landing page.
    IdentityPage(String),
    /// The request failed in transport.
    NetworkFailure,
    /// The answer could not be decoded.
    Malformed,
}

/// What the caller must do next.
#[derive(Clone, Debug)]
pub enum Action {
    /// GET `url` and decode it as the index answer.
    FetchIndex { url: String },
    /// POST `form` to `url`, form-encoded, without following redirects, and report the
    /// cookies of the answer.
    SubmitLogin { url: String, form: Vec<(String, String)> },
    /// Make a transport whose cookie store holds only `cookie` for `origin`, without
    /// following redirects, and GET `url` with it.
    OpenSession { cookie: String, origin: String, url: String },
    /// The session is ready: its requests go below `base_url`.
    Finish { base_url: String },
    /// The handshake failed with `error`.
    Fail { error: Error },
}

/// What an `Event` holds.
pub enum EventView {
    Index(IndexResponseView),
    LoginCookies(Seq<(Seq<char>, Seq<char>)>),
    IdentityPage(Seq<char>),
    NetworkFailure,
    Malformed,
}

/// What an `Action` holds.
pub enum ActionView {
    FetchIndex { url: Seq<char> },
    SubmitLogin { url: Seq<char>, form: Seq<(Seq<char>, Seq<char>)> },
    OpenSession { cookie: Seq<char>, origin: Seq<char>, url: Seq<char> },
    Finish { base_url: Seq<char> },
    Fail { error: Error },
}

/// The characters of each text of a list of pairs.
pub open spec fn pairs_view(v: Seq<(String, String)>) -> Seq<(Seq<char>, Seq<char>)> {
    v.map_values(|p: (String, String)| (p.0@, p.1@))
}

impl View for Event {
    type V = EventView;

    open spec fn view(&self) -> EventView {
        match self {
            Event::Index(ix) => EventView::Index(ix@),
            Event::LoginCookies(cs) => EventView::LoginCookies(pairs_view(cs@)),
            Event::IdentityPage(body) => EventView::IdentityPage(body@),
            Event::NetworkFailure => EventView::NetworkFailure,
            Event::Malformed => EventView::Malformed,
        }
    }
}

impl View for Action {
    type V = ActionView;

    open spec fn view(&self) -> ActionView {
        match self {
            Action::FetchIndex { url } => ActionView::FetchIndex { url: url@ },
            Action::SubmitLogin { url, form } => ActionView::SubmitLogin {
                url: url@,
                form: pairs_view(form@),
            },
            Action::OpenSession { cookie, origin, url } => ActionView::OpenSession {
                cookie: cookie@,
                origin: origin@,
                url: url@,
            },
            Action::Finish { base_url } => ActionView::Finish { base_url: base_url@ },
            Action::Fail { error } => ActionView::Fail { error: *error },
        }
    }
}

/// What a `Handshake` holds.
pub struct HandshakeView {
    pub server_url: Seq<char>,
    pub username: Seq<char>,
    pub password: Seq<char>,
    pub phase: Phase,
}

/// A login in progress.
#[derive(Debug)]
pub struct Handshake {
    server_url: String,
    username: String,
    password: String,
    phase: Phase,
}

impl View for Handshake {
    type V = HandshakeView;

    closed spec fn view(&self) -> HandshakeView {
        HandshakeView {
            server_url: self.server_url@,
            username: self.username@,
            password: self.password@,
            phase: self.phase,
        }
    }
}

/// The name of the session cookie.
pub open spec fn session_cookie_name() -> Seq<char> {
    "Wilma2SID"@
}

/// The value of the first cookie named `Wilma2SID` among `cookies`.
pub open spec fn session_cookie(cookies: Seq<(Seq<char>, Seq<char>)>) -> Option<Seq<char>>
    decreases cookies.len(),
{
    if cookies.len() == 0 {
        None
    } else if cookies[0].0 == session_cookie_name() {
        Some(cookies[0].1)
    } else {
        session_cookie(cookies.drop_first())
    }
}

/// The login form: login name, password, the session id of the index answer, and an
/// empty `CompleteJson`.
pub open spec fn login_form(h: HandshakeView, ix: IndexResponseView) -> Seq<(Seq<char>, Seq<char>)> {
    seq![
        ("Login"@, h.username),
        ("Password"@, h.password),
        ("SESSIONID"@, ix.session_id),
        ("CompleteJson"@, Seq::<char>::empty()),
    ]
}

/// The phase that follows a failure with `e`, and the action that reports it.
pub open spec fn fail_spec(e: Error) -> (Phase, ActionView) {
    (Phase::Failed, ActionView::Fail { error: e })
}

/// The phase and action that follow `event` in the handshake `h`. An answer that does
/// not fit the phase, or any answer after the end, fails the handshake as malformed.
pub open spec fn next_spec(h: HandshakeView, event: EventView) -> (Phase, ActionView) {
    match event {
        EventView::NetworkFailure => fail_spec(Error::Network),
        EventView::Malformed => fail_spec(Error::MalformedResponse),
        EventView::Index(ix) => if h.phase == Phase::AwaitingIndex {
            (
                Phase::AwaitingLogin,
                ActionView::SubmitLogin { url: h.server_url + "/login"@, form: login_form(h, ix) },
            )
        } else {
            fail_spec(Error::MalformedResponse)
        },
        EventView::LoginCookies(cs) => if h.phase == Phase::AwaitingLogin {
            match session_cookie(cs) {
                None => fail_spec(Error::InvalidCredentials),
                Some(v) => (
                    Phase::AwaitingIdentity,
                    ActionView::OpenSession {
                        cookie: session_cookie_name() + "="@ + v,
                        origin: h.server_url,
                        url: h.server_url,
                    },
                ),
            }
        } else {
            fail_spec(Error::MalformedResponse)
        },
        EventView::IdentityPage(body) => if h.phase == Phase::AwaitingIdentity {
            match identity_spec(body) {
                Err(e) => fail_spec(e),
                Ok(id) => (Phase::Ready, ActionView::Finish { base_url: h.server_url + "/"@ + id }),
            }
        } else {
            fail_spec(Error::MalformedResponse)
        },
    }
}

/// The text `prefix` followed by `rest`.
fn joined(prefix: &String, rest: &str) -> (r: String)
    ensures
        r@ == prefix@ + rest@,
{
    let mut r = prefix.clone();
    r.append(rest);
    r
}

/// The value of the first cookie named `Wilma2SID`.
fn find_session_cookie(cookies: &Vec<(String, String)>) -> (r: Option<String>)
    ensures
        match session_cookie(pairs_view(cookies@)) {
            Some(v) => r is Some && r->0@ == v,
            None => r is None,
        },
{
    let ghost all = pairs_view(cookies@);
    let mut i: usize = 0;
    assert(all.skip(0) =~= all);
    while i < cookies.len()
        invariant
            all == pairs_view(cookies@),
            i <= cookies.len(),
            session_cookie(all) == session_cookie(all.skip(i as int)),
        decreases cookies.len() - i,
    {
        let (name, value) = &cookies[i];
        assert(all.skip(i as int)[0] == (name@, value@));
        assert(all.skip(i as int).drop_first() =~= all.skip(i + 1));
        proof {
            reveal_strlit("Wilma2SID");
        }
        if same_text(name.as_str(), "Wilma2SID") {
            return Some(value.clone());
        }
        i = i + 1;
    }
    assert(all.skip(i as int) =~= Seq::<(Seq<char>, Seq<char>)>::empty());
    None
}

impl Handshake {
    /// Starts a login with `credentials`: the first action asks for `index_json`.
    pub fn start(credentials: &Credentials) -> (r: (Handshake, Action))
        ensures
            r.0@ == (HandshakeView {
                server_url: server_url(credentials.server@),
                username: credentials.username@,
                password: credentials.password@,
                phase: Phase::AwaitingIndex,
            }),
            r.1@ == (ActionView::FetchIndex {
                url: server_url(credentials.server@) + "/index_json"@,
            }),
    {
        let server_url = verify_url(credentials.server);
        let url = joined(&server_url, "/index_json");
        let h = Handshake {
            server_url,
            username: String::from_str(credentials.username),
            password: String::from_str(credentials.password),
            phase: Phase::AwaitingIndex,
        };
        (h, Action::FetchIndex { url })
    }

    /// How far the handshake has come.
    pub fn phase(&self) -> (r: Phase)
        ensures
            r == self@.phase,
    {
        self.phase
    }

    fn fail(&mut self, error: Error) -> (r: Action)
        ensures
            final(self)@ == (HandshakeView { phase: Phase::Failed, ..old(self)@ }),
            r@ == fail_spec(error).1,
    {
        self.phase = Phase::Failed;
        Action::Fail { error }
    }

    /// Takes the answer to the last action and returns the next action.
    pub fn step(&mut self, event: Event) -> (r: Action)
        ensures
            final(self)@ == (HandshakeView { phase: next_spec(old(self)@, event@).0, ..old(self)@ }),
            r@ == next_spec(old(self)@, event@).1,
    {
        match event {
            Event::NetworkFailure => self.fail(Error::Network),
            Event::Malformed => self.fail(Error::MalformedResponse),
            Event::Index(ix) => {
                if self.phase != Phase::AwaitingIndex {
                    return self.fail(Error::MalformedResponse);
                }
                let url = joined(&self.server_url, "/login");
                let mut form: Vec<(String, String)> = Vec::new();
                form.push((String::from_str("Login"), self.username.clone()));
                form.push((String::from_str("Password"), self.password.clone()));
                form.push((String::from_str("SESSIONID"), ix.session_id().clone()));
                form.push((String::from_str("CompleteJson"), String::new()));
                assert(pairs_view(form@) =~= login_form(old(self)@, ix@));
                self.phase = Phase::AwaitingLogin;
                Action::SubmitLogin { url, form }
            },
            Event::LoginCookies(cookies) => {
                if self.phase != Phase::AwaitingLogin {
                    return self.fail(Error::MalformedResponse);
                }
                match find_session_cookie(&cookies) {
                    None => self.fail(Error::InvalidCredentials),
                    Some(value) => {
                        let mut cookie = String::from_str("Wilma2SID=");
                        cookie.append(value.as_str());
                        proof {
                            reveal_strlit("Wilma2SID=");
                            reveal_strlit("Wilma2SID");
                            reveal_strlit("=");
                            assert(cookie@ =~= session_cookie_name() + "="@ + value@);
                        }
                        self.phase = Phase::AwaitingIdentity;
                        Action::OpenSession {
                            cookie,
                            origin: self.server_url.clone(),
                            url: self.server_url.clone(),
                        }
                    },
                }
            },
            Event::IdentityPage(body) => {
                if self.phase != Phase::AwaitingIdentity {
                    return self.fail(Error::MalformedResponse);
                }
                match parse_identity(body.as_str()) {
                    Err(e) => self.fail(e),
                    Ok(identity) => {
                        let mut base_url = joined(&self.server_url, "/");
                        base_url.append(identity.as_str());
                        self.phase = Phase::Ready;
                        Action::Finish { base_url }
                    },
                }
            },
        }
    }
}

} // verus!
