//! Server addresses and the formkey token.
use crate::text::{parse_u32, parse_u32_spec, pieces, split_on};
use crate::wilma::user::{user_type_of, UserType};
use crate::Error;
use vstd::prelude::*;

verus! {

/// The address of the server whose host name is `host`.
pub open spec fn server_url(host: Seq<char>) -> Seq<char> {
    "https://"@ + host
}

/// The HTTPS address of the server `data`.
pub fn verify_url(data: &str) -> (r: String)
    ensures
        r@ == server_url(data@),
{
    let mut r = String::from_str("https://");
    r.append(data);
    r
}

/// What a formkey `type:id:secret` stands for: the account kind, the user id and the
/// secret. It must have at least three colon-separated parts, and the id must be a
/// non-negative integer; an unknown account kind is `Unknown`, not an error.
pub open spec fn formkey_spec(formkey: Seq<char>) -> Result<(UserType, u32, Seq<char>), Error> {
    let p = pieces(formkey, ':');
    if p.len() < 3 {
        Err(Error::MalformedFormkey)
    } else {
        match parse_u32_spec(p[1]) {
            None => Err(Error::InvalidUserId),
            Some(id) => Ok((user_type_of(p[0]), id, p[2])),
        }
    }
}

/// Splits a formkey into (user type, user id, session secret).
pub fn parse_formkey(formkey: &str) -> (r: Result<(UserType, u32, String), Error>)
    ensures
        match formkey_spec(formkey@) {
            Ok((t, id, secret)) => r is Ok && r->Ok_0.0 == t && r->Ok_0.1 == id && r->Ok_0.2@
                == secret,
            Err(e) => r == Err::<(UserType, u32, String), Error>(e),
        },
{
    let parts = split_on(formkey, ':');
    proof {
        assert(parts@.len() == pieces(formkey@, ':').len());
    }
    if parts.len() < 3 {
        return Err(Error::MalformedFormkey);
    }
    assert(parts@[0]@ == pieces(formkey@, ':')[0]);
    assert(parts@[1]@ == pieces(formkey@, ':')[1]);
    assert(parts@[2]@ == pieces(formkey@, ':')[2]);
    let user_type = UserType::from_name(parts[0]);
    match parse_u32(parts[1]) {
        None => Err(Error::InvalidUserId),
        Some(id) => Ok((user_type, id, String::from_str(parts[2]))),
    }
}

} // verus!
