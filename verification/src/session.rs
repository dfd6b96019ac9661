//! Session-identity mapping and the login decisions of the web boundary.
//!
//! After a successful login the web boundary persists an opaque identity
//! token, minted here as the fixed prefix `"user:"` followed by the
//! username; a request is authenticated exactly when its token parses back.
//! This module holds no state of its own: logging out is the boundary
//! dropping the token.
use vstd::prelude::*;
use vstd::string::StrSliceExecFns;
use vstd::string::StringExecFns;

verus! {

/// Form data of a login submission.
#[derive(Debug, Clone)]
pub struct LoginPostData {
    pub username: String,
    pub password: String,
}

/// The fixed prefix a session identity token carries before the username.
pub open spec fn identity_prefix() -> Seq<char> {
    "user:"@
}

/// The token minted for a logged-in user.
pub open spec fn spec_mint_identity(username: Seq<char>) -> Seq<char> {
    identity_prefix() + username
}

/// The username a token stands for: what follows the fixed prefix, or
/// nothing when the prefix is missing.
pub open spec fn spec_parse_identity(token: Seq<char>) -> Option<Seq<char>> {
    if token.len() >= 5 && token.subrange(0, 5) == identity_prefix() {
        Option::Some(token.subrange(5, token.len() as int))
    } else {
        Option::None
    }
}

/// Mint the identity token persisted on login: the prefix, then the
/// username.
pub fn mint_identity(username: &str) -> (token: String)
    ensures
        token@ == spec_mint_identity(username@),
{
    String::from_str("user:").concat(username)
}

/// Recover the username a session identity token stands for, by stripping
/// the fixed prefix.  A token without the prefix means "not logged in",
/// never an error.
pub fn parse_identity(token: &str) -> (r: Option<String>)
    ensures
        match r {
            Option::Some(u) => spec_parse_identity(token@) == Option::Some(u@),
            Option::None => spec_parse_identity(token@) is None,
        },
{
    proof {
        reveal_strlit("user:");
    }
    let n = token.unicode_len();
    if n < 5 {
        return None;
    }
    if token.get_char(0) == 'u' && token.get_char(1) == 's' && token.get_char(2) == 'e'
        && token.get_char(3) == 'r' && token.get_char(4) == ':' {
        proof {
            assert(token@.subrange(0, 5) =~= identity_prefix());
        }
        let rest = token.substring_char(5, n);
        Some(String::from_str(rest))
    } else {
        proof {
            if token@.subrange(0, 5) == identity_prefix() {
                assert(token@[0] == token@.subrange(0, 5)[0]);
                assert(token@[1] == token@.subrange(0, 5)[1]);
                assert(token@[2] == token@.subrange(0, 5)[2]);
                assert(token@[3] == token@.subrange(0, 5)[3]);
                assert(token@[4] == token@.subrange(0, 5)[4]);
            }
        }
        None
    }
}

/// Minting a token for a username and interpreting it again gives the
/// username back: the session round trip loses nothing.
pub proof fn lemma_identity_round_trip(username: Seq<char>)
    ensures
        spec_parse_identity(spec_mint_identity(username)) == Option::Some(username),
{
    reveal_strlit("user:");
    let token = spec_mint_identity(username);
    assert(token.subrange(0, 5) =~= identity_prefix());
    assert(token.subrange(5, token.len() as int) =~= username);
}

/// The username of the authenticated user, from the request's optional
/// session identity: none when no identity is present, or when the token
/// lacks the prefix — both mean "not logged in" rather than an error.
pub fn user_logged_in(id: Option<&str>) -> (r: Option<String>)
    ensures
        match id {
            Option::Some(token) => match r {
                Option::Some(u) => spec_parse_identity(token@) == Option::Some(u@),
                Option::None => spec_parse_identity(token@) is None,
            },
            Option::None => r is None,
        },
{
    match id {
        Some(token) => parse_identity(token),
        None => None,
    }
}

/// Where a successful login sends the client: the requested location when
/// it is site-local (it starts with `/`), else the root.
pub open spec fn spec_redirect(redirect: Option<Seq<char>>) -> Seq<char> {
    match redirect {
        Option::Some(r) => if r.len() > 0 && r[0] == '/' {
            r
        } else {
            "/"@
        },
        Option::None => "/"@,
    }
}

/// Pick the post-login redirect target from the optional `redirect` query
/// value, refusing anything that is not site-local.
pub fn redirect_target(redirect: Option<&str>) -> (r: String)
    ensures
        r@ == spec_redirect(
            match redirect {
                Option::Some(s) => Option::Some(s@),
                Option::None => Option::None,
            },
        ),
{
    match redirect {
        Some(s) => {
            let n = s.unicode_len();
            if n > 0 && s.get_char(0) == '/' {
                String::from_str(s)
            } else {
                String::from_str("/")
            }
        },
        None => String::from_str("/"),
    }
}

/// What the web boundary does after a login attempt: on success, the
/// identity token to persist and the site-local redirect target; on
/// failure, no token and the login page.
pub fn login_response(logged_in: bool, username: &str, redirect: Option<&str>) -> (r: (
    Option<String>,
    String,
))
    ensures
        logged_in ==> (r.0 matches Some(t) && t@ == spec_mint_identity(username@)) && r.1@
            == spec_redirect(
            match redirect {
                Option::Some(s) => Option::Some(s@),
                Option::None => Option::None,
            },
        ),
        !logged_in ==> r.0 is None && r.1@ == "/login"@,
{
    if logged_in {
        (Some(mint_identity(username)), redirect_target(redirect))
    } else {
        (None, String::from_str("/login"))
    }
}

} // verus!
