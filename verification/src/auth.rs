//! The two states of a session, and the step from one to the other.

use crate::base::{login_url, RackhostClient};
use crate::csrf::CSRF_FIELD;
use crate::error::Error;
use crate::outcome::result_view;
use crate::request::{
    join_url, joined_url, place_of_url, url_place, Method, Request, RequestView, PLACE_LIMIT,
};
use crate::text::{byte_len, fits_in};
use crate::seal::Sealed;
use std::marker::PhantomData;
use vstd::prelude::*;
use vstd::string::*;

verus! {

/// Marks a handle whose session the console has accepted.
#[derive(Debug, Clone)]
pub struct Authed;

/// Marks a handle that has not logged in.
#[derive(Debug, Clone)]
pub struct NotAuthed;

/// The states that a handle can be in. No type outside this crate has it.
pub trait AuthState: Sealed {
    /// Whether a handle in this state has logged in.
    spec fn authenticated() -> bool;

    /// Whether a handle in this state has logged in.
    fn is_authenticated() -> (authenticated: bool)
        ensures
            authenticated == Self::authenticated(),
    ;
}

impl Sealed for Authed {

}

impl Sealed for NotAuthed {

}

impl AuthState for Authed {
    open spec fn authenticated() -> bool {
        true
    }

    fn is_authenticated() -> (authenticated: bool) {
        true
    }
}

impl AuthState for NotAuthed {
    open spec fn authenticated() -> bool {
        false
    }

    fn is_authenticated() -> (authenticated: bool) {
        false
    }
}

/// The name of the form field that carries the user's name.
pub const USERNAME_FIELD: &'static str = "LoginForm[username]";

/// The name of the form field that carries the password.
pub const PASSWORD_FIELD: &'static str = "LoginForm[password]";

/// Whether `status` is one of the redirections, 300 to 399.
pub open spec fn is_redirection(status: u16) -> bool {
    300 <= status < 400
}

/// The origin and the path of the address `url`, where it is short enough to
/// be asked for them.
pub open spec fn place_of(url: Option<Seq<char>>) -> Option<(Seq<char>, Seq<char>)> {
    match url {
        None => None,
        Some(url) => if byte_len(url) <= PLACE_LIMIT {
            url_place(url)
        } else {
            None
        },
    }
}

/// The address that the header `location` of an answer to the login request
/// names.
pub open spec fn redirect_target(location: Seq<char>) -> Option<Seq<char>> {
    match login_url() {
        None => None,
        Some(login) => joined_url(login, location),
    }
}

/// Whether `target` lies on the console, at another path than the login
/// request itself: both places must be known, their origins the same and
/// their paths different.
pub open spec fn leads_away(
    login: Option<(Seq<char>, Seq<char>)>,
    target: Option<(Seq<char>, Seq<char>)>,
) -> bool {
    match (login, target) {
        (Some(login), Some(target)) => login.0 == target.0 && login.1 != target.1,
        _ => false,
    }
}

/// Whether an answer to the login request with `status` and the header
/// `location` means that the console accepted the login: it must be a
/// redirection, to a place on the console other than the login request's own.
pub open spec fn login_accepted(status: u16, location: Option<Seq<char>>) -> bool {
    is_redirection(status) && match location {
        None => false,
        Some(location) => leads_away(place_of(login_url()), place_of(redirect_target(location))),
    }
}

/// The fields of the login form.
pub open spec fn login_form(token: Seq<char>, username: Seq<char>, password: Seq<char>) -> Seq<
    (Seq<char>, Seq<char>),
> {
    seq![(CSRF_FIELD@, token), (USERNAME_FIELD@, username), (PASSWORD_FIELD@, password)]
}

/// The request that submits the login form, where the console's address can be formed.
pub open spec fn login_request_of(
    token: Seq<char>,
    username: Seq<char>,
    password: Seq<char>,
) -> Result<RequestView, Error> {
    match login_url() {
        None => Err(Error::InvalidUrl),
        Some(url) => Ok(
            RequestView {
                method: Method::Post,
                url,
                headers: Seq::empty(),
                form: login_form(token, username, password),
            },
        ),
    }
}

impl RackhostClient<NotAuthed> {
    /// The request that submits the login form with the token taken from the
    /// login page.
    pub fn login_request(&self, csrf_token: String, username: String, password: String) -> (request:
        Result<Request, Error>)
        ensures
            result_view(request) == login_request_of(
                csrf_token@,
                username@,
                password@,
            ),
    {
        let url = match self.login_page_url() {
            Some(url) => url,
            None => { return Err(Error::InvalidUrl); },
        };
        let mut form: Vec<(String, String)> = Vec::new();
        form.push((String::from_str(CSRF_FIELD), csrf_token));
        form.push((String::from_str(USERNAME_FIELD), username));
        form.push((String::from_str(PASSWORD_FIELD), password));
        let request = Request { method: Method::Post, url, headers: Vec::new(), form };
        proof {
            assert(request.form.deep_view() =~= login_form(csrf_token@, username@, password@));
            assert(request.headers.deep_view() =~= Seq::empty());
        }
        Ok(request)
    }

    /// Turns the handle into an authenticated one where the console answered
    /// the login request with a redirection to another of its pages, and
    /// reports a failed login for any other answer: `status` is the status
    /// of the answer, `location` its `Location` header. A redirection whose
    /// address is longer than [`PLACE_LIMIT`] bytes cannot be judged and counts
    /// as a failed login. The handle is used up either way.
    pub fn authenticate(self, status: u16, location: Option<&str>) -> (session: Result<
        RackhostClient<Authed>,
        Error,
    >)
        ensures
            login_accepted(status, location.deep_view()) ==> session is Ok,
            !login_accepted(status, location.deep_view()) ==> session == Err::<
                RackhostClient<Authed>,
                Error,
            >(Error::LoginFailed),
            session matches Ok(authed) ==> authed@,
    {
        if !is_redirect(status) {
            return Err(Error::LoginFailed);
        }
        let location = match location {
            Some(location) => location,
            None => { return Err(Error::LoginFailed); },
        };
        let login = self.login_page_url();
        let target = match &login {
            Some(login) => join_url(login.as_str(), location),
            None => None,
        };
        if redirect_leads_away(&place(&login), &place(&target)) {
            Ok(RackhostClient { state: PhantomData })
        } else {
            Err(Error::LoginFailed)
        }
    }
}

/// Whether `status` is one of the redirections.
pub fn is_redirect(status: u16) -> (redirect: bool)
    ensures
        redirect == is_redirection(status),
{
    300 <= status && status < 400
}

/// The origin and the path of the address `url`.
pub fn place(url: &Option<String>) -> (place: Option<(String, String)>)
    ensures
        place.deep_view() == place_of(url.deep_view()),
{
    match url {
        None => None,
        Some(url) => {
            if fits_in(url.as_str(), PLACE_LIMIT) {
                place_of_url(url.as_str())
            } else {
                None
            }
        },
    }
}

/// Whether `target` lies on the console, at another path than the login
/// request itself.
pub fn redirect_leads_away(login: &Option<(String, String)>, target: &Option<(String, String)>) -> (away:
    bool)
    ensures
        away == leads_away(login.deep_view(), target.deep_view()),
{
    match (login, target) {
        (Some(login), Some(target)) => login.0.as_str().eq(target.0.as_str()) && !login.1.as_str().eq(
            target.1.as_str(),
        ),
        _ => false,
    }
}

} // verus!
