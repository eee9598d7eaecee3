//! The session handle.

use crate::auth::{AuthState, NotAuthed};
use crate::endpoints::LOGIN_PATH;
use crate::request::{join_url, joined_url, Method, Request, RequestView};
use crate::error::Error;
use crate::outcome::result_view;
use std::marker::PhantomData;
use vstd::prelude::*;

verus! {

/// The address that the session's requests are resolved against.
pub const BASE_URL: &'static str = "https://www.rackhost.hu";

/// A session with the console, in the state `A`. What needs a login is
/// offered on `RackhostClient<Authed>` alone, and only a successful login
/// makes one.
#[derive(Debug)]
pub struct RackhostClient<A: AuthState> {
    pub(crate) state: PhantomData<A>,
}

impl<A: AuthState> View for RackhostClient<A> {
    type V = bool;

    /// Whether the session has logged in.
    open spec fn view(&self) -> bool {
        A::authenticated()
    }
}

/// The address of the login page.
pub open spec fn login_url() -> Option<Seq<char>> {
    joined_url(BASE_URL@, LOGIN_PATH@)
}

/// A request that fetches `url`.
pub open spec fn get_request(url: Seq<char>) -> RequestView {
    RequestView { method: Method::Get, url, headers: Seq::empty(), form: Seq::empty() }
}

/// The request that fetches the page that `reference` names on the console.
pub open spec fn page_request_of(reference: Seq<char>) -> Result<RequestView, Error> {
    match joined_url(BASE_URL@, reference) {
        None => Err(Error::InvalidUrl),
        Some(url) => Ok(get_request(url)),
    }
}

/// A request that fetches `url`.
pub fn fetch(url: String) -> (request: Request)
    ensures
        request.deep_view() == get_request(url@),
{
    let request = Request { method: Method::Get, url, headers: Vec::new(), form: Vec::new() };
    proof {
        assert(request.headers.deep_view() =~= Seq::empty());
        assert(request.form.deep_view() =~= Seq::empty());
    }
    request
}

/// The request that fetches the page that `reference` names on the console.
pub fn page_request(reference: &str) -> (request: Result<Request, Error>)
    ensures
        result_view(request) == page_request_of(reference@),
{
    match join_url(BASE_URL, reference) {
        Some(url) => Ok(fetch(url)),
        None => Err(Error::InvalidUrl),
    }
}

impl<A: AuthState> RackhostClient<A> {
    /// Whether the session has logged in.
    pub fn is_authenticated(&self) -> (authenticated: bool)
        ensures
            authenticated == self@,
    {
        A::is_authenticated()
    }

    /// The address of the login page.
    pub fn login_page_url(&self) -> (url: Option<String>)
        ensures
            url.deep_view() == login_url(),
    {
        join_url(BASE_URL, LOGIN_PATH)
    }

    /// The request that fetches the login page.
    pub fn login_page_request(&self) -> (request: Result<Request, Error>)
        ensures
            result_view(request) == page_request_of(LOGIN_PATH@),
    {
        page_request(LOGIN_PATH)
    }
}

impl<A: AuthState> Clone for RackhostClient<A> {
    fn clone(&self) -> (copy: Self)
        ensures
            copy == *self,
    {
        RackhostClient { state: PhantomData }
    }
}

impl Default for RackhostClient<NotAuthed> {
    /// A session that has not logged in.
    fn default() -> (client: Self)
        ensures
            !client@,
    {
        RackhostClient { state: PhantomData }
    }
}

} // verus!
