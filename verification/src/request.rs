//! Requests as plain values: what to send is decided here, sending is not.

use crate::text::byte_len;
use reqwest::Url;
use vstd::prelude::*;
use vstd::string::*;

verus! {

/// The two methods that the console is spoken to with.
#[derive(Debug, Clone, Copy, PartialEq, Eq)]
pub enum Method {
    Get,
    Post,
}

/// One request, ready to be sent.
#[derive(Debug, Clone, PartialEq, Eq)]
pub struct Request {
    pub method: Method,
    /// The absolute address.
    pub url: String,
    /// Header fields beyond those of the transport, by name and value.
    pub headers: Vec<(String, String)>,
    /// The fields of the form to send as the body, by name and value; none
    /// for a request without a body.
    pub form: Vec<(String, String)>,
}

/// The mathematical value of a [`Request`].
pub struct RequestView {
    pub method: Method,
    pub url: Seq<char>,
    pub headers: Seq<(Seq<char>, Seq<char>)>,
    pub form: Seq<(Seq<char>, Seq<char>)>,
}

impl DeepView for Request {
    type V = RequestView;

    open spec fn deep_view(&self) -> RequestView {
        RequestView {
            method: self.method,
            url: self.url@,
            headers: self.headers.deep_view(),
            form: self.form.deep_view(),
        }
    }
}

/// The longest address, in bytes, that is handed to the URL parser for change.
pub const URL_LIMIT: usize = 0x100_0000;

/// Whether the three parts of an address are short enough together.
pub open spec fn url_fits(base: Seq<char>, reference: Seq<char>, query: Seq<char>) -> bool {
    byte_len(base) + byte_len(reference) + byte_len(query) <= URL_LIMIT
}

/// Whether the three parts of an address are short enough together.
pub fn check_url_fits(base: &str, reference: &str, query: &str) -> (fits: bool)
    ensures
        fits == url_fits(base@, reference@, query@),
{
    let base_len = base.as_bytes().len();
    let reference_len = reference.as_bytes().len();
    let query_len = query.as_bytes().len();
    base_len <= URL_LIMIT && reference_len <= URL_LIMIT - base_len && query_len <= URL_LIMIT
        - base_len - reference_len
}

/// The address that `reference` names when read against the address `base`,
/// as the `url` crate resolves and writes it; `None` where it refuses either.
pub uninterp spec fn joined_url(base: Seq<char>, reference: Seq<char>) -> Option<Seq<char>>;

/// [`joined_url`] with its query replaced by `query`.
pub uninterp spec fn joined_url_with_query(
    base: Seq<char>,
    reference: Seq<char>,
    query: Seq<char>,
) -> Option<Seq<char>>;

/// The address `url` with the pair of `name` and `value` appended to its
/// query, as the `url` crate writes it; `None` where it refuses `url`.
pub uninterp spec fn url_with_param(url: Seq<char>, name: Seq<char>, value: Seq<char>) -> Option<
    Seq<char>,
>;

/// The origin and the path of the address `url`, as the `url` crate writes
/// them; `None` where it refuses `url`.
pub uninterp spec fn url_place(url: Seq<char>) -> Option<(Seq<char>, Seq<char>)>;

/// The longest address, in bytes, whose origin is asked for.
pub const PLACE_LIMIT: usize = 0x1000;

/// `Url::parse` on `url`, then of the address `Url::origin` in its
/// `Origin::ascii_serialization`, and `Url::path`. The bound keeps the
/// address so short that the search for the origin of an address nested in
/// others stays shallow.
///
/// Trusted: the result depends on `url` alone, and is `None` exactly where
/// parsing fails.
#[verifier::external_body]
pub(crate) fn place_of_url(url: &str) -> (place: Option<(String, String)>)
    requires
        byte_len(url@) <= PLACE_LIMIT,
    ensures
        place.deep_view() == url_place(url@),
{
    let url = Url::parse(url).ok()?;
    Some((url.origin().ascii_serialization(), url.path().to_owned()))
}

/// `Url::parse` on `base`, then `Url::join` with `reference`.
///
/// Trusted: the result depends on the arguments alone, and is `None` exactly
/// where one of the two calls fails.
#[verifier::external_body]
pub(crate) fn join_url(base: &str, reference: &str) -> (url: Option<String>)
    ensures
        url.deep_view() == joined_url(base@, reference@),
{
    let url = Url::parse(base).ok()?.join(reference).ok()?;
    Some(url.into())
}

/// `Url::parse` on `base`, `Url::join` with `reference`, then
/// `Url::set_query` with `query`. The bound keeps the address below the
/// length at which `set_query` gives up.
///
/// Trusted: the result depends on the arguments alone, and is `None` exactly
/// where parsing or joining fails.
#[verifier::external_body]
pub(crate) fn join_url_with_query(base: &str, reference: &str, query: &str) -> (url: Option<String>)
    requires
        url_fits(base@, reference@, query@),
    ensures
        url.deep_view() == joined_url_with_query(base@, reference@, query@),
{
    let mut url = Url::parse(base).ok()?.join(reference).ok()?;
    url.set_query(Some(query));
    Some(url.into())
}

/// `Url::parse_with_params` on `url` and the one pair. The bound keeps the
/// address, with the pair appended, below the length at which appending to
/// the query gives up.
///
/// Trusted: the result depends on the arguments alone, and is `None` exactly
/// where parsing fails.
#[verifier::external_body]
pub(crate) fn parse_url_with_param(url: &str, name: &str, value: &str) -> (parsed: Option<String>)
    requires
        url_fits(url@, name@, value@),
    ensures
        parsed.deep_view() == url_with_param(url@, name@, value@),
{
    let url = Url::parse_with_params(url, &[(name, value)]).ok()?;
    Some(url.into())
}

} // verus!
