//! The anti-forgery token of the login page.

use crate::auth::AuthState;
use crate::base::RackhostClient;
use crate::error::Error;
use crate::outcome::result_view;
use crate::html::{
    attr_at, check_page_fits, find_rows, found_rows, on_page, Row, RowView,
};
use vstd::prelude::*;
use vstd::string::*;

verus! {

/// The name of the hidden input that carries the token, and of the form
/// field that hands it back.
pub const CSRF_FIELD: &'static str = "rackhost-csrf";

/// Finds the hidden input that carries the token.
pub const CSRF_INPUT: &'static str = "input[name=rackhost-csrf]";

/// The attribute of the hidden input that holds the token.
pub const CSRF_ATTRIBUTE: &'static str = "value";

/// The token among the inputs found: the value of the first. An input must
/// be there, and it must have a value.
pub open spec fn csrf_token_of(found: Option<Seq<RowView>>) -> Result<Seq<char>, Error> {
    match found {
        None => Err(Error::InvalidSelector),
        Some(inputs) => if inputs.len() == 0 {
            Err(Error::MissingElement)
        } else {
            match attr_at(inputs[0].element, 0) {
                None => Err(Error::MissingAttribute),
                Some(token) => Ok(token),
            }
        },
    }
}

/// Where token inputs are found and the first of them has a value, that
/// value is the token, whatever the inputs behind it hold.
pub proof fn lemma_first_input_gives_the_token(inputs: Seq<RowView>, value: Seq<char>)
    requires
        inputs.len() > 0,
        attr_at(inputs[0].element, 0) == Some(value),
    ensures
        csrf_token_of(Some(inputs)) == Ok::<Seq<char>, Error>(value),
{
}

/// What the page `body` holds of token inputs.
pub open spec fn csrf_inputs(body: Seq<char>) -> Option<Seq<RowView>> {
    found_rows(body, CSRF_INPUT@, Seq::empty(), seq![CSRF_ATTRIBUTE@])
}

/// The token among the inputs that were found on a page.
pub fn csrf_token_from(found: &Option<Vec<Row>>) -> (token: Result<String, Error>)
    ensures
        result_view(token) == csrf_token_of(found.deep_view()),
{
    match found {
        None => Err(Error::InvalidSelector),
        Some(inputs) => {
            if inputs.len() == 0 {
                Err(Error::MissingElement)
            } else {
                match inputs[0].element.attr(0) {
                    None => Err(Error::MissingAttribute),
                    Some(token) => Ok(String::from_str(token)),
                }
            }
        },
    }
}

impl<A: AuthState> RackhostClient<A> {
    /// The anti-forgery token on the login page `body`. A page of more than
    /// [`PAGE_LIMIT`](crate::html::PAGE_LIMIT) bytes is refused unread.
    pub fn get_csrf_token(&self, body: &str) -> (token: Result<String, Error>)
        ensures
            result_view(token) == on_page(body@, csrf_token_of(csrf_inputs(body@))),
    {
        if !check_page_fits(body) {
            return Err(Error::PageTooLong);
        }
        let cells: Vec<&str> = Vec::new();
        let attrs: Vec<&str> = vec![CSRF_ATTRIBUTE];
        proof {
            assert(cells.deep_view() =~= Seq::<Seq<char>>::empty());
            assert(attrs.deep_view() =~= seq![CSRF_ATTRIBUTE@]);
        }
        let found = find_rows(body, CSRF_INPUT, &cells, &attrs);
        csrf_token_from(&found)
    }
}

} // verus!
