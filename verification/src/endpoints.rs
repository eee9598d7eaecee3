//! Where the console lives.

use vstd::prelude::*;

verus! {

/// The address under which the domain search is asked.
pub const BASE_URL: &'static str = "https://rackhost.hu";

/// The login page, and the target of the login form.
pub const LOGIN_PATH: &'static str = "/site/login";

/// The list of zones.
pub const DNS_ZONE_PATH: &'static str = "/dnsZone";

/// The domain search; the candidate names follow in the query.
pub const DOMAIN_SEARCH_PATH: &'static str = "/domain";

} // verus!
