//! Destinations: the built-in endpoints and the selectors that name them.

use vstd::prelude::*;

verus! {

/// Base URL of the production endpoint.
pub const PROFIT_ROBOTS_DOMAIN_HTTP: &'static str = "https://profitrobots.com";

/// Selector of the production endpoint.
pub const SERVER_TYPE_PROFIT_ROBOTS: i8 = 0;

/// The base URL that a selector stands for. There is one built-in endpoint,
/// and every selector resolves to it.
pub open spec fn server_for(server_type: i8) -> Seq<char> {
    PROFIT_ROBOTS_DOMAIN_HTTP@
}

/// Resolves a selector to the base URL of its endpoint. A selector that
/// names no endpoint falls back to the production endpoint.
pub fn get_server(server_type: i8) -> (server: String)
    ensures
        server@ == server_for(server_type),
{
    PROFIT_ROBOTS_DOMAIN_HTTP.to_owned()
}

} // verus!
