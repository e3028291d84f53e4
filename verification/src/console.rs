//! The pages of the two interactive consoles, which point at the GraphQL
//! endpoint. The pages themselves are `juniper`'s.

use crate::response::{Response, ResponseView};
use vstd::prelude::*;

verus! {

/// The HTML of the GraphiQL console for these endpoints.
pub uninterp spec fn graphiql_page(
    graphql_endpoint_url: Seq<char>,
    subscriptions_endpoint_url: Option<Seq<char>>,
) -> Seq<char>;

/// The HTML of the GraphQL Playground console for these endpoints.
pub uninterp spec fn playground_page(
    graphql_endpoint_url: Seq<char>,
    subscriptions_endpoint_url: Option<Seq<char>>,
) -> Seq<char>;

/// The text of a string slice that may be missing.
pub open spec fn str_option_view(text: Option<&str>) -> Option<Seq<char>> {
    match text {
        Some(t) => Some(t@),
        None => None,
    }
}

/// `juniper::http::graphiql::graphiql_source`: the page is made of the two
/// URLs alone.
pub assume_specification[ juniper::http::graphiql::graphiql_source ](
    graphql_endpoint_url: &str,
    subscriptions_endpoint_url: Option<&str>,
) -> (html: String)
    ensures
        html@ == graphiql_page(graphql_endpoint_url@, str_option_view(subscriptions_endpoint_url)),
;

/// `juniper::http::playground::playground_source`: the page is made of the
/// two URLs alone.
pub assume_specification[ juniper::http::playground::playground_source ](
    graphql_endpoint_url: &str,
    subscriptions_endpoint_url: Option<&str>,
) -> (html: String)
    ensures
        html@ == playground_page(
            graphql_endpoint_url@,
            str_option_view(subscriptions_endpoint_url),
        ),
;

/// The response that shows the GraphiQL console.
pub fn graphiql_handler(
    graphql_endpoint_url: &str,
    subscriptions_endpoint_url: Option<&'static str>,
) -> (response: Response)
    ensures
        response@ == ResponseView::html(
            graphiql_page(graphql_endpoint_url@, str_option_view(subscriptions_endpoint_url)),
        ),
{
    let html = juniper::http::graphiql::graphiql_source(
        graphql_endpoint_url,
        subscriptions_endpoint_url,
    );
    Response::html(html)
}

/// The response that shows the GraphQL Playground console.
pub fn playground_handler(
    graphql_endpoint_url: &str,
    subscriptions_endpoint_url: Option<&'static str>,
) -> (response: Response)
    ensures
        response@ == ResponseView::html(
            playground_page(graphql_endpoint_url@, str_option_view(subscriptions_endpoint_url)),
        ),
{
    let html = juniper::http::playground::playground_source(
        graphql_endpoint_url,
        subscriptions_endpoint_url,
    );
    Response::html(html)
}

} // verus!
