use graphql_dispatch::console::{graphiql_handler, playground_handler};

#[test]
fn graphiql_page_points_at_the_endpoint() {
    let response = graphiql_handler("/graphql", None);
    assert_eq!(response.status, 200);
    assert_eq!(response.content_type, "text/html; charset=utf-8");
    assert!(response.body.contains("/graphql"));
    assert!(response.body.to_lowercase().contains("<html"));
    assert_eq!(response.body, juniper::http::graphiql::graphiql_source("/graphql", None));
}

#[test]
fn graphiql_page_depends_on_both_urls() {
    let plain = graphiql_handler("/graphql", None);
    let other = graphiql_handler("/api", None);
    let with_subscriptions = graphiql_handler("/graphql", Some("/subscriptions"));
    assert_ne!(plain.body, other.body);
    assert_ne!(plain.body, with_subscriptions.body);
    assert!(other.body.contains("/api"));
    assert!(with_subscriptions.body.contains("/subscriptions"));
    assert_eq!(
        with_subscriptions.body,
        juniper::http::graphiql::graphiql_source("/graphql", Some("/subscriptions"))
    );
}

#[test]
fn playground_page_points_at_the_endpoint() {
    let response = playground_handler("/graphql", None);
    assert_eq!(response.status, 200);
    assert_eq!(response.content_type, "text/html; charset=utf-8");
    assert!(response.body.contains("/graphql"));
    assert_eq!(response.body, juniper::http::playground::playground_source("/graphql", None));
    let with_subscriptions = playground_handler("/graphql", Some("/subscriptions"));
    assert!(with_subscriptions.body.contains("/subscriptions"));
    assert_ne!(response.body, with_subscriptions.body);
}
