use graphql_dispatch::database::Database;
use graphql_dispatch::dispatch::{
    get_graphql_handler, graphql_handler, post_graphql_handler, start, step, wants_body, Action,
    Event, Method, Request, State,
};
use graphql_dispatch::execution::ExecutionResult;
use graphql_dispatch::operation::{Batch, Operation};
use graphql_dispatch::response::{RequestError, Response};
use graphql_dispatch::schema::QueryRoot;
use serde_json::{Number, Value};

fn request(method: Method, query_string: &str, content_type: &str, body: &str) -> Request {
    Request {
        method,
        query_string: query_string.to_string(),
        content_type: content_type.to_string(),
        body: body.to_string(),
    }
}

fn object(members: Vec<(&str, Value)>) -> Value {
    let mut map = serde_json::Map::new();
    for (name, value) in members {
        map.insert(name.to_string(), value);
    }
    Value::Object(map)
}

fn error(message: String) -> Value {
    object(vec![("message", Value::String(message))])
}

/// Stands in for the execution: answers the few queries of the scenarios
/// from the resolvers of the schema.
fn execute(op: &Operation, store: &Database) -> ExecutionResult {
    match op.query.as_str() {
        "{apiVersion}" => ExecutionResult::new(
            object(vec![("apiVersion", Value::String(QueryRoot::api_version().to_string()))]),
            vec![],
        ),
        "{todo(id:1){id title isDone}}" => {
            let todo = match QueryRoot::todo(store, 1) {
                Some(todo) => object(vec![
                    ("id", Value::Number(Number::from(todo.id))),
                    ("title", Value::String(todo.title.clone())),
                    ("isDone", Value::Bool(todo.is_done)),
                ]),
                None => Value::Null,
            };
            ExecutionResult::new(object(vec![("todo", todo)]), vec![])
        }
        other => ExecutionResult::new(Value::Null, vec![error(format!("cannot run {}", other))]),
    }
}

/// Drives the dispatcher for one request and counts the executions.
fn serve(request: Request) -> (Response, usize) {
    let store = Database::new();
    let mut executions = 0;
    let (mut state, mut action) = step(State::Received, Event::Request(request));
    loop {
        match action {
            Action::Execute(op) => {
                executions += 1;
                let result = execute(&op, &store);
                let next = step(state, Event::Executed(result));
                state = next.0;
                action = next.1;
            }
            Action::Respond(response) => {
                assert_eq!(state, State::Responded);
                return (response, executions);
            }
            Action::Nothing => panic!("the dispatcher has nothing to do"),
        }
    }
}

#[test]
fn get_api_version() {
    let (response, executions) = serve(request(Method::Get, "query={apiVersion}", "", ""));
    assert_eq!(
        response,
        Response {
            status: 200,
            content_type: "application/json".to_string(),
            body: "{\"data\":{\"apiVersion\":\"0.1\"},\"errors\":[]}".to_string(),
        }
    );
    assert_eq!(executions, 1);
}

#[test]
fn get_todo_of_the_seeded_store() {
    let (response, _) =
        serve(request(Method::Get, "query={todo(id:1){id title isDone}}", "", ""));
    assert_eq!(response.status, 200);
    assert!(response.body.contains("{\"id\":1,\"title\":\"todo 1\",\"isDone\":false}"));
    assert_eq!(
        response.body,
        "{\"data\":{\"todo\":{\"id\":1,\"title\":\"todo 1\",\"isDone\":false}},\"errors\":[]}"
    );
}

#[test]
fn get_with_unknown_key_is_not_executed() {
    let (response, executions) =
        serve(request(Method::Get, "bogus=1&query={apiVersion}", "", ""));
    assert_eq!(executions, 0);
    assert_eq!(response.status, 400);
    assert_eq!(response.body, "the query string has an unknown field");
    assert_eq!(
        step(
            State::Received,
            Event::Request(request(Method::Get, "bogus=1&query={apiVersion}", "", ""))
        ),
        (
            State::Responded,
            Action::Respond(
                RequestError::Decode(graphql_dispatch::decode::DecodeError::UnknownField)
                    .to_response()
            )
        )
    );
}

#[test]
fn post_with_text_plain_is_not_executed() {
    let (response, executions) =
        serve(request(Method::Post, "", "text/plain", "{\"query\":\"{apiVersion}\"}"));
    assert_eq!(executions, 0);
    assert_eq!(response.status, 400);
    assert_eq!(response.body, "the content type is not supported");
}

#[test]
fn get_does_not_read_the_body_and_post_not_the_query_string() {
    let (response, _) = serve(request(
        Method::Get,
        "query={apiVersion}",
        "application/json",
        "this is no json",
    ));
    assert_eq!(response.status, 200);
    let (response, executions) = serve(request(
        Method::Post,
        "bogus=1",
        "application/json",
        "{\"query\":\"{apiVersion}\"}",
    ));
    assert_eq!(executions, 1);
    assert_eq!(response.status, 200);
    assert_eq!(response.body, "{\"data\":{\"apiVersion\":\"0.1\"},\"errors\":[]}");
}

#[test]
fn other_methods_have_no_route() {
    for name in ["PUT", "DELETE", "PATCH", "HEAD", "OPTIONS", "get", "post", ""] {
        let (response, executions) = serve(request(
            Method::from_name(name),
            "query={apiVersion}",
            "application/json",
            "{\"query\":\"{apiVersion}\"}",
        ));
        assert_eq!(executions, 0);
        assert_eq!(response.status, 404);
        assert_eq!(response.content_type, "text/plain; charset=utf-8");
        assert_eq!(response.body, "no such route");
    }
}

#[test]
fn methods_by_name() {
    assert_eq!(Method::from_name("GET"), Method::Get);
    assert_eq!(Method::from_name("POST"), Method::Post);
    assert_eq!(Method::from_name("PUT"), Method::Other);
    assert_eq!(Method::from_name("Get"), Method::Other);
    assert_eq!(Method::from_name("GET "), Method::Other);
}

#[test]
fn post_graphql_is_one_operation() {
    let (response, executions) =
        serve(request(Method::Post, "", "application/graphql", "{apiVersion}"));
    assert_eq!(executions, 1);
    assert_eq!(response.status, 200);
    assert_eq!(response.body, "{\"data\":{\"apiVersion\":\"0.1\"},\"errors\":[]}");
}

#[test]
fn post_batch_is_answered_in_order() {
    let body = "[{\"query\":\"{apiVersion}\"},{\"query\":\"{nope}\"},{\"query\":\"{todo(id:1){id title isDone}}\"}]";
    let (response, executions) = serve(request(Method::Post, "", "application/json", body));
    assert_eq!(executions, 3);
    assert_eq!(response.status, 400);
    assert_eq!(response.content_type, "application/json");
    assert_eq!(
        response.body,
        "[{\"data\":{\"apiVersion\":\"0.1\"},\"errors\":[]},{\"data\":null,\"errors\":[{\"message\":\"cannot run {nope}\"}]},{\"data\":{\"todo\":{\"id\":1,\"title\":\"todo 1\",\"isDone\":false}},\"errors\":[]}]"
    );
    let answer: Value = serde_json::from_str(&response.body).unwrap();
    assert_eq!(answer.as_array().unwrap().len(), 3);
}

#[test]
fn post_batch_without_errors_is_200() {
    let body = "[{\"query\":\"{apiVersion}\"},{\"query\":\"{apiVersion}\"}]";
    let (response, executions) = serve(request(Method::Post, "", "application/json", body));
    assert_eq!(executions, 2);
    assert_eq!(response.status, 200);
    assert_eq!(
        response.body,
        "[{\"data\":{\"apiVersion\":\"0.1\"},\"errors\":[]},{\"data\":{\"apiVersion\":\"0.1\"},\"errors\":[]}]"
    );
}

#[test]
fn post_batch_of_one_is_answered_by_an_array() {
    let (response, executions) =
        serve(request(Method::Post, "", "application/json", "[{\"query\":\"{apiVersion}\"}]"));
    assert_eq!(executions, 1);
    assert_eq!(response.body, "[{\"data\":{\"apiVersion\":\"0.1\"},\"errors\":[]}]");
}

#[test]
fn a_failed_operation_does_not_stop_the_batch() {
    let body = "[{\"query\":\"{nope}\"},{\"query\":\"{apiVersion}\"}]";
    let (response, executions) = serve(request(Method::Post, "", "application/json", body));
    assert_eq!(executions, 2);
    assert_eq!(response.status, 400);
    assert_eq!(
        response.body,
        "[{\"data\":null,\"errors\":[{\"message\":\"cannot run {nope}\"}]},{\"data\":{\"apiVersion\":\"0.1\"},\"errors\":[]}]"
    );
}

#[test]
fn operations_are_handed_out_one_by_one_in_order() {
    let body = "[{\"query\":\"{a}\"},{\"query\":\"{b}\"},{\"query\":\"{c}\"}]";
    let a = Operation::new("{a}".to_string(), None, None);
    let b = Operation::new("{b}".to_string(), None, None);
    let c = Operation::new("{c}".to_string(), None, None);
    let batch = Batch::Many(vec![a.clone(), b.clone(), c.clone()]);
    let r = |n: i32| ExecutionResult::new(Value::Number(Number::from(n)), vec![]);

    let (state, action) = post_graphql_handler("application/json", body);
    assert_eq!(state, State::Decoded { batch: batch.clone(), results: vec![] });
    assert_eq!(action, Action::Execute(a));

    let (state, action) = step(state, Event::Executed(r(1)));
    assert_eq!(state, State::Decoded { batch: batch.clone(), results: vec![r(1)] });
    assert_eq!(action, Action::Execute(b));

    let (state, action) = step(state, Event::Executed(r(2)));
    assert_eq!(state, State::Decoded { batch: batch.clone(), results: vec![r(1), r(2)] });
    assert_eq!(action, Action::Execute(c));

    let (state, action) = step(state, Event::Executed(r(3)));
    assert_eq!(state, State::Responded);
    match action {
        Action::Respond(response) => assert_eq!(
            response.body,
            "[{\"data\":1,\"errors\":[]},{\"data\":2,\"errors\":[]},{\"data\":3,\"errors\":[]}]"
        ),
        _ => panic!("the response is due"),
    }
}

#[test]
fn events_out_of_place_do_nothing() {
    let r = ExecutionResult::new(Value::Null, vec![]);
    assert_eq!(
        step(State::Received, Event::Executed(r.clone())),
        (State::Received, Action::Nothing)
    );
    assert_eq!(
        step(State::Responded, Event::Executed(r.clone())),
        (State::Responded, Action::Nothing)
    );
    assert_eq!(
        step(State::Responded, Event::Request(request(Method::Get, "query={a}", "", ""))),
        (State::Responded, Action::Nothing)
    );
    let (state, _) = get_graphql_handler("query={a}");
    let same = state.clone();
    assert_eq!(
        step(state, Event::Request(request(Method::Get, "query={b}", "", ""))),
        (same, Action::Nothing)
    );
}

#[test]
fn handlers_by_method() {
    let get = request(Method::Get, "query={a}", "", "");
    assert_eq!(graphql_handler(&get), get_graphql_handler("query={a}"));
    let post = request(Method::Post, "", "application/graphql", "{a}");
    assert_eq!(graphql_handler(&post), post_graphql_handler("application/graphql", "{a}"));
    let (state, action) = get_graphql_handler("query={a}");
    let a = Operation::new("{a}".to_string(), None, None);
    assert_eq!(state, State::Decoded { batch: Batch::Single(a.clone()), results: vec![] });
    assert_eq!(action, Action::Execute(a));
}

#[test]
fn start_with_a_decoded_batch_or_a_refusal() {
    let a = Operation::new("{a}".to_string(), None, None);
    assert_eq!(
        start(Ok(Batch::Single(a.clone()))),
        (State::Decoded { batch: Batch::Single(a.clone()), results: vec![] }, Action::Execute(a))
    );
    assert_eq!(
        start(Err(RequestError::NotFound)),
        (State::Responded, Action::Respond(RequestError::NotFound.to_response()))
    );
    // A batch without operations is never decoded; it would be answered at once.
    match start(Ok(Batch::Many(vec![]))) {
        (State::Responded, Action::Respond(response)) => {
            assert_eq!(response.status, 200);
            assert_eq!(response.body, "[]");
        }
        _ => panic!("the response is due"),
    }
}

#[test]
fn each_request_sees_a_fresh_store() {
    let first = serve(request(Method::Get, "query={todo(id:1){id title isDone}}", "", ""));
    let second = serve(request(Method::Get, "query={todo(id:1){id title isDone}}", "", ""));
    assert_eq!(first, second);
}

#[test]
fn body_is_wanted_for_post_of_a_supported_content_type() {
    assert!(wants_body(Method::Post, "application/json"));
    assert!(wants_body(Method::Post, "application/graphql"));
    assert!(!wants_body(Method::Post, "text/plain"));
    assert!(!wants_body(Method::Post, ""));
    assert!(!wants_body(Method::Get, "application/json"));
    assert!(!wants_body(Method::Other, "application/graphql"));
}

#[test]
fn unwanted_body_makes_no_difference() {
    for (method, content_type) in
        [(Method::Get, "application/json"), (Method::Post, "text/plain"), (Method::Other, "")]
    {
        let with = request(method, "query={apiVersion}", content_type, "{\"query\":\"{a}\"}");
        let without = request(method, "query={apiVersion}", content_type, "");
        assert_eq!(graphql_handler(&with), graphql_handler(&without));
    }
}
