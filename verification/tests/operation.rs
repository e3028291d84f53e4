use graphql_dispatch::decode::decode_post;
use graphql_dispatch::json::parse;
use graphql_dispatch::operation::{Batch, Operation};
use serde_json::Value;

fn json(text: &str) -> Value {
    serde_json::from_str(text).unwrap()
}

fn full() -> Operation {
    Operation::new(
        "query one($id:Int!){todo(id:$id){id}}".to_string(),
        Some("one".to_string()),
        Some(json("{\"id\":1,\"deep\":{\"b\":[1.5,-2,\"x\",null,true],\"a\":{}}}")),
    )
}

#[test]
fn operation_is_made_of_its_parts() {
    let op = Operation::new("{a}".to_string(), Some("n".to_string()), Some(Value::Bool(true)));
    assert_eq!(op.query, "{a}");
    assert_eq!(op.operation_name, Some("n".to_string()));
    assert_eq!(op.variables, Some(Value::Bool(true)));
    // The query is not looked at.
    let op = Operation::new("not a query {{{".to_string(), None, None);
    assert_eq!(op.query, "not a query {{{");
}

#[test]
fn operation_clone_is_equal() {
    let op = full();
    assert_eq!(op.clone(), op);
}

#[test]
fn json_form_has_the_three_members_in_order() {
    assert_eq!(
        full().to_json().to_string(),
        "{\"query\":\"query one($id:Int!){todo(id:$id){id}}\",\"operationName\":\"one\",\"variables\":{\"id\":1,\"deep\":{\"b\":[1.5,-2,\"x\",null,true],\"a\":{}}}}"
    );
    assert_eq!(
        Operation::new("{a}".to_string(), None, None).to_json().to_string(),
        "{\"query\":\"{a}\",\"operationName\":null,\"variables\":null}"
    );
}

#[test]
fn json_form_reads_back_as_the_operation() {
    for op in [
        full(),
        Operation::new("{a}".to_string(), None, None),
        Operation::new("".to_string(), Some("".to_string()), Some(json("[]"))),
        Operation::new("{a}".to_string(), None, Some(json("\"text\""))),
    ] {
        assert_eq!(Operation::from_json(&op.to_json()), Some(op));
    }
}

#[test]
fn null_variables_read_back_as_absent() {
    let op = Operation::new("{a}".to_string(), None, Some(Value::Null));
    assert_eq!(
        Operation::from_json(&op.to_json()),
        Some(Operation::new("{a}".to_string(), None, None))
    );
}

#[test]
fn decoded_operation_round_trips_through_text() {
    let body = "{\"operationName\":\"one\",\"extra\":1,\"query\":\"{a}\",\"variables\":{\"k\":[1,{\"z\":0,\"a\":1}]}}";
    let decoded = match decode_post("application/json", body).unwrap() {
        Batch::Single(op) => op,
        Batch::Many(_) => panic!("one operation was asked for"),
    };
    let again = decode_post("application/json", &decoded.to_json().to_string()).unwrap();
    assert_eq!(again, Batch::Single(decoded));
}

#[test]
fn from_json_refuses_what_is_no_operation() {
    assert_eq!(Operation::from_json(&json("[]")), None);
    assert_eq!(Operation::from_json(&json("{\"operationName\":\"n\"}")), None);
    assert_eq!(Operation::from_json(&json("{\"query\":[\"{a}\"]}")), None);
    assert_eq!(Operation::from_json(&json("{\"query\":\"{a}\",\"operationName\":false}")), None);
}

#[test]
fn batch_from_json() {
    assert_eq!(
        Batch::from_json(&json("{\"query\":\"{a}\"}")),
        Some(Batch::Single(Operation::new("{a}".to_string(), None, None)))
    );
    assert_eq!(
        Batch::from_json(&json("[{\"query\":\"{a}\"},{\"query\":\"{b}\"}]")),
        Some(Batch::Many(vec![
            Operation::new("{a}".to_string(), None, None),
            Operation::new("{b}".to_string(), None, None),
        ]))
    );
    assert_eq!(Batch::from_json(&json("[]")), None);
    assert_eq!(Batch::from_json(&json("[{\"query\":\"{a}\"},7]")), None);
    assert_eq!(Batch::from_json(&json("7")), None);
}

#[test]
fn batch_len_and_get() {
    let one = Batch::Single(Operation::new("{a}".to_string(), None, None));
    assert_eq!(one.len(), 1);
    assert_eq!(one.get(0).unwrap().query, "{a}");
    assert!(one.get(1).is_none());
    let none = Batch::Many(vec![]);
    assert_eq!(none.len(), 0);
    assert!(none.get(0).is_none());
}

#[test]
fn parse_reads_one_whole_document() {
    assert_eq!(parse("{\"a\":[1,2]}"), Some(json("{\"a\":[1,2]}")));
    assert_eq!(parse(" null "), Some(Value::Null));
    assert_eq!(parse(""), None);
    assert_eq!(parse("{"), None);
    assert_eq!(parse("1 2"), None);
    assert_eq!(parse("{'a':1}"), None);
}

#[test]
fn parse_keeps_the_members_of_an_object_in_order() {
    let document = parse("{\"z\":1,\"a\":2,\"m\":3}").unwrap();
    assert_eq!(document.to_string(), "{\"z\":1,\"a\":2,\"m\":3}");
}
