//! The dispatcher: what to do with a request, step by step.
//!
//! The library does not execute operations. It decodes a request, hands out
//! its operations one at a time, takes the result of each back, and encodes
//! the response when the last result is in. Whoever drives it performs the
//! actions: it runs an operation against its schema, and sends a response.

use crate::decode::{decode_get, decode_post, decoded_get, decoded_post, same_text};
use crate::execution::{
    results_view, BatchResult, BatchResultView, ExecutionResult, ExecutionResultView,
};
use crate::json::{json_document, json_text, JsonView};
use crate::operation::{Batch, BatchView, Operation, OperationView};
use crate::response::{encode, RequestError, Response, ResponseView};
use vstd::prelude::*;

verus! {

/// The method of a request, as far as the dispatcher tells methods apart.
#[derive(Clone, Copy, Debug, PartialEq, Eq, Structural)]
pub enum Method {
    Get,
    Post,
    Other,
}

impl Method {
    /// The method with this name. Names of methods are case-sensitive.
    pub open spec fn named(name: Seq<char>) -> Method {
        if name == "GET"@ {
            Method::Get
        } else if name == "POST"@ {
            Method::Post
        } else {
            Method::Other
        }
    }

    /// The method with this name.
    pub fn from_name(name: &str) -> (method: Method)
        ensures
            method == Method::named(name@),
    {
        if same_text(name, "GET") {
            Method::Get
        } else if same_text(name, "POST") {
            Method::Post
        } else {
            Method::Other
        }
    }
}

/// What the dispatcher reads of an HTTP request: the method, the query
/// string, the media type that the `Content-Type` header names, and the body.
#[derive(Clone, Debug, PartialEq, Eq)]
pub struct Request {
    pub method: Method,
    pub query_string: String,
    pub content_type: String,
    pub body: String,
}

/// What a [`Request`] holds, as mathematical values.
pub struct RequestView {
    pub method: Method,
    pub query_string: Seq<char>,
    pub content_type: Seq<char>,
    pub body: Seq<char>,
}

impl View for Request {
    type V = RequestView;

    open spec fn view(&self) -> RequestView {
        RequestView {
            method: self.method,
            query_string: self.query_string@,
            content_type: self.content_type@,
            body: self.body@,
        }
    }
}

/// How far the handling of one request has come. Between the last result and
/// the response the handling passes two more stages, in which the results
/// are collected and the response is encoded. Neither waits for anything from
/// outside, so they take no step of their own: see
/// [`BatchResultView::collected`] and [`ResponseView::encoded`].
#[derive(Clone, Debug, PartialEq)]
pub enum State {
    /// Nothing has been done yet.
    Received,
    /// The request is decoded. The operations before `results.len()` have
    /// been executed, the one at `results.len()` has been handed out.
    Decoded { batch: Batch, results: Vec<ExecutionResult> },
    /// The response has been handed out.
    Responded,
}

/// What a [`State`] holds, as mathematical values.
pub enum StateView {
    Received,
    Decoded { batch: BatchView, results: Seq<ExecutionResultView> },
    Responded,
}

impl View for State {
    type V = StateView;

    open spec fn view(&self) -> StateView {
        match self {
            State::Received => StateView::Received,
            State::Decoded { batch, results } => StateView::Decoded {
                batch: batch@,
                results: results_view(results@),
            },
            State::Responded => StateView::Responded,
        }
    }
}

/// What happened outside: a request came in, or the operation that was handed
/// out has been executed.
#[derive(Clone, Debug, PartialEq)]
pub enum Event {
    Request(Request),
    Executed(ExecutionResult),
}

/// What an [`Event`] holds, as mathematical values.
pub enum EventView {
    Request(RequestView),
    Executed(ExecutionResultView),
}

impl View for Event {
    type V = EventView;

    open spec fn view(&self) -> EventView {
        match self {
            Event::Request(request) => EventView::Request(request@),
            Event::Executed(result) => EventView::Executed(result@),
        }
    }
}

/// What is to be done outside.
#[derive(Clone, Debug, PartialEq)]
pub enum Action {
    /// Execute this operation and come back with its result.
    Execute(Operation),
    /// Send this response. The handling of the request is over.
    Respond(Response),
    /// The event does not belong to the state: nothing is done.
    Nothing,
}

/// What an [`Action`] holds, as mathematical values.
pub enum ActionView {
    Execute(OperationView),
    Respond(ResponseView),
    Nothing,
}

impl View for Action {
    type V = ActionView;

    open spec fn view(&self) -> ActionView {
        match self {
            Action::Execute(op) => ActionView::Execute(op@),
            Action::Respond(response) => ActionView::Respond(response@),
            Action::Nothing => ActionView::Nothing,
        }
    }
}

/// Whether the body of a request is read at all: only that of a POST request
/// of one of the two content types that are decoded.
pub open spec fn body_wanted(method: Method, content_type: Seq<char>) -> bool {
    method == Method::Post && (content_type == "application/json"@ || content_type
        == "application/graphql"@)
}

/// Whether the body of a request is to be read. Whoever reads the request
/// asks this first, and hands on an empty body where the answer is no.
pub fn wants_body(method: Method, content_type: &str) -> (wanted: bool)
    ensures
        wanted == body_wanted(method, content_type@),
{
    match method {
        Method::Post => same_text(content_type, "application/json") || same_text(
            content_type,
            "application/graphql",
        ),
        _ => false,
    }
}

/// The view of the outcome of decoding a request.
pub open spec fn decoded_view(decoded: Result<Batch, RequestError>) -> Result<
    BatchView,
    RequestError,
> {
    match decoded {
        Ok(batch) => Ok(batch@),
        Err(e) => Err(e),
    }
}

/// The operations that a request asks for. A GET request asks for one
/// operation. A method other than GET and POST has no route, and nothing of
/// such a request is decoded.
pub open spec fn decoded_request(request: RequestView) -> Result<BatchView, RequestError> {
    match request.method {
        Method::Get => match decoded_get(request.query_string) {
            Ok(op) => Ok(BatchView::Single(op)),
            Err(e) => Err(RequestError::Decode(e)),
        },
        Method::Post => match decoded_post(request.content_type, request.body) {
            Ok(batch) => Ok(batch),
            Err(e) => Err(RequestError::Decode(e)),
        },
        Method::Other => Err(RequestError::NotFound),
    }
}

impl StateView {
    /// In `Decoded` an operation is out for execution: fewer results are in
    /// than the batch has operations.
    pub open spec fn well_formed(self) -> bool {
        match self {
            StateView::Decoded { batch, results } => results.len() < batch.operations().len(),
            _ => true,
        }
    }

    /// The first step after decoding. A request that was refused is answered
    /// at once and nothing is executed. Of a decoded batch the first
    /// operation is handed out.
    pub open spec fn started(decoded: Result<BatchView, RequestError>) -> (StateView, ActionView) {
        match decoded {
            Ok(batch) => if batch.operations().len() > 0 {
                (
                    StateView::Decoded { batch, results: Seq::empty() },
                    ActionView::Execute(batch.operations()[0]),
                )
            } else {
                (
                    StateView::Responded,
                    ActionView::Respond(
                        ResponseView::encoded(BatchResultView::collected(batch, Seq::empty())),
                    ),
                )
            },
            Err(e) => (StateView::Responded, ActionView::Respond(e.response())),
        }
    }

    /// The step that `event` causes in this state. A result that comes in is
    /// put behind those that are in. Then the next operation is handed out,
    /// or, with the last result in, the response is encoded and handed out.
    pub open spec fn next(self, event: EventView) -> (StateView, ActionView) {
        match (self, event) {
            (StateView::Received, EventView::Request(request)) => StateView::started(
                decoded_request(request),
            ),
            (StateView::Decoded { batch, results }, EventView::Executed(result)) => {
                let results = results.push(result);
                if results.len() < batch.operations().len() {
                    (
                        StateView::Decoded { batch, results },
                        ActionView::Execute(batch.operations()[results.len() as int]),
                    )
                } else {
                    (
                        StateView::Responded,
                        ActionView::Respond(
                            ResponseView::encoded(BatchResultView::collected(batch, results)),
                        ),
                    )
                }
            },
            _ => (self, ActionView::Nothing),
        }
    }

    /// The state after the results of `results` have come in one after the
    /// other, and the actions that they caused, in order.
    pub open spec fn run(self, results: Seq<ExecutionResultView>) -> (StateView, Seq<ActionView>)
        decreases results.len(),
    {
        if results.len() == 0 {
            (self, Seq::empty())
        } else {
            let (state, action) = self.next(EventView::Executed(results[0]));
            let (last, actions) = state.run(results.drop_first());
            (last, seq![action] + actions)
        }
    }
}

/// Collects the results of a batch.
fn collect(batch: &Batch, results: Vec<ExecutionResult>) -> (collected: BatchResult)
    requires
        batch is Single ==> results.len() > 0,
    ensures
        collected@ == BatchResultView::collected(batch@, results_view(results@)),
{
    match batch {
        Batch::Single(_) => {
            let mut results = results;
            let last = results.pop().unwrap();
            BatchResult::Single(last)
        },
        Batch::Many(_) => BatchResult::Many(results),
    }
}

/// The first step after decoding: takes the outcome of the decoder and says
/// what is to be done.
pub fn start(decoded: Result<Batch, RequestError>) -> (next: (State, Action))
    ensures
        (next.0@, next.1@) == StateView::started(decoded_view(decoded)),
{
    match decoded {
        Ok(batch) => {
            let results: Vec<ExecutionResult> = Vec::new();
            assert(results_view(results@) =~= Seq::empty());
            if batch.len() > 0 {
                let op = batch.get(0).unwrap().clone();
                (State::Decoded { batch, results }, Action::Execute(op))
            } else {
                let response = encode(&collect(&batch, results));
                (State::Responded, Action::Respond(response))
            }
        },
        Err(e) => (State::Responded, Action::Respond(e.to_response())),
    }
}

/// Handles a GET request: decodes its query string and says what is to be
/// done.
pub fn get_graphql_handler(query_string: &str) -> (next: (State, Action))
    ensures
        (next.0@, next.1@) == StateView::started(
            match decoded_get(query_string@) {
                Ok(op) => Ok(BatchView::Single(op)),
                Err(e) => Err(RequestError::Decode(e)),
            },
        ),
{
    start(
        match decode_get(query_string) {
            Ok(op) => Ok(Batch::Single(op)),
            Err(e) => Err(RequestError::Decode(e)),
        },
    )
}

/// Handles a POST request: decodes its body by its content type and says what
/// is to be done.
pub fn post_graphql_handler(content_type: &str, body: &str) -> (next: (State, Action))
    ensures
        (next.0@, next.1@) == StateView::started(
            match decoded_post(content_type@, body@) {
                Ok(batch) => Ok(batch),
                Err(e) => Err(RequestError::Decode(e)),
            },
        ),
{
    start(
        match decode_post(content_type, body) {
            Ok(batch) => Ok(batch),
            Err(e) => Err(RequestError::Decode(e)),
        },
    )
}

/// Handles a request by its method: GET and POST are decoded, each in its
/// way; any other method is answered as a route that does not exist, and
/// nothing is decoded.
pub fn graphql_handler(request: &Request) -> (next: (State, Action))
    ensures
        (next.0@, next.1@) == StateView::started(decoded_request(request@)),
{
    match request.method {
        Method::Get => get_graphql_handler(request.query_string.as_str()),
        Method::Post => post_graphql_handler(
            request.content_type.as_str(),
            request.body.as_str(),
        ),
        Method::Other => start(Err(RequestError::NotFound)),
    }
}

/// Takes one step: from a state and what happened outside to the next state
/// and what is to be done outside.
pub fn step(state: State, event: Event) -> (next: (State, Action))
    ensures
        (next.0@, next.1@) == state@.next(event@),
{
    match state {
        State::Received => match event {
            Event::Request(request) => graphql_handler(&request),
            Event::Executed(_) => (State::Received, Action::Nothing),
        },
        State::Decoded { batch, results } => match event {
            Event::Executed(result) => {
                let ghost before = results_view(results@);
                let mut results = results;
                results.push(result);
                assert(results_view(results@) =~= before.push(result@));
                if results.len() < batch.len() {
                    let op = batch.get(results.len()).unwrap().clone();
                    (State::Decoded { batch, results }, Action::Execute(op))
                } else {
                    let response = encode(&collect(&batch, results));
                    (State::Responded, Action::Respond(response))
                }
            },
            Event::Request(_) => (State::Decoded { batch, results }, Action::Nothing),
        },
        State::Responded => (State::Responded, Action::Nothing),
    }
}

/// A body that is not wanted is not read: whatever it is, the request is
/// decoded to the same.
pub proof fn lemma_unwanted_body_is_not_read(request: RequestView, body: Seq<char>)
    requires
        !body_wanted(request.method, request.content_type),
    ensures
        decoded_request(request) == decoded_request(RequestView { body, ..request }),
{
}

/// A request that is decoded asks for at least one operation.
pub proof fn lemma_decoded_request_is_well_formed(request: RequestView)
    ensures
        decoded_request(request) matches Ok(batch) ==> batch.well_formed(),
        StateView::Received.next(EventView::Request(request)).0.well_formed(),
{
}

/// Every step keeps a state well formed.
pub proof fn lemma_step_keeps_well_formed(state: StateView, event: EventView)
    requires
        state.well_formed(),
    ensures
        state.next(event).0.well_formed(),
{
    if let EventView::Request(request) = event {
        lemma_decoded_request_is_well_formed(request);
    }
}

/// A request that is refused, for its method or because it cannot be
/// decoded, is answered at once with the response to the error, 404 or 400,
/// and no operation is ever handed out for it.
pub proof fn lemma_refused_request_is_not_executed(request: RequestView, later: EventView)
    requires
        decoded_request(request) is Err,
    ensures
        StateView::Received.next(EventView::Request(request)) == (
            StateView::Responded,
            ActionView::Respond(decoded_request(request)->Err_0.response()),
        ),
        decoded_request(request)->Err_0.response().status == 404 || decoded_request(
            request,
        )->Err_0.response().status == 400,
        StateView::Responded.next(later) == (StateView::Responded, ActionView::Nothing),
{
}

/// The shape of a request tells the shape of its response: one operation is
/// answered by one object, a sequence of operations by an array with an item
/// for each of them.
pub proof fn lemma_response_mirrors_request(batch: BatchView, results: Seq<ExecutionResultView>)
    requires
        batch.well_formed(),
        results.len() == batch.operations().len(),
    ensures
        BatchResultView::collected(batch, results).answers(batch),
        BatchResultView::collected(batch, results).results() == results,
        batch is Single ==> BatchResultView::collected(batch, results).to_json()
            == results[0].to_json() && results[0].to_json() is Object,
        batch is Many ==> (BatchResultView::collected(batch, results).to_json()
            matches JsonView::Array(items) && items.len() == results.len()),
{
}

/// With `done` in, the results `rest` of the operations that are left, coming
/// in one after the other, cause the operations that follow to be handed out
/// in their order, one for each result but the last, and the last result
/// causes the response to all results, those of `done` first.
pub proof fn lemma_run_answers_in_order(
    batch: BatchView,
    done: Seq<ExecutionResultView>,
    rest: Seq<ExecutionResultView>,
)
    requires
        done.len() + rest.len() == batch.operations().len(),
        rest.len() > 0,
    ensures
        ({
            let (last, actions) = (StateView::Decoded { batch, results: done }).run(rest);
            &&& last == StateView::Responded
            &&& actions.len() == rest.len()
            &&& forall|i: int|
                0 <= i < rest.len() - 1 ==> #[trigger] actions[i] == ActionView::Execute(
                    batch.operations()[done.len() + 1 + i],
                )
            &&& actions.last() == ActionView::Respond(
                ResponseView::encoded(BatchResultView::collected(batch, done + rest)),
            )
        }),
    decreases rest.len(),
{
    let state = StateView::Decoded { batch, results: done };
    let (middle, action) = state.next(EventView::Executed(rest[0]));
    let (last, actions) = middle.run(rest.drop_first());
    if rest.len() == 1 {
        // The last result is in: the response is due.
        assert(done.push(rest[0]) =~= done + rest);
    } else {
        // The results that are left are answered from the next state on.
        lemma_run_answers_in_order(batch, done.push(rest[0]), rest.drop_first());
        assert(done.push(rest[0]) + rest.drop_first() =~= done + rest);
        let all = seq![action] + actions;
        assert forall|i: int| 0 <= i < rest.len() - 1 implies #[trigger] all[i]
            == ActionView::Execute(batch.operations()[done.len() + 1 + i]) by {
            if i > 0 {
                assert(all[i] == actions[i - 1]);
            }
        }
        assert(all.last() == actions.last());
    }
}

/// Every request is answered. When as many results have come in as the
/// request asks for operations, none for a request that is refused, the
/// response is out: the last action hands it out, and every action before
/// hands out an operation.
pub proof fn lemma_every_request_is_answered(
    request: RequestView,
    results: Seq<ExecutionResultView>,
)
    requires
        results.len() == match decoded_request(request) {
            Ok(batch) => batch.operations().len(),
            Err(_) => 0,
        },
    ensures
        ({
            let (state, first) = StateView::Received.next(EventView::Request(request));
            let (last, actions) = state.run(results);
            let all = seq![first] + actions;
            &&& last == StateView::Responded
            &&& all.len() == results.len() + 1
            &&& all.last() is Respond
            &&& forall|i: int| 0 <= i < results.len() ==> (#[trigger] all[i]) is Execute
        }),
{
    let (state, first) = StateView::Received.next(EventView::Request(request));
    let (last, actions) = state.run(results);
    let all = seq![first] + actions;
    match decoded_request(request) {
        Ok(batch) => {
            lemma_decoded_request_is_well_formed(request);
            lemma_run_answers_in_order(batch, Seq::empty(), results);
            assert forall|i: int| 0 <= i < results.len() implies (#[trigger] all[i]) is Execute by {
                if i > 0 {
                    assert(all[i] == actions[i - 1]);
                }
            }
            assert(all.last() == actions.last());
        },
        Err(_) => {
            assert(all =~= seq![first]);
        },
    }
}

/// A POST request of content type `application/json` whose body is an array
/// of operations, at least one, has its operations handed out in the order of
/// the array, and is answered, when the result of each is in, by the text of
/// an array that holds the JSON form of each result, in the same order. The
/// status is 200 if no execution raised an error, and 400 if one did.
pub proof fn lemma_json_batch_is_answered_in_order(
    request: RequestView,
    results: Seq<ExecutionResultView>,
)
    requires
        request.method == Method::Post,
        request.content_type == "application/json"@,
        json_document(request.body) matches Some(JsonView::Array(items)) && {
            &&& items.len() > 0
            &&& items.len() == results.len()
            &&& forall|i: int|
                0 <= i < items.len() ==> (#[trigger] OperationView::from_json(items[i])) is Some
        },
    ensures
        ({
            let items = json_document(request.body)->0->Array_0;
            let (state, first) = StateView::Received.next(EventView::Request(request));
            let (last, actions) = state.run(results);
            let answer = JsonView::Array(
                results.map_values(|result: ExecutionResultView| result.to_json()),
            );
            &&& first == ActionView::Execute(OperationView::from_json(items[0])->0)
            &&& actions.len() == results.len()
            &&& forall|i: int|
                0 <= i < results.len() - 1 ==> #[trigger] actions[i] == ActionView::Execute(
                    OperationView::from_json(items[i + 1])->0,
                )
            &&& last == StateView::Responded
            &&& actions.last() == ActionView::Respond(
                ResponseView::json(
                    forall|i: int| 0 <= i < results.len() ==> (#[trigger] results[i]).is_ok(),
                    json_text(answer),
                ),
            )
        }),
{
    let items = json_document(request.body)->0->Array_0;
    let operations = items.map_values(|item: JsonView| OperationView::from_json(item)->0);
    let batch = BatchView::Many(operations);
    assert(decoded_request(request) == Ok::<BatchView, RequestError>(batch));
    lemma_run_answers_in_order(batch, Seq::empty(), results);
    assert(Seq::<ExecutionResultView>::empty() + results =~= results);
    let collected = BatchResultView::collected(batch, results);
    assert(collected.results() == results);
    assert(collected.is_ok() == (forall|i: int|
        0 <= i < results.len() ==> (#[trigger] results[i]).is_ok()));
    let (state, first) = StateView::Received.next(EventView::Request(request));
    let (last, actions) = state.run(results);
    assert forall|i: int| 0 <= i < results.len() - 1 implies #[trigger] actions[i]
        == ActionView::Execute(OperationView::from_json(items[i + 1])->0) by {
        assert(operations[i + 1] == OperationView::from_json(items[i + 1])->0);
    }
}

} // verus!
