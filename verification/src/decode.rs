//! The request decoder: from the query string of a GET request, or from the
//! content type and the body of a POST request, to the operations asked for.

use crate::assoc::{distinct_names, first_named, has_name, lemma_first_named};
use crate::json::{json_document, parse, JsonView};
use crate::operation::{lemma_member_names_differ, Batch, BatchView, Operation, OperationView};
use vstd::prelude::*;

verus! {

/// `actix_web::error::QueryPayloadError`: why a query string could not be
/// read. It is carried, never looked at.
#[verifier::external_type_specification]
#[verifier::external_body]
pub struct ExQueryPayloadError(actix_web::error::QueryPayloadError);

/// Why a request could not be decoded.
#[derive(Clone, Copy, Debug, PartialEq, Eq, Structural)]
pub enum DecodeError {
    /// The query string is no sequence of pairs of a key and a value.
    MalformedQuery,
    /// The query string has a key other than `query`, `operationName` and
    /// `variables`.
    UnknownField,
    /// The query string has one of its keys twice.
    DuplicateField,
    /// The query string has no key `query`.
    MissingQuery,
    /// The value of `variables` in the query string is no JSON.
    InvalidVariablesJson,
    /// The body is no JSON, or is JSON but neither an operation nor a
    /// non-empty array of operations.
    InvalidJson,
    /// The content type is neither `application/json` nor
    /// `application/graphql`.
    UnsupportedContentType,
}

/// The pairs of a key and a value that a query string is read as, in their
/// order and percent-decoded; nothing where it cannot be read.
pub uninterp spec fn form_pairs(query_string: Seq<char>) -> Option<Seq<(Seq<char>, Seq<char>)>>;

/// The texts of a sequence of pairs.
pub open spec fn pairs_view(pairs: Seq<(String, String)>) -> Seq<(Seq<char>, Seq<char>)> {
    pairs.map_values(|pair: (String, String)| (pair.0@, pair.1@))
}

/// `actix_web::web::Query::<Vec<(String, String)>>::from_query`: reads a
/// query string as a sequence of pairs of a key and a value.
#[verifier::external_body]
fn read_pairs(query_string: &str) -> (outcome: Result<
    Vec<(String, String)>,
    actix_web::error::QueryPayloadError,
>)
    ensures
        match outcome {
            Ok(pairs) => form_pairs(query_string@) == Some(pairs_view(pairs@)),
            Err(_) => form_pairs(query_string@) is None,
        },
{
    match actix_web::web::Query::<Vec<(String, String)>>::from_query(query_string) {
        Ok(query) => Ok(query.into_inner()),
        Err(error) => Err(error),
    }
}

/// The fields of a GET request, as its query string gives them: `variables`
/// is still the text that came.
#[derive(Clone, Debug, PartialEq, Eq)]
pub struct GetGraphQLRequest {
    pub query: String,
    pub operation_name: Option<String>,
    pub variables: Option<String>,
}

/// What a [`GetGraphQLRequest`] holds, as mathematical values.
pub struct GetGraphQLRequestView {
    pub query: Seq<char>,
    pub operation_name: Option<Seq<char>>,
    pub variables: Option<Seq<char>>,
}

/// The text of a string that may be missing.
pub open spec fn text_option_view(text: Option<String>) -> Option<Seq<char>> {
    match text {
        Some(t) => Some(t@),
        None => None,
    }
}

impl View for GetGraphQLRequest {
    type V = GetGraphQLRequestView;

    open spec fn view(&self) -> GetGraphQLRequestView {
        GetGraphQLRequestView {
            query: self.query@,
            operation_name: text_option_view(self.operation_name),
            variables: text_option_view(self.variables),
        }
    }
}

/// The keys that a query string may have.
pub open spec fn known_key(key: Seq<char>) -> bool {
    key == "query"@ || key == "operationName"@ || key == "variables"@
}

/// Every key of `pairs` is a known one.
pub open spec fn all_keys_known(pairs: Seq<(Seq<char>, Seq<char>)>) -> bool {
    forall|i: int| 0 <= i < pairs.len() ==> known_key((#[trigger] pairs[i]).0)
}

impl GetGraphQLRequestView {
    /// The fields that the pairs of a query string give. One unknown key is
    /// enough to refuse the pairs, whatever else they hold; then no key may
    /// come twice, and `query` must be there.
    pub open spec fn from_pairs(pairs: Seq<(Seq<char>, Seq<char>)>) -> Result<
        GetGraphQLRequestView,
        DecodeError,
    > {
        if !all_keys_known(pairs) {
            Err(DecodeError::UnknownField)
        } else if !distinct_names(pairs) {
            Err(DecodeError::DuplicateField)
        } else {
            match first_named(pairs, "query"@) {
                None => Err(DecodeError::MissingQuery),
                Some(query) => Ok(
                    GetGraphQLRequestView {
                        query,
                        operation_name: first_named(pairs, "operationName"@),
                        variables: first_named(pairs, "variables"@),
                    },
                ),
            }
        }
    }

    /// The operation that the fields stand for: the text of `variables` must
    /// be JSON.
    pub open spec fn to_operation(self) -> Result<OperationView, DecodeError> {
        match self.variables {
            None => Ok(
                OperationView {
                    query: self.query,
                    operation_name: self.operation_name,
                    variables: None,
                },
            ),
            Some(text) => match json_document(text) {
                Some(document) => Ok(
                    OperationView {
                        query: self.query,
                        operation_name: self.operation_name,
                        variables: Some(document),
                    },
                ),
                None => Err(DecodeError::InvalidVariablesJson),
            },
        }
    }
}

/// The view of the outcome of reading the fields of a GET request.
pub open spec fn fields_result_view(outcome: Result<GetGraphQLRequest, DecodeError>) -> Result<
    GetGraphQLRequestView,
    DecodeError,
> {
    match outcome {
        Ok(request) => Ok(request@),
        Err(e) => Err(e),
    }
}

/// The view of the outcome of decoding one operation.
pub open spec fn operation_result_view(outcome: Result<Operation, DecodeError>) -> Result<
    OperationView,
    DecodeError,
> {
    match outcome {
        Ok(op) => Ok(op@),
        Err(e) => Err(e),
    }
}

/// The view of the outcome of decoding a batch.
pub open spec fn batch_result_view(outcome: Result<Batch, DecodeError>) -> Result<
    BatchView,
    DecodeError,
> {
    match outcome {
        Ok(batch) => Ok(batch@),
        Err(e) => Err(e),
    }
}

impl GetGraphQLRequest {
    /// Picks the fields of a GET request out of the pairs of its query string.
    pub fn from_pairs(pairs: Vec<(String, String)>) -> (outcome: Result<
        GetGraphQLRequest,
        DecodeError,
    >)
        ensures
            fields_result_view(outcome) == GetGraphQLRequestView::from_pairs(pairs_view(pairs@)),
    {
        let ghost all = pairs_view(pairs@);
        let query_key = "query".to_owned();
        let name_key = "operationName".to_owned();
        let variables_key = "variables".to_owned();
        let mut rest = pairs;
        let mut query: Option<String> = None;
        let mut operation_name: Option<String> = None;
        let mut variables: Option<String> = None;
        let mut duplicate = false;
        // The pairs are taken from the end, so that of two pairs with one key
        // the earlier one is seen last and stays.
        while rest.len() > 0
            invariant
                all == pairs_view(pairs@),
                query_key@ == "query"@,
                name_key@ == "operationName"@,
                variables_key@ == "variables"@,
                rest.len() <= all.len(),
                pairs_view(rest@) == all.take(rest.len() as int),
                all_keys_known(all.skip(rest.len() as int)),
                duplicate == !distinct_names(all.skip(rest.len() as int)),
                text_option_view(query) == first_named(all.skip(rest.len() as int), "query"@),
                text_option_view(operation_name) == first_named(
                    all.skip(rest.len() as int),
                    "operationName"@,
                ),
                text_option_view(variables) == first_named(
                    all.skip(rest.len() as int),
                    "variables"@,
                ),
            decreases rest.len(),
        {
            let ghost n = rest.len() as int;
            let ghost seen = all.skip(n);
            let ghost now = all.skip(n - 1);
            let ghost before = rest@;
            let (key, value) = rest.pop().unwrap();
            proof {
                assert(pairs_view(before)[n - 1] == (key@, value@));
                assert(all.take(n)[n - 1] == all[n - 1]);
                assert(now[0] == (key@, value@));
                assert(now.drop_first() =~= seen);
                assert(pairs_view(rest@) =~= all.take(n - 1));
                lemma_extend_front(now);
                lemma_first_named(seen, key@);
                lemma_member_names_differ();
            }
            if key == query_key {
                if query.is_some() {
                    duplicate = true;
                }
                query = Some(value);
            } else if key == name_key {
                if operation_name.is_some() {
                    duplicate = true;
                }
                operation_name = Some(value);
            } else if key == variables_key {
                if variables.is_some() {
                    duplicate = true;
                }
                variables = Some(value);
            } else {
                proof {
                    assert(!known_key(all[n - 1].0));
                }
                return Err(DecodeError::UnknownField);
            }
        }
        proof {
            assert(all.skip(0) =~= all);
        }
        if duplicate {
            return Err(DecodeError::DuplicateField);
        }
        match query {
            Some(query) => Ok(GetGraphQLRequest { query, operation_name, variables }),
            None => Err(DecodeError::MissingQuery),
        }
    }
}

impl Operation {
    /// The operation that the fields of a GET request stand for. The text of
    /// `variables` is read as JSON and taken as it is read: whether it is an
    /// object is left to the execution.
    pub fn from_get(request: GetGraphQLRequest) -> (outcome: Result<Operation, DecodeError>)
        ensures
            operation_result_view(outcome) == request@.to_operation(),
    {
        let GetGraphQLRequest { query, operation_name, variables } = request;
        match variables {
            None => Ok(Operation::new(query, operation_name, None)),
            Some(text) => match parse(text.as_str()) {
                Some(document) => Ok(Operation::new(query, operation_name, Some(document))),
                None => Err(DecodeError::InvalidVariablesJson),
            },
        }
    }
}

/// The operation that the pairs of a query string ask for.
pub open spec fn decoded_pairs(pairs: Seq<(Seq<char>, Seq<char>)>) -> Result<
    OperationView,
    DecodeError,
> {
    match GetGraphQLRequestView::from_pairs(pairs) {
        Ok(request) => request.to_operation(),
        Err(e) => Err(e),
    }
}

/// The operation that a GET request with this query string asks for.
pub open spec fn decoded_get(query_string: Seq<char>) -> Result<OperationView, DecodeError> {
    match form_pairs(query_string) {
        Some(pairs) => decoded_pairs(pairs),
        None => Err(DecodeError::MalformedQuery),
    }
}

/// The operations that a POST request with this content type and body asks
/// for. A body of content type `application/graphql` is the query as it
/// stands.
pub open spec fn decoded_post(content_type: Seq<char>, body: Seq<char>) -> Result<
    BatchView,
    DecodeError,
> {
    if content_type == "application/json"@ {
        match json_document(body) {
            Some(document) => match BatchView::from_json(document) {
                Some(batch) => Ok(batch),
                None => Err(DecodeError::InvalidJson),
            },
            None => Err(DecodeError::InvalidJson),
        }
    } else if content_type == "application/graphql"@ {
        Ok(BatchView::Single(OperationView { query: body, operation_name: None, variables: None }))
    } else {
        Err(DecodeError::UnsupportedContentType)
    }
}

/// Decodes the pairs of a query string.
pub fn decode_pairs(pairs: Vec<(String, String)>) -> (outcome: Result<Operation, DecodeError>)
    ensures
        operation_result_view(outcome) == decoded_pairs(pairs_view(pairs@)),
{
    match GetGraphQLRequest::from_pairs(pairs) {
        Ok(request) => Operation::from_get(request),
        Err(e) => Err(e),
    }
}

/// Decodes the query string of a GET request. A GET request asks for one
/// operation, never for a batch.
pub fn decode_get(query_string: &str) -> (outcome: Result<Operation, DecodeError>)
    ensures
        operation_result_view(outcome) == decoded_get(query_string@),
{
    match read_pairs(query_string) {
        Ok(pairs) => decode_pairs(pairs),
        Err(_) => Err(DecodeError::MalformedQuery),
    }
}

/// Decodes the body of a POST request by its content type, which is the
/// media type alone, without parameters.
pub fn decode_post(content_type: &str, body: &str) -> (outcome: Result<Batch, DecodeError>)
    ensures
        batch_result_view(outcome) == decoded_post(content_type@, body@),
        outcome matches Ok(batch) ==> batch@.well_formed(),
{
    if same_text(content_type, "application/json") {
        match parse(body) {
            Some(document) => match Batch::from_json(&document) {
                Some(batch) => Ok(batch),
                None => Err(DecodeError::InvalidJson),
            },
            None => Err(DecodeError::InvalidJson),
        }
    } else if same_text(content_type, "application/graphql") {
        Ok(Batch::Single(Operation::new(body.to_owned(), None, None)))
    } else {
        Err(DecodeError::UnsupportedContentType)
    }
}

/// Whether two strings are the same text.
pub(crate) fn same_text(a: &str, b: &str) -> (same: bool)
    ensures
        same == (a@ == b@),
{
    a.to_owned() == b.to_owned()
}

/// A query string that can be read, with a key `query`, no unknown key and no
/// key twice, and whose `variables`, if it has any, are JSON, is decoded to
/// one operation with the values that the query string gives.
pub proof fn lemma_valid_get_decodes(query_string: Seq<char>)
    requires
        form_pairs(query_string) matches Some(pairs) && {
            &&& has_name(pairs, "query"@)
            &&& all_keys_known(pairs)
            &&& distinct_names(pairs)
            &&& first_named(pairs, "variables"@) matches Some(text) ==> json_document(text) is Some
        },
    ensures
        decoded_get(query_string) matches Ok(op) && {
            let pairs = form_pairs(query_string)->0;
            &&& Some(op.query) == first_named(pairs, "query"@)
            &&& op.operation_name == first_named(pairs, "operationName"@)
            &&& op.variables == match first_named(pairs, "variables"@) {
                Some(text) => json_document(text),
                None => None,
            }
        },
{
    let pairs = form_pairs(query_string)->0;
    lemma_first_named(pairs, "query"@);
}

/// One key other than `query`, `operationName` and `variables` is enough for
/// a query string to be refused as having an unknown field, whatever its
/// other keys and values are.
pub proof fn lemma_unknown_key_refused(query_string: Seq<char>)
    requires
        form_pairs(query_string) matches Some(pairs) && exists|i: int|
            0 <= i < pairs.len() && !known_key((#[trigger] pairs[i]).0),
    ensures
        decoded_get(query_string) == Err::<OperationView, DecodeError>(DecodeError::UnknownField),
{
}

/// A body of content type `application/graphql` becomes, character for
/// character, the query of the one operation that is asked for, which has
/// no operation name and no variables.
pub proof fn lemma_graphql_body_is_query(body: Seq<char>)
    ensures
        decoded_post("application/graphql"@, body) == Ok::<BatchView, DecodeError>(
            BatchView::Single(
                OperationView { query: body, operation_name: None, variables: None },
            ),
        ),
{
    lemma_content_types_differ();
}

/// A body of content type `application/json` that is an array of operations,
/// at least one, is decoded to as many operations, in the array's order.
pub proof fn lemma_json_array_decodes_in_order(body: Seq<char>)
    requires
        json_document(body) matches Some(JsonView::Array(items)) && items.len() > 0 && forall|
            i: int,
        |
            0 <= i < items.len() ==> (#[trigger] OperationView::from_json(items[i])) is Some,
    ensures
        decoded_post("application/json"@, body) matches Ok(BatchView::Many(operations)) && {
            let items = json_document(body)->0->Array_0;
            &&& operations.len() == items.len()
            &&& forall|i: int|
                0 <= i < items.len() ==> Some(#[trigger] operations[i]) == OperationView::from_json(
                    items[i],
                )
        },
{
}

/// The two content types that a POST request may have are different texts.
pub proof fn lemma_content_types_differ()
    ensures
        "application/json"@ != "application/graphql"@,
{
    reveal_strlit("application/json");
    reveal_strlit("application/graphql");
    assert("application/json"@.len() == 16);
    assert("application/graphql"@.len() == 19);
}

/// What one more pair in front does to a sequence of pairs.
proof fn lemma_extend_front(pairs: Seq<(Seq<char>, Seq<char>)>)
    requires
        pairs.len() > 0,
    ensures
        all_keys_known(pairs) <==> known_key(pairs[0].0) && all_keys_known(pairs.drop_first()),
        distinct_names(pairs) <==> !has_name(pairs.drop_first(), pairs[0].0) && distinct_names(
            pairs.drop_first(),
        ),
{
    let rest = pairs.drop_first();
    assert forall|i: int| 0 <= i < rest.len() implies rest[i] == pairs[i + 1] by {}
    if all_keys_known(pairs) {
        assert(known_key(pairs[0].0));
        assert forall|i: int| 0 <= i < rest.len() implies known_key((#[trigger] rest[i]).0) by {
            assert(known_key(pairs[i + 1].0));
        }
    }
    if known_key(pairs[0].0) && all_keys_known(rest) {
        assert forall|i: int| 0 <= i < pairs.len() implies known_key((#[trigger] pairs[i]).0) by {
            if i > 0 {
                assert(known_key(rest[i - 1].0));
            }
        }
    }
    if distinct_names(pairs) {
        if has_name(rest, pairs[0].0) {
            let i = choose|i: int| 0 <= i < rest.len() && (#[trigger] rest[i]).0 == pairs[0].0;
            assert(pairs[0].0 != pairs[i + 1].0);
        }
        assert forall|i: int, j: int| 0 <= i < j < rest.len() implies (#[trigger] rest[i]).0 != (
        #[trigger] rest[j]).0 by {
            assert(pairs[i + 1].0 != pairs[j + 1].0);
        }
    }
    if !has_name(rest, pairs[0].0) && distinct_names(rest) {
        assert forall|i: int, j: int| 0 <= i < j < pairs.len() implies (#[trigger] pairs[i]).0 != (
        #[trigger] pairs[j]).0 by {
            if i == 0 {
                assert(rest[j - 1].0 == pairs[j].0);
            } else {
                assert(rest[i - 1].0 != rest[j - 1].0);
            }
        }
    }
}

} // verus!
