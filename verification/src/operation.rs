//! Operations and batches of operations, and their JSON form.

use crate::assoc::first_named;
use crate::json::{
    member, members_view, null_value, object_value, text_value, value_view,
    values_view, JsonView,
};
use serde_json::Value;
use vstd::prelude::*;

verus! {

/// One GraphQL operation: the query text, passed on as it came, with the name
/// of the operation to run and the variables, where the request gave them.
#[derive(Debug, PartialEq)]
pub struct Operation {
    pub query: String,
    pub operation_name: Option<String>,
    pub variables: Option<Value>,
}

/// What an [`Operation`] holds, as mathematical values.
pub struct OperationView {
    pub query: Seq<char>,
    pub operation_name: Option<Seq<char>>,
    pub variables: Option<JsonView>,
}

impl View for Operation {
    type V = OperationView;

    open spec fn view(&self) -> OperationView {
        OperationView {
            query: self.query@,
            operation_name: match self.operation_name {
                Some(name) => Some(name@),
                None => None,
            },
            variables: match self.variables {
                Some(value) => Some(value_view(value)),
                None => None,
            },
        }
    }
}

impl Clone for Operation {
    fn clone(&self) -> (copy: Operation)
        ensures
            copy@ == self@,
    {
        Operation {
            query: self.query.clone(),
            operation_name: match &self.operation_name {
                Some(name) => Some(name.clone()),
                None => None,
            },
            variables: match &self.variables {
                Some(value) => Some(value.clone()),
                None => None,
            },
        }
    }
}

/// The view of an operation that may be missing.
pub open spec fn operation_option_view(operation: Option<Operation>) -> Option<OperationView> {
    match operation {
        Some(op) => Some(op@),
        None => None,
    }
}

/// A member that is absent or `null` counts as not given.
pub open spec fn given(member: Option<JsonView>) -> Option<JsonView> {
    match member {
        None => None,
        Some(JsonView::Null) => None,
        Some(document) => Some(document),
    }
}

/// The text of a member that must be a string where it is given; the outer
/// `None` says that it is given and is no string.
pub open spec fn given_text(member: Option<JsonView>) -> Option<Option<Seq<char>>> {
    match given(member) {
        None => Some(None),
        Some(JsonView::Text(text)) => Some(Some(text)),
        Some(_) => None,
    }
}

/// A document, or `null` in place of a missing one.
pub open spec fn or_null(document: Option<JsonView>) -> JsonView {
    match document {
        Some(d) => d,
        None => JsonView::Null,
    }
}

impl OperationView {
    /// The JSON form of an operation: an object with the members `query`,
    /// `operationName` and `variables`, the last two `null` where the
    /// operation has none.
    pub open spec fn to_json(self) -> JsonView {
        JsonView::Object(
            seq![
                ("query"@, JsonView::Text(self.query)),
                (
                    "operationName"@,
                    match self.operation_name {
                        Some(name) => JsonView::Text(name),
                        None => JsonView::Null,
                    },
                ),
                ("variables"@, or_null(self.variables)),
            ],
        )
    }

    /// The operation that a JSON document stands for: an object whose member
    /// `query` is a string and whose member `operationName`, where given, is a
    /// string too. Other members than these and `variables` are not looked at.
    pub open spec fn from_json(document: JsonView) -> Option<OperationView> {
        match (document.member("query"@), given_text(document.member("operationName"@))) {
            (Some(JsonView::Text(query)), Some(operation_name)) => Some(
                OperationView {
                    query,
                    operation_name,
                    variables: given(document.member("variables"@)),
                },
            ),
            _ => None,
        }
    }
}

impl Operation {
    /// An operation made of its parts.
    pub fn new(query: String, operation_name: Option<String>, variables: Option<Value>) -> (op:
        Operation)
        ensures
            op.query == query,
            op.operation_name == operation_name,
            op.variables == variables,
    {
        Operation { query, operation_name, variables }
    }

    /// The JSON form of this operation.
    pub fn to_json(&self) -> (document: Value)
        ensures
            value_view(document) == self@.to_json(),
    {
        let name = match &self.operation_name {
            Some(name) => text_value(name.clone()),
            None => null_value(),
        };
        let variables = match &self.variables {
            Some(value) => value.clone(),
            None => null_value(),
        };
        let mut members: Vec<(String, Value)> = Vec::new();
        members.push(("query".to_owned(), text_value(self.query.clone())));
        members.push(("operationName".to_owned(), name));
        members.push(("variables".to_owned(), variables));
        proof {
            lemma_member_names_differ();
            assert(members_view(members@) =~= self@.to_json()->Object_0);
        }
        object_value(members)
    }

    /// Reads an operation from its JSON form.
    pub fn from_json(document: &Value) -> (op: Option<Operation>)
        ensures
            operation_option_view(op) == OperationView::from_json(value_view(*document)),
    {
        let query = match member(document, "query") {
            Some(value) => match value.as_str() {
                Some(text) => text.to_owned(),
                None => { return None; },
            },
            None => { return None; },
        };
        let operation_name = match member(document, "operationName") {
            Some(value) => if value.is_null() {
                None
            } else {
                match value.as_str() {
                    Some(text) => Some(text.to_owned()),
                    None => { return None; },
                }
            },
            None => None,
        };
        let variables = match member(document, "variables") {
            Some(value) => if value.is_null() {
                None
            } else {
                Some(value.clone())
            },
            None => None,
        };
        Some(Operation { query, operation_name, variables })
    }
}

/// A request's operations: one operation, or a sequence of them that is
/// answered by a sequence of results in the same order.
#[derive(Clone, Debug, PartialEq)]
pub enum Batch {
    Single(Operation),
    Many(Vec<Operation>),
}

/// What a [`Batch`] holds, as mathematical values.
pub enum BatchView {
    Single(OperationView),
    Many(Seq<OperationView>),
}

/// The views of a sequence of operations.
pub open spec fn operations_view(operations: Seq<Operation>) -> Seq<OperationView> {
    operations.map_values(|op: Operation| op@)
}

impl View for Batch {
    type V = BatchView;

    open spec fn view(&self) -> BatchView {
        match self {
            Batch::Single(op) => BatchView::Single(op@),
            Batch::Many(ops) => BatchView::Many(operations_view(ops@)),
        }
    }
}

/// The view of a batch that may be missing.
pub open spec fn batch_option_view(batch: Option<Batch>) -> Option<BatchView> {
    match batch {
        Some(b) => Some(b@),
        None => None,
    }
}

impl BatchView {
    /// The operations of the batch, in order.
    pub open spec fn operations(self) -> Seq<OperationView> {
        match self {
            BatchView::Single(op) => seq![op],
            BatchView::Many(ops) => ops,
        }
    }

    /// A batch has at least one operation.
    pub open spec fn well_formed(self) -> bool {
        self.operations().len() > 0
    }

    /// The batch that a JSON document stands for: a non-empty array of
    /// operations is a sequence of them, in the array's order; any other
    /// document is read as one operation.
    pub open spec fn from_json(document: JsonView) -> Option<BatchView> {
        match document {
            JsonView::Array(items) => if items.len() > 0 && forall|i: int|
                0 <= i < items.len() ==> (#[trigger] OperationView::from_json(items[i])) is Some {
                Some(
                    BatchView::Many(
                        items.map_values(|item: JsonView| OperationView::from_json(item)->0),
                    ),
                )
            } else {
                None
            },
            _ => match OperationView::from_json(document) {
                Some(op) => Some(BatchView::Single(op)),
                None => None,
            },
        }
    }
}

impl Batch {
    /// The number of operations in the batch.
    pub fn len(&self) -> (n: usize)
        ensures
            n == self@.operations().len(),
    {
        match self {
            Batch::Single(_) => 1,
            Batch::Many(ops) => ops.len(),
        }
    }

    /// The operation at `index`, counted from 0.
    pub fn get(&self, index: usize) -> (op: Option<&Operation>)
        ensures
            match op {
                Some(found) => index < self@.operations().len() && found@
                    == self@.operations()[index as int],
                None => index >= self@.operations().len(),
            },
    {
        match self {
            Batch::Single(op) => if index == 0 {
                Some(op)
            } else {
                None
            },
            Batch::Many(ops) => if index < ops.len() {
                Some(&ops[index])
            } else {
                None
            },
        }
    }

    /// Reads a batch from a JSON document.
    pub fn from_json(document: &Value) -> (batch: Option<Batch>)
        ensures
            batch_option_view(batch) == BatchView::from_json(value_view(*document)),
            batch matches Some(b) ==> b@.well_formed(),
    {
        match document.as_array() {
            Some(items) => {
                if items.len() == 0 {
                    return None;
                }
                let mut operations: Vec<Operation> = Vec::new();
                let mut i: usize = 0;
                while i < items.len()
                    invariant
                        i <= items.len(),
                        items.len() > 0,
                        value_view(*document) == JsonView::Array(values_view(items@)),
                        operations@.len() == i,
                        forall|j: int|
                            0 <= j < i ==> OperationView::from_json(value_view(items@[j])) == Some(
                                (#[trigger] operations@[j])@,
                            ),
                    decreases items.len() - i,
                {
                    match Operation::from_json(&items[i]) {
                        Some(op) => {
                            operations.push(op);
                        },
                        None => {
                            assert(OperationView::from_json(values_view(items@)[i as int])
                                is None);
                            return None;
                        },
                    }
                    i += 1;
                }
                proof {
                    let docs = values_view(items@);
                    assert forall|j: int| 0 <= j < docs.len() implies (
                    #[trigger] OperationView::from_json(docs[j])) == Some(operations@[j]@) by {
                        assert(docs[j] == value_view(items@[j]));
                    }
                    assert(operations_view(operations@) =~= docs.map_values(
                        |item: JsonView| OperationView::from_json(item)->0,
                    ));
                }
                Some(Batch::Many(operations))
            },
            None => match Operation::from_json(document) {
                Some(op) => Some(Batch::Single(op)),
                None => None,
            },
        }
    }
}

/// Reading the JSON form of an operation gives the operation back: its query,
/// its operation name and its variables. Variables that are `null` read back
/// as absent, so they are left out here.
pub proof fn lemma_operation_round_trip(op: OperationView)
    requires
        op.variables != Some(JsonView::Null),
    ensures
        OperationView::from_json(op.to_json()) == Some(op),
{
    lemma_member_names_differ();
    reveal_with_fuel(first_named, 4);
}

/// An operation that was read from a JSON document is read again from its own
/// JSON form.
pub proof fn lemma_decoded_operation_round_trip(document: JsonView)
    requires
        OperationView::from_json(document) is Some,
    ensures
        OperationView::from_json(OperationView::from_json(document)->0.to_json())
            == OperationView::from_json(document),
{
    lemma_operation_round_trip(OperationView::from_json(document)->0);
}

/// The three member names of an operation's JSON form differ from each other.
pub proof fn lemma_member_names_differ()
    ensures
        "query"@ != "operationName"@,
        "query"@ != "variables"@,
        "operationName"@ != "variables"@,
{
    reveal_strlit("query");
    reveal_strlit("operationName");
    reveal_strlit("variables");
    assert("query"@.len() == 5);
    assert("operationName"@.len() == 13);
    assert("variables"@.len() == 9);
}

} // verus!
