//! What the execution of operations gives back.

use crate::assoc::first_named;
use crate::json::{
    array_value, clone_values, member, members_view, null_value, object_value, value_view,
    values_view, JsonView,
};
use crate::operation::{or_null, BatchView};
use serde_json::Value;
use vstd::prelude::*;

verus! {

/// The result of executing one operation: the data, `null` where there is
/// none, and the errors in the order in which they were raised.
#[derive(Clone, Debug, PartialEq)]
pub struct ExecutionResult {
    pub data: Value,
    pub errors: Vec<Value>,
}

/// What an [`ExecutionResult`] holds, as mathematical values.
pub struct ExecutionResultView {
    pub data: JsonView,
    pub errors: Seq<JsonView>,
}

impl View for ExecutionResult {
    type V = ExecutionResultView;

    open spec fn view(&self) -> ExecutionResultView {
        ExecutionResultView { data: value_view(self.data), errors: values_view(self.errors@) }
    }
}

impl ExecutionResultView {
    /// An execution succeeded when it raised no error, whatever its data are.
    pub open spec fn is_ok(self) -> bool {
        self.errors.len() == 0
    }

    /// The JSON form of a result: an object with the members `data` and
    /// `errors`.
    pub open spec fn to_json(self) -> JsonView {
        JsonView::Object(seq![("data"@, self.data), ("errors"@, JsonView::Array(self.errors))])
    }

    /// The result that a JSON document stands for: its member `data`, `null`
    /// where it has none, and the items of its member `errors`, none where it
    /// has no such member or the member is no array.
    pub open spec fn from_json(document: JsonView) -> ExecutionResultView {
        ExecutionResultView {
            data: or_null(document.member("data"@)),
            errors: match document.member("errors"@) {
                Some(JsonView::Array(errors)) => errors,
                _ => Seq::empty(),
            },
        }
    }
}

impl ExecutionResult {
    /// A result made of its parts.
    pub fn new(data: Value, errors: Vec<Value>) -> (result: ExecutionResult)
        ensures
            result.data == data,
            result.errors == errors,
    {
        ExecutionResult { data, errors }
    }

    /// Reads a result from a JSON document, such as an execution engine
    /// gives: an engine may leave out `errors` where there are none, and
    /// `data` where the operation was not run.
    pub fn from_json(document: &Value) -> (result: ExecutionResult)
        ensures
            result@ == ExecutionResultView::from_json(value_view(*document)),
    {
        let data = match member(document, "data") {
            Some(value) => value.clone(),
            None => null_value(),
        };
        let errors = match member(document, "errors") {
            Some(value) => match value.as_array() {
                Some(items) => clone_values(items),
                None => Vec::new(),
            },
            None => Vec::new(),
        };
        assert(values_view(Seq::<Value>::empty()) =~= Seq::empty());
        ExecutionResult { data, errors }
    }

    /// Whether the execution raised no error.
    pub fn is_ok(&self) -> (ok: bool)
        ensures
            ok == self@.is_ok(),
    {
        self.errors.len() == 0
    }

    /// The JSON form of this result.
    pub fn to_json(&self) -> (document: Value)
        ensures
            value_view(document) == self@.to_json(),
    {
        let errors = clone_values(&self.errors);
        let mut members: Vec<(String, Value)> = Vec::new();
        members.push(("data".to_owned(), self.data.clone()));
        members.push(("errors".to_owned(), array_value(errors)));
        proof {
            lemma_result_names_differ();
            assert(members_view(members@) =~= self@.to_json()->Object_0);
        }
        object_value(members)
    }
}

/// The results of executing a batch: one result for one operation, a sequence
/// of results for a sequence of operations.
#[derive(Clone, Debug, PartialEq)]
pub enum BatchResult {
    Single(ExecutionResult),
    Many(Vec<ExecutionResult>),
}

/// What a [`BatchResult`] holds, as mathematical values.
pub enum BatchResultView {
    Single(ExecutionResultView),
    Many(Seq<ExecutionResultView>),
}

/// The views of a sequence of results.
pub open spec fn results_view(results: Seq<ExecutionResult>) -> Seq<ExecutionResultView> {
    results.map_values(|result: ExecutionResult| result@)
}

impl View for BatchResult {
    type V = BatchResultView;

    open spec fn view(&self) -> BatchResultView {
        match self {
            BatchResult::Single(result) => BatchResultView::Single(result@),
            BatchResult::Many(results) => BatchResultView::Many(results_view(results@)),
        }
    }
}

impl BatchResultView {
    /// The results, in order.
    pub open spec fn results(self) -> Seq<ExecutionResultView> {
        match self {
            BatchResultView::Single(result) => seq![result],
            BatchResultView::Many(results) => results,
        }
    }

    /// A batch succeeded when each of its executions raised no error.
    pub open spec fn is_ok(self) -> bool {
        forall|i: int| 0 <= i < self.results().len() ==> (#[trigger] self.results()[i]).is_ok()
    }

    /// The JSON form of the results: the object of the one result, or the
    /// array of the objects of the results, in their order.
    pub open spec fn to_json(self) -> JsonView {
        match self {
            BatchResultView::Single(result) => result.to_json(),
            BatchResultView::Many(results) => JsonView::Array(
                results.map_values(|result: ExecutionResultView| result.to_json()),
            ),
        }
    }

    /// The results of `batch`, collected: the result of its one operation,
    /// or the results of its operations in their order.
    pub open spec fn collected(
        batch: BatchView,
        results: Seq<ExecutionResultView>,
    ) -> BatchResultView {
        match batch {
            BatchView::Single(_) => BatchResultView::Single(results.last()),
            BatchView::Many(_) => BatchResultView::Many(results),
        }
    }

    /// The results answer `batch`: one result for one operation, as many
    /// results as operations for a sequence of them.
    pub open spec fn answers(self, batch: BatchView) -> bool {
        match (self, batch) {
            (BatchResultView::Single(_), BatchView::Single(_)) => true,
            (BatchResultView::Many(results), BatchView::Many(operations)) => results.len()
                == operations.len(),
            _ => false,
        }
    }
}

impl BatchResult {
    /// Whether every execution of the batch raised no error.
    pub fn is_ok(&self) -> (ok: bool)
        ensures
            ok == self@.is_ok(),
    {
        match self {
            BatchResult::Single(result) => {
                let ok = result.is_ok();
                proof {
                    assert(self@.results()[0] == result@);
                }
                ok
            },
            BatchResult::Many(results) => {
                let mut i: usize = 0;
                while i < results.len()
                    invariant
                        i <= results.len(),
                        self@.results() == results_view(results@),
                        forall|j: int| 0 <= j < i ==> (#[trigger] self@.results()[j]).is_ok(),
                    decreases results.len() - i,
                {
                    if !results[i].is_ok() {
                        proof {
                            assert(!self@.results()[i as int].is_ok());
                        }
                        return false;
                    }
                    i += 1;
                }
                true
            },
        }
    }

    /// The JSON form of these results.
    pub fn to_json(&self) -> (document: Value)
        ensures
            value_view(document) == self@.to_json(),
    {
        match self {
            BatchResult::Single(result) => result.to_json(),
            BatchResult::Many(results) => {
                let mut items: Vec<Value> = Vec::new();
                let mut i: usize = 0;
                while i < results.len()
                    invariant
                        i <= results.len(),
                        items@.len() == i,
                        forall|j: int| 0 <= j < i ==> value_view(#[trigger] items@[j])
                            == results@[j]@.to_json(),
                    decreases results.len() - i,
                {
                    items.push(results[i].to_json());
                    i += 1;
                }
                proof {
                    assert(values_view(items@) =~= results_view(results@).map_values(
                        |result: ExecutionResultView| result.to_json(),
                    ));
                }
                array_value(items)
            },
        }
    }
}

/// Reading the JSON form of a result gives the result back.
pub proof fn lemma_result_round_trip(result: ExecutionResultView)
    ensures
        ExecutionResultView::from_json(result.to_json()) == result,
{
    lemma_result_names_differ();
    reveal_with_fuel(first_named, 3);
}

/// The two member names of a result's JSON form are different texts.
pub proof fn lemma_result_names_differ()
    ensures
        "data"@ != "errors"@,
{
    reveal_strlit("data");
    reveal_strlit("errors");
    assert("data"@.len() == 4);
    assert("errors"@.len() == 6);
}

} // verus!
