//! The to-do items that the schema serves, and its root resolvers.

use crate::database::Database;
use vstd::prelude::*;

verus! {

/// One to-do item.
#[derive(Debug, PartialEq, Eq)]
pub struct Todo {
    pub id: i32,
    pub title: String,
    pub is_done: bool,
}

/// What a [`Todo`] holds, as mathematical values.
pub struct TodoView {
    pub id: int,
    pub title: Seq<char>,
    pub is_done: bool,
}

impl View for Todo {
    type V = TodoView;

    open spec fn view(&self) -> TodoView {
        TodoView { id: self.id as int, title: self.title@, is_done: self.is_done }
    }
}

impl Clone for Todo {
    fn clone(&self) -> (copy: Todo)
        ensures
            copy == *self,
    {
        Todo { id: self.id, title: self.title.clone(), is_done: self.is_done }
    }
}

impl Todo {
    /// A new item that is not done yet.
    pub fn new(id: i32, title: String) -> (todo: Todo)
        ensures
            todo@ == (TodoView { id: id as int, title: title@, is_done: false }),
    {
        Todo { id, title, is_done: false }
    }
}

/// The root of the queries.
pub struct QueryRoot;

impl QueryRoot {
    /// The version of the API.
    pub fn api_version() -> (version: &'static str)
        ensures
            version@ == "0.1"@,
    {
        "0.1"
    }

    /// The item with this id, if the store holds one.
    pub fn todo(context: &Database, id: i32) -> (todo: Option<&Todo>)
        ensures
            match todo {
                Some(found) => context@.contains_key(id) && found@ == context@[id] && found.id
                    == id,
                None => !context@.contains_key(id),
            },
    {
        context.get_todo(id)
    }

    /// All items of the store, each once, in no particular order.
    pub fn get_all_todos(context: &Database) -> (todos: Vec<Todo>)
        ensures
            todos@.len() == context@.dom().len(),
            forall|i: int|
                0 <= i < todos@.len() ==> context@.contains_key((#[trigger] todos@[i]).id)
                    && context@[todos@[i].id] == todos@[i]@,
            forall|i: int, j: int|
                0 <= i < j < todos@.len() ==> (#[trigger] todos@[i]).id != (
                #[trigger] todos@[j]).id,
            forall|id: i32|
                context@.contains_key(id) ==> exists|i: int|
                    0 <= i < todos@.len() && (#[trigger] todos@[i]).id == id,
    {
        context.all_todos()
    }
}

/// The root of the mutations.
pub struct MutationRoot;

impl MutationRoot {
    /// A new item, not done yet. It is handed back and kept nowhere: the
    /// store of the request is not written to.
    pub fn create_todo(id: i32, title: String) -> (todo: Option<Todo>)
        ensures
            todo matches Some(created) && created@ == (TodoView {
                id: id as int,
                title: title@,
                is_done: false,
            }),
    {
        Some(Todo::new(id, title))
    }
}

} // verus!
