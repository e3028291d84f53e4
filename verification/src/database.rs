//! The store of to-do items that operations are resolved against. A store is
//! made anew for each request and is never written to afterwards.

use crate::decimal::{decimal, decimal_text};
use crate::schema::{Todo, TodoView};
use std::collections::HashMap;
use vstd::prelude::*;
use vstd::std_specs::hash::{axiom_spec_keys_iter, spec_keys_iter};
use vstd::std_specs::iter::IteratorSpec;
use vstd::string::StringExecFns;

verus! {

/// The to-do items, each under its id.
pub struct Database {
    todos: HashMap<i32, Todo>,
}

/// The item that a new store holds under `id`.
pub open spec fn seed(id: i32) -> TodoView {
    TodoView { id: id as int, title: "todo "@ + decimal(id as int), is_done: false }
}

/// What a new store holds: five items, under the ids 0 to 4.
pub open spec fn seeded() -> Map<i32, TodoView> {
    Map::new(|id: i32| 0 <= id < 5, |id: i32| seed(id))
}

impl View for Database {
    type V = Map<i32, TodoView>;

    closed spec fn view(&self) -> Map<i32, TodoView> {
        self.todos@.map_values(|todo: Todo| todo@)
    }
}

impl Clone for Database {
    fn clone(&self) -> (copy: Database)
        ensures
            copy@ == self@,
    {
        proof {
            use_type_invariant(self);
        }
        Database { todos: self.todos.clone() }
    }
}

impl Default for Database {
    /// A store without any item.
    fn default() -> (database: Database)
        ensures
            database@ == Map::<i32, TodoView>::empty(),
    {
        let database = Database { todos: HashMap::new() };
        assert(database@ =~= Map::<i32, TodoView>::empty());
        database
    }
}

impl Database {
    /// Each item is held under its own id.
    #[verifier::type_invariant]
    spec fn each_under_its_id(self) -> bool {
        forall|id: i32| self.todos@.contains_key(id) ==> (#[trigger] self.todos@[id]).id == id
    }

    /// A store with the five items that every store starts with.
    pub fn new() -> (database: Database)
        ensures
            database@ == seeded(),
    {
        let mut todos: HashMap<i32, Todo> = HashMap::new();
        let mut i: i32 = 0;
        while i < 5
            invariant
                0 <= i <= 5,
                forall|id: i32| todos@.contains_key(id) <==> 0 <= id < i,
                forall|id: i32| 0 <= id < i ==> (#[trigger] todos@[id])@ == seed(id),
            decreases 5 - i,
        {
            let title = "todo ".to_owned().concat(decimal_text(i).as_str());
            let todo = Todo::new(i, title);
            todos.insert(todo.id, todo);
            i += 1;
        }
        let database = Database { todos };
        assert(database@ =~= seeded());
        database
    }

    /// The item with this id, if the store holds one.
    pub fn get_todo(&self, id: i32) -> (todo: Option<&Todo>)
        ensures
            match todo {
                Some(found) => self@.contains_key(id) && found@ == self@[id] && found.id == id,
                None => !self@.contains_key(id),
            },
    {
        proof {
            use_type_invariant(self);
        }
        self.todos.get(&id)
    }

    /// All items of the store, each once, in no particular order.
    pub fn all_todos(&self) -> (todos: Vec<Todo>)
        ensures
            todos@.len() == self@.dom().len(),
            forall|i: int|
                0 <= i < todos@.len() ==> self@.contains_key((#[trigger] todos@[i]).id)
                    && self@[todos@[i].id] == todos@[i]@,
            forall|i: int, j: int|
                0 <= i < j < todos@.len() ==> (#[trigger] todos@[i]).id != (
                #[trigger] todos@[j]).id,
            forall|id: i32|
                self@.contains_key(id) ==> exists|i: int|
                    0 <= i < todos@.len() && (#[trigger] todos@[i]).id == id,
    {
        proof {
            use_type_invariant(self);
        }
        let mut todos: Vec<Todo> = Vec::new();
        for id in iter: self.todos.keys()
            invariant
                iter.seq() == spec_keys_iter(&self.todos).remaining(),
                forall|id: i32|
                    self.todos@.contains_key(id) ==> (#[trigger] self.todos@[id]).id == id,
                todos@.len() == iter.index(),
                forall|j: int|
                    0 <= j < todos@.len() ==> (#[trigger] todos@[j]).id == *iter.seq()[j]
                        && self.todos@.contains_key(todos@[j].id) && todos@[j]@
                        == self.todos@[todos@[j].id]@,
        {
            proof {
                broadcast use axiom_spec_keys_iter;

                let ids = spec_keys_iter(&self.todos).remaining().unref();
                assert(ids[iter.index()] == *id);
                assert(ids.to_set().contains(*id));
            }
            let todo = self.todos.get(id).unwrap();
            todos.push(todo.clone());
        }
        proof {
            broadcast use axiom_spec_keys_iter;

            let held = spec_keys_iter(&self.todos).remaining();
            let ids = held.unref();
            assert(self@.dom() =~= self.todos@.dom());
            assert forall|i: int, j: int| 0 <= i < j < todos@.len() implies (
            #[trigger] todos@[i]).id != (#[trigger] todos@[j]).id by {
                assert(held[i] != held[j]);
            }
            assert forall|id: i32| self@.contains_key(id) implies exists|i: int|
                0 <= i < todos@.len() && (#[trigger] todos@[i]).id == id by {
                assert(ids.to_set().contains(id));
                let i = choose|i: int| 0 <= i < ids.len() && ids[i] == id;
                assert(todos@[i].id == id);
            }
        }
        todos
    }
}

} // verus!
