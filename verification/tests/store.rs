use graphql_dispatch::database::Database;
use graphql_dispatch::decimal::decimal_text;
use graphql_dispatch::schema::{MutationRoot, QueryRoot, Todo};

#[test]
fn new_todo_is_not_done() {
    let todo = Todo::new(7, String::from("write tests"));
    assert_eq!(todo, Todo { id: 7, title: "write tests".to_string(), is_done: false });
}

#[test]
fn new_store_holds_five_todos() {
    let store = Database::new();
    for id in 0..5 {
        assert_eq!(
            store.get_todo(id),
            Some(&Todo { id, title: format!("todo {}", id), is_done: false })
        );
    }
    assert_eq!(store.get_todo(5), None);
    assert_eq!(store.get_todo(-1), None);
    assert_eq!(store.get_todo(i32::MAX), None);
}

#[test]
fn all_todos_has_each_once() {
    let store = Database::new();
    let mut todos = store.all_todos();
    assert_eq!(todos.len(), 5);
    todos.sort_by_key(|todo| todo.id);
    for (id, todo) in todos.iter().enumerate() {
        assert_eq!(todo, &Todo { id: id as i32, title: format!("todo {}", id), is_done: false });
    }
}

#[test]
fn default_store_is_empty() {
    let store = Database::default();
    assert_eq!(store.all_todos(), vec![]);
    assert_eq!(store.get_todo(0), None);
}

#[test]
fn cloned_store_holds_the_same() {
    let store = Database::new();
    let copy = store.clone();
    assert_eq!(copy.get_todo(3), store.get_todo(3));
    assert_eq!(copy.all_todos().len(), 5);
}

#[test]
fn query_root_resolvers() {
    let store = Database::new();
    assert_eq!(QueryRoot::api_version(), "0.1");
    assert_eq!(
        QueryRoot::todo(&store, 1),
        Some(&Todo { id: 1, title: "todo 1".to_string(), is_done: false })
    );
    assert_eq!(QueryRoot::todo(&store, 9), None);
    let mut ids: Vec<i32> = QueryRoot::get_all_todos(&store).iter().map(|todo| todo.id).collect();
    ids.sort();
    assert_eq!(ids, vec![0, 1, 2, 3, 4]);
}

#[test]
fn created_todo_is_not_kept() {
    let created = MutationRoot::create_todo(9, "new".to_string());
    assert_eq!(created, Some(Todo { id: 9, title: "new".to_string(), is_done: false }));
    assert_eq!(Database::new().get_todo(9), None);
}

#[test]
fn decimal_text_of_integers() {
    assert_eq!(decimal_text(0), "0");
    assert_eq!(decimal_text(7), "7");
    assert_eq!(decimal_text(10), "10");
    assert_eq!(decimal_text(109), "109");
    assert_eq!(decimal_text(-1), "-1");
    assert_eq!(decimal_text(-120), "-120");
    assert_eq!(decimal_text(i32::MAX), "2147483647");
    assert_eq!(decimal_text(i32::MIN), "-2147483648");
    for n in [-1000, -99, -10, -9, 1, 9, 11, 99, 100, 101, 65535, 1000000] {
        assert_eq!(decimal_text(n), format!("{}", n));
    }
}
