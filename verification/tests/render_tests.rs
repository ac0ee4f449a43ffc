use todo_list::{render, row_key, Store, Timestamp, Todo};

fn todo(id: &str, title: &str, description: &str, secs: i64) -> Todo {
    Todo::from_parts(
        id.to_string(),
        title.to_string(),
        description.to_string(),
        Timestamp { secs, nanos: 0 },
    )
}

#[test]
fn render_of_no_records_shows_the_placeholder() {
    let listing = render(Vec::new());
    assert!(listing.placeholder);
    assert!(listing.rows.is_empty());
}

#[test]
fn render_of_an_empty_store_shows_the_placeholder() {
    let store = Store::new();
    let listing = render(store.list());
    assert!(listing.placeholder);
    assert_eq!(listing.rows.len(), 0);
}

#[test]
fn render_shows_one_row_for_each_record_in_order() {
    let listing = render(vec![
        todo("a", "Buy milk", "2%", 1),
        todo("b", "Walk dog", "", 2),
        todo("c", "Buy milk", "2%", 3),
    ]);
    assert!(!listing.placeholder);
    assert_eq!(listing.rows.len(), 3);
    let shown: Vec<(&str, &str, &str)> = listing
        .rows
        .iter()
        .map(|r| (r.item.id.as_str(), r.item.title.as_str(), r.item.description.as_str()))
        .collect();
    assert_eq!(shown, vec![("a", "Buy milk", "2%"), ("b", "Walk dog", ""), ("c", "Buy milk", "2%")]);
    assert_eq!(listing.rows[2].item.created, Timestamp { secs: 3, nanos: 0 });
}

#[test]
fn render_gives_each_row_the_key_of_its_record() {
    let listing = render(vec![todo("a", "Buy milk", "2%", 1), todo("b", "Walk dog", "", 2)]);
    assert_eq!(listing.rows[0].key.id, "a");
    assert_eq!(listing.rows[0].key.title, "Buy milk");
    assert_eq!(listing.rows[0].key.description, "2%");
    assert_eq!(listing.rows[1].key, row_key(&todo("b", "Walk dog", "", 99)));
}

#[test]
fn render_of_one_record_shows_no_placeholder() {
    let listing = render(vec![todo("a", "", "", 1)]);
    assert!(!listing.placeholder);
    assert_eq!(listing.rows.len(), 1);
}

#[test]
fn render_follows_the_store_after_each_change() {
    let mut store = Store::new();
    assert!(render(store.list()).placeholder);
    store.add(todo("a", "Buy milk", "2%", 1));
    let listing = render(store.list());
    assert!(!listing.placeholder);
    assert_eq!(listing.rows.len(), 1);
    store.remove("a");
    let listing = render(store.list());
    assert!(listing.placeholder);
    assert_eq!(listing.rows.len(), 0);
}

#[test]
fn row_key_holds_identifier_title_and_description() {
    let key = row_key(&todo("a", "Buy milk", "2%", 1));
    assert_eq!(key.id, "a");
    assert_eq!(key.title, "Buy milk");
    assert_eq!(key.description, "2%");
}

#[test]
fn row_key_changes_with_each_shown_field() {
    let base = row_key(&todo("a", "Buy milk", "2%", 1));
    assert_ne!(base, row_key(&todo("b", "Buy milk", "2%", 1)));
    assert_ne!(base, row_key(&todo("a", "Buy bread", "2%", 1)));
    assert_ne!(base, row_key(&todo("a", "Buy milk", "1%", 1)));
}

#[test]
fn row_key_ignores_the_creation_time() {
    assert_eq!(row_key(&todo("a", "Buy milk", "2%", 1)), row_key(&todo("a", "Buy milk", "2%", 2)));
}

#[test]
fn row_key_clone_is_equal() {
    let key = row_key(&todo("a", "Buy milk", "2%", 1));
    assert_eq!(key.clone(), key);
}
