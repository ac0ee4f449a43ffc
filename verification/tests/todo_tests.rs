use todo_list::{Timestamp, Todo};

fn record(id: &str, title: &str, description: &str, secs: i64) -> Todo {
    Todo::from_parts(
        id.to_string(),
        title.to_string(),
        description.to_string(),
        Timestamp { secs, nanos: 0 },
    )
}

#[test]
fn from_parts_keeps_every_part() {
    let todo = Todo::from_parts(
        "id-1".to_string(),
        "Buy milk".to_string(),
        "2%".to_string(),
        Timestamp { secs: 1_700_000_000, nanos: 123_456_789 },
    );
    assert_eq!(todo.id, "id-1");
    assert_eq!(todo.title, "Buy milk");
    assert_eq!(todo.description, "2%");
    assert_eq!(todo.created, Timestamp { secs: 1_700_000_000, nanos: 123_456_789 });
}

#[test]
fn new_keeps_the_texts() {
    let todo = Todo::new("Buy milk".to_string(), "2%".to_string());
    assert_eq!(todo.title, "Buy milk");
    assert_eq!(todo.description, "2%");
}

#[test]
fn new_draws_a_version_4_uuid() {
    let todo = Todo::new("a".to_string(), "b".to_string());
    assert_eq!(todo.id.len(), 36);
    let parsed = uuid::Uuid::parse_str(&todo.id).expect("the identifier is a UUID");
    assert_eq!(parsed.get_version_num(), 4);
    assert_eq!(parsed.to_string(), todo.id);
}

#[test]
fn new_identifier_has_the_hyphenated_lower_case_shape() {
    let todo = Todo::new(String::new(), String::new());
    let chars: Vec<char> = todo.id.chars().collect();
    assert_eq!(chars.len(), 36);
    for (i, c) in chars.iter().enumerate() {
        if i == 8 || i == 13 || i == 18 || i == 23 {
            assert_eq!(*c, '-');
        } else {
            assert!(matches!(*c, '0'..='9' | 'a'..='f'), "place {} holds {:?}", i, c);
        }
    }
    assert_eq!(chars[14], '4');
    assert!(matches!(chars[19], '8' | '9' | 'a' | 'b'));
}

#[test]
fn new_identifiers_differ() {
    let a = Todo::new("same".to_string(), "same".to_string());
    let b = Todo::new("same".to_string(), "same".to_string());
    assert_ne!(a.id, b.id);
}

#[test]
fn new_reads_the_clock() {
    let before = chrono::Utc::now();
    let todo = Todo::new("a".to_string(), "b".to_string());
    let after = chrono::Utc::now();
    let lower = Timestamp { secs: before.timestamp(), nanos: before.timestamp_subsec_nanos() };
    let upper = Timestamp { secs: after.timestamp(), nanos: after.timestamp_subsec_nanos() };
    assert!(lower <= todo.created, "{:?} is before {:?}", todo.created, lower);
    assert!(todo.created <= upper, "{:?} is after {:?}", todo.created, upper);
    assert!(todo.created.nanos < 1_000_000_000);
}

#[test]
fn new_creation_time_converts_back_to_chrono() {
    let todo = Todo::new("a".to_string(), "b".to_string());
    let back = chrono::DateTime::from_timestamp(todo.created.secs, todo.created.nanos)
        .expect("the creation time is in chrono's range");
    assert_eq!(back.timestamp(), todo.created.secs);
    assert_eq!(back.timestamp_subsec_nanos(), todo.created.nanos);
}

#[test]
fn new_empty_has_empty_texts_and_an_identifier() {
    let todo = Todo::new_empty();
    assert_eq!(todo.title, "");
    assert_eq!(todo.description, "");
    assert!(!todo.id.is_empty());
    assert!(uuid::Uuid::parse_str(&todo.id).is_ok());
}

#[test]
fn new_accepts_empty_texts() {
    let todo = Todo::new(String::new(), String::new());
    assert_eq!(todo.title, "");
    assert_eq!(todo.description, "");
    assert_eq!(todo.id.len(), 36);
}

#[test]
fn with_texts_keeps_identifier_and_creation_time() {
    let todo = record("id-7", "Buy milk", "2%", 42);
    let edited = todo.with_texts("Buy bread".to_string(), "rye".to_string());
    assert_eq!(edited.id, "id-7");
    assert_eq!(edited.created, Timestamp { secs: 42, nanos: 0 });
    assert_eq!(edited.title, "Buy bread");
    assert_eq!(edited.description, "rye");
    assert_eq!(todo.title, "Buy milk");
    assert_eq!(todo.description, "2%");
}

#[test]
fn clone_copies_every_field() {
    let todo = record("id-9", "t", "d", 5);
    let copy = todo.clone();
    assert_eq!(copy.id, todo.id);
    assert_eq!(copy.title, todo.title);
    assert_eq!(copy.description, todo.description);
    assert_eq!(copy.created, todo.created);
}

#[test]
fn timestamps_order_by_seconds_then_nanoseconds() {
    let a = Timestamp { secs: 1, nanos: 999_999_999 };
    let b = Timestamp { secs: 2, nanos: 0 };
    let c = Timestamp { secs: 2, nanos: 1 };
    assert!(a < b);
    assert!(b < c);
    assert!(a < c);
    assert_eq!(b, Timestamp { secs: 2, nanos: 0 });
    let negative = Timestamp { secs: -1, nanos: 500 };
    assert!(negative < Timestamp { secs: 0, nanos: 0 });
}

#[test]
fn timestamps_sort_records_by_creation() {
    let mut items = vec![record("c", "3", "", 30), record("a", "1", "", 10), record("b", "2", "", 20)];
    items.sort_by_key(|t| t.created);
    let ids: Vec<&str> = items.iter().map(|t| t.id.as_str()).collect();
    assert_eq!(ids, vec!["a", "b", "c"]);
}
