use game_saver::timetable::Timetable;

fn name(text: &str) -> String {
    text.to_string()
}

#[test]
fn a_new_table_is_empty() {
    let table = Timetable::new();
    assert!(table.keys().is_empty());
    assert_eq!(table.get(&name("Foo")), None);
    assert!(!table.contains_key(&name("Foo")));
}

#[test]
fn insert_notes_and_replaces() {
    let mut table = Timetable::new();
    table.insert(name("Foo"), 1);
    table.insert(name("Bar"), 2);
    assert_eq!(table.get(&name("Foo")), Some(1));
    assert_eq!(table.get(&name("Bar")), Some(2));
    table.insert(name("Foo"), 3);
    assert_eq!(table.get(&name("Foo")), Some(3));
    assert_eq!(table.get(&name("Bar")), Some(2));
    assert_eq!(table.keys(), vec![name("Foo"), name("Bar")]);
    assert!(table.contains_key(&name("Bar")));
    assert!(!table.contains_key(&name("bar")));
}

#[test]
fn remove_forgets_one_name() {
    let mut table = Timetable::new();
    table.insert(name("Foo"), 1);
    table.insert(name("Bar"), 2);
    table.insert(name("Baz"), 3);
    table.remove(&name("Bar"));
    assert_eq!(table.keys(), vec![name("Foo"), name("Baz")]);
    assert_eq!(table.get(&name("Bar")), None);
    assert_eq!(table.get(&name("Baz")), Some(3));
    table.remove(&name("Bar"));
    table.remove(&name("Nobody"));
    assert_eq!(table.keys().len(), 2);
    table.remove(&name("Foo"));
    table.remove(&name("Baz"));
    assert!(table.keys().is_empty());
}
