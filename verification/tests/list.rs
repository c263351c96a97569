use game_saver::files::SaveFile;
use game_saver::list::{ListState, SaveList, StatefulList};

fn names(items: &[&str]) -> Vec<String> {
    items.iter().map(|item| item.to_string()).collect()
}

fn save(name: &str, last_modified: i64) -> SaveFile {
    SaveFile {
        path: format!("/backup/game/{}.tar.zst", name),
        file_name: name.to_string(),
        last_modified,
    }
}

#[test]
fn with_items_selects_the_first_item() {
    let list = StatefulList::with_items(names(&["a", "b", "c"]));
    assert_eq!(list.state.selected(), Some(0));
    assert_eq!(list.get_selected(), Some("a".to_string()));
    assert_eq!(list.items, names(&["a", "b", "c"]));
}

#[test]
fn with_items_on_nothing_selects_nothing() {
    let list = StatefulList::with_items(Vec::new());
    assert_eq!(list.state.selected(), None);
    assert_eq!(list.get_selected(), None);
}

#[test]
fn next_wraps_after_the_last_item() {
    let mut list = StatefulList::with_items(names(&["a", "b", "c"]));
    list.next();
    assert_eq!(list.state.selected(), Some(1));
    list.next();
    assert_eq!(list.state.selected(), Some(2));
    list.next();
    assert_eq!(list.state.selected(), Some(0));
}

#[test]
fn previous_wraps_before_the_first_item() {
    let mut list = StatefulList::with_items(names(&["a", "b", "c"]));
    list.previous();
    assert_eq!(list.state.selected(), Some(2));
    list.previous();
    assert_eq!(list.state.selected(), Some(1));
    list.previous();
    assert_eq!(list.state.selected(), Some(0));
}

#[test]
fn a_full_round_returns_to_the_start() {
    for start in 0..5usize {
        let mut list = StatefulList::with_items(names(&["a", "b", "c", "d", "e"]));
        list.state.select(Some(start));
        for _ in 0..5 {
            list.next();
        }
        assert_eq!(list.state.selected(), Some(start));
        for _ in 0..5 {
            list.previous();
        }
        assert_eq!(list.state.selected(), Some(start));
    }
}

#[test]
fn an_empty_list_never_gains_a_selection() {
    let mut list = StatefulList::with_items(Vec::new());
    list.next();
    assert_eq!(list.state.selected(), None);
    list.previous();
    assert_eq!(list.state.selected(), None);
    list.focus();
    assert_eq!(list.state.selected(), None);
    list.autoselect_first();
    assert_eq!(list.state.selected(), None);

    let mut saves = SaveList::with_items(Vec::new());
    saves.next();
    assert_eq!(saves.state.selected(), None);
    saves.previous();
    assert_eq!(saves.state.selected(), None);
    saves.focus();
    assert_eq!(saves.state.selected(), None);
}

#[test]
fn an_empty_list_drops_a_stale_selection() {
    let mut list = StatefulList { state: ListState { selected: Some(3) }, items: Vec::new() };
    list.next();
    assert_eq!(list.state.selected(), None);
    let mut list = StatefulList { state: ListState { selected: Some(3) }, items: Vec::new() };
    list.previous();
    assert_eq!(list.state.selected(), None);
}

#[test]
fn next_without_a_selection_selects_the_first_item() {
    let mut list = StatefulList::with_items(names(&["a", "b"]));
    list.unselect();
    assert_eq!(list.state.selected(), None);
    assert_eq!(list.get_selected(), None);
    list.next();
    assert_eq!(list.state.selected(), Some(0));
    list.unselect();
    list.previous();
    assert_eq!(list.state.selected(), Some(0));
}

#[test]
fn next_from_an_index_past_the_end_selects_the_first_item() {
    let mut list = StatefulList { state: ListState { selected: Some(7) }, items: names(&["a", "b"]) };
    assert_eq!(list.get_selected(), None);
    list.next();
    assert_eq!(list.state.selected(), Some(0));
}

#[test]
fn focus_keeps_a_valid_selection() {
    let mut saves = SaveList::with_items(vec![save("one", 3), save("two", 2), save("three", 1)]);
    saves.next();
    saves.focus();
    assert_eq!(saves.state.selected(), Some(1));
    assert_eq!(saves.get_selected().map(|save| save.file_name), Some("two".to_string()));
}

#[test]
fn focus_replaces_an_invalid_selection() {
    let mut saves = SaveList {
        state: ListState { selected: Some(5) },
        items: vec![save("one", 3), save("two", 2)],
    };
    saves.focus();
    assert_eq!(saves.state.selected(), Some(0));
    let mut saves = SaveList { state: ListState::new(), items: vec![save("one", 3)] };
    saves.focus();
    assert_eq!(saves.state.selected(), Some(0));
}

#[test]
fn replace_items_keeps_the_selection_while_in_range() {
    let mut saves = SaveList::with_items(vec![save("one", 3), save("two", 2), save("three", 1)]);
    saves.next();
    saves.next();
    saves.replace_items(vec![save("one", 3), save("two", 2), save("four", 1)]);
    assert_eq!(saves.state.selected(), Some(2));
    saves.replace_items(vec![save("one", 3), save("two", 2)]);
    assert_eq!(saves.state.selected(), Some(0));
    saves.replace_items(Vec::new());
    assert_eq!(saves.state.selected(), None);
    saves.replace_items(vec![save("one", 3)]);
    assert_eq!(saves.state.selected(), Some(0));
}

#[test]
fn save_list_moves_like_the_list_of_names() {
    let mut saves = SaveList::with_items(vec![save("one", 3), save("two", 2)]);
    assert_eq!(saves.state.selected(), Some(0));
    saves.previous();
    assert_eq!(saves.state.selected(), Some(1));
    saves.next();
    assert_eq!(saves.state.selected(), Some(0));
    saves.autoselect_first();
    assert_eq!(saves.state.selected(), Some(0));
    assert_eq!(saves.get_selected().map(|save| save.last_modified), Some(3));
}

#[test]
fn list_state_starts_without_a_selection() {
    assert_eq!(ListState::default().selected(), None);
    assert_eq!(ListState::new().clone().selected(), None);
}
