use game_saver::clock::Moment;
use game_saver::config::{Config, Game, GameConfig};
use game_saver::events::{
    complete, handle_autosave_list, handle_control, handle_events, handle_exits, handle_game_list,
    handle_input, handle_key, handle_main_view, handle_manual_save_list, handle_prompt, Action,
    EventResult, Outcome, Reaction,
};
use game_saver::files::SaveFile;
use game_saver::keys::{Event, KeyCode, KeyEvent, KeyModifiers};
use game_saver::state::{AppState, Error, Input, InputType, PromptType, UiState};

fn game(name: &str, autosaves: usize) -> Game {
    Game {
        name: name.to_string(),
        config: GameConfig {
            savegame_location: format!("/games/{}", name),
            autosaves,
            autosave_timeout: 0,
            ignored_files: Vec::new(),
        },
    }
}

fn moment(millis: i64) -> Moment {
    Moment::new(millis, "12:34:56".to_string(), "2024-05-06_12-34-56".to_string())
}

fn save(name: &str, last_modified: i64) -> SaveFile {
    SaveFile {
        path: format!("/backup/Foo/{}.tar.zst", name),
        file_name: name.to_string(),
        last_modified,
    }
}

/// Games "Bar" (no automatic saves) and "Foo" (three), with "Foo" selected
/// and two saves in each list.
fn state() -> AppState {
    let config = Config {
        backup_directory: "/backup".to_string(),
        games: vec![game("Foo", 3), game("Bar", 0)],
    };
    let mut state = AppState::new(config, &Vec::new()).unwrap();
    state.games.next();
    state.update_saves(
        vec![save("auto2", 20), save("auto1", 10)],
        vec![save("save2", 25), save("save1", 15)],
    );
    state
}

fn plain(code: KeyCode) -> KeyEvent {
    KeyEvent::plain(code)
}

fn control(code: KeyCode) -> KeyEvent {
    KeyEvent::control(code)
}

fn redraw() -> Result<Reaction, Error> {
    Ok(Reaction { result: EventResult::Redraw, action: Action::Nothing })
}

fn answer(result: EventResult) -> Result<Reaction, Error> {
    Ok(Reaction { result, action: Action::Nothing })
}

fn press(state: &mut AppState, key: KeyEvent) -> Result<Reaction, Error> {
    handle_key(&key, state, false, &moment(1_000))
}

fn type_text(state: &mut AppState, text: &str) {
    for c in text.chars() {
        assert_eq!(press(state, plain(KeyCode::Char(c))), redraw());
    }
}

#[test]
fn key_constructors() {
    assert_eq!(
        KeyEvent::plain(KeyCode::Enter),
        KeyEvent { code: KeyCode::Enter, modifiers: KeyModifiers::Plain }
    );
    assert_eq!(
        KeyEvent::control(KeyCode::Char('c')),
        KeyEvent { code: KeyCode::Char('c'), modifiers: KeyModifiers::Control }
    );
    assert!(KeyEvent::control(KeyCode::Up).with_control());
    assert!(!KeyEvent::plain(KeyCode::Up).with_control());
    assert!(!KeyEvent { code: KeyCode::Up, modifiers: KeyModifiers::Other }.with_control());
    assert!(KeyCode::Down.is_down() && KeyCode::Char('j').is_down() && !KeyCode::Up.is_down());
    assert!(KeyCode::Up.is_up() && KeyCode::Char('k').is_up() && !KeyCode::Char('j').is_up());
    assert!(KeyCode::Left.is_left() && KeyCode::Char('h').is_left() && !KeyCode::Right.is_left());
    assert!(KeyCode::Delete.is_deletion() && KeyCode::Char('d').is_deletion());
    assert!(!KeyCode::Backspace.is_deletion());
    assert!(KeyCode::Char('y').is_yes() && KeyCode::Char('Y').is_yes() && !KeyCode::Enter.is_yes());
    assert!(KeyCode::Char('n').is_no() && KeyCode::Char('N').is_no() && KeyCode::Esc.is_no());
    assert!(!KeyCode::Char('y').is_no());
    assert!(KeyCode::Char('x').is_char('x') && !KeyCode::Char('x').is_char('X'));
}

#[test]
fn exits_take_control_c_and_plain_q() {
    assert_eq!(handle_exits(&control(KeyCode::Char('c'))), EventResult::Quit);
    assert_eq!(handle_exits(&plain(KeyCode::Char('q'))), EventResult::Quit);
    assert_eq!(handle_exits(&control(KeyCode::Char('q'))), EventResult::NotHandled);
    assert_eq!(handle_exits(&plain(KeyCode::Char('c'))), EventResult::NotHandled);
    assert_eq!(
        handle_exits(&KeyEvent { code: KeyCode::Char('c'), modifiers: KeyModifiers::Other }),
        EventResult::NotHandled
    );
    assert_eq!(handle_exits(&plain(KeyCode::Esc)), EventResult::NotHandled);
}

#[test]
fn resize_redraws_and_other_events_are_not_handled() {
    let mut state = state();
    assert_eq!(handle_events(&Event::Resize, &mut state, false, &moment(0)), redraw());
    assert_eq!(
        handle_events(&Event::Other, &mut state, false, &moment(0)),
        answer(EventResult::NotHandled)
    );
    assert_eq!(
        handle_events(&Event::Key(plain(KeyCode::Char('q'))), &mut state, false, &moment(0)),
        answer(EventResult::Quit)
    );
    assert_eq!(state.state, UiState::Games);
}

#[test]
fn moving_in_the_game_list_asks_for_a_new_listing() {
    let mut state = state();
    assert_eq!(state.get_selected_game(), "Foo");
    assert_eq!(
        press(&mut state, plain(KeyCode::Down)),
        Ok(Reaction {
            result: EventResult::Redraw,
            action: Action::Reload { game: "Bar".to_string() }
        })
    );
    assert_eq!(state.games.state.selected(), Some(0));
    assert_eq!(
        press(&mut state, plain(KeyCode::Char('k'))),
        Ok(Reaction {
            result: EventResult::Redraw,
            action: Action::Reload { game: "Foo".to_string() }
        })
    );
    assert_eq!(state.games.state.selected(), Some(1));
    assert_eq!(
        handle_game_list(&plain(KeyCode::Char('j')), &mut state),
        Ok(Reaction {
            result: EventResult::Redraw,
            action: Action::Reload { game: "Bar".to_string() }
        })
    );
    assert_eq!(
        handle_game_list(&plain(KeyCode::Up), &mut state),
        Ok(Reaction {
            result: EventResult::Redraw,
            action: Action::Reload { game: "Foo".to_string() }
        })
    );
    assert_eq!(handle_game_list(&plain(KeyCode::Char('x')), &mut state), answer(EventResult::NotHandled));
}

#[test]
fn control_l_focuses_the_autosaves_of_a_game_that_has_them() {
    let mut state = state();
    state.autosaves.state.select(Some(1));
    assert_eq!(press(&mut state, control(KeyCode::Char('l'))), redraw());
    assert_eq!(state.state, UiState::Autosave);
    assert_eq!(state.autosaves.state.selected(), Some(1));
    assert!(state.previous_states.is_empty());
}

#[test]
fn control_l_skips_the_autosaves_of_a_game_without_them() {
    let mut state = state();
    state.games.previous();
    assert_eq!(state.get_selected_game(), "Bar");
    assert!(!state.selected_game_has_autosave());
    assert_eq!(press(&mut state, control(KeyCode::Char('l'))), redraw());
    assert_eq!(state.state, UiState::ManualSave);
    assert_eq!(state.manual_saves.state.selected(), Some(0));
}

#[test]
fn without_autosaves_no_key_reaches_their_list() {
    let keys = [
        KeyCode::Up,
        KeyCode::Down,
        KeyCode::Left,
        KeyCode::Right,
        KeyCode::Enter,
        KeyCode::Char('j'),
        KeyCode::Char('k'),
        KeyCode::Char('h'),
        KeyCode::Char('l'),
    ];
    for code in keys {
        for modifiers in [KeyModifiers::Plain, KeyModifiers::Control, KeyModifiers::Other] {
            for start in [UiState::Games, UiState::ManualSave] {
                let mut state = state();
                state.games.previous();
                state.state = start;
                let _ = press(&mut state, KeyEvent { code, modifiers });
                assert_ne!(state.state, UiState::Autosave);
            }
        }
    }
}

#[test]
fn control_up_and_down_switch_between_the_lists_of_saves() {
    let mut state = state();
    state.state = UiState::Autosave;
    assert_eq!(press(&mut state, control(KeyCode::Down)), redraw());
    assert_eq!(state.state, UiState::ManualSave);
    assert_eq!(press(&mut state, control(KeyCode::Char('k'))), redraw());
    assert_eq!(state.state, UiState::Autosave);
    assert_eq!(press(&mut state, control(KeyCode::Up)), redraw());
    assert_eq!(state.state, UiState::ManualSave);
    assert_eq!(press(&mut state, control(KeyCode::Char('j'))), redraw());
    assert_eq!(state.state, UiState::Autosave);
}

#[test]
fn control_down_moves_the_selection_where_there_are_no_autosaves() {
    let mut state = state();
    state.games.previous();
    state.state = UiState::ManualSave;
    assert_eq!(state.manual_saves.state.selected(), Some(0));
    assert_eq!(
        handle_control(&control(KeyCode::Down), &mut state),
        answer(EventResult::NotHandled)
    );
    assert_eq!(press(&mut state, control(KeyCode::Down)), redraw());
    assert_eq!(state.state, UiState::ManualSave);
    assert_eq!(state.manual_saves.state.selected(), Some(1));
}

#[test]
fn control_left_returns_to_the_games() {
    for start in [UiState::Autosave, UiState::ManualSave] {
        for code in [KeyCode::Left, KeyCode::Char('h')] {
            let mut state = state();
            state.state = start.clone();
            assert_eq!(press(&mut state, control(code)), redraw());
            assert_eq!(state.state, UiState::Games);
        }
    }
    let mut state = state();
    assert_eq!(press(&mut state, control(KeyCode::Left)), answer(EventResult::NotHandled));
    assert_eq!(state.state, UiState::Games);
}

#[test]
fn control_keys_without_control_are_not_taken() {
    let mut state = state();
    assert_eq!(
        handle_control(&plain(KeyCode::Char('l')), &mut state),
        answer(EventResult::NotHandled)
    );
    assert_eq!(
        handle_control(
            &KeyEvent { code: KeyCode::Char('l'), modifiers: KeyModifiers::Other },
            &mut state
        ),
        answer(EventResult::NotHandled)
    );
    assert_eq!(state.state, UiState::Games);
    state.push_state(UiState::Prompt(PromptType::Delete { save: save("save1", 15) }));
    assert_eq!(
        handle_control(&control(KeyCode::Char('l')), &mut state),
        answer(EventResult::NotHandled)
    );
}

#[test]
fn up_and_down_move_in_the_focused_list_of_saves() {
    let mut state = state();
    state.state = UiState::Autosave;
    assert_eq!(press(&mut state, plain(KeyCode::Down)), redraw());
    assert_eq!(state.autosaves.state.selected(), Some(1));
    assert_eq!(state.manual_saves.state.selected(), Some(0));
    assert_eq!(press(&mut state, plain(KeyCode::Char('j'))), redraw());
    assert_eq!(state.autosaves.state.selected(), Some(0));
    state.state = UiState::ManualSave;
    assert_eq!(press(&mut state, plain(KeyCode::Up)), redraw());
    assert_eq!(state.manual_saves.state.selected(), Some(1));
    assert_eq!(state.autosaves.state.selected(), Some(0));
    assert_eq!(handle_manual_save_list(&plain(KeyCode::Char('k')), &mut state, &moment(0)), redraw());
    assert_eq!(state.manual_saves.state.selected(), Some(0));
    assert_eq!(handle_autosave_list(&plain(KeyCode::Char('k')), &mut state, &moment(0)), redraw());
    assert_eq!(state.autosaves.state.selected(), Some(1));
}

#[test]
fn delete_key_asks_before_deleting() {
    for code in [KeyCode::Delete, KeyCode::Char('d')] {
        let mut state = state();
        state.state = UiState::ManualSave;
        assert_eq!(press(&mut state, plain(code)), redraw());
        assert_eq!(state.state, UiState::Prompt(PromptType::Delete { save: save("save2", 25) }));
        assert_eq!(state.previous_states, vec![UiState::ManualSave]);
    }
}

#[test]
fn keys_on_an_empty_list_of_saves_are_not_handled() {
    for code in [KeyCode::Delete, KeyCode::Char('d'), KeyCode::Char('r'), KeyCode::Enter] {
        let mut state = state();
        state.update_saves(Vec::new(), Vec::new());
        state.state = UiState::Autosave;
        assert_eq!(press(&mut state, plain(code)), answer(EventResult::NotHandled));
        assert_eq!(state.state, UiState::Autosave);
        assert!(state.previous_states.is_empty());
        assert!(state.ignore_changes.keys().is_empty());
    }
}

#[test]
fn r_opens_a_text_field_with_the_present_name() {
    let mut state = state();
    state.state = UiState::Autosave;
    state.autosaves.next();
    assert_eq!(press(&mut state, plain(KeyCode::Char('r'))), redraw());
    assert_eq!(
        state.state,
        UiState::Input(Input {
            game: "Foo".to_string(),
            input: "auto1".to_string(),
            input_type: InputType::Rename(save("auto1", 10)),
        })
    );
    assert_eq!(state.previous_states, vec![UiState::Autosave]);
}

#[test]
fn enter_restores_and_notes_the_time_first() {
    let mut state = state();
    state.state = UiState::ManualSave;
    let result = handle_key(&plain(KeyCode::Enter), &mut state, false, &moment(77_000));
    assert_eq!(
        result,
        Ok(Reaction {
            result: EventResult::Redraw,
            action: Action::Restore { game: "Foo".to_string(), save: save("save2", 25) },
        })
    );
    assert_eq!(state.ignore_changes.get(&"Foo".to_string()), Some(77_000));
    assert_eq!(state.state, UiState::ManualSave);
    assert!(state.event_log.is_empty());
}

#[test]
fn restore_is_logged_when_done() {
    let mut state = state();
    state.state = UiState::ManualSave;
    let action = Action::Restore { game: "Foo".to_string(), save: save("save2", 25) };
    assert_eq!(complete(&mut state, &action, Outcome::Done, &moment(0)), redraw());
    state.state = UiState::Autosave;
    let action = Action::Restore { game: "Foo".to_string(), save: save("auto2", 20) };
    assert_eq!(complete(&mut state, &action, Outcome::Done, &moment(0)), redraw());
    assert_eq!(
        state.event_log,
        vec![
            "12:34:56 - Restored savefile 'save2' for Foo".to_string(),
            "12:34:56 - Restored savefile auto2 for Foo".to_string(),
        ]
    );
    assert_eq!(state.state, UiState::Autosave);
}

#[test]
fn main_view_takes_q_and_a() {
    let mut state = state();
    assert_eq!(handle_main_view(&plain(KeyCode::Char('q')), &mut state), answer(EventResult::Quit));
    assert_eq!(
        handle_main_view(&plain(KeyCode::Char('x')), &mut state),
        answer(EventResult::NotHandled)
    );
    state.state = UiState::Autosave;
    assert_eq!(handle_main_view(&plain(KeyCode::Char('a')), &mut state), redraw());
    assert_eq!(
        state.state,
        UiState::Input(Input {
            game: "Foo".to_string(),
            input: String::new(),
            input_type: InputType::Create,
        })
    );
    assert_eq!(state.previous_states, vec![UiState::Autosave]);
}

#[test]
fn q_quits_from_every_list_and_control_c_too() {
    for start in [UiState::Games, UiState::Autosave, UiState::ManualSave] {
        let mut state = state();
        state.state = start.clone();
        assert_eq!(press(&mut state, plain(KeyCode::Char('q'))), answer(EventResult::Quit));
        assert_eq!(press(&mut state, control(KeyCode::Char('c'))), answer(EventResult::Quit));
        assert_eq!(press(&mut state, plain(KeyCode::Char('x'))), answer(EventResult::NotHandled));
        assert_eq!(press(&mut state, plain(KeyCode::Other)), answer(EventResult::NotHandled));
        assert_eq!(state.state, start);
    }
}

#[test]
fn typing_edits_the_text() {
    let mut state = state();
    state.state = UiState::ManualSave;
    assert_eq!(press(&mut state, plain(KeyCode::Char('a'))), redraw());
    type_text(&mut state, "qyé");
    assert_eq!(press(&mut state, control(KeyCode::Char('c'))), redraw());
    let typed = |text: &str| {
        UiState::Input(Input {
            game: "Foo".to_string(),
            input: text.to_string(),
            input_type: InputType::Create,
        })
    };
    assert_eq!(state.state, typed("qyéc"));
    assert_eq!(press(&mut state, plain(KeyCode::Backspace)), redraw());
    assert_eq!(press(&mut state, plain(KeyCode::Backspace)), redraw());
    assert_eq!(state.state, typed("qy"));
    assert_eq!(press(&mut state, plain(KeyCode::Backspace)), redraw());
    assert_eq!(press(&mut state, plain(KeyCode::Backspace)), redraw());
    assert_eq!(state.state, typed(""));
    assert_eq!(press(&mut state, plain(KeyCode::Backspace)), redraw());
    assert_eq!(state.state, typed(""));
    assert_eq!(press(&mut state, plain(KeyCode::Up)), answer(EventResult::Ignore));
    assert_eq!(press(&mut state, plain(KeyCode::Delete)), answer(EventResult::Ignore));
    assert_eq!(state.state, typed(""));
    assert_eq!(state.previous_states, vec![UiState::ManualSave]);
}

#[test]
fn escape_leaves_the_text_field() {
    let mut state = state();
    state.state = UiState::ManualSave;
    assert_eq!(press(&mut state, plain(KeyCode::Char('a'))), redraw());
    type_text(&mut state, "abc");
    assert_eq!(press(&mut state, plain(KeyCode::Esc)), redraw());
    assert_eq!(state.state, UiState::ManualSave);
    assert!(state.previous_states.is_empty());
    assert!(state.event_log.is_empty());
}

#[test]
fn enter_on_a_new_name_asks_for_the_save() {
    let mut state = state();
    state.state = UiState::ManualSave;
    assert_eq!(press(&mut state, plain(KeyCode::Char('a'))), redraw());
    type_text(&mut state, "fresh");
    let result = press(&mut state, plain(KeyCode::Enter));
    let action = Action::Save { game: "Foo".to_string(), name: "fresh".to_string() };
    assert_eq!(result, Ok(Reaction { result: EventResult::Redraw, action }));
    assert_eq!(state.previous_states, vec![UiState::ManualSave]);
    let action = Action::Save { game: "Foo".to_string(), name: "fresh".to_string() };
    assert_eq!(
        complete(&mut state, &action, Outcome::Done, &moment(0)),
        Ok(Reaction {
            result: EventResult::Redraw,
            action: Action::Reload { game: "Foo".to_string() }
        })
    );
    assert_eq!(state.state, UiState::ManualSave);
    assert!(state.previous_states.is_empty());
    assert_eq!(
        state.event_log,
        vec!["12:34:56 - New manual save for Foo with name 'fresh'".to_string()]
    );
    let listed = Outcome::Listed {
        autosaves: vec![save("auto2", 20), save("auto1", 10)],
        manual_saves: vec![save("fresh", 30), save("save2", 25), save("save1", 15)],
    };
    let reload = Action::Reload { game: "Foo".to_string() };
    assert_eq!(complete(&mut state, &reload, listed, &moment(0)), redraw());
    assert_eq!(
        state.manual_saves.items,
        vec![save("fresh", 30), save("save2", 25), save("save1", 15)]
    );
}

#[test]
fn enter_on_a_taken_name_for_a_new_save_asks_first() {
    let mut state = state();
    state.state = UiState::ManualSave;
    assert_eq!(press(&mut state, plain(KeyCode::Char('a'))), redraw());
    type_text(&mut state, "save1");
    assert_eq!(handle_key(&plain(KeyCode::Enter), &mut state, true, &moment(0)), redraw());
    assert_eq!(
        state.state,
        UiState::Prompt(PromptType::CreateOverwrite {
            new_name: "save1".to_string(),
            game: "Foo".to_string(),
        })
    );
    assert_eq!(state.previous_states.len(), 2);
    let result = press(&mut state, plain(KeyCode::Char('Y')));
    let action = Action::Save { game: "Foo".to_string(), name: "save1".to_string() };
    assert_eq!(result, Ok(Reaction { result: EventResult::Redraw, action }));
    let action = Action::Save { game: "Foo".to_string(), name: "save1".to_string() };
    assert!(complete(&mut state, &action, Outcome::Done, &moment(0)).is_ok());
    assert_eq!(state.state, UiState::ManualSave);
    assert!(state.previous_states.is_empty());
}

#[test]
fn renaming_to_a_taken_name_asks_whether_to_overwrite() {
    let mut state = state();
    state.state = UiState::ManualSave;
    state.manual_saves.next();
    assert_eq!(press(&mut state, plain(KeyCode::Char('r'))), redraw());
    assert_eq!(press(&mut state, plain(KeyCode::Backspace)), redraw());
    type_text(&mut state, "2");
    let result = handle_key(&plain(KeyCode::Enter), &mut state, true, &moment(0));
    assert_eq!(result, redraw());
    assert_eq!(
        state.state,
        UiState::Prompt(PromptType::RenameOverwrite {
            save: save("save1", 15),
            new_name: "save2".to_string(),
        })
    );
    assert!(state.event_log.is_empty());
}

#[test]
fn renaming_to_a_free_name_asks_for_confirmation() {
    let mut state = state();
    state.state = UiState::ManualSave;
    assert_eq!(press(&mut state, plain(KeyCode::Char('r'))), redraw());
    type_text(&mut state, "b");
    assert_eq!(handle_input(&plain(KeyCode::Enter), &mut state, false), redraw());
    assert_eq!(
        state.state,
        UiState::Prompt(PromptType::Rename {
            save: save("save2", 25),
            new_name: "save2b".to_string(),
        })
    );
}

#[test]
fn overwrite_chain_returns_to_where_it_started() {
    let mut state = state();
    state.state = UiState::ManualSave;
    state.manual_saves.next();
    assert_eq!(press(&mut state, plain(KeyCode::Char('r'))), redraw());
    assert_eq!(press(&mut state, plain(KeyCode::Backspace)), redraw());
    type_text(&mut state, "2");
    assert_eq!(handle_key(&plain(KeyCode::Enter), &mut state, true, &moment(0)), redraw());
    assert_eq!(state.previous_states.len(), 2);
    let result = press(&mut state, plain(KeyCode::Char('y')));
    let action = Action::Rename { save: save("save1", 15), new_name: "save2".to_string() };
    assert_eq!(result, Ok(Reaction { result: EventResult::Redraw, action }));
    assert_eq!(state.previous_states.len(), 2);
    let action = Action::Rename { save: save("save1", 15), new_name: "save2".to_string() };
    assert_eq!(
        complete(&mut state, &action, Outcome::Done, &moment(0)),
        Ok(Reaction {
            result: EventResult::Redraw,
            action: Action::Reload { game: "Foo".to_string() }
        })
    );
    assert_eq!(state.state, UiState::ManualSave);
    assert!(state.previous_states.is_empty());
    assert_eq!(state.event_log, vec!["12:34:56 - Renamed 'save1' to 'save2'".to_string()]);
}

#[test]
fn no_and_escape_leave_a_question() {
    for code in [KeyCode::Char('n'), KeyCode::Char('N'), KeyCode::Esc] {
        let mut state = state();
        state.state = UiState::Autosave;
        assert_eq!(press(&mut state, plain(KeyCode::Delete)), redraw());
        assert_eq!(press(&mut state, plain(code)), redraw());
        assert_eq!(state.state, UiState::Autosave);
        assert!(state.previous_states.is_empty());
    }
}

#[test]
fn a_question_swallows_other_keys() {
    let mut state = state();
    state.state = UiState::Autosave;
    assert_eq!(press(&mut state, plain(KeyCode::Delete)), redraw());
    for code in [KeyCode::Char('q'), KeyCode::Enter, KeyCode::Down, KeyCode::Char('a')] {
        assert_eq!(press(&mut state, plain(code)), answer(EventResult::Ignore));
    }
    assert_eq!(press(&mut state, control(KeyCode::Char('c'))), answer(EventResult::Ignore));
    assert_eq!(state.state, UiState::Prompt(PromptType::Delete { save: save("auto2", 20) }));
}

#[test]
fn yes_to_a_deletion_asks_for_it_and_returns_once() {
    let mut state = state();
    state.state = UiState::Autosave;
    assert_eq!(press(&mut state, plain(KeyCode::Char('d'))), redraw());
    let result = press(&mut state, plain(KeyCode::Char('y')));
    let action = Action::Delete { save: save("auto2", 20) };
    assert_eq!(result, Ok(Reaction { result: EventResult::Redraw, action }));
    assert_eq!(state.previous_states, vec![UiState::Autosave]);
    let action = Action::Delete { save: save("auto2", 20) };
    assert_eq!(
        complete(&mut state, &action, Outcome::Done, &moment(0)),
        Ok(Reaction {
            result: EventResult::Redraw,
            action: Action::Reload { game: "Foo".to_string() }
        })
    );
    assert_eq!(state.state, UiState::Autosave);
    assert_eq!(state.event_log, vec!["12:34:56 - Deleted save 'auto2'".to_string()]);
    let listed = Outcome::Listed {
        autosaves: vec![save("auto1", 10)],
        manual_saves: vec![save("save2", 25), save("save1", 15)],
    };
    let reload = Action::Reload { game: "Foo".to_string() };
    assert_eq!(complete(&mut state, &reload, listed, &moment(0)), redraw());
    assert_eq!(state.autosaves.items, vec![save("auto1", 10)]);
    assert_eq!(state.autosaves.state.selected(), Some(0));
}

#[test]
fn yes_without_the_states_to_return_to_fails_and_changes_nothing() {
    let mut state = state();
    let prompt = UiState::Prompt(PromptType::Rename {
        save: save("save1", 15),
        new_name: "other".to_string(),
    });
    state.state = UiState::ManualSave;
    state.push_state(prompt.clone());
    assert_eq!(press(&mut state, plain(KeyCode::Char('y'))), Err(Error::NoPreviousState));
    assert_eq!(state.state, prompt);
    assert_eq!(state.previous_states, vec![UiState::ManualSave]);
    let mut state = self::state();
    state.state = UiState::Prompt(PromptType::Delete { save: save("save1", 15) });
    assert_eq!(handle_prompt(&plain(KeyCode::Char('y')), &mut state), Err(Error::NoPreviousState));
    assert_eq!(handle_prompt(&plain(KeyCode::Esc), &mut state), Err(Error::NoPreviousState));
    assert_eq!(state.state, UiState::Prompt(PromptType::Delete { save: save("save1", 15) }));
}

#[test]
fn completion_without_the_states_to_return_to_fails_and_changes_nothing() {
    let mut state = state();
    state.state = UiState::ManualSave;
    state.push_state(UiState::Prompt(PromptType::Rename {
        save: save("save1", 15),
        new_name: "other".to_string(),
    }));
    let action = Action::Rename { save: save("save1", 15), new_name: "other".to_string() };
    assert_eq!(
        complete(&mut state, &action, Outcome::Done, &moment(0)),
        Err(Error::NoPreviousState)
    );
    assert_eq!(state.previous_states, vec![UiState::ManualSave]);
    assert!(state.event_log.is_empty());
}

#[test]
fn failed_work_is_logged_and_changes_nothing_else() {
    let cases = vec![
        (
            Action::Save { game: "Foo".to_string(), name: "new".to_string() },
            "12:34:56 - Failed to save Foo as 'new': disk full",
        ),
        (
            Action::Rename { save: save("save1", 15), new_name: "new".to_string() },
            "12:34:56 - Failed to rename 'save1' to 'new': disk full",
        ),
        (
            Action::Delete { save: save("save1", 15) },
            "12:34:56 - Failed to delete save 'save1': disk full",
        ),
        (
            Action::Restore { game: "Foo".to_string(), save: save("save1", 15) },
            "12:34:56 - Failed to restore savefile 'save1' for Foo: disk full",
        ),
        (
            Action::Reload { game: "Foo".to_string() },
            "12:34:56 - Failed to list the saves of Foo: disk full",
        ),
    ];
    for (action, line) in cases {
        let mut state = state();
        state.state = UiState::ManualSave;
        state.push_state(UiState::Games);
        state.push_state(UiState::Prompt(PromptType::Delete { save: save("save1", 15) }));
        let failed = Outcome::Failed { reason: "disk full".to_string() };
        assert_eq!(complete(&mut state, &action, failed, &moment(0)), redraw());
        assert_eq!(state.event_log, vec![line.to_string()]);
        assert_eq!(state.previous_states.len(), 2);
        assert_eq!(state.manual_saves.items.len(), 2);
        assert_eq!(state.autosaves.items.len(), 2);
    }
}

#[test]
fn completing_nothing_does_nothing() {
    let mut state = state();
    assert_eq!(
        complete(&mut state, &Action::Nothing, Outcome::Done, &moment(0)),
        answer(EventResult::Ignore)
    );
    let failed = Outcome::Failed { reason: "no".to_string() };
    assert_eq!(complete(&mut state, &Action::Nothing, failed, &moment(0)), answer(EventResult::Ignore));
    let reload = Action::Reload { game: "Foo".to_string() };
    assert_eq!(complete(&mut state, &reload, Outcome::Done, &moment(0)), answer(EventResult::Ignore));
    assert!(state.event_log.is_empty());
    assert_eq!(state.autosaves.items.len(), 2);
}

#[test]
fn handlers_hand_on_keys_in_states_that_are_not_theirs() {
    let mut state = state();
    assert_eq!(
        handle_input(&plain(KeyCode::Char('x')), &mut state, false),
        answer(EventResult::NotHandled)
    );
    assert_eq!(
        handle_prompt(&plain(KeyCode::Char('y')), &mut state),
        answer(EventResult::NotHandled)
    );
    assert_eq!(state.state, UiState::Games);
}
