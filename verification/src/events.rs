//! The routing of events: what each key does in each state of the
//! interface, which work on disk it asks for, and what follows once that
//! work is done.

use vstd::prelude::*;
use crate::clock::{Moment, MomentView};
use crate::files::{SaveFile, SaveFileView};
use crate::keys::{
    Event, KeyCode, KeyEvent, KeyModifiers, asks_deletion, gives, moves_down, moves_left, moves_up,
    says_no, says_yes,
};
use crate::state::{
    AppState, AppView, Error, Input, InputType, InputTypeView, InputView, PromptType,
    PromptTypeView, UiState, UiStateView,
};

verus! {

/// What the caller is to do after an event.
#[derive(Clone, Copy, Debug, PartialEq, Eq, Structural)]
pub enum EventResult {
    /// The event was handled: draw the interface anew.
    Redraw,
    /// The user wants to leave: restore the terminal and end the program.
    Quit,
    /// The event was handled, and nothing is to be done.
    Ignore,
    /// No handler took the event.
    NotHandled,
}

/// Work on disk that a key asks for. The library decides on it; its caller
/// does it and reports back through [`complete`].
#[derive(Debug, PartialEq, Eq)]
pub enum Action {
    /// Nothing is to be done.
    Nothing,
    /// Archive the saves of `game` as the manual save `name`.
    Save { game: String, name: String },
    /// Give the archive `save` the name `new_name`.
    Rename { save: SaveFile, new_name: String },
    /// Delete the archive `save`.
    Delete { save: SaveFile },
    /// Replace the saves of `game` by what the archive `save` holds.
    Restore { game: String, save: SaveFile },
    /// List the automatic and the manual saves of `game`.
    Reload { game: String },
}

/// The ghost value of an [`Action`].
pub enum ActionView {
    Nothing,
    Save { game: Seq<char>, name: Seq<char> },
    Rename { save: SaveFileView, new_name: Seq<char> },
    Delete { save: SaveFileView },
    Restore { game: Seq<char>, save: SaveFileView },
    Reload { game: Seq<char> },
}

impl DeepView for Action {
    type V = ActionView;

    open spec fn deep_view(&self) -> ActionView {
        match self {
            Action::Nothing => ActionView::Nothing,
            Action::Save { game, name } => ActionView::Save { game: game@, name: name@ },
            Action::Rename { save, new_name } => ActionView::Rename {
                save: save.deep_view(),
                new_name: new_name@,
            },
            Action::Delete { save } => ActionView::Delete { save: save.deep_view() },
            Action::Restore { game, save } => ActionView::Restore {
                game: game@,
                save: save.deep_view(),
            },
            Action::Reload { game } => ActionView::Reload { game: game@ },
        }
    }
}

/// How the work that an [`Action`] asked for went.
#[derive(Debug, PartialEq, Eq)]
pub enum Outcome {
    /// It was done.
    Done,
    /// The saves were listed: here they are, newest first.
    Listed { autosaves: Vec<SaveFile>, manual_saves: Vec<SaveFile> },
    /// It failed, for the reason given.
    Failed { reason: String },
}

/// The ghost value of an [`Outcome`].
pub enum OutcomeView {
    Done,
    Listed { autosaves: Seq<SaveFileView>, manual_saves: Seq<SaveFileView> },
    Failed { reason: Seq<char> },
}

impl DeepView for Outcome {
    type V = OutcomeView;

    open spec fn deep_view(&self) -> OutcomeView {
        match self {
            Outcome::Done => OutcomeView::Done,
            Outcome::Listed { autosaves, manual_saves } => OutcomeView::Listed {
                autosaves: autosaves.deep_view(),
                manual_saves: manual_saves.deep_view(),
            },
            Outcome::Failed { reason } => OutcomeView::Failed { reason: reason@ },
        }
    }
}

/// What a handler answers: what the caller is to do with the screen, and
/// which work on disk is asked for.
#[derive(Debug, PartialEq, Eq)]
pub struct Reaction {
    pub result: EventResult,
    pub action: Action,
}

/// One step of the interface: the state it leads to and the answer.
pub struct Step {
    pub app: AppView,
    pub result: EventResult,
    pub action: ActionView,
}

/// The log entry for a new manual save.
pub open spec fn saved_message(game: Seq<char>, name: Seq<char>) -> Seq<char> {
    "New manual save for "@ + game + " with name '"@ + name + "'"@
}

/// The log entry for a renamed save.
pub open spec fn renamed_message(old_name: Seq<char>, new_name: Seq<char>) -> Seq<char> {
    "Renamed '"@ + old_name + "' to '"@ + new_name + "'"@
}

/// The log entry for a deleted save.
pub open spec fn deleted_message(name: Seq<char>) -> Seq<char> {
    "Deleted save '"@ + name + "'"@
}

/// The log entry for a restored save; the name of an automatic save stands
/// without quotes.
pub open spec fn restored_message(name: Seq<char>, game: Seq<char>, automatic: bool) -> Seq<char> {
    if automatic {
        "Restored savefile "@ + name + " for "@ + game
    } else {
        "Restored savefile '"@ + name + "' for "@ + game
    }
}

/// The log entry for work that failed.
pub open spec fn failure_message(action: ActionView, reason: Seq<char>) -> Seq<char> {
    match action {
        ActionView::Nothing => reason,
        ActionView::Save { game, name } => "Failed to save "@ + game + " as '"@ + name + "': "@
            + reason,
        ActionView::Rename { save, new_name } => "Failed to rename '"@ + save.file_name + "' to '"@
            + new_name + "': "@ + reason,
        ActionView::Delete { save } => "Failed to delete save '"@ + save.file_name + "': "@ + reason,
        ActionView::Restore { game, save } => "Failed to restore savefile '"@ + save.file_name
            + "' for "@ + game + ": "@ + reason,
        ActionView::Reload { game } => "Failed to list the saves of "@ + game + ": "@ + reason,
    }
}

/// What the keys that leave the program from anywhere give: control with
/// `c`, and `q` alone.
pub open spec fn exit_result(key: KeyEvent) -> EventResult {
    if key.modifiers == KeyModifiers::Control && gives(key.code, 'c') {
        EventResult::Quit
    } else if key.modifiers == KeyModifiers::Plain && gives(key.code, 'q') {
        EventResult::Quit
    } else {
        EventResult::NotHandled
    }
}

impl AppView {
    /// The step that changes nothing and hands the event on.
    pub open spec fn not_handled(self) -> Option<Step> {
        Some(Step { app: self, result: EventResult::NotHandled, action: ActionView::Nothing })
    }

    /// The step to this state with the screen drawn anew.
    pub open spec fn redrawn(self) -> Option<Step> {
        Some(Step { app: self, result: EventResult::Redraw, action: ActionView::Nothing })
    }

    /// The step that leaves the state as it is and asks for `action`.
    pub open spec fn asking(self, action: ActionView) -> Option<Step> {
        Some(Step { app: self, result: EventResult::Redraw, action })
    }

    /// The step back to the previous state; none where there is no previous
    /// state.
    pub open spec fn going_back(self) -> Option<Step> {
        match self.pop_state() {
            Some(app) => app.redrawn(),
            None => None,
        }
    }

    /// The state after the return through `count` previous states; none
    /// where there are fewer.
    pub open spec fn pop_states(self, count: nat) -> Option<AppView>
        decreases count,
    {
        if count == 0 {
            Some(self)
        } else {
            match self.pop_state() {
                Some(app) => app.pop_states((count - 1) as nat),
                None => None,
            }
        }
    }

    /// The focus on the list of games.
    pub open spec fn to_games(self) -> AppView {
        AppView { state: UiStateView::Games, ..self }
    }

    /// The focus on the list of automatic saves.
    pub open spec fn to_autosaves(self) -> AppView {
        AppView { state: UiStateView::Autosave, autosaves: self.autosaves.focus(), ..self }
    }

    /// The focus on the list of manual saves.
    pub open spec fn to_manual_saves(self) -> AppView {
        AppView { state: UiStateView::ManualSave, manual_saves: self.manual_saves.focus(), ..self }
    }

    /// The focus on the saves of the selected game: on the automatic ones
    /// where they are made for it, else on the manual ones.
    pub open spec fn to_saves(self) -> AppView {
        if self.selected_game_has_autosave() {
            self.to_autosaves()
        } else {
            self.to_manual_saves()
        }
    }

    /// A key while a text is typed: escape goes back, enter takes the text,
    /// backspace and the character keys edit it. `exists` says whether an
    /// archive of the typed name is already there. On enter, a new save is
    /// asked for if none is; if one is, or for a new name of a save, a
    /// question follows. Any other key is swallowed.
    pub open spec fn handle_input(self, key: KeyEvent, exists: bool) -> Option<Step> {
        match self.state {
            UiStateView::Input(input) => {
                if key.code == KeyCode::Esc {
                    self.going_back()
                } else if key.code == KeyCode::Enter {
                    match input.input_type {
                        InputTypeView::Create => if exists {
                            self.push_state(
                                UiStateView::Prompt(
                                    PromptTypeView::CreateOverwrite {
                                        new_name: input.input,
                                        game: input.game,
                                    },
                                ),
                            ).redrawn()
                        } else {
                            self.asking(ActionView::Save { game: input.game, name: input.input })
                        },
                        InputTypeView::Rename(save) => if exists {
                            self.push_state(
                                UiStateView::Prompt(
                                    PromptTypeView::RenameOverwrite { save, new_name: input.input },
                                ),
                            ).redrawn()
                        } else {
                            self.push_state(
                                UiStateView::Prompt(
                                    PromptTypeView::Rename { save, new_name: input.input },
                                ),
                            ).redrawn()
                        },
                    }
                } else if key.code == KeyCode::Backspace {
                    let text = if input.input.len() > 0 {
                        input.input.drop_last()
                    } else {
                        input.input
                    };
                    (AppView {
                        state: UiStateView::Input(InputView { input: text, ..input }),
                        ..self
                    }).redrawn()
                } else if key.code is Char {
                    (AppView {
                        state: UiStateView::Input(
                            InputView { input: input.input.push(key.code->Char_0), ..input },
                        ),
                        ..self
                    }).redrawn()
                } else {
                    Some(Step { app: self, result: EventResult::Ignore, action: ActionView::Nothing })
                }
            },
            _ => self.not_handled(),
        }
    }

    /// A key while a question waits: no and escape go back; yes asks for the
    /// work in question, provided the states to return to afterwards are
    /// there. Any other key is swallowed.
    pub open spec fn handle_prompt(self, key: KeyEvent) -> Option<Step> {
        match self.state {
            UiStateView::Prompt(prompt) => {
                if says_no(key.code) {
                    self.going_back()
                } else if says_yes(key.code) {
                    match prompt {
                        PromptTypeView::Rename { save, new_name }
                        | PromptTypeView::RenameOverwrite { save, new_name } => {
                            if self.previous_states.len() < 2 {
                                None
                            } else {
                                self.asking(ActionView::Rename { save, new_name })
                            }
                        },
                        PromptTypeView::CreateOverwrite { new_name, game } => {
                            if self.previous_states.len() < 2 {
                                None
                            } else {
                                self.asking(ActionView::Save { game, name: new_name })
                            }
                        },
                        PromptTypeView::Delete { save } => {
                            if self.previous_states.len() < 1 {
                                None
                            } else {
                                self.asking(ActionView::Delete { save })
                            }
                        },
                    }
                } else {
                    Some(Step { app: self, result: EventResult::Ignore, action: ActionView::Nothing })
                }
            },
            _ => self.not_handled(),
        }
    }

    /// A key with control that moves the focus between the lists: `l` from
    /// the games to the saves; up and down from one list of saves to the
    /// other, but to the automatic saves only where they are made for the
    /// selected game; left back to the games.
    pub open spec fn handle_control(self, key: KeyEvent) -> Option<Step> {
        if key.modifiers != KeyModifiers::Control {
            self.not_handled()
        } else {
            match self.state {
                UiStateView::Games => if gives(key.code, 'l') {
                    self.to_saves().redrawn()
                } else {
                    self.not_handled()
                },
                UiStateView::Autosave => if moves_down(key.code) || moves_up(key.code) {
                    self.to_manual_saves().redrawn()
                } else if moves_left(key.code) {
                    self.to_games().redrawn()
                } else {
                    self.not_handled()
                },
                UiStateView::ManualSave => if moves_down(key.code) || moves_up(key.code) {
                    if self.selected_game_has_autosave() {
                        self.to_autosaves().redrawn()
                    } else {
                        self.not_handled()
                    }
                } else if moves_left(key.code) {
                    self.to_games().redrawn()
                } else {
                    self.not_handled()
                },
                _ => self.not_handled(),
            }
        }
    }

    /// A key on the list of games: up and down select another game, whose
    /// saves are then to be listed; the rest is left to
    /// [`AppView::handle_control`].
    pub open spec fn handle_game_list(self, key: KeyEvent) -> Option<Step> {
        if moves_down(key.code) {
            let app = AppView { games: self.games.next(), ..self };
            app.asking(ActionView::Reload { game: app.selected_game() })
        } else if moves_up(key.code) {
            let app = AppView { games: self.games.previous(), ..self };
            app.asking(ActionView::Reload { game: app.selected_game() })
        } else {
            self.handle_control(key)
        }
    }

    /// A key on a list of saves, the automatic ones or the manual ones:
    /// first what [`AppView::handle_control`] takes; then up and down move
    /// the selection, and on a selected save, the deletion keys ask whether
    /// to delete it, `r` opens a text field for its new name, and enter
    /// restores it, the time of the restore being noted for the game before
    /// the work is asked for.
    pub open spec fn handle_save_list(self, automatic: bool, key: KeyEvent, now: MomentView)
        -> Option<Step> {
        let moved = self.handle_control(key);
        if moved->0.result != EventResult::NotHandled {
            moved
        } else {
            let list = if automatic {
                self.autosaves
            } else {
                self.manual_saves
            };
            if moves_down(key.code) {
                (if automatic {
                    AppView { autosaves: list.next(), ..self }
                } else {
                    AppView { manual_saves: list.next(), ..self }
                }).redrawn()
            } else if moves_up(key.code) {
                (if automatic {
                    AppView { autosaves: list.previous(), ..self }
                } else {
                    AppView { manual_saves: list.previous(), ..self }
                }).redrawn()
            } else {
                match list.get_selected() {
                    Some(save) => if asks_deletion(key.code) {
                        self.push_state(UiStateView::Prompt(PromptTypeView::Delete { save })).redrawn()
                    } else if gives(key.code, 'r') {
                        self.push_state(
                            UiStateView::Input(
                                InputView {
                                    game: self.selected_game(),
                                    input: save.file_name,
                                    input_type: InputTypeView::Rename(save),
                                },
                            ),
                        ).redrawn()
                    } else if key.code == KeyCode::Enter {
                        (AppView {
                            ignore_changes: self.ignore_changes.insert(
                                self.selected_game(),
                                now.millis,
                            ),
                            ..self
                        }).asking(ActionView::Restore { game: self.selected_game(), save })
                    } else {
                        self.not_handled()
                    },
                    None => self.not_handled(),
                }
            }
        }
    }

    /// A key on any of the three lists that none of them took: `q` leaves
    /// the program, `a` opens a text field for the name of a new save.
    pub open spec fn handle_main_view(self, key: KeyEvent) -> Option<Step> {
        if gives(key.code, 'q') {
            Some(Step { app: self, result: EventResult::Quit, action: ActionView::Nothing })
        } else if gives(key.code, 'a') {
            self.push_state(
                UiStateView::Input(
                    InputView {
                        game: self.selected_game(),
                        input: Seq::empty(),
                        input_type: InputTypeView::Create,
                    },
                ),
            ).redrawn()
        } else {
            self.not_handled()
        }
    }

    /// A key on one of the three lists: the list's own handler first, then
    /// [`AppView::handle_main_view`], then [`exit_result`]; the first that
    /// takes the key decides.
    pub open spec fn handle_browsing(self, key: KeyEvent, now: MomentView) -> Option<Step> {
        let first = match self.state {
            UiStateView::Autosave => self.handle_save_list(true, key, now),
            UiStateView::ManualSave => self.handle_save_list(false, key, now),
            _ => self.handle_game_list(key),
        };
        if first->0.result != EventResult::NotHandled {
            first
        } else {
            let second = self.handle_main_view(key);
            if second->0.result != EventResult::NotHandled {
                second
            } else {
                Some(Step { app: self, result: exit_result(key), action: ActionView::Nothing })
            }
        }
    }

    /// A key in any state: a text field or a question takes every key; on
    /// the lists see [`AppView::handle_browsing`].
    pub open spec fn handle_key(self, key: KeyEvent, exists: bool, now: MomentView) -> Option<Step> {
        match self.state {
            UiStateView::Input(_) => self.handle_input(key, exists),
            UiStateView::Prompt(_) => self.handle_prompt(key),
            _ => self.handle_browsing(key, now),
        }
    }

    /// Any event: a key goes to [`AppView::handle_key`], a new size of the
    /// terminal has the screen drawn anew, nothing else is handled.
    pub open spec fn handle_events(self, event: Event, exists: bool, now: MomentView) -> Option<
        Step,
    > {
        match event {
            Event::Key(key) => self.handle_key(key, exists, now),
            Event::Resize => self.redrawn(),
            Event::Other => self.not_handled(),
        }
    }

    /// Through how many states the work `action` leads back once it is done:
    /// a new save one, or two if a question came before it; a new name two;
    /// a deletion one.
    pub open spec fn returns_after(self, action: ActionView) -> nat {
        match action {
            ActionView::Save { .. } => match self.state {
                UiStateView::Input(_) => 1,
                UiStateView::Prompt(_) => 2,
                _ => 0,
            },
            ActionView::Rename { .. } => 2,
            ActionView::Delete { .. } => 1,
            _ => 0,
        }
    }

    /// The log entry for `action` when it is done.
    pub open spec fn success_message(self, action: ActionView) -> Seq<char> {
        match action {
            ActionView::Save { game, name } => saved_message(game, name),
            ActionView::Rename { save, new_name } => renamed_message(save.file_name, new_name),
            ActionView::Delete { save } => deleted_message(save.file_name),
            ActionView::Restore { game, save } => restored_message(
                save.file_name,
                game,
                self.state == UiStateView::Autosave,
            ),
            _ => Seq::empty(),
        }
    }

    /// What follows once the work `action` has been tried. A failure is
    /// logged and changes nothing else. A listing replaces the lists of
    /// saves. Any other work that was done is logged; a new save, a new name
    /// and a deletion lead back to the list they were started from, where
    /// the states to return to are there, and ask for a new listing.
    pub open spec fn complete(self, action: ActionView, outcome: OutcomeView, now: MomentView)
        -> Option<Step> {
        match action {
            ActionView::Nothing => Some(
                Step { app: self, result: EventResult::Ignore, action: ActionView::Nothing },
            ),
            ActionView::Reload { game } => match outcome {
                OutcomeView::Listed { autosaves, manual_saves } => self.update_saves(
                    autosaves,
                    manual_saves,
                ).redrawn(),
                OutcomeView::Failed { reason } => self.log(
                    now.clock,
                    failure_message(action, reason),
                ).redrawn(),
                OutcomeView::Done => Some(
                    Step { app: self, result: EventResult::Ignore, action: ActionView::Nothing },
                ),
            },
            ActionView::Restore { .. } => match outcome {
                OutcomeView::Failed { reason } => self.log(
                    now.clock,
                    failure_message(action, reason),
                ).redrawn(),
                _ => self.log(now.clock, self.success_message(action)).redrawn(),
            },
            _ => match outcome {
                OutcomeView::Failed { reason } => self.log(
                    now.clock,
                    failure_message(action, reason),
                ).redrawn(),
                _ => match self.pop_states(self.returns_after(action)) {
                    Some(app) => {
                        let logged = app.log(now.clock, self.success_message(action));
                        logged.asking(ActionView::Reload { game: logged.selected_game() })
                    },
                    None => None,
                },
            },
        }
    }
}

/// Whether what a handler returned and the state it left are what the step
/// `expected` says: the state and answer of the step, or, where there is no
/// step, the error that there is no previous state, and the state untouched.
pub open spec fn answers(
    expected: Option<Step>,
    result: Result<Reaction, Error>,
    before: AppView,
    after: AppView,
) -> bool {
    match result {
        Ok(reaction) => expected == Some(
            Step { app: after, result: reaction.result, action: reaction.action.deep_view() },
        ),
        Err(error) => error == Error::NoPreviousState && expected is None && after == before,
    }
}

/// The answer that asks for nothing.
fn plain(result: EventResult) -> (reaction: Result<Reaction, Error>)
    ensures
        reaction matches Ok(r) && r.result == result && r.action == Action::Nothing,
{
    Ok(Reaction { result, action: Action::Nothing })
}

/// The answer that asks for `action`.
fn asking(action: Action) -> (reaction: Result<Reaction, Error>)
    ensures
        reaction matches Ok(r) && r.result == EventResult::Redraw && r.action == action,
{
    Ok(Reaction { result: EventResult::Redraw, action })
}

/// Goes back to the previous state.
fn go_back(state: &mut AppState) -> (result: Result<Reaction, Error>)
    ensures
        answers(old(state).deep_view().going_back(), result, old(state).deep_view(), final(state).deep_view()),
        old(state).wf() ==> final(state).wf(),
{
    match state.pop_state() {
        Ok(()) => plain(EventResult::Redraw),
        Err(error) => Err(error),
    }
}

/// Handles a key while a text is typed; see [`AppView::handle_input`]. In
/// any other state the key is handed on.
pub fn handle_input(event: &KeyEvent, state: &mut AppState, exists: bool) -> (result: Result<
    Reaction,
    Error,
>)
    ensures
        answers(
            old(state).deep_view().handle_input(*event, exists),
            result,
            old(state).deep_view(),
            final(state).deep_view(),
        ),
        old(state).wf() ==> final(state).wf(),
{
    let mut input = match &state.state {
        UiState::Input(input) => input.clone(),
        _ => {
            return plain(EventResult::NotHandled);
        },
    };
    match event.code {
        KeyCode::Esc => go_back(state),
        KeyCode::Enter => {
            match input.input_type {
                InputType::Create => {
                    if exists {
                        state.push_state(
                            UiState::Prompt(
                                PromptType::CreateOverwrite {
                                    new_name: input.input,
                                    game: input.game,
                                },
                            ),
                        );
                        plain(EventResult::Redraw)
                    } else {
                        asking(Action::Save { game: input.game, name: input.input })
                    }
                },
                InputType::Rename(save) => {
                    if exists {
                        state.push_state(
                            UiState::Prompt(
                                PromptType::RenameOverwrite { save, new_name: input.input },
                            ),
                        );
                    } else {
                        state.push_state(
                            UiState::Prompt(PromptType::Rename { save, new_name: input.input }),
                        );
                    }
                    plain(EventResult::Redraw)
                },
            }
        },
        KeyCode::Backspace => {
            crate::text::pop_char(&mut input.input);
            state.state = UiState::Input(input);
            plain(EventResult::Redraw)
        },
        KeyCode::Char(c) => {
            crate::text::push_char(&mut input.input, c);
            state.state = UiState::Input(input);
            plain(EventResult::Redraw)
        },
        _ => plain(EventResult::Ignore),
    }
}

/// Handles a key while a question waits; see [`AppView::handle_prompt`]. In
/// any other state the key is handed on.
pub fn handle_prompt(event: &KeyEvent, state: &mut AppState) -> (result: Result<Reaction, Error>)
    ensures
        answers(
            old(state).deep_view().handle_prompt(*event),
            result,
            old(state).deep_view(),
            final(state).deep_view(),
        ),
        old(state).wf() ==> final(state).wf(),
{
    let prompt = match &state.state {
        UiState::Prompt(prompt) => prompt.clone(),
        _ => {
            return plain(EventResult::NotHandled);
        },
    };
    if event.code.is_no() {
        go_back(state)
    } else if event.code.is_yes() {
        let depth = state.previous_states.len();
        match prompt {
            PromptType::Rename { save, new_name } | PromptType::RenameOverwrite { save, new_name } => {
                if depth < 2 {
                    Err(Error::NoPreviousState)
                } else {
                    asking(Action::Rename { save, new_name })
                }
            },
            PromptType::CreateOverwrite { new_name, game } => {
                if depth < 2 {
                    Err(Error::NoPreviousState)
                } else {
                    asking(Action::Save { game, name: new_name })
                }
            },
            PromptType::Delete { save } => {
                if depth < 1 {
                    Err(Error::NoPreviousState)
                } else {
                    asking(Action::Delete { save })
                }
            },
        }
    } else {
        plain(EventResult::Ignore)
    }
}

/// Moves the focus to the list of manual saves.
fn focus_manual_saves(state: &mut AppState)
    ensures
        final(state).deep_view() == old(state).deep_view().to_manual_saves(),
        old(state).wf() ==> final(state).wf(),
{
    state.state = UiState::ManualSave;
    state.manual_saves.focus();
}

/// Moves the focus to the list of automatic saves.
fn focus_autosaves(state: &mut AppState)
    ensures
        final(state).deep_view() == old(state).deep_view().to_autosaves(),
        old(state).wf() ==> final(state).wf(),
{
    state.state = UiState::Autosave;
    state.autosaves.focus();
}

/// Handles the keys with control that move the focus between the lists; see
/// [`AppView::handle_control`].
pub fn handle_control(event: &KeyEvent, state: &mut AppState) -> (result: Result<Reaction, Error>)
    requires
        old(state).wf(),
    ensures
        answers(
            old(state).deep_view().handle_control(*event),
            result,
            old(state).deep_view(),
            final(state).deep_view(),
        ),
        result is Ok,
        final(state).wf(),
{
    if !event.with_control() {
        return plain(EventResult::NotHandled);
    }
    let on_games = matches!(state.state, UiState::Games);
    let on_autosaves = matches!(state.state, UiState::Autosave);
    let on_manual_saves = matches!(state.state, UiState::ManualSave);
    let vertical = event.code.is_down() || event.code.is_up();
    if on_games && event.code.is_char('l') {
        if state.selected_game_has_autosave() {
            focus_autosaves(state);
        } else {
            focus_manual_saves(state);
        }
        plain(EventResult::Redraw)
    } else if on_autosaves && vertical {
        focus_manual_saves(state);
        plain(EventResult::Redraw)
    } else if on_manual_saves && vertical {
        if state.selected_game_has_autosave() {
            focus_autosaves(state);
            plain(EventResult::Redraw)
        } else {
            plain(EventResult::NotHandled)
        }
    } else if (on_autosaves || on_manual_saves) && event.code.is_left() {
        state.state = UiState::Games;
        plain(EventResult::Redraw)
    } else {
        plain(EventResult::NotHandled)
    }
}

/// Handles a key on the list of games; see [`AppView::handle_game_list`].
pub fn handle_game_list(event: &KeyEvent, state: &mut AppState) -> (result: Result<Reaction, Error>)
    requires
        old(state).wf(),
    ensures
        answers(
            old(state).deep_view().handle_game_list(*event),
            result,
            old(state).deep_view(),
            final(state).deep_view(),
        ),
        result is Ok,
        final(state).wf(),
{
    if event.code.is_down() {
        state.games.next();
        let game = state.get_selected_game();
        asking(Action::Reload { game })
    } else if event.code.is_up() {
        state.games.previous();
        let game = state.get_selected_game();
        asking(Action::Reload { game })
    } else {
        handle_control(event, state)
    }
}

/// Handles a key on one of the two lists of saves; see
/// [`AppView::handle_save_list`].
fn handle_save_list(event: &KeyEvent, state: &mut AppState, automatic: bool, now: &Moment) -> (result:
    Result<Reaction, Error>)
    requires
        old(state).wf(),
    ensures
        answers(
            old(state).deep_view().handle_save_list(automatic, *event, now.deep_view()),
            result,
            old(state).deep_view(),
            final(state).deep_view(),
        ),
        result is Ok,
        final(state).wf(),
{
    let moved = handle_control(event, state);
    match &moved {
        Ok(reaction) => {
            if !matches!(reaction.result, EventResult::NotHandled) {
                return moved;
            }
        },
        Err(_) => {
            return moved;
        },
    }
    if event.code.is_down() {
        if automatic {
            state.autosaves.next();
        } else {
            state.manual_saves.next();
        }
        return plain(EventResult::Redraw);
    }
    if event.code.is_up() {
        if automatic {
            state.autosaves.previous();
        } else {
            state.manual_saves.previous();
        }
        return plain(EventResult::Redraw);
    }
    let selected = if automatic {
        state.autosaves.get_selected()
    } else {
        state.manual_saves.get_selected()
    };
    match selected {
        Some(save) => {
            if event.code.is_deletion() {
                state.push_state(UiState::Prompt(PromptType::Delete { save }));
                plain(EventResult::Redraw)
            } else if event.code.is_char('r') {
                let game = state.get_selected_game();
                let input = save.file_name.clone();
                state.push_state(
                    UiState::Input(Input { game, input, input_type: InputType::Rename(save) }),
                );
                plain(EventResult::Redraw)
            } else if matches!(event.code, KeyCode::Enter) {
                let game = state.get_selected_game();
                state.ignore_changes.insert(game.clone(), now.millis);
                asking(Action::Restore { game, save })
            } else {
                plain(EventResult::NotHandled)
            }
        },
        None => plain(EventResult::NotHandled),
    }
}

/// Handles a key on the list of automatic saves; see
/// [`AppView::handle_save_list`].
pub fn handle_autosave_list(event: &KeyEvent, state: &mut AppState, now: &Moment) -> (result: Result<
    Reaction,
    Error,
>)
    requires
        old(state).wf(),
    ensures
        answers(
            old(state).deep_view().handle_save_list(true, *event, now.deep_view()),
            result,
            old(state).deep_view(),
            final(state).deep_view(),
        ),
        result is Ok,
        final(state).wf(),
{
    handle_save_list(event, state, true, now)
}

/// Handles a key on the list of manual saves; see
/// [`AppView::handle_save_list`].
pub fn handle_manual_save_list(event: &KeyEvent, state: &mut AppState, now: &Moment) -> (result:
    Result<Reaction, Error>)
    requires
        old(state).wf(),
    ensures
        answers(
            old(state).deep_view().handle_save_list(false, *event, now.deep_view()),
            result,
            old(state).deep_view(),
            final(state).deep_view(),
        ),
        result is Ok,
        final(state).wf(),
{
    handle_save_list(event, state, false, now)
}

/// Handles the keys that every list takes; see
/// [`AppView::handle_main_view`].
pub fn handle_main_view(event: &KeyEvent, state: &mut AppState) -> (result: Result<Reaction, Error>)
    requires
        old(state).wf(),
    ensures
        answers(
            old(state).deep_view().handle_main_view(*event),
            result,
            old(state).deep_view(),
            final(state).deep_view(),
        ),
        result is Ok,
        final(state).wf(),
{
    if event.code.is_char('q') {
        plain(EventResult::Quit)
    } else if event.code.is_char('a') {
        let game = state.get_selected_game();
        state.push_state(
            UiState::Input(Input { game, input: String::new(), input_type: InputType::Create }),
        );
        plain(EventResult::Redraw)
    } else {
        plain(EventResult::NotHandled)
    }
}

/// Handles the keys that leave the program from anywhere; see
/// [`exit_result`].
pub fn handle_exits(event: &KeyEvent) -> (result: EventResult)
    ensures
        result == exit_result(*event),
{
    if event.with_control() && event.code.is_char('c') {
        EventResult::Quit
    } else if matches!(event.modifiers, KeyModifiers::Plain) && event.code.is_char('q') {
        EventResult::Quit
    } else {
        EventResult::NotHandled
    }
}

/// Handles a key in whatever state the interface is; see
/// [`AppView::handle_key`].
pub fn handle_key(event: &KeyEvent, state: &mut AppState, exists: bool, now: &Moment) -> (result:
    Result<Reaction, Error>)
    requires
        old(state).wf(),
    ensures
        answers(
            old(state).deep_view().handle_key(*event, exists, now.deep_view()),
            result,
            old(state).deep_view(),
            final(state).deep_view(),
        ),
        final(state).wf(),
{
    if matches!(state.state, UiState::Input(_)) {
        return handle_input(event, state, exists);
    }
    if matches!(state.state, UiState::Prompt(_)) {
        return handle_prompt(event, state);
    }
    let first = if matches!(state.state, UiState::Autosave) {
        handle_autosave_list(event, state, now)
    } else if matches!(state.state, UiState::ManualSave) {
        handle_manual_save_list(event, state, now)
    } else {
        handle_game_list(event, state)
    };
    match &first {
        Ok(reaction) => {
            if !matches!(reaction.result, EventResult::NotHandled) {
                return first;
            }
        },
        Err(_) => {
            return first;
        },
    }
    let second = handle_main_view(event, state);
    match &second {
        Ok(reaction) => {
            if !matches!(reaction.result, EventResult::NotHandled) {
                return second;
            }
        },
        Err(_) => {
            return second;
        },
    }
    plain(handle_exits(event))
}

/// Handles an event of the terminal; see [`AppView::handle_events`].
/// `exists` says whether an archive with the name that is being typed is
/// already there, which matters while a text is typed.
pub fn handle_events(event: &Event, state: &mut AppState, exists: bool, now: &Moment) -> (result:
    Result<Reaction, Error>)
    requires
        old(state).wf(),
    ensures
        answers(
            old(state).deep_view().handle_events(*event, exists, now.deep_view()),
            result,
            old(state).deep_view(),
            final(state).deep_view(),
        ),
        final(state).wf(),
{
    match event {
        Event::Key(key) => handle_key(key, state, exists, now),
        Event::Resize => plain(EventResult::Redraw),
        Event::Other => plain(EventResult::NotHandled),
    }
}

/// The log entry for `action` when it is done; see
/// [`AppView::success_message`].
fn success_text(state: &AppState, action: &Action) -> (text: String)
    ensures
        text@ == state.deep_view().success_message(action.deep_view()),
{
    match action {
        Action::Save { game, name } => {
            let mut text = String::from_str("New manual save for ");
            text.append(game.as_str());
            text.append(" with name '");
            text.append(name.as_str());
            text.append("'");
            text
        },
        Action::Rename { save, new_name } => {
            let mut text = String::from_str("Renamed '");
            text.append(save.file_name.as_str());
            text.append("' to '");
            text.append(new_name.as_str());
            text.append("'");
            text
        },
        Action::Delete { save } => {
            let mut text = String::from_str("Deleted save '");
            text.append(save.file_name.as_str());
            text.append("'");
            text
        },
        Action::Restore { game, save } => {
            if matches!(state.state, UiState::Autosave) {
                let mut text = String::from_str("Restored savefile ");
                text.append(save.file_name.as_str());
                text.append(" for ");
                text.append(game.as_str());
                text
            } else {
                let mut text = String::from_str("Restored savefile '");
                text.append(save.file_name.as_str());
                text.append("' for ");
                text.append(game.as_str());
                text
            }
        },
        _ => String::new(),
    }
}

/// The log entry for `action` when it failed for `reason`; see
/// [`failure_message`].
fn failure_text(action: &Action, reason: &String) -> (text: String)
    ensures
        text@ == failure_message(action.deep_view(), reason@),
{
    match action {
        Action::Nothing => reason.clone(),
        Action::Save { game, name } => {
            let mut text = String::from_str("Failed to save ");
            text.append(game.as_str());
            text.append(" as '");
            text.append(name.as_str());
            text.append("': ");
            text.append(reason.as_str());
            text
        },
        Action::Rename { save, new_name } => {
            let mut text = String::from_str("Failed to rename '");
            text.append(save.file_name.as_str());
            text.append("' to '");
            text.append(new_name.as_str());
            text.append("': ");
            text.append(reason.as_str());
            text
        },
        Action::Delete { save } => {
            let mut text = String::from_str("Failed to delete save '");
            text.append(save.file_name.as_str());
            text.append("': ");
            text.append(reason.as_str());
            text
        },
        Action::Restore { game, save } => {
            let mut text = String::from_str("Failed to restore savefile '");
            text.append(save.file_name.as_str());
            text.append("' for ");
            text.append(game.as_str());
            text.append(": ");
            text.append(reason.as_str());
            text
        },
        Action::Reload { game } => {
            let mut text = String::from_str("Failed to list the saves of ");
            text.append(game.as_str());
            text.append(": ");
            text.append(reason.as_str());
            text
        },
    }
}

/// Through how many states `action` leads back; see
/// [`AppView::returns_after`].
fn returns_after(state: &AppState, action: &Action) -> (count: usize)
    ensures
        count == state.deep_view().returns_after(action.deep_view()),
        count <= 2,
{
    match action {
        Action::Save { .. } => {
            if matches!(state.state, UiState::Input(_)) {
                1
            } else if matches!(state.state, UiState::Prompt(_)) {
                2
            } else {
                0
            }
        },
        Action::Rename { .. } => 2,
        Action::Delete { .. } => 1,
        _ => 0,
    }
}

/// Takes note of how the work that `action` asked for went; see
/// [`AppView::complete`]. The answer may ask for more work, which is
/// reported here in turn.
pub fn complete(state: &mut AppState, action: &Action, outcome: Outcome, now: &Moment) -> (result:
    Result<Reaction, Error>)
    requires
        old(state).wf(),
    ensures
        answers(
            old(state).deep_view().complete(action.deep_view(), outcome.deep_view(), now.deep_view()),
            result,
            old(state).deep_view(),
            final(state).deep_view(),
        ),
        final(state).wf(),
{
    if matches!(action, Action::Nothing) {
        return plain(EventResult::Ignore);
    }
    match outcome {
        Outcome::Failed { reason } => {
            let text = failure_text(action, &reason);
            state.log(now, text.as_str());
            plain(EventResult::Redraw)
        },
        Outcome::Listed { autosaves, manual_saves } => {
            if matches!(action, Action::Reload { .. }) {
                state.update_saves(autosaves, manual_saves);
                plain(EventResult::Redraw)
            } else {
                finish(state, action, now)
            }
        },
        Outcome::Done => {
            if matches!(action, Action::Reload { .. }) {
                plain(EventResult::Ignore)
            } else {
                finish(state, action, now)
            }
        },
    }
}

/// What follows once the work `action`, other than a listing, is done: the
/// log entry, and for all but a restore the way back and a new listing.
fn finish(state: &mut AppState, action: &Action, now: &Moment) -> (result: Result<Reaction, Error>)
    requires
        old(state).wf(),
        !(action is Nothing),
        !(action is Reload),
    ensures
        answers(
            old(state).deep_view().complete(
                action.deep_view(),
                OutcomeView::Done,
                now.deep_view(),
            ),
            result,
            old(state).deep_view(),
            final(state).deep_view(),
        ),
        forall|autosaves: Seq<SaveFileView>, manual_saves: Seq<SaveFileView>|
            old(state).deep_view().complete(
                action.deep_view(),
                OutcomeView::Done,
                now.deep_view(),
            ) == #[trigger] old(state).deep_view().complete(
                action.deep_view(),
                OutcomeView::Listed { autosaves, manual_saves },
                now.deep_view(),
            ),
        final(state).wf(),
{
    let text = success_text(state, action);
    if matches!(action, Action::Restore { .. }) {
        state.log(now, text.as_str());
        return plain(EventResult::Redraw);
    }
    let count = returns_after(state, action);
    if state.previous_states.len() < count {
        proof {
            reveal_with_fuel(AppView::pop_states, 3);
        }
        return Err(Error::NoPreviousState);
    }
    proof {
        reveal_with_fuel(AppView::pop_states, 3);
    }
    if count >= 1 {
        let _ = state.pop_state();
    }
    if count >= 2 {
        let _ = state.pop_state();
    }
    state.log(now, text.as_str());
    let game = state.get_selected_game();
    asking(Action::Reload { game })
}

/// A key that no handler takes changes nothing and asks for nothing.
pub proof fn unhandled_key_changes_nothing(app: AppView, key: KeyEvent, exists: bool, now: MomentView)
    requires
        app.handle_key(key, exists, now) matches Some(step) && step.result == EventResult::NotHandled,
    ensures
        app.handle_key(key, exists, now)->0.app == app,
        app.handle_key(key, exists, now)->0.action == ActionView::Nothing,
{
}

/// Every step on a valid state leads to a valid state.
pub proof fn steps_keep_wf(
    app: AppView,
    event: Event,
    exists: bool,
    action: ActionView,
    outcome: OutcomeView,
    now: MomentView,
)
    requires
        app.wf(),
    ensures
        app.handle_events(event, exists, now) matches Some(step) ==> step.app.wf(),
        app.complete(action, outcome, now) matches Some(step) ==> step.app.wf(),
{
    reveal_with_fuel(AppView::pop_states, 3);
}

/// On a text field for a new name, enter with a name that is taken opens the
/// question whether to overwrite, and asks for no work on disk.
pub proof fn taken_name_opens_question(app: AppView, now: MomentView)
    requires
        app.state matches UiStateView::Input(input) && input.input_type is Rename,
    ensures
        app.handle_key(KeyEvent { code: KeyCode::Enter, modifiers: KeyModifiers::Plain }, true, now)
            matches Some(step) && step.action == ActionView::Nothing && step.app.state
            == UiStateView::Prompt(
            PromptTypeView::RenameOverwrite {
                save: app.state->Input_0.input_type->Rename_0,
                new_name: app.state->Input_0.input,
            },
        ) && step.app.previous_states == app.previous_states.push(app.state),
{
}

/// From a text field that was entered from `base`: enter with a name that is
/// taken, then yes to the question, then the work done, lead through exactly
/// two states back to where the text field was entered from.
pub proof fn overwrite_chain_returns(base: AppView, input: InputView, now: MomentView)
    ensures
        ({
            let enter = KeyEvent { code: KeyCode::Enter, modifiers: KeyModifiers::Plain };
            let yes = KeyEvent { code: KeyCode::Char('y'), modifiers: KeyModifiers::Plain };
            let typed = base.push_state(UiStateView::Input(input));
            let asked = typed.handle_key(enter, true, now);
            let confirmed = asked->0.app.handle_key(yes, false, now);
            let done = confirmed->0.app.complete(confirmed->0.action, OutcomeView::Done, now);
            &&& asked is Some
            &&& asked->0.app.state is Prompt
            &&& asked->0.action == ActionView::Nothing
            &&& confirmed is Some
            &&& confirmed->0.app == asked->0.app
            &&& confirmed->0.action == match input.input_type {
                InputTypeView::Create => ActionView::Save { game: input.game, name: input.input },
                InputTypeView::Rename(save) => ActionView::Rename { save, new_name: input.input },
            }
            &&& asked->0.app.returns_after(confirmed->0.action) == 2
            &&& done is Some
            &&& done->0.app.state == base.state
            &&& done->0.app.previous_states == base.previous_states
        }),
{
    reveal_with_fuel(AppView::pop_states, 3);
    let typed = base.push_state(UiStateView::Input(input));
    let enter = KeyEvent { code: KeyCode::Enter, modifiers: KeyModifiers::Plain };
    let asked = typed.handle_key(enter, true, now);
    let stack = asked->0.app.previous_states;
    assert(stack.len() == base.previous_states.len() + 2);
    assert(stack.drop_last() =~= typed.previous_states);
    assert(typed.previous_states.drop_last() =~= base.previous_states);
}

/// While the selected game has no automatic saves, no key moves the focus
/// from the games or from the manual saves to the automatic saves; the key
/// that moves it from the games to the saves moves it to the manual ones.
pub proof fn disabled_autosaves_never_focused(app: AppView, key: KeyEvent, exists: bool, now: MomentView)
    requires
        app.wf(),
        app.state == UiStateView::Games || app.state == UiStateView::ManualSave,
        !app.selected_game_has_autosave(),
    ensures
        app.handle_key(key, exists, now) matches Some(step) && step.app.state
            != UiStateView::Autosave,
        app.state == UiStateView::Games && key == (KeyEvent {
            code: KeyCode::Char('l'),
            modifiers: KeyModifiers::Control,
        }) ==> app.handle_key(key, exists, now)->0.app.state == UiStateView::ManualSave,
{
}

/// No step takes a line out of the event log or changes one: what was
/// logged before stands at the start of what is logged after.
pub proof fn steps_only_add_to_log(
    app: AppView,
    event: Event,
    exists: bool,
    action: ActionView,
    outcome: OutcomeView,
    now: MomentView,
)
    ensures
        app.handle_events(event, exists, now) matches Some(step) ==> app.event_log.is_prefix_of(
            step.app.event_log,
        ),
        app.complete(action, outcome, now) matches Some(step) ==> app.event_log.is_prefix_of(
            step.app.event_log,
        ),
{
    reveal_with_fuel(AppView::pop_states, 3);
    assert(app.event_log.is_prefix_of(app.event_log));
    assert forall|line: Seq<char>| app.event_log.is_prefix_of(
        #[trigger] app.event_log.push(line),
    ) by {
        assert(app.event_log.push(line).subrange(0, app.event_log.len() as int) =~= app.event_log);
    }
}

} // verus!
