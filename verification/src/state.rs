//! What the interface shows and where it is: the three lists, the event log,
//! the active state with the states to return to, and the times noted for the
//! scheduling of automatic saves.

use vstd::prelude::*;
use crate::clock::Moment;
use crate::config::{Config, ConfigView};
use crate::cursor::Cursor;
use crate::files::{SaveFile, SaveFileView};
use crate::list::{SaveList, StatefulList};
use crate::text::join3;
use crate::timetable::Timetable;

verus! {

/// What a text that the user types is for.
#[derive(Debug, PartialEq, Eq)]
pub enum InputType {
    /// The name of a new save.
    Create,
    /// The new name of an existing save.
    Rename(SaveFile),
}

/// The ghost value of an [`InputType`].
pub enum InputTypeView {
    Create,
    Rename(SaveFileView),
}

impl DeepView for InputType {
    type V = InputTypeView;

    open spec fn deep_view(&self) -> InputTypeView {
        match self {
            InputType::Create => InputTypeView::Create,
            InputType::Rename(save) => InputTypeView::Rename(save.deep_view()),
        }
    }
}

impl Clone for InputType {
    fn clone(&self) -> (copy: InputType)
        ensures
            copy == *self,
    {
        match self {
            InputType::Create => InputType::Create,
            InputType::Rename(save) => InputType::Rename(save.clone()),
        }
    }
}

/// A text in the middle of being typed.
#[derive(Debug, PartialEq, Eq)]
pub struct Input {
    /// The game that the text is about.
    pub game: String,
    /// What has been typed so far.
    pub input: String,
    pub input_type: InputType,
}

/// The ghost value of an [`Input`].
pub struct InputView {
    pub game: Seq<char>,
    pub input: Seq<char>,
    pub input_type: InputTypeView,
}

impl DeepView for Input {
    type V = InputView;

    open spec fn deep_view(&self) -> InputView {
        InputView {
            game: self.game@,
            input: self.input@,
            input_type: self.input_type.deep_view(),
        }
    }
}

impl Clone for Input {
    fn clone(&self) -> (copy: Input)
        ensures
            copy == *self,
    {
        Input {
            game: self.game.clone(),
            input: self.input.clone(),
            input_type: self.input_type.clone(),
        }
    }
}

/// A question that waits for a yes or a no.
#[derive(Debug, PartialEq, Eq)]
pub enum PromptType {
    /// Rename `save` to `new_name`?
    Rename { save: SaveFile, new_name: String },
    /// Rename `save` to `new_name`, replacing the save of that name?
    RenameOverwrite { save: SaveFile, new_name: String },
    /// Save `game` as `new_name`, replacing the save of that name?
    CreateOverwrite { new_name: String, game: String },
    /// Delete `save`?
    Delete { save: SaveFile },
}

/// The ghost value of a [`PromptType`].
pub enum PromptTypeView {
    Rename { save: SaveFileView, new_name: Seq<char> },
    RenameOverwrite { save: SaveFileView, new_name: Seq<char> },
    CreateOverwrite { new_name: Seq<char>, game: Seq<char> },
    Delete { save: SaveFileView },
}

impl DeepView for PromptType {
    type V = PromptTypeView;

    open spec fn deep_view(&self) -> PromptTypeView {
        match self {
            PromptType::Rename { save, new_name } => PromptTypeView::Rename {
                save: save.deep_view(),
                new_name: new_name@,
            },
            PromptType::RenameOverwrite { save, new_name } => PromptTypeView::RenameOverwrite {
                save: save.deep_view(),
                new_name: new_name@,
            },
            PromptType::CreateOverwrite { new_name, game } => PromptTypeView::CreateOverwrite {
                new_name: new_name@,
                game: game@,
            },
            PromptType::Delete { save } => PromptTypeView::Delete { save: save.deep_view() },
        }
    }
}

impl Clone for PromptType {
    fn clone(&self) -> (copy: PromptType)
        ensures
            copy == *self,
    {
        match self {
            PromptType::Rename { save, new_name } => PromptType::Rename {
                save: save.clone(),
                new_name: new_name.clone(),
            },
            PromptType::RenameOverwrite { save, new_name } => PromptType::RenameOverwrite {
                save: save.clone(),
                new_name: new_name.clone(),
            },
            PromptType::CreateOverwrite { new_name, game } => PromptType::CreateOverwrite {
                new_name: new_name.clone(),
                game: game.clone(),
            },
            PromptType::Delete { save } => PromptType::Delete { save: save.clone() },
        }
    }
}

/// The part of the interface that takes the keys.
#[derive(Debug, PartialEq, Eq)]
pub enum UiState {
    /// The list of games.
    Games,
    /// The list of automatic saves.
    Autosave,
    /// The list of manual saves.
    ManualSave,
    /// A text field.
    Input(Input),
    /// A question.
    Prompt(PromptType),
}

/// The ghost value of a [`UiState`].
pub enum UiStateView {
    Games,
    Autosave,
    ManualSave,
    Input(InputView),
    Prompt(PromptTypeView),
}

impl DeepView for UiState {
    type V = UiStateView;

    open spec fn deep_view(&self) -> UiStateView {
        match self {
            UiState::Games => UiStateView::Games,
            UiState::Autosave => UiStateView::Autosave,
            UiState::ManualSave => UiStateView::ManualSave,
            UiState::Input(input) => UiStateView::Input(input.deep_view()),
            UiState::Prompt(prompt) => UiStateView::Prompt(prompt.deep_view()),
        }
    }
}

impl Clone for UiState {
    fn clone(&self) -> (copy: UiState)
        ensures
            copy == *self,
    {
        match self {
            UiState::Games => UiState::Games,
            UiState::Autosave => UiState::Autosave,
            UiState::ManualSave => UiState::ManualSave,
            UiState::Input(input) => UiState::Input(input.clone()),
            UiState::Prompt(prompt) => UiState::Prompt(prompt.clone()),
        }
    }
}

/// What can go wrong inside the library.
#[derive(Debug, PartialEq, Eq)]
pub enum Error {
    /// A return to the previous state was asked for where there is none.
    NoPreviousState,
    /// No game of the configuration has a save directory to work on.
    NoGames,
    /// A game still has the save directory of the example configuration.
    ExampleConfig,
}

impl Error {
    /// The error in words.
    pub fn message(&self) -> (text: String)
        ensures
            text@ == match self {
                Error::NoPreviousState =>
                    "Tried to go back to the previous state, but there is no previous state."@,
                Error::NoGames => "There must be at least one game in your config."@,
                Error::ExampleConfig =>
                    "Please adjust the default configuration file at ~/.config/game_saver.toml"@,
            },
    {
        match self {
            Error::NoPreviousState => String::from_str(
                "Tried to go back to the previous state, but there is no previous state.",
            ),
            Error::NoGames => String::from_str("There must be at least one game in your config."),
            Error::ExampleConfig => String::from_str(
                "Please adjust the default configuration file at ~/.config/game_saver.toml",
            ),
        }
    }
}

/// Everything the interface holds between two events.
#[derive(Debug)]
pub struct AppState {
    pub config: Config,
    /// The games, by name.
    pub games: StatefulList,
    /// The automatic saves of the selected game, newest first.
    pub autosaves: SaveList,
    /// The manual saves of the selected game, newest first.
    pub manual_saves: SaveList,
    /// What was done, one line for each action, oldest first.
    pub event_log: Vec<String>,
    /// The active state.
    pub state: UiState,
    /// The states to return to, the most recent one last.
    pub previous_states: Vec<UiState>,
    /// For each game whose saves changed on disk and were not saved since:
    /// the time of the last change.
    pub changes_detected: Timetable,
    /// For each game that was restored a moment ago: the time of the restore.
    pub ignore_changes: Timetable,
    /// For each game with a pause after automatic saves that was saved a
    /// while ago: the time of that save.
    pub autosave_timeouts: Timetable,
}

/// The ghost value of an [`AppState`].
pub struct AppView {
    pub config: ConfigView,
    pub games: Cursor<Seq<char>>,
    pub autosaves: Cursor<SaveFileView>,
    pub manual_saves: Cursor<SaveFileView>,
    pub event_log: Seq<Seq<char>>,
    pub state: UiStateView,
    pub previous_states: Seq<UiStateView>,
    pub changes_detected: Map<Seq<char>, i64>,
    pub ignore_changes: Map<Seq<char>, i64>,
    pub autosave_timeouts: Map<Seq<char>, i64>,
}

impl DeepView for AppState {
    type V = AppView;

    open spec fn deep_view(&self) -> AppView {
        AppView {
            config: self.config.deep_view(),
            games: self.games.deep_view(),
            autosaves: self.autosaves.deep_view(),
            manual_saves: self.manual_saves.deep_view(),
            event_log: self.event_log.deep_view(),
            state: self.state.deep_view(),
            previous_states: self.previous_states.deep_view(),
            changes_detected: self.changes_detected@,
            ignore_changes: self.ignore_changes@,
            autosave_timeouts: self.autosave_timeouts@,
        }
    }
}

/// The line that the event log gets for `message` at the time of day `clock`.
pub open spec fn log_line(clock: Seq<char>, message: Seq<char>) -> Seq<char> {
    clock + " - "@ + message
}

impl AppView {
    /// The selections point into their lists, a game is selected, and every
    /// listed game is configured.
    pub open spec fn wf(self) -> bool {
        &&& self.games.wf()
        &&& self.autosaves.wf()
        &&& self.manual_saves.wf()
        &&& self.games.selected is Some
        &&& forall|i: int|
            0 <= i < self.games.items.len() ==> self.config.games.dom().contains(
                #[trigger] self.games.items[i],
            )
    }

    /// The state after `next` was entered from the active state.
    pub open spec fn push_state(self, next: UiStateView) -> AppView {
        AppView { state: next, previous_states: self.previous_states.push(self.state), ..self }
    }

    /// The state after the return to the most recent previous state, where
    /// there is one.
    pub open spec fn pop_state(self) -> Option<AppView> {
        if self.previous_states.len() == 0 {
            None
        } else {
            Some(
                AppView {
                    state: self.previous_states.last(),
                    previous_states: self.previous_states.drop_last(),
                    ..self
                },
            )
        }
    }

    /// The name of the selected game.
    pub open spec fn selected_game(self) -> Seq<char>
        recommends
            self.wf(),
    {
        self.games.items[self.games.selected->0 as int]
    }

    /// Whether automatic saves are made for the selected game.
    pub open spec fn selected_game_has_autosave(self) -> bool
        recommends
            self.wf(),
    {
        self.config.has_autosaves(self.selected_game())
    }

    /// The state after `message` was logged at the time of day `clock`.
    pub open spec fn log(self, clock: Seq<char>, message: Seq<char>) -> AppView {
        AppView { event_log: self.event_log.push(log_line(clock, message)), ..self }
    }

    /// The state after the automatic saves of the selected game were listed
    /// anew. The list is left alone for a game without automatic saves.
    pub open spec fn update_autosaves(self, saves: Seq<SaveFileView>) -> AppView {
        if self.selected_game_has_autosave() {
            AppView { autosaves: self.autosaves.refresh(saves), ..self }
        } else {
            self
        }
    }

    /// The state after the manual saves of the selected game were listed
    /// anew.
    pub open spec fn update_manual_saves(self, saves: Seq<SaveFileView>) -> AppView {
        AppView { manual_saves: self.manual_saves.refresh(saves), ..self }
    }

    /// The state after both lists of saves were listed anew.
    pub open spec fn update_saves(
        self,
        autosaves: Seq<SaveFileView>,
        manual_saves: Seq<SaveFileView>,
    ) -> AppView {
        self.update_autosaves(autosaves).update_manual_saves(manual_saves)
    }
}

/// Entering a state and returning from it at once leaves the active state and
/// the states to return to, and all the rest, as they were.
pub proof fn push_then_pop_restores(app: AppView, next: UiStateView)
    ensures
        app.push_state(next).pop_state() == Some(app),
{
    assert(app.previous_states.push(app.state).drop_last() =~= app.previous_states);
}

/// Entering two states in a row and returning twice leads back to where the
/// first was entered from.
pub proof fn two_pushes_two_pops_restore(app: AppView, first: UiStateView, second: UiStateView)
    ensures
        app.push_state(first).push_state(second).pop_state() == Some(app.push_state(first)),
        app.push_state(first).pop_state() == Some(app),
{
    push_then_pop_restores(app, first);
    push_then_pop_restores(app.push_state(first), second);
}

impl AppState {
    /// See [`AppView::wf`].
    pub open spec fn wf(&self) -> bool {
        self.deep_view().wf()
    }

    /// Enters `state`; the state that was active is kept to return to.
    pub fn push_state(&mut self, state: UiState)
        ensures
            final(self).deep_view() == old(self).deep_view().push_state(state.deep_view()),
            final(self).state == state,
            final(self).previous_states@ == old(self).previous_states@.push(old(self).state),
    {
        let mut entered = state;
        core::mem::swap(&mut self.state, &mut entered);
        self.previous_states.push(entered);
        proof {
            assert(self.previous_states.deep_view() =~= old(self).previous_states.deep_view().push(
                old(self).state.deep_view(),
            ));
        }
    }

    /// Returns to the most recent of the previous states. Without one it
    /// fails and changes nothing.
    pub fn pop_state(&mut self) -> (result: Result<(), Error>)
        ensures
            result is Ok <==> old(self).previous_states@.len() > 0,
            result is Ok ==> Some(final(self).deep_view()) == old(self).deep_view().pop_state()
                && final(self).state == old(self).previous_states@.last()
                && final(self).previous_states@ == old(self).previous_states@.drop_last(),
            result matches Err(e) ==> e == Error::NoPreviousState && *final(self) == *old(self),
    {
        if self.previous_states.len() == 0 {
            return Err(Error::NoPreviousState);
        }
        match self.previous_states.pop() {
            Some(previous) => {
                self.state = previous;
            },
            None => {},
        }
        proof {
            assert(self.previous_states.deep_view() =~= old(
                self,
            ).previous_states.deep_view().drop_last());
        }
        Ok(())
    }

    /// The active state.
    pub fn get_state(&self) -> (state: UiState)
        ensures
            state == self.state,
    {
        self.state.clone()
    }

    /// The name of the selected game.
    pub fn get_selected_game(&self) -> (name: String)
        requires
            self.wf(),
        ensures
            name@ == self.deep_view().selected_game(),
    {
        match self.games.get_selected() {
            Some(name) => name,
            None => String::new(),
        }
    }

    /// Whether automatic saves are made for the selected game.
    pub fn selected_game_has_autosave(&self) -> (enabled: bool)
        requires
            self.wf(),
        ensures
            enabled == self.deep_view().selected_game_has_autosave(),
    {
        let name = self.get_selected_game();
        self.config.has_autosaves(&name)
    }

    /// Adds a line for `message` to the event log, with the time of day of
    /// `now` before it.
    pub fn log(&mut self, now: &Moment, message: &str)
        ensures
            final(self).deep_view() == old(self).deep_view().log(now.clock@, message@),
    {
        let line = join3(now.clock.as_str(), " - ", message);
        self.event_log.push(line);
        proof {
            assert(self.event_log.deep_view() =~= old(self).event_log.deep_view().push(
                log_line(now.clock@, message@),
            ));
        }
    }

    /// Takes `saves` as the automatic saves of the selected game, unless no
    /// automatic saves are made for it. The selection stays where it still
    /// points at a save.
    pub fn update_autosaves(&mut self, saves: Vec<SaveFile>)
        requires
            old(self).wf(),
        ensures
            final(self).deep_view() == old(self).deep_view().update_autosaves(saves.deep_view()),
            final(self).wf(),
    {
        if self.selected_game_has_autosave() {
            self.autosaves.replace_items(saves);
        }
    }

    /// Takes `saves` as the manual saves of the selected game. The selection
    /// stays where it still points at a save.
    pub fn update_manual_saves(&mut self, saves: Vec<SaveFile>)
        requires
            old(self).wf(),
        ensures
            final(self).deep_view() == old(self).deep_view().update_manual_saves(saves.deep_view()),
            final(self).wf(),
    {
        self.manual_saves.replace_items(saves);
    }

    /// Takes both lists of saves of the selected game anew.
    pub fn update_saves(&mut self, autosaves: Vec<SaveFile>, manual_saves: Vec<SaveFile>)
        requires
            old(self).wf(),
        ensures
            final(self).deep_view() == old(self).deep_view().update_saves(
                autosaves.deep_view(),
                manual_saves.deep_view(),
            ),
            final(self).wf(),
    {
        self.update_autosaves(autosaves);
        self.update_manual_saves(manual_saves);
    }
}

/// The name whose archive is to be looked for on disk before enter is
/// handed to the text field.
#[derive(Debug, PartialEq, Eq)]
pub struct NameCheck {
    /// The game that the text field is about.
    pub game: String,
    /// The file name of the archive in question.
    pub file_name: String,
    /// The path of the save that gets a new name, beside which the archive
    /// would lie; `None` for a new manual save of the game.
    pub beside: Option<String>,
}

/// The ghost value of a [`NameCheck`].
pub struct NameCheckView {
    pub game: Seq<char>,
    pub file_name: Seq<char>,
    pub beside: Option<Seq<char>>,
}

impl DeepView for NameCheck {
    type V = NameCheckView;

    open spec fn deep_view(&self) -> NameCheckView {
        NameCheckView {
            game: self.game@,
            file_name: self.file_name@,
            beside: self.beside.deep_view(),
        }
    }
}

impl AppView {
    /// The name in question while a text is typed: the archive named after
    /// the text, for a new save among the manual saves of the game, for a
    /// new name beside the save that gets it. None in any other state.
    pub open spec fn name_check(self) -> Option<NameCheckView> {
        match self.state {
            UiStateView::Input(input) => Some(
                NameCheckView {
                    game: input.game,
                    file_name: crate::files::archive_name(input.input),
                    beside: match input.input_type {
                        InputTypeView::Create => None,
                        InputTypeView::Rename(save) => Some(save.path),
                    },
                },
            ),
            _ => None,
        }
    }
}

impl AppState {
    /// The name in question while a text is typed; see
    /// [`AppView::name_check`].
    pub fn name_check(&self) -> (check: Option<NameCheck>)
        ensures
            check.deep_view() == self.deep_view().name_check(),
    {
        match &self.state {
            UiState::Input(input) => Some(
                NameCheck {
                    game: input.game.clone(),
                    file_name: crate::files::archive_file_name(input.input.as_str()),
                    beside: match &input.input_type {
                        InputType::Create => None,
                        InputType::Rename(save) => Some(save.path.clone()),
                    },
                },
            ),
            _ => None,
        }
    }

    /// Whether the state is valid; see [`AppView::wf`].
    pub fn is_valid(&self) -> (valid: bool)
        ensures
            valid == self.wf(),
    {
        let count = self.games.items.len();
        let selected = match self.games.state.selected() {
            Some(i) => i < count,
            None => false,
        };
        let autosaves = match self.autosaves.state.selected() {
            Some(i) => i < self.autosaves.items.len(),
            None => true,
        };
        let manual_saves = match self.manual_saves.state.selected() {
            Some(i) => i < self.manual_saves.items.len(),
            None => true,
        };
        if !(selected && autosaves && manual_saves) {
            return false;
        }
        let mut i: usize = 0;
        while i < count
            invariant
                i <= count,
                count == self.games.items@.len(),
                forall|j: int|
                    0 <= j < i ==> self.deep_view().config.games.dom().contains(
                        #[trigger] self.deep_view().games.items[j],
                    ),
            decreases count - i,
        {
            if self.config.game(&self.games.items[i]).is_none() {
                assert(self.deep_view().games.items[i as int] == self.games.items@[i as int]@);
                return false;
            }
            assert(self.deep_view().games.items[i as int] == self.games.items@[i as int]@);
            i += 1;
        }
        true
    }
}

/// The list that has the focus, to move its selection.
pub enum FocusedList<'a> {
    /// The list of games.
    Games(&'a mut StatefulList),
    /// One of the two lists of saves.
    Saves(&'a mut SaveList),
}

impl<'a> FocusedList<'a> {
    /// The index of the selected item of the list, if any.
    pub open spec fn selected(self) -> Option<usize> {
        match self {
            FocusedList::Games(list) => list.state.selected,
            FocusedList::Saves(list) => list.state.selected,
        }
    }

    /// The number of items of the list.
    pub open spec fn len(self) -> nat {
        match self {
            FocusedList::Games(list) => list.items@.len(),
            FocusedList::Saves(list) => list.items@.len(),
        }
    }

    /// Selects the item after the selected one, and the first after the
    /// last; see [`crate::cursor::next_index`].
    pub fn next(&mut self)
        ensures
            match (*old(self), *final(self)) {
                (FocusedList::Games(before), FocusedList::Games(after)) => after.items
                    == before.items && *final(after) == *final(before),
                (FocusedList::Saves(before), FocusedList::Saves(after)) => after.items
                    == before.items && *final(after) == *final(before),
                _ => false,
            },
            crate::cursor::index_view(final(self).selected()) == crate::cursor::next_index(
                old(self).len(),
                crate::cursor::index_view(old(self).selected()),
            ),
    {
        match self {
            FocusedList::Games(list) => list.next(),
            FocusedList::Saves(list) => list.next(),
        }
    }

    /// Selects the item before the selected one, and the last before the
    /// first; see [`crate::cursor::previous_index`].
    pub fn previous(&mut self)
        ensures
            match (*old(self), *final(self)) {
                (FocusedList::Games(before), FocusedList::Games(after)) => after.items
                    == before.items && *final(after) == *final(before),
                (FocusedList::Saves(before), FocusedList::Saves(after)) => after.items
                    == before.items && *final(after) == *final(before),
                _ => false,
            },
            crate::cursor::index_view(final(self).selected()) == crate::cursor::previous_index(
                old(self).len(),
                crate::cursor::index_view(old(self).selected()),
            ),
    {
        match self {
            FocusedList::Games(list) => list.previous(),
            FocusedList::Saves(list) => list.previous(),
        }
    }
}

impl AppState {
    /// The list that has the focus: the list of games or one of the lists of
    /// saves, as the active state says; none while a text field or a
    /// question is open. What is done to the list through the handle is done
    /// to the list in this state, and nothing else changes.
    pub fn current_focus_list(&mut self) -> (list: Option<FocusedList<'_>>)
        ensures
            match list {
                Some(FocusedList::Games(games)) => old(self).state == UiState::Games && *games
                    == old(self).games && *final(self) == (AppState {
                    games: *final(games),
                    ..*old(self)
                }),
                Some(FocusedList::Saves(saves)) => (old(self).state == UiState::Autosave && *saves
                    == old(self).autosaves && *final(self) == (AppState {
                    autosaves: *final(saves),
                    ..*old(self)
                })) || (old(self).state == UiState::ManualSave && *saves == old(self).manual_saves
                    && *final(self) == (AppState { manual_saves: *final(saves), ..*old(self) })),
                None => *final(self) == *old(self) && (old(self).state is Input || old(
                    self,
                ).state is Prompt),
            },
    {
        if matches!(self.state, UiState::Games) {
            Some(FocusedList::Games(&mut self.games))
        } else if matches!(self.state, UiState::Autosave) {
            Some(FocusedList::Saves(&mut self.autosaves))
        } else if matches!(self.state, UiState::ManualSave) {
            Some(FocusedList::Saves(&mut self.manual_saves))
        } else {
            None
        }
    }
}

} // verus!
