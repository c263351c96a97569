//! What the screen is to show, decided from the state; the painting itself
//! is the caller's part.

use vstd::prelude::*;
use crate::state::{AppState, AppView, PromptType, PromptTypeView, UiState, UiStateView};

verus! {

/// A box in the middle of the screen, over the lists.
#[derive(Debug, PartialEq, Eq)]
pub struct Modal {
    pub title: String,
    pub text: String,
}

/// The ghost value of a [`Modal`].
pub struct ModalView {
    pub title: Seq<char>,
    pub text: Seq<char>,
}

impl DeepView for Modal {
    type V = ModalView;

    open spec fn deep_view(&self) -> ModalView {
        ModalView { title: self.title@, text: self.text@ }
    }
}

/// Which parts the screen has and which of them stand out.
#[derive(Debug, PartialEq, Eq)]
pub struct Screen {
    /// Whether the list of automatic saves is drawn at all.
    pub autosaves_shown: bool,
    /// Whether the selected automatic save stands out.
    pub autosaves_highlighted: bool,
    /// Whether the selected manual save stands out.
    pub manual_saves_highlighted: bool,
    /// The box over the lists, if there is one.
    pub modal: Option<Modal>,
}

/// The ghost value of a [`Screen`].
pub struct ScreenView {
    pub autosaves_shown: bool,
    pub autosaves_highlighted: bool,
    pub manual_saves_highlighted: bool,
    pub modal: Option<ModalView>,
}

impl DeepView for Screen {
    type V = ScreenView;

    open spec fn deep_view(&self) -> ScreenView {
        ScreenView {
            autosaves_shown: self.autosaves_shown,
            autosaves_highlighted: self.autosaves_highlighted,
            manual_saves_highlighted: self.manual_saves_highlighted,
            modal: self.modal.deep_view(),
        }
    }
}

/// The question that a prompt puts, for the selected game `game`.
pub open spec fn prompt_text(prompt: PromptTypeView, game: Seq<char>) -> Seq<char> {
    match prompt {
        PromptTypeView::Delete { save } => "Delete the savefile '"@ + save.file_name
            + "' for game "@ + game + " (Y/n)"@,
        PromptTypeView::Rename { save, new_name } => "Rename the save '"@ + save.file_name
            + "' to '"@ + new_name + "'"@ + " (Y/n)"@,
        PromptTypeView::RenameOverwrite { save, new_name } =>
            "Do you realy want to overwrite save '"@ + new_name + "' with '"@ + save.file_name
                + "'"@ + " (Y/n)"@,
        PromptTypeView::CreateOverwrite { new_name, game: _ } =>
            "Do you really want to overwrite save '"@ + new_name + "'"@ + " (Y/n)"@,
    }
}

impl AppView {
    /// What the screen shows in this state: the automatic saves only for a
    /// game that has them; the selection of a list of saves stands out while
    /// the list has the focus; a text field or a question lies over the
    /// lists in a box.
    pub open spec fn screen(self) -> ScreenView
        recommends
            self.wf(),
    {
        ScreenView {
            autosaves_shown: self.selected_game_has_autosave(),
            autosaves_highlighted: self.state == UiStateView::Autosave,
            manual_saves_highlighted: self.state == UiStateView::ManualSave,
            modal: match self.state {
                UiStateView::Input(input) => Some(
                    ModalView { title: "Savefile Name"@, text: input.input },
                ),
                UiStateView::Prompt(prompt) => Some(
                    ModalView {
                        title: "Are you sure?"@,
                        text: prompt_text(prompt, self.selected_game()),
                    },
                ),
                _ => None,
            },
        }
    }
}

/// The question that `prompt_type` puts; see [`prompt_text`].
pub fn get_prompt_text(prompt_type: &PromptType, game: &String) -> (text: String)
    ensures
        text@ == prompt_text(prompt_type.deep_view(), game@),
{
    match prompt_type {
        PromptType::Delete { save } => {
            let mut text = String::from_str("Delete the savefile '");
            text.append(save.file_name.as_str());
            text.append("' for game ");
            text.append(game.as_str());
            text.append(" (Y/n)");
            text
        },
        PromptType::Rename { save, new_name } => {
            let mut text = String::from_str("Rename the save '");
            text.append(save.file_name.as_str());
            text.append("' to '");
            text.append(new_name.as_str());
            text.append("'");
            text.append(" (Y/n)");
            text
        },
        PromptType::RenameOverwrite { save, new_name } => {
            let mut text = String::from_str("Do you realy want to overwrite save '");
            text.append(new_name.as_str());
            text.append("' with '");
            text.append(save.file_name.as_str());
            text.append("'");
            text.append(" (Y/n)");
            text
        },
        PromptType::CreateOverwrite { new_name, .. } => {
            let mut text = String::from_str("Do you really want to overwrite save '");
            text.append(new_name.as_str());
            text.append("'");
            text.append(" (Y/n)");
            text
        },
    }
}

/// What the screen is to show; see [`AppView::screen`].
pub fn draw_ui(state: &AppState) -> (screen: Screen)
    requires
        state.wf(),
    ensures
        screen.deep_view() == state.deep_view().screen(),
{
    let modal = match &state.state {
        UiState::Input(input) => Some(
            Modal { title: String::from_str("Savefile Name"), text: input.input.clone() },
        ),
        UiState::Prompt(prompt) => {
            let game = state.get_selected_game();
            Some(Modal { title: String::from_str("Are you sure?"), text: get_prompt_text(prompt, &game) })
        },
        _ => None,
    };
    Screen {
        autosaves_shown: state.selected_game_has_autosave(),
        autosaves_highlighted: matches!(state.state, UiState::Autosave),
        manual_saves_highlighted: matches!(state.state, UiState::ManualSave),
        modal,
    }
}

} // verus!
