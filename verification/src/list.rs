//! The selectable lists of the interface: one of names, one of save files.

use vstd::prelude::*;
use crate::cursor::{Cursor, index_view, step_forward, step_backward, first_of, keep_or_first};
use crate::files::{SaveFile, SaveFileView};

verus! {

/// Which row of a list is highlighted.
#[derive(Debug, PartialEq, Eq)]
pub struct ListState {
    pub selected: Option<usize>,
}

impl ListState {
    /// A state without a selection.
    pub fn new() -> (state: ListState)
        ensures
            state.selected is None,
    {
        ListState { selected: None }
    }

    /// The index of the selected row, if any.
    pub fn selected(&self) -> (index: Option<usize>)
        ensures
            index == self.selected,
    {
        self.selected
    }

    /// Moves the selection to `index`, or removes it.
    pub fn select(&mut self, index: Option<usize>)
        ensures
            final(self).selected == index,
    {
        self.selected = index;
    }
}

impl Default for ListState {
    fn default() -> (state: ListState)
        ensures
            state.selected is None,
    {
        ListState::new()
    }
}

impl Clone for ListState {
    fn clone(&self) -> (copy: ListState)
        ensures
            copy == *self,
    {
        ListState { selected: self.selected }
    }
}

/// A list of names in which one can be selected.
#[derive(Debug, PartialEq, Eq)]
pub struct StatefulList {
    pub state: ListState,
    pub items: Vec<String>,
}

impl DeepView for StatefulList {
    type V = Cursor<Seq<char>>;

    open spec fn deep_view(&self) -> Cursor<Seq<char>> {
        Cursor { items: self.items.deep_view(), selected: index_view(self.state.selected) }
    }
}

impl StatefulList {
    /// The selection, where there is one, points at an item.
    pub open spec fn wf(&self) -> bool {
        self.deep_view().wf()
    }

    /// A list of the given names with the first one selected.
    pub fn with_items(items: Vec<String>) -> (list: StatefulList)
        ensures
            list.items == items,
            list.deep_view() == Cursor::with_items(items.deep_view()),
            list.wf(),
    {
        let selected = first_of(items.len());
        StatefulList { state: ListState { selected }, items }
    }

    /// The selected name, if the selection points at one.
    pub fn get_selected(&self) -> (name: Option<String>)
        ensures
            name.deep_view() == self.deep_view().get_selected(),
            name matches Some(s) ==> self.state.selected matches Some(i) && i < self.items.len()
                && s == self.items[i as int],
    {
        match self.state.selected {
            Some(i) => if i < self.items.len() {
                Some(self.items[i].clone())
            } else {
                None
            },
            None => None,
        }
    }

    /// Selects the first name, or nothing in an empty list.
    pub fn autoselect_first(&mut self)
        ensures
            final(self).items == old(self).items,
            final(self).deep_view() == old(self).deep_view().autoselect_first(),
            final(self).wf(),
    {
        self.state.select(first_of(self.items.len()));
    }

    /// Selects the name after the selected one, and the first one after the
    /// last. Without a selection the first name is selected; an empty list
    /// stays without one.
    pub fn next(&mut self)
        ensures
            final(self).items == old(self).items,
            final(self).deep_view() == old(self).deep_view().next(),
            final(self).wf(),
    {
        self.state.select(step_forward(self.items.len(), self.state.selected()));
    }

    /// Selects the name before the selected one, and the last one before the
    /// first. Without a selection the first name is selected; an empty list
    /// stays without one.
    pub fn previous(&mut self)
        ensures
            final(self).items == old(self).items,
            final(self).deep_view() == old(self).deep_view().previous(),
            old(self).wf() ==> final(self).wf(),
    {
        self.state.select(step_backward(self.items.len(), self.state.selected()));
    }

    /// Removes the selection.
    pub fn unselect(&mut self)
        ensures
            final(self).items == old(self).items,
            final(self).deep_view() == old(self).deep_view().unselect(),
            final(self).wf(),
    {
        self.state.select(None);
    }

    /// Keeps a selection that points at a name, and selects the first name
    /// otherwise.
    pub fn focus(&mut self)
        ensures
            final(self).items == old(self).items,
            final(self).deep_view() == old(self).deep_view().focus(),
            final(self).wf(),
    {
        self.state.select(keep_or_first(self.items.len(), self.state.selected()));
    }
}

/// A list of save files in which one can be selected.
#[derive(Debug, PartialEq, Eq)]
pub struct SaveList {
    pub state: ListState,
    pub items: Vec<SaveFile>,
}

impl DeepView for SaveList {
    type V = Cursor<SaveFileView>;

    open spec fn deep_view(&self) -> Cursor<SaveFileView> {
        Cursor { items: self.items.deep_view(), selected: index_view(self.state.selected) }
    }
}

impl SaveList {
    /// The selection, where there is one, points at an item.
    pub open spec fn wf(&self) -> bool {
        self.deep_view().wf()
    }

    /// A list of the given save files with the first one selected.
    pub fn with_items(items: Vec<SaveFile>) -> (list: SaveList)
        ensures
            list.items == items,
            list.deep_view() == Cursor::with_items(items.deep_view()),
            list.wf(),
    {
        let selected = first_of(items.len());
        SaveList { state: ListState { selected }, items }
    }

    /// Replaces the save files. The selection stays where it still points at
    /// one of them, and moves to the first one otherwise.
    pub fn replace_items(&mut self, items: Vec<SaveFile>)
        ensures
            final(self).items == items,
            final(self).deep_view() == old(self).deep_view().refresh(items.deep_view()),
            final(self).wf(),
    {
        let selected = keep_or_first(items.len(), self.state.selected());
        self.items = items;
        self.state.select(selected);
    }

    /// Keeps a selection that points at a save file, and selects the first
    /// one otherwise.
    pub fn focus(&mut self)
        ensures
            final(self).items == old(self).items,
            final(self).deep_view() == old(self).deep_view().focus(),
            final(self).wf(),
    {
        self.state.select(keep_or_first(self.items.len(), self.state.selected()));
    }

    /// The selected save file, if the selection points at one.
    pub fn get_selected(&self) -> (save: Option<SaveFile>)
        ensures
            save.deep_view() == self.deep_view().get_selected(),
            save matches Some(s) ==> self.state.selected matches Some(i) && i < self.items.len()
                && s == self.items[i as int],
    {
        match self.state.selected {
            Some(i) => if i < self.items.len() {
                Some(self.items[i].clone())
            } else {
                None
            },
            None => None,
        }
    }

    /// Selects the first save file, or nothing in an empty list.
    pub fn autoselect_first(&mut self)
        ensures
            final(self).items == old(self).items,
            final(self).deep_view() == old(self).deep_view().autoselect_first(),
            final(self).wf(),
    {
        self.state.select(first_of(self.items.len()));
    }

    /// Selects the save file after the selected one, and the first one after
    /// the last. Without a selection the first one is selected; an empty list
    /// stays without one.
    pub fn next(&mut self)
        ensures
            final(self).items == old(self).items,
            final(self).deep_view() == old(self).deep_view().next(),
            final(self).wf(),
    {
        self.state.select(step_forward(self.items.len(), self.state.selected()));
    }

    /// Selects the save file before the selected one, and the last one before
    /// the first. Without a selection the first one is selected; an empty
    /// list stays without one.
    pub fn previous(&mut self)
        ensures
            final(self).items == old(self).items,
            final(self).deep_view() == old(self).deep_view().previous(),
            old(self).wf() ==> final(self).wf(),
    {
        self.state.select(step_backward(self.items.len(), self.state.selected()));
    }
}

} // verus!
