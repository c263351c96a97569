//! The mathematical model of a list with an optional, cyclically moving
//! selection, and the index arithmetic that the executable lists share.

use vstd::prelude::*;

verus! {

/// A sequence of items together with the index of the selected one, if any.
pub struct Cursor<T> {
    pub items: Seq<T>,
    pub selected: Option<nat>,
}

/// The selection after moving one step forward in a list of `len` items.
pub open spec fn next_index(len: nat, selected: Option<nat>) -> Option<nat> {
    if len == 0 {
        None
    } else {
        match selected {
            Some(i) => if i + 1 >= len { Some(0) } else { Some(i + 1) },
            None => Some(0),
        }
    }
}

/// The selection after moving one step backward in a list of `len` items.
pub open spec fn previous_index(len: nat, selected: Option<nat>) -> Option<nat> {
    if len == 0 {
        None
    } else {
        match selected {
            Some(i) => if i == 0 { Some((len - 1) as nat) } else { Some((i - 1) as nat) },
            None => Some(0),
        }
    }
}

/// The selection of a list of `len` items that was just filled.
pub open spec fn first_index(len: nat) -> Option<nat> {
    if len == 0 { None } else { Some(0) }
}

/// The selection when a list of `len` items gets the focus: kept while it
/// points at an item, else moved to the first item.
pub open spec fn focus_index(len: nat, selected: Option<nat>) -> Option<nat> {
    match selected {
        Some(i) if i < len => selected,
        _ => first_index(len),
    }
}

/// The selection when the items of a list are replaced by `len` new ones:
/// kept while it still points at an item, else moved to the first item.
pub open spec fn refresh_index(len: nat, selected: Option<nat>) -> Option<nat> {
    focus_index(len, selected)
}

/// The ghost value of an executable selection.
pub open spec fn index_view(selected: Option<usize>) -> Option<nat> {
    match selected {
        Some(i) => Some(i as nat),
        None => None,
    }
}

impl<T> Cursor<T> {
    /// The selection, where there is one, points at an item.
    pub open spec fn wf(self) -> bool {
        match self.selected {
            Some(i) => i < self.items.len(),
            None => true,
        }
    }

    pub open spec fn with_items(items: Seq<T>) -> Cursor<T> {
        Cursor { items, selected: first_index(items.len()) }
    }

    pub open spec fn next(self) -> Cursor<T> {
        Cursor { items: self.items, selected: next_index(self.items.len(), self.selected) }
    }

    pub open spec fn previous(self) -> Cursor<T> {
        Cursor { items: self.items, selected: previous_index(self.items.len(), self.selected) }
    }

    pub open spec fn autoselect_first(self) -> Cursor<T> {
        Cursor { items: self.items, selected: first_index(self.items.len()) }
    }

    pub open spec fn focus(self) -> Cursor<T> {
        Cursor { items: self.items, selected: focus_index(self.items.len(), self.selected) }
    }

    pub open spec fn unselect(self) -> Cursor<T> {
        Cursor { items: self.items, selected: None }
    }

    /// The list after its items were replaced wholesale.
    pub open spec fn refresh(self, items: Seq<T>) -> Cursor<T> {
        Cursor { items, selected: refresh_index(items.len(), self.selected) }
    }

    /// The selected item, if the selection points at one.
    pub open spec fn get_selected(self) -> Option<T> {
        match self.selected {
            Some(i) if i < self.items.len() => Some(self.items[i as int]),
            _ => None,
        }
    }

    /// The list after `n` steps forward.
    pub open spec fn next_times(self, n: nat) -> Cursor<T>
        decreases n,
    {
        if n == 0 {
            self
        } else {
            self.next_times((n - 1) as nat).next()
        }
    }

    /// The list after `n` steps backward.
    pub open spec fn previous_times(self, n: nat) -> Cursor<T>
        decreases n,
    {
        if n == 0 {
            self
        } else {
            self.previous_times((n - 1) as nat).previous()
        }
    }
}

/// Where `n` steps forward lead from a selected item: the index advances and
/// wraps to 0 after the last item.
pub proof fn next_times_index<T>(c: Cursor<T>, n: nat)
    requires
        c.wf(),
        c.selected is Some,
        n <= c.items.len(),
    ensures
        c.next_times(n).items == c.items,
        c.next_times(n).selected == Some(
            if c.selected->0 + n < c.items.len() {
                c.selected->0 + n
            } else {
                (c.selected->0 + n - c.items.len()) as nat
            },
        ),
    decreases n,
{
    if n > 0 {
        next_times_index(c, (n - 1) as nat);
    }
}

/// Where `n` steps backward lead from a selected item: the index retreats and
/// wraps to the last item before 0.
pub proof fn previous_times_index<T>(c: Cursor<T>, n: nat)
    requires
        c.wf(),
        c.selected is Some,
        n <= c.items.len(),
    ensures
        c.previous_times(n).items == c.items,
        c.previous_times(n).selected == Some(
            if n <= c.selected->0 {
                (c.selected->0 - n) as nat
            } else {
                (c.selected->0 + c.items.len() - n) as nat
            },
        ),
    decreases n,
{
    if n > 0 {
        previous_times_index(c, (n - 1) as nat);
    }
}

/// Stepping forward once for every item of a list brings the selection back
/// to the item it started from.
pub proof fn next_cycle_returns<T>(c: Cursor<T>)
    requires
        c.wf(),
        c.selected is Some,
    ensures
        c.next_times(c.items.len()) == c,
{
    next_times_index(c, c.items.len());
}

/// Stepping backward once for every item of a list brings the selection back
/// to the item it started from.
pub proof fn previous_cycle_returns<T>(c: Cursor<T>)
    requires
        c.wf(),
        c.selected is Some,
    ensures
        c.previous_times(c.items.len()) == c,
{
    previous_times_index(c, c.items.len());
}

/// An empty list never gains a selection: stepping either way, taking the
/// focus and selecting the first item all leave it without one.
pub proof fn empty_stays_unselected<T>(c: Cursor<T>)
    requires
        c.items.len() == 0,
    ensures
        c.next().selected is None,
        c.previous().selected is None,
        c.focus().selected is None,
        c.autoselect_first().selected is None,
        c.next().items == c.items,
        c.previous().items == c.items,
        c.focus().items == c.items,
{
}

/// Every operation keeps a valid selection valid, and the first three make
/// any selection valid.
pub proof fn operations_keep_wf<T>(c: Cursor<T>, items: Seq<T>)
    ensures
        c.next().wf(),
        c.autoselect_first().wf(),
        c.focus().wf(),
        c.refresh(items).wf(),
        c.unselect().wf(),
        Cursor::with_items(items).wf(),
        c.wf() ==> c.previous().wf(),
{
}

/// Computes [`next_index`].
pub fn step_forward(len: usize, selected: Option<usize>) -> (r: Option<usize>)
    ensures
        index_view(r) == next_index(len as nat, index_view(selected)),
{
    if len == 0 {
        return None;
    }
    match selected {
        Some(i) => if i >= len - 1 { Some(0) } else { Some(i + 1) },
        None => Some(0),
    }
}

/// Computes [`previous_index`].
pub fn step_backward(len: usize, selected: Option<usize>) -> (r: Option<usize>)
    ensures
        index_view(r) == previous_index(len as nat, index_view(selected)),
{
    if len == 0 {
        return None;
    }
    match selected {
        Some(i) => if i == 0 { Some(len - 1) } else { Some(i - 1) },
        None => Some(0),
    }
}

/// Computes [`first_index`].
pub fn first_of(len: usize) -> (r: Option<usize>)
    ensures
        index_view(r) == first_index(len as nat),
{
    if len == 0 { None } else { Some(0) }
}

/// Computes [`focus_index`].
pub fn keep_or_first(len: usize, selected: Option<usize>) -> (r: Option<usize>)
    ensures
        index_view(r) == focus_index(len as nat, index_view(selected)),
{
    if let Some(i) = selected {
        if len > i {
            return selected;
        }
    }
    first_of(len)
}

} // verus!
