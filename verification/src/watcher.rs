//! What the watcher of a game's save directory makes of the file events it
//! sees: whether they are worth a report, and which paths the report names.

use vstd::prelude::*;
use crate::update::{Update, UpdateView};

verus! {

/// What happened to a file.
#[derive(Clone, Copy, Debug, PartialEq, Eq, Structural)]
pub enum FileChange {
    /// It was read.
    Access,
    /// It was created.
    Create,
    /// It got another name.
    ModifyName,
    /// Its metadata changed.
    ModifyMetadata,
    /// It was changed in any other way.
    ModifyOther,
    /// It was removed.
    Remove,
    /// Anything else.
    Other,
}

/// One event of the file system: what happened, and to which paths.
#[derive(Debug, PartialEq, Eq)]
pub struct FileEvent {
    pub changes: Vec<FileChange>,
    pub paths: Vec<String>,
}

/// The ghost value of a [`FileEvent`].
pub struct FileEventView {
    pub changes: Seq<FileChange>,
    pub paths: Seq<Seq<char>>,
}

impl DeepView for FileEvent {
    type V = FileEventView;

    open spec fn deep_view(&self) -> FileEventView {
        FileEventView { changes: self.changes@, paths: self.paths.deep_view() }
    }
}

/// Whether a change is one that saves are made for: a file was created,
/// renamed or written.
pub open spec fn counts(change: FileChange) -> bool {
    change == FileChange::Create || change == FileChange::ModifyName || change
        == FileChange::ModifyOther
}

/// Whether an event holds a change that counts.
pub open spec fn is_interesting(event: FileEventView) -> bool {
    exists|i: int| 0 <= i < event.changes.len() && counts(#[trigger] event.changes[i])
}

/// The paths of the events that hold a change that counts, in the order of
/// the events.
pub open spec fn changed_paths(events: Seq<FileEventView>) -> Seq<Seq<char>>
    decreases events.len(),
{
    if events.len() == 0 {
        Seq::empty()
    } else {
        let before = changed_paths(events.drop_last());
        if is_interesting(events.last()) {
            before + events.last().paths
        } else {
            before
        }
    }
}

/// The paths without immediate repetitions: of paths that follow each other
/// and are the same, the first stays.
pub open spec fn without_repeats(paths: Seq<Seq<char>>) -> Seq<Seq<char>>
    decreases paths.len(),
{
    if paths.len() == 0 {
        Seq::empty()
    } else {
        let before = without_repeats(paths.drop_last());
        if paths.len() >= 2 && paths[paths.len() - 2] == paths.last() {
            before
        } else {
            before.push(paths.last())
        }
    }
}

/// The report that the events are worth, if any: none unless one of them
/// holds a change that counts; else the paths of those that do, without
/// immediate repetitions.
pub open spec fn update_for(game_name: Seq<char>, events: Seq<FileEventView>, time: i64) -> Option<
    UpdateView,
> {
    if exists|i: int| 0 <= i < events.len() && is_interesting(#[trigger] events[i]) {
        Some(UpdateView { game_name, locations: without_repeats(changed_paths(events)), time })
    } else {
        None
    }
}

/// Whether the event holds a change that counts; see [`is_interesting`].
pub fn event_counts(event: &FileEvent) -> (yes: bool)
    ensures
        yes == is_interesting(event.deep_view()),
{
    let mut i: usize = 0;
    while i < event.changes.len()
        invariant
            i <= event.changes@.len(),
            forall|j: int| 0 <= j < i ==> !counts(#[trigger] event.changes@[j]),
        decreases event.changes@.len() - i,
    {
        let found = match event.changes[i] {
            FileChange::Create | FileChange::ModifyName | FileChange::ModifyOther => true,
            _ => false,
        };
        if found {
            assert(counts(event.deep_view().changes[i as int]));
            return true;
        }
        i += 1;
    }
    false
}

/// Takes the immediate repetitions out of `paths`; see [`without_repeats`].
fn drop_repeats(paths: &Vec<String>) -> (kept: Vec<String>)
    ensures
        kept.deep_view() == without_repeats(paths.deep_view()),
{
    let mut kept: Vec<String> = Vec::new();
    let mut i: usize = 0;
    proof {
        assert(paths.deep_view().take(0) =~= Seq::<Seq<char>>::empty());
        assert(kept.deep_view() =~= Seq::<Seq<char>>::empty());
    }
    while i < paths.len()
        invariant
            i <= paths@.len(),
            kept.deep_view() == without_repeats(paths.deep_view().take(i as int)),
        decreases paths@.len() - i,
    {
        let ghost before = kept.deep_view();
        let repeated = i > 0 && paths[i] == paths[i - 1];
        if !repeated {
            kept.push(paths[i].clone());
        }
        proof {
            let taken = paths.deep_view().take(i + 1);
            assert(taken.drop_last() =~= paths.deep_view().take(i as int));
            assert(taken.last() == paths@[i as int]@);
            if i > 0 {
                assert(taken[taken.len() - 2] == paths@[i - 1]@);
            }
            if !repeated {
                assert(kept.deep_view() =~= before.push(paths@[i as int]@));
            }
        }
        i += 1;
    }
    proof {
        assert(paths.deep_view().take(paths@.len() as int) =~= paths.deep_view());
    }
    kept
}

/// The report on the game `game_name` that the events seen at `time` are
/// worth, if any; see [`update_for`].
pub fn build_update(game_name: &String, events: &Vec<FileEvent>, time: i64) -> (update: Option<Update>)
    ensures
        update.deep_view() == update_for(game_name@, events.deep_view(), time),
{
    let mut should_trigger = false;
    let mut paths: Vec<String> = Vec::new();
    let mut i: usize = 0;
    proof {
        assert(events.deep_view().take(0) =~= Seq::<FileEventView>::empty());
        assert(paths.deep_view() =~= Seq::<Seq<char>>::empty());
    }
    while i < events.len()
        invariant
            i <= events@.len(),
            should_trigger <==> exists|j: int|
                0 <= j < i && is_interesting(#[trigger] events.deep_view()[j]),
            paths.deep_view() == changed_paths(events.deep_view().take(i as int)),
        decreases events@.len() - i,
    {
        let event = &events[i];
        let ghost taken = events.deep_view().take(i + 1);
        proof {
            assert(taken.drop_last() =~= events.deep_view().take(i as int));
            assert(taken.last() == event.deep_view());
            assert(events.deep_view()[i as int] == event.deep_view());
        }
        if event_counts(event) {
            should_trigger = true;
            let ghost before = paths.deep_view();
            let mut k: usize = 0;
            while k < event.paths.len()
                invariant
                    k <= event.paths@.len(),
                    paths.deep_view() == before + event.paths.deep_view().take(k as int),
                decreases event.paths@.len() - k,
            {
                let ghost so_far = paths.deep_view();
                paths.push(event.paths[k].clone());
                proof {
                    assert(paths.deep_view() =~= so_far.push(event.paths@[k as int]@));
                    assert(event.paths.deep_view().take(k + 1) =~= event.paths.deep_view().take(
                        k as int,
                    ).push(event.paths@[k as int]@));
                    assert(paths.deep_view() =~= before + event.paths.deep_view().take(k + 1));
                }
                k += 1;
            }
            proof {
                assert(event.paths.deep_view().take(event.paths@.len() as int)
                    =~= event.paths.deep_view());
            }
        } else {
            proof {
                assert forall|j: int| 0 <= j < i + 1 && is_interesting(
                    #[trigger] events.deep_view()[j],
                ) implies j < i by {}
            }
        }
        i += 1;
    }
    proof {
        assert(events.deep_view().take(events@.len() as int) =~= events.deep_view());
    }
    if should_trigger {
        Some(Update { game_name: game_name.clone(), locations: drop_repeats(&paths), time })
    } else {
        None
    }
}

} // verus!
