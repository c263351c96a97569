//! What is to be written and what is to go when a game is saved.

use vstd::prelude::*;
use crate::clock::{Moment, MomentView};
use crate::config::{Config, ConfigView};
use crate::files::{SaveFile, SaveFileView, archive_file_name, archive_name, newest_first};
use crate::text::join2;

verus! {

/// The work of one save: the archive to write, and the archives to delete
/// before.
#[derive(Debug, PartialEq, Eq)]
pub struct SavePlan {
    /// The game's save directory, as configured.
    pub source: String,
    /// The file name of the archive to write.
    pub file_name: String,
    /// Whether the archive goes to the automatic saves.
    pub automatic: bool,
    /// The archives to delete first, in the order in which they are to go.
    pub remove: Vec<SaveFile>,
}

/// The ghost value of a [`SavePlan`].
pub struct SavePlanView {
    pub source: Seq<char>,
    pub file_name: Seq<char>,
    pub automatic: bool,
    pub remove: Seq<SaveFileView>,
}

impl DeepView for SavePlan {
    type V = SavePlanView;

    open spec fn deep_view(&self) -> SavePlanView {
        SavePlanView {
            source: self.source@,
            file_name: self.file_name@,
            automatic: self.automatic,
            remove: self.remove.deep_view(),
        }
    }
}

/// How many of `count` automatic saves stay when one more is made under the
/// limit `limit`: all but as many as make room for the new one.
pub open spec fn kept_autosaves(count: nat, limit: nat) -> nat {
    if limit == 0 {
        0
    } else if count < limit {
        count
    } else {
        (limit - 1) as nat
    }
}

/// The automatic saves that go when one more is made under the limit
/// `limit`: those at the end of the list, the last one first.
pub open spec fn rotated_out<T>(saves: Seq<T>, limit: nat) -> Seq<T> {
    saves.subrange(kept_autosaves(saves.len(), limit) as int, saves.len() as int).reverse()
}

/// The name shown for the automatic save made at the time written `stamp`.
pub open spec fn autosave_name(stamp: Seq<char>) -> Seq<char> {
    "autosave_"@ + stamp
}

impl ConfigView {
    /// The plan of a manual save of `game` under `name`, if the game is
    /// configured.
    pub open spec fn manual_save_plan(self, game: Seq<char>, name: Seq<char>) -> Option<
        SavePlanView,
    > {
        if self.games.dom().contains(game) {
            Some(
                SavePlanView {
                    source: self.games[game].savegame_location,
                    file_name: archive_name(name),
                    automatic: false,
                    remove: Seq::empty(),
                },
            )
        } else {
            None
        }
    }

    /// The plan of an automatic save of `game` at `now` beside the automatic
    /// saves `existing`, if the game is configured.
    pub open spec fn autosave_plan(
        self,
        game: Seq<char>,
        existing: Seq<SaveFileView>,
        now: MomentView,
    ) -> Option<SavePlanView> {
        if self.games.dom().contains(game) {
            Some(
                SavePlanView {
                    source: self.games[game].savegame_location,
                    file_name: archive_name(autosave_name(now.stamp)),
                    automatic: true,
                    remove: rotated_out(existing, self.games[game].autosaves as nat),
                },
            )
        } else {
            None
        }
    }
}

/// With the saves that go gone and the new one made, the number of automatic
/// saves is within a limit of 1 or more; and exactly one goes where the
/// limit was just reached.
pub proof fn rotation_respects_limit<T>(saves: Seq<T>, limit: nat)
    ensures
        rotated_out(saves, limit).len() == saves.len() - kept_autosaves(saves.len(), limit),
        limit >= 1 ==> kept_autosaves(saves.len(), limit) + 1 <= limit,
        limit >= 1 && saves.len() == limit ==> rotated_out(saves, limit).len() == 1
            && rotated_out(saves, limit)[0] == saves.last(),
        saves.len() < limit ==> rotated_out(saves, limit).len() == 0,
{
}

/// Of saves that stand newest first, those that go are the oldest: none of
/// them is newer than any that stays, and they go oldest first.
pub proof fn rotation_takes_oldest(saves: Seq<SaveFileView>, limit: nat)
    requires
        newest_first(saves),
    ensures
        forall|i: int, j: int|
            0 <= i < kept_autosaves(saves.len(), limit) && 0 <= j < rotated_out(saves, limit).len()
                ==> (#[trigger] saves[i]).last_modified >= (#[trigger] rotated_out(
                saves,
                limit,
            )[j]).last_modified,
        forall|i: int, j: int|
            0 <= i <= j < rotated_out(saves, limit).len() ==> (#[trigger] rotated_out(
                saves,
                limit,
            )[i]).last_modified <= (#[trigger] rotated_out(saves, limit)[j]).last_modified,
{
    let kept = kept_autosaves(saves.len(), limit) as int;
    let gone = rotated_out(saves, limit);
    assert forall|j: int| 0 <= j < gone.len() implies #[trigger] gone[j] == saves[saves.len() - 1
        - j] by {}
    assert forall|i: int, j: int| 0 <= i < kept && 0 <= j < gone.len() implies (
    #[trigger] saves[i]).last_modified >= (#[trigger] gone[j]).last_modified by {
        assert(gone[j] == saves[saves.len() - 1 - j]);
    }
    assert forall|i: int, j: int| 0 <= i <= j < gone.len() implies (#[trigger] gone[i]).last_modified
        <= (#[trigger] gone[j]).last_modified by {
        assert(gone[i] == saves[saves.len() - 1 - i]);
        assert(gone[j] == saves[saves.len() - 1 - j]);
    }
}

/// Plans an automatic save of `game` at `now`: the archive is named after
/// the time, and of the automatic saves `existing`, which stand newest
/// first, the oldest go that would exceed the game's limit; see
/// [`ConfigView::autosave_plan`]. `None` for a game that is not configured.
pub fn autosave_game(config: &Config, game: &String, existing: &Vec<SaveFile>, now: &Moment) -> (plan:
    Option<SavePlan>)
    ensures
        plan.deep_view() == config.deep_view().autosave_plan(
            game@,
            existing.deep_view(),
            now.deep_view(),
        ),
{
    let settings = match config.game(game) {
        Some(settings) => settings,
        None => {
            return None;
        },
    };
    let limit = settings.autosaves;
    let count = existing.len();
    let kept: usize = if limit == 0 {
        0
    } else if count < limit {
        count
    } else {
        limit - 1
    };
    let mut remove: Vec<SaveFile> = Vec::new();
    let mut i: usize = count;
    while i > kept
        invariant
            kept <= i <= count,
            count == existing@.len(),
            remove@.len() == count - i,
            forall|j: int| 0 <= j < remove@.len() ==> #[trigger] remove@[j] == existing@[count - 1 - j],
        decreases i,
    {
        i -= 1;
        remove.push(existing[i].clone());
    }
    let name = join2("autosave_", now.stamp.as_str());
    let file_name = archive_file_name(name.as_str());
    proof {
        assert(remove.deep_view() =~= rotated_out(existing.deep_view(), limit as nat));
    }
    Some(SavePlan { source: settings.savegame_location.clone(), file_name, automatic: true, remove })
}

/// Plans a manual save of `game` under `name`; see
/// [`ConfigView::manual_save_plan`]. `None` for a game that is not
/// configured.
pub fn manually_save_game(config: &Config, game: &String, name: &String) -> (plan: Option<SavePlan>)
    ensures
        plan.deep_view() == config.deep_view().manual_save_plan(game@, name@),
{
    match config.game(game) {
        Some(settings) => {
            let plan = SavePlan {
                source: settings.savegame_location.clone(),
                file_name: archive_file_name(name.as_str()),
                automatic: false,
                remove: Vec::new(),
            };
            proof {
                assert(plan.remove.deep_view() =~= Seq::<SaveFileView>::empty());
            }
            Some(plan)
        },
        None => None,
    }
}

} // verus!
