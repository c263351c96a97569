//! The directories that must be there before anything is saved.

use vstd::prelude::*;
use crate::config::{Config, Game, autosave_directory, may_expand_to};
use crate::state::Error;

verus! {

/// The save directory that the example configuration names.
pub open spec fn example_location() -> Seq<char> {
    "~/some/path/to/your/save/files"@
}

/// Whether one of the games still has the save directory of the example
/// configuration.
pub open spec fn has_example_location(games: Seq<Game>) -> bool {
    exists|i: int|
        0 <= i < games.len() && (#[trigger] games[i]).config.savegame_location@
            == example_location()
}

/// The directories for the games below the backup directory `base`, each as
/// the parts of its path: the backup directory itself; then for each game
/// its directory, and below that the one for its automatic saves if they
/// are made for it.
pub open spec fn directories_of(base: Seq<char>, games: Seq<Game>) -> Seq<Seq<Seq<char>>>
    decreases games.len(),
{
    if games.len() == 0 {
        seq![seq![base]]
    } else {
        let game = games.last();
        let with_saves = directories_of(base, games.drop_last()).push(seq![base, game.name@]);
        if game.config.autosaves != 0 {
            with_saves.push(seq![base, game.name@, autosave_directory()])
        } else {
            with_saves
        }
    }
}

/// The directories to create where they are missing, in this order; see
/// [`directories_of`]. It fails, and names none, where a game still has the
/// save directory of the example configuration.
pub fn init_directories(config: &Config) -> (result: Result<Vec<Vec<String>>, Error>)
    ensures
        result is Err <==> has_example_location(config.games@),
        result matches Err(error) ==> error == Error::ExampleConfig,
        result matches Ok(directories) ==> {
            &&& directories@.len() > 0
            &&& directories@[0]@.len() == 1
            &&& may_expand_to(config.backup_directory@, directories@[0]@[0]@)
            &&& directories.deep_view() == directories_of(directories@[0]@[0]@, config.games@)
        },
{
    let base = config.backup_directory();
    let example = String::from_str("~/some/path/to/your/save/files");
    let mut directories: Vec<Vec<String>> = Vec::new();
    let mut first: Vec<String> = Vec::new();
    first.push(base.clone());
    directories.push(first);
    proof {
        assert(config.games@.take(0) =~= Seq::<Game>::empty());
        assert(directories@[0].deep_view() =~= seq![base@]);
        assert(directories.deep_view() =~= seq![seq![base@]]);
    }
    let mut i: usize = 0;
    while i < config.games.len()
        invariant
            i <= config.games@.len(),
            directories@.len() > 0,
            directories@[0]@.len() == 1,
            directories@[0]@[0]@ == base@,
            example@ == example_location(),
            !has_example_location(config.games@.take(i as int)),
            directories.deep_view() == directories_of(base@, config.games@.take(i as int)),
        decreases config.games@.len() - i,
    {
        let game = &config.games[i];
        let ghost taken = config.games@.take(i + 1);
        let ghost before = directories.deep_view();
        proof {
            assert(taken.drop_last() =~= config.games@.take(i as int));
            assert(taken.last() == *game);
        }
        if game.config.savegame_location == example {
            return Err(Error::ExampleConfig);
        }
        let mut saves: Vec<String> = Vec::new();
        saves.push(base.clone());
        saves.push(game.name.clone());
        proof {
            assert(saves.deep_view() =~= seq![base@, game.name@]);
        }
        directories.push(saves);
        proof {
            assert(directories.deep_view() =~= before.push(seq![base@, game.name@]));
        }
        if game.config.has_autosaves() {
            let ghost with_saves = directories.deep_view();
            let mut autosaves: Vec<String> = Vec::new();
            autosaves.push(base.clone());
            autosaves.push(game.name.clone());
            autosaves.push(String::from_str("autosaves"));
            proof {
                assert(autosaves.deep_view() =~= seq![base@, game.name@, autosave_directory()]);
            }
            directories.push(autosaves);
            proof {
                assert(directories.deep_view() =~= with_saves.push(
                    seq![base@, game.name@, autosave_directory()],
                ));
            }
        }
        proof {
            assert forall|j: int| 0 <= j < taken.len() implies (
            #[trigger] taken[j]).config.savegame_location@ != example_location() by {
                if j < i {
                    assert(config.games@.take(i as int)[j] == taken[j]);
                }
            }
        }
        i += 1;
    }
    proof {
        assert(config.games@.take(config.games@.len() as int) =~= config.games@);
    }
    Ok(directories)
}

} // verus!
