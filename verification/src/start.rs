//! How the state of the interface is set up from the configuration.

use vstd::prelude::*;
use crate::config::{Config, ConfigView, Game, listed_game_configured, configured_game_listed};
use crate::files::SaveFile;
use crate::list::{SaveList, StatefulList};
use crate::state::{AppState, Error, UiState};
use crate::text::{name_precedes, precedes, precedes_is_total, precedes_is_transitive};
use crate::timetable::Timetable;

verus! {

/// The line of the event log for a game whose save directory was not found.
pub open spec fn missing_message(name: Seq<char>, location: Seq<char>) -> Seq<char> {
    "Cannot find savegame location for game "@ + name + ": \""@ + location + "\""@
}

/// Whether the game at `j` is the first of its name.
pub open spec fn first_of_its_name(games: Seq<Game>, j: int) -> bool {
    forall|i: int| 0 <= i < j ==> (#[trigger] games[i]).name@ != games[j].name@
}

/// The lines of the event log for the first `count` games: one for each
/// game that is the first of its name and is among the missing ones.
pub open spec fn missing_lines(games: Seq<Game>, missing: Seq<Seq<char>>, count: int) -> Seq<
    Seq<char>,
>
    decreases count,
{
    if count <= 0 {
        Seq::empty()
    } else {
        let before = missing_lines(games, missing, count - 1);
        let game = games[count - 1];
        if first_of_its_name(games, count - 1) && missing.contains(game.name@) {
            before.push(missing_message(game.name@, game.config.savegame_location@))
        } else {
            before
        }
    }
}

/// Whether the game `name` can be worked on: it is configured and not among
/// the missing ones.
pub open spec fn available(config: ConfigView, missing: Seq<Seq<char>>, name: Seq<char>) -> bool {
    config.games.dom().contains(name) && !missing.contains(name)
}

/// Whether the names stand in order.
pub open spec fn sorted_names(names: Seq<Seq<char>>) -> bool {
    forall|i: int, j: int| 0 <= i <= j < names.len() ==> precedes(#[trigger] names[i], #[trigger] names[j])
}

/// Whether `name` is one of `names`.
fn contains_name(names: &Vec<String>, name: &String) -> (yes: bool)
    ensures
        yes == names.deep_view().contains(name@),
{
    let mut i: usize = 0;
    while i < names.len()
        invariant
            i <= names@.len(),
            forall|j: int| 0 <= j < i ==> (#[trigger] names.deep_view()[j]) != name@,
        decreases names@.len() - i,
    {
        if names[i] == *name {
            assert(names.deep_view()[i as int] == name@);
            return true;
        }
        i += 1;
    }
    false
}

/// Whether an earlier game has the name of the game at `j`.
fn seen_before(games: &Vec<Game>, j: usize) -> (yes: bool)
    requires
        j < games@.len(),
    ensures
        yes == !first_of_its_name(games@, j as int),
{
    let mut i: usize = 0;
    while i < j
        invariant
            i <= j,
            j < games@.len(),
            forall|k: int| 0 <= k < i ==> (#[trigger] games@[k]).name@ != games@[j as int].name@,
        decreases j - i,
    {
        if games[i].name == games[j].name {
            return true;
        }
        i += 1;
    }
    false
}

/// Puts `name` at its place among the ordered `names`.
fn insert_name(names: &mut Vec<String>, name: String)
    requires
        sorted_names(old(names).deep_view()),
    ensures
        sorted_names(final(names).deep_view()),
        exists|place: int|
            0 <= place <= old(names)@.len() && final(names).deep_view() == #[trigger] old(
                names,
            ).deep_view().insert(place, name@),
{
    let mut place: usize = 0;
    while place < names.len() && name_precedes(names[place].as_str(), name.as_str())
        invariant
            place <= names@.len(),
            forall|j: int| 0 <= j < place ==> precedes((#[trigger] names.deep_view()[j]), name@),
        decreases names@.len() - place,
    {
        assert(names.deep_view()[place as int] == names@[place as int]@);
        place += 1;
    }
    let ghost before = names.deep_view();
    let ghost key = name@;
    names.insert(place, name);
    proof {
        let after = names.deep_view();
        assert(after =~= before.insert(place as int, key));
        assert forall|i: int, j: int| 0 <= i <= j < after.len() implies precedes(
            #[trigger] after[i],
            #[trigger] after[j],
        ) by {
            let a = if i < place { i } else { i - 1 };
            let b = if j < place { j } else { j - 1 };
            if i == place && j == place {
                precedes_is_total(key, key);
            } else if i == place {
                assert(after[j] == before[b]);
                assert(before[place as int] == old(names)@[place as int]@);
                precedes_is_total(before[place as int], key);
                assert(precedes(before[place as int], before[b]));
                precedes_is_transitive(key, before[place as int], before[b]);
            } else if j == place {
                assert(after[i] == before[a]);
            } else {
                assert(after[i] == before[a]);
                assert(after[j] == before[b]);
                assert(precedes(before[a], before[b]));
            }
        }
    }
}

impl AppState {
    /// The state at the start: the list of games holds, in order and each
    /// once, the configured games that are not among the `missing` ones,
    /// those whose save directory was not found, and its first game is
    /// selected; the event log has a line for each missing game; the focus
    /// is on the list of games; everything else is empty. It fails where no
    /// game is left to list.
    pub fn new(config: Config, missing: &Vec<String>) -> (result: Result<AppState, Error>)
        ensures
            result matches Ok(state) ==> {
                &&& state.wf()
                &&& state.config == config
                &&& state.state == UiState::Games
                &&& state.previous_states@.len() == 0
                &&& state.deep_view().games.selected == Some(0nat)
                &&& sorted_names(state.deep_view().games.items)
                &&& state.deep_view().games.items.no_duplicates()
                &&& forall|name: Seq<char>|
                    state.deep_view().games.items.contains(name) <==> available(
                        config.deep_view(),
                        missing.deep_view(),
                        name,
                    )
                &&& state.deep_view().event_log == missing_lines(
                    config.games@,
                    missing.deep_view(),
                    config.games@.len() as int,
                )
                &&& state.autosaves.items@.len() == 0
                &&& state.manual_saves.items@.len() == 0
                &&& state.changes_detected@ == Map::<Seq<char>, i64>::empty()
                &&& state.ignore_changes@ == Map::<Seq<char>, i64>::empty()
                &&& state.autosave_timeouts@ == Map::<Seq<char>, i64>::empty()
            },
            result matches Err(error) ==> error == Error::NoGames && forall|name: Seq<char>|
                !available(config.deep_view(), missing.deep_view(), name),
    {
        let mut items: Vec<String> = Vec::new();
        let mut event_log: Vec<String> = Vec::new();
        let mut j: usize = 0;
        proof {
            assert(event_log.deep_view() =~= Seq::<Seq<char>>::empty());
        }
        while j < config.games.len()
            invariant
                j <= config.games@.len(),
                sorted_names(items.deep_view()),
                items.deep_view().no_duplicates(),
                forall|name: Seq<char>|
                    items.deep_view().contains(name) <==> !missing.deep_view().contains(name)
                        && exists|i: int| 0 <= i < j && (#[trigger] config.games@[i]).name@ == name,
                event_log.deep_view() == missing_lines(config.games@, missing.deep_view(), j as int),
            decreases config.games@.len() - j,
        {
            let game = &config.games[j];
            let ghost key = game.name@;
            let ghost before = items.deep_view();
            let ghost log_before = event_log.deep_view();
            let seen = seen_before(&config.games, j);
            if !seen {
                if contains_name(missing, &game.name) {
                    let mut line = String::from_str("Cannot find savegame location for game ");
                    line.append(game.name.as_str());
                    line.append(": \"");
                    line.append(game.config.savegame_location.as_str());
                    line.append("\"");
                    event_log.push(line);
                    proof {
                        assert(event_log.deep_view() =~= log_before.push(
                            missing_message(key, game.config.savegame_location@),
                        ));
                    }
                } else {
                    proof {
                        if before.contains(key) {
                            let i = choose|i: int| 0 <= i < j && (#[trigger] config.games@[i]).name@
                                == key;
                            assert(config.games@[i].name@ != config.games@[j as int].name@);
                        }
                    }
                    insert_name(&mut items, game.name.clone());
                    proof {
                        let after = items.deep_view();
                        let place = choose|place: int|
                            0 <= place <= before.len() && after == #[trigger] before.insert(
                                place,
                                key,
                            );
                        assert forall|a: int, b: int|
                            0 <= a < after.len() && 0 <= b < after.len() && a != b implies after[a]
                            != after[b] by {
                            let x = if a < place { a } else { a - 1 };
                            let y = if b < place { b } else { b - 1 };
                            if a != place {
                                assert(after[a] == before[x]);
                                assert(before.contains(before[x]));
                            }
                            if b != place {
                                assert(after[b] == before[y]);
                                assert(before.contains(before[y]));
                            }
                        }
                        assert forall|name: Seq<char>|
                            after.contains(name) <==> before.contains(name) || name == key by {
                            if after.contains(name) {
                                let a = choose|a: int| 0 <= a < after.len() && after[a] == name;
                                if a != place {
                                    let x = if a < place { a } else { a - 1 };
                                    assert(after[a] == before[x]);
                                }
                            }
                            if before.contains(name) {
                                let x = choose|x: int| 0 <= x < before.len() && before[x] == name;
                                let a = if x < place { x } else { x + 1 };
                                assert(after[a] == name);
                            }
                            if name == key {
                                assert(after[place] == name);
                            }
                        }
                    }
                }
            }
            proof {
                let after = items.deep_view();
                assert forall|name: Seq<char>|
                    after.contains(name) <==> !missing.deep_view().contains(name) && exists|i: int|
                        0 <= i < j + 1 && (#[trigger] config.games@[i]).name@ == name by {
                    if exists|i: int| 0 <= i < j + 1 && (#[trigger] config.games@[i]).name@ == name {
                        let i = choose|i: int|
                            0 <= i < j + 1 && (#[trigger] config.games@[i]).name@ == name;
                        if i == j && seen {
                            let earlier = choose|k: int|
                                0 <= k < j && (#[trigger] config.games@[k]).name@
                                    == config.games@[j as int].name@;
                            assert(config.games@[earlier].name@ == name);
                        }
                    }
                    if before.contains(name) {
                        let i = choose|i: int| 0 <= i < j && (#[trigger] config.games@[i]).name@
                            == name;
                        assert(0 <= i < j + 1);
                    }
                }
            }
            j += 1;
        }
        if items.len() == 0 {
            proof {
                assert forall|name: Seq<char>| !available(
                    config.deep_view(),
                    missing.deep_view(),
                    name,
                ) by {
                    if available(config.deep_view(), missing.deep_view(), name) {
                        configured_game_listed(config.games@, name);
                        assert(items.deep_view().contains(name));
                    }
                }
            }
            return Err(Error::NoGames);
        }
        proof {
            let names = items.deep_view();
            assert forall|name: Seq<char>| names.contains(name) <==> available(
                config.deep_view(),
                missing.deep_view(),
                name,
            ) by {
                if names.contains(name) {
                    let i = choose|i: int|
                        0 <= i < config.games@.len() && (#[trigger] config.games@[i]).name@ == name;
                    listed_game_configured(config.games@, i);
                }
                if available(config.deep_view(), missing.deep_view(), name) {
                    configured_game_listed(config.games@, name);
                }
            }
            assert forall|i: int| 0 <= i < names.len() implies config.deep_view().games.dom().contains(
                #[trigger] names[i],
            ) by {
                assert(names.contains(names[i]));
            }
        }
        let autosaves: Vec<SaveFile> = Vec::new();
        let manual_saves: Vec<SaveFile> = Vec::new();
        let state = AppState {
            config,
            games: StatefulList::with_items(items),
            autosaves: SaveList::with_items(autosaves),
            manual_saves: SaveList::with_items(manual_saves),
            event_log,
            state: UiState::Games,
            previous_states: Vec::new(),
            changes_detected: Timetable::new(),
            ignore_changes: Timetable::new(),
            autosave_timeouts: Timetable::new(),
        };
        Ok(state)
    }
}

} // verus!
