//! The scheduling of automatic saves: changes on disk are noted as they are
//! reported, a game is saved once its saves have been left alone for a
//! while, and the pauses after restores and after automatic saves are kept.

use vstd::prelude::*;
use crate::clock::{Moment, MomentView, IGNORE_WINDOW, QUIET_PERIOD};
use crate::events::{Action, ActionView, EventResult, Outcome, OutcomeView, Reaction, Step};
use crate::config::{Config, ConfigView};
use crate::state::{AppState, AppView};
use crate::text::{join2, join3};
use crate::timetable::Timetable;

verus! {

/// The report that saves of a game changed on disk.
#[derive(Debug, PartialEq, Eq)]
pub struct Update {
    pub game_name: String,
    /// The paths that changed.
    pub locations: Vec<String>,
    /// When the change was seen, in milliseconds since the Unix epoch.
    pub time: i64,
}

/// The ghost value of an [`Update`].
pub struct UpdateView {
    pub game_name: Seq<char>,
    pub locations: Seq<Seq<char>>,
    pub time: i64,
}

impl DeepView for Update {
    type V = UpdateView;

    open spec fn deep_view(&self) -> UpdateView {
        UpdateView {
            game_name: self.game_name@,
            locations: self.locations.deep_view(),
            time: self.time,
        }
    }
}

/// The receiving end of a channel, as `crossbeam_channel` defines it.
#[verifier::external_type_specification]
#[verifier::external_body]
#[verifier::reject_recursive_types(T)]
pub struct ExReceiver<T>(crossbeam_channel::Receiver<T>);

/// The log entry for an automatic save.
pub open spec fn autosaved_message(game: Seq<char>) -> Seq<char> {
    "Autosave created for "@ + game
}

/// The log entry for an automatic save that failed.
pub open spec fn autosave_failure_message(game: Seq<char>, reason: Seq<char>) -> Seq<char> {
    "Failed to autosave "@ + game + ": "@ + reason
}

/// For how long a time noted for `name` counts, in milliseconds: the pause
/// after an automatic save of that game where `pause` is set, else the
/// window after a restore.
pub open spec fn window(config: ConfigView, pause: bool, name: Seq<char>) -> int {
    if pause {
        config.cooldown_millis(name)
    } else {
        IGNORE_WINDOW as int
    }
}

/// The entries of `table` whose time still counts at `now`.
pub open spec fn unexpired(
    table: Map<Seq<char>, i64>,
    now: i64,
    config: ConfigView,
    pause: bool,
) -> Map<Seq<char>, i64> {
    Map::new(
        |name: Seq<char>| table.dom().contains(name) && now - table[name] <= window(config, pause, name),
        |name: Seq<char>| table[name],
    )
}

impl AppView {
    /// Whether a change of `game` seen at `time` falls into the window after
    /// a restore of that game, in which changes are overlooked.
    pub open spec fn ignoring(self, game: Seq<char>, time: i64) -> bool {
        self.ignore_changes.dom().contains(game) && time - self.ignore_changes[game]
            <= IGNORE_WINDOW
    }

    /// Whether at `now` the game is in the pause after its last automatic
    /// save.
    pub open spec fn cooling(self, game: Seq<char>, now: i64) -> bool {
        self.autosave_timeouts.dom().contains(game) && now - self.autosave_timeouts[game]
            <= self.config.cooldown_millis(game)
    }

    /// The state after the report of a change of `game` seen at `time`: the
    /// time is noted for the game, in place of an earlier one, unless no
    /// automatic saves are made for it or the change is overlooked.
    pub open spec fn receive_update(self, game: Seq<char>, time: i64) -> AppView {
        if !self.config.has_autosaves(game) || self.ignoring(game, time) {
            self
        } else {
            AppView { changes_detected: self.changes_detected.insert(game, time), ..self }
        }
    }

    /// The state after the reports `updates`, taken in their order.
    pub open spec fn receive_updates(self, updates: Seq<UpdateView>) -> AppView
        decreases updates.len(),
    {
        if updates.len() == 0 {
            self
        } else {
            self.receive_updates(updates.drop_last()).receive_update(
                updates.last().game_name,
                updates.last().time,
            )
        }
    }

    /// Whether at `now` an automatic save of `game` is due: a change is
    /// noted for it, the quiet period since that change is over, and the
    /// game is not in the pause after its last automatic save.
    pub open spec fn due(self, game: Seq<char>, now: i64) -> bool {
        &&& self.changes_detected.dom().contains(game)
        &&& self.changes_detected[game] + QUIET_PERIOD <= now
        &&& !self.cooling(game, now)
    }

    /// The state after the windows after restores that are over at `now`
    /// were dropped.
    pub open spec fn remove_ignored_changes(self, now: i64) -> AppView {
        AppView {
            ignore_changes: unexpired(self.ignore_changes, now, self.config, false),
            ..self
        }
    }

    /// The state after the pauses after automatic saves that are over at
    /// `now` were dropped.
    pub open spec fn remove_autosave_timeouts(self, now: i64) -> AppView {
        AppView {
            autosave_timeouts: unexpired(self.autosave_timeouts, now, self.config, true),
            ..self
        }
    }

    /// The step after an automatic save of `game` was tried at `now`. A
    /// failure is logged and changes nothing else. After a save the change
    /// noted for the game is dropped, the time is noted where the game has a
    /// pause after automatic saves, the save is logged, and a new listing is
    /// asked for if the game is the selected one.
    pub open spec fn autosaved(self, game: Seq<char>, outcome: OutcomeView, now: MomentView) -> Step {
        match outcome {
            OutcomeView::Failed { reason } => Step {
                app: self.log(now.clock, autosave_failure_message(game, reason)),
                result: EventResult::Redraw,
                action: ActionView::Nothing,
            },
            _ => Step {
                app: AppView {
                    changes_detected: self.changes_detected.remove(game),
                    autosave_timeouts: if self.config.cooldown_millis(game) > 0 {
                        self.autosave_timeouts.insert(game, now.millis)
                    } else {
                        self.autosave_timeouts
                    },
                    ..self.log(now.clock, autosaved_message(game))
                },
                result: EventResult::Redraw,
                action: if game == self.selected_game() {
                    ActionView::Reload { game }
                } else {
                    ActionView::Nothing
                },
            },
        }
    }

    /// The state after one round of the scheduler at `now` in which the
    /// reports `updates` had come in: the reports are taken, then the
    /// windows and pauses that are over are dropped.
    pub open spec fn handle_updates(self, updates: Seq<UpdateView>, now: i64) -> AppView {
        self.receive_updates(updates).remove_ignored_changes(now).remove_autosave_timeouts(now)
    }
}

/// Everything that waits on the channel at the moment, in the order in which
/// it was sent.
///
/// Trusted: `crossbeam_channel::Receiver::try_iter`, which hands out the
/// messages that are there without waiting for more. Nothing is claimed of
/// what they are.
#[verifier::external_body]
fn drain(receiver: &crossbeam_channel::Receiver<Update>) -> Vec<Update> {
    receiver.try_iter().collect()
}

/// Takes the reports `updates` in their order; see
/// [`AppView::receive_update`].
pub fn apply_updates(state: &mut AppState, updates: &Vec<Update>)
    ensures
        final(state).deep_view() == old(state).deep_view().receive_updates(updates.deep_view()),
        old(state).wf() ==> final(state).wf(),
{
    let mut i: usize = 0;
    while i < updates.len()
        invariant
            i <= updates@.len(),
            old(state).wf() ==> state.wf(),
            state.deep_view() == old(state).deep_view().receive_updates(
                updates.deep_view().take(i as int),
            ),
        decreases updates@.len() - i,
    {
        let update = &updates[i];
        let ghost before = state.deep_view();
        let accepted = state.config.has_autosaves(&update.game_name) && !is_ignoring(
            state,
            &update.game_name,
            update.time,
        );
        if accepted {
            state.changes_detected.insert(update.game_name.clone(), update.time);
        }
        proof {
            let taken = updates.deep_view().take(i + 1);
            assert(taken.drop_last() =~= updates.deep_view().take(i as int));
            assert(taken.last() == update.deep_view());
            assert(state.deep_view() == before.receive_update(update.game_name@, update.time));
        }
        i += 1;
    }
    proof {
        assert(updates.deep_view().take(updates@.len() as int) =~= updates.deep_view());
    }
}

/// Whether a change of `game` seen at `time` is overlooked; see
/// [`AppView::ignoring`].
fn is_ignoring(state: &AppState, game: &String, time: i64) -> (yes: bool)
    ensures
        yes == state.deep_view().ignoring(game@, time),
{
    match state.ignore_changes.get(game) {
        Some(restored) => time as i128 - restored as i128 <= IGNORE_WINDOW as i128,
        None => false,
    }
}

/// Takes the reports that wait on `receiver`. Whatever they are, the state
/// afterwards is that of [`AppView::receive_updates`] on them.
pub fn receive_updates(state: &mut AppState, receiver: &crossbeam_channel::Receiver<Update>)
    ensures
        exists|updates: Seq<UpdateView>|
            final(state).deep_view() == #[trigger] old(state).deep_view().receive_updates(updates),
        old(state).wf() ==> final(state).wf(),
{
    let updates = drain(receiver);
    apply_updates(state, &updates);
}

/// The pause after an automatic save of `game`, in milliseconds.
fn cooldown_of(state: &AppState, game: &String) -> (millis: i128)
    ensures
        millis == state.deep_view().config.cooldown_millis(game@),
{
    match state.config.game(game) {
        Some(config) => config.autosave_timeout as i128 * 1000,
        None => 0,
    }
}

/// Whether the game is in the pause after its last automatic save; see
/// [`AppView::cooling`].
fn is_cooling(state: &AppState, game: &String, now: i64) -> (yes: bool)
    ensures
        yes == state.deep_view().cooling(game@, now),
{
    match state.autosave_timeouts.get(game) {
        Some(saved) => now as i128 - saved as i128 <= cooldown_of(state, game),
        None => false,
    }
}

/// Whether an automatic save of `game` is due; see [`AppView::due`].
pub fn is_due(state: &AppState, game: &String, now: &Moment) -> (yes: bool)
    ensures
        yes == state.deep_view().due(game@, now.millis),
{
    match state.changes_detected.get(game) {
        Some(changed) => changed as i128 + QUIET_PERIOD as i128 <= now.millis as i128
            && !is_cooling(state, game, now.millis),
        None => false,
    }
}

/// The games of which an automatic save is due at `now`, each once, in no
/// particular order; see [`AppView::due`]. The saving itself is the caller's
/// part, who reports each save through [`autosaved`].
pub fn save_games(state: &AppState, now: &Moment) -> (games: Vec<String>)
    ensures
        games.deep_view().no_duplicates(),
        forall|game: Seq<char>|
            games.deep_view().contains(game) <==> state.deep_view().due(game, now.millis),
{
    let names = state.changes_detected.keys();
    let mut games: Vec<String> = Vec::new();
    let ghost mut sources: Seq<int> = Seq::empty();
    let mut i: usize = 0;
    while i < names.len()
        invariant
            i <= names@.len(),
            names.deep_view().no_duplicates(),
            sources.len() == games@.len(),
            forall|r: int|
                0 <= r < sources.len() ==> 0 <= #[trigger] sources[r] < i && games@[r]@
                    == names@[sources[r]]@ && state.deep_view().due(games@[r]@, now.millis),
            forall|r: int, s: int| 0 <= r < s < sources.len() ==> sources[r] < sources[s],
            forall|j: int|
                0 <= j < i && state.deep_view().due((#[trigger] names@[j])@, now.millis)
                    ==> exists|r: int| 0 <= r < games@.len() && #[trigger] games@[r]@ == names@[j]@,
        decreases names@.len() - i,
    {
        if is_due(state, &names[i], now) {
            let ghost before = games@;
            games.push(names[i].clone());
            proof {
                sources = sources.push(i as int);
                assert forall|j: int|
                    0 <= j < i + 1 && state.deep_view().due((#[trigger] names@[j])@, now.millis)
                    implies exists|r: int| 0 <= r < games@.len() && #[trigger] games@[r]@
                    == names@[j]@ by {
                    if j < i {
                        let r = choose|r: int| 0 <= r < before.len() && #[trigger] before[r]@
                            == names@[j]@;
                        assert(games@[r]@ == names@[j]@);
                    } else {
                        assert(games@[games@.len() - 1]@ == names@[j]@);
                    }
                }
            }
        }
        i += 1;
    }
    proof {
        let found = games.deep_view();
        let all = names.deep_view();
        assert forall|r: int, s: int| 0 <= r < found.len() && 0 <= s < found.len() && r != s
            implies found[r] != found[s] by {
            assert(found[r] == all[sources[r]]);
            assert(found[s] == all[sources[s]]);
            if r < s {
                assert(sources[r] < sources[s]);
            } else {
                assert(sources[s] < sources[r]);
            }
        }
        assert forall|game: Seq<char>| found.contains(game) <==> state.deep_view().due(
            game,
            now.millis,
        ) by {
            if found.contains(game) {
                let r = choose|r: int| 0 <= r < found.len() && found[r] == game;
                assert(games@[r]@ == game);
                assert(0 <= sources[r]);
            }
            if state.deep_view().due(game, now.millis) {
                assert(all.to_set().contains(game));
                let j = choose|j: int| 0 <= j < all.len() && all[j] == game;
                assert(names@[j]@ == game);
                let r = choose|r: int| 0 <= r < games@.len() && #[trigger] games@[r]@ == names@[j]@;
                assert(found[r] == game);
            }
        }
    }
    games
}

/// Whether one of the first `count` of `names` is `name`.
spec fn among_first(names: Seq<Seq<char>>, count: int, name: Seq<char>) -> bool {
    exists|j: int| 0 <= j < count && #[trigger] names[j] == name
}

/// Drops the entries of `table` whose time no longer counts at `now`; see
/// [`unexpired`].
fn expire(table: &mut Timetable, config: &Config, now: i64, pause: bool)
    ensures
        final(table)@ == unexpired(old(table)@, now, config.deep_view(), pause),
{
    let names = table.keys();
    let ghost all = names.deep_view();
    let ghost start = table@;
    let ghost settings = config.deep_view();
    let mut i: usize = 0;
    while i < names.len()
        invariant
            i <= names@.len(),
            all == names.deep_view(),
            settings == config.deep_view(),
            all.no_duplicates(),
            all.to_set() == start.dom(),
            forall|name: Seq<char>| #[trigger]
                table@.dom().contains(name) <==> start.dom().contains(name) && !(among_first(
                    all,
                    i as int,
                    name,
                ) && now - start[name] > window(settings, pause, name)),
            forall|name: Seq<char>| #[trigger]
                table@.dom().contains(name) ==> table@[name] == start[name],
        decreases names@.len() - i,
    {
        let name = &names[i];
        let ghost key = name@;
        let ghost before = table@;
        proof {
            assert(all[i as int] == key);
            assert(all.to_set().contains(key));
            if among_first(all, i as int, key) {
                let j = choose|j: int| 0 <= j < i && #[trigger] all[j] == key;
                assert(all[j] == all[i as int]);
            }
            assert(before.dom().contains(key));
        }
        let limit: i128 = if pause {
            match config.game(name) {
                Some(game) => game.autosave_timeout as i128 * 1000,
                None => 0,
            }
        } else {
            IGNORE_WINDOW as i128
        };
        let noted = table.get(name);
        let over = match noted {
            Some(time) => now as i128 - time as i128 > limit,
            None => false,
        };
        if over {
            table.remove(name);
        }
        proof {
            assert forall|name: Seq<char>| #[trigger]
                table@.dom().contains(name) <==> start.dom().contains(name) && !(among_first(
                    all,
                    i + 1,
                    name,
                ) && now - start[name] > window(settings, pause, name)) by {
                if name == key {
                    assert(among_first(all, i + 1, name));
                } else {
                    if among_first(all, i + 1, name) {
                        let j = choose|j: int| 0 <= j < i + 1 && #[trigger] all[j] == name;
                        assert(j < i);
                        assert(among_first(all, i as int, name));
                    }
                    if among_first(all, i as int, name) {
                        let j = choose|j: int| 0 <= j < i && #[trigger] all[j] == name;
                        assert(among_first(all, i + 1, name));
                    }
                    assert(table@.dom().contains(name) == before.dom().contains(name));
                }
            }
        }
        i += 1;
    }
    proof {
        let kept = unexpired(start, now, settings, pause);
        assert forall|name: Seq<char>| #[trigger] table@.dom().contains(name) == kept.dom().contains(name) by {
            if start.dom().contains(name) {
                assert(all.to_set().contains(name));
                let j = choose|j: int| 0 <= j < all.len() && all[j] == name;
                assert(among_first(all, i as int, name));
            }
        }
        assert(table@ =~= kept);
    }
}

/// Drops the windows after restores that are over at `now`; see
/// [`AppView::remove_ignored_changes`].
pub fn remove_ignored_changes(state: &mut AppState, now: &Moment)
    ensures
        final(state).deep_view() == old(state).deep_view().remove_ignored_changes(now.millis),
        old(state).wf() ==> final(state).wf(),
{
    expire(&mut state.ignore_changes, &state.config, now.millis, false);
}

/// Drops the pauses after automatic saves that are over at `now`; see
/// [`AppView::remove_autosave_timeouts`].
pub fn remove_autosave_timeouts(state: &mut AppState, now: &Moment)
    ensures
        final(state).deep_view() == old(state).deep_view().remove_autosave_timeouts(now.millis),
        old(state).wf() ==> final(state).wf(),
{
    expire(&mut state.autosave_timeouts, &state.config, now.millis, true);
}

/// Takes note of how the automatic save of `game` went; see
/// [`AppView::autosaved`].
pub fn autosaved(state: &mut AppState, game: &String, outcome: Outcome, now: &Moment) -> (reaction:
    Reaction)
    requires
        old(state).wf(),
    ensures
        old(state).deep_view().autosaved(game@, outcome.deep_view(), now.deep_view()) == (Step {
            app: final(state).deep_view(),
            result: reaction.result,
            action: reaction.action.deep_view(),
        }),
        final(state).wf(),
{
    match outcome {
        Outcome::Failed { reason } => {
            let mut text = join3("Failed to autosave ", game.as_str(), ": ");
            text.append(reason.as_str());
            state.log(now, text.as_str());
            Reaction { result: EventResult::Redraw, action: Action::Nothing }
        },
        _ => {
            let text = join2("Autosave created for ", game.as_str());
            let pause = cooldown_of(state, game);
            state.log(now, text.as_str());
            state.changes_detected.remove(game);
            if pause > 0 {
                state.autosave_timeouts.insert(game.clone(), now.millis);
            }
            let selected = state.get_selected_game();
            if selected == *game {
                Reaction { result: EventResult::Redraw, action: Action::Reload { game: selected } }
            } else {
                Reaction { result: EventResult::Redraw, action: Action::Nothing }
            }
        },
    }
}

/// One round of the scheduler at `now` on the reports `updates`: the reports
/// are taken, the games whose automatic save is due are found, and the
/// windows and pauses that are over are dropped; see
/// [`AppView::handle_updates`]. The games returned are those due after the
/// reports were taken, each once.
pub fn handle_given_updates(state: &mut AppState, updates: &Vec<Update>, now: &Moment) -> (games: Vec<
    String,
>)
    ensures
        final(state).deep_view() == old(state).deep_view().handle_updates(
            updates.deep_view(),
            now.millis,
        ),
        games.deep_view().no_duplicates(),
        forall|game: Seq<char>|
            games.deep_view().contains(game) <==> old(state).deep_view().receive_updates(
                updates.deep_view(),
            ).due(game, now.millis),
        old(state).wf() ==> final(state).wf(),
{
    apply_updates(state, updates);
    let games = save_games(state, now);
    remove_ignored_changes(state, now);
    remove_autosave_timeouts(state, now);
    games
}

/// One round of the scheduler at `now` on the reports that wait on
/// `receiver`. Whatever they are, state and result are those of
/// [`handle_given_updates`] on them.
pub fn handle_updates(
    state: &mut AppState,
    receiver: &crossbeam_channel::Receiver<Update>,
    now: &Moment,
) -> (games: Vec<String>)
    ensures
        exists|updates: Seq<UpdateView>|
            {
                &&& final(state).deep_view() == #[trigger] old(state).deep_view().handle_updates(
                    updates,
                    now.millis,
                )
                &&& forall|game: Seq<char>|
                    games.deep_view().contains(game) <==> old(state).deep_view().receive_updates(
                        updates,
                    ).due(game, now.millis)
            },
        games.deep_view().no_duplicates(),
        old(state).wf() ==> final(state).wf(),
{
    let updates = drain(receiver);
    let games = handle_given_updates(state, &updates, now);
    proof {
        assert(state.deep_view() == old(state).deep_view().handle_updates(
            updates.deep_view(),
            now.millis,
        ));
    }
    games
}

/// Until the quiet period after a reported change is over, no automatic save
/// of the game is due; once it is over one is due, unless the game is in the
/// pause after its last automatic save.
pub proof fn save_waits_for_quiet_period(app: AppView, game: Seq<char>, time: i64, now: i64)
    requires
        app.config.has_autosaves(game),
        !app.ignoring(game, time),
    ensures
        now < time + QUIET_PERIOD ==> !app.receive_update(game, time).due(game, now),
        now >= time + QUIET_PERIOD && !app.cooling(game, now) ==> app.receive_update(game, time).due(
            game,
            now,
        ),
{
}

/// A later report of a change starts the quiet period anew: what counts is
/// the time of the last report alone.
pub proof fn later_change_restarts_quiet_period(
    app: AppView,
    game: Seq<char>,
    first: i64,
    second: i64,
    now: i64,
)
    requires
        app.config.has_autosaves(game),
        !app.ignoring(game, first),
        !app.ignoring(game, second),
    ensures
        app.receive_update(game, first).receive_update(game, second).changes_detected[game]
            == second,
        app.receive_update(game, first).receive_update(game, second).due(game, now) <==> second
            + QUIET_PERIOD <= now && !app.cooling(game, now),
{
}

/// After a restore of a game noted at `restored`, a change of that game seen
/// within the window after it leaves no trace, and one seen after the window
/// is noted like any other.
pub proof fn changes_after_restore(app: AppView, game: Seq<char>, restored: i64, time: i64)
    ensures
        ({
            let after = AppView { ignore_changes: app.ignore_changes.insert(game, restored), ..app };
            &&& time - restored <= IGNORE_WINDOW ==> after.receive_update(game, time) == after
            &&& time - restored > IGNORE_WINDOW && app.config.has_autosaves(game)
                ==> after.receive_update(game, time).changes_detected == app.changes_detected.insert(
                game,
                time,
            )
        }),
{
}

/// What is decided for one game does not depend on what happens to another:
/// neither a report of a change of the other nor an automatic save of it
/// changes whether a save of the first is due, whether its changes are
/// overlooked, or what is noted for it.
pub proof fn games_are_independent(
    app: AppView,
    game: Seq<char>,
    other: Seq<char>,
    time: i64,
    outcome: OutcomeView,
    moment: MomentView,
    now: i64,
)
    requires
        game != other,
    ensures
        app.receive_update(other, time).due(game, now) == app.due(game, now),
        app.receive_update(other, time).ignoring(game, now) == app.ignoring(game, now),
        app.autosaved(other, outcome, moment).app.due(game, now) == app.due(game, now),
        app.autosaved(other, outcome, moment).app.ignoring(game, now) == app.ignoring(game, now),
        app.receive_update(other, time).receive_update(game, now) == app.receive_update(
            game,
            now,
        ).receive_update(other, time),
{
    let left = app.receive_update(other, time).receive_update(game, now);
    let right = app.receive_update(game, now).receive_update(other, time);
    assert(left.changes_detected =~= right.changes_detected);
}

/// Dropping what is over changes no decision from then on: whether a change
/// seen at `now` or later is overlooked, and whether a save is due at `now`
/// or later, are the same before and after.
pub proof fn expiry_changes_no_decision(app: AppView, now: i64, game: Seq<char>, later: i64)
    requires
        later >= now,
    ensures
        app.remove_ignored_changes(now).remove_autosave_timeouts(now).ignoring(game, later)
            == app.ignoring(game, later),
        app.remove_ignored_changes(now).remove_autosave_timeouts(now).due(game, later) == app.due(
            game,
            later,
        ),
{
}

/// After an automatic save the change noted for the game is gone, so that no
/// further save is due until another change is reported.
pub proof fn saved_game_is_not_due(app: AppView, game: Seq<char>, moment: MomentView, now: i64)
    ensures
        !app.autosaved(game, OutcomeView::Done, moment).app.due(game, now),
{
}

/// The scheduler takes no line out of the event log and changes none, and
/// leaves alone what the interface shows: the lists, the active state and
/// the states to return to.
pub proof fn scheduler_keeps_the_interface(
    app: AppView,
    updates: Seq<UpdateView>,
    game: Seq<char>,
    outcome: OutcomeView,
    moment: MomentView,
    now: i64,
)
    ensures
        app.handle_updates(updates, now).event_log == app.event_log,
        app.handle_updates(updates, now).state == app.state,
        app.handle_updates(updates, now).previous_states == app.previous_states,
        app.handle_updates(updates, now).games == app.games,
        app.handle_updates(updates, now).autosaves == app.autosaves,
        app.handle_updates(updates, now).manual_saves == app.manual_saves,
        app.event_log.is_prefix_of(app.autosaved(game, outcome, moment).app.event_log),
        app.autosaved(game, outcome, moment).app.state == app.state,
        app.autosaved(game, outcome, moment).app.previous_states == app.previous_states,
    decreases updates.len(),
{
    if updates.len() > 0 {
        scheduler_keeps_the_interface(app, updates.drop_last(), game, outcome, moment, now);
    }
    assert forall|line: Seq<char>| app.event_log.is_prefix_of(
        #[trigger] app.event_log.push(line),
    ) by {
        assert(app.event_log.push(line).subrange(0, app.event_log.len() as int) =~= app.event_log);
    }
}

} // verus!
