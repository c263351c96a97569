//! The configuration: where backups go, and the games whose saves are kept.

use vstd::prelude::*;

verus! {

/// The settings of one game.
#[derive(Debug, PartialEq, Eq)]
pub struct GameConfig {
    /// The directory in which the game keeps its saves.
    pub savegame_location: String,
    /// How many automatic saves are kept; 0 switches them off.
    pub autosaves: usize,
    /// How many seconds pass after an automatic save before the next one may
    /// be made; 0 for no such pause.
    pub autosave_timeout: usize,
    /// Glob patterns, relative to the save directory, of files whose changes
    /// do not count.
    pub ignored_files: Vec<String>,
}

/// The ghost value of a [`GameConfig`].
pub struct GameConfigView {
    pub savegame_location: Seq<char>,
    pub autosaves: usize,
    pub autosave_timeout: usize,
    pub ignored_files: Seq<Seq<char>>,
}

impl DeepView for GameConfig {
    type V = GameConfigView;

    open spec fn deep_view(&self) -> GameConfigView {
        GameConfigView {
            savegame_location: self.savegame_location@,
            autosaves: self.autosaves,
            autosave_timeout: self.autosave_timeout,
            ignored_files: self.ignored_files.deep_view(),
        }
    }
}

/// Whether `output` can be what the shell makes of `input` by putting the
/// home directory in place of a leading tilde: `input` itself, or, where
/// `input` is a tilde alone or a tilde before a separator, some directory
/// followed by the rest of `input`.
pub open spec fn may_expand_to(input: Seq<char>, output: Seq<char>) -> bool {
    ||| output == input
    ||| {
        &&& input.len() > 0
        &&& input[0] == '~'
        &&& (input.len() == 1 || input[1] == '/' || input[1] == '\\')
        &&& exists|home: Seq<char>| output == home + input.skip(1)
    }
}

/// The path `input` with the home directory in place of a leading tilde.
///
/// Trusted: `shellexpand::tilde`, which returns its input unless it is a
/// tilde alone or starts with a tilde and a separator, and then puts the
/// home directory, if the system names one, in place of the tilde. Which
/// directory that is depends on the system, so it is not named here.
#[verifier::external_body]
fn expand_tilde(input: &str) -> (output: String)
    ensures
        may_expand_to(input@, output@),
{
    shellexpand::tilde(input).into_owned()
}

/// The name of the directory in which a game's automatic saves lie, below
/// the directory of its manual saves.
pub open spec fn autosave_directory() -> Seq<char> {
    "autosaves"@
}

impl GameConfig {
    /// The directory in which the game keeps its saves, with the home
    /// directory in place of a leading tilde.
    pub fn savegame_location(&self) -> (path: String)
        ensures
            may_expand_to(self.savegame_location@, path@),
    {
        expand_tilde(self.savegame_location.as_str())
    }

    /// Whether automatic saves are made for this game.
    pub fn has_autosaves(&self) -> (enabled: bool)
        ensures
            enabled == (self.autosaves != 0),
    {
        self.autosaves != 0
    }
}

/// A game's name and its settings.
#[derive(Debug, PartialEq, Eq)]
pub struct Game {
    pub name: String,
    pub config: GameConfig,
}

/// The whole configuration. Where two games have the same name, the one that
/// comes first counts.
#[derive(Debug, PartialEq, Eq)]
pub struct Config {
    /// The directory under which the backups of all games are kept.
    pub backup_directory: String,
    pub games: Vec<Game>,
}

/// The ghost value of a [`Config`]: the settings of each game by its name.
pub struct ConfigView {
    pub backup_directory: Seq<char>,
    pub games: Map<Seq<char>, GameConfigView>,
}

/// The settings by name of a list of games, the first of a name counting.
pub open spec fn games_by_name(games: Seq<Game>) -> Map<Seq<char>, GameConfigView>
    decreases games.len(),
{
    if games.len() == 0 {
        Map::empty()
    } else {
        games_by_name(games.drop_first()).insert(games[0].name@, games[0].config.deep_view())
    }
}

/// The first game of a name is the one that counts.
pub proof fn first_game_counts(games: Seq<Game>, i: int)
    requires
        0 <= i < games.len(),
        forall|j: int| 0 <= j < i ==> (#[trigger] games[j]).name@ != games[i].name@,
    ensures
        games_by_name(games).dom().contains(games[i].name@),
        games_by_name(games)[games[i].name@] == games[i].config.deep_view(),
    decreases games.len(),
{
    if i > 0 {
        let rest = games.drop_first();
        assert(rest[i - 1] == games[i]);
        assert forall|j: int| 0 <= j < i - 1 implies (#[trigger] rest[j]).name@ != rest[i - 1].name@ by {
            assert(rest[j] == games[j + 1]);
        }
        first_game_counts(rest, i - 1);
        assert(games[0].name@ != games[i].name@);
    }
}

/// A name that no game has is not configured.
pub proof fn unknown_game_absent(games: Seq<Game>, name: Seq<char>)
    requires
        forall|j: int| 0 <= j < games.len() ==> (#[trigger] games[j]).name@ != name,
    ensures
        !games_by_name(games).dom().contains(name),
    decreases games.len(),
{
    if games.len() > 0 {
        let rest = games.drop_first();
        assert forall|j: int| 0 <= j < rest.len() implies (#[trigger] rest[j]).name@ != name by {
            assert(rest[j] == games[j + 1]);
        }
        unknown_game_absent(rest, name);
        assert(games[0].name@ != name);
    }
}

/// The name of every game is configured.
pub proof fn listed_game_configured(games: Seq<Game>, i: int)
    requires
        0 <= i < games.len(),
    ensures
        games_by_name(games).dom().contains(games[i].name@),
    decreases games.len(),
{
    if i > 0 {
        let rest = games.drop_first();
        assert(rest[i - 1] == games[i]);
        listed_game_configured(rest, i - 1);
    }
}

/// Every configured name is the name of one of the games.
pub proof fn configured_game_listed(games: Seq<Game>, name: Seq<char>)
    requires
        games_by_name(games).dom().contains(name),
    ensures
        exists|j: int| 0 <= j < games.len() && (#[trigger] games[j]).name@ == name,
{
    if forall|j: int| 0 <= j < games.len() ==> (#[trigger] games[j]).name@ != name {
        unknown_game_absent(games, name);
    }
}

impl DeepView for Config {
    type V = ConfigView;

    open spec fn deep_view(&self) -> ConfigView {
        ConfigView { backup_directory: self.backup_directory@, games: games_by_name(self.games@) }
    }
}

impl ConfigView {
    /// Whether automatic saves are made for the game `name`. They are not for
    /// a name that is not configured.
    pub open spec fn has_autosaves(self, name: Seq<char>) -> bool {
        self.games.dom().contains(name) && self.games[name].autosaves != 0
    }

    /// The pause after an automatic save of the game `name`, in
    /// milliseconds; 0 for a name that is not configured.
    pub open spec fn cooldown_millis(self, name: Seq<char>) -> int {
        if self.games.dom().contains(name) {
            self.games[name].autosave_timeout * 1000
        } else {
            0
        }
    }
}

impl Config {
    /// The directory under which all backups are kept, with the home
    /// directory in place of a leading tilde.
    pub fn backup_directory(&self) -> (path: String)
        ensures
            may_expand_to(self.backup_directory@, path@),
    {
        expand_tilde(self.backup_directory.as_str())
    }

    /// The directory of the manual saves of the game `name`, as the parts of
    /// its path: the backup directory, then the name.
    pub fn save_dir(&self, name: &str) -> (parts: Vec<String>)
        ensures
            parts@.len() == 2,
            may_expand_to(self.backup_directory@, parts@[0]@),
            parts@[1]@ == name@,
    {
        let mut parts: Vec<String> = Vec::new();
        parts.push(self.backup_directory());
        parts.push(String::from_str(name));
        parts
    }

    /// The directory of the automatic saves of the game `name`, as the parts
    /// of its path: those of [`Config::save_dir`], then `autosaves`.
    pub fn autosave_dir(&self, name: &str) -> (parts: Vec<String>)
        ensures
            parts@.len() == 3,
            may_expand_to(self.backup_directory@, parts@[0]@),
            parts@[1]@ == name@,
            parts@[2]@ == autosave_directory(),
    {
        let mut parts = self.save_dir(name);
        parts.push(String::from_str("autosaves"));
        parts
    }

    /// The settings of the game `name`, if it is configured.
    pub fn game(&self, name: &String) -> (found: Option<&GameConfig>)
        ensures
            found matches Some(g) ==> self.deep_view().games.dom().contains(name@) && g.deep_view()
                == self.deep_view().games[name@],
            found is None ==> !self.deep_view().games.dom().contains(name@),
    {
        let mut i: usize = 0;
        while i < self.games.len()
            invariant
                i <= self.games@.len(),
                forall|j: int| 0 <= j < i ==> (#[trigger] self.games@[j]).name@ != name@,
            decreases self.games@.len() - i,
        {
            if self.games[i].name == *name {
                proof {
                    first_game_counts(self.games@, i as int);
                }
                return Some(&self.games[i].config);
            }
            i += 1;
        }
        proof {
            unknown_game_absent(self.games@, name@);
        }
        None
    }

    /// Whether automatic saves are made for the game `name`.
    pub fn has_autosaves(&self, name: &String) -> (enabled: bool)
        ensures
            enabled == self.deep_view().has_autosaves(name@),
    {
        match self.game(name) {
            Some(game) => game.has_autosaves(),
            None => false,
        }
    }
}

} // verus!
