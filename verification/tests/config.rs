use game_saver::clock::Moment;
use game_saver::config::{Config, Game, GameConfig};
use game_saver::directories::init_directories;
use game_saver::state::Error;

fn game(name: &str, location: &str, autosaves: usize, autosave_timeout: usize) -> Game {
    Game {
        name: name.to_string(),
        config: GameConfig {
            savegame_location: location.to_string(),
            autosaves,
            autosave_timeout,
            ignored_files: vec!["*.log".to_string()],
        },
    }
}

fn config() -> Config {
    Config {
        backup_directory: "/backup".to_string(),
        games: vec![
            game("Foo", "/games/foo", 3, 0),
            game("Bar", "/games/bar", 0, 0),
            game("Foo", "/games/other", 0, 7),
        ],
    }
}

fn parts(items: &[&str]) -> Vec<String> {
    items.iter().map(|item| item.to_string()).collect()
}

#[test]
fn a_game_is_found_by_its_name() {
    let config = config();
    assert_eq!(config.game(&"Bar".to_string()).map(|game| game.autosaves), Some(0));
    assert_eq!(config.game(&"bar".to_string()), None);
    assert_eq!(config.game(&"".to_string()), None);
}

#[test]
fn the_first_game_of_a_name_counts() {
    let config = config();
    let found = config.game(&"Foo".to_string()).unwrap();
    assert_eq!(found.savegame_location, "/games/foo");
    assert_eq!(found.autosaves, 3);
    assert!(config.has_autosaves(&"Foo".to_string()));
}

#[test]
fn autosaves_are_off_at_a_limit_of_zero() {
    let config = config();
    assert!(!config.has_autosaves(&"Bar".to_string()));
    assert!(!config.has_autosaves(&"Nobody".to_string()));
    assert!(config.games[0].config.has_autosaves());
    assert!(!config.games[1].config.has_autosaves());
}

#[test]
fn paths_without_a_tilde_stay_as_they_are() {
    let config = config();
    assert_eq!(config.backup_directory(), "/backup");
    assert_eq!(config.games[0].config.savegame_location(), "/games/foo");
    assert_eq!(config.save_dir("Foo"), parts(&["/backup", "Foo"]));
    assert_eq!(config.autosave_dir("Foo"), parts(&["/backup", "Foo", "autosaves"]));
    let odd = Config { backup_directory: "~user/backup".to_string(), games: Vec::new() };
    assert_eq!(odd.backup_directory(), "~user/backup");
    let inner = Config { backup_directory: "/a/~/b".to_string(), games: Vec::new() };
    assert_eq!(inner.backup_directory(), "/a/~/b");
}

#[test]
fn a_leading_tilde_becomes_the_home_directory() {
    let config = Config { backup_directory: "~/backup".to_string(), games: Vec::new() };
    let expanded = config.backup_directory();
    match dirs::home_dir() {
        Some(home) => {
            assert_eq!(expanded, format!("{}/backup", home.display()));
            assert_ne!(expanded, "~/backup");
            assert_eq!(config.save_dir("Foo"), vec![expanded.clone(), "Foo".to_string()]);
            let alone = Config { backup_directory: "~".to_string(), games: Vec::new() };
            assert_eq!(alone.backup_directory(), format!("{}", home.display()));
        }
        None => assert_eq!(expanded, "~/backup"),
    }
}

#[test]
fn directories_for_every_game() {
    let directories = init_directories(&config()).unwrap();
    assert_eq!(
        directories,
        vec![
            parts(&["/backup"]),
            parts(&["/backup", "Foo"]),
            parts(&["/backup", "Foo", "autosaves"]),
            parts(&["/backup", "Bar"]),
            parts(&["/backup", "Foo"]),
        ]
    );
    let empty = Config { backup_directory: "/b".to_string(), games: Vec::new() };
    assert_eq!(init_directories(&empty), Ok(vec![parts(&["/b"])]));
}

#[test]
fn the_example_configuration_is_refused() {
    let config = Config {
        backup_directory: "/backup".to_string(),
        games: vec![
            game("Foo", "/games/foo", 3, 0),
            game("Example", "~/some/path/to/your/save/files", 3, 0),
        ],
    };
    assert_eq!(init_directories(&config), Err(Error::ExampleConfig));
}

#[test]
fn the_present_is_read_from_the_clock() {
    let before = Moment::now();
    let after = Moment::now();
    assert!(before.millis > 1_600_000_000_000);
    assert!(before.millis <= after.millis);
    let clock: Vec<char> = before.clock.chars().collect();
    assert_eq!(clock.len(), 8);
    assert_eq!(clock[2], ':');
    assert_eq!(clock[5], ':');
    assert!(clock.iter().enumerate().all(|(i, c)| i == 2 || i == 5 || c.is_ascii_digit()));
    let stamp: Vec<char> = before.stamp.chars().collect();
    assert_eq!(stamp.len(), 19);
    assert_eq!(stamp[4], '-');
    assert_eq!(stamp[7], '-');
    assert_eq!(stamp[10], '_');
    assert_eq!(stamp[13], '-');
    assert_eq!(stamp[16], '-');
}

#[test]
fn a_moment_holds_what_it_is_given() {
    let moment = Moment::new(5, "00:00:00".to_string(), "1970-01-01_00-00-00".to_string());
    assert_eq!(moment.millis, 5);
    assert_eq!(moment.clock, "00:00:00");
    assert_eq!(moment.stamp, "1970-01-01_00-00-00");
}
