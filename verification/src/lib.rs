//! Keeps snapshots of game save directories: the selection lists, the
//! navigation state of the interface, the routing of key presses, and the
//! scheduling of automatic snapshots after changes on disk.

pub mod cli;
pub mod clock;
pub mod config;
pub mod cursor;
pub mod directories;
pub mod draw;
pub mod events;
pub mod files;
pub mod keys;
pub mod list;
pub mod saves;
pub mod start;
pub mod state;
pub mod text;
pub mod timetable;
pub mod update;
pub mod watcher;
