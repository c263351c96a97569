//! Save files: archives of a game's save directory, and how the entries of a
//! backup directory are turned into the list of them.

use vstd::prelude::*;
use crate::text::{ends_with, join2, strip_suffix};

verus! {

/// One archive in a backup directory.
#[derive(Debug, PartialEq, Eq)]
pub struct SaveFile {
    /// Where the archive lies.
    pub path: String,
    /// The name under which it is shown: the archive's file name without its
    /// extension.
    pub file_name: String,
    /// When it was last written, in seconds since the Unix epoch.
    pub last_modified: i64,
}

/// The ghost value of a [`SaveFile`].
pub struct SaveFileView {
    pub path: Seq<char>,
    pub file_name: Seq<char>,
    pub last_modified: i64,
}

impl DeepView for SaveFile {
    type V = SaveFileView;

    open spec fn deep_view(&self) -> SaveFileView {
        SaveFileView {
            path: self.path@,
            file_name: self.file_name@,
            last_modified: self.last_modified,
        }
    }
}

impl Clone for SaveFile {
    fn clone(&self) -> (copy: SaveFile)
        ensures
            copy == *self,
    {
        SaveFile {
            path: self.path.clone(),
            file_name: self.file_name.clone(),
            last_modified: self.last_modified,
        }
    }
}

/// The extension of an archive's file name.
pub open spec fn archive_extension() -> Seq<char> {
    ".tar.zst"@
}

/// The file name of the archive that is shown as `name`.
pub open spec fn archive_name(name: Seq<char>) -> Seq<char> {
    name + archive_extension()
}

/// The name under which the file `file_name` is shown, if it is named like an
/// archive: a non-empty name followed by the extension.
pub open spec fn shown_name(file_name: Seq<char>) -> Option<Seq<char>> {
    if ends_with(file_name, archive_extension()) && file_name.len() > archive_extension().len() {
        Some(file_name.subrange(0, file_name.len() - archive_extension().len()))
    } else {
        None
    }
}

/// A shown name and the file name made from it stand for each other.
pub proof fn shown_name_round_trip(name: Seq<char>)
    requires
        name.len() > 0,
    ensures
        shown_name(archive_name(name)) == Some(name),
{
    let file_name = archive_name(name);
    let ext = archive_extension();
    assert(file_name.subrange(file_name.len() - ext.len(), file_name.len() as int) =~= ext);
    assert(file_name.subrange(0, file_name.len() - ext.len()) =~= name);
}

/// Whatever is shown for a file name gives that file name back.
pub proof fn archive_name_round_trip(file_name: Seq<char>)
    requires
        shown_name(file_name) is Some,
    ensures
        archive_name(shown_name(file_name)->0) == file_name,
        shown_name(file_name)->0.len() > 0,
{
    let ext = archive_extension();
    assert(file_name =~= file_name.subrange(0, file_name.len() - ext.len()) + file_name.subrange(
        file_name.len() - ext.len(),
        file_name.len() as int,
    ));
}

/// The file name of the archive that is shown as `name`.
pub fn archive_file_name(name: &str) -> (file_name: String)
    ensures
        file_name@ == archive_name(name@),
{
    join2(name, ".tar.zst")
}

/// The name under which a file is shown, or `None` for a file that is not
/// named like an archive.
pub fn archive_shown_name(file_name: &str) -> (name: Option<String>)
    ensures
        name.deep_view() == shown_name(file_name@),
{
    match strip_suffix(file_name, ".tar.zst") {
        Some(stem) => {
            proof {
                let ext = archive_extension();
                assert(file_name@.subrange(0, file_name@.len() - ext.len()) =~= stem@);
            }
            if stem.as_str().unicode_len() > 0 {
                Some(stem)
            } else {
                None
            }
        },
        None => None,
    }
}

/// What was found in a backup directory: one entry, as it was read.
#[derive(Debug, PartialEq, Eq)]
pub struct DirectoryEntry {
    /// Where the entry lies.
    pub path: String,
    /// The last part of the path.
    pub file_name: String,
    /// Whether it is a file, and not a directory or anything else.
    pub is_file: bool,
    /// When it was last written, in seconds since the Unix epoch.
    pub modified: i64,
}

/// The ghost value of a [`DirectoryEntry`].
pub struct DirectoryEntryView {
    pub path: Seq<char>,
    pub file_name: Seq<char>,
    pub is_file: bool,
    pub modified: i64,
}

impl DeepView for DirectoryEntry {
    type V = DirectoryEntryView;

    open spec fn deep_view(&self) -> DirectoryEntryView {
        DirectoryEntryView {
            path: self.path@,
            file_name: self.file_name@,
            is_file: self.is_file,
            modified: self.modified,
        }
    }
}

/// The save file that an entry stands for, if it is a file named like an
/// archive.
pub open spec fn as_save_file(entry: DirectoryEntryView) -> Option<SaveFileView> {
    if entry.is_file && shown_name(entry.file_name) is Some {
        Some(
            SaveFileView {
                path: entry.path,
                file_name: shown_name(entry.file_name)->0,
                last_modified: entry.modified,
            },
        )
    } else {
        None
    }
}

/// The save files among the entries, in the order of the entries.
pub open spec fn archives_among(entries: Seq<DirectoryEntryView>) -> Seq<SaveFileView>
    decreases entries.len(),
{
    if entries.len() == 0 {
        Seq::empty()
    } else {
        let before = archives_among(entries.drop_last());
        match as_save_file(entries.last()) {
            Some(save) => before.push(save),
            None => before,
        }
    }
}

/// Whether the saves stand newest first.
pub open spec fn newest_first(saves: Seq<SaveFileView>) -> bool {
    forall|i: int, j: int|
        0 <= i <= j < saves.len() ==> (#[trigger] saves[i]).last_modified >= (
        #[trigger] saves[j]).last_modified
}

/// The save file that `entry` stands for; see [`as_save_file`].
pub fn save_file_of(entry: &DirectoryEntry) -> (save: Option<SaveFile>)
    ensures
        save.deep_view() == as_save_file(entry.deep_view()),
{
    if !entry.is_file {
        return None;
    }
    match archive_shown_name(entry.file_name.as_str()) {
        Some(file_name) => Some(
            SaveFile { path: entry.path.clone(), file_name, last_modified: entry.modified },
        ),
        None => None,
    }
}

/// Where a save last written at `modified` belongs among `saves`, which
/// stand newest first: behind all that are at least as new.
pub open spec fn place_by_age(saves: Seq<SaveFileView>, modified: i64) -> int
    decreases saves.len(),
{
    if saves.len() == 0 || saves[0].last_modified < modified {
        0
    } else {
        1 + place_by_age(saves.drop_first(), modified)
    }
}

/// The save files among the entries, newest first; those of the same age
/// stand in the order of the entries.
pub open spec fn archives_newest_first(entries: Seq<DirectoryEntryView>) -> Seq<SaveFileView>
    decreases entries.len(),
{
    if entries.len() == 0 {
        Seq::empty()
    } else {
        let before = archives_newest_first(entries.drop_last());
        match as_save_file(entries.last()) {
            Some(save) => before.insert(place_by_age(before, save.last_modified), save),
            None => before,
        }
    }
}

/// The place of a save is the first at which an older one stands, or the
/// end.
proof fn place_by_age_is(saves: Seq<SaveFileView>, modified: i64, place: int)
    requires
        0 <= place <= saves.len(),
        forall|j: int| 0 <= j < place ==> (#[trigger] saves[j]).last_modified >= modified,
        place < saves.len() ==> saves[place].last_modified < modified,
    ensures
        place_by_age(saves, modified) == place,
    decreases saves.len(),
{
    if place > 0 {
        let rest = saves.drop_first();
        assert(saves[0].last_modified >= modified);
        assert forall|j: int| 0 <= j < place - 1 implies (#[trigger] rest[j]).last_modified
            >= modified by {
            assert(rest[j] == saves[j + 1]);
        }
        if place - 1 < rest.len() {
            assert(rest[place - 1] == saves[place]);
        }
        place_by_age_is(rest, modified, place - 1);
    }
}

/// Puts `save` into the list `files`, which stands newest first, behind the
/// saves that are at least as new.
fn insert_by_age(files: &mut Vec<SaveFile>, save: SaveFile)
    requires
        newest_first(old(files).deep_view()),
    ensures
        newest_first(final(files).deep_view()),
        final(files).deep_view() == old(files).deep_view().insert(
            place_by_age(old(files).deep_view(), save.last_modified),
            save.deep_view(),
        ),
        final(files).deep_view().to_multiset() == old(files).deep_view().to_multiset().insert(
            save.deep_view(),
        ),
{
    let mut place: usize = 0;
    while place < files.len() && files[place].last_modified >= save.last_modified
        invariant
            place <= files@.len(),
            forall|j: int| 0 <= j < place ==> (#[trigger] files@[j]).last_modified >= save.last_modified,
        decreases files@.len() - place,
    {
        place += 1;
    }
    let ghost before = files.deep_view();
    let ghost item = save.deep_view();
    proof {
        assert forall|j: int| 0 <= j < place implies (#[trigger] before[j]).last_modified
            >= save.last_modified by {
            assert(before[j] == files@[j].deep_view());
        }
        if place < files@.len() {
            assert(before[place as int] == files@[place as int].deep_view());
        }
        place_by_age_is(before, save.last_modified, place as int);
    }
    files.insert(place, save);
    proof {
        let after = files.deep_view();
        assert(after =~= before.insert(place as int, item));
        assert forall|i: int, j: int| 0 <= i <= j < after.len() implies (
        #[trigger] after[i]).last_modified >= (#[trigger] after[j]).last_modified by {
            let a = if i < place { i } else { i - 1 };
            let b = if j < place { j } else { j - 1 };
            if i != place {
                assert(after[i] == before[a]);
            }
            if j != place {
                assert(after[j] == before[b]);
            }
            if i != place && j != place {
                assert(before[a].last_modified >= before[b].last_modified);
            } else if i == place && j != place {
                assert(before[place as int].last_modified >= before[b].last_modified);
            }
        }
        assert(after.remove(place as int) =~= before);
        vstd::seq_lib::to_multiset_remove(after, place as int);
        assert(after.to_multiset().count(item) > 0) by {
            after.to_multiset_ensures();
            assert(after[place as int] == item);
            assert(after.contains(item));
        }
        assert(after.to_multiset() =~= before.to_multiset().insert(item));
    }
}

/// The save files of a backup directory, newest first: of the entries found
/// there, those that are files named like an archive, each once, ordered by
/// the time they were last written, those of the same age in the order in
/// which they were found. Entries that are not are left out without a word.
pub fn get_archive_files(entries: &Vec<DirectoryEntry>) -> (files: Vec<SaveFile>)
    ensures
        files.deep_view() == archives_newest_first(entries.deep_view()),
        newest_first(files.deep_view()),
        files.deep_view().to_multiset() == archives_among(entries.deep_view()).to_multiset(),
{
    let mut files: Vec<SaveFile> = Vec::new();
    let mut i: usize = 0;
    proof {
        assert(files.deep_view() =~= Seq::<SaveFileView>::empty());
        assert(entries.deep_view().take(0) =~= Seq::<DirectoryEntryView>::empty());
    }
    while i < entries.len()
        invariant
            i <= entries@.len(),
            newest_first(files.deep_view()),
            files.deep_view() == archives_newest_first(entries.deep_view().take(i as int)),
            files.deep_view().to_multiset() == archives_among(
                entries.deep_view().take(i as int),
            ).to_multiset(),
        decreases entries@.len() - i,
    {
        proof {
            let taken = entries.deep_view().take(i + 1);
            assert(taken.drop_last() =~= entries.deep_view().take(i as int));
            assert(taken.last() == entries@[i as int].deep_view());
            vstd::seq_lib::to_multiset_build(
                archives_among(entries.deep_view().take(i as int)),
                as_save_file(entries@[i as int].deep_view())->0,
            );
        }
        match save_file_of(&entries[i]) {
            Some(save) => {
                insert_by_age(&mut files, save);
            },
            None => {},
        }
        i += 1;
    }
    proof {
        assert(entries.deep_view().take(entries@.len() as int) =~= entries.deep_view());
    }
    files
}

} // verus!
