use game_saver::files::{
    archive_file_name, archive_shown_name, get_archive_files, save_file_of, DirectoryEntry, SaveFile,
};
use game_saver::text::{join2, join3, name_precedes, strip_suffix};

fn entry(file_name: &str, is_file: bool, modified: i64) -> DirectoryEntry {
    DirectoryEntry {
        path: format!("/backup/Foo/{}", file_name),
        file_name: file_name.to_string(),
        is_file,
        modified,
    }
}

fn save(name: &str, last_modified: i64) -> SaveFile {
    SaveFile {
        path: format!("/backup/Foo/{}.tar.zst", name),
        file_name: name.to_string(),
        last_modified,
    }
}

#[test]
fn archive_names_end_in_tar_zst() {
    assert_eq!(archive_file_name("save1"), "save1.tar.zst");
    assert_eq!(archive_file_name(""), ".tar.zst");
    assert_eq!(archive_file_name("with space.and.dots"), "with space.and.dots.tar.zst");
    assert_eq!(archive_file_name("größe"), "größe.tar.zst");
}

#[test]
fn shown_names_are_file_names_without_the_extension() {
    assert_eq!(archive_shown_name("save1.tar.zst"), Some("save1".to_string()));
    assert_eq!(archive_shown_name("a.b.tar.zst"), Some("a.b".to_string()));
    assert_eq!(archive_shown_name("a..tar.zst"), Some("a.".to_string()));
    assert_eq!(archive_shown_name("größe.tar.zst"), Some("größe".to_string()));
    assert_eq!(archive_shown_name("x.tar.zst.tar.zst"), Some("x.tar.zst".to_string()));
}

#[test]
fn other_file_names_have_no_shown_name() {
    assert_eq!(archive_shown_name(".tar.zst"), None);
    assert_eq!(archive_shown_name("tar.zst"), None);
    assert_eq!(archive_shown_name("save1.zst"), None);
    assert_eq!(archive_shown_name("save1.tar"), None);
    assert_eq!(archive_shown_name("save1.tar.gz"), None);
    assert_eq!(archive_shown_name("save1.tar.zst.bak"), None);
    assert_eq!(archive_shown_name("save1tar.zst"), None);
    assert_eq!(archive_shown_name("save1.TAR.ZST"), None);
    assert_eq!(archive_shown_name(""), None);
    assert_eq!(archive_shown_name("autosaves"), None);
}

#[test]
fn shown_name_and_file_name_stand_for_each_other() {
    for name in ["a", "save 1", "x.tar", "é"] {
        assert_eq!(archive_shown_name(&archive_file_name(name)), Some(name.to_string()));
    }
    for file_name in ["a.tar.zst", "b.c.tar.zst"] {
        let shown = archive_shown_name(file_name).unwrap();
        assert_eq!(archive_file_name(&shown), file_name);
    }
}

#[test]
fn only_files_named_like_archives_are_save_files() {
    assert_eq!(save_file_of(&entry("one.tar.zst", true, 5)), Some(save("one", 5)));
    assert_eq!(save_file_of(&entry("one.tar.zst", false, 5)), None);
    assert_eq!(save_file_of(&entry("one.txt", true, 5)), None);
    assert_eq!(save_file_of(&entry("autosaves", false, 5)), None);
}

#[test]
fn archives_are_listed_newest_first() {
    let entries = vec![
        entry("old.tar.zst", true, 10),
        entry("autosaves", false, 99),
        entry("new.tar.zst", true, 30),
        entry("notes.txt", true, 50),
        entry("middle.tar.zst", true, 20),
        entry("dir.tar.zst", false, 40),
        entry(".tar.zst", true, 60),
    ];
    assert_eq!(
        get_archive_files(&entries),
        vec![save("new", 30), save("middle", 20), save("old", 10)]
    );
}

#[test]
fn archives_of_one_age_stay_in_the_order_found() {
    let entries = vec![
        entry("b.tar.zst", true, 10),
        entry("a.tar.zst", true, 10),
        entry("c.tar.zst", true, 11),
        entry("d.tar.zst", true, 10),
        entry("e.tar.zst", true, -5),
    ];
    assert_eq!(
        get_archive_files(&entries),
        vec![save("c", 11), save("b", 10), save("a", 10), save("d", 10), save("e", -5)]
    );
}

#[test]
fn an_empty_directory_has_no_archives() {
    assert_eq!(get_archive_files(&Vec::new()), Vec::new());
    assert_eq!(get_archive_files(&vec![entry("x", true, 1)]), Vec::new());
}

#[test]
fn joining_texts() {
    assert_eq!(join2("ab", "cd"), "abcd");
    assert_eq!(join2("", ""), "");
    assert_eq!(join3("a", " - ", "b"), "a - b");
    assert_eq!(join3("", "é", ""), "é");
}

#[test]
fn stripping_a_suffix() {
    assert_eq!(strip_suffix("name.tar.zst", ".tar.zst"), Some("name".to_string()));
    assert_eq!(strip_suffix(".tar.zst", ".tar.zst"), Some(String::new()));
    assert_eq!(strip_suffix("tar.zst", ".tar.zst"), None);
    assert_eq!(strip_suffix("name.tar.zsT", ".tar.zst"), None);
    assert_eq!(strip_suffix("abc", ""), Some("abc".to_string()));
    assert_eq!(strip_suffix("", ""), Some(String::new()));
    assert_eq!(strip_suffix("äöü", "öü"), Some("ä".to_string()));
}

#[test]
fn names_are_ordered_like_strings() {
    let names = ["", "a", "A", "ab", "b", "B", "aa", "é", "z", "Foo", "Bar", "Baz", "foo", "日本"];
    for a in names {
        for b in names {
            assert_eq!(name_precedes(a, b), a <= b, "{:?} and {:?}", a, b);
        }
    }
}
