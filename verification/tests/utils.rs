use pman::storage::{
    delete_project_of_name, get_projects_in_path, load_project_from_path, FolderEntry,
    StorageRequest,
};
use pman::structure::project::Project;
use pman::utils::{characters, is_project_file, project_file_name, wrap, PROJECT_FILE_EXTENSION};

#[test]
fn extension_is_pman() {
    assert_eq!(PROJECT_FILE_EXTENSION, "pman");
}

#[test]
fn project_file_name_appends_dot_and_extension() {
    assert_eq!(project_file_name("Demo"), "Demo.pman");
    assert_eq!(project_file_name("v1.2"), "v1.2.pman");
    assert_eq!(project_file_name(""), ".pman");
    assert_eq!(project_file_name("my project"), "my project.pman");
}

#[test]
fn is_project_file_wants_ending_and_a_stem() {
    assert!(is_project_file("Demo.pman"));
    assert!(is_project_file("v1.2.pman"));
    assert!(is_project_file("a.pman"));
    assert!(!is_project_file(".pman"));
    assert!(!is_project_file("pman"));
    assert!(!is_project_file("Demo.pma"));
    assert!(!is_project_file("Demo.pman.bak"));
    assert!(!is_project_file("Demopman"));
    assert!(!is_project_file("Demo.PMAN"));
    assert!(!is_project_file(""));
}

#[test]
fn project_file_names_are_project_files() {
    for name in ["a", "Demo", "x.y", "ünï"] {
        assert!(is_project_file(&project_file_name(name)));
    }
}

#[test]
fn characters_are_the_chars_of_the_text() {
    assert_eq!(characters("aé b"), vec!['a', 'é', ' ', 'b']);
    assert!(characters("").is_empty());
}

#[test]
fn wrap_keeps_short_text_on_one_line() {
    assert_eq!(wrap(String::from("hello world"), 20), " hello world");
    assert_eq!(wrap(String::from("hello"), 80), " hello");
}

#[test]
fn wrap_breaks_before_the_word_that_reaches_the_limit() {
    // The limit is 10 - 4 = 6: "aaa" counts 4, "bbb" would bring the line to 8.
    assert_eq!(wrap(String::from("aaa bbb ccc"), 10), " aaa\nbbb\nccc");
    // The limit is 12 - 4 = 8: "ab" 3, "cd" 6, "ef" 9 breaks and counts 2, "gh" 5.
    assert_eq!(wrap(String::from("ab cd ef gh"), 12), " ab cd\nef gh");
}

#[test]
fn wrap_breaks_exactly_at_the_limit() {
    // The limit is 5: "abcd" counts 5, which reaches it.
    assert_eq!(wrap(String::from("abcd"), 9), "\nabcd");
    // The limit is 6: "abcd" counts 5, which does not.
    assert_eq!(wrap(String::from("abcd"), 10), " abcd");
}

#[test]
fn wrap_of_empty_text_is_one_empty_word() {
    assert_eq!(wrap(String::new(), 20), " ");
    assert_eq!(wrap(String::new(), 4), "\n");
}

#[test]
fn wrap_keeps_empty_words_between_spaces() {
    assert_eq!(wrap(String::from("a  b"), 20), " a  b");
    assert_eq!(wrap(String::from(" a "), 20), "  a ");
}

#[test]
fn wrap_with_a_width_below_the_mark_breaks_before_every_word() {
    assert_eq!(wrap(String::from("a b c"), 0), "\na\nb\nc");
    assert_eq!(wrap(String::from("a b c"), 3), "\na\nb\nc");
    assert_eq!(wrap(String::from("a b c"), 4), "\na\nb\nc");
}

#[test]
fn wrap_counts_characters_not_bytes() {
    // The limit is 4: "ééé" counts 4 characters and breaks; with the limit 5 it does not.
    assert_eq!(wrap(String::from("ééé"), 8), "\nééé");
    assert_eq!(wrap(String::from("ééé"), 9), " ééé");
}

#[test]
fn storage_requests_name_the_file_of_the_project() {
    assert_eq!(
        load_project_from_path(String::from("/w"), "Demo"),
        StorageRequest::Load { folder: String::from("/w"), file_name: String::from("Demo.pman") }
    );
    assert_eq!(
        delete_project_of_name(String::from("Demo"), String::from("/w")),
        StorageRequest::Delete { folder: String::from("/w"), file_name: String::from("Demo.pman") }
    );
    let project = Project::new(String::from("Demo"));
    assert_eq!(
        project.write_project_full_path(String::from("/w")),
        StorageRequest::Write {
            folder: String::from("/w"),
            file_name: String::from("Demo.pman"),
            project: Project::new(String::from("Demo")),
        }
    );
}

fn entry(is_file: bool, file_name: &str, project: Option<&str>) -> FolderEntry {
    FolderEntry {
        is_file,
        file_name: String::from(file_name),
        project: project.map(|name| Project::new(String::from(name))),
    }
}

#[test]
fn projects_in_path_skips_what_is_not_a_readable_project_file() {
    let entries = vec![
        entry(true, "a.pman", Some("a")),
        entry(false, "dir.pman", Some("dir")),
        entry(true, "notes.txt", Some("notes")),
        entry(true, "broken.pman", None),
        entry(true, ".pman", Some("")),
        entry(true, "b.pman", Some("b")),
    ];
    let projects = get_projects_in_path(&entries);
    assert_eq!(
        projects,
        vec![Project::new(String::from("a")), Project::new(String::from("b"))]
    );
}

#[test]
fn projects_in_path_of_an_empty_folder_is_empty() {
    assert!(get_projects_in_path(&vec![]).is_empty());
}
