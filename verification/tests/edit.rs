use agent_loop::tools::edit_file::{EditError, EditFileInput, edit_plan, edit_precheck};

fn input(path: &str, old_str: &str, new_str: &str) -> EditFileInput {
    EditFileInput {
        new_str: String::from(new_str),
        old_str: String::from(old_str),
        path: String::from(path),
    }
}

#[test]
fn missing_file_is_created_with_exactly_the_new_content() {
    let r = edit_plan(&input("notes.txt", "", "fresh content"), None);
    assert_eq!(r.unwrap(), "fresh content");
}

#[test]
fn missing_file_is_created_even_with_a_nonempty_pattern() {
    let r = edit_plan(&input("notes.txt", "anything", "fresh"), None);
    assert_eq!(r.unwrap(), "fresh");
}

#[test]
fn equal_strings_are_rejected_before_anything_else() {
    let existing = String::from("abc");
    let r = edit_plan(&input("f.txt", "same", "same"), Some(&existing));
    match r {
        Err(e) => {
            assert!(matches!(e, EditError::SameStrings));
            assert_eq!(e.message(), "old_str and new_str must be different");
        },
        Ok(_) => panic!("old_str == new_str must be rejected"),
    }
}

#[test]
fn empty_path_is_rejected() {
    let r = edit_plan(&input("", "a", "b"), None);
    match r {
        Err(e) => assert_eq!(e.message(), "path must not be empty"),
        Ok(_) => panic!("empty path must be rejected"),
    }
}

#[test]
fn the_precheck_refuses_what_is_refused_before_any_io() {
    assert!(matches!(
        edit_precheck(&input("", "a", "b")),
        Err(EditError::EmptyPath)
    ));
    assert!(matches!(
        edit_precheck(&input("f.txt", "same", "same")),
        Err(EditError::SameStrings)
    ));
    assert!(edit_precheck(&input("f.txt", "a", "b")).is_ok());
}

#[test]
fn empty_pattern_appends() {
    let existing = String::from("line one\n");
    let r = edit_plan(&input("f.txt", "", "line two\n"), Some(&existing));
    assert_eq!(r.unwrap(), "line one\nline two\n");
}

#[test]
fn absent_pattern_is_an_error() {
    let existing = String::from("hello world");
    let r = edit_plan(&input("f.txt", "mars", "venus"), Some(&existing));
    match r {
        Err(e) => {
            assert!(matches!(e, EditError::NotFound));
            assert_eq!(e.message(), "old_str not found in file");
        },
        Ok(_) => panic!("a pattern with no match must be rejected"),
    }
}

#[test]
fn pattern_occurring_twice_is_rejected_with_exact_count() {
    let existing = String::from("spam and spam");
    let r = edit_plan(&input("menu.txt", "spam", "eggs"), Some(&existing));
    match r {
        Err(e) => {
            assert!(matches!(e, EditError::Ambiguous { count: 2, .. }));
            assert_eq!(
                e.message(),
                "old_str found 2 times in file menu.txt, must be unique"
            );
        },
        Ok(_) => panic!("an ambiguous pattern must be rejected"),
    }
}

#[test]
fn unique_pattern_is_replaced() {
    let existing = String::from("hello world, bye");
    let r = edit_plan(&input("f.txt", "world", "verus"), Some(&existing));
    assert_eq!(r.unwrap(), "hello verus, bye");
}

#[test]
fn overlapping_occurrences_count_like_a_left_to_right_scan() {
    // "aaa" holds one non-overlapping occurrence of "aa", so the edit goes
    // through and rewrites the first two characters.
    let existing = String::from("aaa");
    let r = edit_plan(&input("f.txt", "aa", "b"), Some(&existing));
    assert_eq!(r.unwrap(), "ba");
}

#[test]
fn count_diagnostic_handles_larger_counts() {
    let existing = String::from("x x x x x x x x x x x x");
    let r = edit_plan(&input("f.txt", "x", "y"), Some(&existing));
    match r {
        Err(e) => assert_eq!(
            e.message(),
            "old_str found 12 times in file f.txt, must be unique"
        ),
        Ok(_) => panic!("twelve matches must be rejected"),
    }
}
