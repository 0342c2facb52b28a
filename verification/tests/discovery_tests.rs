use faf_rust_sdk::{
    find_and_parse, find_faf_file, next_step, DirListing, FafError, FafName, FindError, FoundFile,
    Located, Step, MAX_DEPTH,
};

const EMPTY: DirListing = DirListing { has_project_faf: false, has_dot_faf: false };
const MODERN: DirListing = DirListing { has_project_faf: true, has_dot_faf: false };
const LEGACY: DirListing = DirListing { has_project_faf: false, has_dot_faf: true };
const BOTH: DirListing = DirListing { has_project_faf: true, has_dot_faf: true };

#[test]
fn test_find_in_current_dir() {
    let dirs = vec![MODERN, EMPTY, EMPTY];
    let found = find_faf_file(&dirs);
    assert!(found.is_some());
    assert_eq!(found.unwrap(), Located { level: 0, name: FafName::Modern });
    assert_eq!(found.unwrap().name.file_name(), "project.faf");
}

#[test]
fn test_find_in_parent() {
    let dirs = vec![EMPTY, MODERN, EMPTY];
    let found = find_faf_file(&dirs);
    assert!(found.is_some());
    assert_eq!(found.unwrap(), Located { level: 1, name: FafName::Modern });
}

#[test]
fn test_find_legacy_faf() {
    let dirs = vec![LEGACY, EMPTY];
    let found = find_faf_file(&dirs);
    assert!(found.is_some());
    assert_eq!(found.unwrap(), Located { level: 0, name: FafName::Legacy });
    assert_eq!(found.unwrap().name.file_name(), ".faf");
}

#[test]
fn test_modern_takes_priority() {
    let dirs = vec![BOTH, EMPTY];
    let found = find_faf_file(&dirs);
    assert!(found.is_some());
    assert_eq!(found.unwrap(), Located { level: 0, name: FafName::Modern });
}

#[test]
fn test_not_found() {
    let dirs = vec![EMPTY, EMPTY, EMPTY];
    let found = find_faf_file(&dirs);
    assert!(found.is_none());
}

#[test]
fn test_find_and_parse() {
    let dirs = vec![MODERN];
    let located = find_faf_file(&dirs).unwrap();
    let found = FoundFile {
        path: format!("/work/{}", located.name.file_name()),
        content: Ok("faf_version: 2.5.0\nproject:\n  name: parsed-test".to_string()),
    };
    let result = find_and_parse(Some(found));
    assert!(result.is_ok());
    assert_eq!(result.unwrap().project_name(), "parsed-test");
}

#[test]
fn test_find_and_parse_not_found() {
    let dirs = vec![EMPTY];
    assert!(find_faf_file(&dirs).is_none());
    let result = find_and_parse(None);
    assert!(matches!(result, Err(FindError::NotFound)));
}

#[test]
fn test_depth_limit() {
    // The start directory lies 15 levels below the one that holds the file.
    let mut dirs = Vec::new();
    for _ in 0..15 {
        dirs.push(EMPTY);
    }
    dirs.push(MODERN);
    let found = find_faf_file(&dirs);
    assert!(found.is_none());
}

#[test]
fn nested_directories_find_the_ancestor_file() {
    // A/B/C with project.faf in A, starting from C.
    let dirs = vec![EMPTY, EMPTY, MODERN];
    assert_eq!(find_faf_file(&dirs), Some(Located { level: 2, name: FafName::Modern }));
}

#[test]
fn nearer_legacy_file_wins_over_farther_modern_file() {
    let dirs = vec![EMPTY, LEGACY, MODERN];
    assert_eq!(find_faf_file(&dirs), Some(Located { level: 1, name: FafName::Legacy }));
}

#[test]
fn tenth_ancestor_is_within_reach_and_the_eleventh_is_not() {
    let mut dirs = vec![EMPTY; 10];
    dirs.push(LEGACY);
    assert_eq!(dirs.len(), 11);
    assert_eq!(find_faf_file(&dirs), Some(Located { level: 10, name: FafName::Legacy }));

    let mut dirs = vec![EMPTY; 11];
    dirs.push(MODERN);
    assert_eq!(find_faf_file(&dirs), None);
}

#[test]
fn no_directories_means_nothing_found() {
    let dirs: Vec<DirListing> = Vec::new();
    assert_eq!(find_faf_file(&dirs), None);
}

#[test]
fn steps_of_the_walk() {
    assert_eq!(MAX_DEPTH, 10);
    assert_eq!(next_step(0, BOTH, true), Step::Found(FafName::Modern));
    assert_eq!(next_step(3, LEGACY, false), Step::Found(FafName::Legacy));
    assert_eq!(next_step(0, EMPTY, true), Step::Ascend);
    assert_eq!(next_step(9, EMPTY, true), Step::Ascend);
    assert_eq!(next_step(10, EMPTY, true), Step::Stop);
    assert_eq!(next_step(10, MODERN, true), Step::Found(FafName::Modern));
    assert_eq!(next_step(2, EMPTY, false), Step::Stop);
}

#[test]
fn find_and_parse_wraps_the_parse_error() {
    let unreadable = FoundFile {
        path: "/work/project.faf".to_string(),
        content: Err("permission denied".to_string()),
    };
    let result = find_and_parse(Some(unreadable));
    assert_eq!(
        result,
        Err(FindError::ParseError(FafError::IoError("permission denied".to_string())))
    );

    let empty = FoundFile { path: "/work/.faf".to_string(), content: Ok("  \n".to_string()) };
    assert_eq!(find_and_parse(Some(empty)), Err(FindError::ParseError(FafError::EmptyContent)));
}

#[test]
fn find_and_parse_records_the_path() {
    let found = FoundFile {
        path: "/work/project.faf".to_string(),
        content: Ok("faf_version: 2.5.0\nproject:\n  name: here".to_string()),
    };
    let faf = find_and_parse(Some(found)).unwrap();
    assert_eq!(faf.path, Some("/work/project.faf".to_string()));
}

#[test]
fn find_error_messages() {
    assert_eq!(FindError::NotFound.message(), "No FAF file found in directory tree");
    assert_eq!(
        FindError::ParseError(FafError::EmptyContent).message(),
        "Parse error: Empty content"
    );
    assert_eq!(
        FindError::ParseError(FafError::MissingField("project".to_string())).message(),
        "Parse error: Missing required field: project"
    );
}
