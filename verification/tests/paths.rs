use hezi::archive::compute_deepest_common_directory;
use hezi::archive::paths::{
    is_enclosed, components, forward_slashes, is_hidden, join, lies_within, parent, shared_components,
    strip_root,
};

#[test]
fn test_deeper_common_directory1() {
    let paths = vec![
        "/home/user/file1".to_string(),
        "/home/user/file2".to_string(),
        "/home/user/file3".to_string(),
    ];

    let res = compute_deepest_common_directory(&paths);

    assert_eq!(
        res,
        Some(vec![
            "/".to_string(),
            "home".to_string(),
            "user".to_string()
        ])
    );
}

#[test]
fn test_deeper_common_directory2() {
    let paths = vec![
        "/home/download/file1".to_string(),
        "/home/documents/file2".to_string(),
        "/home/file3".to_string(),
    ];

    let res = compute_deepest_common_directory(&paths);

    assert_eq!(res, Some(vec!["/".to_string(), "home".to_string(),]));
}

#[test]
fn common_directory_edge_cases() {
    assert_eq!(compute_deepest_common_directory(&Vec::new()), None);
    assert_eq!(
        compute_deepest_common_directory(&vec!["a/b".to_string()]),
        Some(vec!["a".to_string(), "b".to_string()])
    );
    assert_eq!(
        compute_deepest_common_directory(&vec!["/a".to_string(), "b".to_string()]),
        Some(Vec::new())
    );
    assert_eq!(
        compute_deepest_common_directory(&vec!["a//b/./c".to_string(), "a/b/d".to_string()]),
        Some(vec!["a".to_string(), "b".to_string()])
    );
}

#[test]
fn components_skip_empty_parts_and_dots() {
    assert_eq!(components("/"), vec!["/"]);
    assert_eq!(components(""), Vec::<String>::new());
    assert_eq!(components("./a/../b/"), vec![".", "a", "..", "b"]);
    assert_eq!(components("."), vec!["."]);
    assert_eq!(components("a/./b/."), vec!["a", "b"]);
    assert_eq!(components("/./a"), vec!["/", "a"]);
    assert_eq!(components("././a"), vec![".", "a"]);
    assert_eq!(components(".a/b"), vec![".a", "b"]);
    assert_eq!(components("//x///y"), vec!["/", "x", "y"]);
    assert_eq!(components(".hidden/.."), vec![".hidden", ".."]);
    assert_eq!(
        shared_components(
            &vec!["a".to_string(), "b".to_string()],
            &vec!["a".to_string(), "B".to_string()]
        ),
        vec!["a"]
    );
}

#[test]
fn joining() {
    assert_eq!(join("out", "a/b"), "out/a/b");
    assert_eq!(join("out/", "a/b"), "out/a/b");
    assert_eq!(join("", "a/b"), "a/b");
    assert_eq!(join("out", ""), "out");
    assert_eq!(join(".", "x"), "./x");
}

#[test]
fn parents() {
    assert_eq!(parent("out/a/b.txt"), "out/a");
    assert_eq!(parent("b.txt"), "");
    assert_eq!(parent("/b.txt"), "");
    assert_eq!(parent("a/"), "a");
}

#[test]
fn hidden_names_start_with_a_dot() {
    assert!(is_hidden(".git"));
    assert!(is_hidden("."));
    assert!(!is_hidden("a/.git"));
    assert!(!is_hidden(""));
    assert!(!is_hidden("a.txt"));
}

#[test]
fn lying_within_a_directory() {
    assert!(lies_within("a/b/", "a/b/c.txt"));
    assert!(lies_within("a/b", "a/b/c.txt"));
    assert!(lies_within("a", "a/b/c.txt"));
    assert!(!lies_within("a/b", "a/bc.txt"));
    assert!(!lies_within("a/b", "a/b"));
    assert!(!lies_within("a/b", "a/b/"));
    assert!(!lies_within("", "a"));
    assert!(!lies_within("/", "/a"));
    assert!(!lies_within("A", "a/b"));
}

#[test]
fn names_below_a_root() {
    assert_eq!(strip_root("/src/tree/a/b.txt", "/src/tree"), "a/b.txt");
    assert_eq!(strip_root("/src/tree/a/b.txt", "/src/tree/"), "a/b.txt");
    assert_eq!(strip_root("/src/tree", "/src/tree"), "");
    assert_eq!(strip_root("/src/tree/", "/src/tree"), "");
    assert_eq!(strip_root("/src/treehouse/a", "/src/tree"), "/src/treehouse/a");
    assert_eq!(strip_root("/other/a", "/src/tree"), "/other/a");
    assert_eq!(strip_root("/src/tree//a", "/src/tree"), "a");
    assert_eq!(strip_root("a", ""), "a");
}

#[test]
fn backslashes_become_slashes() {
    assert_eq!(forward_slashes("a\\b\\c.txt"), "a/b/c.txt");
    assert_eq!(forward_slashes("a/b"), "a/b");
    assert_eq!(forward_slashes(""), "");
}

#[test]
fn names_that_stay_below_their_directory() {
    for name in ["a", "a/b.txt", "./a", "a/./b", ".", "a//b", "..a", "a..", "a/..b"] {
        assert!(is_enclosed(name), "{}", name);
    }
    for name in ["", "/a", "..", "../a", "a/..", "a/../b", "a/../../b", "a\0b", "//a"] {
        assert!(!is_enclosed(name), "{:?}", name);
    }
}

#[test]
fn a_leading_dot_is_a_component_of_its_own() {
    let paths = vec!["./a/x".to_string(), "a/y".to_string()];
    assert_eq!(
        compute_deepest_common_directory(&paths),
        Some(Vec::<String>::new())
    );
    let paths = vec!["./a/x".to_string(), "./a/y".to_string()];
    assert_eq!(
        compute_deepest_common_directory(&paths),
        Some(vec![".".to_string(), "a".to_string()])
    );
}
