use judger::paths::{first_existing, has_separator, join, search_candidates};
use std::path::PathBuf;

#[test]
fn separator_is_found_anywhere() {
    assert!(has_separator("./a.out"));
    assert!(has_separator("/bin/ls"));
    assert!(has_separator("dir/"));
    assert!(!has_separator("ls"));
    assert!(!has_separator(""));
    assert!(!has_separator("a\\b"));
}

#[test]
fn join_puts_one_separator_between() {
    assert_eq!(join("/usr/bin", "ls"), "/usr/bin/ls");
    assert_eq!(join("/usr/bin/", "ls"), "/usr/bin/ls");
    assert_eq!(join("", "ls"), "ls");
    assert_eq!(join("/", "ls"), "/ls");
    assert_eq!(join(".", "ls"), "./ls");
    assert_eq!(join("/opt", ""), "/opt/");
}

#[test]
fn join_agrees_with_pushing_onto_a_path() {
    for dir in ["/usr/bin", "/usr/bin/", "", "/", ".", "rel/dir", "/caf\u{e9}"] {
        for name in ["ls", "a.out", "", "\u{3bb}"] {
            let mut path = PathBuf::from(dir);
            path.push(name);
            assert_eq!(PathBuf::from(join(dir, name)), path);
            assert_eq!(join(dir, name), path.to_string_lossy());
        }
    }
}

#[test]
fn candidates_follow_the_search_path() {
    assert_eq!(
        search_candidates("ls", "/usr/local/bin:/usr/bin:/bin"),
        vec!["/usr/local/bin/ls", "/usr/bin/ls", "/bin/ls"]
    );
    assert_eq!(search_candidates("ls", "/bin"), vec!["/bin/ls"]);
}

#[test]
fn empty_pieces_of_the_search_path_are_kept() {
    assert_eq!(search_candidates("ls", ""), vec!["ls"]);
    assert_eq!(search_candidates("ls", ":"), vec!["ls", "ls"]);
    assert_eq!(search_candidates("ls", "/bin:"), vec!["/bin/ls", "ls"]);
    assert_eq!(search_candidates("ls", ":/bin"), vec!["ls", "/bin/ls"]);
    assert_eq!(search_candidates("ls", "/a::/b/"), vec!["/a/ls", "ls", "/b/ls"]);
}

#[test]
fn candidates_agree_with_split_and_push() {
    for search_path in ["/usr/bin:/bin", "", ":", "a:b:c:", "/x/:/y//:z", "caf\u{e9}:\u{3bb}/"] {
        let expected: Vec<String> = search_path
            .split(':')
            .map(|p| {
                let mut path = PathBuf::from(p);
                path.push("prog");
                path.to_string_lossy().into_owned()
            })
            .collect();
        assert_eq!(search_candidates("prog", search_path), expected);
    }
}

#[test]
fn first_existing_candidate_is_chosen() {
    let candidates = vec!["/a/ls".to_string(), "/b/ls".to_string(), "/c/ls".to_string()];
    assert_eq!(first_existing("ls", &candidates, &vec![false, true, true]), "/b/ls");
    assert_eq!(first_existing("ls", &candidates, &vec![true, false, false]), "/a/ls");
    assert_eq!(first_existing("ls", &candidates, &vec![false, false, true]), "/c/ls");
}

#[test]
fn bare_name_is_used_where_nothing_exists() {
    let candidates = vec!["/a/ls".to_string(), "/b/ls".to_string()];
    assert_eq!(first_existing("ls", &candidates, &vec![false, false]), "ls");
    assert_eq!(first_existing("ls", &Vec::new(), &Vec::new()), "ls");
}
