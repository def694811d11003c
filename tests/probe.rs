use pathclip::probe::is_program_in_path;
use pathclip::probe::search_candidates;
use pathclip::probe::split_search_path;

#[test]
fn test_is_program_in_path() {
    let files = search_candidates(Some("/usr/local/bin:/usr/bin:/bin"), "ls");
    let found: Vec<bool> = files.iter().map(|f| f == "/bin/ls").collect();
    assert_eq!(is_program_in_path("ls", &found).unwrap(), "ls");
}

#[test]
fn candidates_follow_the_search_path() {
    assert_eq!(
        search_candidates(Some("/usr/bin:/bin"), "xsel"),
        vec!["/usr/bin/xsel".to_string(), "/bin/xsel".to_string()]
    );
}

#[test]
fn no_search_path_gives_no_candidates() {
    assert!(search_candidates(None, "xsel").is_empty());
}

#[test]
fn empty_entries_are_kept() {
    assert_eq!(
        split_search_path("a::b:"),
        vec![
            "a".to_string(),
            "".to_string(),
            "b".to_string(),
            "".to_string()
        ]
    );
    assert_eq!(split_search_path(""), vec!["".to_string()]);
    assert_eq!(
        search_candidates(Some(""), "ls"),
        vec!["/ls".to_string()]
    );
}

#[test]
fn absent_program_is_reported() {
    assert_eq!(
        is_program_in_path("xclip", &vec![false, false]),
        Err("xclip not found !".to_string())
    );
    assert_eq!(
        is_program_in_path("xclip", &vec![]),
        Err("xclip not found !".to_string())
    );
}

#[test]
fn present_in_any_directory_is_found() {
    assert_eq!(
        is_program_in_path("xsel", &vec![false, true, false]),
        Ok("xsel".to_string())
    );
    assert_eq!(
        is_program_in_path("xsel", &vec![true]),
        Ok("xsel".to_string())
    );
}
