use file_assoc::pathext::{add_token, contains_token, drop_token, join_tokens, remove_token, same_token, split_tokens};

fn strings(v: &[&str]) -> Vec<String> {
    v.iter().map(|s| s.to_string()).collect()
}

#[test]
fn split_keeps_empty_tokens() {
    assert_eq!(split_tokens(".COM;;.EXE;"), strings(&[".COM", "", ".EXE", ""]));
    assert_eq!(split_tokens(""), strings(&[""]));
    assert_eq!(split_tokens(".BAT"), strings(&[".BAT"]));
}

#[test]
fn join_puts_separators_between() {
    assert_eq!(join_tokens(&strings(&[".COM", ".EXE", ".BAT"])), ".COM;.EXE;.BAT");
    assert_eq!(join_tokens(&strings(&[".COM"])), ".COM");
    assert_eq!(join_tokens(&Vec::new()), "");
}

#[test]
fn tokens_match_without_case() {
    assert!(same_token(".crs", ".CRS"));
    assert!(same_token(".CrS", ".cRs"));
    assert!(!same_token(".crs", ".crsx"));
    assert!(!same_token(".crt", ".CRS"));
    assert!(contains_token(&strings(&[".EXE", ".crs"]), ".CRS"));
    assert!(!contains_token(&strings(&[".EXE", ".BAT"]), ".CRS"));
}

#[test]
fn drop_token_keeps_the_rest_in_order() {
    let kept = drop_token(&strings(&[".crs", ".EXE", ".CRS", ".bat"]), ".CRS");
    assert_eq!(kept, strings(&[".EXE", ".bat"]));
}

#[test]
fn add_appends_missing_token() {
    assert_eq!(add_token(".COM;.EXE;.BAT"), ".COM;.EXE;.BAT;.CRS");
}

#[test]
fn add_does_not_duplicate_upper_case() {
    assert_eq!(add_token(".COM;.CRS;.EXE"), ".COM;.CRS;.EXE");
}

#[test]
fn add_does_not_duplicate_lower_case() {
    assert_eq!(add_token(".COM;.crs"), ".COM;.crs");
}

#[test]
fn add_to_empty_list() {
    assert_eq!(add_token(""), ";.CRS");
}

#[test]
fn add_appends_upper_case_form() {
    assert_eq!(add_token(".com;.exe"), ".com;.exe;.CRS");
}

#[test]
fn remove_lower_case_token() {
    assert_eq!(remove_token(".COM;.crs;.EXE"), ".COM;.EXE");
}

#[test]
fn remove_every_match() {
    assert_eq!(remove_token(".CRS;.com;.Crs;.exe;.crs"), ".com;.exe");
}

#[test]
fn remove_absent_token_keeps_list() {
    assert_eq!(remove_token(".COM;;.exe"), ".COM;;.exe");
}

#[test]
fn remove_only_token_leaves_empty() {
    assert_eq!(remove_token(".crs"), "");
}

#[test]
fn add_twice_is_add_once() {
    let once = add_token(".COM;.EXE");
    assert_eq!(add_token(&once), once);
}

#[test]
fn remove_twice_is_remove_once() {
    let once = remove_token(".crs;.COM;.CRS");
    assert_eq!(remove_token(&once), once);
    assert_eq!(once, ".COM");
}

#[test]
fn add_then_remove_restores_list() {
    let original = ".com;.Exe;;.BAT";
    let added = add_token(original);
    assert_eq!(added, ".com;.Exe;;.BAT;.CRS");
    assert_eq!(remove_token(&added), original);
}
