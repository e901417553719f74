use diagram_core::git_report::{
    classify_status_code, combined_output, current_branch_of, join_paths, parse_branch_list,
    parse_status_report, switch_message,
};

#[test]
fn current_branch_is_trimmed() {
    assert_eq!(current_branch_of("main\n"), "main");
    assert_eq!(current_branch_of("  feature/x \r\n"), "feature/x");
    assert_eq!(current_branch_of(""), "");
}

#[test]
fn branch_list_parsing() {
    let out = "* main\n  dev\n\n  feature/x\n";
    assert_eq!(parse_branch_list(out), vec!["main", "dev", "feature/x"]);
}

#[test]
fn branch_list_of_empty_output() {
    assert_eq!(parse_branch_list(""), Vec::<String>::new());
    assert_eq!(parse_branch_list("\n\n"), Vec::<String>::new());
}

#[test]
fn status_codes_classify() {
    assert_eq!(classify_status_code("M"), "modified");
    assert_eq!(classify_status_code("MM"), "modified");
    assert_eq!(classify_status_code("A"), "added");
    assert_eq!(classify_status_code("AM"), "added");
    assert_eq!(classify_status_code("D"), "deleted");
    assert_eq!(classify_status_code("R"), "renamed");
    assert_eq!(classify_status_code("C"), "copied");
    assert_eq!(classify_status_code("??"), "untracked");
    assert_eq!(classify_status_code("UU"), "unknown");
}

#[test]
fn status_report_parsing() {
    let out = " M src/a.rs\n?? new.txt\nA  b\nxy\n";
    let entries = parse_status_report(out, "/repo");
    assert_eq!(
        entries,
        vec![
            (String::from("/repo/src/a.rs"), String::from("modified")),
            (String::from("/repo/new.txt"), String::from("untracked")),
            (String::from("/repo/b"), String::from("added")),
        ]
    );
}

#[test]
fn status_report_with_trailing_slash_dir() {
    let entries = parse_status_report("D  gone.puml\n", "/repo/");
    assert_eq!(
        entries,
        vec![(String::from("/repo/gone.puml"), String::from("deleted"))]
    );
}

#[test]
fn path_joining() {
    assert_eq!(join_paths("/repo", "x"), "/repo/x");
    assert_eq!(join_paths("/repo/", "x"), "/repo/x");
    assert_eq!(join_paths("", "x"), "/x");
}

#[test]
fn pull_output_is_concatenated() {
    assert_eq!(combined_output("up to date\n", ""), "up to date\n");
    assert_eq!(combined_output("out", "err"), "outerr");
}

#[test]
fn switch_messages() {
    assert_eq!(switch_message("dev"), "Switched to branch 'dev'");
}
