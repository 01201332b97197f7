use cab::rewriter::{rewrite_all, CabalArgs, Plan, Step};
use cab::table::{replace, same_text};

fn strings(v: &[&str]) -> Vec<String> {
    v.iter().map(|s| s.to_string()).collect()
}

fn run_of(v: &[&str]) -> (Vec<String>, usize) {
    match rewrite_all(strings(v)) {
        Plan::Run { args, notices } => (args, notices),
        Plan::Usage => panic!("usage text where a run was expected"),
    }
}

#[test]
fn verbose_build_is_rewritten() {
    let (args, notices) = run_of(&["--verbose", "build", "--flag1"]);
    assert_eq!(args, strings(&["--verbose", "new-build", "--flag1"]));
    assert_eq!(notices, 0);
}

#[test]
fn cab_help_alone_shows_usage() {
    assert!(matches!(rewrite_all(strings(&["--cab-help"])), Plan::Usage));
}

#[test]
fn check_is_forwarded_unchanged() {
    let (args, notices) = run_of(&["check", "--opt"]);
    assert_eq!(args, strings(&["check", "--opt"]));
    assert_eq!(notices, 0);
}

#[test]
fn empty_list_runs_with_nothing() {
    let (args, notices) = run_of(&[]);
    assert!(args.is_empty());
    assert_eq!(notices, 0);
}

#[test]
fn list_without_commands_is_identity() {
    let input = ["-v2", "check", "--opt", "sdist", "new-build"];
    let (args, notices) = run_of(&input);
    assert_eq!(args, strings(&input));
    assert_eq!(notices, 0);
}

#[test]
fn only_the_first_command_is_rewritten() {
    let (args, _) = run_of(&["build", "build", "test"]);
    assert_eq!(args, strings(&["new-build", "build", "test"]));
    let (args, _) = run_of(&["--x", "run", "exe", "--", "test"]);
    assert_eq!(args, strings(&["--x", "new-run", "exe", "--", "test"]));
}

#[test]
fn cab_help_later_in_the_prefix_shows_usage() {
    assert!(matches!(rewrite_all(strings(&["--verbose", "--cab-help", "build"])), Plan::Usage));
    assert!(matches!(rewrite_all(strings(&["--help", "--cab-help"])), Plan::Usage));
}

#[test]
fn cab_help_after_a_command_is_forwarded() {
    let (args, notices) = run_of(&["build", "--cab-help"]);
    assert_eq!(args, strings(&["new-build", "--cab-help"]));
    assert_eq!(notices, 0);
}

#[test]
fn help_before_a_command_asks_for_a_notice() {
    let (args, notices) = run_of(&["--help", "build"]);
    assert_eq!(args, strings(&["--help", "new-build"]));
    assert_eq!(notices, 1);
    let (args, notices) = run_of(&["--help", "--help"]);
    assert_eq!(args, strings(&["--help", "--help"]));
    assert_eq!(notices, 2);
}

#[test]
fn help_after_a_command_asks_for_no_notice() {
    let (args, notices) = run_of(&["test", "--help"]);
    assert_eq!(args, strings(&["new-test", "--help"]));
    assert_eq!(notices, 0);
}

#[test]
fn lookup_is_exact() {
    assert!(replace("Build").is_none());
    assert!(replace("new-build").is_none());
    assert!(replace("build ").is_none());
    assert!(replace("").is_none());
    assert!(replace("conf").is_none());
    assert!(replace("update").is_none());
    assert!(replace("install").is_none());
    assert!(replace("exec").is_none());
    let (args, _) = run_of(&["Build", "new-build"]);
    assert_eq!(args, strings(&["Build", "new-build"]));
}

#[test]
fn every_table_entry() {
    let pairs = [
        ("build", "new-build"),
        ("configure", "new-configure"),
        ("repl", "new-repl"),
        ("run", "new-run"),
        ("test", "new-test"),
        ("bench", "new-bench"),
        ("freeze", "new-freeze"),
        ("haddock", "new-haddock"),
    ];
    for (key, value) in pairs {
        assert_eq!(replace(key), Some(value.to_string()));
    }
}

#[test]
fn same_text_compares_characters() {
    assert!(same_text("", ""));
    assert!(same_text("héllo", "héllo"));
    assert!(!same_text("héllo", "hello"));
    assert!(!same_text("help", "--help"));
    assert!(!same_text("ab", "abc"));
}

#[test]
fn steps_follow_the_state() {
    let mut it = CabalArgs::new(strings(&["--help", "-v", "bench", "build"]));
    assert!(matches!(it.next(), Step::Forward { ref arg, notice: true } if arg == "--help"));
    assert!(matches!(it.next(), Step::Forward { ref arg, notice: false } if arg == "-v"));
    assert!(matches!(it.next(), Step::Forward { ref arg, notice: false } if arg == "new-bench"));
    assert!(matches!(it.next(), Step::Forward { ref arg, notice: false } if arg == "build"));
    assert!(matches!(it.next(), Step::End));
    assert!(matches!(it.next(), Step::End));
}

#[test]
fn step_on_cab_help_is_usage() {
    let mut it = CabalArgs::new(strings(&["-v", "--cab-help", "build"]));
    assert!(matches!(it.next(), Step::Forward { notice: false, .. }));
    assert!(matches!(it.next(), Step::Usage));
}
