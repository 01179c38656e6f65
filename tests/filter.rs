use watchexec::{
    default_ignore_rules, with_default_ignores, ChangeEvent, EventPath, FilterError,
    GlobsetFilterer, Rejection, Rule,
};

fn rules(patterns: &[&str]) -> Vec<Rule> {
    patterns.iter().map(|p| Rule::new(p.to_string(), None)).collect()
}

fn exts(list: &[&str]) -> Vec<String> {
    list.iter().map(|e| e.to_string()).collect()
}

fn filterer(filters: &[&str], ignores: &[&str], extensions: &[&str]) -> GlobsetFilterer {
    GlobsetFilterer::new("/project", &rules(filters), &rules(ignores), &exts(extensions)).unwrap()
}

fn file(path: &str) -> ChangeEvent {
    ChangeEvent::new("modify".to_string(), vec![EventPath::new(path.to_string(), false)])
}

fn dir(path: &str) -> ChangeEvent {
    ChangeEvent::new("create".to_string(), vec![EventPath::new(path.to_string(), true)])
}

#[test]
fn ignore_rule_scenario() {
    let f = filterer(&[], &["*.log"], &[]);
    assert!(!f.check_event(&file("a.log")));
    assert!(f.check_event(&file("a.txt")));
    assert!(!f.check_event(&file("/project/logs/a.log")));
}

#[test]
fn filter_rule_scenario() {
    let f = filterer(&["*.rs"], &[], &[]);
    assert!(f.check_event(&file("main.rs")));
    assert!(!f.check_event(&file("README.md")));
    assert_eq!(
        f.check_path(&EventPath::new("README.md".to_string(), false)),
        Some(Rejection::NotFiltered)
    );
}

#[test]
fn extension_set_scenario() {
    let f = filterer(&[], &[], &["js", "css"]);
    assert!(f.check_event(&file("app.js")));
    assert!(f.check_event(&file("style.css")));
    assert!(!f.check_event(&file("app.py")));
    assert!(f.check_event(&dir("assets.py")));
    assert_eq!(
        f.check_path(&EventPath::new("app.py".to_string(), false)),
        Some(Rejection::ExtensionMismatch)
    );
}

#[test]
fn extension_comparison_is_exact() {
    let f = filterer(&[], &[], &["js"]);
    assert!(!f.check_event(&file("app.JS")));
    assert!(!f.check_event(&file("app.js.map")));
    assert!(f.check_event(&file("/project/src/app.js")));
}

#[test]
fn file_without_extension_passes_extension_set() {
    let f = filterer(&[], &[], &["js"]);
    assert!(f.check_event(&file("Makefile")));
    assert!(f.check_event(&file(".bashrc")));
}

#[test]
fn ignore_wins_over_filter_and_extensions() {
    let f = filterer(&["*.rs"], &["main.rs"], &["rs"]);
    assert_eq!(
        f.check_path(&EventPath::new("main.rs".to_string(), false)),
        Some(Rejection::Ignored)
    );
    assert!(f.check_event(&file("lib.rs")));
}

#[test]
fn negated_ignore_reinstates_path() {
    let f = filterer(&[], &["*.log", "!keep.log"], &[]);
    assert!(!f.check_event(&file("a.log")));
    assert!(f.check_event(&file("keep.log")));
}

#[test]
fn negated_filter_excludes_path() {
    let f = filterer(&["*.rs", "!build.rs"], &[], &[]);
    assert!(f.check_event(&file("main.rs")));
    assert!(!f.check_event(&file("build.rs")));
}

#[test]
fn directory_only_rule_spares_files() {
    let f = filterer(&[], &["target/"], &[]);
    assert!(!f.check_event(&dir("target")));
    assert!(f.check_event(&file("target")));
}

#[test]
fn no_rules_accept_everything() {
    let f = filterer(&[], &[], &[]);
    assert!(f.check_event(&file("anything.at.all")));
    assert!(f.check_event(&dir("some/dir")));
}

#[test]
fn event_without_paths_is_relevant() {
    let f = filterer(&["*.rs"], &["*"], &["rs"]);
    let e = ChangeEvent::new("rescan".to_string(), vec![]);
    assert!(f.check_event(&e));
    assert_eq!(f.first_rejection(&e), None);
}

#[test]
fn one_rejected_path_rejects_event() {
    let f = filterer(&[], &["*.log"], &[]);
    let e = ChangeEvent::new(
        "rename".to_string(),
        vec![
            EventPath::new("a.txt".to_string(), false),
            EventPath::new("b.log".to_string(), false),
            EventPath::new("c.log".to_string(), false),
        ],
    );
    assert!(!f.check_event(&e));
    assert_eq!(f.first_rejection(&e), Some((1, Rejection::Ignored)));
}

#[test]
fn bad_filter_pattern_is_reported() {
    let r = GlobsetFilterer::new("/project", &rules(&["*.rs", "a{b"]), &rules(&[]), &exts(&[]));
    match r {
        Err(FilterError::Filter { index, .. }) => assert_eq!(index, 1),
        other => panic!("unexpected: {:?}", other.map(|_| ())),
    }
}

#[test]
fn bad_ignore_pattern_is_reported() {
    let r = GlobsetFilterer::new("/project", &rules(&["*.rs"]), &rules(&["x{"]), &exts(&[]));
    match r {
        Err(FilterError::Ignore { index, .. }) => assert_eq!(index, 0),
        other => panic!("unexpected: {:?}", other.map(|_| ())),
    }
}

#[test]
fn comments_and_blank_rules_are_accepted() {
    let f = filterer(&[], &["# note", "", "*.tmp"], &[]);
    assert!(!f.check_event(&file("x.tmp")));
    assert!(f.check_event(&file("x.rs")));
}

#[test]
fn anchored_rule_is_accepted() {
    let ignores = vec![Rule::new("*.o".to_string(), Some("/project/sub".to_string()))];
    let f = GlobsetFilterer::new("/project", &rules(&[]), &ignores, &exts(&[])).unwrap();
    assert!(!f.check_event(&file("/project/sub/a.o")));
}

#[test]
fn default_ignores_cover_builtin_patterns() {
    let d = default_ignore_rules();
    let patterns: Vec<&str> = d.iter().map(|r| r.pattern.as_str()).collect();
    assert_eq!(patterns, vec!["*.pyc", "*.swp", "**/.*/**"]);

    let all = with_default_ignores(rules(&["*.log"]));
    assert_eq!(all.len(), 4);
    assert_eq!(all[3].pattern, "*.log");
    let f = GlobsetFilterer::new("/project", &rules(&[]), &all, &exts(&[])).unwrap();
    assert!(!f.check_event(&file("/project/mod.pyc")));
    assert!(!f.check_event(&file("/project/.main.rs.swp")));
    assert!(!f.check_event(&file("/project/.git/HEAD")));
    assert!(!f.check_event(&file("/project/src/.cache/deep/x.rs")));
    assert!(!f.check_event(&file("/project/a.log")));
    assert!(f.check_event(&file("/project/src/main.rs")));
}
