use reclaim::checker::{Checker, ConfigChecker, LoadStep};

fn strings(names: &[&str]) -> Vec<String> {
    names.iter().map(|s| (*s).to_owned()).collect()
}

fn rule(target: &str, contains: &[&str], excludes: &[&str], prefix: &str) -> Checker {
    Checker {
        target: target.to_owned(),
        contains_files_dirs: strings(contains),
        excludes_files_dirs: strings(excludes),
        prefix: prefix.to_owned(),
    }
}

#[test]
fn single_rule_matches_when_target_and_siblings_present() {
    let r = rule("node_modules", &["package.json"], &[], "[Node]");
    assert!(r.check(&strings(&["node_modules", "src"]), &strings(&["package.json"])));
}

#[test]
fn single_rule_requires_target_among_directories() {
    let r = rule("node_modules", &["package.json"], &[], "[Node]");
    // target present only as a file does not count
    assert!(!r.check(&strings(&["src"]), &strings(&["package.json", "node_modules"])));
}

#[test]
fn required_sibling_may_be_directory_or_file() {
    let r = rule("target", &["Cargo.toml"], &[], "[Rust]");
    assert!(r.check(&strings(&["target", "Cargo.toml"]), &strings(&[])));
    assert!(r.check(&strings(&["target"]), &strings(&["Cargo.toml"])));
    assert!(!r.check(&strings(&["target"]), &strings(&["Cargo.lock"])));
}

#[test]
fn excluded_sibling_blocks_the_match_wherever_it_appears() {
    let r = rule("build", &[], &["keep.txt"], "[B]");
    assert!(r.check(&strings(&["build"]), &strings(&[])));
    assert!(!r.check(&strings(&["build"]), &strings(&["keep.txt"])));
    assert!(!r.check(&strings(&["build", "keep.txt"]), &strings(&[])));
}

#[test]
fn first_matching_rule_wins_in_configured_order() {
    let a = rule("cache", &[], &[], "[A]");
    let b = rule("cache", &[], &[], "[B]");
    let cfg = ConfigChecker { includes: vec![a, b], shallow: Vec::new() };
    let got = cfg.check(&strings(&["cache"]), &strings(&[]));
    assert_eq!(got, Some(("[A]".to_owned(), "cache".to_owned())));

    let a = rule("cache", &[], &[], "[A]");
    let b = rule("cache", &[], &[], "[B]");
    let cfg = ConfigChecker { includes: vec![b, a], shallow: Vec::new() };
    let got = cfg.check(&strings(&["cache"]), &strings(&[]));
    assert_eq!(got, Some(("[B]".to_owned(), "cache".to_owned())));
}

#[test]
fn skipped_rules_are_those_that_do_not_qualify() {
    let a = rule("cache", &["marker"], &[], "[A]");
    let b = rule("cache", &[], &[], "[B]");
    let cfg = ConfigChecker { includes: vec![a, b], shallow: Vec::new() };
    let got = cfg.check(&strings(&["cache"]), &strings(&[]));
    assert_eq!(got, Some(("[B]".to_owned(), "cache".to_owned())));
}

#[test]
fn no_qualifying_rule_returns_none() {
    let cfg = ConfigChecker::default_config();
    assert_eq!(cfg.check(&strings(&["src", "docs"]), &strings(&["README.md"])), None);
    let empty = ConfigChecker { includes: Vec::new(), shallow: Vec::new() };
    assert_eq!(empty.check(&strings(&["node_modules"]), &strings(&["package.json"])), None);
}

#[test]
fn rust_rule_is_evaluated_independently_of_the_node_rule() {
    // `Cargo.toml` and `target` as siblings, no `package.json`: the Node
    // rule must not match, and the Rust rule matches on its own.
    let cfg = ConfigChecker::default_config();
    let dirs = strings(&["target", "src"]);
    let files = strings(&["Cargo.toml", "main.rs"]);
    let got = cfg.check(&dirs, &files);
    assert_eq!(got, Some(("[Rust]".to_owned(), "target".to_owned())));
}

#[test]
fn default_config_holds_the_two_builtin_rules_and_one_shallow_name() {
    let cfg = ConfigChecker::default_config();
    assert_eq!(cfg.includes.len(), 2);
    assert_eq!(cfg.includes[0].target, "node_modules");
    assert_eq!(cfg.includes[0].contains_files_dirs, vec!["package.json".to_owned()]);
    assert!(cfg.includes[0].excludes_files_dirs.is_empty());
    assert_eq!(cfg.includes[0].prefix, "[Node]");
    assert_eq!(cfg.includes[1].target, "target");
    assert_eq!(cfg.includes[1].contains_files_dirs, vec!["Cargo.toml".to_owned()]);
    assert!(cfg.includes[1].excludes_files_dirs.is_empty());
    assert_eq!(cfg.includes[1].prefix, "[Rust]");
    assert_eq!(cfg.shallow, vec!["node_modules".to_owned()]);
}

#[test]
fn is_shallow_is_membership_in_the_configured_shallow_set() {
    let cfg = ConfigChecker::default_config();
    assert!(cfg.is_shallow(&"node_modules".to_owned()));
    assert!(!cfg.is_shallow(&"target".to_owned()));
    assert!(!cfg.is_shallow(&"node_module".to_owned()));
    let cfg2 = ConfigChecker { includes: Vec::new(), shallow: strings(&["a", "b"]) };
    assert!(cfg2.is_shallow(&"a".to_owned()));
    assert!(cfg2.is_shallow(&"b".to_owned()));
    assert!(!cfg2.is_shallow(&"c".to_owned()));
}

#[test]
fn load_init_uses_a_loaded_document() {
    let cfg = ConfigChecker { includes: Vec::new(), shallow: strings(&["x"]) };
    match ConfigChecker::load_init(true, Some(cfg)) {
        LoadStep::UseConfig(c) => assert_eq!(c.shallow, vec!["x".to_owned()]),
        _ => panic!("expected the loaded document to be used"),
    }
}

#[test]
fn load_init_repairs_a_failed_load_with_the_default_document() {
    match ConfigChecker::load_init(true, None) {
        LoadStep::RepairWithDefault(d) => {
            assert_eq!(d.includes.len(), 2);
            assert_eq!(d.includes[0].prefix, "[Node]");
            assert_eq!(d.includes[1].prefix, "[Rust]");
            assert_eq!(d.shallow, vec!["node_modules".to_owned()]);
        }
        _ => panic!("expected a repair with the default document"),
    }
}

#[test]
fn load_init_without_a_config_location_cannot_proceed() {
    assert!(matches!(ConfigChecker::load_init(false, None), LoadStep::NoConfigPath));
    let cfg = ConfigChecker { includes: Vec::new(), shallow: Vec::new() };
    assert!(matches!(ConfigChecker::load_init(false, Some(cfg)), LoadStep::NoConfigPath));
}
