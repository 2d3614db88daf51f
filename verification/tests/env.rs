use cellar_sandbox::env::{resolve_all, EnvVar, HostEnv};
use cellar_sandbox::error::CellarError;

#[test]
fn key_is_the_name_of_either_kind() {
    assert_eq!(EnvVar::pass("PATH").key(), "PATH");
    assert_eq!(EnvVar::key_value("HOME", "/home").key(), "HOME");
    assert_eq!(EnvVar::Pass("X".to_string()).key(), "X");
}

#[test]
fn constructors_build_their_variants() {
    assert_eq!(EnvVar::pass("PATH"), EnvVar::Pass("PATH".to_string()));
    assert_eq!(
        EnvVar::key_value("HOME", "/home"),
        EnvVar::KeyValue("HOME".to_string(), "/home".to_string())
    );
}

#[test]
fn names_and_pairs_convert_into_actions() {
    let pass: EnvVar = "DISPLAY".into();
    assert_eq!(pass, EnvVar::Pass("DISPLAY".to_string()));
    let set: EnvVar = ("HOME", "/home").into();
    assert_eq!(set, EnvVar::KeyValue("HOME".to_string(), "/home".to_string()));
    assert_eq!(EnvVar::from("A"), EnvVar::pass("A"));
    assert_eq!(EnvVar::from(("A", "b")), EnvVar::key_value("A", "b"));
}

#[test]
fn literal_resolves_to_itself() {
    let pair = EnvVar::key_value("HOME", "/home").to_key_value(&HostEnv::new()).unwrap();
    assert_eq!(pair, ("HOME".to_string(), "/home".to_string()));
}

#[test]
fn pass_through_takes_the_host_value() {
    let mut host = HostEnv::new();
    host.set("LANG", "C");
    host.set("TERM", "xterm");
    let pair = EnvVar::pass("TERM").to_key_value(&host).unwrap();
    assert_eq!(pair, ("TERM".to_string(), "xterm".to_string()));
}

#[test]
fn pass_through_of_absent_variable_is_missing() {
    let mut host = HostEnv::new();
    host.set("LANG", "C");
    match EnvVar::pass("TERM").to_key_value(&host) {
        Err(CellarError::MissingHostVariable(name)) => assert_eq!(name, "TERM"),
        other => panic!("expected a missing variable, got {:?}", other),
    }
}

#[test]
fn host_env_later_value_replaces_earlier() {
    let mut host = HostEnv::new();
    assert_eq!(host.get("A"), None);
    host.set("A", "1");
    host.set("B", "2");
    host.set("A", "3");
    assert_eq!(host.get("A"), Some("3".to_string()));
    assert_eq!(host.get("B"), Some("2".to_string()));
    assert_eq!(host.get("C"), None);
}

#[test]
fn host_env_from_pairs_holds_the_pairs() {
    let host = HostEnv::from_pairs(vec![
        ("A".to_string(), "1".to_string()),
        ("B".to_string(), "2".to_string()),
        ("A".to_string(), "9".to_string()),
    ]);
    assert_eq!(host.get("A"), Some("9".to_string()));
    assert_eq!(host.get("B"), Some("2".to_string()));
    assert_eq!(host.get(""), None);
}

#[test]
fn host_env_names_are_case_sensitive() {
    let mut host = HostEnv::new();
    host.set("Path", "x");
    assert_eq!(host.get("PATH"), None);
    assert_eq!(host.get("Path"), Some("x".to_string()));
}

#[test]
fn resolve_all_keeps_order_and_duplicates() {
    let mut host = HostEnv::new();
    host.set("DISPLAY", ":1");
    let env = vec![
        EnvVar::key_value("A", "1"),
        EnvVar::pass("DISPLAY"),
        EnvVar::key_value("A", "2"),
    ];
    let pairs = resolve_all(&env, &host).unwrap();
    assert_eq!(
        pairs,
        vec![
            ("A".to_string(), "1".to_string()),
            ("DISPLAY".to_string(), ":1".to_string()),
            ("A".to_string(), "2".to_string()),
        ]
    );
}

#[test]
fn resolve_all_of_nothing_is_nothing() {
    assert_eq!(resolve_all(&Vec::new(), &HostEnv::new()).unwrap(), Vec::new());
}

#[test]
fn resolve_all_reports_the_first_missing_variable() {
    let env = vec![EnvVar::key_value("A", "1"), EnvVar::pass("X"), EnvVar::pass("Y")];
    match resolve_all(&env, &HostEnv::new()) {
        Err(CellarError::MissingHostVariable(name)) => assert_eq!(name, "X"),
        other => panic!("expected a missing variable, got {:?}", other),
    }
}

#[test]
fn clone_keeps_the_action() {
    let a = EnvVar::key_value("K", "V");
    assert_eq!(a.clone(), a);
    let b = EnvVar::pass("P");
    assert_eq!(b.clone(), b);
}

#[test]
fn error_messages_name_what_is_at_fault() {
    assert_eq!(
        CellarError::MissingHostVariable("TERM".to_string()).message(),
        "environment variable is not set: TERM"
    );
    assert_eq!(
        CellarError::ConfigWriteFailed("./jail.proto".to_string()).message(),
        "unable to write jail configuration: ./jail.proto"
    );
    assert_eq!(CellarError::ReaperNotFound.message(), "unable to locate reaper");
}
