use cellar_sandbox::cellar::{
    get_reaper_path, CellarConfig, WineCellar, WineSync, REAPER_BIN_NAME, REAPER_LOCAL_LOCATIONS,
    WINE_CELLAR_CONFIG,
};
use cellar_sandbox::env::{EnvVar, HostEnv};
use cellar_sandbox::error::CellarError;
use cellar_sandbox::reaper::ReaperCommand;

fn strings(items: &[&str]) -> Vec<String> {
    items.iter().map(|s| s.to_string()).collect()
}

fn pairs(items: &[(&str, &str)]) -> Vec<(String, String)> {
    items.iter().map(|(k, v)| (k.to_string(), v.to_string())).collect()
}

#[test]
fn constants_name_the_files() {
    assert_eq!(WINE_CELLAR_CONFIG, "winecellar.json");
    assert_eq!(REAPER_LOCAL_LOCATIONS, ".:target/debug/:target/release");
    assert_eq!(REAPER_BIN_NAME, "cellar-reaper");
}

#[test]
fn sync_mode_is_read_whatever_the_case() {
    assert_eq!(WineSync::from_str("AUTO"), Ok(WineSync::AUTO));
    assert_eq!(WineSync::from_str("auto"), Ok(WineSync::AUTO));
    assert_eq!(WineSync::from_str("eSync"), Ok(WineSync::ESYNC));
    assert_eq!(WineSync::from_str("fsync"), Ok(WineSync::FSYNC));
    assert_eq!(WineSync::from_str("WineSync"), Ok(WineSync::WINESYNC));
}

#[test]
fn unknown_sync_mode_is_quoted_in_the_complaint() {
    assert_eq!(WineSync::from_str("turbo"), Err("Unknown sync type \"turbo\"".to_string()));
    assert_eq!(WineSync::from_str(""), Err("Unknown sync type \"\"".to_string()));
    assert_eq!(WineSync::from_str("auto "), Err("Unknown sync type \"auto \"".to_string()));
}

#[test]
fn defaults_of_the_settings() {
    assert_eq!(WineSync::default(), WineSync::AUTO);
    let config = CellarConfig::default();
    assert!(config.sandbox);
    assert_eq!(config.sync, WineSync::AUTO);
    assert!(config.extra_env().is_empty());
}

#[test]
fn paths_of_the_cellar() {
    let cellar = WineCellar::new("/home/me/cellar", CellarConfig::default());
    assert_eq!(cellar.path(), "/home/me/cellar");
    assert_eq!(cellar.wine_path(), "/home/me/cellar");
    assert_eq!(cellar.config_path(), "/home/me/cellar/winecellar.json");
    assert_eq!(cellar.wine_bin_path(), "wine");
    let cellar = WineCellar::new("cellar/", CellarConfig::default());
    assert_eq!(cellar.config_path(), "cellar/winecellar.json");
}

#[test]
fn stored_variables_keep_their_order() {
    let mut cellar = WineCellar::new("c", CellarConfig::default());
    assert!(cellar.get_env_vars().is_empty());
    cellar.set_env_var(EnvVar::key_value("A", "1"));
    cellar.set_env_var(EnvVar::pass("B"));
    cellar.set_env_var(EnvVar::key_value("A", "2"));
    assert_eq!(
        cellar.get_env_vars(),
        &vec![EnvVar::key_value("A", "1"), EnvVar::pass("B"), EnvVar::key_value("A", "2")]
    );
    assert_eq!(cellar.get_env_var("A"), Some(&EnvVar::key_value("A", "1")));
    assert_eq!(cellar.get_env_var("B"), Some(&EnvVar::pass("B")));
    assert_eq!(cellar.get_env_var("C"), None);
    assert_eq!(cellar.get_env_var("a"), None);
}

#[test]
fn reaper_is_taken_locally_before_the_search_path() {
    assert_eq!(
        get_reaper_path(Some("./cellar-reaper".to_string()), Some("/usr/bin/cellar-reaper".to_string()))
            .unwrap(),
        "./cellar-reaper"
    );
    assert_eq!(
        get_reaper_path(Some("./cellar-reaper".to_string()), None).unwrap(),
        "./cellar-reaper"
    );
    assert_eq!(
        get_reaper_path(None, Some("/usr/bin/cellar-reaper".to_string())).unwrap(),
        "/usr/bin/cellar-reaper"
    );
}

#[test]
fn reaper_found_nowhere_is_not_found() {
    match get_reaper_path(None, None) {
        Err(CellarError::ReaperNotFound) => {}
        other => panic!("expected the reaper to be missing, got {:?}", other),
    }
}

#[test]
fn namespace_sandbox_of_a_cellar() {
    let cellar = WineCellar::new("cellar", CellarConfig::default());
    let invocation = cellar.bwrap_run("/abs/cellar", "/opt/bin/cellar-reaper");
    assert_eq!(invocation.program, "/usr/bin/bwrap");
    assert!(invocation.env.is_empty());
    assert_eq!(
        invocation.args,
        strings(&[
            "--tmpfs", "/tmp",
            "--dev-bind", "/abs/cellar", "/wineprefix",
            "--dev-bind", "/run", "/run",
            "--tmpfs", "/home",
            "--proc", "/proc",
            "--dev-bind", "/run/user/1000/pulse/native", "/run/user/1000/pulse/native",
            "--dev-bind", "/dev", "/dev",
            "--ro-bind", "/usr", "/usr",
            "--symlink", "/usr/bin", "/bin",
            "--symlink", "/usr/bin", "/sbin",
            "--symlink", "/usr/lib", "/lib",
            "--symlink", "/usr/lib32", "/lib32",
            "--symlink", "/usr/lib64", "/lib64",
            "--ro-bind", "/opt/bin/cellar-reaper", "/tmp/reaper",
            "--ro-bind", "/etc/fonts", "/etc/fonts",
            "--dev-bind", "/tmp/.X11-unix", "/tmp/.X11-unix",
            "--ro-bind", "/home/me/.Xauthority", "/tmp/xauthority",
            "--clearenv",
            "--setenv", "HOME", "/home",
            "--setenv", "WINEPREFIX", "/wineprefix",
            "--setenv", "DISPLAY", ":0",
            "--setenv", "XDG_RUNTIME_DIR", "/run/user/1000",
            "--setenv", "XAUTHORITY", "/tmp/xauthority",
            "--setenv", "LANG", "en_US.UTF-8",
            "--setenv", "WINEESYNC", "1",
            "--setenv", "WINEFSYNC", "1",
            "--unshare-pid",
            "--unshare-net",
            "--unshare-uts",
            "--unshare-cgroup",
            "--as-pid-1",
            "--new-session",
            "--die-with-parent",
            "--",
        ])
    );
}

#[test]
fn namespace_sandbox_follows_the_sync_mode() {
    let cellar = WineCellar::new("c", CellarConfig::new(true, WineSync::ESYNC, Vec::new()));
    let args = cellar.bwrap_run("/p", "/r").args;
    assert!(args.iter().any(|a| a == "WINEESYNC"));
    assert!(!args.iter().any(|a| a == "WINEFSYNC"));
    let cellar = WineCellar::new("c", CellarConfig::new(true, WineSync::FSYNC, Vec::new()));
    let args = cellar.bwrap_run("/p", "/r").args;
    assert!(!args.iter().any(|a| a == "WINEESYNC"));
    assert!(args.iter().any(|a| a == "WINEFSYNC"));
}

#[test]
fn runtime_in_the_namespace_sandbox() {
    let cellar = WineCellar::new("c", CellarConfig::default());
    let run = cellar.bwrap_run("/p", "/r");
    let wine = cellar.bwrap_wine("/p", "/r");
    assert_eq!(wine.program, run.program);
    assert_eq!(wine.args.len(), run.args.len() + 1);
    assert_eq!(&wine.args[..run.args.len()], &run.args[..]);
    assert_eq!(wine.args.last().unwrap(), "/usr/bin/wine");
    assert_eq!(wine.args[wine.args.len() - 2], "--");
}

#[test]
fn profile_sandbox_of_a_cellar() {
    let mut host = HostEnv::new();
    host.set("DISPLAY", ":7");
    let config = CellarConfig::new(
        true,
        WineSync::AUTO,
        vec![EnvVar::key_value("WINEDEBUG", "-all"), EnvVar::pass("DISPLAY")],
    );
    let cellar = WineCellar::new("cellar", config);
    let invocation = cellar.run("/abs/cellar", &host).unwrap();
    assert_eq!(invocation.program, "/usr/bin/firejail");
    assert_eq!(
        invocation.args,
        strings(&[
            "--whitelist=/abs/cellar",
            "--noprofile",
            "--caps.drop=all",
            "--nonewprivs",
            "--noroot",
            "--seccomp",
            "--",
            "wine",
        ])
    );
    assert_eq!(
        invocation.env,
        pairs(&[
            ("WINEPREFIX", "/abs/cellar"),
            ("WINEDEBUG", "-all"),
            ("DISPLAY", ":7"),
            ("WINEESYNC", "1"),
            ("WINEFSYNC", "1"),
        ])
    );
}

#[test]
fn profile_sandbox_fails_on_a_missing_variable() {
    let config = CellarConfig::new(true, WineSync::FSYNC, vec![EnvVar::pass("NOPE")]);
    let cellar = WineCellar::new("cellar", config);
    match cellar.run("/abs/cellar", &HostEnv::new()) {
        Err(CellarError::MissingHostVariable(name)) => assert_eq!(name, "NOPE"),
        other => panic!("expected a missing variable, got {:?}", other),
    }
}

#[test]
fn kill_asks_the_server_to_end_and_waits() {
    let cellar = WineCellar::new("cellar", CellarConfig::default());
    let invocation = cellar.kill("/abs/cellar");
    assert_eq!(invocation.program, "wineserver");
    assert_eq!(invocation.args, strings(&["-k", "-w"]));
    assert_eq!(invocation.env, pairs(&[("WINEPREFIX", "/abs/cellar")]));
}

#[test]
fn reaper_command_puts_the_executable_first() {
    let config = CellarConfig::new(true, WineSync::AUTO, vec![EnvVar::key_value("A", "1")]);
    let cellar = WineCellar::new("cellar", config);
    let command = cellar.reaper_command("game.exe", strings(&["-windowed", "-nosound"]));
    assert_eq!(
        command,
        ReaperCommand::Execute {
            executable_path: "/usr/bin/wine".to_string(),
            arguments: strings(&["game.exe", "-windowed", "-nosound"]),
            environment: vec![EnvVar::key_value("A", "1")],
        }
    );
    let command = cellar.reaper_command("game.exe", Vec::new());
    assert_eq!(
        command,
        ReaperCommand::Execute {
            executable_path: "/usr/bin/wine".to_string(),
            arguments: strings(&["game.exe"]),
            environment: vec![EnvVar::key_value("A", "1")],
        }
    );
}
