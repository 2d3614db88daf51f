use cellar_sandbox::bubblewrap::{BubLauncher, BubMount};
use cellar_sandbox::env::{EnvVar, HostEnv};
use cellar_sandbox::error::CellarError;

fn strings(items: &[&str]) -> Vec<String> {
    items.iter().map(|s| s.to_string()).collect()
}

#[test]
fn default_launcher_emits_default_flags() {
    let launcher = BubLauncher::default();
    let invocation = launcher.command(&HostEnv::new()).unwrap();
    assert_eq!(invocation.program, "/usr/bin/bwrap");
    assert_eq!(
        invocation.args,
        strings(&[
            "--clearenv",
            "--unshare-pid",
            "--unshare-net",
            "--unshare-uts",
            "--unshare-cgroup",
            "--as-pid-1",
            "--new-session",
            "--die-with-parent",
            "--",
        ])
    );
    assert!(invocation.env.is_empty());
}

#[test]
fn mount_constructors_build_their_variants() {
    assert_eq!(
        BubMount::dev_bind("/a", "/b"),
        BubMount::DevBind { src: "/a".to_string(), dest: "/b".to_string() }
    );
    assert_eq!(
        BubMount::bind_ro("/a", "/b"),
        BubMount::BindRO { src: "/a".to_string(), dest: "/b".to_string() }
    );
    assert_eq!(
        BubMount::bind_rw("/a", "/b"),
        BubMount::BindRW { src: "/a".to_string(), dest: "/b".to_string() }
    );
    assert_eq!(
        BubMount::symlink("/a", "/b"),
        BubMount::Symlink { src: "/a".to_string(), dest: "/b".to_string() }
    );
    assert_eq!(BubMount::tmpfs("/t"), BubMount::TmpFs { path: "/t".to_string() });
    assert_eq!(BubMount::proc("/p"), BubMount::Proc { path: "/p".to_string() });
    assert_eq!(BubMount::dir("/d"), BubMount::Dir { path: "/d".to_string() });
    assert_eq!(
        BubMount::file("text", "/f"),
        BubMount::File { content: "text".to_string(), path: "/f".to_string() }
    );
}

#[test]
fn apply_arg_appends_flag_and_operands() {
    let mut args = strings(&["first"]);
    BubMount::dev_bind("/dev", "/dev").apply_arg(&mut args);
    BubMount::tmpfs("/tmp").apply_arg(&mut args);
    BubMount::file("a b", "/etc/x").apply_arg(&mut args);
    assert_eq!(
        args,
        strings(&["first", "--dev-bind", "/dev", "/dev", "--tmpfs", "/tmp", "--file", "a b", "/etc/x"])
    );
}

#[test]
fn mounts_come_out_in_the_order_added() {
    let mut launcher = BubLauncher::default();
    launcher
        .mount(BubMount::tmpfs("/tmp"))
        .mount(BubMount::dev_bind("/run", "/run"))
        .mount(BubMount::bind_ro("/usr", "/usr"))
        .mount(BubMount::bind_rw("/data", "/data"))
        .mount(BubMount::symlink("/usr/bin", "/bin"))
        .mount(BubMount::proc("/proc"))
        .mount(BubMount::dir("/work"))
        .mount(BubMount::file("hello", "/etc/motd"))
        .inherit_env(true)
        .unshare_pid(false)
        .unshare_net(false)
        .unshare_uts(false)
        .unshare_cgroups(false)
        .as_pid_1(false)
        .new_session(false)
        .die_with_parent(false);
    let invocation = launcher.command(&HostEnv::new()).unwrap();
    assert_eq!(
        invocation.args,
        strings(&[
            "--tmpfs", "/tmp", "--dev-bind", "/run", "/run", "--ro-bind", "/usr", "/usr",
            "--bind", "/data", "/data", "--symlink", "/usr/bin", "/bin", "--proc", "/proc",
            "--dir", "/work", "--file", "hello", "/etc/motd", "--",
        ])
    );
}

#[test]
fn a_later_mount_at_the_same_place_stays_later() {
    let mut launcher = BubLauncher::default();
    launcher
        .mount(BubMount::bind_ro("/a", "/mnt"))
        .mount(BubMount::bind_rw("/b", "/mnt"))
        .inherit_env(true);
    let args = launcher.command(&HostEnv::new()).unwrap().args;
    assert_eq!(&args[..6], &strings(&["--ro-bind", "/a", "/mnt", "--bind", "/b", "/mnt"])[..]);
}

#[test]
fn clearenv_stands_before_every_setenv() {
    let mut host = HostEnv::new();
    host.set("DISPLAY", ":0");
    let mut launcher = BubLauncher::default();
    launcher
        .mount(BubMount::tmpfs("/tmp"))
        .env(EnvVar::key_value("HOME", "/home"))
        .env(EnvVar::pass("DISPLAY"))
        .env(EnvVar::key_value("HOME", "/root"));
    let args = launcher.command(&host).unwrap().args;
    assert_eq!(
        &args[..12],
        &strings(&[
            "--tmpfs", "/tmp", "--clearenv", "--setenv", "HOME", "/home", "--setenv", "DISPLAY",
            ":0", "--setenv", "HOME", "/root",
        ])[..]
    );
    let clear = args.iter().position(|a| a == "--clearenv").unwrap();
    let first_set = args.iter().position(|a| a == "--setenv").unwrap();
    assert!(clear < first_set);
}

#[test]
fn inherited_environment_is_not_cleared() {
    let mut launcher = BubLauncher::default();
    launcher.inherit_env(true).env(EnvVar::key_value("A", "1"));
    let args = launcher.command(&HostEnv::new()).unwrap().args;
    assert!(!args.iter().any(|a| a == "--clearenv"));
    assert_eq!(&args[..3], &strings(&["--setenv", "A", "1"])[..]);
}

#[test]
fn every_flag_can_be_switched_on() {
    let mut launcher = BubLauncher::default();
    launcher.inherit_env(true).unshare_user(true).unshare_ipc(true);
    let args = launcher.command(&HostEnv::new()).unwrap().args;
    assert_eq!(
        args,
        strings(&[
            "--unshare-user",
            "--unshare-ipc",
            "--unshare-pid",
            "--unshare-net",
            "--unshare-uts",
            "--unshare-cgroup",
            "--as-pid-1",
            "--new-session",
            "--die-with-parent",
            "--",
        ])
    );
}

#[test]
fn a_flag_that_is_off_is_left_out() {
    let mut launcher = BubLauncher::default();
    launcher
        .inherit_env(true)
        .unshare_pid(false)
        .unshare_net(false)
        .unshare_uts(false)
        .unshare_cgroups(false)
        .as_pid_1(false)
        .new_session(false)
        .die_with_parent(false);
    assert_eq!(launcher.command(&HostEnv::new()).unwrap().args, strings(&["--"]));
}

#[test]
fn hostname_and_identity_add_no_argument() {
    let mut launcher = BubLauncher::default();
    launcher.hostname("box").uid(1000).gid(1000);
    let with = launcher.command(&HostEnv::new()).unwrap().args;
    let mut launcher = BubLauncher::default();
    launcher.hostname("box").no_hostname();
    let without = launcher.command(&HostEnv::new()).unwrap().args;
    assert_eq!(with, without);
    assert_eq!(with, BubLauncher::default().command(&HostEnv::new()).unwrap().args);
}

#[test]
fn missing_pass_through_fails_the_translation() {
    let mut host = HostEnv::new();
    host.set("PRESENT", "1");
    let mut launcher = BubLauncher::default();
    launcher
        .env(EnvVar::pass("PRESENT"))
        .env(EnvVar::pass("ABSENT"))
        .env(EnvVar::pass("ALSO_ABSENT"));
    match launcher.command(&host) {
        Err(CellarError::MissingHostVariable(name)) => assert_eq!(name, "ABSENT"),
        other => panic!("expected a missing variable, got {:?}", other),
    }
}

#[test]
fn a_clone_translates_like_its_source() {
    let mut launcher = BubLauncher::default();
    launcher.mount(BubMount::tmpfs("/tmp")).env(EnvVar::key_value("A", "1")).hostname("h");
    let copy = launcher.clone();
    assert_eq!(
        launcher.command(&HostEnv::new()).unwrap().args,
        copy.command(&HostEnv::new()).unwrap().args
    );
}
