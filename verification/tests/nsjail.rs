use cellar_sandbox::env::EnvVar;
use cellar_sandbox::error::CellarError;
use cellar_sandbox::nsjail::{NSEnvVar, NSJail, NSMount, NSMountType, NSSymlink};

fn strings(items: &[&str]) -> Vec<String> {
    items.iter().map(|s| s.to_string()).collect()
}

const PROC_BLOCK: &str =
    "mount { rw: false mandatory: true noexec: true dst: \"/proc\"fstype: \"proc\"}\n";

#[test]
fn proc_mount_block() {
    assert_eq!(NSMount::proc().into_proto_text(), PROC_BLOCK);
}

#[test]
fn bind_mount_block() {
    assert_eq!(
        NSMount::bind("/usr", "/usr").into_proto_text(),
        "mount { rw: true mandatory: true noexec: false src: \"/usr\" dst: \"/usr\" is_bind: true }\n"
    );
}

#[test]
fn readonly_mount_block() {
    assert_eq!(
        NSMount::readonly("/etc", "/jail/etc").into_proto_text(),
        "mount { rw: false mandatory: true noexec: false src: \"/etc\" dst: \"/jail/etc\" is_bind: true }\n"
    );
}

#[test]
fn temp_mount_block() {
    assert_eq!(
        NSMount::temp("/tmp").into_proto_text(),
        "mount { rw: true mandatory: true noexec: false dst: \"/tmp\" fstype: \"tmpfs\" }\n"
    );
}

#[test]
fn switches_change_the_block() {
    let mut mount = NSMount::bind("/a", "/b");
    mount.make_readonly().not_mandatory();
    assert_eq!(
        mount.into_proto_text(),
        "mount { rw: false mandatory: false noexec: false src: \"/a\" dst: \"/b\" is_bind: true }\n"
    );
    let mut mount = NSMount::readonly("/a", "/b");
    mount.not_mandatory().make_readwrite().mandatory();
    assert_eq!(mount, NSMount::bind("/a", "/b"));
}

#[test]
fn a_quote_in_a_path_is_written_as_it_is() {
    assert_eq!(
        NSMount::temp("/a\"b").into_proto_text(),
        "mount { rw: true mandatory: true noexec: false dst: \"/a\"b\" fstype: \"tmpfs\" }\n"
    );
}

#[test]
fn symlink_block() {
    assert_eq!(
        NSSymlink::new("/usr/lib", "/lib").into_proto_text(),
        "mount { src: \"/usr/lib\" dst: \"/lib\" is_symlink: true }\n"
    );
}

#[test]
fn mount_kind_and_destination() {
    assert_eq!(NSMount::bind("/a", "/b").kind().dest(), Some("/b"));
    assert_eq!(NSMount::temp("/t").kind().dest(), Some("/t"));
    assert_eq!(NSMount::proc().kind().dest(), Some("/proc"));
    assert_eq!(
        NSMount::bind("/a", "/b").kind(),
        &NSMountType::BindMount { src: "/a".to_string(), dest: "/b".to_string() }
    );
    assert_eq!(NSMount::proc().kind(), &NSMountType::ProcFs);
}

#[test]
fn mount_as_command_line_flag() {
    assert_eq!(NSMount::bind("/a", "/b").to_write_arg(), ("--bindmount", "/a:/b".to_string()));
    assert_eq!(
        NSMount::readonly("/a", "/b").to_write_arg(),
        ("--bindmount_ro", "/a:/b".to_string())
    );
    assert_eq!(NSMount::temp("/tmp").to_write_arg(), ("-m", "none:/tmp:tmpfs:".to_string()));
    assert_eq!(NSMount::proc().to_write_arg(), ("-m", "none:/proc:proc:".to_string()));
}

#[test]
fn env_var_as_argument() {
    assert_eq!(NSEnvVar::keep("TERM").to_arg(), ("--env", "TERM".to_string()));
    assert_eq!(NSEnvVar::set("HOME", "/home").to_arg(), ("--env", "HOME=/home".to_string()));
    assert_eq!(NSEnvVar::set("EMPTY", "").to_arg(), ("--env", "EMPTY=".to_string()));
}

#[test]
fn env_var_of_backend_agnostic_action() {
    assert_eq!(NSEnvVar::of(EnvVar::pass("TERM")), NSEnvVar::Keep("TERM".to_string()));
    assert_eq!(
        NSEnvVar::of(EnvVar::key_value("A", "b")),
        NSEnvVar::Assign("A".to_string(), "b".to_string())
    );
}

#[test]
fn names_and_pairs_convert() {
    let keep: NSEnvVar = "TERM".into();
    assert_eq!(keep, NSEnvVar::Keep("TERM".to_string()));
    let set: NSEnvVar = ("HOME", "/home").into();
    assert_eq!(set, NSEnvVar::Assign("HOME".to_string(), "/home".to_string()));
    let link: NSSymlink = ("/usr/lib", "/lib").into();
    assert_eq!(link, NSSymlink::new("/usr/lib", "/lib"));
    let mut jail = NSJail::default();
    jail.env("TERM".into()).env(("A", "1").into()).symlink(("/a", "/b").into());
    let plan = jail.command();
    assert!(plan.config_text().ends_with("mount { src: \"/a\" dst: \"/b\" is_symlink: true }\n"));
    let args = plan.finish(true).unwrap().args;
    assert_eq!(&args[6..10], &strings(&["--env", "TERM", "--env", "A=1"])[..]);
}

#[test]
fn default_jail_mounts_proc_first() {
    let plan = NSJail::default().command();
    assert_eq!(plan.config_path(), "./jail.proto");
    assert_eq!(plan.config_text(), PROC_BLOCK);
    let invocation = plan.finish(true).unwrap();
    assert_eq!(invocation.program, "/usr/bin/nsjail");
    assert_eq!(
        invocation.args,
        strings(&[
            "--config",
            "./jail.proto",
            "--user",
            "1000",
            "--group",
            "984",
            "--hostname",
            "vanilla",
            "--disable_rlimits",
            "--disable_no_new_privs",
            "--keep_caps",
            "--",
        ])
    );
    assert!(invocation.env.is_empty());
}

#[test]
fn one_block_for_each_mount_and_link_in_input_order() {
    let mut jail = NSJail::default();
    jail.symlink(NSSymlink::new("/usr/bin", "/bin"))
        .mount(NSMount::readonly("/usr", "/usr"))
        .mount(NSMount::temp("/tmp"))
        .symlink(NSSymlink::new("/usr/lib", "/lib"))
        .mount(NSMount::bind("/data", "/data"));
    let plan = jail.command();
    let expected = [
        PROC_BLOCK,
        "mount { rw: false mandatory: true noexec: false src: \"/usr\" dst: \"/usr\" is_bind: true }\n",
        "mount { rw: true mandatory: true noexec: false dst: \"/tmp\" fstype: \"tmpfs\" }\n",
        "mount { rw: true mandatory: true noexec: false src: \"/data\" dst: \"/data\" is_bind: true }\n",
        "mount { src: \"/usr/bin\" dst: \"/bin\" is_symlink: true }\n",
        "mount { src: \"/usr/lib\" dst: \"/lib\" is_symlink: true }\n",
    ];
    assert_eq!(plan.config_text(), expected.join(""));
    assert_eq!(plan.config_text().matches("mount {").count(), 6);
    assert_eq!(plan.config_text().lines().count(), 6);
}

#[test]
fn a_configured_proc_mount_is_not_doubled() {
    let mut jail = NSJail::default();
    jail.mount(NSMount::temp("/tmp")).mount(NSMount::proc());
    let plan = jail.command();
    let expected = [
        "mount { rw: true mandatory: true noexec: false dst: \"/tmp\" fstype: \"tmpfs\" }\n",
        PROC_BLOCK,
    ];
    assert_eq!(plan.config_text(), expected.join(""));
}

#[test]
fn translation_gives_the_whole_file_each_time() {
    let build = || {
        let mut jail = NSJail::default();
        jail.mount(NSMount::temp("/tmp")).symlink(NSSymlink::new("/a", "/b"));
        jail.command()
    };
    let first = build();
    let second = build();
    assert_eq!(first.config_text(), second.config_text());
    assert_eq!(first.config_path(), second.config_path());
    assert!(second.config_text().starts_with("mount { rw: false"));
}

#[test]
fn identity_and_environment_go_on_the_command_line() {
    let mut jail = NSJail::default();
    jail.user(0)
        .group(18446744073709551615)
        .env(NSEnvVar::set("HOME", "/home"))
        .env(NSEnvVar::keep("DISPLAY"))
        .env(NSEnvVar::of(EnvVar::key_value("HOME", "/root")))
        .mount(NSMount::temp("/tmp"));
    let invocation = jail.command().finish(true).unwrap();
    assert_eq!(
        invocation.args,
        strings(&[
            "--config",
            "./jail.proto",
            "--user",
            "0",
            "--group",
            "18446744073709551615",
            "--env",
            "HOME=/home",
            "--env",
            "DISPLAY",
            "--env",
            "HOME=/root",
            "--hostname",
            "vanilla",
            "--disable_rlimits",
            "--disable_no_new_privs",
            "--keep_caps",
            "--",
        ])
    );
}

#[test]
fn configuration_can_be_written_elsewhere() {
    let mut jail = NSJail::default();
    jail.config_path("/run/jail-7.proto");
    let plan = jail.command();
    assert_eq!(plan.config_path(), "/run/jail-7.proto");
    assert_eq!(plan.config_text(), PROC_BLOCK);
    let args = plan.finish(true).unwrap().args;
    assert_eq!(&args[..2], &strings(&["--config", "/run/jail-7.proto"])[..]);
    let mut jail = NSJail::default();
    jail.config_path("/run/jail-7.proto");
    match jail.command().finish(false) {
        Err(CellarError::ConfigWriteFailed(path)) => assert_eq!(path, "/run/jail-7.proto"),
        other => panic!("expected a failed write, got {:?}", other),
    }
}

#[test]
fn unwritten_configuration_spawns_nothing() {
    let mut jail = NSJail::default();
    jail.mount(NSMount::temp("/tmp"));
    match jail.command().finish(false) {
        Err(CellarError::ConfigWriteFailed(path)) => assert_eq!(path, "./jail.proto"),
        other => panic!("expected a failed write, got {:?}", other),
    }
}
