//! A wine prefix kept in a directory of its own: its settings, the
//! environment stored with it, and the invocations that run programs in it
//! under a sandbox.

use crate::bubblewrap::{BubLauncher, BubLauncherView, BubMount, BubMountView};
use crate::env::{
    first_missing, lemma_resolves_iff_all_present, resolve_all, resolved_pairs, EnvVar,
    EnvVarView, HostEnv,
};
use crate::error::{CellarError, CellarErrorView};
use crate::firejail::{FirejailLauncher, FirejailLauncherView};
use crate::invocation::{Invocation, InvocationView};
use crate::host::{Launch, LaunchView};
use crate::reaper::{wire_command, ReaperCommand, ReaperCommandView};
use crate::text::{ascii_upper, join_path, joined_path, upper_equals};
use vstd::prelude::*;
use vstd::string::StringExecFns;

verus! {

/// The file, inside the cellar's directory, that holds its settings.
pub const WINE_CELLAR_CONFIG: &'static str = "winecellar.json";

/// The directories, separated by colons, in which the reaper is looked for
/// before the search path is.
pub const REAPER_LOCAL_LOCATIONS: &'static str = ".:target/debug/:target/release";

/// The file name of the reaper.
pub const REAPER_BIN_NAME: &'static str = "cellar-reaper";

/// Where the reaper is mounted inside the sandbox.
pub const REAPER_SANDBOX_PATH: &'static str = "/tmp/reaper";

/// The runtime that executes programs inside the sandbox.
pub const WINE_SANDBOX_PATH: &'static str = "/usr/bin/wine";

/// How the runtime synchronises threads.
#[derive(Debug, Clone, Copy, PartialEq, Eq, Structural)]
pub enum WineSync {
    /// Both `ESYNC` and `FSYNC`, the second falling back on the first.
    AUTO,
    ESYNC,
    FSYNC,
    WINESYNC,
}

impl Default for WineSync {
    fn default() -> (r: WineSync)
        ensures
            r == WineSync::AUTO,
    {
        WineSync::AUTO
    }
}

impl WineSync {
    /// The mode that `text` names, whatever the case of its letters.
    pub open spec fn named(text: Seq<char>) -> Option<WineSync> {
        let upper = ascii_upper(text);
        if upper == "AUTO"@ {
            Some(WineSync::AUTO)
        } else if upper == "ESYNC"@ {
            Some(WineSync::ESYNC)
        } else if upper == "FSYNC"@ {
            Some(WineSync::FSYNC)
        } else if upper == "WINESYNC"@ {
            Some(WineSync::WINESYNC)
        } else {
            None
        }
    }

    /// The complaint about a text that names no mode.
    pub open spec fn unknown(text: Seq<char>) -> Seq<char> {
        "Unknown sync type \""@ + text + "\""@
    }

    /// Reads a mode from its name, whatever the case of its letters. A text
    /// that names no mode is answered with a complaint that quotes it.
    pub fn from_str(s: &str) -> (r: Result<WineSync, String>)
        ensures
            match WineSync::named(s@) {
                Some(sync) => r == Ok::<WineSync, String>(sync),
                None => r matches Err(e) && e@ == WineSync::unknown(s@),
            },
    {
        if upper_equals(s, "AUTO") {
            Ok(WineSync::AUTO)
        } else if upper_equals(s, "ESYNC") {
            Ok(WineSync::ESYNC)
        } else if upper_equals(s, "FSYNC") {
            Ok(WineSync::FSYNC)
        } else if upper_equals(s, "WINESYNC") {
            Ok(WineSync::WINESYNC)
        } else {
            let mut e = "Unknown sync type \"".to_owned();
            e.append(s);
            e.append("\"");
            Err(e)
        }
    }

    /// The variables that switch this mode on.
    pub open spec fn variables(self) -> Seq<(Seq<char>, Seq<char>)> {
        match self {
            WineSync::AUTO => seq![("WINEESYNC"@, "1"@), ("WINEFSYNC"@, "1"@)],
            WineSync::ESYNC => seq![("WINEESYNC"@, "1"@)],
            WineSync::FSYNC => seq![("WINEFSYNC"@, "1"@)],
            WineSync::WINESYNC => Seq::empty(),
        }
    }

    /// The environment actions that switch this mode on.
    pub open spec fn actions(self) -> Seq<EnvVarView> {
        self.variables().map_values(|p: (Seq<char>, Seq<char>)| EnvVarView::KeyValue(p.0, p.1))
    }
}

/// The settings that are stored with a cellar.
#[derive(Debug)]
pub struct CellarConfig {
    pub sandbox: bool,
    pub sync: WineSync,
    pub extra_env: Vec<EnvVar>,
}

/// The mathematical content of a [`CellarConfig`].
pub struct CellarConfigView {
    pub sandbox: bool,
    pub sync: WineSync,
    pub extra_env: Seq<EnvVarView>,
}

impl View for CellarConfig {
    type V = CellarConfigView;

    open spec fn view(&self) -> CellarConfigView {
        CellarConfigView {
            sandbox: self.sandbox,
            sync: self.sync,
            extra_env: self.extra_env.deep_view(),
        }
    }
}

impl Default for CellarConfig {
    fn default() -> (r: CellarConfig)
        ensures
            r@ == (CellarConfigView {
                sandbox: true,
                sync: WineSync::AUTO,
                extra_env: Seq::empty(),
            }),
    {
        let r = CellarConfig { sandbox: true, sync: WineSync::AUTO, extra_env: Vec::new() };
        assert(r.extra_env.deep_view() =~= Seq::empty());
        r
    }
}

impl CellarConfig {
    /// The settings with the given content.
    pub fn new(sandbox: bool, sync: WineSync, extra_env: Vec<EnvVar>) -> (r: CellarConfig)
        ensures
            r@ == (CellarConfigView { sandbox, sync, extra_env: extra_env.deep_view() }),
    {
        CellarConfig { sandbox, sync, extra_env }
    }

    /// The environment actions that are stored with the cellar.
    pub fn extra_env(&self) -> (r: &Vec<EnvVar>)
        ensures
            r.deep_view() == self@.extra_env,
    {
        &self.extra_env
    }
}

/// A cellar: a directory and the settings stored in it.
#[derive(Debug)]
pub struct WineCellar {
    pub path: String,
    pub config: CellarConfig,
}

/// The mathematical content of a [`WineCellar`].
pub struct WineCellarView {
    pub path: Seq<char>,
    pub config: CellarConfigView,
}

impl View for WineCellar {
    type V = WineCellarView;

    open spec fn view(&self) -> WineCellarView {
        WineCellarView { path: self.path@, config: self.config@ }
    }
}

/// The place of the first action of `env` about the variable `name`, if there
/// is one.
pub open spec fn first_about(env: Seq<EnvVarView>, name: Seq<char>) -> Option<int>
    decreases env.len(),
{
    if env.len() == 0 {
        None
    } else if env[0].key() == name {
        Some(0)
    } else {
        match first_about(env.drop_first(), name) {
            Some(i) => Some(i + 1),
            None => None,
        }
    }
}

/// The place that [`first_about`] gives is in the list, holds an action
/// about the variable, and no earlier place does; and it gives none only
/// when no action is about the variable.
pub proof fn lemma_first_about(env: Seq<EnvVarView>, name: Seq<char>)
    ensures
        match first_about(env, name) {
            Some(i) => {
                &&& 0 <= i < env.len()
                &&& env[i].key() == name
                &&& forall|j: int| 0 <= j < i ==> (#[trigger] env[j]).key() != name
            },
            None => forall|j: int| 0 <= j < env.len() ==> (#[trigger] env[j]).key() != name,
        },
    decreases env.len(),
{
    if env.len() > 0 && env[0].key() != name {
        let rest = env.drop_first();
        lemma_first_about(rest, name);
        match first_about(rest, name) {
            Some(i) => {
                assert forall|j: int| 0 <= j < i + 1 implies (#[trigger] env[j]).key() != name by {
                    if j > 0 {
                        assert(env[j] == rest[j - 1]);
                    }
                }
            },
            None => {
                assert forall|j: int| 0 <= j < env.len() implies (#[trigger] env[j]).key()
                    != name by {
                    if j > 0 {
                        assert(env[j] == rest[j - 1]);
                    }
                }
            },
        }
    }
}

/// The path of the reaper, given what the two searches for it found: the one
/// found locally if there is one, else the one found on the search path, else
/// the failure `ReaperNotFound`.
pub fn get_reaper_path(local: Option<String>, system: Option<String>) -> (r: Result<
    String,
    CellarError,
>)
    ensures
        match (local, system) {
            (Some(path), _) => r == Ok::<String, CellarError>(path),
            (None, Some(path)) => r == Ok::<String, CellarError>(path),
            (None, None) => r matches Err(e) && e@ == CellarErrorView::ReaperNotFound,
        },
{
    match local {
        Some(path) => Ok(path),
        None => match system {
            Some(path) => Ok(path),
            None => Err(CellarError::ReaperNotFound),
        },
    }
}

impl WineCellar {
    /// The cellar in the directory `path` with the settings `config`.
    pub fn new(path: &str, config: CellarConfig) -> (r: WineCellar)
        ensures
            r@ == (WineCellarView { path: path@, config: config@ }),
    {
        WineCellar { path: path.to_owned(), config }
    }

    /// Stores an environment action after those already stored.
    pub fn set_env_var(&mut self, env: EnvVar)
        ensures
            final(self)@ == (WineCellarView {
                config: CellarConfigView {
                    extra_env: old(self)@.config.extra_env.push(env@),
                    ..old(self)@.config
                },
                ..old(self)@
            }),
    {
        let ghost before = self.config.extra_env.deep_view();
        self.config.extra_env.push(env);
        assert(self.config.extra_env.deep_view() =~= before.push(env@));
    }

    /// The environment actions that are stored, in the order they were
    /// stored.
    pub fn get_env_vars(&self) -> (r: &Vec<EnvVar>)
        ensures
            r.deep_view() == self@.config.extra_env,
    {
        &self.config.extra_env
    }

    /// The first stored action about the variable `var`, if there is one.
    pub fn get_env_var(&self, var: &str) -> (r: Option<&EnvVar>)
        ensures
            match first_about(self@.config.extra_env, var@) {
                Some(i) => r matches Some(e) && e@ == self@.config.extra_env[i],
                None => r is None,
            },
    {
        let ghost all = self.config.extra_env.deep_view();
        let wanted = var.to_owned();
        let mut i: usize = 0;
        assert(all.subrange(0, all.len() as int) =~= all);
        while i < self.config.extra_env.len()
            invariant
                i <= self.config.extra_env.len(),
                all == self.config.extra_env.deep_view(),
                wanted@ == var@,
                first_about(all, var@) == match first_about(
                    all.subrange(i as int, all.len() as int),
                    var@,
                ) {
                    Some(k) => Some(k + i),
                    None => None,
                },
            decreases self.config.extra_env.len() - i,
        {
            let ghost rest = all.subrange(i as int, all.len() as int);
            assert(rest[0] == self.config.extra_env[i as int]@);
            assert(rest.drop_first() =~= all.subrange(i + 1, all.len() as int));
            let key = self.config.extra_env[i].key().to_owned();
            if key == wanted {
                return Some(&self.config.extra_env[i]);
            }
            i = i + 1;
        }
        assert(all.subrange(i as int, all.len() as int) =~= Seq::empty());
        None
    }

    /// Where the settings of the cellar are kept: the settings file inside
    /// the cellar's directory.
    pub fn config_path(&self) -> (r: String)
        ensures
            r@ == joined_path(self@.path, WINE_CELLAR_CONFIG@),
    {
        join_path(self.path.as_str(), WINE_CELLAR_CONFIG)
    }

    /// The runtime as the sandbox of the profile-based backend finds it.
    pub fn wine_bin_path(&self) -> (r: String)
        ensures
            r@ == "wine"@,
    {
        "wine".to_owned()
    }

    /// The directory of the cellar, as an owned path.
    pub fn wine_path(&self) -> (r: String)
        ensures
            r@ == self@.path,
    {
        self.path.clone()
    }

    /// The directory of the cellar.
    pub fn path(&self) -> (r: &str)
        ensures
            r@ == self@.path,
    {
        self.path.as_str()
    }
}

/// The mounts of the namespace sandbox of a cellar whose prefix is at
/// `prefix`, with the reaper found at `reaper`, in the order they are made.
pub open spec fn bwrap_mounts(prefix: Seq<char>, reaper: Seq<char>) -> Seq<BubMountView> {
    seq![
        BubMountView::TmpFs { path: "/tmp"@ },
        BubMountView::DevBind { src: prefix, dest: "/wineprefix"@ },
        BubMountView::DevBind { src: "/run"@, dest: "/run"@ },
        BubMountView::TmpFs { path: "/home"@ },
        BubMountView::Proc { path: "/proc"@ },
        BubMountView::DevBind {
            src: "/run/user/1000/pulse/native"@,
            dest: "/run/user/1000/pulse/native"@,
        },
        BubMountView::DevBind { src: "/dev"@, dest: "/dev"@ },
        BubMountView::BindRO { src: "/usr"@, dest: "/usr"@ },
        BubMountView::Symlink { src: "/usr/bin"@, dest: "/bin"@ },
        BubMountView::Symlink { src: "/usr/bin"@, dest: "/sbin"@ },
        BubMountView::Symlink { src: "/usr/lib"@, dest: "/lib"@ },
        BubMountView::Symlink { src: "/usr/lib32"@, dest: "/lib32"@ },
        BubMountView::Symlink { src: "/usr/lib64"@, dest: "/lib64"@ },
        BubMountView::BindRO { src: reaper, dest: REAPER_SANDBOX_PATH@ },
        BubMountView::BindRO { src: "/etc/fonts"@, dest: "/etc/fonts"@ },
        BubMountView::DevBind { src: "/tmp/.X11-unix"@, dest: "/tmp/.X11-unix"@ },
        BubMountView::BindRO { src: "/home/me/.Xauthority"@, dest: "/tmp/xauthority"@ },
    ]
}

/// The environment inside the namespace sandbox, before the variables of the
/// synchronisation mode.
pub open spec fn bwrap_base_env() -> Seq<EnvVarView> {
    seq![
        EnvVarView::KeyValue("HOME"@, "/home"@),
        EnvVarView::KeyValue("WINEPREFIX"@, "/wineprefix"@),
        EnvVarView::KeyValue("DISPLAY"@, ":0"@),
        EnvVarView::KeyValue("XDG_RUNTIME_DIR"@, "/run/user/1000"@),
        EnvVarView::KeyValue("XAUTHORITY"@, "/tmp/xauthority"@),
        EnvVarView::KeyValue("LANG"@, "en_US.UTF-8"@),
    ]
}

impl WineCellarView {
    /// The namespace launcher of this cellar: the default launcher with the
    /// cellar's mounts and environment.
    pub open spec fn bwrap_launcher(self, prefix: Seq<char>, reaper: Seq<char>) -> BubLauncherView {
        BubLauncherView {
            mounts: bwrap_mounts(prefix, reaper),
            env: bwrap_base_env() + self.config.sync.actions(),
            ..BubLauncherView::initial()
        }
    }

    /// The invocation that opens the namespace sandbox of this cellar; the
    /// program to run inside and its arguments are to follow.
    pub open spec fn bwrap_invocation(self, prefix: Seq<char>, reaper: Seq<char>) -> InvocationView {
        InvocationView::bare(crate::bubblewrap::BWRAP_PROGRAM@).with_args(
            self.bwrap_launcher(prefix, reaper).args(Map::empty()),
        )
    }

    /// The profile-based launcher of this cellar: the default launcher with
    /// the cellar's prefix allowed.
    pub open spec fn firejail_launcher(self, prefix: Seq<char>) -> FirejailLauncherView {
        FirejailLauncherView { whitelist: seq![prefix], ..FirejailLauncherView::initial() }
    }

    /// What translating this cellar for the profile-based sandbox gives in
    /// the environment `host`: the sandbox's invocation followed by the
    /// runtime, with the prefix, the stored variables and the variables of the
    /// synchronisation mode set, in that order; or the name of the first
    /// stored pass-through that `host` lacks.
    pub open spec fn firejail_invocation(
        self,
        prefix: Seq<char>,
        host: Map<Seq<char>, Seq<char>>,
    ) -> Result<InvocationView, CellarErrorView> {
        match first_missing(self.config.extra_env, host) {
            Some(name) => Err(CellarErrorView::MissingHostVariable(name)),
            None => Ok(
                self.firejail_launcher(prefix).invocation().with_args(seq!["wine"@]).with_env(
                    seq![("WINEPREFIX"@, prefix)] + resolved_pairs(self.config.extra_env, host)
                        + self.config.sync.variables(),
                ),
            ),
        }
    }

    /// What it takes to run `executable` with `arguments` in the namespace
    /// sandbox: the sandbox's invocation followed by the reaper, and the
    /// bytes of the command for the reaper.
    pub open spec fn launch(
        self,
        prefix: Seq<char>,
        reaper: Seq<char>,
        executable: Seq<char>,
        arguments: Seq<Seq<char>>,
    ) -> LaunchView {
        LaunchView {
            invocation: self.bwrap_invocation(prefix, reaper).with_args(
                seq![REAPER_SANDBOX_PATH@],
            ),
            payload: wire_command(self.reaper_command(executable, arguments)),
        }
    }

    /// The command that asks the reaper to run `executable` under the
    /// runtime: the runtime is the program, `executable` its first argument,
    /// `arguments` the others, and the stored actions the environment.
    pub open spec fn reaper_command(
        self,
        executable: Seq<char>,
        arguments: Seq<Seq<char>>,
    ) -> ReaperCommandView {
        ReaperCommandView::Execute {
            executable_path: WINE_SANDBOX_PATH@,
            arguments: seq![executable] + arguments,
            environment: self.config.extra_env,
        }
    }
}

/// Appends the variables that switch `sync` on to the environment of `cmd`.
fn push_sync_variables(cmd: &mut Invocation, sync: WineSync)
    requires
        sync != WineSync::WINESYNC,
    ensures
        final(cmd)@ == old(cmd)@.with_env(sync.variables()),
{
    let ghost before = cmd@;
    match sync {
        WineSync::AUTO => {
            cmd.env("WINEESYNC", "1").env("WINEFSYNC", "1");
        },
        WineSync::ESYNC => {
            cmd.env("WINEESYNC", "1");
        },
        WineSync::FSYNC => {
            cmd.env("WINEFSYNC", "1");
        },
        WineSync::WINESYNC => {},
    }
    assert(cmd@.env =~= before.env + sync.variables());
}

/// Appends the environment actions that switch `sync` on to `launcher`.
fn push_sync_actions(launcher: &mut BubLauncher, sync: WineSync)
    requires
        sync != WineSync::WINESYNC,
    ensures
        final(launcher)@ == (BubLauncherView {
            env: old(launcher)@.env + sync.actions(),
            ..old(launcher)@
        }),
{
    let ghost before = launcher@;
    match sync {
        WineSync::AUTO => {
            launcher.env(EnvVar::key_value("WINEESYNC", "1")).env(
                EnvVar::key_value("WINEFSYNC", "1"),
            );
        },
        WineSync::ESYNC => {
            launcher.env(EnvVar::key_value("WINEESYNC", "1"));
        },
        WineSync::FSYNC => {
            launcher.env(EnvVar::key_value("WINEFSYNC", "1"));
        },
        WineSync::WINESYNC => {},
    }
    assert(launcher@.env =~= before.env + sync.actions());
}

/// Adds the mounts of a cellar's namespace sandbox to a launcher that has
/// none.
fn push_bwrap_mounts(launcher: &mut BubLauncher, prefix: &str, reaper: &str)
    requires
        old(launcher)@.mounts == Seq::<BubMountView>::empty(),
    ensures
        final(launcher)@ == (BubLauncherView {
            mounts: bwrap_mounts(prefix@, reaper@),
            ..old(launcher)@
        }),
{
    launcher.mount(BubMount::tmpfs("/tmp")).mount(BubMount::dev_bind(prefix, "/wineprefix")).mount(
        BubMount::dev_bind("/run", "/run"),
    ).mount(BubMount::tmpfs("/home")).mount(BubMount::proc("/proc")).mount(
        BubMount::dev_bind("/run/user/1000/pulse/native", "/run/user/1000/pulse/native"),
    ).mount(BubMount::dev_bind("/dev", "/dev")).mount(BubMount::bind_ro("/usr", "/usr")).mount(
        BubMount::symlink("/usr/bin", "/bin"),
    ).mount(BubMount::symlink("/usr/bin", "/sbin")).mount(
        BubMount::symlink("/usr/lib", "/lib"),
    ).mount(BubMount::symlink("/usr/lib32", "/lib32")).mount(
        BubMount::symlink("/usr/lib64", "/lib64"),
    );
    launcher.mount(BubMount::bind_ro(reaper, REAPER_SANDBOX_PATH));
    launcher.mount(BubMount::bind_ro("/etc/fonts", "/etc/fonts")).mount(
        BubMount::dev_bind("/tmp/.X11-unix", "/tmp/.X11-unix"),
    ).mount(BubMount::bind_ro("/home/me/.Xauthority", "/tmp/xauthority"));
    assert(launcher@.mounts =~= bwrap_mounts(prefix@, reaper@));
}

/// Adds the environment of a cellar's namespace sandbox to a launcher that
/// has none.
fn push_bwrap_env(launcher: &mut BubLauncher, sync: WineSync)
    requires
        old(launcher)@.env == Seq::<EnvVarView>::empty(),
        sync != WineSync::WINESYNC,
    ensures
        final(launcher)@ == (BubLauncherView {
            env: bwrap_base_env() + sync.actions(),
            ..old(launcher)@
        }),
{
    launcher.env(EnvVar::key_value("HOME", "/home")).env(
        EnvVar::key_value("WINEPREFIX", "/wineprefix"),
    ).env(EnvVar::key_value("DISPLAY", ":0")).env(
        EnvVar::key_value("XDG_RUNTIME_DIR", "/run/user/1000"),
    ).env(EnvVar::key_value("XAUTHORITY", "/tmp/xauthority")).env(
        EnvVar::key_value("LANG", "en_US.UTF-8"),
    );
    assert(launcher@.env =~= bwrap_base_env());
    push_sync_actions(launcher, sync);
}

impl WineCellar {
    /// The invocation that runs the runtime under the profile-based sandbox,
    /// with the cellar's prefix allowed. `prefix` is the absolute path of the
    /// cellar's directory; stored pass-through variables take their values
    /// from `host`. It is up to the caller to add the program to run. The
    /// synchronisation mode `WINESYNC` cannot be run.
    pub fn run(&self, prefix: &str, host: &HostEnv) -> (r: Result<Invocation, CellarError>)
        requires
            self@.config.sync != WineSync::WINESYNC,
        ensures
            match self@.firejail_invocation(prefix@, host@) {
                Ok(invocation) => r matches Ok(i) && i@ == invocation,
                Err(error) => r matches Err(e) && e@ == error,
            },
    {
        let pairs = match resolve_all(&self.config.extra_env, host) {
            Ok(pairs) => pairs,
            Err(e) => {
                return Err(e);
            },
        };
        let mut launcher = FirejailLauncher::default();
        launcher.whitelist(prefix);
        assert(launcher@.whitelist =~= seq![prefix@]);
        let mut cmd = launcher.command();
        cmd.arg(self.wine_bin_path().as_str());
        cmd.env("WINEPREFIX", prefix);
        let ghost before = cmd@;
        let mut i: usize = 0;
        assert(before.env + pairs.deep_view().subrange(0, 0) =~= before.env);
        while i < pairs.len()
            invariant
                i <= pairs.len(),
                cmd@ == (InvocationView {
                    env: before.env + pairs.deep_view().subrange(0, i as int),
                    ..before
                }),
            decreases pairs.len() - i,
        {
            cmd.env(pairs[i].0.as_str(), pairs[i].1.as_str());
            assert(cmd@.env =~= before.env + pairs.deep_view().subrange(0, i + 1));
            i = i + 1;
        }
        assert(pairs.deep_view().subrange(0, i as int) =~= pairs.deep_view());
        push_sync_variables(&mut cmd, self.config.sync);
        proof {
            let wanted = self@.firejail_invocation(prefix@, host@)->Ok_0;
            assert(cmd@.env =~= wanted.env);
            assert(cmd@.args =~= wanted.args);
        }
        Ok(cmd)
    }

    /// The invocation that opens the namespace sandbox of the cellar.
    /// `prefix` is the absolute path of the cellar's directory and `reaper`
    /// the path of the reaper on the host. The program to run inside the
    /// sandbox and its arguments are to follow. The synchronisation mode
    /// `WINESYNC` cannot be run.
    pub fn bwrap_run(&self, prefix: &str, reaper: &str) -> (r: Invocation)
        requires
            self@.config.sync != WineSync::WINESYNC,
        ensures
            r@ == self@.bwrap_invocation(prefix@, reaper@),
    {
        let mut l = BubLauncher::default();
        push_bwrap_mounts(&mut l, prefix, reaper);
        push_bwrap_env(&mut l, self.config.sync);
        let host = HostEnv::new();
        proof {
            let view = l@;
            assert(view == self@.bwrap_launcher(prefix@, reaper@));
            lemma_resolves_iff_all_present(view.env, host@);
            assert forall|i: int| 0 <= i < view.env.len() implies (#[trigger] view.env[i]).resolve(
                host@,
            ) is Some by {
                assert(view.env[i] is KeyValue);
            }
        }
        l.command(&host).unwrap()
    }

    /// The invocation that runs the runtime inside the namespace sandbox of
    /// the cellar. The synchronisation mode `WINESYNC` cannot be run.
    pub fn bwrap_wine(&self, prefix: &str, reaper: &str) -> (r: Invocation)
        requires
            self@.config.sync != WineSync::WINESYNC,
        ensures
            r@ == self@.bwrap_invocation(prefix@, reaper@).with_args(seq![WINE_SANDBOX_PATH@]),
    {
        let mut cmd = self.bwrap_run(prefix, reaper);
        cmd.arg(WINE_SANDBOX_PATH);
        cmd
    }

    /// The invocation that ends every program of the cellar and waits until
    /// they are gone. `prefix` is the absolute path of the cellar's
    /// directory.
    pub fn kill(&self, prefix: &str) -> (r: Invocation)
        ensures
            r@ == InvocationView::bare("wineserver"@).with_args(seq!["-k"@, "-w"@]).with_env(
                seq![("WINEPREFIX"@, prefix@)],
            ),
    {
        let mut cmd = Invocation::new("wineserver");
        cmd.arg("-k").arg("-w").env("WINEPREFIX", prefix);
        assert(cmd@.args =~= seq!["-k"@, "-w"@]);
        assert(cmd@.env =~= seq![("WINEPREFIX"@, prefix@)]);
        cmd
    }

    /// What it takes to run `executable` with `arguments` in the namespace
    /// sandbox of the cellar: the invocation that opens the sandbox and
    /// starts the reaper in it, and the bytes that tell the reaper what to
    /// run. The synchronisation mode `WINESYNC` cannot be run.
    pub fn launch(
        &self,
        prefix: &str,
        reaper: &str,
        executable: &str,
        arguments: Vec<String>,
    ) -> (r: Launch)
        requires
            self@.config.sync != WineSync::WINESYNC,
        ensures
            r@ == self@.launch(prefix@, reaper@, executable@, arguments.deep_view()),
    {
        let mut invocation = self.bwrap_run(prefix, reaper);
        invocation.arg(REAPER_SANDBOX_PATH);
        let payload = self.reaper_command(executable, arguments).encode();
        Launch { invocation, payload }
    }

    /// The command that asks the reaper to run `executable` with `arguments`
    /// under the runtime, in the environment stored with the cellar.
    pub fn reaper_command(&self, executable: &str, arguments: Vec<String>) -> (r: ReaperCommand)
        ensures
            r@ == self@.reaper_command(executable@, arguments.deep_view()),
    {
        let mut all: Vec<String> = Vec::new();
        all.push(executable.to_owned());
        let mut i: usize = 0;
        assert(all.deep_view() =~= seq![executable@] + arguments.deep_view().subrange(0, 0));
        while i < arguments.len()
            invariant
                i <= arguments.len(),
                all.deep_view() == seq![executable@] + arguments.deep_view().subrange(
                    0,
                    i as int,
                ),
            decreases arguments.len() - i,
        {
            let ghost before = all.deep_view();
            let text = arguments[i].clone();
            all.push(text);
            assert(all.deep_view() =~= before.push(arguments.deep_view()[i as int]));
            assert(all.deep_view() =~= seq![executable@] + arguments.deep_view().subrange(
                0,
                i + 1,
            ));
            i = i + 1;
        }
        assert(arguments.deep_view().subrange(0, i as int) =~= arguments.deep_view());
        let env = self.config.extra_env.clone();
        assert(env.deep_view() =~= self.config.extra_env.deep_view());
        ReaperCommand::execute(WINE_SANDBOX_PATH, all, env)
    }
}

} // verus!
