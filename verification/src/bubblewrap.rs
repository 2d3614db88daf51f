//! The bind-mount and namespace launcher: mounts, environment and isolation
//! flags turned into the argument vector of `bwrap`.

use crate::env::{
    first_missing, lemma_missing_pass_through_fails, resolve_all, resolved_pairs, EnvVar,
    EnvVarView, HostEnv,
};
use crate::error::{CellarError, CellarErrorView};
use crate::invocation::{
    flag, lemma_concat_assoc, push_flag, push_text, Invocation, InvocationView, SEPARATOR,
};
use crate::layout::lemma_flatten_block;
use vstd::prelude::*;

verus! {

/// The launcher binary that the argument vector is for.
pub const BWRAP_PROGRAM: &'static str = "/usr/bin/bwrap";

/// Whether a fresh launcher hands the host environment on.
pub const DEFAULT_INHERIT_ENV: bool = false;

/// Whether a fresh launcher isolates users.
pub const DEFAULT_UNSHARE_USER: bool = false;

/// Whether a fresh launcher isolates inter-process communication.
pub const DEFAULT_UNSHARE_IPC: bool = false;

/// Whether a fresh launcher isolates process identifiers.
pub const DEFAULT_UNSHARE_PID: bool = true;

/// Whether a fresh launcher isolates the network.
pub const DEFAULT_UNSHARE_NET: bool = true;

/// Whether a fresh launcher isolates the host name.
pub const DEFAULT_UNSHARE_UTS: bool = true;

/// Whether a fresh launcher isolates control groups.
pub const DEFAULT_UNSHARE_CGROUPS: bool = true;

/// Whether a fresh launcher runs the program as process 1.
pub const DEFAULT_AS_PID_1: bool = true;

/// Whether a fresh launcher starts a new terminal session.
pub const DEFAULT_NEW_SESSION: bool = true;

/// Whether a fresh launcher kills the sandbox when its parent dies.
pub const DEFAULT_DIE_WITH_PARENT: bool = true;

/// One action on the sandbox's file system.
#[derive(Debug, PartialEq, Eq)]
pub enum BubMount {
    DevBind { src: String, dest: String },
    BindRO { src: String, dest: String },
    BindRW { src: String, dest: String },
    Symlink { src: String, dest: String },
    TmpFs { path: String },
    Proc { path: String },
    Dir { path: String },
    File { content: String, path: String },
}

/// The mathematical content of a [`BubMount`].
pub enum BubMountView {
    DevBind { src: Seq<char>, dest: Seq<char> },
    BindRO { src: Seq<char>, dest: Seq<char> },
    BindRW { src: Seq<char>, dest: Seq<char> },
    Symlink { src: Seq<char>, dest: Seq<char> },
    TmpFs { path: Seq<char> },
    Proc { path: Seq<char> },
    Dir { path: Seq<char> },
    File { content: Seq<char>, path: Seq<char> },
}

impl View for BubMount {
    type V = BubMountView;

    open spec fn view(&self) -> BubMountView {
        match *self {
            BubMount::DevBind { src, dest } => BubMountView::DevBind { src: src@, dest: dest@ },
            BubMount::BindRO { src, dest } => BubMountView::BindRO { src: src@, dest: dest@ },
            BubMount::BindRW { src, dest } => BubMountView::BindRW { src: src@, dest: dest@ },
            BubMount::Symlink { src, dest } => BubMountView::Symlink { src: src@, dest: dest@ },
            BubMount::TmpFs { path } => BubMountView::TmpFs { path: path@ },
            BubMount::Proc { path } => BubMountView::Proc { path: path@ },
            BubMount::Dir { path } => BubMountView::Dir { path: path@ },
            BubMount::File { content, path } => BubMountView::File {
                content: content@,
                path: path@,
            },
        }
    }
}

impl DeepView for BubMount {
    type V = BubMountView;

    open spec fn deep_view(&self) -> BubMountView {
        self@
    }
}

impl BubMountView {
    /// The flag and operands that state this action to the launcher.
    pub open spec fn args(self) -> Seq<Seq<char>> {
        match self {
            BubMountView::DevBind { src, dest } => seq!["--dev-bind"@, src, dest],
            BubMountView::BindRO { src, dest } => seq!["--ro-bind"@, src, dest],
            BubMountView::BindRW { src, dest } => seq!["--bind"@, src, dest],
            BubMountView::Symlink { src, dest } => seq!["--symlink"@, src, dest],
            BubMountView::TmpFs { path } => seq!["--tmpfs"@, path],
            BubMountView::Proc { path } => seq!["--proc"@, path],
            BubMountView::Dir { path } => seq!["--dir"@, path],
            BubMountView::File { content, path } => seq!["--file"@, content, path],
        }
    }
}

impl Clone for BubMount {
    fn clone(&self) -> (r: BubMount)
        ensures
            r@ == self@,
    {
        match self {
            BubMount::DevBind { src, dest } => BubMount::DevBind {
                src: src.clone(),
                dest: dest.clone(),
            },
            BubMount::BindRO { src, dest } => BubMount::BindRO {
                src: src.clone(),
                dest: dest.clone(),
            },
            BubMount::BindRW { src, dest } => BubMount::BindRW {
                src: src.clone(),
                dest: dest.clone(),
            },
            BubMount::Symlink { src, dest } => BubMount::Symlink {
                src: src.clone(),
                dest: dest.clone(),
            },
            BubMount::TmpFs { path } => BubMount::TmpFs { path: path.clone() },
            BubMount::Proc { path } => BubMount::Proc { path: path.clone() },
            BubMount::Dir { path } => BubMount::Dir { path: path.clone() },
            BubMount::File { content, path } => BubMount::File {
                content: content.clone(),
                path: path.clone(),
            },
        }
    }
}

impl BubMount {
    /// Binds `src` at `dest` with its devices usable, not only its files.
    pub fn dev_bind(src: &str, dest: &str) -> (r: BubMount)
        ensures
            r@ == (BubMountView::DevBind { src: src@, dest: dest@ }),
    {
        BubMount::DevBind { src: src.to_owned(), dest: dest.to_owned() }
    }

    /// Binds `src` at `dest`, read-only.
    pub fn bind_ro(src: &str, dest: &str) -> (r: BubMount)
        ensures
            r@ == (BubMountView::BindRO { src: src@, dest: dest@ }),
    {
        BubMount::BindRO { src: src.to_owned(), dest: dest.to_owned() }
    }

    /// Binds `src` at `dest`, writable.
    pub fn bind_rw(src: &str, dest: &str) -> (r: BubMount)
        ensures
            r@ == (BubMountView::BindRW { src: src@, dest: dest@ }),
    {
        BubMount::BindRW { src: src.to_owned(), dest: dest.to_owned() }
    }

    /// Mounts an empty in-memory file system at `dest`.
    pub fn tmpfs(dest: &str) -> (r: BubMount)
        ensures
            r@ == (BubMountView::TmpFs { path: dest@ }),
    {
        BubMount::TmpFs { path: dest.to_owned() }
    }

    /// Mounts the process-information file system at `dest`.
    pub fn proc(dest: &str) -> (r: BubMount)
        ensures
            r@ == (BubMountView::Proc { path: dest@ }),
    {
        BubMount::Proc { path: dest.to_owned() }
    }

    /// Makes `dest` a symbolic link to `src`.
    pub fn symlink(src: &str, dest: &str) -> (r: BubMount)
        ensures
            r@ == (BubMountView::Symlink { src: src@, dest: dest@ }),
    {
        BubMount::Symlink { src: src.to_owned(), dest: dest.to_owned() }
    }

    /// Creates the directory `path`.
    pub fn dir(path: &str) -> (r: BubMount)
        ensures
            r@ == (BubMountView::Dir { path: path@ }),
    {
        BubMount::Dir { path: path.to_owned() }
    }

    /// Creates the file `path` holding `content`.
    pub fn file(content: &str, path: &str) -> (r: BubMount)
        ensures
            r@ == (BubMountView::File { content: content@, path: path@ }),
    {
        BubMount::File { content: content.to_owned(), path: path.to_owned() }
    }

    /// Appends the flag and operands of this action to `args`.
    pub fn apply_arg(&self, args: &mut Vec<String>)
        ensures
            final(args).deep_view() == old(args).deep_view() + self@.args(),
    {
        let ghost before = args.deep_view();
        match self {
            BubMount::DevBind { src, dest } => {
                push_text(args, "--dev-bind");
                push_text(args, src.as_str());
                push_text(args, dest.as_str());
            },
            BubMount::BindRO { src, dest } => {
                push_text(args, "--ro-bind");
                push_text(args, src.as_str());
                push_text(args, dest.as_str());
            },
            BubMount::BindRW { src, dest } => {
                push_text(args, "--bind");
                push_text(args, src.as_str());
                push_text(args, dest.as_str());
            },
            BubMount::Symlink { src, dest } => {
                push_text(args, "--symlink");
                push_text(args, src.as_str());
                push_text(args, dest.as_str());
            },
            BubMount::TmpFs { path } => {
                push_text(args, "--tmpfs");
                push_text(args, path.as_str());
            },
            BubMount::Proc { path } => {
                push_text(args, "--proc");
                push_text(args, path.as_str());
            },
            BubMount::Dir { path } => {
                push_text(args, "--dir");
                push_text(args, path.as_str());
            },
            BubMount::File { content, path } => {
                push_text(args, "--file");
                push_text(args, content.as_str());
                push_text(args, path.as_str());
            },
        }
        assert(args.deep_view() =~= before + self@.args());
    }
}

/// The arguments that state `mounts`, one action after the other.
pub open spec fn mounts_args(mounts: Seq<BubMountView>) -> Seq<Seq<char>> {
    mounts.map_values(|m: BubMountView| m.args()).flatten()
}

/// The arguments that set one resolved variable.
pub open spec fn setenv_triple(pair: (Seq<char>, Seq<char>)) -> Seq<Seq<char>> {
    seq!["--setenv"@, pair.0, pair.1]
}

/// The arguments that set `pairs`, one variable after the other.
pub open spec fn setenv_args(pairs: Seq<(Seq<char>, Seq<char>)>) -> Seq<Seq<char>> {
    pairs.map_values(|p: (Seq<char>, Seq<char>)| setenv_triple(p)).flatten()
}

/// Appends the arguments of every mount of `mounts`, in order.
fn push_mounts(args: &mut Vec<String>, mounts: &Vec<BubMount>)
    ensures
        final(args).deep_view() == old(args).deep_view() + mounts_args(mounts.deep_view()),
{
    let ghost before = args.deep_view();
    let ghost all = mounts.deep_view();
    let mut i: usize = 0;
    assert(mounts_args(all.subrange(0, 0)) =~= Seq::empty());
    assert(args.deep_view() =~= before + mounts_args(all.subrange(0, 0)));
    while i < mounts.len()
        invariant
            i <= mounts.len(),
            all == mounts.deep_view(),
            args.deep_view() == before + mounts_args(all.subrange(0, i as int)),
        decreases mounts.len() - i,
    {
        mounts[i].apply_arg(args);
        proof {
            let done = all.subrange(0, i as int);
            let next = all.subrange(0, i + 1);
            let each = |m: BubMountView| m.args();
            assert(next.map_values(each) =~= done.map_values(each).push(mounts[i as int]@.args()));
            done.map_values(each).lemma_flatten_push(mounts[i as int]@.args());
            assert(args.deep_view() =~= before + mounts_args(next));
        }
        i = i + 1;
    }
    assert(all.subrange(0, i as int) =~= all);
}

/// Appends the arguments that set every variable of `pairs`, in order.
fn push_setenv(args: &mut Vec<String>, pairs: &Vec<(String, String)>)
    ensures
        final(args).deep_view() == old(args).deep_view() + setenv_args(pairs.deep_view()),
{
    let ghost before = args.deep_view();
    let ghost all = pairs.deep_view();
    let mut i: usize = 0;
    assert(setenv_args(all.subrange(0, 0)) =~= Seq::empty());
    assert(args.deep_view() =~= before + setenv_args(all.subrange(0, 0)));
    while i < pairs.len()
        invariant
            i <= pairs.len(),
            all == pairs.deep_view(),
            args.deep_view() == before + setenv_args(all.subrange(0, i as int)),
        decreases pairs.len() - i,
    {
        push_text(args, "--setenv");
        push_text(args, pairs[i].0.as_str());
        push_text(args, pairs[i].1.as_str());
        proof {
            let done = all.subrange(0, i as int);
            let next = all.subrange(0, i + 1);
            let each = |p: (Seq<char>, Seq<char>)| setenv_triple(p);
            assert(next.map_values(each) =~= done.map_values(each).push(
                setenv_triple(all[i as int]),
            ));
            done.map_values(each).lemma_flatten_push(setenv_triple(all[i as int]));
            assert(args.deep_view() =~= before + setenv_args(next));
        }
        i = i + 1;
    }
    assert(all.subrange(0, i as int) =~= all);
}

/// A backend-agnostic description of one launch: what to mount, what the
/// environment holds, and how far to isolate.
#[derive(Debug)]
pub struct BubLauncher {
    mounts: Vec<BubMount>,
    env: Vec<EnvVar>,
    inherit_env: bool,
    unshare_user: bool,
    unshare_ipc: bool,
    unshare_pid: bool,
    unshare_net: bool,
    unshare_uts: bool,
    unshare_cgroups: bool,
    as_pid_1: bool,
    new_session: bool,
    die_with_parent: bool,
    hostname: Option<String>,
    uid: Option<usize>,
    gid: Option<usize>,
}

/// The mathematical content of a [`BubLauncher`].
pub struct BubLauncherView {
    pub mounts: Seq<BubMountView>,
    pub env: Seq<EnvVarView>,
    pub inherit_env: bool,
    pub unshare_user: bool,
    pub unshare_ipc: bool,
    pub unshare_pid: bool,
    pub unshare_net: bool,
    pub unshare_uts: bool,
    pub unshare_cgroups: bool,
    pub as_pid_1: bool,
    pub new_session: bool,
    pub die_with_parent: bool,
    pub hostname: Option<Seq<char>>,
    pub uid: Option<usize>,
    pub gid: Option<usize>,
}

impl View for BubLauncher {
    type V = BubLauncherView;

    closed spec fn view(&self) -> BubLauncherView {
        BubLauncherView {
            mounts: self.mounts.deep_view(),
            env: self.env.deep_view(),
            inherit_env: self.inherit_env,
            unshare_user: self.unshare_user,
            unshare_ipc: self.unshare_ipc,
            unshare_pid: self.unshare_pid,
            unshare_net: self.unshare_net,
            unshare_uts: self.unshare_uts,
            unshare_cgroups: self.unshare_cgroups,
            as_pid_1: self.as_pid_1,
            new_session: self.new_session,
            die_with_parent: self.die_with_parent,
            hostname: match self.hostname {
                Some(h) => Some(h@),
                None => None,
            },
            uid: self.uid,
            gid: self.gid,
        }
    }
}

impl BubLauncherView {
    /// The launcher that nothing has been added to: no mount, no variable,
    /// the host environment cleared, and every default isolation on.
    pub open spec fn initial() -> BubLauncherView {
        BubLauncherView {
            mounts: Seq::empty(),
            env: Seq::empty(),
            inherit_env: DEFAULT_INHERIT_ENV,
            unshare_user: DEFAULT_UNSHARE_USER,
            unshare_ipc: DEFAULT_UNSHARE_IPC,
            unshare_pid: DEFAULT_UNSHARE_PID,
            unshare_net: DEFAULT_UNSHARE_NET,
            unshare_uts: DEFAULT_UNSHARE_UTS,
            unshare_cgroups: DEFAULT_UNSHARE_CGROUPS,
            as_pid_1: DEFAULT_AS_PID_1,
            new_session: DEFAULT_NEW_SESSION,
            die_with_parent: DEFAULT_DIE_WITH_PARENT,
            hostname: None,
            uid: None,
            gid: None,
        }
    }

    /// The isolation and session flags that are switched on, in the order the
    /// launcher is given them.
    pub open spec fn flags(self) -> Seq<Seq<char>> {
        flag(self.unshare_user, "--unshare-user"@) + flag(self.unshare_ipc, "--unshare-ipc"@)
            + flag(self.unshare_pid, "--unshare-pid"@) + flag(self.unshare_net, "--unshare-net"@)
            + flag(self.unshare_uts, "--unshare-uts"@) + flag(
            self.unshare_cgroups,
            "--unshare-cgroup"@,
        ) + flag(self.as_pid_1, "--as-pid-1"@) + flag(self.new_session, "--new-session"@) + flag(
            self.die_with_parent,
            "--die-with-parent"@,
        )
    }

    /// The argument vector for this launcher once `host` has resolved its
    /// environment: the mounts in the order they were added, the request to
    /// clear the environment unless it is inherited, the variables in the
    /// order they were added, the flags that are on, and the separator.
    pub open spec fn args(self, host: Map<Seq<char>, Seq<char>>) -> Seq<Seq<char>> {
        mounts_args(self.mounts) + flag(!self.inherit_env, "--clearenv"@) + setenv_args(
            resolved_pairs(self.env, host),
        ) + self.flags() + seq![SEPARATOR@]
    }

    /// What translating this launcher against `host` gives: the invocation of
    /// the launcher binary, or the name of the first variable that `host`
    /// lacks.
    pub open spec fn translate(self, host: Map<Seq<char>, Seq<char>>) -> Result<
        InvocationView,
        CellarErrorView,
    > {
        match first_missing(self.env, host) {
            Some(name) => Err(CellarErrorView::MissingHostVariable(name)),
            None => Ok(InvocationView::bare(BWRAP_PROGRAM@).with_args(self.args(host))),
        }
    }
}

impl Default for BubLauncher {
    fn default() -> (r: BubLauncher)
        ensures
            r@ == BubLauncherView::initial(),
    {
        let r = BubLauncher {
            mounts: Vec::new(),
            env: Vec::new(),
            inherit_env: DEFAULT_INHERIT_ENV,
            unshare_user: DEFAULT_UNSHARE_USER,
            unshare_ipc: DEFAULT_UNSHARE_IPC,
            unshare_pid: DEFAULT_UNSHARE_PID,
            unshare_net: DEFAULT_UNSHARE_NET,
            unshare_uts: DEFAULT_UNSHARE_UTS,
            unshare_cgroups: DEFAULT_UNSHARE_CGROUPS,
            as_pid_1: DEFAULT_AS_PID_1,
            new_session: DEFAULT_NEW_SESSION,
            die_with_parent: DEFAULT_DIE_WITH_PARENT,
            hostname: None,
            uid: None,
            gid: None,
        };
        assert(r.mounts.deep_view() =~= Seq::empty());
        assert(r.env.deep_view() =~= Seq::empty());
        r
    }
}

impl BubLauncher {
    /// Translates the launcher into the invocation of the launcher binary.
    /// Pass-through variables take their values from `host`; if `host` lacks
    /// one, the translation fails with the name of the first such variable
    /// and no invocation is handed out.
    pub fn command(self, host: &HostEnv) -> (r: Result<Invocation, CellarError>)
        ensures
            match self@.translate(host@) {
                Ok(invocation) => r matches Ok(i) && i@ == invocation,
                Err(error) => r matches Err(e) && e@ == error,
            },
    {
        let pairs = match resolve_all(&self.env, host) {
            Ok(pairs) => pairs,
            Err(e) => {
                return Err(e);
            },
        };
        let mut cmd = Invocation::new(BWRAP_PROGRAM);
        push_mounts(&mut cmd.args, &self.mounts);
        push_flag(&mut cmd.args, !self.inherit_env, "--clearenv");
        push_setenv(&mut cmd.args, &pairs);
        self.push_flags(&mut cmd.args);
        push_text(&mut cmd.args, SEPARATOR);
        proof {
            let view = self@;
            let a = mounts_args(view.mounts);
            let b = flag(!view.inherit_env, "--clearenv"@);
            let c = setenv_args(resolved_pairs(view.env, host@));
            let d = view.flags();
            let e = seq![SEPARATOR@];
            let empty = Seq::<Seq<char>>::empty();
            assert(empty + a =~= a);
            assert(cmd@.args =~= a + b + c + d + e);
        }
        Ok(cmd)
    }

    /// Appends the isolation and session flags that are switched on.
    fn push_flags(&self, args: &mut Vec<String>)
        ensures
            final(args).deep_view() == old(args).deep_view() + self@.flags(),
    {
        let ghost before = args.deep_view();
        let ghost mut acc = flag(self.unshare_user, "--unshare-user"@);
        push_flag(args, self.unshare_user, "--unshare-user");
        push_flag(args, self.unshare_ipc, "--unshare-ipc");
        proof {
            lemma_concat_assoc(before, acc, flag(self.unshare_ipc, "--unshare-ipc"@));
            acc = acc + flag(self.unshare_ipc, "--unshare-ipc"@);
        }
        push_flag(args, self.unshare_pid, "--unshare-pid");
        proof {
            lemma_concat_assoc(before, acc, flag(self.unshare_pid, "--unshare-pid"@));
            acc = acc + flag(self.unshare_pid, "--unshare-pid"@);
        }
        push_flag(args, self.unshare_net, "--unshare-net");
        proof {
            lemma_concat_assoc(before, acc, flag(self.unshare_net, "--unshare-net"@));
            acc = acc + flag(self.unshare_net, "--unshare-net"@);
        }
        push_flag(args, self.unshare_uts, "--unshare-uts");
        proof {
            lemma_concat_assoc(before, acc, flag(self.unshare_uts, "--unshare-uts"@));
            acc = acc + flag(self.unshare_uts, "--unshare-uts"@);
        }
        push_flag(args, self.unshare_cgroups, "--unshare-cgroup");
        proof {
            lemma_concat_assoc(before, acc, flag(self.unshare_cgroups, "--unshare-cgroup"@));
            acc = acc + flag(self.unshare_cgroups, "--unshare-cgroup"@);
        }
        push_flag(args, self.as_pid_1, "--as-pid-1");
        proof {
            lemma_concat_assoc(before, acc, flag(self.as_pid_1, "--as-pid-1"@));
            acc = acc + flag(self.as_pid_1, "--as-pid-1"@);
        }
        push_flag(args, self.new_session, "--new-session");
        proof {
            lemma_concat_assoc(before, acc, flag(self.new_session, "--new-session"@));
            acc = acc + flag(self.new_session, "--new-session"@);
        }
        push_flag(args, self.die_with_parent, "--die-with-parent");
        proof {
            lemma_concat_assoc(before, acc, flag(self.die_with_parent, "--die-with-parent"@));
            acc = acc + flag(self.die_with_parent, "--die-with-parent"@);
        }
    }

    /// Adds a mount after those already there. Mounts take effect in the order
    /// they were added, so a later one can cover an earlier one.
    pub fn mount(&mut self, mount: BubMount) -> (r: &mut BubLauncher)
        ensures
            r@ == (BubLauncherView { mounts: old(self)@.mounts.push(mount@), ..old(self)@ }),
            *final(self) == *final(r),
    {
        let ghost before = self.mounts.deep_view();
        self.mounts.push(mount);
        assert(self.mounts.deep_view() =~= before.push(mount@));
        self
    }

    /// Adds an environment action after those already there. Actions apply in
    /// the order they were added, so a later one overrides an earlier one of
    /// the same name.
    pub fn env(&mut self, var: EnvVar) -> (r: &mut BubLauncher)
        ensures
            r@ == (BubLauncherView { env: old(self)@.env.push(var@), ..old(self)@ }),
            *final(self) == *final(r),
    {
        let ghost before = self.env.deep_view();
        self.env.push(var);
        assert(self.env.deep_view() =~= before.push(var@));
        self
    }

    /// Chooses whether the sandbox starts from the host environment
    /// (`true`) or from an empty one. Variables that were added are set either
    /// way.
    pub fn inherit_env(&mut self, inherit: bool) -> (r: &mut BubLauncher)
        ensures
            r@ == (BubLauncherView { inherit_env: inherit, ..old(self)@ }),
            *final(self) == *final(r),
    {
        self.inherit_env = inherit;
        self
    }

    /// Names the host that the sandbox sees.
    pub fn hostname(&mut self, hostname: &str) -> (r: &mut BubLauncher)
        ensures
            r@ == (BubLauncherView { hostname: Some(hostname@), ..old(self)@ }),
            *final(self) == *final(r),
    {
        self.hostname = Some(hostname.to_owned());
        self
    }

    /// Leaves the host name to the launcher.
    pub fn no_hostname(&mut self) -> (r: &mut BubLauncher)
        ensures
            r@ == (BubLauncherView { hostname: None, ..old(self)@ }),
            *final(self) == *final(r),
    {
        self.hostname = None;
        self
    }

    /// Chooses whether the sandbox gets a user namespace of its own.
    pub fn unshare_user(&mut self, on: bool) -> (r: &mut BubLauncher)
        ensures
            r@ == (BubLauncherView { unshare_user: on, ..old(self)@ }),
            *final(self) == *final(r),
    {
        self.unshare_user = on;
        self
    }

    /// Chooses whether the sandbox gets an inter-process communication namespace of its own.
    pub fn unshare_ipc(&mut self, on: bool) -> (r: &mut BubLauncher)
        ensures
            r@ == (BubLauncherView { unshare_ipc: on, ..old(self)@ }),
            *final(self) == *final(r),
    {
        self.unshare_ipc = on;
        self
    }

    /// Chooses whether the sandbox gets a process-identifier namespace of its own.
    pub fn unshare_pid(&mut self, on: bool) -> (r: &mut BubLauncher)
        ensures
            r@ == (BubLauncherView { unshare_pid: on, ..old(self)@ }),
            *final(self) == *final(r),
    {
        self.unshare_pid = on;
        self
    }

    /// Chooses whether the sandbox gets a network namespace of its own.
    pub fn unshare_net(&mut self, on: bool) -> (r: &mut BubLauncher)
        ensures
            r@ == (BubLauncherView { unshare_net: on, ..old(self)@ }),
            *final(self) == *final(r),
    {
        self.unshare_net = on;
        self
    }

    /// Chooses whether the sandbox gets a host-name namespace of its own.
    pub fn unshare_uts(&mut self, on: bool) -> (r: &mut BubLauncher)
        ensures
            r@ == (BubLauncherView { unshare_uts: on, ..old(self)@ }),
            *final(self) == *final(r),
    {
        self.unshare_uts = on;
        self
    }

    /// Chooses whether the sandbox gets a control-group namespace of its own.
    pub fn unshare_cgroups(&mut self, on: bool) -> (r: &mut BubLauncher)
        ensures
            r@ == (BubLauncherView { unshare_cgroups: on, ..old(self)@ }),
            *final(self) == *final(r),
    {
        self.unshare_cgroups = on;
        self
    }

    /// Chooses whether the program runs as process 1 of the sandbox.
    pub fn as_pid_1(&mut self, on: bool) -> (r: &mut BubLauncher)
        ensures
            r@ == (BubLauncherView { as_pid_1: on, ..old(self)@ }),
            *final(self) == *final(r),
    {
        self.as_pid_1 = on;
        self
    }

    /// Chooses whether the sandbox starts a new terminal session.
    pub fn new_session(&mut self, on: bool) -> (r: &mut BubLauncher)
        ensures
            r@ == (BubLauncherView { new_session: on, ..old(self)@ }),
            *final(self) == *final(r),
    {
        self.new_session = on;
        self
    }

    /// Chooses whether the sandbox is killed when its parent dies.
    pub fn die_with_parent(&mut self, on: bool) -> (r: &mut BubLauncher)
        ensures
            r@ == (BubLauncherView { die_with_parent: on, ..old(self)@ }),
            *final(self) == *final(r),
    {
        self.die_with_parent = on;
        self
    }

    /// Sets the numeric user that the sandbox runs as.
    pub fn uid(&mut self, uid: usize) -> (r: &mut BubLauncher)
        ensures
            r@ == (BubLauncherView { uid: Some(uid), ..old(self)@ }),
            *final(self) == *final(r),
    {
        self.uid = Some(uid);
        self
    }

    /// Sets the numeric group that the sandbox runs as.
    pub fn gid(&mut self, gid: usize) -> (r: &mut BubLauncher)
        ensures
            r@ == (BubLauncherView { gid: Some(gid), ..old(self)@ }),
            *final(self) == *final(r),
    {
        self.gid = Some(gid);
        self
    }
}

impl Clone for BubLauncher {
    fn clone(&self) -> (r: BubLauncher)
        ensures
            r@ == self@,
    {
        let r = BubLauncher {
            mounts: self.mounts.clone(),
            env: self.env.clone(),
            inherit_env: self.inherit_env,
            unshare_user: self.unshare_user,
            unshare_ipc: self.unshare_ipc,
            unshare_pid: self.unshare_pid,
            unshare_net: self.unshare_net,
            unshare_uts: self.unshare_uts,
            unshare_cgroups: self.unshare_cgroups,
            as_pid_1: self.as_pid_1,
            new_session: self.new_session,
            die_with_parent: self.die_with_parent,
            hostname: match &self.hostname {
                Some(h) => Some(h.clone()),
                None => None,
            },
            uid: self.uid,
            gid: self.gid,
        };
        assert(r.mounts.deep_view() =~= self.mounts.deep_view());
        assert(r.env.deep_view() =~= self.env.deep_view());
        r
    }
}

/// Mounts are emitted in the order they were added: the arguments of the
/// mount at `index` stand in the argument vector right behind those of all
/// mounts added before it, and nothing stands between two mounts.
pub proof fn lemma_mounts_keep_their_order(
    launcher: BubLauncherView,
    host: Map<Seq<char>, Seq<char>>,
    index: int,
)
    requires
        0 <= index < launcher.mounts.len(),
    ensures
        ({
            let start = mounts_args(launcher.mounts.subrange(0, index)).len() as int;
            let block = launcher.mounts[index].args();
            &&& start + block.len() <= launcher.args(host).len()
            &&& launcher.args(host).subrange(start, start + block.len()) == block
            &&& mounts_args(launcher.mounts.subrange(0, index + 1)).len() == start + block.len()
        }),
{
    let each = |m: BubMountView| m.args();
    let blocks = launcher.mounts.map_values(each);
    lemma_flatten_block(blocks, index);
    assert(blocks.subrange(0, index) =~= launcher.mounts.subrange(0, index).map_values(each));
    assert(blocks.subrange(0, index + 1) =~= launcher.mounts.subrange(0, index + 1).map_values(
        each,
    ));
    let mounts = mounts_args(launcher.mounts);
    let clear = flag(!launcher.inherit_env, "--clearenv"@);
    let set = setenv_args(resolved_pairs(launcher.env, host));
    let end = seq![SEPARATOR@];
    lemma_concat_assoc(mounts + clear + set, launcher.flags(), end);
    lemma_concat_assoc(mounts + clear, set, launcher.flags() + end);
    lemma_concat_assoc(mounts, clear, set + (launcher.flags() + end));
    let start = blocks.subrange(0, index).flatten().len() as int;
    lemma_leading_part(mounts, clear + (set + (launcher.flags() + end)), start, start
        + blocks[index].len());
}

/// A part of a list is the same part of the list with more put behind it.
proof fn lemma_leading_part<A>(list: Seq<A>, more: Seq<A>, from: int, to: int)
    requires
        0 <= from <= to <= list.len(),
    ensures
        (list + more).subrange(from, to) == list.subrange(from, to),
{
    assert((list + more).subrange(from, to) =~= list.subrange(from, to));
}

/// The arguments that set a list of variables hold three entries for each
/// variable: the flag, the name and the value, in the order of the list.
pub proof fn lemma_setenv_layout(pairs: Seq<(Seq<char>, Seq<char>)>, index: int)
    requires
        0 <= index < pairs.len(),
    ensures
        setenv_args(pairs).len() == 3 * pairs.len(),
        setenv_args(pairs)[3 * index] == "--setenv"@,
        setenv_args(pairs)[3 * index + 1] == pairs[index].0,
        setenv_args(pairs)[3 * index + 2] == pairs[index].1,
    decreases pairs.len(),
{
    let each = |p: (Seq<char>, Seq<char>)| setenv_triple(p);
    let shorter = pairs.drop_last();
    assert(pairs.map_values(each) =~= shorter.map_values(each).push(setenv_triple(pairs.last())));
    shorter.map_values(each).lemma_flatten_push(setenv_triple(pairs.last()));
    assert(setenv_args(pairs) == setenv_args(shorter) + setenv_triple(pairs.last()));
    if shorter.len() == 0 {
        assert(shorter.map_values(each) =~= Seq::empty());
        assert(setenv_args(shorter) =~= Seq::empty());
    } else if index < shorter.len() {
        lemma_setenv_layout(shorter, index);
    } else {
        lemma_setenv_layout(shorter, 0);
    }
}

/// The request to clear the environment stands before every variable that is
/// set: with the host environment not inherited, `--clearenv` is the argument
/// right behind the mounts, and each `--setenv` with its name and value
/// stands behind it, in the order the variables were added. With the host
/// environment inherited no such request is written and the variables follow
/// the mounts at once.
pub proof fn lemma_clearenv_precedes_setenv(
    launcher: BubLauncherView,
    host: Map<Seq<char>, Seq<char>>,
    index: int,
)
    requires
        0 <= index < launcher.env.len(),
        first_missing(launcher.env, host) is None,
    ensures
        ({
            let args = launcher.args(host);
            let clear = mounts_args(launcher.mounts).len() as int;
            let first = if launcher.inherit_env {
                clear
            } else {
                clear + 1
            };
            let set = first + 3 * index;
            &&& set + 2 < args.len()
            &&& !launcher.inherit_env ==> args[clear] == "--clearenv"@ && clear < set
            &&& args[set] == "--setenv"@
            &&& args[set + 1] == launcher.env[index].resolve(host).unwrap().0
            &&& args[set + 2] == launcher.env[index].resolve(host).unwrap().1
        }),
{
    let pairs = resolved_pairs(launcher.env, host);
    let mounts = mounts_args(launcher.mounts);
    let clear = flag(!launcher.inherit_env, "--clearenv"@);
    let set = setenv_args(pairs);
    lemma_setenv_layout(pairs, index);
    lemma_concat_assoc(mounts + clear + set, launcher.flags(), seq![SEPARATOR@]);
    lemma_third_run(mounts, clear, set, launcher.flags() + seq![SEPARATOR@], 3 * index);
    lemma_third_run(mounts, clear, set, launcher.flags() + seq![SEPARATOR@], 3 * index + 1);
    lemma_third_run(mounts, clear, set, launcher.flags() + seq![SEPARATOR@], 3 * index + 2);
}

/// In a list made of three runs and a tail, the entries of the first run and
/// of the third are found at their places.
proof fn lemma_third_run<A>(first: Seq<A>, second: Seq<A>, third: Seq<A>, tail: Seq<A>, at: int)
    requires
        0 <= at < third.len(),
    ensures
        ({
            let all = first + second + third + tail;
            &&& first.len() + second.len() + at < all.len()
            &&& all[first.len() + second.len() + at] == third[at]
            &&& second.len() > 0 ==> all[first.len() as int] == second[0]
        }),
{
}

/// A launcher with a pass-through of a variable that the environment lacks
/// does not translate: the translation fails with `MissingHostVariable`,
/// naming a pass-through variable of the launcher that the environment
/// lacks, and gives no invocation.
pub proof fn lemma_missing_variable_fails_translation(
    launcher: BubLauncherView,
    host: Map<Seq<char>, Seq<char>>,
    at: int,
)
    requires
        0 <= at < launcher.env.len(),
        launcher.env[at] is Pass,
        !host.contains_key(launcher.env[at].key()),
    ensures
        launcher.translate(host) matches Err(CellarErrorView::MissingHostVariable(name))
            && !host.contains_key(name) && launcher.env.contains(EnvVarView::Pass(name)),
{
    lemma_missing_pass_through_fails(launcher.env, host, at);
}

} // verus!
