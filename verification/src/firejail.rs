//! The profile-based sandbox: path allow and deny lists, a profile and a
//! fixed set of capability restrictions turned into the argument vector of
//! `firejail`. This backend takes no bind mounts and no environment actions.

use crate::invocation::{
    flag, lemma_concat_assoc, push_flag, push_text, Invocation, InvocationView, SEPARATOR,
};
use crate::text::join_text;
use vstd::prelude::*;

verus! {

/// The sandbox binary that the argument vector is for.
pub const FIREJAIL_PROGRAM: &'static str = "/usr/bin/firejail";

/// Whether a fresh launcher drops every capability.
pub const DEFAULT_CAPS_DROP_ALL: bool = true;

/// Whether a fresh launcher forbids gaining privileges.
pub const DEFAULT_NO_NEW_PRIVS: bool = true;

/// Whether a fresh launcher hides the root user.
pub const DEFAULT_NO_ROOT: bool = true;

/// Whether a fresh launcher filters system calls.
pub const DEFAULT_SECCOMP: bool = true;

/// Whether a fresh launcher drops supplementary groups.
pub const DEFAULT_NO_GROUPS: bool = false;

/// Whether a fresh launcher gives the sandbox a device directory of its own.
pub const DEFAULT_PRIVATE_DEV: bool = false;

/// Whether a fresh launcher gives the sandbox a temporary directory of its
/// own.
pub const DEFAULT_PRIVATE_TMP: bool = false;

/// The display server that stands between the sandbox and the host's.
#[derive(Debug, Clone, Copy, PartialEq, Eq, Structural)]
pub enum X11Sandbox {
    Xephyr,
    Xorg,
    Xpra,
    Xvfb,
}

impl X11Sandbox {
    /// The flag that asks for this display server.
    pub open spec fn arg(self) -> Seq<char> {
        match self {
            X11Sandbox::Xephyr => "--x11=xephyr"@,
            X11Sandbox::Xorg => "--x11=xorg"@,
            X11Sandbox::Xpra => "--x11=xpra"@,
            X11Sandbox::Xvfb => "--x11=xvfb"@,
        }
    }

    /// The flag that asks for this display server.
    pub fn to_arg(self) -> (r: &'static str)
        ensures
            r@ == self.arg(),
    {
        match self {
            X11Sandbox::Xephyr => "--x11=xephyr",
            X11Sandbox::Xorg => "--x11=xorg",
            X11Sandbox::Xpra => "--x11=xpra",
            X11Sandbox::Xvfb => "--x11=xvfb",
        }
    }
}

/// A launch under the profile-based sandbox.
#[derive(Debug)]
pub struct FirejailLauncher {
    whitelist: Vec<String>,
    blacklist: Vec<String>,
    profile: Option<String>,
    x11: Option<X11Sandbox>,
    caps_drop_all: bool,
    no_new_privs: bool,
    no_root: bool,
    seccomp: bool,
    no_groups: bool,
    private_dev: bool,
    private_tmp: bool,
}

/// The mathematical content of a [`FirejailLauncher`].
pub struct FirejailLauncherView {
    pub whitelist: Seq<Seq<char>>,
    pub blacklist: Seq<Seq<char>>,
    pub profile: Option<Seq<char>>,
    pub x11: Option<X11Sandbox>,
    pub caps_drop_all: bool,
    pub no_new_privs: bool,
    pub no_root: bool,
    pub seccomp: bool,
    pub no_groups: bool,
    pub private_dev: bool,
    pub private_tmp: bool,
}

impl View for FirejailLauncher {
    type V = FirejailLauncherView;

    closed spec fn view(&self) -> FirejailLauncherView {
        FirejailLauncherView {
            whitelist: self.whitelist.deep_view(),
            blacklist: self.blacklist.deep_view(),
            profile: match self.profile {
                Some(p) => Some(p@),
                None => None,
            },
            x11: self.x11,
            caps_drop_all: self.caps_drop_all,
            no_new_privs: self.no_new_privs,
            no_root: self.no_root,
            seccomp: self.seccomp,
            no_groups: self.no_groups,
            private_dev: self.private_dev,
            private_tmp: self.private_tmp,
        }
    }
}

/// One argument for each path of `paths`: the path behind `prefix`.
pub open spec fn prefixed(prefix: Seq<char>, paths: Seq<Seq<char>>) -> Seq<Seq<char>> {
    paths.map_values(|p: Seq<char>| prefix + p)
}

impl FirejailLauncherView {
    /// The launcher that nothing has been added to: no path allowed or
    /// denied, no profile, no display server, and the default restrictions.
    pub open spec fn initial() -> FirejailLauncherView {
        FirejailLauncherView {
            whitelist: Seq::empty(),
            blacklist: Seq::empty(),
            profile: None,
            x11: None,
            caps_drop_all: DEFAULT_CAPS_DROP_ALL,
            no_new_privs: DEFAULT_NO_NEW_PRIVS,
            no_root: DEFAULT_NO_ROOT,
            seccomp: DEFAULT_SECCOMP,
            no_groups: DEFAULT_NO_GROUPS,
            private_dev: DEFAULT_PRIVATE_DEV,
            private_tmp: DEFAULT_PRIVATE_TMP,
        }
    }

    /// The one argument that selects the profile: the profile's path, or the
    /// request for none.
    pub open spec fn profile_arg(self) -> Seq<char> {
        match self.profile {
            Some(path) => "--profile="@ + path,
            None => "--noprofile"@,
        }
    }

    /// The argument that asks for a display server, if one was chosen.
    pub open spec fn x11_args(self) -> Seq<Seq<char>> {
        match self.x11 {
            Some(x11) => seq![x11.arg()],
            None => Seq::empty(),
        }
    }

    /// The capability restrictions that are switched on, in their fixed
    /// order.
    pub open spec fn restrictions(self) -> Seq<Seq<char>> {
        flag(self.caps_drop_all, "--caps.drop=all"@) + flag(self.no_new_privs, "--nonewprivs"@)
            + flag(self.no_root, "--noroot"@) + flag(self.seccomp, "--seccomp"@) + flag(
            self.no_groups,
            "--nogroups"@,
        ) + flag(self.private_dev, "--private-dev"@) + flag(self.private_tmp, "--private-tmp"@)
    }

    /// The argument vector: the allowed paths, the denied paths, the profile
    /// selection, the display server, the restrictions and the separator.
    pub open spec fn args(self) -> Seq<Seq<char>> {
        prefixed("--whitelist="@, self.whitelist) + prefixed("--blacklist="@, self.blacklist)
            + seq![self.profile_arg()] + self.x11_args() + self.restrictions() + seq![SEPARATOR@]
    }

    /// What translating this launcher gives.
    pub open spec fn invocation(self) -> InvocationView {
        InvocationView::bare(FIREJAIL_PROGRAM@).with_args(self.args())
    }
}

/// Appends one argument for each path of `paths`: the path behind `prefix`.
fn push_prefixed(args: &mut Vec<String>, prefix: &str, paths: &Vec<String>)
    ensures
        final(args).deep_view() == old(args).deep_view() + prefixed(prefix@, paths.deep_view()),
{
    let ghost before = args.deep_view();
    let ghost all = prefixed(prefix@, paths.deep_view());
    let mut i: usize = 0;
    assert(args.deep_view() =~= before + all.subrange(0, 0));
    while i < paths.len()
        invariant
            i <= paths.len(),
            all == prefixed(prefix@, paths.deep_view()),
            args.deep_view() == before + all.subrange(0, i as int),
        decreases paths.len() - i,
    {
        let arg = join_text(prefix, paths[i].as_str());
        push_text(args, arg.as_str());
        assert(args.deep_view() =~= before + all.subrange(0, i + 1));
        i = i + 1;
    }
    assert(all.subrange(0, i as int) =~= all);
}

impl Default for FirejailLauncher {
    fn default() -> (r: FirejailLauncher)
        ensures
            r@ == FirejailLauncherView::initial(),
    {
        let r = FirejailLauncher {
            whitelist: Vec::new(),
            blacklist: Vec::new(),
            profile: None,
            x11: None,
            caps_drop_all: DEFAULT_CAPS_DROP_ALL,
            no_new_privs: DEFAULT_NO_NEW_PRIVS,
            no_root: DEFAULT_NO_ROOT,
            seccomp: DEFAULT_SECCOMP,
            no_groups: DEFAULT_NO_GROUPS,
            private_dev: DEFAULT_PRIVATE_DEV,
            private_tmp: DEFAULT_PRIVATE_TMP,
        };
        assert(r.whitelist.deep_view() =~= Seq::empty());
        assert(r.blacklist.deep_view() =~= Seq::empty());
        r
    }
}

impl FirejailLauncher {
    /// Translates the launcher into the invocation of the sandbox binary. The
    /// result depends on nothing but the launcher's content.
    pub fn command(self) -> (r: Invocation)
        ensures
            r@ == self@.invocation(),
    {
        let mut cmd = Invocation::new(FIREJAIL_PROGRAM);
        push_prefixed(&mut cmd.args, "--whitelist=", &self.whitelist);
        push_prefixed(&mut cmd.args, "--blacklist=", &self.blacklist);
        match &self.profile {
            Some(path) => {
                let arg = join_text("--profile=", path.as_str());
                push_text(&mut cmd.args, arg.as_str());
            },
            None => {
                push_text(&mut cmd.args, "--noprofile");
            },
        }
        let ghost upto_profile = cmd.args.deep_view();
        match self.x11 {
            Some(x11) => {
                push_text(&mut cmd.args, x11.to_arg());
            },
            None => {},
        }
        assert(cmd.args.deep_view() =~= upto_profile + self@.x11_args());
        self.push_restrictions(&mut cmd.args);
        push_text(&mut cmd.args, SEPARATOR);
        proof {
            let view = self@;
            let a = prefixed("--whitelist="@, view.whitelist);
            let b = prefixed("--blacklist="@, view.blacklist);
            let c = seq![view.profile_arg()];
            let d = view.x11_args();
            let e = view.restrictions();
            let f = seq![SEPARATOR@];
            let empty = Seq::<Seq<char>>::empty();
            assert(empty + a =~= a);
            assert(upto_profile =~= a + b + c);
            assert(cmd@.args =~= a + b + c + d + e + f);
        }
        cmd
    }

    /// Appends the capability restrictions that are switched on.
    fn push_restrictions(&self, args: &mut Vec<String>)
        ensures
            final(args).deep_view() == old(args).deep_view() + self@.restrictions(),
    {
        let ghost before = args.deep_view();
        let ghost mut acc = flag(self.caps_drop_all, "--caps.drop=all"@);
        push_flag(args, self.caps_drop_all, "--caps.drop=all");
        push_flag(args, self.no_new_privs, "--nonewprivs");
        proof {
            lemma_concat_assoc(before, acc, flag(self.no_new_privs, "--nonewprivs"@));
            acc = acc + flag(self.no_new_privs, "--nonewprivs"@);
        }
        push_flag(args, self.no_root, "--noroot");
        proof {
            lemma_concat_assoc(before, acc, flag(self.no_root, "--noroot"@));
            acc = acc + flag(self.no_root, "--noroot"@);
        }
        push_flag(args, self.seccomp, "--seccomp");
        proof {
            lemma_concat_assoc(before, acc, flag(self.seccomp, "--seccomp"@));
            acc = acc + flag(self.seccomp, "--seccomp"@);
        }
        push_flag(args, self.no_groups, "--nogroups");
        proof {
            lemma_concat_assoc(before, acc, flag(self.no_groups, "--nogroups"@));
            acc = acc + flag(self.no_groups, "--nogroups"@);
        }
        push_flag(args, self.private_dev, "--private-dev");
        proof {
            lemma_concat_assoc(before, acc, flag(self.private_dev, "--private-dev"@));
            acc = acc + flag(self.private_dev, "--private-dev"@);
        }
        push_flag(args, self.private_tmp, "--private-tmp");
        proof {
            lemma_concat_assoc(before, acc, flag(self.private_tmp, "--private-tmp"@));
            acc = acc + flag(self.private_tmp, "--private-tmp"@);
        }
    }

    /// Allows the sandbox to see `path`. Allowed paths are written in the
    /// order they were added.
    pub fn whitelist(&mut self, path: &str) -> (r: &mut FirejailLauncher)
        ensures
            r@ == (FirejailLauncherView {
                whitelist: old(self)@.whitelist.push(path@),
                ..old(self)@
            }),
            *final(self) == *final(r),
    {
        push_text(&mut self.whitelist, path);
        self
    }

    /// Hides `path` from the sandbox. Denied paths are written in the order
    /// they were added.
    pub fn blacklist(&mut self, path: &str) -> (r: &mut FirejailLauncher)
        ensures
            r@ == (FirejailLauncherView {
                blacklist: old(self)@.blacklist.push(path@),
                ..old(self)@
            }),
            *final(self) == *final(r),
    {
        push_text(&mut self.blacklist, path);
        self
    }

    /// Selects the profile at `path`.
    pub fn profile(&mut self, path: &str) -> (r: &mut FirejailLauncher)
        ensures
            r@ == (FirejailLauncherView { profile: Some(path@), ..old(self)@ }),
            *final(self) == *final(r),
    {
        self.profile = Some(path.to_owned());
        self
    }

    /// Selects no profile.
    pub fn no_profile(&mut self) -> (r: &mut FirejailLauncher)
        ensures
            r@ == (FirejailLauncherView { profile: None, ..old(self)@ }),
            *final(self) == *final(r),
    {
        self.profile = None;
        self
    }

    /// Puts the display server `x11` between the sandbox and the host's.
    pub fn x11(&mut self, x11: X11Sandbox) -> (r: &mut FirejailLauncher)
        ensures
            r@ == (FirejailLauncherView { x11: Some(x11), ..old(self)@ }),
            *final(self) == *final(r),
    {
        self.x11 = Some(x11);
        self
    }

    /// Lets the sandbox talk to the host's display server directly.
    pub fn no_x11(&mut self) -> (r: &mut FirejailLauncher)
        ensures
            r@ == (FirejailLauncherView { x11: None, ..old(self)@ }),
            *final(self) == *final(r),
    {
        self.x11 = None;
        self
    }

    /// Chooses whether the sandbox drops every capability.
    pub fn caps_drop_all(&mut self, on: bool) -> (r: &mut FirejailLauncher)
        ensures
            r@ == (FirejailLauncherView { caps_drop_all: on, ..old(self)@ }),
            *final(self) == *final(r),
    {
        self.caps_drop_all = on;
        self
    }

    /// Chooses whether the sandbox is forbidden to gain privileges.
    pub fn no_new_privs(&mut self, on: bool) -> (r: &mut FirejailLauncher)
        ensures
            r@ == (FirejailLauncherView { no_new_privs: on, ..old(self)@ }),
            *final(self) == *final(r),
    {
        self.no_new_privs = on;
        self
    }

    /// Chooses whether the root user is hidden from the sandbox.
    pub fn no_root(&mut self, on: bool) -> (r: &mut FirejailLauncher)
        ensures
            r@ == (FirejailLauncherView { no_root: on, ..old(self)@ }),
            *final(self) == *final(r),
    {
        self.no_root = on;
        self
    }

    /// Chooses whether the system calls of the sandbox are filtered.
    pub fn seccomp(&mut self, on: bool) -> (r: &mut FirejailLauncher)
        ensures
            r@ == (FirejailLauncherView { seccomp: on, ..old(self)@ }),
            *final(self) == *final(r),
    {
        self.seccomp = on;
        self
    }

    /// Chooses whether the sandbox drops supplementary groups.
    pub fn no_groups(&mut self, on: bool) -> (r: &mut FirejailLauncher)
        ensures
            r@ == (FirejailLauncherView { no_groups: on, ..old(self)@ }),
            *final(self) == *final(r),
    {
        self.no_groups = on;
        self
    }

    /// Chooses whether the sandbox gets a device directory of its own.
    pub fn private_dev(&mut self, on: bool) -> (r: &mut FirejailLauncher)
        ensures
            r@ == (FirejailLauncherView { private_dev: on, ..old(self)@ }),
            *final(self) == *final(r),
    {
        self.private_dev = on;
        self
    }

    /// Chooses whether the sandbox gets a temporary directory of its own.
    pub fn private_tmp(&mut self, on: bool) -> (r: &mut FirejailLauncher)
        ensures
            r@ == (FirejailLauncherView { private_tmp: on, ..old(self)@ }),
            *final(self) == *final(r),
    {
        self.private_tmp = on;
        self
    }
}

/// The bytes of each argument of an invocation, as the operating system is
/// handed them.
pub open spec fn argument_bytes(invocation: InvocationView) -> Seq<Seq<u8>> {
    invocation.args.map_values(|a: Seq<char>| vstd::utf8::encode_utf8(a))
}

/// Translation is deterministic: launchers of the same content translate to
/// the same invocation, argument for argument and byte for byte.
pub proof fn lemma_translation_is_deterministic(a: FirejailLauncher, b: FirejailLauncher)
    requires
        a@ == b@,
    ensures
        a@.invocation() == b@.invocation(),
        argument_bytes(a@.invocation()) == argument_bytes(b@.invocation()),
{
}

/// The arguments stand in a fixed order: every allowed path in the order it
/// was added, then every denied path in the order it was added, then the one
/// argument that selects the profile or asks for none, then the display
/// server, the restrictions that are on, and the separator last.
pub proof fn lemma_argument_order(launcher: FirejailLauncherView)
    ensures
        ({
            let args = launcher.args();
            let allowed = launcher.whitelist.len() as int;
            let denied = launcher.blacklist.len() as int;
            &&& allowed + denied + 1 < args.len()
            &&& forall|i: int|
                0 <= i < allowed ==> #[trigger] args[i] == "--whitelist="@ + launcher.whitelist[i]
            &&& forall|i: int|
                0 <= i < denied ==> #[trigger] args[allowed + i] == "--blacklist="@
                    + launcher.blacklist[i]
            &&& args[allowed + denied] == launcher.profile_arg()
            &&& args.subrange(allowed + denied + 1, args.len() as int) == launcher.x11_args()
                + launcher.restrictions() + seq![SEPARATOR@]
            &&& args.last() == SEPARATOR@
        }),
{
    let allowed = prefixed("--whitelist="@, launcher.whitelist);
    let denied = prefixed("--blacklist="@, launcher.blacklist);
    let head = allowed + denied + seq![launcher.profile_arg()];
    let x11 = launcher.x11_args();
    let restrictions = launcher.restrictions();
    let end = seq![SEPARATOR@];
    lemma_concat_assoc(head, x11, restrictions);
    lemma_concat_assoc(head, x11 + restrictions, end);
    lemma_head_and_tail(allowed, denied, launcher.profile_arg(), x11 + restrictions + end);
}

/// In a list made of two runs, one entry and a tail, each piece is found at
/// its place.
proof fn lemma_head_and_tail<A>(first: Seq<A>, second: Seq<A>, entry: A, tail: Seq<A>)
    ensures
        ({
            let all = first + second + seq![entry] + tail;
            &&& all.len() == first.len() + second.len() + 1 + tail.len()
            &&& forall|i: int| 0 <= i < first.len() ==> #[trigger] all[i] == first[i]
            &&& forall|i: int|
                0 <= i < second.len() ==> #[trigger] all[first.len() + i] == second[i]
            &&& all[first.len() + second.len() as int] == entry
            &&& all.subrange(first.len() + second.len() + 1 as int, all.len() as int) == tail
        }),
{
    let all = first + second + seq![entry] + tail;
    assert(all.subrange(first.len() + second.len() + 1 as int, all.len() as int) =~= tail);
}

} // verus!
