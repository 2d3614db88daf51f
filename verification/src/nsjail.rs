//! The syscall-filtering jail: identity and environment go on the command
//! line, mounts and symbolic links into a generated configuration file that
//! the command line names.

use crate::env::{EnvVar, EnvVarView};
use crate::error::{CellarError, CellarErrorView};
use crate::invocation::{push_text, Invocation, InvocationView, SEPARATOR};
use crate::layout::lemma_flatten_block;
use crate::text::{bool_text, bool_to_text, decimal, u64_to_decimal};
use vstd::prelude::*;
use vstd::string::StringExecFns;

verus! {

/// The jail binary that the argument vector is for.
pub const NSJAIL_PROGRAM: &'static str = "/usr/bin/nsjail";

/// Where the generated configuration is written unless another place is
/// chosen, relative to the working directory of whoever launches the jail.
pub const JAIL_CONFIG_PATH: &'static str = "./jail.proto";

/// Where the process-information file system is mounted.
pub const PROC_PATH: &'static str = "/proc";

/// The host name that the jail is given.
pub const JAIL_HOSTNAME: &'static str = "vanilla";

/// The user that a fresh jail runs as.
pub const DEFAULT_USER: u64 = 1000;

/// The group that a fresh jail runs as.
pub const DEFAULT_GROUP: u64 = 984;

/// What a mount of the jail puts in place.
#[derive(Debug, PartialEq, Eq)]
pub enum NSMountType {
    /// The host's `src` made visible at `dest`.
    BindMount { src: String, dest: String },
    /// An empty in-memory file system at `dest`.
    TmpFs { dest: String },
    /// The process-information file system of the jail.
    ProcFs,
}

/// The mathematical content of an [`NSMountType`].
pub enum NSMountTypeView {
    BindMount { src: Seq<char>, dest: Seq<char> },
    TmpFs { dest: Seq<char> },
    ProcFs,
}

impl View for NSMountType {
    type V = NSMountTypeView;

    open spec fn view(&self) -> NSMountTypeView {
        match *self {
            NSMountType::BindMount { src, dest } => NSMountTypeView::BindMount {
                src: src@,
                dest: dest@,
            },
            NSMountType::TmpFs { dest } => NSMountTypeView::TmpFs { dest: dest@ },
            NSMountType::ProcFs => NSMountTypeView::ProcFs,
        }
    }
}

impl NSMountTypeView {
    /// Where in the jail the mount appears.
    pub open spec fn dest(self) -> Seq<char> {
        match self {
            NSMountTypeView::BindMount { src, dest } => dest,
            NSMountTypeView::TmpFs { dest } => dest,
            NSMountTypeView::ProcFs => PROC_PATH@,
        }
    }
}

impl NSMountType {
    /// Where in the jail the mount appears. Every kind of mount has such a
    /// place; the process-information file system has a fixed one.
    pub fn dest(&self) -> (r: Option<&str>)
        ensures
            r matches Some(d) && d@ == self@.dest(),
    {
        match self {
            NSMountType::BindMount { src, dest } => Some(dest.as_str()),
            NSMountType::TmpFs { dest } => Some(dest.as_str()),
            NSMountType::ProcFs => Some(PROC_PATH),
        }
    }
}

/// One mount of the jail: what is mounted and how.
#[derive(Debug, PartialEq, Eq)]
pub struct NSMount {
    kind: NSMountType,
    readwrite: bool,
    mandatory: bool,
    noexec: bool,
}

/// The mathematical content of an [`NSMount`].
pub struct NSMountView {
    pub kind: NSMountTypeView,
    pub readwrite: bool,
    pub mandatory: bool,
    pub noexec: bool,
}

impl View for NSMount {
    type V = NSMountView;

    closed spec fn view(&self) -> NSMountView {
        NSMountView {
            kind: self.kind@,
            readwrite: self.readwrite,
            mandatory: self.mandatory,
            noexec: self.noexec,
        }
    }
}

impl DeepView for NSMount {
    type V = NSMountView;

    open spec fn deep_view(&self) -> NSMountView {
        self@
    }
}

impl NSMountView {
    /// The mount of the process-information file system: read-only,
    /// mandatory, nothing in it executable.
    pub open spec fn proc() -> NSMountView {
        NSMountView {
            kind: NSMountTypeView::ProcFs,
            readwrite: false,
            mandatory: true,
            noexec: true,
        }
    }

    /// The writable, mandatory bind of `src` at `dest`.
    pub open spec fn bind(src: Seq<char>, dest: Seq<char>) -> NSMountView {
        NSMountView {
            kind: NSMountTypeView::BindMount { src, dest },
            readwrite: true,
            mandatory: true,
            noexec: false,
        }
    }

    /// The writable, mandatory in-memory file system at `dest`.
    pub open spec fn temp(dest: Seq<char>) -> NSMountView {
        NSMountView {
            kind: NSMountTypeView::TmpFs { dest },
            readwrite: true,
            mandatory: true,
            noexec: false,
        }
    }

    /// The block of the configuration file that states this mount: the three
    /// switches, then what is mounted and where, between `mount {` and a
    /// closing brace, ended by a line feed.
    pub open spec fn proto_text(self) -> Seq<char> {
        let head = "mount { "@ + "rw: "@ + bool_text(self.readwrite) + " "@ + "mandatory: "@
            + bool_text(self.mandatory) + " "@ + "noexec: "@ + bool_text(self.noexec) + " "@;
        let body = match self.kind {
            NSMountTypeView::BindMount { src, dest } => head + "src: \""@ + src + "\" "@
                + "dst: \""@ + dest + "\" "@ + "is_bind: true "@,
            NSMountTypeView::TmpFs { dest } => head + "dst: \""@ + dest + "\" "@
                + "fstype: \"tmpfs\" "@,
            NSMountTypeView::ProcFs => head + "dst: \"/proc\""@ + "fstype: \"proc\""@,
        };
        body + "}\n"@
    }

    /// The flag that states this mount on the command line.
    pub open spec fn write_flag(self) -> Seq<char> {
        match self.kind {
            NSMountTypeView::BindMount { src, dest } => if self.readwrite {
                "--bindmount"@
            } else {
                "--bindmount_ro"@
            },
            NSMountTypeView::TmpFs { dest } => "-m"@,
            NSMountTypeView::ProcFs => "-m"@,
        }
    }

    /// The operand of [`Self::write_flag`]: `src:dest` for a bind, and the
    /// source `none`, the destination, the file-system type and an empty
    /// option list, joined by colons, for the others.
    pub open spec fn write_operand(self) -> Seq<char> {
        match self.kind {
            NSMountTypeView::BindMount { src, dest } => src + ":"@ + dest,
            NSMountTypeView::TmpFs { dest } => "none:"@ + dest + ":tmpfs:"@,
            NSMountTypeView::ProcFs => "none:"@ + PROC_PATH@ + ":proc:"@,
        }
    }
}

impl NSMount {
    /// The mount of the process-information file system.
    pub fn proc() -> (r: NSMount)
        ensures
            r@ == NSMountView::proc(),
    {
        NSMount { kind: NSMountType::ProcFs, readwrite: false, mandatory: true, noexec: true }
    }

    /// A bind of `src` at `dest` that cannot be written through.
    pub fn readonly(src: &str, dest: &str) -> (r: NSMount)
        ensures
            r@ == (NSMountView { readwrite: false, ..NSMountView::bind(src@, dest@) }),
    {
        let mut s = Self::bind(src, dest);
        s.readwrite = false;
        s
    }

    /// A bind of `src` at `dest`, writable and mandatory.
    pub fn bind(src: &str, dest: &str) -> (r: NSMount)
        ensures
            r@ == NSMountView::bind(src@, dest@),
    {
        NSMount {
            kind: NSMountType::BindMount { src: src.to_owned(), dest: dest.to_owned() },
            readwrite: true,
            mandatory: true,
            noexec: false,
        }
    }

    /// An in-memory file system at `dest`, writable and mandatory.
    pub fn temp(dest: &str) -> (r: NSMount)
        ensures
            r@ == NSMountView::temp(dest@),
    {
        NSMount {
            kind: NSMountType::TmpFs { dest: dest.to_owned() },
            readwrite: true,
            mandatory: true,
            noexec: false,
        }
    }

    /// Forbids writing through the mount.
    pub fn make_readonly(&mut self) -> (r: &mut NSMount)
        ensures
            r@ == (NSMountView { readwrite: false, ..old(self)@ }),
            *final(self) == *final(r),
    {
        self.readwrite = false;
        self
    }

    /// Allows writing through the mount.
    pub fn make_readwrite(&mut self) -> (r: &mut NSMount)
        ensures
            r@ == (NSMountView { readwrite: true, ..old(self)@ }),
            *final(self) == *final(r),
    {
        self.readwrite = true;
        self
    }

    /// Makes the jail fail to start when the mount cannot be made.
    pub fn mandatory(&mut self) -> (r: &mut NSMount)
        ensures
            r@ == (NSMountView { mandatory: true, ..old(self)@ }),
            *final(self) == *final(r),
    {
        self.mandatory = true;
        self
    }

    /// Lets the jail start even when the mount cannot be made.
    pub fn not_mandatory(&mut self) -> (r: &mut NSMount)
        ensures
            r@ == (NSMountView { mandatory: false, ..old(self)@ }),
            *final(self) == *final(r),
    {
        self.mandatory = false;
        self
    }

    /// What is mounted.
    pub fn kind(&self) -> (r: &NSMountType)
        ensures
            r@ == self@.kind,
    {
        &self.kind
    }

    /// The block of the configuration file that states this mount.
    pub fn into_proto_text(self) -> (r: String)
        ensures
            r@ == self@.proto_text(),
    {
        self.block()
    }

    /// The block of the configuration file that states this mount, written
    /// without giving the mount up.
    fn block(&self) -> (r: String)
        ensures
            r@ == self@.proto_text(),
    {
        let mut f = "mount { ".to_owned();
        f.append("rw: ");
        f.append(bool_to_text(self.readwrite));
        f.append(" ");
        f.append("mandatory: ");
        f.append(bool_to_text(self.mandatory));
        f.append(" ");
        f.append("noexec: ");
        f.append(bool_to_text(self.noexec));
        f.append(" ");
        match &self.kind {
            NSMountType::BindMount { src, dest } => {
                f.append("src: \"");
                f.append(src.as_str());
                f.append("\" ");
                f.append("dst: \"");
                f.append(dest.as_str());
                f.append("\" ");
                f.append("is_bind: true ");
            },
            NSMountType::TmpFs { dest } => {
                f.append("dst: \"");
                f.append(dest.as_str());
                f.append("\" ");
                f.append("fstype: \"tmpfs\" ");
            },
            NSMountType::ProcFs => {
                f.append("dst: \"/proc\"");
                f.append("fstype: \"proc\"");
            },
        }
        f.append("}\n");
        f
    }

    /// This mount as a flag of the jail's command line and the flag's
    /// operand, for a jail that is given no configuration file.
    pub fn to_write_arg(&self) -> (r: (&'static str, String))
        ensures
            r.0@ == self@.write_flag(),
            r.1@ == self@.write_operand(),
    {
        match &self.kind {
            NSMountType::BindMount { src, dest } => {
                let mut map = src.clone();
                map.append(":");
                map.append(dest.as_str());
                let arg = if self.readwrite {
                    "--bindmount"
                } else {
                    "--bindmount_ro"
                };
                (arg, map)
            },
            NSMountType::TmpFs { dest } => {
                let mut map = "none:".to_owned();
                map.append(dest.as_str());
                map.append(":tmpfs:");
                ("-m", map)
            },
            NSMountType::ProcFs => {
                let mut map = "none:".to_owned();
                map.append(PROC_PATH);
                map.append(":proc:");
                ("-m", map)
            },
        }
    }
}

/// A symbolic link inside the jail: `dest` points at `src`.
#[derive(Debug, PartialEq, Eq)]
pub struct NSSymlink {
    src: String,
    dest: String,
}

/// The mathematical content of an [`NSSymlink`].
pub struct NSSymlinkView {
    pub src: Seq<char>,
    pub dest: Seq<char>,
}

impl View for NSSymlink {
    type V = NSSymlinkView;

    closed spec fn view(&self) -> NSSymlinkView {
        NSSymlinkView { src: self.src@, dest: self.dest@ }
    }
}

impl DeepView for NSSymlink {
    type V = NSSymlinkView;

    open spec fn deep_view(&self) -> NSSymlinkView {
        self@
    }
}

impl NSSymlinkView {
    /// The block of the configuration file that states this link.
    pub open spec fn proto_text(self) -> Seq<char> {
        "mount { "@ + "src: \""@ + self.src + "\" "@ + "dst: \""@ + self.dest + "\" "@
            + "is_symlink: true "@ + "}\n"@
    }
}

impl NSSymlink {
    /// The link at `dest` that points at `src`.
    pub fn new(src: &str, dest: &str) -> (r: NSSymlink)
        ensures
            r@ == (NSSymlinkView { src: src@, dest: dest@ }),
    {
        NSSymlink { src: src.to_owned(), dest: dest.to_owned() }
    }

    /// The block of the configuration file that states this link.
    pub fn into_proto_text(self) -> (r: String)
        ensures
            r@ == self@.proto_text(),
    {
        self.block()
    }

    /// The block of the configuration file that states this link, written
    /// without giving the link up.
    fn block(&self) -> (r: String)
        ensures
            r@ == self@.proto_text(),
    {
        let mut f = "mount { ".to_owned();
        f.append("src: \"");
        f.append(self.src.as_str());
        f.append("\" ");
        f.append("dst: \"");
        f.append(self.dest.as_str());
        f.append("\" ");
        f.append("is_symlink: true ");
        f.append("}\n");
        f
    }
}

impl<'a, 'b> From<(&'a str, &'b str)> for NSSymlink {
    /// A pair stands for the link at its second part that points at its
    /// first.
    fn from(pair: (&'a str, &'b str)) -> (r: NSSymlink)
        ensures
            r@ == (NSSymlinkView { src: pair.0@, dest: pair.1@ }),
    {
        NSSymlink::new(pair.0, pair.1)
    }
}

impl<'a, 'b> vstd::std_specs::convert::FromSpecImpl<(&'a str, &'b str)> for NSSymlink {
    open spec fn obeys_from_spec() -> bool {
        false
    }

    open spec fn from_spec(pair: (&'a str, &'b str)) -> NSSymlink {
        arbitrary()
    }
}

/// One environment action as the jail takes it.
#[derive(Debug, PartialEq, Eq)]
pub enum NSEnvVar {
    /// Set the variable to a value.
    Assign(String, String),
    /// Keep the value that the variable has in the jail's own environment.
    Keep(String),
}

/// The mathematical content of an [`NSEnvVar`].
pub enum NSEnvVarView {
    Assign(Seq<char>, Seq<char>),
    Keep(Seq<char>),
}

impl View for NSEnvVar {
    type V = NSEnvVarView;

    open spec fn view(&self) -> NSEnvVarView {
        match *self {
            NSEnvVar::Assign(k, v) => NSEnvVarView::Assign(k@, v@),
            NSEnvVar::Keep(k) => NSEnvVarView::Keep(k@),
        }
    }
}

impl DeepView for NSEnvVar {
    type V = NSEnvVarView;

    open spec fn deep_view(&self) -> NSEnvVarView {
        self@
    }
}

impl NSEnvVarView {
    /// The operand of `--env` that states the action: the bare name to keep a
    /// variable, `name=value` to set one.
    pub open spec fn operand(self) -> Seq<char> {
        match self {
            NSEnvVarView::Keep(k) => k,
            NSEnvVarView::Assign(k, v) => k + "="@ + v,
        }
    }

    /// The flag and operand that state the action.
    pub open spec fn args(self) -> Seq<Seq<char>> {
        seq!["--env"@, self.operand()]
    }

    /// The jail's form of a backend-agnostic action: a pass-through is kept,
    /// a literal is set.
    pub open spec fn of(var: EnvVarView) -> NSEnvVarView {
        match var {
            EnvVarView::Pass(k) => NSEnvVarView::Keep(k),
            EnvVarView::KeyValue(k, v) => NSEnvVarView::Assign(k, v),
        }
    }
}

impl NSEnvVar {
    /// The action that keeps the variable `name`.
    pub fn keep(name: &str) -> (r: NSEnvVar)
        ensures
            r@ == NSEnvVarView::Keep(name@),
    {
        NSEnvVar::Keep(name.to_owned())
    }

    /// The action that sets `key` to `value`.
    pub fn set(key: &str, value: &str) -> (r: NSEnvVar)
        ensures
            r@ == NSEnvVarView::Assign(key@, value@),
    {
        NSEnvVar::Assign(key.to_owned(), value.to_owned())
    }

    /// The jail's form of a backend-agnostic action. A pass-through stays
    /// unresolved: the jail copies the variable from its own environment.
    pub fn of(var: EnvVar) -> (r: NSEnvVar)
        ensures
            r@ == NSEnvVarView::of(var@),
    {
        match var {
            EnvVar::Pass(k) => NSEnvVar::Keep(k),
            EnvVar::KeyValue(k, v) => NSEnvVar::Assign(k, v),
        }
    }

    /// The flag and operand that state the action.
    pub fn to_arg(self) -> (r: (&'static str, String))
        ensures
            seq![r.0@, r.1@] == self@.args(),
    {
        match self {
            NSEnvVar::Keep(s) => ("--env", s),
            NSEnvVar::Assign(key, value) => {
                let mut operand = key;
                operand.append("=");
                operand.append(value.as_str());
                ("--env", operand)
            },
        }
    }
}

/// The configuration blocks of `mounts`, one for each, in order.
pub open spec fn mount_blocks(mounts: Seq<NSMountView>) -> Seq<Seq<char>> {
    mounts.map_values(|m: NSMountView| m.proto_text())
}

/// The configuration blocks of `links`, one for each, in order.
pub open spec fn link_blocks(links: Seq<NSSymlinkView>) -> Seq<Seq<char>> {
    links.map_values(|l: NSSymlinkView| l.proto_text())
}

/// The arguments that state `env`, a flag and an operand for each action, in
/// order.
pub open spec fn env_args(env: Seq<NSEnvVarView>) -> Seq<Seq<char>> {
    env.map_values(|e: NSEnvVarView| e.args()).flatten()
}

/// Whether one of `mounts` is the process-information file system.
pub open spec fn has_proc(mounts: Seq<NSMountView>) -> bool {
    exists|i: int| 0 <= i < mounts.len() && (#[trigger] mounts[i]).kind is ProcFs
}

/// A jail to launch: its mounts, its symbolic links, its environment and the
/// identity it runs under.
#[derive(Debug)]
pub struct NSJail {
    mounts: Vec<NSMount>,
    links: Vec<NSSymlink>,
    env: Vec<NSEnvVar>,
    user: u64,
    group: u64,
    config_path: String,
}

/// The mathematical content of an [`NSJail`].
pub struct NSJailView {
    pub mounts: Seq<NSMountView>,
    pub links: Seq<NSSymlinkView>,
    pub env: Seq<NSEnvVarView>,
    pub user: u64,
    pub group: u64,
    pub config_path: Seq<char>,
}

impl View for NSJail {
    type V = NSJailView;

    closed spec fn view(&self) -> NSJailView {
        NSJailView {
            mounts: self.mounts.deep_view(),
            links: self.links.deep_view(),
            env: self.env.deep_view(),
            user: self.user,
            group: self.group,
            config_path: self.config_path@,
        }
    }
}

/// A generated configuration file waiting to be written, and the invocation
/// that names it. The invocation is handed out only once the file is
/// reported written.
#[derive(Debug)]
pub struct JailPlan {
    config_path: String,
    config_text: String,
    invocation: Invocation,
}

/// The mathematical content of a [`JailPlan`].
pub struct JailPlanView {
    pub config_path: Seq<char>,
    pub config_text: Seq<char>,
    pub invocation: InvocationView,
}

impl View for JailPlan {
    type V = JailPlanView;

    closed spec fn view(&self) -> JailPlanView {
        JailPlanView {
            config_path: self.config_path@,
            config_text: self.config_text@,
            invocation: self.invocation@,
        }
    }
}

impl NSJailView {
    /// The jail that nothing has been added to.
    pub open spec fn initial() -> NSJailView {
        NSJailView {
            mounts: Seq::empty(),
            links: Seq::empty(),
            env: Seq::empty(),
            user: DEFAULT_USER,
            group: DEFAULT_GROUP,
            config_path: JAIL_CONFIG_PATH@,
        }
    }

    /// The mounts that are made without having been asked for: the
    /// process-information file system, unless one of the mounts asked for is
    /// that already.
    pub open spec fn implicit_mounts(self) -> Seq<NSMountView> {
        if has_proc(self.mounts) {
            Seq::empty()
        } else {
            seq![NSMountView::proc()]
        }
    }

    /// The blocks of the configuration file: the implicit mounts first, then
    /// one block for each mount and one for each link, in the order they were
    /// added.
    pub open spec fn config_blocks(self) -> Seq<Seq<char>> {
        mount_blocks(self.implicit_mounts()) + mount_blocks(self.mounts) + link_blocks(self.links)
    }

    /// The whole text of the configuration file.
    pub open spec fn config_text(self) -> Seq<char> {
        self.config_blocks().flatten()
    }

    /// The argument vector: the configuration file, the identity, the
    /// environment, the fixed switches and the separator.
    pub open spec fn args(self) -> Seq<Seq<char>> {
        seq![
            "--config"@,
            self.config_path,
            "--user"@,
            decimal(self.user as nat),
            "--group"@,
            decimal(self.group as nat),
        ] + env_args(self.env) + seq![
            "--hostname"@,
            JAIL_HOSTNAME@,
            "--disable_rlimits"@,
            "--disable_no_new_privs"@,
            "--keep_caps"@,
            SEPARATOR@,
        ]
    }

    /// What translating this jail gives.
    pub open spec fn plan(self) -> JailPlanView {
        JailPlanView {
            config_path: self.config_path,
            config_text: self.config_text(),
            invocation: InvocationView::bare(NSJAIL_PROGRAM@).with_args(self.args()),
        }
    }
}

/// Appends the block of every mount of `mounts` to `text`, in order.
fn push_mount_blocks(text: &mut String, mounts: &Vec<NSMount>)
    ensures
        final(text)@ == old(text)@ + mount_blocks(mounts.deep_view()).flatten(),
{
    let ghost before = text@;
    let ghost all = mount_blocks(mounts.deep_view());
    let mut i: usize = 0;
    assert(all.subrange(0, 0).flatten() =~= Seq::empty());
    assert(text@ =~= before + all.subrange(0, 0).flatten());
    while i < mounts.len()
        invariant
            i <= mounts.len(),
            all == mount_blocks(mounts.deep_view()),
            text@ == before + all.subrange(0, i as int).flatten(),
        decreases mounts.len() - i,
    {
        let block = mounts[i].block();
        text.append(block.as_str());
        proof {
            let done = all.subrange(0, i as int);
            assert(all.subrange(0, i + 1) =~= done.push(block@));
            done.lemma_flatten_push(block@);
            assert(text@ =~= before + all.subrange(0, i + 1).flatten());
        }
        i = i + 1;
    }
    assert(all.subrange(0, i as int) =~= all);
}

/// Appends the block of every link of `links` to `text`, in order.
fn push_link_blocks(text: &mut String, links: &Vec<NSSymlink>)
    ensures
        final(text)@ == old(text)@ + link_blocks(links.deep_view()).flatten(),
{
    let ghost before = text@;
    let ghost all = link_blocks(links.deep_view());
    let mut i: usize = 0;
    assert(all.subrange(0, 0).flatten() =~= Seq::empty());
    assert(text@ =~= before + all.subrange(0, 0).flatten());
    while i < links.len()
        invariant
            i <= links.len(),
            all == link_blocks(links.deep_view()),
            text@ == before + all.subrange(0, i as int).flatten(),
        decreases links.len() - i,
    {
        let block = links[i].block();
        text.append(block.as_str());
        proof {
            let done = all.subrange(0, i as int);
            assert(all.subrange(0, i + 1) =~= done.push(block@));
            done.lemma_flatten_push(block@);
            assert(text@ =~= before + all.subrange(0, i + 1).flatten());
        }
        i = i + 1;
    }
    assert(all.subrange(0, i as int) =~= all);
}

/// Appends the flag and operand of every action of `env` to `args`, in order.
fn push_env_args(args: &mut Vec<String>, env: &Vec<NSEnvVar>)
    ensures
        final(args).deep_view() == old(args).deep_view() + env_args(env.deep_view()),
{
    let ghost before = args.deep_view();
    let ghost all = env.deep_view();
    let mut i: usize = 0;
    assert(env_args(all.subrange(0, 0)) =~= Seq::empty());
    assert(args.deep_view() =~= before + env_args(all.subrange(0, 0)));
    while i < env.len()
        invariant
            i <= env.len(),
            all == env.deep_view(),
            args.deep_view() == before + env_args(all.subrange(0, i as int)),
        decreases env.len() - i,
    {
        let (flag, operand) = env[i].clone().to_arg();
        push_text(args, flag);
        push_text(args, operand.as_str());
        proof {
            let done = all.subrange(0, i as int);
            let next = all.subrange(0, i + 1);
            let each = |e: NSEnvVarView| e.args();
            assert(next.map_values(each) =~= done.map_values(each).push(all[i as int].args()));
            done.map_values(each).lemma_flatten_push(all[i as int].args());
            assert(all[i as int].args() =~= seq![flag@, operand@]);
            assert(args.deep_view() =~= before + env_args(next));
        }
        i = i + 1;
    }
    assert(all.subrange(0, i as int) =~= all);
}

/// Whether one of `mounts` is the process-information file system.
fn mounts_have_proc(mounts: &Vec<NSMount>) -> (r: bool)
    ensures
        r == has_proc(mounts.deep_view()),
{
    let mut i: usize = 0;
    while i < mounts.len()
        invariant
            i <= mounts.len(),
            forall|j: int| 0 <= j < i ==> !((#[trigger] mounts.deep_view()[j]).kind is ProcFs),
        decreases mounts.len() - i,
    {
        match &mounts[i].kind {
            NSMountType::ProcFs => {
                assert(mounts.deep_view()[i as int].kind is ProcFs);
                return true;
            },
            _ => {},
        }
        assert(mounts.deep_view()[i as int] == mounts[i as int]@);
        i = i + 1;
    }
    false
}

impl<'a> From<&'a str> for NSEnvVar {
    /// A bare name stands for keeping the variable of that name.
    fn from(name: &'a str) -> (r: NSEnvVar)
        ensures
            r@ == NSEnvVarView::Keep(name@),
    {
        NSEnvVar::keep(name)
    }
}

impl<'a> vstd::std_specs::convert::FromSpecImpl<&'a str> for NSEnvVar {
    open spec fn obeys_from_spec() -> bool {
        false
    }

    open spec fn from_spec(name: &'a str) -> NSEnvVar {
        arbitrary()
    }
}

impl<'a, 'b> From<(&'a str, &'b str)> for NSEnvVar {
    /// A pair stands for setting its first part to its second.
    fn from(pair: (&'a str, &'b str)) -> (r: NSEnvVar)
        ensures
            r@ == NSEnvVarView::Assign(pair.0@, pair.1@),
    {
        NSEnvVar::set(pair.0, pair.1)
    }
}

impl<'a, 'b> vstd::std_specs::convert::FromSpecImpl<(&'a str, &'b str)> for NSEnvVar {
    open spec fn obeys_from_spec() -> bool {
        false
    }

    open spec fn from_spec(pair: (&'a str, &'b str)) -> NSEnvVar {
        arbitrary()
    }
}

impl Clone for NSEnvVar {
    fn clone(&self) -> (r: NSEnvVar)
        ensures
            r@ == self@,
    {
        match self {
            NSEnvVar::Assign(k, v) => NSEnvVar::Assign(k.clone(), v.clone()),
            NSEnvVar::Keep(k) => NSEnvVar::Keep(k.clone()),
        }
    }
}

impl Default for NSJail {
    fn default() -> (r: NSJail)
        ensures
            r@ == NSJailView::initial(),
    {
        let r = NSJail {
            mounts: Vec::new(),
            links: Vec::new(),
            env: Vec::new(),
            user: DEFAULT_USER,
            group: DEFAULT_GROUP,
            config_path: JAIL_CONFIG_PATH.to_owned(),
        };
        assert(r.mounts.deep_view() =~= Seq::empty());
        assert(r.links.deep_view() =~= Seq::empty());
        assert(r.env.deep_view() =~= Seq::empty());
        r
    }
}

impl NSJail {
    /// Translates the jail into the text of its configuration file and the
    /// invocation that names the file. The file holds the implicit mount of
    /// the process-information file system, unless one was asked for, then a
    /// block for every mount and every link in the order they were added.
    /// The text is the file's whole content: it is to replace whatever the
    /// path held, not to be added to it.
    pub fn command(self) -> (r: JailPlan)
        ensures
            r@ == self@.plan(),
    {
        let mut text = String::new();
        if !mounts_have_proc(&self.mounts) {
            let block = NSMount::proc().into_proto_text();
            text.append(block.as_str());
            proof {
                let one = mount_blocks(seq![NSMountView::proc()]);
                assert(one =~= seq![block@]);
                one.lemma_flatten_one_element();
                assert(text@ =~= one.flatten());
            }
        } else {
            assert(mount_blocks(Seq::empty()) =~= Seq::empty());
            assert(text@ =~= mount_blocks(Seq::empty()).flatten());
        }
        push_mount_blocks(&mut text, &self.mounts);
        push_link_blocks(&mut text, &self.links);
        proof {
            let a = mount_blocks(self@.implicit_mounts());
            let b = mount_blocks(self@.mounts);
            let c = link_blocks(self@.links);
            vstd::seq_lib::lemma_flatten_concat(a, b);
            vstd::seq_lib::lemma_flatten_concat(a + b, c);
        }
        let mut cmd = Invocation::new(NSJAIL_PROGRAM);
        push_text(&mut cmd.args, "--config");
        push_text(&mut cmd.args, self.config_path.as_str());
        push_text(&mut cmd.args, "--user");
        push_text(&mut cmd.args, u64_to_decimal(self.user).as_str());
        push_text(&mut cmd.args, "--group");
        push_text(&mut cmd.args, u64_to_decimal(self.group).as_str());
        let ghost head = cmd.args.deep_view();
        push_env_args(&mut cmd.args, &self.env);
        let ghost middle = cmd.args.deep_view();
        push_text(&mut cmd.args, "--hostname");
        push_text(&mut cmd.args, JAIL_HOSTNAME);
        push_text(&mut cmd.args, "--disable_rlimits");
        push_text(&mut cmd.args, "--disable_no_new_privs");
        push_text(&mut cmd.args, "--keep_caps");
        push_text(&mut cmd.args, SEPARATOR);
        proof {
            assert(head =~= seq![
                "--config"@,
                self.config_path@,
                "--user"@,
                decimal(self.user as nat),
                "--group"@,
                decimal(self.group as nat),
            ]);
            assert(cmd.args.deep_view() =~= middle + seq![
                "--hostname"@,
                JAIL_HOSTNAME@,
                "--disable_rlimits"@,
                "--disable_no_new_privs"@,
                "--keep_caps"@,
                SEPARATOR@,
            ]);
            assert(cmd@.args =~= self@.args());
        }
        JailPlan { config_path: self.config_path, config_text: text, invocation: cmd }
    }

    /// Adds an environment action after those already there.
    pub fn env(&mut self, var: NSEnvVar) -> (r: &mut NSJail)
        ensures
            r@ == (NSJailView { env: old(self)@.env.push(var@), ..old(self)@ }),
            *final(self) == *final(r),
    {
        let ghost before = self.env.deep_view();
        self.env.push(var);
        assert(self.env.deep_view() =~= before.push(var@));
        self
    }

    /// Adds a mount after those already there.
    pub fn mount(&mut self, mount: NSMount) -> (r: &mut NSJail)
        ensures
            r@ == (NSJailView { mounts: old(self)@.mounts.push(mount@), ..old(self)@ }),
            *final(self) == *final(r),
    {
        let ghost before = self.mounts.deep_view();
        self.mounts.push(mount);
        assert(self.mounts.deep_view() =~= before.push(mount@));
        self
    }

    /// Adds a symbolic link after those already there.
    pub fn symlink(&mut self, link: NSSymlink) -> (r: &mut NSJail)
        ensures
            r@ == (NSJailView { links: old(self)@.links.push(link@), ..old(self)@ }),
            *final(self) == *final(r),
    {
        let ghost before = self.links.deep_view();
        self.links.push(link);
        assert(self.links.deep_view() =~= before.push(link@));
        self
    }

    /// Chooses where the generated configuration is written. Launches that
    /// may run at the same time from one working directory need a place
    /// each.
    pub fn config_path(&mut self, path: &str) -> (r: &mut NSJail)
        ensures
            r@ == (NSJailView { config_path: path@, ..old(self)@ }),
            *final(self) == *final(r),
    {
        self.config_path = path.to_owned();
        self
    }

    /// Sets the numeric user that the jail runs as.
    pub fn user(&mut self, user: u64) -> (r: &mut NSJail)
        ensures
            r@ == (NSJailView { user: user, ..old(self)@ }),
            *final(self) == *final(r),
    {
        self.user = user;
        self
    }

    /// Sets the numeric group that the jail runs as.
    pub fn group(&mut self, group: u64) -> (r: &mut NSJail)
        ensures
            r@ == (NSJailView { group: group, ..old(self)@ }),
            *final(self) == *final(r),
    {
        self.group = group;
        self
    }
}

impl JailPlan {
    /// Where the configuration file is to be written.
    pub fn config_path(&self) -> (r: &str)
        ensures
            r@ == self@.config_path,
    {
        self.config_path.as_str()
    }

    /// The whole content of the configuration file.
    pub fn config_text(&self) -> (r: &str)
        ensures
            r@ == self@.config_text,
    {
        self.config_text.as_str()
    }

    /// Ends the translation once the outcome of writing the configuration
    /// file is known: the invocation if the file was written, and
    /// `ConfigWriteFailed` with the file's path if it was not, in which case
    /// there is nothing to spawn.
    pub fn finish(self, written: bool) -> (r: Result<Invocation, CellarError>)
        ensures
            written ==> (r matches Ok(i) && i@ == self@.invocation),
            !written ==> (r matches Err(e) && e@ == CellarErrorView::ConfigWriteFailed(
                self@.config_path,
            )),
    {
        if written {
            Ok(self.invocation)
        } else {
            Err(CellarError::ConfigWriteFailed(self.config_path))
        }
    }
}

/// Every mount and every link that was added has exactly one block in the
/// configuration file, and the blocks stand in the order of adding: behind
/// the implicit mounts come the blocks of the mounts, one for each, then the
/// blocks of the links, one for each, and the file holds nothing else.
pub proof fn lemma_one_block_for_each(jail: NSJailView)
    ensures
        ({
            let blocks = jail.config_blocks();
            let lead = jail.implicit_mounts().len();
            &&& jail.config_text() == blocks.flatten()
            &&& blocks.len() == lead + jail.mounts.len() + jail.links.len()
            &&& lead == if has_proc(jail.mounts) {
                0nat
            } else {
                1nat
            }
            &&& forall|i: int|
                0 <= i < jail.mounts.len() ==> #[trigger] blocks[lead + i]
                    == jail.mounts[i].proto_text()
            &&& forall|k: int|
                0 <= k < jail.links.len() ==> #[trigger] blocks[lead + jail.mounts.len() + k]
                    == jail.links[k].proto_text()
        }),
{
}

/// The block at `index` of the configuration file stands in the file's text
/// right behind the blocks before it, whole and unchanged.
pub proof fn lemma_block_position(jail: NSJailView, index: int)
    requires
        0 <= index < jail.config_blocks().len(),
    ensures
        ({
            let blocks = jail.config_blocks();
            let start = blocks.subrange(0, index).flatten().len() as int;
            &&& start + blocks[index].len() <= jail.config_text().len()
            &&& jail.config_text().subrange(start, start + blocks[index].len()) == blocks[index]
            &&& blocks.subrange(0, index + 1).flatten().len() == start + blocks[index].len()
        }),
{
    lemma_flatten_block(jail.config_blocks(), index);
}

/// A jail that was asked for the process-information file system mounts it
/// where it was asked for and nowhere else; one that was not mounts it
/// first.
pub proof fn lemma_proc_is_mounted(jail: NSJailView)
    ensures
        has_proc(jail.mounts) ==> jail.config_blocks() == mount_blocks(jail.mounts) + link_blocks(
            jail.links,
        ),
        !has_proc(jail.mounts) ==> jail.config_blocks()[0] == NSMountView::proc().proto_text(),
{
    if has_proc(jail.mounts) {
        assert(mount_blocks(jail.implicit_mounts()) =~= Seq::empty());
        assert(jail.config_blocks() =~= mount_blocks(jail.mounts) + link_blocks(jail.links));
    }
}

} // verus!
