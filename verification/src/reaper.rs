//! The command that the host sends to the reaper inside the sandbox, its
//! byte layout on the pipe, and what the reaper does with the bytes it
//! receives.

use crate::env::{first_missing, resolve_all, resolved_pairs, EnvVar, EnvVarView, HostEnv};
use crate::error::{CellarError, CellarErrorView};
use crate::invocation::{Invocation, InvocationView};
use crate::wire::{
    lemma_str_exact, lemma_str_list_exact, lemma_str_list_round_trip, lemma_str_list_truncated,
    lemma_str_round_trip, lemma_str_truncated, lemma_u32_exact, lemma_u32_round_trip,
    lemma_u64_exact, lemma_u64_round_trip, parse_str, parse_str_list, parse_u32, parse_u64,
    prepend, read_str, read_str_list, read_u32, read_u64, str_fits, str_list_fits, wire_str,
    wire_str_list, wire_u32, wire_u64, write_str, write_str_list, write_u32, write_u64, Parsed,
    Read,
};
use vstd::prelude::*;
use vstd::string::StringExecFns;

verus! {

/// The number that marks a pass-through action on the wire.
pub const TAG_PASS: u32 = 0;

/// The number that marks a literal action on the wire.
pub const TAG_KEY_VALUE: u32 = 1;

/// The number that marks the command to execute a program on the wire.
pub const TAG_EXECUTE: u32 = 0;

/// What the host asks the reaper to do.
#[derive(Debug, PartialEq, Eq)]
pub enum ReaperCommand {
    /// Run the program at `executable_path` with `arguments`, in the
    /// reaper's environment changed by `environment`.
    Execute { executable_path: String, arguments: Vec<String>, environment: Vec<EnvVar> },
}

/// The mathematical content of a [`ReaperCommand`].
pub enum ReaperCommandView {
    Execute {
        executable_path: Seq<char>,
        arguments: Seq<Seq<char>>,
        environment: Seq<EnvVarView>,
    },
}

impl View for ReaperCommand {
    type V = ReaperCommandView;

    open spec fn view(&self) -> ReaperCommandView {
        match *self {
            ReaperCommand::Execute {
                executable_path,
                arguments,
                environment,
            } => ReaperCommandView::Execute {
                executable_path: executable_path@,
                arguments: arguments.deep_view(),
                environment: environment.deep_view(),
            },
        }
    }
}

impl DeepView for ReaperCommand {
    type V = ReaperCommandView;

    open spec fn deep_view(&self) -> ReaperCommandView {
        self@
    }
}

impl Clone for ReaperCommand {
    fn clone(&self) -> (r: ReaperCommand)
        ensures
            r@ == self@,
    {
        match self {
            ReaperCommand::Execute { executable_path, arguments, environment } => {
                let arguments_copy = arguments.clone();
                let environment_copy = environment.clone();
                assert(arguments_copy.deep_view() =~= arguments.deep_view());
                assert(environment_copy.deep_view() =~= environment.deep_view());
                ReaperCommand::Execute {
                    executable_path: executable_path.clone(),
                    arguments: arguments_copy,
                    environment: environment_copy,
                }
            },
        }
    }
}

/// A failure of the reaper. Each one ends the reaper with a status that is
/// not zero.
#[derive(Debug, PartialEq, Eq)]
pub enum ReaperError {
    /// The bytes received are not one whole command.
    CommandDecodeFailed,
    /// The program could not be started. Carries the reason.
    ChildExecFailed(String),
}

/// The mathematical content of a [`ReaperError`].
pub enum ReaperErrorView {
    CommandDecodeFailed,
    ChildExecFailed(Seq<char>),
}

impl View for ReaperError {
    type V = ReaperErrorView;

    open spec fn view(&self) -> ReaperErrorView {
        match *self {
            ReaperError::CommandDecodeFailed => ReaperErrorView::CommandDecodeFailed,
            ReaperError::ChildExecFailed(reason) => ReaperErrorView::ChildExecFailed(reason@),
        }
    }
}

impl ReaperErrorView {
    /// The sentence that reports this failure.
    pub open spec fn message(self) -> Seq<char> {
        match self {
            ReaperErrorView::CommandDecodeFailed => "the command received could not be decoded"@,
            ReaperErrorView::ChildExecFailed(reason) => "the program could not be started: "@
                + reason,
        }
    }
}

impl ReaperError {
    /// The sentence that reports this failure.
    pub fn message(&self) -> (r: String)
        ensures
            r@ == self@.message(),
    {
        match self {
            ReaperError::CommandDecodeFailed => "the command received could not be decoded"
                .to_owned(),
            ReaperError::ChildExecFailed(reason) => {
                let mut r = "the program could not be started: ".to_owned();
                r.append(reason.as_str());
                r
            },
        }
    }
}

/// The bytes of an environment action: its tag, then its name, and for a
/// literal its value.
pub open spec fn wire_env_var(var: EnvVarView) -> Seq<u8> {
    match var {
        EnvVarView::Pass(k) => wire_u32(TAG_PASS) + wire_str(k),
        EnvVarView::KeyValue(k, v) => wire_u32(TAG_KEY_VALUE) + wire_str(k) + wire_str(v),
    }
}

/// The bytes of the actions of a list, one after the other.
pub open spec fn wire_env_vars(vars: Seq<EnvVarView>) -> Seq<u8> {
    vars.map_values(|e: EnvVarView| wire_env_var(e)).flatten()
}

/// The bytes of a list of actions: the number of actions as a 64-bit number,
/// then each action.
pub open spec fn wire_env_list(vars: Seq<EnvVarView>) -> Seq<u8> {
    wire_u64(vars.len() as u64) + wire_env_vars(vars)
}

/// The bytes of a command: its tag, the program, the arguments and the
/// environment.
pub open spec fn wire_command(command: ReaperCommandView) -> Seq<u8> {
    match command {
        ReaperCommandView::Execute { executable_path, arguments, environment } => wire_u32(
            TAG_EXECUTE,
        ) + wire_str(executable_path) + wire_str_list(arguments) + wire_env_list(environment),
    }
}

/// Whether every length in an action can be written as a 64-bit number.
pub open spec fn env_var_fits(var: EnvVarView) -> bool {
    match var {
        EnvVarView::Pass(k) => str_fits(k),
        EnvVarView::KeyValue(k, v) => str_fits(k) && str_fits(v),
    }
}

/// Whether every length in a list of actions can be written as a 64-bit
/// number.
pub open spec fn env_list_fits(vars: Seq<EnvVarView>) -> bool {
    &&& vars.len() <= u64::MAX
    &&& forall|i: int| 0 <= i < vars.len() ==> env_var_fits(#[trigger] vars[i])
}

/// Whether every length in a command can be written as a 64-bit number, as
/// it can for every command that memory holds.
pub open spec fn command_fits(command: ReaperCommandView) -> bool {
    match command {
        ReaperCommandView::Execute { executable_path, arguments, environment } => {
            &&& str_fits(executable_path)
            &&& str_list_fits(arguments)
            &&& env_list_fits(environment)
        },
    }
}

/// Reads the name of a pass-through action.
pub open spec fn parse_pass(bytes: Seq<u8>) -> Parsed<EnvVarView> {
    match parse_str(bytes) {
        Parsed::Done(k, left) => Parsed::Done(EnvVarView::Pass(k), left),
        Parsed::Short => Parsed::Short,
        Parsed::Bad => Parsed::Bad,
    }
}

/// Reads the name and the value of a literal action.
pub open spec fn parse_key_value(bytes: Seq<u8>) -> Parsed<EnvVarView> {
    match parse_str(bytes) {
        Parsed::Done(k, rest) => match parse_str(rest) {
            Parsed::Done(v, left) => Parsed::Done(EnvVarView::KeyValue(k, v), left),
            Parsed::Short => Parsed::Short,
            Parsed::Bad => Parsed::Bad,
        },
        Parsed::Short => Parsed::Short,
        Parsed::Bad => Parsed::Bad,
    }
}

/// Reads an environment action from the front of `bytes`: its tag, which
/// must be one of the two known, then what the tag announces.
pub open spec fn parse_env_var(bytes: Seq<u8>) -> Parsed<EnvVarView> {
    match parse_u32(bytes) {
        Parsed::Done(tag, rest) => if tag == TAG_PASS {
            parse_pass(rest)
        } else if tag == TAG_KEY_VALUE {
            parse_key_value(rest)
        } else {
            Parsed::Bad
        },
        Parsed::Short => Parsed::Short,
        Parsed::Bad => Parsed::Bad,
    }
}

/// Reads `count` environment actions from the front of `bytes`, one after
/// the other.
pub open spec fn parse_env_vars(bytes: Seq<u8>, count: nat) -> Parsed<Seq<EnvVarView>>
    decreases count,
{
    if count == 0 {
        Parsed::Done(Seq::empty(), bytes)
    } else {
        match parse_env_var(bytes) {
            Parsed::Done(first, rest) => match parse_env_vars(rest, (count - 1) as nat) {
                Parsed::Done(more, left) => Parsed::Done(seq![first] + more, left),
                Parsed::Short => Parsed::Short,
                Parsed::Bad => Parsed::Bad,
            },
            Parsed::Short => Parsed::Short,
            Parsed::Bad => Parsed::Bad,
        }
    }
}

/// Reads a list of environment actions from the front of `bytes`: the number
/// of actions, then each action.
pub open spec fn parse_env_list(bytes: Seq<u8>) -> Parsed<Seq<EnvVarView>> {
    match parse_u64(bytes) {
        Parsed::Done(count, rest) => parse_env_vars(rest, count as nat),
        Parsed::Short => Parsed::Short,
        Parsed::Bad => Parsed::Bad,
    }
}

/// Reads what follows the tag of the command to execute a program.
pub open spec fn parse_execute(bytes: Seq<u8>) -> Parsed<ReaperCommandView> {
    match parse_str(bytes) {
        Parsed::Done(executable_path, rest) => match parse_str_list(rest) {
            Parsed::Done(arguments, rest) => match parse_env_list(rest) {
                Parsed::Done(environment, left) => Parsed::Done(
                    ReaperCommandView::Execute { executable_path, arguments, environment },
                    left,
                ),
                Parsed::Short => Parsed::Short,
                Parsed::Bad => Parsed::Bad,
            },
            Parsed::Short => Parsed::Short,
            Parsed::Bad => Parsed::Bad,
        },
        Parsed::Short => Parsed::Short,
        Parsed::Bad => Parsed::Bad,
    }
}

/// Reads a command from the front of `bytes`: its tag, which must be the one
/// known, then the program, the arguments and the environment.
pub open spec fn parse_command(bytes: Seq<u8>) -> Parsed<ReaperCommandView> {
    match parse_u32(bytes) {
        Parsed::Done(tag, rest) => if tag == TAG_EXECUTE {
            parse_execute(rest)
        } else {
            Parsed::Bad
        },
        Parsed::Short => Parsed::Short,
        Parsed::Bad => Parsed::Bad,
    }
}

/// Appends the bytes of `var` to `out`.
pub fn write_env_var(out: &mut Vec<u8>, var: &EnvVar)
    ensures
        final(out)@ == old(out)@ + wire_env_var(var@),
        env_var_fits(var@),
{
    let ghost before = out@;
    match var {
        EnvVar::Pass(k) => {
            write_u32(out, TAG_PASS);
            write_str(out, k.as_str());
            assert(out@ =~= before + wire_env_var(var@));
        },
        EnvVar::KeyValue(k, v) => {
            write_u32(out, TAG_KEY_VALUE);
            write_str(out, k.as_str());
            write_str(out, v.as_str());
            assert(out@ =~= before + wire_env_var(var@));
        },
    }
}

/// Appends the bytes of the list `vars` to `out`.
pub fn write_env_list(out: &mut Vec<u8>, vars: &Vec<EnvVar>)
    ensures
        final(out)@ == old(out)@ + wire_env_list(vars.deep_view()),
        env_list_fits(vars.deep_view()),
{
    let ghost before = out@;
    let ghost all = vars.deep_view();
    let count = vars.len();
    write_u64(out, count as u64);
    let ghost head = out@;
    let mut i: usize = 0;
    assert(wire_env_vars(all.subrange(0, 0)) =~= Seq::empty());
    assert(out@ =~= head + wire_env_vars(all.subrange(0, 0)));
    while i < vars.len()
        invariant
            i <= vars.len(),
            all == vars.deep_view(),
            out@ == head + wire_env_vars(all.subrange(0, i as int)),
            forall|j: int| 0 <= j < i ==> env_var_fits(#[trigger] all[j]),
        decreases vars.len() - i,
    {
        write_env_var(out, &vars[i]);
        proof {
            let done = all.subrange(0, i as int);
            let next = all.subrange(0, i + 1);
            let each = |e: EnvVarView| wire_env_var(e);
            assert(next.map_values(each) =~= done.map_values(each).push(
                wire_env_var(all[i as int]),
            ));
            done.map_values(each).lemma_flatten_push(wire_env_var(all[i as int]));
            assert(out@ =~= head + wire_env_vars(next));
        }
        i = i + 1;
    }
    assert(all.subrange(0, i as int) =~= all);
    assert(out@ =~= before + wire_env_list(all));
}

/// Reads an environment action from the front of `input`.
pub fn read_env_var(input: &[u8]) -> (r: Read<'_, EnvVar>)
    ensures
        r.agrees(parse_env_var(input@)),
{
    match read_u32(input) {
        Read::Done(tag, rest) => {
            if tag == TAG_PASS {
                match read_str(rest) {
                    Read::Done(k, left) => Read::Done(EnvVar::Pass(k), left),
                    Read::Short => Read::Short,
                    Read::Bad => Read::Bad,
                }
            } else if tag == TAG_KEY_VALUE {
                match read_str(rest) {
                    Read::Done(k, rest) => match read_str(rest) {
                        Read::Done(v, left) => Read::Done(EnvVar::KeyValue(k, v), left),
                        Read::Short => Read::Short,
                        Read::Bad => Read::Bad,
                    },
                    Read::Short => Read::Short,
                    Read::Bad => Read::Bad,
                }
            } else {
                Read::Bad
            }
        },
        Read::Short => Read::Short,
        Read::Bad => Read::Bad,
    }
}

/// Reading a list of `count` actions after `items` have been read, one more
/// action read from the front.
proof fn lemma_parse_env_vars_step(
    items: Seq<EnvVarView>,
    bytes: Seq<u8>,
    count: nat,
    first: EnvVarView,
    rest: Seq<u8>,
)
    requires
        count > 0,
        parse_env_var(bytes) == Parsed::Done(first, rest),
    ensures
        prepend(items, parse_env_vars(bytes, count)) == prepend(
            items.push(first),
            parse_env_vars(rest, (count - 1) as nat),
        ),
{
    match parse_env_vars(rest, (count - 1) as nat) {
        Parsed::Done(more, left) => {
            assert(items + (seq![first] + more) =~= items.push(first) + more);
        },
        Parsed::Short => {},
        Parsed::Bad => {},
    }
}

/// Reads a list of environment actions from the front of `input`.
pub fn read_env_list(input: &[u8]) -> (r: Read<'_, Vec<EnvVar>>)
    ensures
        r.agrees(parse_env_list(input@)),
{
    match read_u64(input) {
        Read::Done(count, rest) => {
            let mut items: Vec<EnvVar> = Vec::new();
            let mut cur = rest;
            let mut i: u64 = 0;
            proof {
                let start = parse_env_vars(rest@, count as nat);
                assert(items.deep_view() =~= Seq::empty());
                match start {
                    Parsed::Done(more, left) => {
                        assert(Seq::<EnvVarView>::empty() + more =~= more);
                    },
                    Parsed::Short => {},
                    Parsed::Bad => {},
                }
            }
            while i < count
                invariant
                    i <= count,
                    parse_env_list(input@) == parse_env_vars(rest@, count as nat),
                    parse_env_vars(rest@, count as nat) == prepend(
                        items.deep_view(),
                        parse_env_vars(cur@, (count - i) as nat),
                    ),
                decreases count - i,
            {
                let ghost before = items.deep_view();
                match read_env_var(cur) {
                    Read::Done(var, next) => {
                        proof {
                            lemma_parse_env_vars_step(
                                before,
                                cur@,
                                (count - i) as nat,
                                var@,
                                next@,
                            );
                        }
                        items.push(var);
                        assert(items.deep_view() =~= before.push(var@));
                        cur = next;
                    },
                    Read::Short => {
                        return Read::Short;
                    },
                    Read::Bad => {
                        return Read::Bad;
                    },
                }
                i = i + 1;
            }
            proof {
                assert(items.deep_view() + Seq::<EnvVarView>::empty() =~= items.deep_view());
            }
            Read::Done(items, cur)
        },
        Read::Short => Read::Short,
        Read::Bad => Read::Bad,
    }
}

/// Reads a command from the front of `input`.
pub fn read_command(input: &[u8]) -> (r: Read<'_, ReaperCommand>)
    ensures
        r.agrees(parse_command(input@)),
{
    match read_u32(input) {
        Read::Done(tag, rest) => {
            if tag != TAG_EXECUTE {
                return Read::Bad;
            }
            match read_str(rest) {
                Read::Done(executable_path, rest) => match read_str_list(rest) {
                    Read::Done(arguments, rest) => match read_env_list(rest) {
                        Read::Done(environment, left) => Read::Done(
                            ReaperCommand::Execute { executable_path, arguments, environment },
                            left,
                        ),
                        Read::Short => Read::Short,
                        Read::Bad => Read::Bad,
                    },
                    Read::Short => Read::Short,
                    Read::Bad => Read::Bad,
                },
                Read::Short => Read::Short,
                Read::Bad => Read::Bad,
            }
        },
        Read::Short => Read::Short,
        Read::Bad => Read::Bad,
    }
}

impl ReaperCommand {
    /// The command to run `executable_path` with `arguments` and
    /// `environment`.
    pub fn execute(executable_path: &str, arguments: Vec<String>, environment: Vec<EnvVar>) -> (r:
        ReaperCommand)
        ensures
            r@ == (ReaperCommandView::Execute {
                executable_path: executable_path@,
                arguments: arguments.deep_view(),
                environment: environment.deep_view(),
            }),
    {
        ReaperCommand::Execute {
            executable_path: executable_path.to_owned(),
            arguments,
            environment,
        }
    }

    /// The bytes of the command, as they go over the pipe.
    pub fn encode(&self) -> (r: Vec<u8>)
        ensures
            r@ == wire_command(self@),
            command_fits(self@),
    {
        let mut out: Vec<u8> = Vec::new();
        match self {
            ReaperCommand::Execute { executable_path, arguments, environment } => {
                write_u32(&mut out, TAG_EXECUTE);
                write_str(&mut out, executable_path.as_str());
                write_str_list(&mut out, arguments);
                write_env_list(&mut out, environment);
            },
        }
        assert(out@ =~= wire_command(self@));
        out
    }

    /// Sends the command: appends its bytes to `sink`, which holds what is to
    /// be written to the reaper's input.
    pub fn dispatch(self, sink: &mut Vec<u8>)
        ensures
            final(sink)@ == old(sink)@ + wire_command(self@),
    {
        let bytes = self.encode();
        sink.extend_from_slice(bytes.as_slice());
    }

    /// Reads one command from the front of `bytes`. Succeeds when `bytes`
    /// starts with the bytes of a command, whatever follows them; fails with
    /// `CommandDecodeFailed` when `bytes` ends before a command does or
    /// cannot be the start of one.
    pub fn decode(bytes: &[u8]) -> (r: Result<ReaperCommand, ReaperError>)
        ensures
            match parse_command(bytes@) {
                Parsed::Done(command, _) => r matches Ok(c) && c@ == command,
                _ => r matches Err(e) && e@ == ReaperErrorView::CommandDecodeFailed,
            },
    {
        match read_command(bytes) {
            Read::Done(command, _) => Ok(command),
            Read::Short => Err(ReaperError::CommandDecodeFailed),
            Read::Bad => Err(ReaperError::CommandDecodeFailed),
        }
    }
}

/// An action that was written is read back, and what follows it is left.
pub proof fn lemma_env_var_round_trip(var: EnvVarView, rest: Seq<u8>)
    requires
        env_var_fits(var),
    ensures
        parse_env_var(wire_env_var(var) + rest) == Parsed::Done(var, rest),
{
    match var {
        EnvVarView::Pass(k) => {
            assert(wire_env_var(var) + rest =~= wire_u32(TAG_PASS) + (wire_str(k) + rest));
            lemma_u32_round_trip(TAG_PASS, wire_str(k) + rest);
            lemma_str_round_trip(k, rest);
        },
        EnvVarView::KeyValue(k, v) => {
            assert(wire_env_var(var) + rest =~= wire_u32(TAG_KEY_VALUE) + (wire_str(k) + (wire_str(
                v,
            ) + rest)));
            lemma_u32_round_trip(TAG_KEY_VALUE, wire_str(k) + (wire_str(v) + rest));
            lemma_str_round_trip(k, wire_str(v) + rest);
            lemma_str_round_trip(v, rest);
        },
    }
}

/// A written action that is cut short reads as cut short.
pub proof fn lemma_env_var_truncated(var: EnvVarView, kept: int)
    requires
        env_var_fits(var),
        0 <= kept < wire_env_var(var).len(),
    ensures
        parse_env_var(wire_env_var(var).subrange(0, kept)) is Short,
{
    let cut = wire_env_var(var).subrange(0, kept);
    match var {
        EnvVarView::Pass(k) => {
            lemma_u32_round_trip(TAG_PASS, Seq::empty());
            if kept >= 4 {
                let tail = wire_str(k).subrange(0, kept - 4);
                assert(cut =~= wire_u32(TAG_PASS) + tail);
                lemma_u32_round_trip(TAG_PASS, tail);
                lemma_str_truncated(k, kept - 4);
            }
        },
        EnvVarView::KeyValue(k, v) => {
            lemma_u32_round_trip(TAG_KEY_VALUE, Seq::empty());
            if kept >= 4 {
                let body = wire_str(k) + wire_str(v);
                let tail = body.subrange(0, kept - 4);
                assert(wire_env_var(var) =~= wire_u32(TAG_KEY_VALUE) + body);
                assert(cut =~= wire_u32(TAG_KEY_VALUE) + tail);
                lemma_u32_round_trip(TAG_KEY_VALUE, tail);
                if kept - 4 < wire_str(k).len() {
                    assert(tail =~= wire_str(k).subrange(0, kept - 4));
                    lemma_str_truncated(k, kept - 4);
                } else {
                    let last = wire_str(v).subrange(0, kept - 4 - wire_str(k).len());
                    assert(tail =~= wire_str(k) + last);
                    lemma_str_round_trip(k, last);
                    lemma_str_truncated(v, kept - 4 - wire_str(k).len());
                }
            }
        },
    }
}

/// Bytes from which an action is read start with the bytes of that action.
pub proof fn lemma_env_var_exact(bytes: Seq<u8>)
    ensures
        parse_env_var(bytes) matches Parsed::Done(var, rest) ==> env_var_fits(var) && bytes
            == wire_env_var(var) + rest,
{
    lemma_u32_exact(bytes);
    if let Parsed::Done(var, rest) = parse_env_var(bytes) {
        let tag = parse_u32(bytes)->Done_0;
        let after = parse_u32(bytes)->Done_1;
        lemma_str_exact(after);
        if tag == TAG_PASS {
            assert(bytes =~= wire_env_var(var) + rest);
        } else {
            let second = parse_str(after)->Done_1;
            lemma_str_exact(second);
            assert(bytes =~= wire_env_var(var) + rest);
        }
    }
}

/// The bytes of a list that is not empty are the bytes of its first action,
/// then those of the others.
pub proof fn lemma_wire_env_vars_unfold(vars: Seq<EnvVarView>)
    requires
        vars.len() > 0,
    ensures
        wire_env_vars(vars) == wire_env_var(vars[0]) + wire_env_vars(vars.drop_first()),
{
    let each = |e: EnvVarView| wire_env_var(e);
    assert(vars.map_values(each).drop_first() =~= vars.drop_first().map_values(each));
}

/// Actions that were written one after the other are read back in their
/// order, each as the kind of action it was, and what follows them is left.
pub proof fn lemma_env_vars_round_trip(vars: Seq<EnvVarView>, rest: Seq<u8>)
    requires
        forall|i: int| 0 <= i < vars.len() ==> env_var_fits(#[trigger] vars[i]),
    ensures
        parse_env_vars(wire_env_vars(vars) + rest, vars.len()) == Parsed::Done(vars, rest),
    decreases vars.len(),
{
    if vars.len() == 0 {
        assert(wire_env_vars(vars) + rest =~= rest);
        assert(vars =~= Seq::empty());
    } else {
        let first = vars[0];
        let others = vars.drop_first();
        lemma_wire_env_vars_unfold(vars);
        assert(wire_env_vars(vars) + rest =~= wire_env_var(first) + (wire_env_vars(others)
            + rest));
        lemma_env_var_round_trip(first, wire_env_vars(others) + rest);
        assert forall|i: int| 0 <= i < others.len() implies env_var_fits(
            #[trigger] others[i],
        ) by {
            assert(others[i] == vars[i + 1]);
        }
        lemma_env_vars_round_trip(others, rest);
        assert(seq![first] + others =~= vars);
    }
}

/// Written actions that are cut short read as cut short.
pub proof fn lemma_env_vars_truncated(vars: Seq<EnvVarView>, kept: int)
    requires
        forall|i: int| 0 <= i < vars.len() ==> env_var_fits(#[trigger] vars[i]),
        0 <= kept < wire_env_vars(vars).len(),
    ensures
        parse_env_vars(wire_env_vars(vars).subrange(0, kept), vars.len()) is Short,
    decreases vars.len(),
{
    if vars.len() == 0 {
        assert(wire_env_vars(vars) =~= Seq::empty());
    } else {
        let first = vars[0];
        let others = vars.drop_first();
        lemma_wire_env_vars_unfold(vars);
        let cut = wire_env_vars(vars).subrange(0, kept);
        if kept < wire_env_var(first).len() {
            assert(cut =~= wire_env_var(first).subrange(0, kept));
            lemma_env_var_truncated(first, kept);
        } else {
            let tail = wire_env_vars(others).subrange(0, kept - wire_env_var(first).len());
            assert(cut =~= wire_env_var(first) + tail);
            lemma_env_var_round_trip(first, tail);
            assert forall|i: int| 0 <= i < others.len() implies env_var_fits(
                #[trigger] others[i],
            ) by {
                assert(others[i] == vars[i + 1]);
            }
            lemma_env_vars_truncated(others, kept - wire_env_var(first).len());
        }
    }
}

/// Bytes from which actions are read start with the bytes of those actions.
pub proof fn lemma_env_vars_exact(bytes: Seq<u8>, count: nat)
    ensures
        parse_env_vars(bytes, count) matches Parsed::Done(vars, rest) ==> {
            &&& vars.len() == count
            &&& forall|i: int| 0 <= i < vars.len() ==> env_var_fits(#[trigger] vars[i])
            &&& bytes == wire_env_vars(vars) + rest
        },
    decreases count,
{
    if let Parsed::Done(vars, rest) = parse_env_vars(bytes, count) {
        if count == 0 {
            assert(wire_env_vars(vars) + rest =~= rest);
        } else {
            let first = parse_env_var(bytes)->Done_0;
            let after = parse_env_var(bytes)->Done_1;
            lemma_env_var_exact(bytes);
            lemma_env_vars_exact(after, (count - 1) as nat);
            let others = parse_env_vars(after, (count - 1) as nat)->Done_0;
            assert(vars == seq![first] + others);
            assert(vars.drop_first() =~= others);
            lemma_wire_env_vars_unfold(vars);
            assert(bytes =~= wire_env_vars(vars) + rest);
            assert forall|i: int| 0 <= i < vars.len() implies env_var_fits(#[trigger] vars[i]) by {
                if i > 0 {
                    assert(vars[i] == others[i - 1]);
                }
            }
        }
    }
}

/// A list of actions that was written is read back, and what follows it is
/// left.
pub proof fn lemma_env_list_round_trip(vars: Seq<EnvVarView>, rest: Seq<u8>)
    requires
        env_list_fits(vars),
    ensures
        parse_env_list(wire_env_list(vars) + rest) == Parsed::Done(vars, rest),
{
    let count = vars.len() as u64;
    lemma_u64_round_trip(count, wire_env_vars(vars) + rest);
    assert(wire_env_list(vars) + rest =~= wire_u64(count) + (wire_env_vars(vars) + rest));
    lemma_env_vars_round_trip(vars, rest);
}

/// A written list of actions that is cut short reads as cut short.
pub proof fn lemma_env_list_truncated(vars: Seq<EnvVarView>, kept: int)
    requires
        env_list_fits(vars),
        0 <= kept < wire_env_list(vars).len(),
    ensures
        parse_env_list(wire_env_list(vars).subrange(0, kept)) is Short,
{
    let count = vars.len() as u64;
    lemma_u64_round_trip(count, Seq::empty());
    let cut = wire_env_list(vars).subrange(0, kept);
    if kept >= 8 {
        let tail = wire_env_vars(vars).subrange(0, kept - 8);
        assert(cut =~= wire_u64(count) + tail);
        lemma_u64_round_trip(count, tail);
        lemma_env_vars_truncated(vars, kept - 8);
    }
}

/// Bytes from which a list of actions is read start with the bytes of that
/// list.
pub proof fn lemma_env_list_exact(bytes: Seq<u8>)
    ensures
        parse_env_list(bytes) matches Parsed::Done(vars, rest) ==> env_list_fits(vars) && bytes
            == wire_env_list(vars) + rest,
{
    lemma_u64_exact(bytes);
    if let Parsed::Done(vars, rest) = parse_env_list(bytes) {
        let count = parse_u64(bytes)->Done_0;
        let after = parse_u64(bytes)->Done_1;
        lemma_env_vars_exact(after, count as nat);
        assert(bytes =~= wire_env_list(vars) + rest);
    }
}

/// A command that is encoded and then decoded comes back as it was: the same
/// program, the same arguments in the same order, and the same environment
/// actions in the same order, each of the kind it was. Bytes that follow the
/// command on the pipe are left alone.
pub proof fn lemma_command_round_trip(command: ReaperCommandView, rest: Seq<u8>)
    requires
        command_fits(command),
    ensures
        parse_command(wire_command(command) + rest) == Parsed::Done(command, rest),
{
    match command {
        ReaperCommandView::Execute { executable_path, arguments, environment } => {
            let env = wire_env_list(environment) + rest;
            let args = wire_str_list(arguments) + env;
            let path = wire_str(executable_path) + args;
            assert(wire_command(command) + rest =~= wire_u32(TAG_EXECUTE) + path);
            lemma_u32_round_trip(TAG_EXECUTE, path);
            lemma_str_round_trip(executable_path, args);
            lemma_str_list_round_trip(arguments, env);
            lemma_env_list_round_trip(environment, rest);
        },
    }
}

/// A truncated command does not decode: whatever proper part of a command's
/// bytes arrives, reading it ends for want of bytes, and yields no command.
pub proof fn lemma_command_truncated(command: ReaperCommandView, kept: int)
    requires
        command_fits(command),
        0 <= kept < wire_command(command).len(),
    ensures
        parse_command(wire_command(command).subrange(0, kept)) is Short,
{
    match command {
        ReaperCommandView::Execute { executable_path, arguments, environment } => {
            let tag = wire_u32(TAG_EXECUTE);
            let path = wire_str(executable_path);
            let args = wire_str_list(arguments);
            let env = wire_env_list(environment);
            let cut = wire_command(command).subrange(0, kept);
            lemma_u32_round_trip(TAG_EXECUTE, Seq::empty());
            if kept >= 4 {
                let body = path + args + env;
                assert(wire_command(command) =~= tag + body);
                let after_tag = body.subrange(0, kept - 4);
                assert(cut =~= tag + after_tag);
                lemma_u32_round_trip(TAG_EXECUTE, after_tag);
                if kept - 4 < path.len() {
                    assert(after_tag =~= path.subrange(0, kept - 4));
                    lemma_str_truncated(executable_path, kept - 4);
                } else {
                    let after_path = (args + env).subrange(0, kept - 4 - path.len());
                    assert(after_tag =~= path + after_path);
                    lemma_str_round_trip(executable_path, after_path);
                    if kept - 4 - path.len() < args.len() {
                        assert(after_path =~= args.subrange(0, kept - 4 - path.len()));
                        lemma_str_list_truncated(arguments, kept - 4 - path.len());
                    } else {
                        let after_args = env.subrange(0, kept - 4 - path.len() - args.len());
                        assert(after_path =~= args + after_args);
                        lemma_str_list_round_trip(arguments, after_args);
                        lemma_env_list_truncated(environment, kept - 4 - path.len() - args.len());
                    }
                }
            }
        },
    }
}

/// Only the bytes of a command decode to it: bytes from which a command is
/// read start with exactly the bytes of that command.
pub proof fn lemma_command_exact(bytes: Seq<u8>)
    ensures
        parse_command(bytes) matches Parsed::Done(command, rest) ==> command_fits(command) && bytes
            == wire_command(command) + rest,
{
    lemma_u32_exact(bytes);
    if let Parsed::Done(command, rest) = parse_command(bytes) {
        let after_tag = parse_u32(bytes)->Done_1;
        lemma_str_exact(after_tag);
        let after_path = parse_str(after_tag)->Done_1;
        lemma_str_list_exact(after_path);
        let after_args = parse_str_list(after_path)->Done_1;
        lemma_env_list_exact(after_args);
        assert(bytes =~= wire_command(command) + rest);
    }
}

impl ReaperCommandView {
    /// What running the command in the environment `own` means: the
    /// invocation of the program with the arguments and with the variables
    /// that the environment actions stand for in `own`, or the name of the
    /// first variable that `own` lacks.
    pub open spec fn invocation(self, own: Map<Seq<char>, Seq<char>>) -> Result<
        InvocationView,
        CellarErrorView,
    > {
        match self {
            ReaperCommandView::Execute {
                executable_path,
                arguments,
                environment,
            } => match first_missing(environment, own) {
                Some(name) => Err(CellarErrorView::MissingHostVariable(name)),
                None => Ok(
                    InvocationView {
                        program: executable_path,
                        args: arguments,
                        env: resolved_pairs(environment, own),
                    },
                ),
            },
        }
    }
}

impl ReaperCommand {
    /// Turns the command into the invocation that the reaper makes.
    /// Pass-through variables are resolved against `own`, the environment of
    /// the reaper itself, not that of the host that sent the command.
    pub fn into_invocation(self, own: &HostEnv) -> (r: Result<Invocation, CellarError>)
        ensures
            match self@.invocation(own@) {
                Ok(invocation) => r matches Ok(i) && i@ == invocation,
                Err(error) => r matches Err(e) && e@ == error,
            },
    {
        match self {
            ReaperCommand::Execute { executable_path, arguments, environment } => {
                match resolve_all(&environment, own) {
                    Ok(pairs) => Ok(
                        Invocation { program: executable_path, args: arguments, env: pairs },
                    ),
                    Err(e) => Err(e),
                }
            },
        }
    }
}

/// Where the reaper stands between its start and its end.
#[derive(Debug, PartialEq, Eq)]
pub enum ReaperState {
    /// Nothing has arrived yet.
    AwaitingCommand,
    /// The bytes held have arrived and are not yet a whole command.
    Decoding(Vec<u8>),
    /// A whole command has arrived and is being executed.
    Executing(ReaperCommand),
    /// The reaper has failed and runs nothing.
    Fatal(ReaperError),
}

/// What happens to the reaper from outside.
#[derive(Debug, PartialEq, Eq)]
pub enum ReaperEvent {
    /// Bytes arrived on the input stream.
    Received(Vec<u8>),
    /// The input stream was closed.
    EndOfInput,
    /// The program of the command could not be started. Carries the reason.
    ExecFailed(String),
}

/// What the reaper is to do next.
#[derive(Debug, Clone, Copy, PartialEq, Eq, Structural)]
pub enum ReaperAction {
    /// Read from the input stream and report what arrives.
    ReadMore,
    /// Run the command that the state holds and end with the program's
    /// status.
    Execute,
    /// Report the failure that the state holds and end with a status that is
    /// not zero.
    Abort,
    /// Nothing: the event changes nothing.
    Idle,
}

/// The mathematical content of a [`ReaperState`].
pub enum ReaperStateView {
    AwaitingCommand,
    Decoding(Seq<u8>),
    Executing(ReaperCommandView),
    Fatal(ReaperErrorView),
}

/// The mathematical content of a [`ReaperEvent`].
pub enum ReaperEventView {
    Received(Seq<u8>),
    EndOfInput,
    ExecFailed(Seq<char>),
}

impl View for ReaperState {
    type V = ReaperStateView;

    open spec fn view(&self) -> ReaperStateView {
        match *self {
            ReaperState::AwaitingCommand => ReaperStateView::AwaitingCommand,
            ReaperState::Decoding(buffer) => ReaperStateView::Decoding(buffer@),
            ReaperState::Executing(command) => ReaperStateView::Executing(command@),
            ReaperState::Fatal(error) => ReaperStateView::Fatal(error@),
        }
    }
}

impl View for ReaperEvent {
    type V = ReaperEventView;

    open spec fn view(&self) -> ReaperEventView {
        match *self {
            ReaperEvent::Received(bytes) => ReaperEventView::Received(bytes@),
            ReaperEvent::EndOfInput => ReaperEventView::EndOfInput,
            ReaperEvent::ExecFailed(reason) => ReaperEventView::ExecFailed(reason@),
        }
    }
}

/// What a reaper that has received `buffer`, not yet a whole command, does on
/// `event`: more bytes make it try again on all it has; the end of the input
/// finds the command truncated.
pub open spec fn receive(buffer: Seq<u8>, event: ReaperEventView) -> (
    ReaperStateView,
    ReaperAction,
) {
    match event {
        ReaperEventView::Received(bytes) => match parse_command(buffer + bytes) {
            Parsed::Done(command, _) => (ReaperStateView::Executing(command), ReaperAction::Execute),
            Parsed::Short => (ReaperStateView::Decoding(buffer + bytes), ReaperAction::ReadMore),
            Parsed::Bad => (
                ReaperStateView::Fatal(ReaperErrorView::CommandDecodeFailed),
                ReaperAction::Abort,
            ),
        },
        ReaperEventView::EndOfInput => (
            ReaperStateView::Fatal(ReaperErrorView::CommandDecodeFailed),
            ReaperAction::Abort,
        ),
        ReaperEventView::ExecFailed(_) => (ReaperStateView::Decoding(buffer), ReaperAction::Idle),
    }
}

/// The state that follows `state` on `event`, and what the reaper is to do
/// then.
pub open spec fn next(state: ReaperStateView, event: ReaperEventView) -> (
    ReaperStateView,
    ReaperAction,
) {
    match state {
        ReaperStateView::AwaitingCommand => match event {
            ReaperEventView::ExecFailed(_) => (state, ReaperAction::Idle),
            _ => receive(Seq::empty(), event),
        },
        ReaperStateView::Decoding(buffer) => receive(buffer, event),
        ReaperStateView::Executing(_) => match event {
            ReaperEventView::ExecFailed(reason) => (
                ReaperStateView::Fatal(ReaperErrorView::ChildExecFailed(reason)),
                ReaperAction::Abort,
            ),
            _ => (state, ReaperAction::Idle),
        },
        ReaperStateView::Fatal(_) => (state, ReaperAction::Idle),
    }
}

/// What a reaper that holds `buffer` does on `event`.
fn receive_bytes(buffer: Vec<u8>, event: ReaperEvent) -> (r: (ReaperState, ReaperAction))
    ensures
        r.0@ == receive(buffer@, event@).0,
        r.1 == receive(buffer@, event@).1,
{
    match event {
        ReaperEvent::Received(bytes) => {
            let mut all = buffer;
            all.extend_from_slice(bytes.as_slice());
            assert(all@ == buffer@ + bytes@);
            match ReaperCommand::decode_or_wait(all) {
                Ok(state) => state,
                Err(all) => (ReaperState::Decoding(all), ReaperAction::ReadMore),
            }
        },
        ReaperEvent::EndOfInput => (
            ReaperState::Fatal(ReaperError::CommandDecodeFailed),
            ReaperAction::Abort,
        ),
        ReaperEvent::ExecFailed(_) => (ReaperState::Decoding(buffer), ReaperAction::Idle),
    }
}

impl ReaperCommand {
    /// Tries to read a command from all the bytes received so far. Hands the
    /// bytes back when they are the start of a command that has not ended
    /// yet.
    fn decode_or_wait(all: Vec<u8>) -> (r: Result<(ReaperState, ReaperAction), Vec<u8>>)
        ensures
            match parse_command(all@) {
                Parsed::Done(command, _) => r matches Ok(s) && s.0@ == ReaperStateView::Executing(
                    command,
                ) && s.1 == ReaperAction::Execute,
                Parsed::Short => r matches Err(bytes) && bytes@ == all@,
                Parsed::Bad => r matches Ok(s) && s.0@ == ReaperStateView::Fatal(
                    ReaperErrorView::CommandDecodeFailed,
                ) && s.1 == ReaperAction::Abort,
            },
    {
        let outcome = match read_command(all.as_slice()) {
            Read::Done(command, _) => Some((ReaperState::Executing(command), ReaperAction::Execute)),
            Read::Short => None,
            Read::Bad => Some(
                (ReaperState::Fatal(ReaperError::CommandDecodeFailed), ReaperAction::Abort),
            ),
        };
        match outcome {
            Some(state) => Ok(state),
            None => Err(all),
        }
    }
}

impl ReaperState {
    /// The state of a reaper that has just started.
    pub fn new() -> (r: ReaperState)
        ensures
            r@ == ReaperStateView::AwaitingCommand,
    {
        ReaperState::AwaitingCommand
    }

    /// Takes one event: gives the state that follows and what the reaper is
    /// to do then. The reaper runs a command only once it has received all of
    /// it, and never after a failure.
    pub fn step(self, event: ReaperEvent) -> (r: (ReaperState, ReaperAction))
        ensures
            r.0@ == next(self@, event@).0,
            r.1 == next(self@, event@).1,
    {
        match self {
            ReaperState::AwaitingCommand => match event {
                ReaperEvent::ExecFailed(_) => (ReaperState::AwaitingCommand, ReaperAction::Idle),
                _ => receive_bytes(Vec::new(), event),
            },
            ReaperState::Decoding(buffer) => receive_bytes(buffer, event),
            ReaperState::Executing(command) => match event {
                ReaperEvent::ExecFailed(reason) => (
                    ReaperState::Fatal(ReaperError::ChildExecFailed(reason)),
                    ReaperAction::Abort,
                ),
                _ => (ReaperState::Executing(command), ReaperAction::Idle),
            },
            ReaperState::Fatal(error) => (ReaperState::Fatal(error), ReaperAction::Idle),
        }
    }
}

/// A command that arrives whole is executed, whatever follows it on the
/// stream.
pub proof fn lemma_whole_command_executes(command: ReaperCommandView, rest: Seq<u8>)
    requires
        command_fits(command),
    ensures
        next(
            ReaperStateView::AwaitingCommand,
            ReaperEventView::Received(wire_command(command) + rest),
        ) == (ReaperStateView::Executing(command), ReaperAction::Execute),
{
    lemma_command_round_trip(command, rest);
    assert(Seq::<u8>::empty() + (wire_command(command) + rest) =~= wire_command(command) + rest);
}

/// The state of a reaper that was in `state` and has since received
/// `chunks`, one after the other.
pub open spec fn after_chunks(state: ReaperStateView, chunks: Seq<Seq<u8>>) -> ReaperStateView
    decreases chunks.len(),
{
    if chunks.len() == 0 {
        state
    } else {
        next(after_chunks(state, chunks.drop_last()), ReaperEventView::Received(chunks.last())).0
    }
}

/// However the input is cut into pieces, a reaper that has received only a
/// proper part of a command holds that part and waits for more.
pub proof fn lemma_partial_command_waits(command: ReaperCommandView, chunks: Seq<Seq<u8>>)
    requires
        command_fits(command),
        chunks.len() > 0,
        chunks.flatten().len() < wire_command(command).len(),
        chunks.flatten() == wire_command(command).subrange(0, chunks.flatten().len() as int),
    ensures
        after_chunks(ReaperStateView::AwaitingCommand, chunks) == ReaperStateView::Decoding(
            chunks.flatten(),
        ),
    decreases chunks.len(),
{
    let earlier = chunks.drop_last();
    let all = chunks.flatten();
    assert(chunks =~= earlier.push(chunks.last()));
    earlier.lemma_flatten_push(chunks.last());
    assert(all == earlier.flatten() + chunks.last());
    lemma_command_truncated(command, all.len() as int);
    if earlier.len() == 0 {
        assert(earlier.flatten() =~= Seq::<u8>::empty());
        assert(Seq::<u8>::empty() + chunks.last() =~= all);
    } else {
        assert(earlier.flatten() =~= wire_command(command).subrange(
            0,
            earlier.flatten().len() as int,
        ));
        lemma_partial_command_waits(command, earlier);
    }
}

/// However the input is cut into pieces, the piece that completes a command
/// makes the reaper execute that command, and no piece before it does.
pub proof fn lemma_completed_command_executes(
    command: ReaperCommandView,
    chunks: Seq<Seq<u8>>,
    last: Seq<u8>,
    rest: Seq<u8>,
)
    requires
        command_fits(command),
        chunks.flatten().len() < wire_command(command).len(),
        chunks.flatten() + last == wire_command(command) + rest,
    ensures
        after_chunks(ReaperStateView::AwaitingCommand, chunks.push(last))
            == ReaperStateView::Executing(command),
        chunks.len() > 0 ==> after_chunks(ReaperStateView::AwaitingCommand, chunks)
            == ReaperStateView::Decoding(chunks.flatten()),
{
    let bytes = wire_command(command);
    let all = chunks.flatten();
    assert(chunks.push(last).drop_last() =~= chunks);
    lemma_command_round_trip(command, rest);
    assert(all =~= (bytes + rest).subrange(0, all.len() as int));
    assert(all =~= bytes.subrange(0, all.len() as int));
    if chunks.len() == 0 {
        assert(all =~= Seq::<u8>::empty());
        assert(Seq::<u8>::empty() + last =~= bytes + rest);
    } else {
        lemma_partial_command_waits(command, chunks);
    }
}

/// A truncated stream is fatal: when the input ends after only a proper part
/// of a command has arrived, the reaper reports that decoding failed and
/// aborts, having executed nothing on the way.
pub proof fn lemma_truncated_stream_is_fatal(command: ReaperCommandView, kept: int)
    requires
        command_fits(command),
        0 <= kept < wire_command(command).len(),
    ensures
        ({
            let cut = wire_command(command).subrange(0, kept);
            let first = next(ReaperStateView::AwaitingCommand, ReaperEventView::Received(cut));
            &&& first == (ReaperStateView::Decoding(cut), ReaperAction::ReadMore)
            &&& next(first.0, ReaperEventView::EndOfInput) == (
                ReaperStateView::Fatal(ReaperErrorView::CommandDecodeFailed),
                ReaperAction::Abort,
            )
        }),
{
    let cut = wire_command(command).subrange(0, kept);
    lemma_command_truncated(command, kept);
    assert(Seq::<u8>::empty() + cut =~= cut);
}

/// A reaper that has failed stays failed, and a reaper executes only on the
/// event that completes a command: no event makes a failed reaper, or one
/// whose input ended, run anything.
pub proof fn lemma_no_execution_after_failure(state: ReaperStateView, event: ReaperEventView)
    ensures
        state is Fatal ==> next(state, event) == (state, ReaperAction::Idle),
        next(state, event).1 == ReaperAction::Execute ==> {
            &&& event is Received
            &&& state is AwaitingCommand || state is Decoding
            &&& next(state, event).0 is Executing
        },
{
}

} // verus!
