//! A process invocation as plain data: what a translator hands to whoever
//! spawns the process.

use vstd::prelude::*;

verus! {

/// The token after which the launcher reads no more options of its own.
pub const SEPARATOR: &'static str = "--";

/// A program, its argument vector and the variables to set in its
/// environment.
#[derive(Debug, PartialEq, Eq)]
pub struct Invocation {
    pub program: String,
    pub args: Vec<String>,
    pub env: Vec<(String, String)>,
}

/// The mathematical content of an [`Invocation`].
pub struct InvocationView {
    pub program: Seq<char>,
    pub args: Seq<Seq<char>>,
    pub env: Seq<(Seq<char>, Seq<char>)>,
}

impl View for Invocation {
    type V = InvocationView;

    open spec fn view(&self) -> InvocationView {
        InvocationView {
            program: self.program@,
            args: self.args.deep_view(),
            env: self.env.deep_view(),
        }
    }
}

impl InvocationView {
    /// The invocation of `program` with no argument and no variable.
    pub open spec fn bare(program: Seq<char>) -> InvocationView {
        InvocationView { program, args: Seq::empty(), env: Seq::empty() }
    }

    /// This invocation with `more` after its arguments.
    pub open spec fn with_args(self, more: Seq<Seq<char>>) -> InvocationView {
        InvocationView { args: self.args + more, ..self }
    }

    /// This invocation with `more` after its variables.
    pub open spec fn with_env(self, more: Seq<(Seq<char>, Seq<char>)>) -> InvocationView {
        InvocationView { env: self.env + more, ..self }
    }
}

/// Appends an owned copy of `text` to `list`.
pub fn push_text(list: &mut Vec<String>, text: &str)
    ensures
        final(list).deep_view() == old(list).deep_view().push(text@),
{
    let ghost before = list.deep_view();
    list.push(text.to_owned());
    assert(list.deep_view() =~= before.push(text@));
}

impl Invocation {
    /// The invocation of `program` with no argument and no variable.
    pub fn new(program: &str) -> (r: Invocation)
        ensures
            r@ == InvocationView::bare(program@),
    {
        let r = Invocation { program: program.to_owned(), args: Vec::new(), env: Vec::new() };
        assert(r.args.deep_view() =~= Seq::empty());
        assert(r.env.deep_view() =~= Seq::empty());
        r
    }

    /// Adds one argument after those already there.
    pub fn arg(&mut self, text: &str) -> (r: &mut Invocation)
        ensures
            r@ == old(self)@.with_args(seq![text@]),
            *final(self) == *final(r),
    {
        let ghost before = self.args.deep_view();
        push_text(&mut self.args, text);
        assert(self.args.deep_view() =~= before + seq![text@]);
        self
    }

    /// Adds one variable after those already there.
    pub fn env(&mut self, key: &str, value: &str) -> (r: &mut Invocation)
        ensures
            r@ == old(self)@.with_env(seq![(key@, value@)]),
            *final(self) == *final(r),
    {
        let ghost before = self.env.deep_view();
        self.env.push((key.to_owned(), value.to_owned()));
        assert(self.env.deep_view() =~= before + seq![(key@, value@)]);
        self
    }
}

/// Appending in two steps is appending the two pieces joined.
pub proof fn lemma_concat_assoc<A>(a: Seq<A>, b: Seq<A>, c: Seq<A>)
    ensures
        (a + b) + c == a + (b + c),
{
    assert((a + b) + c =~= a + (b + c));
}

/// A flag that is written only when it is switched on.
pub open spec fn flag(on: bool, name: Seq<char>) -> Seq<Seq<char>> {
    if on {
        seq![name]
    } else {
        Seq::empty()
    }
}

/// Appends `name` to `args` when `on` holds, and nothing otherwise.
pub fn push_flag(args: &mut Vec<String>, on: bool, name: &str)
    ensures
        final(args).deep_view() == old(args).deep_view() + flag(on, name@),
{
    let ghost before = args.deep_view();
    if on {
        push_text(args, name);
    }
    assert(args.deep_view() =~= before + flag(on, name@));
}

} // verus!
