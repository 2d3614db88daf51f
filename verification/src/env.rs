//! Environment actions and the environment they are resolved against.

use crate::error::{CellarError, CellarErrorView};
use vstd::prelude::*;

verus! {

/// One environment action of a launch.
#[derive(Debug, PartialEq, Eq)]
pub enum EnvVar {
    /// Take the variable's value from the environment of whoever resolves the
    /// action.
    Pass(String),
    /// Set the variable to the given value.
    KeyValue(String, String),
}

/// The mathematical content of an [`EnvVar`].
pub enum EnvVarView {
    Pass(Seq<char>),
    KeyValue(Seq<char>, Seq<char>),
}

impl View for EnvVar {
    type V = EnvVarView;

    open spec fn view(&self) -> EnvVarView {
        match *self {
            EnvVar::Pass(k) => EnvVarView::Pass(k@),
            EnvVar::KeyValue(k, v) => EnvVarView::KeyValue(k@, v@),
        }
    }
}

impl DeepView for EnvVar {
    type V = EnvVarView;

    open spec fn deep_view(&self) -> EnvVarView {
        self@
    }
}

impl EnvVarView {
    /// The name of the variable the action is about.
    pub open spec fn key(self) -> Seq<char> {
        match self {
            EnvVarView::Pass(k) => k,
            EnvVarView::KeyValue(k, _) => k,
        }
    }

    /// The name and value the action stands for in the environment `host`, or
    /// `None` for a pass-through of a variable that `host` does not hold.
    pub open spec fn resolve(self, host: Map<Seq<char>, Seq<char>>) -> Option<
        (Seq<char>, Seq<char>),
    > {
        match self {
            EnvVarView::Pass(k) => if host.contains_key(k) {
                Some((k, host[k]))
            } else {
                None
            },
            EnvVarView::KeyValue(k, v) => Some((k, v)),
        }
    }
}

/// The environment that folding `entries` from first to last gives: a later
/// entry replaces an earlier one of the same name.
pub open spec fn env_map(entries: Seq<(Seq<char>, Seq<char>)>) -> Map<Seq<char>, Seq<char>>
    decreases entries.len(),
{
    if entries.len() == 0 {
        Map::empty()
    } else {
        env_map(entries.drop_last()).insert(entries.last().0, entries.last().1)
    }
}

/// A snapshot of a process environment: the variables that pass-through
/// actions are resolved against.
#[derive(Debug)]
pub struct HostEnv {
    entries: Vec<(String, String)>,
}

impl View for HostEnv {
    type V = Map<Seq<char>, Seq<char>>;

    closed spec fn view(&self) -> Map<Seq<char>, Seq<char>> {
        env_map(self.entries.deep_view())
    }
}

/// A name that no entry from `from` on carries is decided by the entries
/// before `from` alone.
proof fn lemma_env_map_skip(entries: Seq<(Seq<char>, Seq<char>)>, from: int, name: Seq<char>)
    requires
        0 <= from <= entries.len(),
        forall|j: int| from <= j < entries.len() ==> entries[j].0 != name,
    ensures
        env_map(entries).contains_key(name) == env_map(entries.subrange(0, from)).contains_key(
            name,
        ),
        env_map(entries)[name] == env_map(entries.subrange(0, from))[name],
    decreases entries.len() - from,
{
    if from == entries.len() {
        assert(entries.subrange(0, from) =~= entries);
    } else {
        let shorter = entries.drop_last();
        assert(shorter.subrange(0, from) =~= entries.subrange(0, from));
        lemma_env_map_skip(shorter, from, name);
    }
}

impl HostEnv {
    /// An environment that holds no variable.
    pub fn new() -> (r: HostEnv)
        ensures
            r@ == Map::<Seq<char>, Seq<char>>::empty(),
    {
        let r = HostEnv { entries: Vec::new() };
        assert(r.entries.deep_view() =~= Seq::empty());
        r
    }

    /// The environment that holds `pairs`, a later pair replacing an earlier
    /// one of the same name.
    pub fn from_pairs(pairs: Vec<(String, String)>) -> (r: HostEnv)
        ensures
            r@ == env_map(pairs.deep_view()),
    {
        HostEnv { entries: pairs }
    }

    /// Sets `name` to `value`, replacing what `name` held.
    pub fn set(&mut self, name: &str, value: &str)
        ensures
            final(self)@ == old(self)@.insert(name@, value@),
    {
        let ghost before = self.entries.deep_view();
        self.entries.push((name.to_owned(), value.to_owned()));
        proof {
            let after = self.entries.deep_view();
            assert(after.drop_last() =~= before);
            assert(after.last() == (name@, value@));
        }
    }

    /// The value of `name`, if the environment holds it.
    pub fn get(&self, name: &str) -> (r: Option<String>)
        ensures
            match r {
                Some(v) => self@.contains_key(name@) && v@ == self@[name@],
                None => !self@.contains_key(name@),
            },
    {
        let wanted = name.to_owned();
        let mut i: usize = self.entries.len();
        while i > 0
            invariant
                i <= self.entries.len(),
                wanted@ == name@,
                forall|j: int|
                    i <= j < self.entries.len() ==> self.entries.deep_view()[j].0 != name@,
            decreases i,
        {
            i = i - 1;
            if self.entries[i].0 == wanted {
                let v = self.entries[i].1.clone();
                proof {
                    let all = self.entries.deep_view();
                    lemma_env_map_skip(all, i + 1, name@);
                    let upto = all.subrange(0, i + 1);
                    assert(upto.last() == all[i as int]);
                    assert(all[i as int] == (self.entries[i as int].0@, self.entries[i as int].1@));
                }
                return Some(v);
            }
            assert(self.entries.deep_view()[i as int].0 == self.entries[i as int].0@);
        }
        proof {
            let all = self.entries.deep_view();
            lemma_env_map_skip(all, 0, name@);
            assert(all.subrange(0, 0) =~= Seq::empty());
        }
        None
    }
}

impl EnvVar {
    /// A pass-through of the variable `name`.
    pub fn pass(name: &str) -> (r: EnvVar)
        ensures
            r@ == EnvVarView::Pass(name@),
    {
        EnvVar::Pass(name.to_owned())
    }

    /// The action that sets `key` to `value`.
    pub fn key_value(key: &str, value: &str) -> (r: EnvVar)
        ensures
            r@ == EnvVarView::KeyValue(key@, value@),
    {
        EnvVar::KeyValue(key.to_owned(), value.to_owned())
    }

    /// The name of the variable the action is about.
    pub fn key(&self) -> (r: &str)
        ensures
            r@ == self@.key(),
    {
        match self {
            EnvVar::Pass(k) => k.as_str(),
            EnvVar::KeyValue(k, _) => k.as_str(),
        }
    }

    /// Resolves the action against `host` into a name and a value. A literal
    /// action is its own answer; a pass-through takes the value that `host`
    /// holds, and fails with `MissingHostVariable` when `host` holds none.
    pub fn to_key_value(self, host: &HostEnv) -> (r: Result<(String, String), CellarError>)
        ensures
            match self@.resolve(host@) {
                Some(pair) => r matches Ok(p) && p.0@ == pair.0 && p.1@ == pair.1,
                None => r matches Err(e) && e@ == CellarErrorView::MissingHostVariable(
                    self@.key(),
                ),
            },
    {
        match self {
            EnvVar::Pass(k) => {
                match host.get(k.as_str()) {
                    Some(v) => Ok((k, v)),
                    None => Err(CellarError::MissingHostVariable(k)),
                }
            },
            EnvVar::KeyValue(k, v) => Ok((k, v)),
        }
    }
}

impl<'a> From<&'a str> for EnvVar {
    /// A bare name stands for the pass-through of the variable of that name.
    fn from(name: &'a str) -> (r: EnvVar)
        ensures
            r@ == EnvVarView::Pass(name@),
    {
        EnvVar::pass(name)
    }
}

impl<'a> vstd::std_specs::convert::FromSpecImpl<&'a str> for EnvVar {
    open spec fn obeys_from_spec() -> bool {
        false
    }

    open spec fn from_spec(name: &'a str) -> EnvVar {
        arbitrary()
    }
}

impl<'a, 'b> From<(&'a str, &'b str)> for EnvVar {
    /// A pair stands for the action that sets its first part to its second.
    fn from(pair: (&'a str, &'b str)) -> (r: EnvVar)
        ensures
            r@ == EnvVarView::KeyValue(pair.0@, pair.1@),
    {
        EnvVar::key_value(pair.0, pair.1)
    }
}

impl<'a, 'b> vstd::std_specs::convert::FromSpecImpl<(&'a str, &'b str)> for EnvVar {
    open spec fn obeys_from_spec() -> bool {
        false
    }

    open spec fn from_spec(pair: (&'a str, &'b str)) -> EnvVar {
        arbitrary()
    }
}

impl Clone for EnvVar {
    fn clone(&self) -> (r: EnvVar)
        ensures
            r@ == self@,
    {
        match self {
            EnvVar::Pass(k) => EnvVar::Pass(k.clone()),
            EnvVar::KeyValue(k, v) => EnvVar::KeyValue(k.clone(), v.clone()),
        }
    }
}

/// The name of the first action of `env` that `host` cannot resolve, or `None`
/// when every action resolves.
pub open spec fn first_missing(env: Seq<EnvVarView>, host: Map<Seq<char>, Seq<char>>) -> Option<
    Seq<char>,
>
    decreases env.len(),
{
    if env.len() == 0 {
        None
    } else if env[0].resolve(host) is None {
        Some(env[0].key())
    } else {
        first_missing(env.drop_first(), host)
    }
}

/// The names and values that the actions of `env` stand for in `host`, in the
/// order of `env`. Meant for an `env` that `host` resolves in full.
pub open spec fn resolved_pairs(env: Seq<EnvVarView>, host: Map<Seq<char>, Seq<char>>) -> Seq<
    (Seq<char>, Seq<char>),
> {
    Seq::new(env.len(), |i: int| env[i].resolve(host).unwrap())
}

/// An environment that lacks a variable which some pass-through of `env`
/// names cannot resolve `env`: resolution then reports a missing variable,
/// and the one it reports is a pass-through of `env` that `host` lacks.
pub proof fn lemma_missing_pass_through_fails(
    env: Seq<EnvVarView>,
    host: Map<Seq<char>, Seq<char>>,
    at: int,
)
    requires
        0 <= at < env.len(),
        env[at] is Pass,
        !host.contains_key(env[at].key()),
    ensures
        first_missing(env, host) matches Some(name) && !host.contains_key(name) && exists|i: int|
            0 <= i <= at && #[trigger] env[i] == EnvVarView::Pass(name),
    decreases env.len(),
{
    if env[0].resolve(host) is None {
        assert(env[0] == EnvVarView::Pass(env[0].key()));
    } else {
        let rest = env.drop_first();
        lemma_missing_pass_through_fails(rest, host, at - 1);
        let name = first_missing(rest, host).unwrap();
        let i = choose|i: int| 0 <= i <= at - 1 && #[trigger] rest[i] == EnvVarView::Pass(name);
        assert(env[i + 1] == EnvVarView::Pass(name));
    }
}

/// Resolution succeeds exactly when `host` holds every variable that a
/// pass-through of `env` names.
pub proof fn lemma_resolves_iff_all_present(env: Seq<EnvVarView>, host: Map<Seq<char>, Seq<char>>)
    ensures
        first_missing(env, host) is None <==> forall|i: int|
            0 <= i < env.len() ==> (#[trigger] env[i]).resolve(host) is Some,
    decreases env.len(),
{
    if env.len() > 0 {
        let rest = env.drop_first();
        lemma_resolves_iff_all_present(rest, host);
        if first_missing(env, host) is None {
            assert forall|i: int| 0 <= i < env.len() implies (#[trigger] env[i]).resolve(
                host,
            ) is Some by {
                if i > 0 {
                    assert(rest[i - 1] == env[i]);
                }
            }
        }
        if forall|i: int| 0 <= i < env.len() ==> (#[trigger] env[i]).resolve(host) is Some {
            assert(env[0].resolve(host) is Some);
            assert forall|i: int| 0 <= i < rest.len() implies (#[trigger] rest[i]).resolve(
                host,
            ) is Some by {
                assert(rest[i] == env[i + 1]);
            }
        }
    }
}

/// Resolves every action of `env` against `host`, in order. Fails on the
/// first action that does not resolve, handing out nothing.
pub fn resolve_all(env: &Vec<EnvVar>, host: &HostEnv) -> (r: Result<
    Vec<(String, String)>,
    CellarError,
>)
    ensures
        match first_missing(env.deep_view(), host@) {
            Some(name) => r matches Err(e) && e@ == CellarErrorView::MissingHostVariable(name),
            None => r matches Ok(pairs) && pairs.deep_view() == resolved_pairs(
                env.deep_view(),
                host@,
            ),
        },
{
    let ghost all = env.deep_view();
    let mut pairs: Vec<(String, String)> = Vec::new();
    let mut i: usize = 0;
    assert(all.subrange(0, all.len() as int) =~= all);
    while i < env.len()
        invariant
            i <= env.len(),
            all == env.deep_view(),
            first_missing(all, host@) == first_missing(
                all.subrange(i as int, all.len() as int),
                host@,
            ),
            pairs.len() == i,
            forall|j: int|
                0 <= j < i ==> all[j].resolve(host@) == Some(#[trigger] pairs.deep_view()[j]),
        decreases env.len() - i,
    {
        let ghost rest = all.subrange(i as int, all.len() as int);
        assert(rest[0] == env[i as int]@);
        assert(rest.drop_first() =~= all.subrange(i + 1, all.len() as int));
        let ghost before = pairs.deep_view();
        match env[i].clone().to_key_value(host) {
            Ok(pair) => {
                pairs.push(pair);
                assert(pairs.deep_view() =~= before.push((pair.0@, pair.1@)));
            },
            Err(e) => {
                return Err(e);
            },
        }
        i = i + 1;
    }
    assert(all.subrange(i as int, all.len() as int) =~= Seq::empty());
    assert(pairs.deep_view() =~= resolved_pairs(all, host@));
    Ok(pairs)
}

} // verus!
