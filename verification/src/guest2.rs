//! The second guest component: a `run` export that greets an optional name
//! and an extra `describe` export.

use vstd::prelude::*;
use vstd::string::StringExecFns;

verus! {

/// Name greeted by `run` when it is given none.
pub const DEFAULT_NAME: &'static str = "world";

/// What `run` returns before the greeted name.
pub open spec fn greeting_prefix() -> Seq<char> {
    "guest2 run() called: hello, "@
}

/// The name that `run` greets: the given one, or `DEFAULT_NAME` when absent.
pub open spec fn greeted_name(name: Option<Seq<char>>) -> Seq<char> {
    match name {
        Some(n) => n,
        None => DEFAULT_NAME@,
    }
}

/// The message that `run` returns for an optional name.
pub open spec fn greeting(name: Option<Seq<char>>) -> Seq<char> {
    greeting_prefix() + greeted_name(name) + "!"@
}

/// The message that `describe` returns.
pub open spec fn description() -> Seq<char> {
    "guest2 has an extra `describe` export"@
}

/// `needle` occurs in `hay` as a contiguous run of characters.
pub open spec fn contains(hay: Seq<char>, needle: Seq<char>) -> bool {
    exists|i: int|
        0 <= i && i + needle.len() <= hay.len() && #[trigger] hay.subrange(i, i + needle.len())
            == needle
}

/// The guest2 component; its exports are associated functions.
pub struct Guest2;

impl Guest2 {
    /// Entry point exported by the guest2 world: greets `name`, or
    /// `DEFAULT_NAME` when no name is given.
    pub fn run(name: Option<String>) -> (message: String)
        ensures
            message@ == greeting(name.deep_view()),
            name matches Some(n) ==> message@ == "guest2 run() called: hello, "@ + n@ + "!"@,
            name is None ==> message@ == "guest2 run() called: hello, world!"@,
    {
        let mut message = "guest2 run() called: hello, ".to_owned();
        match &name {
            Some(n) => message.append(n.as_str()),
            None => message.append(DEFAULT_NAME),
        }
        message.append("!");
        proof {
            reveal_strlit("guest2 run() called: hello, ");
            reveal_strlit("world");
            reveal_strlit("!");
            reveal_strlit("guest2 run() called: hello, world!");
            assert(("guest2 run() called: hello, "@ + "world"@ + "!"@)
                =~= "guest2 run() called: hello, world!"@);
        }
        message
    }

    /// Extra export that sets guest2's interface apart from guest1's.
    pub fn describe() -> (message: String)
        ensures
            message@ == description(),
    {
        "guest2 has an extra `describe` export".to_owned()
    }
}

/// Greeting no one is greeting the default name: `run(None)` and
/// `run(Some(DEFAULT_NAME))` return the same message.
pub proof fn lemma_default_greeting()
    ensures
        greeting(None) == greeting(Some(DEFAULT_NAME@)),
{
}

/// The message of `run` names whom it greets: the given name, or
/// `DEFAULT_NAME` when none is given.
pub proof fn lemma_greeting_names_greeted(name: Option<Seq<char>>)
    ensures
        contains(greeting(name), greeted_name(name)),
{
    let g = greeting(name);
    let n = greeted_name(name);
    let i = greeting_prefix().len() as int;
    assert(g.subrange(i, i + n.len()) =~= n);
}

/// Whatever the name, the message of `run` names the component it comes from.
pub proof fn lemma_greeting_names_component(name: Option<Seq<char>>)
    ensures
        contains(greeting(name), "guest2"@),
{
    reveal_strlit("guest2 run() called: hello, ");
    reveal_strlit("guest2");
    let g = greeting(name);
    let word = "guest2"@;
    assert(g.subrange(0int, 0int + word.len()) =~= word);
}

} // verus!

verus! {

/// `run` greets a given name verbatim, whatever it holds: the message is the
/// fixed opening, the name itself, and "!".
pub proof fn lemma_greets_given_name(n: Seq<char>)
    ensures
        greeted_name(Some(n)) == n,
        greeting(Some(n)) == "guest2 run() called: hello, "@ + n + "!"@,
{
}

/// Without a name, `run` greets "world".
pub proof fn lemma_greets_world_without_name()
    ensures
        greeting(None) == "guest2 run() called: hello, world!"@,
{
    reveal_strlit("guest2 run() called: hello, ");
    reveal_strlit("world");
    reveal_strlit("!");
    reveal_strlit("guest2 run() called: hello, world!");
    assert(("guest2 run() called: hello, "@ + "world"@ + "!"@)
        =~= "guest2 run() called: hello, world!"@);
}

/// Different names get different greetings: the greeting of a given name
/// determines the name.
pub proof fn lemma_greeting_distinguishes_names(n1: Seq<char>, n2: Seq<char>)
    requires
        n1 != n2,
    ensures
        greeting(Some(n1)) != greeting(Some(n2)),
{
    reveal_strlit("!");
    let p = "guest2 run() called: hello, "@;
    let g1 = greeting(Some(n1));
    let g2 = greeting(Some(n2));
    if g1 == g2 {
        assert(g1.len() == p.len() + n1.len() + 1);
        assert(g2.len() == p.len() + n2.len() + 1);
        assert(g1.subrange(p.len() as int, (p.len() + n1.len()) as int) =~= n1);
        assert(g2.subrange(p.len() as int, (p.len() + n2.len()) as int) =~= n2);
        assert(n1 =~= n2);
    }
}

} // verus!
