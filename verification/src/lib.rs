use vstd::prelude::*;

verus! {

/// The greeting formed from `name`: the fixed prefix `"Hello, "`, then the
/// name itself, then the fixed suffix `"!"`.
pub open spec fn greeting(name: Seq<char>) -> Seq<char> {
    "Hello, "@ + name + "!"@
}

/// Returns the greeting for `name`.
///
/// Defined for every name, the empty one included; the result is a fresh
/// `String` and the call changes nothing else.
pub fn greet(name: &str) -> (res: String)
    ensures
        res@ == greeting(name@),
{
    let mut s = String::from_str("Hello, ");
    s.append(name);
    s.append("!");
    proof {
        assert(s@ =~= greeting(name@));
    }
    s
}

/// Determinism: any two results of `greet` on the same name have equal
/// contents, since each is pinned to `greeting` of that name.
pub proof fn lemma_greet_deterministic(r1: Seq<char>, r2: Seq<char>, name: Seq<char>)
    requires
        r1 == greeting(name),
        r2 == greeting(name),
    ensures
        r1 == r2,
{
}

} // verus!
