use vstd::prelude::*;

verus! {

/// `data` followed by three exclamation marks.
pub open spec fn exclaimed(data: Seq<char>) -> Seq<char> {
    data + "!!!"@
}

/// Hands `data` with three exclamation marks appended to `t`.
pub fn test<T: Fn(&str)>(t: T, data: &str)
    requires
        forall|s: &str| s@ == exclaimed(data@) ==> call_requires(t, (s,)),
    ensures
        exists|s: &str| s@ == exclaimed(data@) && call_ensures(t, (s,), ()),
{
    let modified = String::from_str(data).concat("!!!");
    t(modified.as_str());
}

} // verus!
