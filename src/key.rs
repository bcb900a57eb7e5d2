//! The identity of a compiled function: its name and the types of its
//! arguments.
use vstd::prelude::*;

verus! {

/// `name`, then `_` and the type name of each argument in order.
pub open spec fn key_of(name: Seq<char>, type_names: Seq<Seq<char>>) -> Seq<char>
    decreases type_names.len(),
{
    if type_names.len() == 0 {
        name
    } else {
        key_of(name, type_names.drop_last()) + seq!['_'] + type_names.last()
    }
}

/// The cache key of a function called with arguments of the given types.
pub fn jit_key(name: &str, type_names: &Vec<String>) -> (r: String)
    ensures
        r@ == key_of(name@, type_names@.map_values(|s: String| s@)),
{
    let ghost views = type_names@.map_values(|s: String| s@);
    let mut key = String::from_str(name);
    let mut k: usize = 0;
    proof {
        reveal_strlit("_");
        assert(views.subrange(0, 0) =~= Seq::<Seq<char>>::empty());
    }
    while k < type_names.len()
        invariant
            k <= type_names@.len(),
            views == type_names@.map_values(|s: String| s@),
            key@ == key_of(name@, views.subrange(0, k as int)),
            "_"@ == seq!['_'],
        decreases type_names@.len() - k,
    {
        key.append("_");
        key.append(type_names[k].as_str());
        k = k + 1;
        assert(views.subrange(0, k as int).drop_last() =~= views.subrange(0, k - 1));
    }
    assert(views.subrange(0, k as int) =~= views);
    key
}

} // verus!
