use vstd::prelude::*;

verus! {

/// A `::`-separated key prefix for a key-value store.
#[derive(Debug)]
pub struct Namespace {
    path: String,
}

/// The key that `name` gets under the prefix `path`: `path::name`.
pub open spec fn key_under(path: Seq<char>, name: Seq<char>) -> Seq<char> {
    path + "::"@ + name
}

impl Namespace {
    /// The prefix that keys of this namespace start with.
    pub closed spec fn prefix(&self) -> Seq<char> {
        self.path@
    }

    pub fn new(name: &str) -> (r: Self)
        ensures
            r.prefix() == name@,
    {
        Namespace { path: String::from_str(name) }
    }

    /// The namespace one level below this one, named `name`.
    pub fn nest(&self, name: &str) -> (r: Self)
        ensures
            r.prefix() == key_under(self.prefix(), name@),
    {
        Namespace { path: self.key(name) }
    }

    /// The key of `name` in this namespace.
    pub fn key(&self, name: &str) -> (r: String)
        ensures
            r@ == key_under(self.prefix(), name@),
    {
        let mut key = self.path.clone();
        key.append("::");
        key.append(name);
        key
    }
}

/// Nesting composes: a key of a nested namespace is the nested prefix, `::`,
/// and the name, so `new(a).nest(b).key(c)` is `a::b::c`.
pub proof fn lemma_nested_key(a: Seq<char>, b: Seq<char>, c: Seq<char>)
    ensures
        key_under(key_under(a, b), c) == a + "::"@ + b + "::"@ + c,
{
    assert(key_under(key_under(a, b), c) =~= a + "::"@ + b + "::"@ + c);
}

} // verus!
