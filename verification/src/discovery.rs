//! Static service discovery: a fixed list of `(name, address)` pairs.
use vstd::prelude::*;

use crate::text::same_text;

verus! {

/// The addresses listed under `name`, in list order.
pub open spec fn addresses_of<A>(entries: Seq<(Seq<char>, A)>, name: Seq<char>) -> Seq<A>
    decreases entries.len(),
{
    if entries.len() == 0 {
        Seq::empty()
    } else {
        let rest = addresses_of(entries.drop_last(), name);
        if entries.last().0 == name {
            rest.push(entries.last().1)
        } else {
            rest
        }
    }
}

/// A resolver backed by a static list of `(name, addr)` pairs.
///
/// Useful for testing and single-host deployments.
#[derive(Debug, Clone)]
pub struct StaticResolver<A> {
    entries: Vec<(String, A)>,
}

impl<A> StaticResolver<A> {
    /// The listed pairs, with each name as text.
    pub closed spec fn entries(&self) -> Seq<(Seq<char>, A)> {
        self.entries@.map_values(|e: (String, A)| (e.0@, e.1))
    }

    /// Create a resolver from an explicit list of `(name, addr)` pairs.
    pub fn new(entries: Vec<(String, A)>) -> (r: Self)
        ensures
            r.entries() == entries@.map_values(|e: (String, A)| (e.0@, e.1)),
    {
        StaticResolver { entries }
    }
}

impl<A: Copy> StaticResolver<A> {
    /// The addresses listed under `service_name`, in list order; empty if
    /// the service is not listed.
    pub fn resolve(&self, service_name: &str) -> (r: Vec<A>)
        ensures
            r@ == addresses_of(self.entries(), service_name@),
    {
        let mut found: Vec<A> = Vec::new();
        let mut i: usize = 0;
        while i < self.entries.len()
            invariant
                i <= self.entries@.len(),
                found@ == addresses_of(self.entries().take(i as int), service_name@),
            decreases self.entries@.len() - i,
        {
            assert(self.entries().take(i + 1).drop_last() =~= self.entries().take(i as int));
            let entry = &self.entries[i];
            if same_text(entry.0.as_str(), service_name) {
                found.push(entry.1);
            }
            i = i + 1;
        }
        assert(self.entries().take(self.entries@.len() as int) =~= self.entries());
        found
    }
}

impl<A> Default for StaticResolver<A> {
    /// A resolver that lists nothing.
    fn default() -> (r: Self)
        ensures
            r.entries() == Seq::<(Seq<char>, A)>::empty(),
    {
        let r = StaticResolver { entries: Vec::new() };
        assert(r.entries() =~= Seq::<(Seq<char>, A)>::empty());
        r
    }
}

} // verus!
