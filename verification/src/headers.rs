//! Request metadata: named, string-valued entries, kept in order.
//!
//! The lookup filter reads one inbound entry by name and appends one
//! outbound entry; everything else is carried through untouched.

use vstd::prelude::*;

verus! {

/// The first value carried under `name`, if any.
pub open spec fn spec_value_of(hs: Seq<(Seq<char>, Seq<char>)>, name: Seq<char>) -> Option<
    Seq<char>,
>
    decreases hs.len(),
{
    if hs.len() == 0 {
        None
    } else if hs[0].0 == name {
        Some(hs[0].1)
    } else {
        spec_value_of(hs.drop_first(), name)
    }
}

/// One request's header set.
pub struct Headers {
    entries: Vec<(String, String)>,
}

impl View for Headers {
    type V = Seq<(Seq<char>, Seq<char>)>;

    closed spec fn view(&self) -> Seq<(Seq<char>, Seq<char>)> {
        self.entries@.map_values(|p: (String, String)| (p.0@, p.1@))
    }
}

impl Headers {
    /// A request with no metadata yet.
    pub fn new() -> (h: Headers)
        ensures
            h@ == Seq::<(Seq<char>, Seq<char>)>::empty(),
    {
        let h = Headers { entries: Vec::new() };
        proof {
            assert(h@ =~= Seq::<(Seq<char>, Seq<char>)>::empty());
        }
        h
    }

    /// How many entries the request carries.
    pub fn len(&self) -> (n: usize)
        ensures
            n == self@.len(),
    {
        self.entries.len()
    }

    /// The name and value of the entry at `i`.
    pub fn entry_at(&self, i: usize) -> (e: &(String, String))
        requires
            i < self@.len(),
        ensures
            self@[i as int] == (e.0@, e.1@),
    {
        &self.entries[i]
    }

    /// The first value carried under `name`, if any.
    pub fn value_of(&self, name: &String) -> (r: Option<String>)
        ensures
            (match r {
                Some(v) => spec_value_of(self@, name@) == Some(v@),
                None => spec_value_of(self@, name@) is None,
            }),
    {
        let n = self.entries.len();
        proof {
            assert(self@.skip(0) =~= self@);
        }
        for i in 0..n
            invariant
                n == self.entries.len(),
                spec_value_of(self@, name@) == spec_value_of(self@.skip(i as int), name@),
        {
            if self.entries[i].0 == *name {
                proof {
                    assert(self@.skip(i as int)[0] == self@[i as int]);
                }
                return Some(self.entries[i].1.clone());
            }
            proof {
                assert(self@.skip(i as int)[0] == self@[i as int]);
                assert(self@.skip(i as int).drop_first() =~= self@.skip(i + 1));
            }
        }
        proof {
            assert(self@.skip(n as int).len() == 0);
        }
        None
    }

    /// Append one entry; every existing entry is untouched.
    pub fn add(&mut self, name: String, value: String)
        ensures
            final(self)@ == old(self)@.push((name@, value@)),
    {
        let ghost n = name@;
        let ghost v = value@;
        self.entries.push((name, value));
        proof {
            assert(self@ =~= old(self)@.push((n, v)));
        }
    }
}

} // verus!
