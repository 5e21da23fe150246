//! A rotating list of one-liners for the long-running process to show.
//!
//! The list cycles: a sequential read advances by one and wraps, a random
//! pick may land anywhere, and reading the current entry moves nothing.

use vstd::prelude::*;

verus! {

/// Relies on rand::random_range over `0..n`: uniformly samples the range,
/// which is non-empty since `n >= 1`; nothing is assumed beyond the bound.
#[verifier::external_body]
fn pick_index(n: usize) -> (r: usize)
    requires
        n >= 1,
    ensures
        r < n,
{
    rand::random_range(0..n)
}

/// The joke rotation: a non-empty list and a cursor into it.
pub struct JokeList {
    jokes: Vec<String>,
    index: usize,
}

impl JokeList {
    /// The entries, in order.
    pub closed spec fn spec_jokes(self) -> Seq<Seq<char>> {
        self.jokes@.map_values(|s: String| s@)
    }

    /// The cursor.
    pub closed spec fn spec_index(self) -> int {
        self.index as int
    }

    /// The cursor stays inside the list.
    pub open spec fn wf(self) -> bool {
        self.spec_jokes().len() > 0 && self.spec_index() < self.spec_jokes().len()
    }

    /// A rotation over `jokes`, starting at the first entry.
    pub fn new(jokes: Vec<String>) -> (r: JokeList)
        requires
            jokes@.len() > 0,
        ensures
            r.wf(),
            r.spec_jokes() == jokes@.map_values(|s: String| s@),
            r.spec_index() == 0,
    {
        JokeList { jokes, index: 0 }
    }

    /// The current entry, without advancing.
    pub fn get_curr_joke(&self) -> (r: &String)
        requires
            self.wf(),
        ensures
            r@ == self.spec_jokes()[self.spec_index()],
    {
        &self.jokes[self.index]
    }

    /// The current entry; the cursor then advances by one, wrapping past
    /// the last entry.
    pub fn get_seq_joke(&mut self) -> (r: &String)
        requires
            old(self).wf(),
        ensures
            final(self).wf(),
            r@ == old(self).spec_jokes()[old(self).spec_index()],
            final(self).spec_jokes() == old(self).spec_jokes(),
            final(self).spec_index() == (old(self).spec_index() + 1) % (
            old(self).spec_jokes().len() as int),
    {
        let n = self.jokes.len();
        let at = self.index;
        self.index = (at + 1) % n;
        &self.jokes[at]
    }

    /// Moves the cursor to a randomly picked entry and returns it.
    pub fn get_next_joke(&mut self) -> (r: &String)
        requires
            old(self).wf(),
        ensures
            final(self).wf(),
            final(self).spec_jokes() == old(self).spec_jokes(),
            r@ == final(self).spec_jokes()[final(self).spec_index()],
    {
        let at = pick_index(self.jokes.len());
        self.index = at;
        &self.jokes[at]
    }
}

} // verus!
