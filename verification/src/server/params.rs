//! What the captures of a pattern hold for one request.

use vstd::prelude::*;
use vstd::string::*;

verus! {

/// The captures of the pattern that answered to a path: each name with the
/// text that it holds, in the order of the pattern.
#[derive(Debug)]
pub struct Params {
    pairs: Vec<(String, String)>,
}

impl View for Params {
    type V = Seq<(Seq<char>, Seq<char>)>;

    closed spec fn view(&self) -> Seq<(Seq<char>, Seq<char>)> {
        self.pairs.deep_view()
    }
}

/// The text held by the capture of `captures` that is called `name`; by
/// the last one, where more than one is called so.
pub open spec fn capture_of(captures: Seq<(Seq<char>, Seq<char>)>, name: Seq<char>) -> Option<
    Seq<char>,
>
    decreases captures.len(),
{
    if captures.len() == 0 {
        None
    } else if captures.last().0 == name {
        Some(captures.last().1)
    } else {
        capture_of(captures.drop_last(), name)
    }
}

impl Params {
    /// No captures.
    pub fn new() -> (params: Params)
        ensures
            params@ == Seq::<(Seq<char>, Seq<char>)>::empty(),
    {
        let params = Params { pairs: Vec::new() };
        params
    }

    /// The captures given as pairs of a name and a text.
    pub fn from_pairs(pairs: Vec<(String, String)>) -> (params: Params)
        ensures
            params@ == pairs.deep_view(),
    {
        Params { pairs }
    }

    /// The captures as pairs of a name and a text.
    pub fn into_pairs(self) -> (pairs: Vec<(String, String)>)
        ensures
            pairs.deep_view() == self@,
    {
        self.pairs
    }

    /// The number of captures.
    pub fn len(&self) -> (n: usize)
        ensures
            n == self@.len(),
    {
        self.pairs.len()
    }

    /// Whether there is no capture.
    pub fn is_empty(&self) -> (empty: bool)
        ensures
            empty == (self@.len() == 0),
    {
        self.pairs.len() == 0
    }

    /// The name and the text of the capture at `index`.
    pub fn pair(&self, index: usize) -> (pair: (&str, &str))
        requires
            index < self@.len(),
        ensures
            pair.0@ == self@[index as int].0,
            pair.1@ == self@[index as int].1,
    {
        let held = &self.pairs[index];
        (held.0.as_str(), held.1.as_str())
    }

    /// The text held by the capture called `name`; by the last one, where
    /// more than one is called so.
    pub fn get(&self, name: &str) -> (text: Option<&str>)
        ensures
            match capture_of(self@, name@) {
                Some(held) => text matches Some(t) && t@ == held,
                None => text is None,
            },
    {
        let wanted = String::from_str(name);
        let mut i: usize = self.pairs.len();
        assert(self@.take(i as int) =~= self@);
        while i > 0
            invariant
                i <= self.pairs.len(),
                wanted@ == name@,
                capture_of(self@, name@) == capture_of(self@.take(i as int), name@),
            decreases i,
        {
            let ghost front = self@.take(i as int);
            assert(front.last() == self.pairs@[i - 1].deep_view());
            assert(front.drop_last() =~= self@.take(i - 1));
            i -= 1;
            if self.pairs[i].0 == wanted {
                return Some(self.pairs[i].1.as_str());
            }
        }
        None
    }

    /// Moves the captures out and leaves none behind.
    pub fn take(&mut self) -> (taken: Params)
        ensures
            taken@ == old(self)@,
            final(self)@ == Seq::<(Seq<char>, Seq<char>)>::empty(),
    {
        let mut pairs: Vec<(String, String)> = Vec::new();
        core::mem::swap(&mut self.pairs, &mut pairs);
        Params { pairs }
    }
}

} // verus!
