//! Utilities for creating and combining CSS classes.

use crate::text::concat;
use vstd::prelude::*;

verus! {

/// A collection of CSS classes.
pub struct Classes(Vec<String>);

/// The class names joined by single spaces.
pub open spec fn joined(parts: Seq<Seq<char>>) -> Seq<char>
    decreases parts.len(),
{
    if parts.len() == 0 {
        seq![]
    } else if parts.len() == 1 {
        parts[0]
    } else {
        joined(parts.drop_last()) + seq![' '] + parts.last()
    }
}

impl View for Classes {
    type V = Seq<Seq<char>>;

    closed spec fn view(&self) -> Seq<Seq<char>> {
        self.0@.map_values(|s: String| s@)
    }
}

impl Classes {
    /// Creates a new empty collection of CSS classes.
    pub fn new() -> (r: Classes)
        ensures
            r@ == Seq::<Seq<char>>::empty(),
    {
        let r = Classes(Vec::new());
        assert(r@ =~= Seq::<Seq<char>>::empty());
        r
    }

    fn extend(&mut self, other: Classes)
        ensures
            final(self)@ == old(self)@ + other@,
    {
        let ghost start = self.0@;
        let v = other.0;
        let mut i: usize = 0;
        while i < v.len()
            invariant
                i <= v@.len(),
                self.0@ == start + v@.subrange(0, i as int),
            decreases v@.len() - i,
        {
            self.0.push(v[i].clone());
            assert(self.0@ =~= start + v@.subrange(0, i + 1));
            i += 1;
        }
        assert(v@.subrange(0, v@.len() as int) =~= v@);
        assert(self@ =~= (start + v@).map_values(|s: String| s@));
        assert((start + v@).map_values(|s: String| s@) =~= start.map_values(|s: String| s@)
            + v@.map_values(|s: String| s@));
    }

    /// Adds CSS classes to the collection, after those already in it.
    pub fn add(&mut self, class: Classes)
        ensures
            final(self)@ == old(self)@ + class@,
    {
        self.extend(class);
    }

    /// The collection of the one class `value`.
    pub fn from_string(value: String) -> (r: Classes)
        ensures
            r@ == seq![value@],
    {
        let mut v: Vec<String> = Vec::new();
        v.push(value);
        let r = Classes(v);
        assert(r@ =~= seq![value@]);
        r
    }

    /// The collection of the one class `value`.
    pub fn from_str(value: &str) -> (r: Classes)
        ensures
            r@ == seq![value@],
    {
        Classes::from_string(String::from_str(value))
    }

    /// The collection of the class `value` if there is one, else empty.
    pub fn from_option(value: Option<String>) -> (r: Classes)
        ensures
            r@ == match value {
                Some(s) => seq![s@],
                None => Seq::<Seq<char>>::empty(),
            },
    {
        match value {
            Some(s) => Classes::from_string(s),
            None => Classes::new(),
        }
    }

    /// The collection of the classes in `values`, in order.
    pub fn from_vec(values: Vec<String>) -> (r: Classes)
        ensures
            r@ == values@.map_values(|s: String| s@),
    {
        Classes(values)
    }

    /// The classes, joined by single spaces.
    pub fn to_string(&self) -> (r: String)
        ensures
            r@ == joined(self@),
    {
        let mut out = String::new();
        let mut i: usize = 0;
        while i < self.0.len()
            invariant
                i <= self@.len(),
                out@ == joined(self@.subrange(0, i as int)),
            decreases self@.len() - i,
        {
            let ghost parts = self@.subrange(0, i + 1);
            assert(parts.drop_last() =~= self@.subrange(0, i as int));
            if i == 0 {
                out = self.0[i].clone();
                assert(out@ == parts[0]);
            } else {
                let head = concat(out.as_str(), " ");
                out = concat(head.as_str(), self.0[i].as_str());
                assert(out@ =~= joined(parts.drop_last()) + seq![' '] + parts.last()) by {
                    reveal_strlit(" ");
                }
            }
            i += 1;
        }
        assert(self@.subrange(0, self@.len() as int) =~= self@);
        out
    }

    /// Converts the collection into a string containing all classes.
    pub fn into_classes(self) -> (r: String)
        ensures
            r@ == joined(self@),
    {
        self.to_string()
    }

    /// The classes, in order.
    pub fn into_vec(self) -> (r: Vec<String>)
        ensures
            r@.map_values(|s: String| s@) == self@,
    {
        self.0
    }
}

} // verus!
