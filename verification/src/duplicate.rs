//! Copies that hold what the copied value holds.

use vstd::prelude::*;

verus! {

/// A value of which a copy with the same contents can be made.
pub trait Duplicate: DeepView + Sized {
    /// A copy with the same contents.
    fn duplicate(&self) -> (r: Self)
        ensures
            r.deep_view() == self.deep_view(),
    ;
}

impl Duplicate for String {
    fn duplicate(&self) -> (r: Self) {
        self.clone()
    }
}

impl Duplicate for bool {
    fn duplicate(&self) -> (r: Self) {
        *self
    }
}

impl Duplicate for u64 {
    fn duplicate(&self) -> (r: Self) {
        *self
    }
}

impl<T: Duplicate> Duplicate for Option<T> {
    fn duplicate(&self) -> (r: Self) {
        match self {
            Some(t) => Some(t.duplicate()),
            None => None,
        }
    }
}

impl<T: Duplicate> Duplicate for Vec<T> {
    fn duplicate(&self) -> (r: Self) {
        let mut r: Vec<T> = Vec::new();
        for i in 0..self.len()
            invariant
                r.len() == i,
                forall|k: int| 0 <= k < i ==> r@[k].deep_view() == self@[k].deep_view(),
        {
            r.push(self[i].duplicate());
        }
        assert(r.deep_view() =~= self.deep_view());
        r
    }
}

} // verus!
