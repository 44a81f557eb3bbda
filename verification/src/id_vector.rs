use vstd::prelude::*;

use crate::id::Id;
use crate::message::{retain_all, RcMessage};
use crate::ownership::Ownership;

verus! {

/// Extension methods for slices of `Id`s.
pub trait IdVector {
    /// The references held by the slice, as the addresses of their objects,
    /// in order.
    fn as_refs_slice(&self) -> Vec<usize>;
}

impl<T, O: Ownership> IdVector for [Id<T, O>] {
    fn as_refs_slice(&self) -> (r: Vec<usize>)
        ensures
            r@.len() == self@.len(),
            forall|i: int| 0 <= i < self@.len() ==> #[trigger] r@[i] == self@[i].addr(),
            forall|i: int| 0 <= i < r@.len() ==> #[trigger] r@[i] != 0,
    {
        let mut r: Vec<usize> = Vec::new();
        let n = self.len();
        for i in 0..n
            invariant
                n == self@.len(),
                r@.len() == i,
                forall|j: int| 0 <= j < i ==> r@[j] == #[trigger] self@[j].addr(),
                forall|j: int| 0 <= j < i ==> #[trigger] r@[j] != 0,
        {
            let p = self[i].as_ptr();
            r.push(p);
        }
        r
    }
}

/// Conversion into a vector of `Id`s, consuming the addresses of the objects.
pub trait IntoIdVector<T>: Sized {
    /// The addresses of the objects, in order.
    spec fn object_addrs(&self) -> Seq<usize>;

    /// Makes an `Id` for each object, retaining each one; the `retain`s are
    /// appended to `out` in order. No address may be null.
    fn into_id_vec<O: Ownership>(self, out: &mut Vec<RcMessage>) -> (r: Vec<Id<T, O>>)
        requires
            forall|i: int|
                0 <= i < self.object_addrs().len() ==> #[trigger] self.object_addrs()[i] != 0,
        ensures
            r@.len() == self.object_addrs().len(),
            forall|i: int| 0 <= i < r@.len() ==> #[trigger] r@[i].addr() == self.object_addrs()[i],
            final(out)@ == old(out)@ + retain_all(self.object_addrs()),
    ;
}

impl<T> IntoIdVector<T> for Vec<usize> {
    open spec fn object_addrs(&self) -> Seq<usize> {
        self@
    }

    fn into_id_vec<O: Ownership>(self, out: &mut Vec<RcMessage>) -> (r: Vec<Id<T, O>>)
        ensures
            r@.len() == self@.len(),
            forall|i: int| 0 <= i < r@.len() ==> #[trigger] Id::<T, O>::addr(r@[i]) == self@[i],
            final(out)@ == old(out)@ + retain_all(self@),
    {
        let mut r: Vec<Id<T, O>> = Vec::new();
        let n = self.len();
        assert forall|j: int| 0 <= j < self@.len() implies #[trigger] self@[j] != 0 by {
            assert(<Vec<usize> as IntoIdVector<T>>::object_addrs(&self)[j] != 0);
        }
        for i in 0..n
            invariant
                n == self@.len(),
                forall|j: int| 0 <= j < self@.len() ==> #[trigger] self@[j] != 0,
                r@.len() == i,
                forall|j: int| 0 <= j < i ==> #[trigger] r@[j].addr() == self@[j],
                out@ == old(out)@ + retain_all(self@.take(i as int)),
        {
            let id = Id::<T, O>::from_ptr(self[i], out);
            r.push(id);
            assert(self@.take(i + 1) =~= self@.take(i as int).push(self@[i as int]));
            assert(retain_all(self@.take(i + 1)) =~= retain_all(self@.take(i as int)).push(
                RcMessage::Retain(self@[i as int]),
            ));
        }
        assert(self@.take(n as int) =~= self@);
        r
    }
}

/// A vector of addresses converts from its own elements, in order: the
/// addresses `into_id_vec` works from are exactly the vector's contents, so
/// the i-th `Id` refers to the i-th address and the objects are retained in
/// the vector's order.
pub proof fn law_vec_object_addrs_are_elements<T>(v: Vec<usize>)
    ensures
        <Vec<usize> as IntoIdVector<T>>::object_addrs(&v) == v@,
        forall|i: int|
            0 <= i < v@.len() ==> #[trigger] <Vec<usize> as IntoIdVector<T>>::object_addrs(&v)[i]
                == v@[i],
        retain_all(<Vec<usize> as IntoIdVector<T>>::object_addrs(&v)) == retain_all(v@),
{
}

} // verus!
