use core::marker::PhantomData;
use vstd::prelude::*;

use crate::message::RcMessage;
use crate::ownership::{Owned, Ownership, Shared};

verus! {

/// A reference to an Objective-C reference-counted object of class `T`,
/// identified by the object's address. The object is retained while the `Id`
/// lives, and sent a `release` message when the `Id` is released.
///
/// An `Id` is either `Owned` or `Shared` (`Id` and `ShareId`). If owned, there
/// are no other references to the object. A `ShareId` may be cloned to give
/// more references to the object. An owned `Id` can be downgraded to a
/// `ShareId` with `share`, but there is no way back.
///
/// An `Id` never holds the null address.
pub struct Id<T, O: Ownership = Owned> {
    ptr: usize,
    object: PhantomData<T>,
    ownership: PhantomData<O>,
}

/// A shared `Id`.
pub type ShareId<T> = Id<T, Shared>;

impl<T, O: Ownership> Id<T, O> {
    #[verifier::type_invariant]
    spec fn non_null(self) -> bool {
        self.ptr != 0
    }

    /// The address of the object this `Id` refers to.
    pub closed spec fn addr(self) -> usize {
        self.ptr
    }

    /// Wraps a non-null address; the one place an `Id` is built.
    fn wrap(ptr: usize) -> (r: Self)
        requires
            ptr != 0,
        ensures
            r.addr() == ptr,
    {
        Id { ptr, object: PhantomData, ownership: PhantomData }
    }

    /// Constructs an `Id` from the address of an object that already holds a
    /// retain for it (a +1 retain count), if the address is not null;
    /// otherwise returns `None`. No message is sent.
    pub fn maybe_from_retained_ptr(ptr: usize) -> (r: Option<Self>)
        ensures
            r is None <==> ptr == 0,
            r matches Some(id) ==> id.addr() == ptr,
    {
        if ptr == 0 {
            None
        } else {
            Some(Self::wrap(ptr))
        }
    }

    /// Constructs an `Id` from the address of an object that already holds a
    /// retain for it; the address must not be null. No message is sent.
    pub fn from_retained_ptr(ptr: usize) -> (r: Self)
        requires
            ptr != 0,
        ensures
            r.addr() == ptr,
    {
        match Self::maybe_from_retained_ptr(ptr) {
            Some(id) => id,
            // not reached: `ptr` is not null
            None => Self::wrap(ptr),
        }
    }

    /// Constructs an `Id` from the address of an unretained object and
    /// retains it, if the address is not null; otherwise returns `None`.
    ///
    /// The `retain` is appended to `out`. Messaging the null address is a
    /// no-op in the runtime, so for it nothing is appended.
    pub fn maybe_from_ptr(ptr: usize, out: &mut Vec<RcMessage>) -> (r: Option<Self>)
        ensures
            r is None <==> ptr == 0,
            r matches Some(id) ==> id.addr() == ptr,
            final(out)@ == if ptr == 0 {
                old(out)@
            } else {
                old(out)@.push(RcMessage::Retain(ptr))
            },
    {
        if ptr != 0 {
            out.push(RcMessage::Retain(ptr));
        }
        Self::maybe_from_retained_ptr(ptr)
    }

    /// Constructs an `Id` from the address of an unretained object and
    /// retains it; the address must not be null. The `retain` is appended to
    /// `out`.
    pub fn from_ptr(ptr: usize, out: &mut Vec<RcMessage>) -> (r: Self)
        requires
            ptr != 0,
        ensures
            r.addr() == ptr,
            final(out)@ == old(out)@.push(RcMessage::Retain(ptr)),
    {
        match Self::maybe_from_ptr(ptr, out) {
            Some(id) => id,
            // not reached: `ptr` is not null
            None => Self::wrap(ptr),
        }
    }

    /// The address of the object; never null.
    pub fn as_ptr(&self) -> (r: usize)
        ensures
            r == self.addr(),
            r != 0,
    {
        proof {
            use_type_invariant(self);
        }
        self.ptr
    }

    /// Gives up this reference: the object is sent a `release`, which is
    /// appended to `out`.
    pub fn release(self, out: &mut Vec<RcMessage>)
        ensures
            final(out)@ == old(out)@.push(RcMessage::Release(self.addr())),
    {
        let ptr = self.as_ptr();
        out.push(RcMessage::Release(ptr));
    }
}

impl<T> Id<T, Owned> {
    /// Downgrades an owned `Id` to a `ShareId`, which may then be cloned.
    /// The object's retain count is unchanged; no message is sent.
    pub fn share(self) -> (r: ShareId<T>)
        ensures
            r.addr() == self.addr(),
    {
        let ptr = self.as_ptr();
        Id::<T, Shared>::wrap(ptr)
    }
}

impl<T> Id<T, Shared> {
    /// Makes another shared reference to the same object, retaining it once
    /// more; the `retain` is appended to `out`.
    pub fn clone(&self, out: &mut Vec<RcMessage>) -> (r: ShareId<T>)
        ensures
            r.addr() == self.addr(),
            final(out)@ == old(out)@.push(RcMessage::Retain(self.addr())),
    {
        let ptr = self.as_ptr();
        Self::from_ptr(ptr, out)
    }
}

} // verus!
