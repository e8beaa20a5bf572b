//! Buffers backed by the `smallvec` crate.
//!
//! The radar wire frames, command payloads and trajectory previews are
//! held in `smallvec::SmallVec` buffers, as the hardware layer expects.
//! Verus cannot declare the `SmallVec` type itself (its `Array` bound is
//! an outside trait), so each instantiation is held in a private field of
//! an opaque struct. What a buffer holds is named by one uninterpreted
//! sequence per instantiation, and each method the library calls is
//! wrapped with a contract over that sequence, taken from the `smallvec`
//! source: a `SmallVec` behaves as a contiguous growable vector, exactly
//! like `std::vec::Vec`.

use vstd::prelude::*;

use smallvec::SmallVec;

use crate::vec2::Vec2;

verus! {

/// A byte buffer with sixteen inline slots: command payloads.
#[verifier::external_body]
#[derive(Debug)]
pub struct ByteBuf16 {
    inner: SmallVec<[u8; 16]>,
}

/// A byte buffer with thirty-two inline slots: whole wire frames.
#[verifier::external_body]
#[derive(Debug)]
pub struct ByteBuf32 {
    inner: SmallVec<[u8; 32]>,
}

/// A buffer of predicted trajectory points with ten inline slots.
#[verifier::external_body]
#[derive(Debug)]
pub struct TrajectoryBuf {
    inner: SmallVec<[Vec2; 10]>,
}

/// The bytes held by a sixteen-slot buffer.
pub uninterp spec fn bytes16_of(v: ByteBuf16) -> Seq<u8>;

/// The bytes held by a thirty-two-slot buffer.
pub uninterp spec fn bytes32_of(v: ByteBuf32) -> Seq<u8>;

/// The points held by a trajectory buffer.
pub uninterp spec fn traj_points_of(v: TrajectoryBuf) -> Seq<Vec2>;

impl ByteBuf16 {
    /// Relies on smallvec::SmallVec::new: a fresh vector is empty.
    #[verifier::external_body]
    pub fn new() -> (r: ByteBuf16)
        ensures
            bytes16_of(r) == Seq::<u8>::empty(),
    {
        ByteBuf16 { inner: SmallVec::new() }
    }

    /// Relies on smallvec::SmallVec::push: appends one element.
    #[verifier::external_body]
    pub fn push(&mut self, b: u8)
        requires
            bytes16_of(*old(self)).len() < usize::MAX,
        ensures
            bytes16_of(*final(self)) == bytes16_of(*old(self)).push(b),
    {
        self.inner.push(b)
    }

    /// Relies on smallvec::SmallVec::extend_from_slice: appends a copy
    /// of the slice.
    #[verifier::external_body]
    pub fn extend_from_slice(&mut self, s: &[u8])
        requires
            bytes16_of(*old(self)).len() + s@.len() <= usize::MAX,
        ensures
            bytes16_of(*final(self)) == bytes16_of(*old(self)) + s@,
    {
        self.inner.extend_from_slice(s)
    }

    /// Relies on smallvec::SmallVec::len: the number of stored elements.
    #[verifier::external_body]
    pub fn len(&self) -> (r: usize)
        ensures
            r == bytes16_of(*self).len(),
    {
        self.inner.len()
    }

    /// Relies on smallvec::SmallVec::as_slice: a borrow of all stored
    /// elements in order.
    #[verifier::external_body]
    pub fn as_slice(&self) -> (r: &[u8])
        ensures
            r@ == bytes16_of(*self),
    {
        self.inner.as_slice()
    }
}

impl ByteBuf32 {
    /// Relies on smallvec::SmallVec::new: a fresh vector is empty.
    #[verifier::external_body]
    pub fn new() -> (r: ByteBuf32)
        ensures
            bytes32_of(r) == Seq::<u8>::empty(),
    {
        ByteBuf32 { inner: SmallVec::new() }
    }

    /// Relies on smallvec::SmallVec::push: appends one element.
    #[verifier::external_body]
    pub fn push(&mut self, b: u8)
        requires
            bytes32_of(*old(self)).len() < usize::MAX,
        ensures
            bytes32_of(*final(self)) == bytes32_of(*old(self)).push(b),
    {
        self.inner.push(b)
    }

    /// Relies on smallvec::SmallVec::extend_from_slice: appends a copy
    /// of the slice.
    #[verifier::external_body]
    pub fn extend_from_slice(&mut self, s: &[u8])
        requires
            bytes32_of(*old(self)).len() + s@.len() <= usize::MAX,
        ensures
            bytes32_of(*final(self)) == bytes32_of(*old(self)) + s@,
    {
        self.inner.extend_from_slice(s)
    }

    /// Relies on smallvec::SmallVec::as_slice: a borrow of all stored
    /// elements in order.
    #[verifier::external_body]
    pub fn as_slice(&self) -> (r: &[u8])
        ensures
            r@ == bytes32_of(*self),
    {
        self.inner.as_slice()
    }
}

impl TrajectoryBuf {
    /// Relies on smallvec::SmallVec::new: a fresh vector is empty.
    #[verifier::external_body]
    pub fn new() -> (r: TrajectoryBuf)
        ensures
            traj_points_of(r) == Seq::<Vec2>::empty(),
    {
        TrajectoryBuf { inner: SmallVec::new() }
    }

    /// Relies on smallvec::SmallVec::push: appends one element.
    #[verifier::external_body]
    pub fn push(&mut self, p: Vec2)
        requires
            traj_points_of(*old(self)).len() < usize::MAX,
        ensures
            traj_points_of(*final(self)) == traj_points_of(*old(self)).push(p),
    {
        self.inner.push(p)
    }

    /// Relies on smallvec::SmallVec::len: the number of stored elements.
    #[verifier::external_body]
    pub fn len(&self) -> (r: usize)
        ensures
            r == traj_points_of(*self).len(),
    {
        self.inner.len()
    }

    /// Relies on core indexing into the `SmallVec`'s slice: the element
    /// at `i`.
    #[verifier::external_body]
    pub fn index(&self, i: usize) -> (r: Vec2)
        requires
            i < traj_points_of(*self).len(),
        ensures
            r == traj_points_of(*self)[i as int],
    {
        self.inner[i]
    }

    /// The element at `i`, or `None` past the end.
    pub fn get(&self, i: usize) -> (r: Option<Vec2>)
        ensures
            r == (if i < traj_points_of(*self).len() {
                Some(traj_points_of(*self)[i as int])
            } else {
                Option::<Vec2>::None
            }),
    {
        if i < self.len() {
            Some(self.index(i))
        } else {
            None
        }
    }
}

} // verus!
