use std::marker::PhantomData;
use vstd::prelude::*;

verus! {

/// Opaque identifier of an entity of the host substrate: a workflow, a buffer,
/// a session or a node. Two identifiers are equal exactly when their bits are.
#[derive(Clone, Copy, PartialEq, Eq, Structural, Hash, PartialOrd, Ord, Debug)]
pub struct Entity {
    pub bits: u64,
}

impl Entity {
    /// Rebuild an identifier from its bits.
    pub fn from_bits(bits: u64) -> (r: Entity)
        ensures
            r.bits == bits,
    {
        Entity { bits }
    }

    /// The bits that identify this entity.
    pub fn to_bits(&self) -> (r: u64)
        ensures
            r == self.bits,
    {
        self.bits
    }
}

/// The general identifying information of a buffer. This says nothing about
/// the type of the items the buffer holds.
#[derive(Clone, Copy, PartialEq, Eq, Structural, Debug)]
pub struct BufferLocation {
    /// The workflow that the buffer belongs to.
    pub scope: Entity,
    /// The buffer itself.
    pub source: Entity,
}

/// A buffer is a node of a workflow that stores and releases data. The type
/// parameter only tags the type of the items; the handle is a plain identity
/// pair and can be copied freely.
pub struct Buffer<T> {
    location: BufferLocation,
    _ignore: PhantomData<T>,
}

impl<T> Buffer<T> {
    /// The identity pair of this buffer, for use in contracts.
    pub closed spec fn spec_location(&self) -> BufferLocation {
        self.location
    }

    /// The handle of the buffer at `location`, in contracts.
    pub closed spec fn located_at(location: BufferLocation) -> Self {
        Buffer { location, _ignore: PhantomData }
    }

    /// Name the buffer at `location`.
    pub fn new(location: BufferLocation) -> (r: Self)
        ensures
            r.spec_location() == location,
    {
        Buffer { location, _ignore: PhantomData }
    }

    /// Read the buffer by cloning its items instead of consuming them.
    pub fn by_cloning(self) -> (r: CloneFromBuffer<T>) where T: Clone
        ensures
            r.spec_location() == self.spec_location(),
    {
        CloneFromBuffer { location: self.location, _ignore: PhantomData }
    }

    /// The entity of the buffer.
    pub fn id(&self) -> (r: Entity)
        ensures
            r == self.spec_location().source,
    {
        self.location.source
    }

    /// The workflow that the buffer belongs to.
    pub fn scope(&self) -> (r: Entity)
        ensures
            r == self.spec_location().scope,
    {
        self.location.scope
    }

    /// General information about the buffer.
    pub fn location(&self) -> (r: BufferLocation)
        ensures
            r == self.spec_location(),
    {
        self.location
    }
}

impl<T> Clone for Buffer<T> {
    fn clone(&self) -> (r: Self)
        ensures
            r.spec_location() == self.spec_location(),
    {
        Buffer { location: self.location, _ignore: PhantomData }
    }
}

impl<T> Copy for Buffer<T> {
}

/// A buffer that is read by cloning its items instead of pulling them.
pub struct CloneFromBuffer<T: Clone> {
    location: BufferLocation,
    _ignore: PhantomData<T>,
}

impl<T: Clone> CloneFromBuffer<T> {
    /// The identity pair of this buffer, for use in contracts.
    pub closed spec fn spec_location(&self) -> BufferLocation {
        self.location
    }

    /// The entity of the buffer.
    pub fn id(&self) -> (r: Entity)
        ensures
            r == self.spec_location().source,
    {
        self.location.source
    }

    /// The workflow that the buffer belongs to.
    pub fn scope(&self) -> (r: Entity)
        ensures
            r == self.spec_location().scope,
    {
        self.location.scope
    }

    /// General information about the buffer.
    pub fn location(&self) -> (r: BufferLocation)
        ensures
            r == self.spec_location(),
    {
        self.location
    }
}

impl<T: Clone> Clone for CloneFromBuffer<T> {
    fn clone(&self) -> (r: Self)
        ensures
            r.spec_location() == self.spec_location(),
    {
        CloneFromBuffer { location: self.location, _ignore: PhantomData }
    }
}

impl<T: Clone> Copy for CloneFromBuffer<T> {
}

impl<T: Clone> From<CloneFromBuffer<T>> for Buffer<T> {
    fn from(value: CloneFromBuffer<T>) -> (r: Self)
        ensures
            r.spec_location() == value.spec_location(),
    {
        Buffer { location: value.location, _ignore: PhantomData }
    }
}

impl<T: Clone> vstd::std_specs::convert::FromSpecImpl<CloneFromBuffer<T>> for Buffer<T> {
    open spec fn obeys_from_spec() -> bool {
        true
    }

    open spec fn from_spec(v: CloneFromBuffer<T>) -> Self {
        Buffer::<T>::located_at(v.spec_location())
    }
}

} // verus!
