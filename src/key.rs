use std::marker::PhantomData;
use std::sync::Arc;
use vstd::prelude::*;

use crate::buffer::{Buffer, Entity};

verus! {

/// Relies on `Arc::strong_count`: the number of live handles to the shared
/// lifecycle, the one passed in included.
#[verifier::external_body]
fn live_handles(handle: &Arc<BufferAccessLifecycle>) -> (r: usize)
    ensures
        r >= 1,
{
    Arc::strong_count(handle)
}

/// Whether a lifecycle with `live` live handles is in use: some handle other
/// than the one asking is still alive.
pub fn in_use_given(live: usize) -> (r: bool)
    ensures
        r == (live > 1),
{
    live > 1
}

/// The "in use" record shared by the keys that one accessor node minted for
/// one session. Keys hold it behind a reference-counted handle: it is in use
/// while more than one handle to it is alive.
#[derive(Clone, Copy, PartialEq, Eq, Structural, Debug)]
pub struct BufferAccessLifecycle {
    pub session: Entity,
    pub accessor: Entity,
}

/// The identifying information of a buffer key. This says nothing about the
/// type of the items that the buffer holds.
#[derive(Clone, Debug)]
pub struct BufferKeyTag {
    pub buffer: Entity,
    pub session: Entity,
    /// The node that minted the key. It only decides which listener is spared
    /// the notifications caused through this key; it grants no access.
    pub accessor: Entity,
    pub lifecycle: Option<Arc<BufferAccessLifecycle>>,
}

impl BufferKeyTag {
    /// Whether other handles to this tag's lifecycle are alive: plain clones
    /// of the key, or the builder that minted it. A tag without a lifecycle is
    /// never in use.
    pub fn is_in_use(&self) -> (r: bool)
        ensures
            self.lifecycle.is_none() ==> !r,
    {
        match &self.lifecycle {
            Some(l) => in_use_given(live_handles(l)),
            None => false,
        }
    }

    /// The same identity with a lifecycle of its own, decoupled from the
    /// liveness of this tag and of its plain clones.
    pub fn deep_clone(&self) -> (r: Self)
        ensures
            r.buffer == self.buffer,
            r.session == self.session,
            r.accessor == self.accessor,
            r.lifecycle.is_some() == self.lifecycle.is_some(),
    {
        let lifecycle = match &self.lifecycle {
            Some(l) => Some(Arc::new(BufferAccessLifecycle { session: l.session, accessor: l.accessor })),
            None => None,
        };
        BufferKeyTag {
            buffer: self.buffer,
            session: self.session,
            accessor: self.accessor,
            lifecycle,
        }
    }

    /// A plain copy that shares the lifecycle of this tag.
    pub fn share(&self) -> (r: Self)
        ensures
            r.buffer == self.buffer,
            r.session == self.session,
            r.accessor == self.accessor,
            r.lifecycle.is_some() == self.lifecycle.is_some(),
    {
        let lifecycle = match &self.lifecycle {
            Some(l) => Some(Arc::clone(l)),
            None => None,
        };
        BufferKeyTag {
            buffer: self.buffer,
            session: self.session,
            accessor: self.accessor,
            lifecycle,
        }
    }
}

/// Stamps keys for one session and one accessor node.
pub struct BufferKeyBuilder {
    pub session: Entity,
    pub accessor: Entity,
    pub lifecycle: Option<Arc<BufferAccessLifecycle>>,
}

impl BufferKeyBuilder {
    /// A builder whose keys share one fresh lifecycle.
    pub fn new(session: Entity, accessor: Entity) -> (r: Self)
        ensures
            r.session == session,
            r.accessor == accessor,
            r.lifecycle.is_some(),
    {
        BufferKeyBuilder {
            session,
            accessor,
            lifecycle: Some(Arc::new(BufferAccessLifecycle { session, accessor })),
        }
    }

    /// A builder whose keys carry no lifecycle.
    pub fn untracked(session: Entity, accessor: Entity) -> (r: Self)
        ensures
            r.session == session,
            r.accessor == accessor,
            r.lifecycle.is_none(),
    {
        BufferKeyBuilder { session, accessor, lifecycle: None }
    }

    /// The tag of a key to `buffer`, sharing this builder's lifecycle.
    pub fn make_tag(&self, buffer: Entity) -> (r: BufferKeyTag)
        ensures
            r.buffer == buffer,
            r.session == self.session,
            r.accessor == self.accessor,
            r.lifecycle.is_some() == self.lifecycle.is_some(),
    {
        let lifecycle = match &self.lifecycle {
            Some(l) => Some(Arc::clone(l)),
            None => None,
        };
        BufferKeyTag { buffer, session: self.session, accessor: self.accessor, lifecycle }
    }
}

/// A key that unlocks access to the contents of one buffer within one
/// session.
pub struct BufferKey<T> {
    tag: BufferKeyTag,
    _ignore: PhantomData<T>,
}

impl<T> BufferKey<T> {
    /// The tag of the key, for use in contracts.
    pub closed spec fn spec_tag(&self) -> BufferKeyTag {
        self.tag
    }

    /// The buffer entity of this key.
    pub fn buffer(&self) -> (r: Entity)
        ensures
            r == self.spec_tag().buffer,
    {
        self.tag.buffer
    }

    /// The session that this key belongs to.
    pub fn session(&self) -> (r: Entity)
        ensures
            r == self.spec_tag().session,
    {
        self.tag.session
    }

    /// The identifying information of this key.
    pub fn tag(&self) -> (r: &BufferKeyTag)
        ensures
            *r == self.spec_tag(),
    {
        &self.tag
    }

    /// Stamp a key to `buffer` for the builder's session and accessor; it
    /// shares the builder's lifecycle.
    pub fn create_key(buffer: &Buffer<T>, builder: &BufferKeyBuilder) -> (r: Self)
        ensures
            r.spec_tag().buffer == buffer.spec_location().source,
            r.spec_tag().session == builder.session,
            r.spec_tag().accessor == builder.accessor,
            r.spec_tag().lifecycle.is_some() == builder.lifecycle.is_some(),
    {
        BufferKey { tag: builder.make_tag(buffer.id()), _ignore: PhantomData }
    }

    /// Whether the key's shared lifecycle reports outstanding references.
    pub fn is_in_use(&self) -> (r: bool)
        ensures
            self.spec_tag().lifecycle.is_none() ==> !r,
    {
        self.tag.is_in_use()
    }

    /// The same buffer and session with a lifecycle of its own.
    pub fn deep_clone(&self) -> (r: Self)
        ensures
            r.spec_tag().buffer == self.spec_tag().buffer,
            r.spec_tag().session == self.spec_tag().session,
            r.spec_tag().accessor == self.spec_tag().accessor,
            r.spec_tag().lifecycle.is_some() == self.spec_tag().lifecycle.is_some(),
    {
        BufferKey { tag: self.tag.deep_clone(), _ignore: PhantomData }
    }
}

impl<T> Clone for BufferKey<T> {
    fn clone(&self) -> (r: Self)
        ensures
            r.spec_tag().buffer == self.spec_tag().buffer,
            r.spec_tag().session == self.spec_tag().session,
            r.spec_tag().accessor == self.spec_tag().accessor,
            r.spec_tag().lifecycle.is_some() == self.spec_tag().lifecycle.is_some(),
    {
        BufferKey { tag: self.tag.share(), _ignore: PhantomData }
    }
}

/// A key with the item type erased, for what does not depend on it (the
/// Open/Closed flag).
#[derive(Clone, Debug)]
pub struct AnyBufferKey {
    pub tag: BufferKeyTag,
}

impl<T> From<BufferKey<T>> for AnyBufferKey {
    fn from(key: BufferKey<T>) -> (r: Self)
        ensures
            r.tag == key.spec_tag(),
    {
        AnyBufferKey { tag: key.tag }
    }
}

impl<T> vstd::std_specs::convert::FromSpecImpl<BufferKey<T>> for AnyBufferKey {
    open spec fn obeys_from_spec() -> bool {
        true
    }

    open spec fn from_spec(key: BufferKey<T>) -> Self {
        AnyBufferKey { tag: key.spec_tag() }
    }
}

} // verus!
