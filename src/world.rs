use std::collections::HashMap;
use vstd::prelude::*;

use crate::buffer::{Buffer, BufferLocation, Entity};
use crate::gate::{BufferGateMut, BufferGateView, GateState};
use crate::guard::{BufferMut, BufferView};
use crate::key::{AnyBufferKey, BufferKey};
use crate::notify::BufferUpdate;
use crate::settings::BufferSettings;
use crate::storage::BufferStorage;

verus! {

broadcast use vstd::std_specs::hash::group_hash_axioms;

/// Why a key could not be resolved.
#[derive(Clone, Copy, PartialEq, Eq, Structural, Debug)]
pub enum BufferError {
    /// The key was unable to identify a buffer.
    BufferMissing,
}

impl BufferError {
    /// A human-readable description of the error.
    pub fn message(&self) -> (r: &'static str)
        ensures
            r@ == "The key was unable to identify a buffer"@,
    {
        match self {
            BufferError::BufferMissing => "The key was unable to identify a buffer",
        }
    }
}

/// What the host keeps for one buffer: its items and its Open/Closed flag.
pub struct BufferRecord<T> {
    storage: BufferStorage<T>,
    gate: GateState,
}

/// All buffers of one item type, addressed by entity, with the queue of
/// update events that their guards left for the scheduler.
pub struct BufferWorld<T> {
    records: HashMap<u64, BufferRecord<T>>,
    updates: Vec<BufferUpdate>,
    next_id: u64,
}

impl<T> BufferWorld<T> {
    pub closed spec fn has_buffer(&self, buffer: Entity) -> bool {
        self.records@.contains_key(buffer.bits)
    }

    /// The storage of `buffer`; meaningful where `has_buffer(buffer)`.
    pub closed spec fn storage_of(&self, buffer: Entity) -> BufferStorage<T> {
        self.records@[buffer.bits].storage
    }

    /// The Open/Closed flags of `buffer`; meaningful where `has_buffer(buffer)`.
    pub closed spec fn gate_of(&self, buffer: Entity) -> GateState {
        self.records@[buffer.bits].gate
    }

    /// Update events not yet handed to the scheduler, oldest first.
    pub closed spec fn pending(&self) -> Seq<BufferUpdate> {
        self.updates@
    }

    pub closed spec fn wf(&self) -> bool {
        forall|k: u64|
            #![trigger self.records@[k]]
            self.records@.contains_key(k) ==> self.records@[k].storage.wf() && k < self.next_id
    }

    /// `self` and `other` agree on every buffer but `buffer`.
    pub open spec fn same_but(&self, other: &Self, buffer: Entity) -> bool {
        forall|b: Entity|
            b != buffer ==> {
                &&& #[trigger] self.has_buffer(b) == other.has_buffer(b)
                &&& self.storage_of(b) == other.storage_of(b)
                &&& self.gate_of(b) == other.gate_of(b)
            }
    }

    /// A world without buffers.
    pub fn new() -> (r: Self)
        ensures
            r.wf(),
            r.has_room(),
            r.pending() == Seq::<BufferUpdate>::empty(),
            forall|b: Entity| !#[trigger] r.has_buffer(b),
    {
        BufferWorld { records: HashMap::new(), updates: Vec::new(), next_id: 0 }
    }

    /// Whether a fresh buffer identifier is left.
    pub closed spec fn has_room(&self) -> bool {
        self.next_id < u64::MAX
    }

    /// Whether some buffer can still be created: identifiers are never reused.
    pub fn can_create(&self) -> (r: bool)
        ensures
            r == self.has_room(),
    {
        self.next_id < u64::MAX
    }

    /// Create a buffer of `scope` with `settings`: every session empty and
    /// open.
    pub fn create_buffer(&mut self, scope: Entity, settings: BufferSettings) -> (r: Buffer<T>)
        requires
            old(self).wf(),
            old(self).has_room(),
        ensures
            final(self).wf(),
            r.spec_location().scope == scope,
            !old(self).has_buffer(r.spec_location().source),
            final(self).has_buffer(r.spec_location().source),
            final(self).storage_of(r.spec_location().source).spec_settings() == settings,
            forall|s: Entity|
                #[trigger] final(self).storage_of(r.spec_location().source).items(s)
                    == Seq::<T>::empty(),
            forall|s: Entity|
                #[trigger] final(self).gate_of(r.spec_location().source).gate(s)
                    == crate::gate::Gate::Open,
            final(self).same_but(old(self), r.spec_location().source),
            final(self).pending() == old(self).pending(),
    {
        let source = Entity::from_bits(self.next_id);
        let record = BufferRecord { storage: BufferStorage::new(settings), gate: GateState::new() };
        self.records.insert(source.bits, record);
        self.next_id = self.next_id + 1;
        Buffer::new(BufferLocation { scope, source })
    }

    /// Remove `buffer`; keys to it no longer resolve.
    pub fn despawn_buffer(&mut self, buffer: Entity)
        requires
            old(self).wf(),
        ensures
            final(self).wf(),
            !final(self).has_buffer(buffer),
            final(self).same_but(old(self), buffer),
            final(self).pending() == old(self).pending(),
    {
        self.records.remove(&buffer.bits);
    }

    /// Release what `session` holds in `buffer`: its items and its Open/Closed flag.
    pub fn clear_session(&mut self, buffer: Entity, session: Entity)
        requires
            old(self).wf(),
        ensures
            final(self).wf(),
            final(self).has_buffer(buffer) == old(self).has_buffer(buffer),
            old(self).has_buffer(buffer) ==> {
                &&& final(self).storage_of(buffer).same_elsewhere(
                    &old(self).storage_of(buffer),
                    session,
                )
                &&& final(self).storage_of(buffer).items(session) == Seq::<T>::empty()
                &&& final(self).gate_of(buffer).gate(session) == crate::gate::Gate::Open
                &&& forall|o: Entity|
                    o != session ==> #[trigger] final(self).gate_of(buffer).gate(o) == old(
                        self,
                    ).gate_of(buffer).gate(o)
            },
            final(self).same_but(old(self), buffer),
            final(self).pending() == old(self).pending(),
    {
        if self.records.contains_key(&buffer.bits) {
            let record = self.records.entry(buffer.bits).or_insert(
                BufferRecord { storage: BufferStorage::new(BufferSettings::default()), gate: GateState::new() },
            );
            record.storage.clear_session(session);
            record.gate.clear_session(session);
        }
    }

    /// Hand the pending update events to the scheduler, oldest first.
    pub fn take_updates(&mut self) -> (r: Vec<BufferUpdate>)
        ensures
            r@ == old(self).pending(),
            final(self).pending() == Seq::<BufferUpdate>::empty(),
            forall|b: Entity|
                {
                    &&& #[trigger] final(self).has_buffer(b) == old(self).has_buffer(b)
                    &&& final(self).storage_of(b) == old(self).storage_of(b)
                    &&& final(self).gate_of(b) == old(self).gate_of(b)
                },
            final(self).wf() == old(self).wf(),
    {
        let mut out: Vec<BufferUpdate> = Vec::new();
        std::mem::swap(&mut out, &mut self.updates);
        assert(self.records@ == old(self).records@ && self.next_id == old(self).next_id);
        out
    }
    /// Read access to the buffer and session of `key`.
    pub fn buffer_view(&self, key: &BufferKey<T>) -> (r: Result<BufferView<'_, T>, BufferError>)
        ensures
            match r {
                Ok(v) => {
                    &&& self.has_buffer(key.spec_tag().buffer)
                    &&& v.spec_storage() == self.storage_of(key.spec_tag().buffer)
                    &&& v.spec_session() == key.spec_tag().session
                },
                Err(e) => e == BufferError::BufferMissing && !self.has_buffer(
                    key.spec_tag().buffer,
                ),
            },
    {
        match self.records.get(&key.buffer().bits) {
            Some(record) => Ok(BufferView::new(&record.storage, key.session())),
            None => Err(BufferError::BufferMissing),
        }
    }

    /// Write access to the buffer and session of `key`. The guard spares the
    /// listener that made the key, starts unmodified, and queues its event
    /// into this world's pending updates.
    pub fn buffer_mut(&mut self, key: &BufferKey<T>) -> (r: Result<BufferMut<'_, T>, BufferError>)
        requires
            old(self).wf(),
        ensures
            match r {
                Ok(g) => {
                    &&& old(self).has_buffer(key.spec_tag().buffer)
                    &&& g.inv()
                    &&& *g.storage == old(self).storage_of(key.spec_tag().buffer)
                    &&& g.updates@ == old(self).pending()
                    &&& g.spec_buffer() == key.spec_tag().buffer
                    &&& g.spec_session() == key.spec_tag().session
                    &&& g.spec_accessor() == Some(key.spec_tag().accessor)
                    &&& !g.spec_modified()
                    &&& final(self).has_buffer(key.spec_tag().buffer)
                    &&& final(self).storage_of(key.spec_tag().buffer) == *final(g.storage)
                    &&& final(self).gate_of(key.spec_tag().buffer) == old(self).gate_of(
                        key.spec_tag().buffer,
                    )
                    &&& final(self).pending() == (*final(g.updates))@
                    &&& (*final(g.storage)).wf() ==> final(self).wf()
                },
                Err(e) => {
                    &&& e == BufferError::BufferMissing
                    &&& !old(self).has_buffer(key.spec_tag().buffer)
                    &&& !final(self).has_buffer(key.spec_tag().buffer)
                    &&& final(self).pending() == old(self).pending()
                    &&& final(self).wf()
                },
            },
            final(self).same_but(old(self), key.spec_tag().buffer),
    {
        let buffer = key.buffer();
        if !self.records.contains_key(&buffer.bits) {
            return Err(BufferError::BufferMissing);
        }
        let record = self.records.entry(buffer.bits).or_insert(
            BufferRecord { storage: BufferStorage::new(BufferSettings::default()), gate: GateState::new() },
        );
        Ok(BufferMut::new(&mut record.storage, &mut self.updates, buffer, key.session(), key.tag().accessor))
    }

    /// Run `f` on a guard for the buffer and session of `key`, then release
    /// the guard, which queues its update event if `f` modified anything.
    /// `f` is expected to work on the guard through its methods only. When
    /// the key does not resolve, `f` is not called and nothing changes.
    pub fn buffer_mut_with<U, F: FnOnce(&mut BufferMut<'_, T>) -> U>(
        &mut self,
        key: &BufferKey<T>,
        f: F,
    ) -> (r: Result<U, BufferError>)
        requires
            old(self).wf(),
            forall|g: &mut BufferMut<'_, T>| g.inv() ==> f.requires((g,)),
            forall|g: &mut BufferMut<'_, T>, u: U|
                #[trigger] f.ensures((g,), u) ==> {
                    &&& (*final(g)).worked_from(&*g)
                    &&& *final((*final(g)).storage) == *final((*g).storage)
                    &&& *final((*final(g)).updates) == *final((*g).updates)
                },
        ensures
            r.is_err() <==> !old(self).has_buffer(key.spec_tag().buffer),
            match r {
                Ok(_) => {
                    let b = key.spec_tag().buffer;
                    let s = key.spec_tag().session;
                    let event = BufferUpdate {
                        buffer: b,
                        session: s,
                        excluded_accessor: Some(key.spec_tag().accessor),
                    };
                    let open_event = BufferUpdate { buffer: b, session: s, excluded_accessor: None };
                    &&& final(self).has_buffer(b)
                    &&& final(self).same_but(old(self), b)
                    &&& final(self).gate_of(b) == old(self).gate_of(b)
                    &&& final(self).storage_of(b).same_elsewhere(&old(self).storage_of(b), s)
                    &&& final(self).wf()
                    &&& (final(self).pending() == old(self).pending()
                        || final(self).pending() == old(self).pending().push(event)
                        || final(self).pending() == old(self).pending().push(open_event))
                    &&& final(self).storage_of(b) != old(self).storage_of(b)
                        ==> final(self).pending().len() == old(self).pending().len() + 1
                },
                Err(e) => e == BufferError::BufferMissing && *final(self) == *old(self),
            },
    {
        let buffer = key.buffer();
        if !self.records.contains_key(&buffer.bits) {
            return Err(BufferError::BufferMissing);
        }
        let record = self.records.entry(buffer.bits).or_insert(
            BufferRecord { storage: BufferStorage::new(BufferSettings::default()), gate: GateState::new() },
        );
        let mut guard = BufferMut::new(&mut record.storage, &mut self.updates, buffer, key.session(), key.tag().accessor);
        assert(old(self).records@[buffer.bits].storage.wf());
        assert(guard.inv());
        let u = f(&mut guard);
        guard.release();
        Ok(u)
    }

    /// Run `f` on the Open/Closed flag of the buffer and session of `key`.
    /// `f` is expected to work on the guard through its methods only. When
    /// the key does not resolve, `f` is not called and nothing changes.
    pub fn buffer_gate_mut_with<U, F: FnOnce(&mut BufferGateMut<'_>) -> U>(
        &mut self,
        key: &AnyBufferKey,
        f: F,
    ) -> (r: Result<U, BufferError>)
        requires
            forall|g: &mut BufferGateMut<'_>| f.requires((g,)),
            forall|g: &mut BufferGateMut<'_>, u: U|
                #[trigger] f.ensures((g,), u) ==> {
                    &&& (*final(g)).worked_from(&*g)
                    &&& *final((*final(g)).gate) == *final((*g).gate)
                },
        ensures
            r.is_err() <==> !old(self).has_buffer(key.tag.buffer),
            match r {
                Ok(_) => {
                    let b = key.tag.buffer;
                    &&& final(self).has_buffer(b)
                    &&& final(self).same_but(old(self), b)
                    &&& final(self).storage_of(b) == old(self).storage_of(b)
                    &&& forall|o: Entity|
                        o != key.tag.session ==> #[trigger] final(self).gate_of(b).gate(o) == old(
                            self,
                        ).gate_of(b).gate(o)
                    &&& final(self).pending() == old(self).pending()
                    &&& old(self).wf() ==> final(self).wf()
                },
                Err(e) => e == BufferError::BufferMissing && *final(self) == *old(self),
            },
    {
        let buffer = key.tag.buffer;
        if !self.records.contains_key(&buffer.bits) {
            return Err(BufferError::BufferMissing);
        }
        let record = self.records.entry(buffer.bits).or_insert(
            BufferRecord { storage: BufferStorage::new(BufferSettings::default()), gate: GateState::new() },
        );
        let mut gate = BufferGateMut { gate: &mut record.gate, session: key.tag.session };
        Ok(f(&mut gate))
    }

    /// Read access to the Open/Closed flag of the buffer and session of `key`.
    pub fn buffer_gate_view(&self, key: &AnyBufferKey) -> (r: Result<BufferGateView<'_>, BufferError>)
        ensures
            match r {
                Ok(v) => {
                    &&& self.has_buffer(key.tag.buffer)
                    &&& v.spec_state() == self.gate_of(key.tag.buffer)
                    &&& v.spec_session() == key.tag.session
                },
                Err(e) => e == BufferError::BufferMissing && !self.has_buffer(key.tag.buffer),
            },
    {
        match self.records.get(&key.tag.buffer.bits) {
            Some(record) => Ok(BufferGateView::new(&record.gate, key.tag.session)),
            None => Err(BufferError::BufferMissing),
        }
    }

    /// Write access to the Open/Closed flag of the buffer and session of `key`.
    pub fn buffer_gate_mut(&mut self, key: &AnyBufferKey) -> (r: Result<BufferGateMut<'_>, BufferError>)
        requires
            old(self).wf(),
        ensures
            final(self).wf(),
            final(self).pending() == old(self).pending(),
            final(self).same_but(old(self), key.tag.buffer),
            match r {
                Ok(g) => {
                    &&& old(self).has_buffer(key.tag.buffer)
                    &&& g.state() == old(self).gate_of(key.tag.buffer)
                    &&& g.session == key.tag.session
                    &&& final(self).has_buffer(key.tag.buffer)
                    &&& final(self).gate_of(key.tag.buffer) == *final(g.gate)
                    &&& final(self).storage_of(key.tag.buffer) == old(self).storage_of(
                        key.tag.buffer,
                    )
                },
                Err(e) => {
                    &&& e == BufferError::BufferMissing
                    &&& !old(self).has_buffer(key.tag.buffer)
                    &&& !final(self).has_buffer(key.tag.buffer)
                },
            },
    {
        let buffer = key.tag.buffer;
        if !self.records.contains_key(&buffer.bits) {
            return Err(BufferError::BufferMissing);
        }
        let record = self.records.entry(buffer.bits).or_insert(
            BufferRecord { storage: BufferStorage::new(BufferSettings::default()), gate: GateState::new() },
        );
        Ok(BufferGateMut { gate: &mut record.gate, session: key.tag.session })
    }
}

/// Read access to the buffers of a world through keys.
pub struct BufferAccess<'w, T> {
    pub world: &'w BufferWorld<T>,
}

impl<'w, T> BufferAccess<'w, T> {
    /// Read access to the buffer and session of `key`.
    pub fn get(&self, key: &BufferKey<T>) -> (r: Result<BufferView<'w, T>, BufferError>)
        ensures
            match r {
                Ok(v) => {
                    &&& self.world.has_buffer(key.spec_tag().buffer)
                    &&& v.spec_storage() == self.world.storage_of(key.spec_tag().buffer)
                    &&& v.spec_session() == key.spec_tag().session
                },
                Err(e) => e == BufferError::BufferMissing && !self.world.has_buffer(
                    key.spec_tag().buffer,
                ),
            },
    {
        self.world.buffer_view(key)
    }

    /// The newest item of the buffer and session of `key`; `None` if there
    /// is none or the key does not resolve.
    pub fn get_newest(&self, key: &BufferKey<T>) -> (r: Option<&'w T>)
        ensures
            r == newest_of(self.world, key),
    {
        match self.get(key) {
            Ok(view) => view.newest(),
            Err(_) => None,
        }
    }
}

/// The newest item that `key` reads in `world`, if any.
pub open spec fn newest_of<'a, T>(world: &'a BufferWorld<T>, key: &BufferKey<T>) -> Option<&'a T> {
    let items = world.storage_of(key.spec_tag().buffer).items(key.spec_tag().session);
    if world.has_buffer(key.spec_tag().buffer) && items.len() > 0 {
        Some(&items.last())
    } else {
        None
    }
}

/// Read and write access to the buffers of a world through keys.
pub struct BufferAccessMut<'w, T> {
    pub world: &'w mut BufferWorld<T>,
}

impl<'w, T> BufferAccessMut<'w, T> {
    /// The world as this access currently sees it.
    pub open spec fn world_now(&self) -> BufferWorld<T> {
        *self.world
    }

    /// Read access to the buffer and session of `key`.
    pub fn get(&self, key: &BufferKey<T>) -> (r: Result<BufferView<'_, T>, BufferError>)
        ensures
            match r {
                Ok(v) => {
                    &&& self.world_now().has_buffer(key.spec_tag().buffer)
                    &&& v.spec_storage() == self.world_now().storage_of(key.spec_tag().buffer)
                    &&& v.spec_session() == key.spec_tag().session
                },
                Err(e) => e == BufferError::BufferMissing && !self.world_now().has_buffer(
                    key.spec_tag().buffer,
                ),
            },
    {
        self.world.buffer_view(key)
    }

    /// The newest item of the buffer and session of `key`; `None` if there
    /// is none or the key does not resolve.
    pub fn get_newest(&self, key: &BufferKey<T>) -> (r: Option<&T>)
        ensures
            r == newest_of(&self.world_now(), key),
    {
        match self.get(key) {
            Ok(view) => view.newest(),
            Err(_) => None,
        }
    }

    /// Write access to the buffer and session of `key` (see
    /// [`BufferWorld::buffer_mut`]).
    pub fn get_mut(&mut self, key: &BufferKey<T>) -> (r: Result<BufferMut<'_, T>, BufferError>)
        requires
            (*old(self).world).wf(),
        ensures
            match r {
                Ok(g) => {
                    &&& (*old(self).world).has_buffer(key.spec_tag().buffer)
                    &&& g.inv()
                    &&& *g.storage == (*old(self).world).storage_of(key.spec_tag().buffer)
                    &&& g.updates@ == (*old(self).world).pending()
                    &&& g.spec_buffer() == key.spec_tag().buffer
                    &&& g.spec_session() == key.spec_tag().session
                    &&& g.spec_accessor() == Some(key.spec_tag().accessor)
                    &&& !g.spec_modified()
                    &&& (*final(self).world).has_buffer(key.spec_tag().buffer)
                    &&& (*final(self).world).storage_of(key.spec_tag().buffer) == *final(g.storage)
                    &&& (*final(self).world).gate_of(key.spec_tag().buffer) == (*old(self).world).gate_of(
                        key.spec_tag().buffer,
                    )
                    &&& (*final(self).world).pending() == (*final(g.updates))@
                    &&& (*final(g.storage)).wf() ==> (*final(self).world).wf()
                },
                Err(e) => {
                    &&& e == BufferError::BufferMissing
                    &&& !(*old(self).world).has_buffer(key.spec_tag().buffer)
                    &&& !(*final(self).world).has_buffer(key.spec_tag().buffer)
                    &&& (*final(self).world).pending() == (*old(self).world).pending()
                    &&& (*final(self).world).wf()
                },
            },
            (*final(self).world).same_but(&*old(self).world, key.spec_tag().buffer),
            *final(final(self).world) == *final(old(self).world),
    {
        self.world.buffer_mut(key)
    }
}

/// Read access to the Open/Closed flags of a world's buffers through
/// type-erased keys.
pub struct BufferGateAccess<'w, T> {
    pub world: &'w BufferWorld<T>,
}

impl<'w, T> BufferGateAccess<'w, T> {
    /// Read access to the flag of the buffer and session of `key`.
    pub fn get(&self, key: &AnyBufferKey) -> (r: Result<BufferGateView<'w>, BufferError>)
        ensures
            match r {
                Ok(v) => {
                    &&& self.world.has_buffer(key.tag.buffer)
                    &&& v.spec_state() == self.world.gate_of(key.tag.buffer)
                    &&& v.spec_session() == key.tag.session
                },
                Err(e) => e == BufferError::BufferMissing && !self.world.has_buffer(key.tag.buffer),
            },
    {
        self.world.buffer_gate_view(key)
    }
}

/// Write access to the Open/Closed flags of a world's buffers through
/// type-erased keys.
pub struct BufferGateAccessMut<'w, T> {
    pub world: &'w mut BufferWorld<T>,
}

impl<'w, T> BufferGateAccessMut<'w, T> {
    /// Write access to the flag of the buffer and session of `key`.
    pub fn get_mut(&mut self, key: &AnyBufferKey) -> (r: Result<BufferGateMut<'_>, BufferError>)
        requires
            (*old(self).world).wf(),
        ensures
            (*final(self).world).wf(),
            (*final(self).world).pending() == (*old(self).world).pending(),
            (*final(self).world).same_but(&*old(self).world, key.tag.buffer),
            match r {
                Ok(g) => {
                    &&& (*old(self).world).has_buffer(key.tag.buffer)
                    &&& g.state() == (*old(self).world).gate_of(key.tag.buffer)
                    &&& g.session == key.tag.session
                    &&& (*final(self).world).has_buffer(key.tag.buffer)
                    &&& (*final(self).world).gate_of(key.tag.buffer) == *final(g.gate)
                    &&& (*final(self).world).storage_of(key.tag.buffer)
                        == (*old(self).world).storage_of(key.tag.buffer)
                },
                Err(e) => {
                    &&& e == BufferError::BufferMissing
                    &&& !(*old(self).world).has_buffer(key.tag.buffer)
                    &&& !(*final(self).world).has_buffer(key.tag.buffer)
                },
            },
            *final(final(self).world) == *final(old(self).world),
    {
        self.world.buffer_gate_mut(key)
    }
}

} // verus!
