use vstd::prelude::*;

use crate::buffer::Entity;
use crate::notify::BufferUpdate;
use crate::storage::{pushed, pushed_as_oldest, BufferStorage};

verus! {

/// Read access to one buffer within one session.
pub struct BufferView<'a, T> {
    storage: &'a BufferStorage<T>,
    session: Entity,
}

impl<'a, T> BufferView<'a, T> {
    /// The items this view reads, oldest first.
    pub open spec fn items(&self) -> Seq<T> {
        self.spec_storage().items(self.spec_session())
    }

    /// The storage and session this view reads.
    pub closed spec fn spec_storage(&self) -> BufferStorage<T> {
        *self.storage
    }

    pub closed spec fn spec_session(&self) -> Entity {
        self.session
    }

    pub fn new(storage: &'a BufferStorage<T>, session: Entity) -> (r: Self)
        ensures
            r.spec_storage() == *storage,
            r.spec_session() == session,
            r.items() == storage.items(session),
    {
        BufferView { storage, session }
    }

    /// All items, oldest first.
    pub fn iter(&self) -> (r: &'a [T])
        ensures
            r@ == self.items(),
    {
        self.storage.iter(self.session)
    }

    /// Borrow the oldest item.
    pub fn oldest(&self) -> (r: Option<&'a T>)
        ensures
            self.items().len() > 0 ==> r == Some(&self.items()[0]),
            self.items().len() == 0 ==> r.is_none(),
    {
        self.storage.oldest(self.session)
    }

    /// Borrow the newest item.
    pub fn newest(&self) -> (r: Option<&'a T>)
        ensures
            self.items().len() > 0 ==> r == Some(&self.items().last()),
            self.items().len() == 0 ==> r.is_none(),
    {
        self.storage.newest(self.session)
    }

    /// Borrow the item at `index`; 0 is the oldest.
    pub fn get(&self, index: usize) -> (r: Option<&'a T>)
        ensures
            index < self.items().len() ==> r == Some(&self.items()[index as int]),
            index >= self.items().len() ==> r.is_none(),
    {
        self.storage.get(self.session, index)
    }

    /// How many items there are.
    pub fn len(&self) -> (r: usize)
        ensures
            r == self.items().len(),
    {
        self.storage.count(self.session)
    }

    /// Whether there are no items.
    pub fn is_empty(&self) -> (r: bool)
        ensures
            r == (self.items().len() == 0),
    {
        self.len() == 0
    }
}

/// Write access to one buffer within one session. Every mutating call marks
/// the guard modified; [`BufferMut::release`] then queues exactly one update
/// event, whatever the number of calls, and none if there was no call.
///
/// The fields are open because contracts follow where the borrowed storage
/// and queue end up, which a private field would hide from callers. Change
/// them only through the methods below: they are what keeps the notification
/// promise.
pub struct BufferMut<'a, T> {
    pub storage: &'a mut BufferStorage<T>,
    pub updates: &'a mut Vec<BufferUpdate>,
    pub buffer: Entity,
    pub session: Entity,
    pub accessor: Option<Entity>,
    pub modified: bool,
}

impl<'a, T> BufferMut<'a, T> {
    /// The buffer this guard writes.
    pub open spec fn spec_buffer(&self) -> Entity {
        self.buffer
    }

    /// The session this guard writes.
    pub open spec fn spec_session(&self) -> Entity {
        self.session
    }

    /// The listener spared the event of this guard, if any.
    pub open spec fn spec_accessor(&self) -> Option<Entity> {
        self.accessor
    }

    /// Whether a mutating call (or a pulse) was made through this guard.
    pub open spec fn spec_modified(&self) -> bool {
        self.modified
    }

    /// The items of the guard's session, oldest first.
    pub open spec fn items(&self) -> Seq<T> {
        (*self.storage).items(self.spec_session())
    }

    pub open spec fn inv(&self) -> bool {
        (*self.storage).wf()
    }

    /// `self` is `other` after a call: same identity, same queue, and only
    /// the guard's session may have changed.
    pub open spec fn carries(&self, other: &Self) -> bool {
        &&& self.inv()
        &&& self.spec_buffer() == other.spec_buffer()
        &&& self.spec_session() == other.spec_session()
        &&& *self.updates == *other.updates
        &&& (*self.storage).same_elsewhere(&*other.storage, other.spec_session())
    }

    /// A call that mutates: it also marks the guard and keeps its accessor.
    pub open spec fn mutated(&self, other: &Self) -> bool {
        &&& self.carries(other)
        &&& self.spec_accessor() == other.spec_accessor()
        &&& self.spec_modified()
    }

    /// `self` is `before` after work through the guard's own methods: same
    /// identity and queue, only the guard's session touched, the accessor
    /// kept or cleared, and any change of the storage marks the guard.
    pub open spec fn worked_from(&self, before: &Self) -> bool {
        &&& before.inv() ==> self.inv()
        &&& self.buffer == before.buffer
        &&& self.session == before.session
        &&& *self.updates == *before.updates
        &&& (*self.storage).same_elsewhere(&*before.storage, before.session)
        &&& (self.accessor == before.accessor || self.accessor.is_none())
        &&& (before.modified ==> self.modified)
        &&& (!self.modified ==> *self.storage == *before.storage)
    }

    /// The update event this guard stands to queue.
    pub open spec fn event(&self) -> BufferUpdate {
        BufferUpdate {
            buffer: self.spec_buffer(),
            session: self.spec_session(),
            excluded_accessor: self.spec_accessor(),
        }
    }

    /// Open a guard on `storage` for `session`, sparing `accessor`'s
    /// listener, that will queue its event into `updates`.
    pub fn new(
        storage: &'a mut BufferStorage<T>,
        updates: &'a mut Vec<BufferUpdate>,
        buffer: Entity,
        session: Entity,
        accessor: Entity,
    ) -> (r: Self)
        ensures
            *r.storage == *old(storage),
            *final(r.storage) == *final(storage),
            *r.updates == *old(updates),
            *final(r.updates) == *final(updates),
            r.spec_buffer() == buffer,
            r.spec_session() == session,
            r.spec_accessor() == Some(accessor),
            !r.spec_modified(),
    {
        BufferMut { storage, updates, buffer, session, accessor: Some(accessor), modified: false }
    }

    /// Let the event of this guard wake the listener that made the key too.
    pub fn allow_closed_loops(self) -> (r: Self)
        requires
            self.inv(),
        ensures
            r.carries(&self),
            *final(r.storage) == *final(self.storage),
            *final(r.updates) == *final(self.updates),
            r.items() == self.items(),
            r.spec_accessor().is_none(),
            r.spec_modified() == self.spec_modified(),
    {
        let mut this = self;
        this.accessor = None;
        this
    }

    /// All items, oldest first.
    pub fn iter(&self) -> (r: &[T])
        ensures
            r@ == self.items(),
    {
        self.storage.iter(self.session)
    }

    /// Look at the oldest item.
    pub fn oldest(&self) -> (r: Option<&T>)
        ensures
            self.items().len() > 0 ==> r == Some(&self.items()[0]),
            self.items().len() == 0 ==> r.is_none(),
    {
        self.storage.oldest(self.session)
    }

    /// Look at the newest item.
    pub fn newest(&self) -> (r: Option<&T>)
        ensures
            self.items().len() > 0 ==> r == Some(&self.items().last()),
            self.items().len() == 0 ==> r.is_none(),
    {
        self.storage.newest(self.session)
    }

    /// Borrow the item at `index`; 0 is the oldest.
    pub fn get(&self, index: usize) -> (r: Option<&T>)
        ensures
            index < self.items().len() ==> r == Some(&self.items()[index as int]),
            index >= self.items().len() ==> r.is_none(),
    {
        self.storage.get(self.session, index)
    }

    /// How many items there are.
    pub fn len(&self) -> (r: usize)
        ensures
            r == self.items().len(),
    {
        self.storage.count(self.session)
    }

    /// Whether there are no items.
    pub fn is_empty(&self) -> (r: bool)
        ensures
            r == (self.items().len() == 0),
    {
        self.len() == 0
    }

    /// Push a value as the newest item; returns what the policy pushed out.
    pub fn push(&mut self, value: T) -> (r: Option<T>)
        requires
            old(self).inv(),
        ensures
            final(self).mutated(old(self)),
            *final(final(self).storage) == *final(old(self).storage),
            *final(final(self).updates) == *final(old(self).updates),
            (final(self).items(), r) == pushed((*old(self).storage).policy(), old(self).items(), value),
    {
        self.modified = true;
        self.storage.push(self.session, value)
    }

    /// Push a value as the oldest item; returns what the policy left out.
    pub fn push_as_oldest(&mut self, value: T) -> (r: Option<T>)
        requires
            old(self).inv(),
        ensures
            final(self).mutated(old(self)),
            *final(final(self).storage) == *final(old(self).storage),
            *final(final(self).updates) == *final(old(self).updates),
            (final(self).items(), r) == pushed_as_oldest(
                (*old(self).storage).policy(),
                old(self).items(),
                value,
            ),
    {
        self.modified = true;
        self.storage.push_as_oldest(self.session, value)
    }

    /// Pull the oldest item.
    pub fn pull(&mut self) -> (r: Option<T>)
        requires
            old(self).inv(),
        ensures
            final(self).mutated(old(self)),
            *final(final(self).storage) == *final(old(self).storage),
            *final(final(self).updates) == *final(old(self).updates),
            old(self).items().len() == 0 ==> r.is_none() && final(self).items() == old(self).items(),
            old(self).items().len() > 0 ==> r == Some(old(self).items()[0]) && final(self).items()
                == old(self).items().drop_first(),
    {
        self.modified = true;
        self.storage.pull(self.session)
    }

    /// Pull the newest item instead of the oldest.
    pub fn pull_newest(&mut self) -> (r: Option<T>)
        requires
            old(self).inv(),
        ensures
            final(self).mutated(old(self)),
            *final(final(self).storage) == *final(old(self).storage),
            *final(final(self).updates) == *final(old(self).updates),
            old(self).items().len() == 0 ==> r.is_none() && final(self).items() == old(self).items(),
            old(self).items().len() > 0 ==> r == Some(old(self).items().last()) && final(self).items()
                == old(self).items().drop_last(),
    {
        self.modified = true;
        self.storage.pull_newest(self.session)
    }

    /// Remove and return, oldest first, the items whose index lies in `range`.
    pub fn drain(&mut self, range: std::ops::Range<usize>) -> (r: Vec<T>)
        requires
            old(self).inv(),
            range.start <= range.end <= old(self).items().len(),
        ensures
            final(self).mutated(old(self)),
            *final(final(self).storage) == *final(old(self).storage),
            *final(final(self).updates) == *final(old(self).updates),
            r@ == old(self).items().subrange(range.start as int, range.end as int),
            final(self).items() == old(self).items().subrange(0, range.start as int)
                + old(self).items().subrange(range.end as int, old(self).items().len() as int),
    {
        self.modified = true;
        self.storage.drain(self.session, range)
    }

    /// Wake the listeners on release even though nothing changed.
    pub fn pulse(&mut self)
        requires
            old(self).inv(),
        ensures
            final(self).mutated(old(self)),
            *final(final(self).storage) == *final(old(self).storage),
            *final(final(self).updates) == *final(old(self).updates),
            *final(self).storage == *old(self).storage,
    {
        self.modified = true;
    }

    /// Modify the item at `index`; 0 is the oldest.
    pub fn get_mut(&mut self, index: usize) -> (r: Option<&mut T>)
        requires
            old(self).inv(),
        ensures
            final(self).mutated(old(self)),
            *final(final(self).storage) == *final(old(self).storage),
            *final(final(self).updates) == *final(old(self).updates),
            match r {
                Some(x) => {
                    &&& index < old(self).items().len()
                    &&& *x == old(self).items()[index as int]
                    &&& final(self).items() == old(self).items().update(index as int, *final(x))
                },
                None => index >= old(self).items().len() && final(self).items() == old(
                    self,
                ).items(),
            },
    {
        self.modified = true;
        self.storage.get_mut(self.session, index)
    }

    /// Mutable borrows of all items, oldest first.
    pub fn iter_mut(&mut self) -> (r: Vec<&mut T>)
        requires
            old(self).inv(),
        ensures
            final(self).mutated(old(self)),
            *final(final(self).storage) == *final(old(self).storage),
            *final(final(self).updates) == *final(old(self).updates),
            r@.len() == old(self).items().len(),
            forall|i: int| 0 <= i < r@.len() ==> *#[trigger] r@[i] == old(self).items()[i],
            final(self).items() == Seq::new(r@.len(), |i: int| *final(r@[i])),
    {
        self.modified = true;
        self.storage.iter_mut(self.session)
    }

    /// Modify the oldest item.
    pub fn oldest_mut(&mut self) -> (r: Option<&mut T>)
        requires
            old(self).inv(),
        ensures
            final(self).mutated(old(self)),
            *final(final(self).storage) == *final(old(self).storage),
            *final(final(self).updates) == *final(old(self).updates),
            match r {
                Some(x) => {
                    &&& old(self).items().len() > 0
                    &&& *x == old(self).items()[0]
                    &&& final(self).items() == old(self).items().update(0, *final(x))
                },
                None => old(self).items().len() == 0 && final(self).items() == old(self).items(),
            },
    {
        self.modified = true;
        self.storage.oldest_mut(self.session)
    }

    /// Modify the newest item.
    pub fn newest_mut(&mut self) -> (r: Option<&mut T>)
        requires
            old(self).inv(),
        ensures
            final(self).mutated(old(self)),
            *final(final(self).storage) == *final(old(self).storage),
            *final(final(self).updates) == *final(old(self).updates),
            match r {
                Some(x) => {
                    &&& old(self).items().len() > 0
                    &&& *x == old(self).items().last()
                    &&& final(self).items() == old(self).items().update(
                        old(self).items().len() - 1,
                        *final(x),
                    )
                },
                None => old(self).items().len() == 0 && final(self).items() == old(self).items(),
            },
    {
        self.modified = true;
        self.storage.newest_mut(self.session)
    }

    /// Modify the newest item, first inserting one made by `f` if there is
    /// none. Gives `None` only when the buffer is empty and its policy can
    /// never retain an item.
    pub fn newest_mut_or_else<F: FnOnce() -> T>(&mut self, f: F) -> (r: Option<&mut T>)
        requires
            old(self).inv(),
            f.requires(()),
        ensures
            final(self).mutated(old(self)),
            *final(final(self).storage) == *final(old(self).storage),
            *final(final(self).updates) == *final(old(self).updates),
            r.is_none() <==> (old(self).items().len() == 0
                && (*old(self).storage).policy().retains_nothing()),
            r.is_none() ==> final(self).items() == old(self).items(),
            match r {
                Some(x) => {
                    &&& old(self).items().len() > 0 ==> *x == old(self).items().last()
                        && final(self).items() == old(self).items().update(
                        old(self).items().len() - 1,
                        *final(x),
                    )
                    &&& old(self).items().len() == 0 ==> f.ensures((), *x)
                        && final(self).items() == seq![*final(x)]
                },
                None => true,
            },
    {
        self.modified = true;
        self.storage.newest_mut_or_else(self.session, f)
    }

    /// Modify the newest item, first inserting `T::default()` if there is
    /// none. Gives `None` only when the buffer is empty and its policy can
    /// never retain an item.
    pub fn newest_mut_or_default(&mut self) -> (r: Option<&mut T>) where T: Default
        requires
            old(self).inv(),
        ensures
            final(self).mutated(old(self)),
            *final(final(self).storage) == *final(old(self).storage),
            *final(final(self).updates) == *final(old(self).updates),
            r.is_none() <==> (old(self).items().len() == 0
                && (*old(self).storage).policy().retains_nothing()),
            r.is_none() ==> final(self).items() == old(self).items(),
            match r {
                Some(x) => {
                    &&& old(self).items().len() > 0 ==> *x == old(self).items().last()
                        && final(self).items() == old(self).items().update(
                        old(self).items().len() - 1,
                        *final(x),
                    )
                    &&& old(self).items().len() == 0 ==> final(self).items() == seq![*final(x)]
                },
                None => true,
            },
    {
        self.newest_mut_or_else(|| T::default())
    }

    /// Release the guard: queue its update event if it was modified.
    pub fn release(self)
        ensures
            *final(self.storage) == *old(self.storage),
            (*final(self.updates))@ == if self.spec_modified() {
                (*old(self.updates))@.push(self.event())
            } else {
                (*old(self.updates))@
            },
    {
        if self.modified {
            self.updates.push(
                BufferUpdate {
                    buffer: self.buffer,
                    session: self.session,
                    excluded_accessor: self.accessor,
                },
            );
        }
    }
}

/// Closed-loop suppression: the event of a guard opened through a key spares
/// exactly the listener that minted the key, unless closed loops were
/// allowed on the guard, in which case it spares nobody.
pub proof fn event_spares_only_the_accessor<'a, T>(g: BufferMut<'a, T>, accessor: Entity, other: Entity)
    requires
        other != accessor,
    ensures
        g.spec_accessor() == Some(accessor) ==> !g.event().wakes(accessor) && g.event().wakes(other),
        g.spec_accessor().is_none() ==> g.event().wakes(accessor) && g.event().wakes(other),
{
}

} // verus!
