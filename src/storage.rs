use std::collections::HashMap;
use vstd::prelude::*;

use crate::buffer::Entity;
use crate::settings::{BufferSettings, RetentionPolicy};

verus! {

broadcast use vstd::std_specs::hash::group_hash_axioms;

/// Contents and returned value after inserting `v` as the newest item of `q`.
pub open spec fn pushed<T>(policy: RetentionPolicy, q: Seq<T>, v: T) -> (Seq<T>, Option<T>) {
    match policy {
        RetentionPolicy::KeepAll => (q.push(v), None),
        RetentionPolicy::KeepLast(n) => {
            let p = q.push(v);
            if p.len() > n {
                (p.drop_first(), Some(p[0]))
            } else {
                (p, None)
            }
        },
        RetentionPolicy::KeepFirst(n) => {
            if q.len() < n {
                (q.push(v), None)
            } else {
                (q, Some(v))
            }
        },
    }
}

/// Contents and returned value after inserting `v` as the oldest item of `q`.
///
/// This mirrors [`pushed`]: once the limit is reached, `KeepLast` drops the
/// incoming value (it would be the oldest item), while `KeepFirst` evicts the
/// newest stored item to make room for it. Either way eviction happens at the
/// newest end and the length never exceeds the limit.
pub open spec fn pushed_as_oldest<T>(policy: RetentionPolicy, q: Seq<T>, v: T) -> (
    Seq<T>,
    Option<T>,
) {
    let p = seq![v] + q;
    match policy {
        RetentionPolicy::KeepAll => (p, None),
        RetentionPolicy::KeepLast(n) => {
            if q.len() < n {
                (p, None)
            } else {
                (q, Some(v))
            }
        },
        RetentionPolicy::KeepFirst(n) => {
            if p.len() > n {
                (p.drop_last(), Some(p.last()))
            } else {
                (p, None)
            }
        },
    }
}

/// Per-buffer storage: for each session, an ordered sequence of items
/// (index 0 is the oldest) kept under the buffer's retention policy.
pub struct BufferStorage<T> {
    settings: BufferSettings,
    sessions: HashMap<u64, Vec<T>>,
}

impl<T> BufferStorage<T> {
    /// The items stored for `session`, oldest first; empty if it never wrote.
    pub closed spec fn items(&self, session: Entity) -> Seq<T> {
        if self.sessions@.contains_key(session.bits) {
            self.sessions@[session.bits]@
        } else {
            Seq::empty()
        }
    }

    /// The settings the storage was created with.
    pub closed spec fn spec_settings(&self) -> BufferSettings {
        self.settings
    }

    /// Every session respects the retention policy.
    pub closed spec fn wf(&self) -> bool {
        forall|k: u64|
            #![trigger self.sessions@[k]]
            self.sessions@.contains_key(k) ==> self.settings.policy().admits(
                self.sessions@[k]@.len(),
            )
    }

    /// The policy in force, for use in contracts.
    pub open spec fn policy(&self) -> RetentionPolicy {
        self.spec_settings().policy()
    }

    /// `self` agrees with `other` on the settings and on every session but
    /// `session`.
    pub open spec fn same_elsewhere(&self, other: &Self, session: Entity) -> bool {
        &&& self.spec_settings() == other.spec_settings()
        &&& forall|o: Entity| o != session ==> #[trigger] self.items(o) == other.items(o)
    }

    /// Create empty storage with the given settings.
    pub fn new(settings: BufferSettings) -> (r: Self)
        ensures
            r.wf(),
            r.spec_settings() == settings,
            forall|s: Entity| #[trigger] r.items(s) == Seq::<T>::empty(),
    {
        BufferStorage { settings, sessions: HashMap::new() }
    }

    /// The settings of this storage.
    pub fn settings(&self) -> (r: BufferSettings)
        ensures
            r == self.spec_settings(),
    {
        self.settings
    }

    /// How many items `session` holds.
    pub fn count(&self, session: Entity) -> (r: usize)
        ensures
            r == self.items(session).len(),
    {
        match self.sessions.get(&session.bits) {
            Some(q) => q.len(),
            None => 0,
        }
    }

    /// Insert `value` as the newest item of `session`; returns the item that
    /// the retention policy pushed out, if any.
    pub fn push(&mut self, session: Entity, value: T) -> (r: Option<T>)
        requires
            old(self).wf(),
        ensures
            final(self).wf(),
            final(self).same_elsewhere(old(self), session),
            (final(self).items(session), r) == pushed(
                old(self).policy(),
                old(self).items(session),
                value,
            ),
    {
        let policy = self.settings.retention();
        let q = self.sessions.entry(session.bits).or_insert(Vec::new());
        match policy {
            RetentionPolicy::KeepAll => {
                q.push(value);
                None
            },
            RetentionPolicy::KeepLast(n) => {
                q.push(value);
                if q.len() > n {
                    Some(q.remove(0))
                } else {
                    None
                }
            },
            RetentionPolicy::KeepFirst(n) => {
                if q.len() < n {
                    q.push(value);
                    None
                } else {
                    Some(value)
                }
            },
        }
    }

    /// Insert `value` as the oldest item of `session`; returns the item that
    /// the retention policy left out, if any (see [`pushed_as_oldest`]).
    pub fn push_as_oldest(&mut self, session: Entity, value: T) -> (r: Option<T>)
        requires
            old(self).wf(),
        ensures
            final(self).wf(),
            final(self).same_elsewhere(old(self), session),
            (final(self).items(session), r) == pushed_as_oldest(
                old(self).policy(),
                old(self).items(session),
                value,
            ),
    {
        let policy = self.settings.retention();
        let q = self.sessions.entry(session.bits).or_insert(Vec::new());
        let ghost q0 = q@;
        match policy {
            RetentionPolicy::KeepAll => {
                q.insert(0, value);
                assert(q@ =~= seq![value] + q0);
                None
            },
            RetentionPolicy::KeepLast(n) => {
                if q.len() < n {
                    q.insert(0, value);
                    assert(q@ =~= seq![value] + q0);
                    None
                } else {
                    Some(value)
                }
            },
            RetentionPolicy::KeepFirst(n) => {
                q.insert(0, value);
                assert(q@ =~= seq![value] + q0);
                if q.len() > n {
                    q.pop()
                } else {
                    None
                }
            },
        }
    }

    /// Remove and return the oldest item of `session`.
    pub fn pull(&mut self, session: Entity) -> (r: Option<T>)
        requires
            old(self).wf(),
        ensures
            final(self).wf(),
            final(self).same_elsewhere(old(self), session),
            old(self).items(session).len() == 0 ==> r.is_none() && final(self).items(session)
                == old(self).items(session),
            old(self).items(session).len() > 0 ==> r == Some(old(self).items(session)[0])
                && final(self).items(session) == old(self).items(session).drop_first(),
    {
        let q = self.sessions.entry(session.bits).or_insert(Vec::new());
        if q.len() == 0 {
            None
        } else {
            Some(q.remove(0))
        }
    }

    /// Remove and return the newest item of `session`.
    pub fn pull_newest(&mut self, session: Entity) -> (r: Option<T>)
        requires
            old(self).wf(),
        ensures
            final(self).wf(),
            final(self).same_elsewhere(old(self), session),
            old(self).items(session).len() == 0 ==> r.is_none() && final(self).items(session)
                == old(self).items(session),
            old(self).items(session).len() > 0 ==> r == Some(old(self).items(session).last())
                && final(self).items(session) == old(self).items(session).drop_last(),
    {
        let q = self.sessions.entry(session.bits).or_insert(Vec::new());
        q.pop()
    }

    /// Borrow the item of `session` at `index` (0 is the oldest).
    pub fn get(&self, session: Entity, index: usize) -> (r: Option<&T>)
        ensures
            index < self.items(session).len() ==> r == Some(&self.items(session)[index as int]),
            index >= self.items(session).len() ==> r.is_none(),
    {
        match self.sessions.get(&session.bits) {
            Some(q) => {
                if index < q.len() {
                    Some(&q[index])
                } else {
                    None
                }
            },
            None => None,
        }
    }

    /// Borrow the oldest item of `session`.
    pub fn oldest(&self, session: Entity) -> (r: Option<&T>)
        ensures
            self.items(session).len() > 0 ==> r == Some(&self.items(session)[0]),
            self.items(session).len() == 0 ==> r.is_none(),
    {
        self.get(session, 0)
    }

    /// Borrow the newest item of `session`.
    pub fn newest(&self, session: Entity) -> (r: Option<&T>)
        ensures
            self.items(session).len() > 0 ==> r == Some(&self.items(session).last()),
            self.items(session).len() == 0 ==> r.is_none(),
    {
        let n = self.count(session);
        if n == 0 {
            None
        } else {
            self.get(session, n - 1)
        }
    }

    /// All items of `session`, oldest first.
    pub fn iter(&self, session: Entity) -> (r: &[T])
        ensures
            r@ == self.items(session),
    {
        match self.sessions.get(&session.bits) {
            Some(q) => q.as_slice(),
            None => &[],
        }
    }

    /// Mutably borrow the item of `session` at `index` (0 is the oldest).
    pub fn get_mut(&mut self, session: Entity, index: usize) -> (r: Option<&mut T>)
        requires
            old(self).wf(),
        ensures
            final(self).wf(),
            final(self).same_elsewhere(old(self), session),
            match r {
                Some(x) => {
                    &&& index < old(self).items(session).len()
                    &&& *x == old(self).items(session)[index as int]
                    &&& final(self).items(session) == old(self).items(session).update(
                        index as int,
                        *final(x),
                    )
                },
                None => index >= old(self).items(session).len() && final(self).items(session)
                    == old(self).items(session),
            },
    {
        let q = self.sessions.entry(session.bits).or_insert(Vec::new());
        if index < q.len() {
            Some(&mut q[index])
        } else {
            None
        }
    }

    /// Mutably borrow the oldest item of `session`.
    pub fn oldest_mut(&mut self, session: Entity) -> (r: Option<&mut T>)
        requires
            old(self).wf(),
        ensures
            final(self).wf(),
            final(self).same_elsewhere(old(self), session),
            match r {
                Some(x) => {
                    &&& old(self).items(session).len() > 0
                    &&& *x == old(self).items(session)[0]
                    &&& final(self).items(session) == old(self).items(session).update(
                        0,
                        *final(x),
                    )
                },
                None => old(self).items(session).len() == 0 && final(self).items(session)
                    == old(self).items(session),
            },
    {
        self.get_mut(session, 0)
    }

    /// Mutably borrow the newest item of `session`.
    pub fn newest_mut(&mut self, session: Entity) -> (r: Option<&mut T>)
        requires
            old(self).wf(),
        ensures
            final(self).wf(),
            final(self).same_elsewhere(old(self), session),
            match r {
                Some(x) => {
                    &&& old(self).items(session).len() > 0
                    &&& *x == old(self).items(session).last()
                    &&& final(self).items(session) == old(self).items(session).update(
                        old(self).items(session).len() - 1,
                        *final(x),
                    )
                },
                None => old(self).items(session).len() == 0 && final(self).items(session)
                    == old(self).items(session),
            },
    {
        let q = self.sessions.entry(session.bits).or_insert(Vec::new());
        let n = q.len();
        if n == 0 {
            None
        } else {
            Some(&mut q[n - 1])
        }
    }

    /// Mutably borrow the newest item of `session`, first inserting one made
    /// by `f` if the session is empty. Gives `None` only when the session is
    /// empty and the policy can never retain an item; `f` is then not called.
    pub fn newest_mut_or_else<F: FnOnce() -> T>(&mut self, session: Entity, f: F) -> (r: Option<
        &mut T,
    >)
        requires
            old(self).wf(),
            f.requires(()),
        ensures
            final(self).wf(),
            final(self).same_elsewhere(old(self), session),
            r.is_none() <==> (old(self).items(session).len() == 0
                && old(self).policy().retains_nothing()),
            r.is_none() ==> final(self).items(session) == old(self).items(session),
            match r {
                Some(x) => {
                    &&& old(self).items(session).len() > 0 ==> *x == old(self).items(
                        session,
                    ).last() && final(self).items(session) == old(self).items(session).update(
                        old(self).items(session).len() - 1,
                        *final(x),
                    )
                    &&& old(self).items(session).len() == 0 ==> f.ensures((), *x)
                        && final(self).items(session) == seq![*final(x)]
                },
                None => true,
            },
    {
        let policy = self.settings.retention();
        let q = self.sessions.entry(session.bits).or_insert(Vec::new());
        if q.len() == 0 {
            if policy.has_zero_capacity() {
                return None;
            }
            let v = f();
            q.push(v);
        }
        let n = q.len();
        Some(&mut q[n - 1])
    }

    /// Mutable borrows of all items of `session`, oldest first.
    pub fn iter_mut(&mut self, session: Entity) -> (r: Vec<&mut T>)
        requires
            old(self).wf(),
        ensures
            final(self).wf(),
            final(self).same_elsewhere(old(self), session),
            r@.len() == old(self).items(session).len(),
            forall|i: int| 0 <= i < r@.len() ==> *#[trigger] r@[i] == old(self).items(session)[i],
            final(self).items(session) == Seq::new(r@.len(), |i: int| *final(r@[i])),
    {
        let q = self.sessions.entry(session.bits).or_insert(Vec::new());
        let ghost q0 = q@;
        let all: &mut [T] = q.as_mut_slice();
        let ghost all_final = (*final(all))@;
        let mut rest: &mut [T] = all;
        let mut out: Vec<&mut T> = Vec::new();
        while rest.len() > 0
            invariant
                out@.len() + rest@.len() == q0.len(),
                forall|i: int| 0 <= i < out@.len() ==> *#[trigger] out@[i] == q0[i],
                rest@ == q0.subrange(out@.len() as int, q0.len() as int),
                all_final == Seq::new(out@.len(), |i: int| *final(out@[i])) + (*final(rest))@,
            decreases rest@.len(),
        {
            let (head, tail) = rest.split_at_mut(1);
            let x = head.first_mut().unwrap();
            out.push(x);
            rest = tail;
        }
        let _ = rest.first_mut();
        out
    }

    /// Remove and return, oldest first, the items of `session` whose index
    /// lies in `range`.
    pub fn drain(&mut self, session: Entity, range: std::ops::Range<usize>) -> (r: Vec<T>)
        requires
            old(self).wf(),
            range.start <= range.end <= old(self).items(session).len(),
        ensures
            final(self).wf(),
            final(self).same_elsewhere(old(self), session),
            r@ == old(self).items(session).subrange(range.start as int, range.end as int),
            final(self).items(session) == old(self).items(session).subrange(0, range.start as int)
                + old(self).items(session).subrange(
                range.end as int,
                old(self).items(session).len() as int,
            ),
    {
        let start = range.start;
        let end = range.end;
        let q = self.sessions.entry(session.bits).or_insert(Vec::new());
        let ghost q0 = q@;
        let mut out: Vec<T> = Vec::new();
        let mut i: usize = start;
        while i < end
            invariant
                start <= i <= end <= q0.len(),
                out@ == q0.subrange(start as int, i as int),
                q@ == q0.subrange(0, start as int) + q0.subrange(i as int, q0.len() as int),
            decreases end - i,
        {
            let v = q.remove(start);
            assert(v == q0[i as int]);
            out.push(v);
            i = i + 1;
            assert(out@ =~= q0.subrange(start as int, i as int));
            assert(q@ =~= q0.subrange(0, start as int) + q0.subrange(i as int, q0.len() as int));
        }
        out
    }

    /// Forget everything stored for `session`, as if it never wrote.
    pub fn clear_session(&mut self, session: Entity)
        requires
            old(self).wf(),
        ensures
            final(self).wf(),
            final(self).same_elsewhere(old(self), session),
            final(self).items(session) == Seq::<T>::empty(),
    {
        self.sessions.remove(&session.bits);
    }
}

} // verus!
