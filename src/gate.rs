use std::collections::HashMap;
use vstd::prelude::*;

use crate::buffer::Entity;

verus! {

broadcast use vstd::std_specs::hash::group_hash_axioms;

/// Whether a buffer lets its data be forwarded.
#[derive(Clone, Copy, PartialEq, Eq, Structural, Debug)]
pub enum Gate {
    Open,
    Closed,
}

/// The Open/Closed flag of one buffer, for each session. A session that
/// never set it sees it open. The flag is independent of the stored items.
pub struct GateState {
    gates: HashMap<u64, Gate>,
}

impl GateState {
    /// The flag of `session`.
    pub closed spec fn gate(&self, session: Entity) -> Gate {
        if self.gates@.contains_key(session.bits) {
            self.gates@[session.bits]
        } else {
            Gate::Open
        }
    }

    /// Every session open.
    pub fn new() -> (r: Self)
        ensures
            forall|s: Entity| #[trigger] r.gate(s) == Gate::Open,
    {
        GateState { gates: HashMap::new() }
    }

    /// The flag of `session`.
    pub fn get(&self, session: Entity) -> (r: Gate)
        ensures
            r == self.gate(session),
    {
        match self.gates.get(&session.bits) {
            Some(g) => *g,
            None => Gate::Open,
        }
    }

    /// Set the flag of `session`, leaving every other session alone.
    pub fn set(&mut self, session: Entity, gate: Gate)
        ensures
            final(self).gate(session) == gate,
            forall|o: Entity| o != session ==> #[trigger] final(self).gate(o) == old(self).gate(o),
    {
        self.gates.insert(session.bits, gate);
    }

    /// Forget the flag of `session`: it reads open again.
    pub fn clear_session(&mut self, session: Entity)
        ensures
            final(self).gate(session) == Gate::Open,
            forall|o: Entity| o != session ==> #[trigger] final(self).gate(o) == old(self).gate(o),
    {
        self.gates.remove(&session.bits);
    }
}

/// Read access to the Open/Closed flag of one buffer within one session.
pub struct BufferGateView<'a> {
    gate: &'a GateState,
    session: Entity,
}

impl<'a> BufferGateView<'a> {
    /// The flags and session this view reads, for use in contracts.
    pub closed spec fn spec_state(&self) -> GateState {
        *self.gate
    }

    pub closed spec fn spec_session(&self) -> Entity {
        self.session
    }

    pub fn new(gate: &'a GateState, session: Entity) -> (r: Self)
        ensures
            r.spec_state() == *gate,
            r.spec_session() == session,
    {
        BufferGateView { gate, session }
    }

    /// The current flag.
    pub fn get(&self) -> (r: Gate)
        ensures
            r == self.spec_state().gate(self.spec_session()),
    {
        self.gate.get(self.session)
    }
}

/// Write access to the Open/Closed flag of one buffer within one session.
/// Opening or closing it emits no data-change notification.
pub struct BufferGateMut<'a> {
    pub gate: &'a mut GateState,
    pub session: Entity,
}

impl<'a> BufferGateMut<'a> {
    /// The flags as the guard currently sees them.
    pub open spec fn state(&self) -> GateState {
        *self.gate
    }

    /// `self` is `before` after work through the guard's own methods: same
    /// session, and every other session's flag unchanged.
    pub open spec fn worked_from(&self, before: &Self) -> bool {
        &&& self.session == before.session
        &&& forall|o: Entity|
            o != before.session ==> #[trigger] self.state().gate(o) == before.state().gate(o)
    }

    /// The current flag.
    pub fn get(&self) -> (r: Gate)
        ensures
            r == self.state().gate(self.session),
    {
        self.gate.get(self.session)
    }

    /// Set the flag to `Open`; idempotent.
    pub fn open_gate(&mut self)
        ensures
            final(self).session == old(self).session,
            *final(final(self).gate) == *final(old(self).gate),
            final(self).state().gate(old(self).session) == Gate::Open,
            forall|o: Entity|
                o != old(self).session ==> #[trigger] final(self).state().gate(o) == old(self).state().gate(o),
    {
        self.gate.set(self.session, Gate::Open);
    }

    /// Set the flag to `Closed`; idempotent.
    pub fn close_gate(&mut self)
        ensures
            final(self).session == old(self).session,
            *final(final(self).gate) == *final(old(self).gate),
            final(self).state().gate(old(self).session) == Gate::Closed,
            forall|o: Entity|
                o != old(self).session ==> #[trigger] final(self).state().gate(o) == old(self).state().gate(o),
    {
        self.gate.set(self.session, Gate::Closed);
    }
}

} // verus!
