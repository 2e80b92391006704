use vstd::prelude::*;

use crate::buffer::Entity;

verus! {

/// A deferred "buffer updated" event. The listener named by
/// `excluded_accessor`, if any, is not woken by it.
#[derive(Clone, Copy, PartialEq, Eq, Structural, Debug)]
pub struct BufferUpdate {
    pub buffer: Entity,
    pub session: Entity,
    pub excluded_accessor: Option<Entity>,
}

impl BufferUpdate {
    /// Whether this event wakes `listener`.
    pub open spec fn wakes(self, listener: Entity) -> bool {
        self.excluded_accessor != Some(listener)
    }

    /// The listeners this event wakes, as a predicate.
    pub open spec fn woken(self) -> spec_fn(Entity) -> bool {
        |l: Entity| self.wakes(l)
    }

    /// Whether this event wakes `listener`.
    pub fn notifies(&self, listener: Entity) -> (r: bool)
        ensures
            r == self.wakes(listener),
    {
        match self.excluded_accessor {
            Some(a) => a != listener,
            None => true,
        }
    }
}

/// The listeners of a buffer that `update` wakes, in their order.
pub fn listeners_to_wake(update: &BufferUpdate, listeners: &Vec<Entity>) -> (r: Vec<Entity>)
    ensures
        r@ == listeners@.filter(update.woken()),
{
    let mut out: Vec<Entity> = Vec::new();
    let mut i: usize = 0;
    while i < listeners.len()
        invariant
            i <= listeners@.len(),
            out@ == listeners@.subrange(0, i as int).filter(update.woken()),
        decreases listeners@.len() - i,
    {
        let l = listeners[i];
        proof {
            reveal(Seq::filter);
            let next = listeners@.subrange(0, i + 1);
            assert(next.drop_last() =~= listeners@.subrange(0, i as int));
            assert(next.last() == l);
            assert(next.filter(update.woken()) == if update.woken()(l) {
                out@.push(l)
            } else {
                out@
            });
        }
        let wake = update.notifies(l);
        if wake {
            out.push(l);
        }
        assert(out@ == listeners@.subrange(0, i + 1).filter(update.woken()));
        i = i + 1;
    }
    assert(listeners@.subrange(0, i as int) =~= listeners@);
    out
}

} // verus!
