use vstd::prelude::*;

use crate::settings::RetentionPolicy;
use crate::storage::pushed;

verus! {

/// Contents of a session that held `q` after each of `vs` is pushed, in order.
pub open spec fn pushed_all<T>(policy: RetentionPolicy, q: Seq<T>, vs: Seq<T>) -> Seq<T>
    decreases vs.len(),
{
    if vs.len() == 0 {
        q
    } else {
        pushed(policy, pushed_all(policy, q, vs.drop_last()), vs.last()).0
    }
}

/// Under `KeepLast(n)`, after any sequence of pushes into an empty session,
/// the session holds at most `n` items: exactly the last `n` values pushed,
/// oldest first.
pub proof fn keep_last_holds_the_newest<T>(n: usize, vs: Seq<T>)
    ensures
        pushed_all(RetentionPolicy::KeepLast(n), Seq::empty(), vs).len() <= n,
        pushed_all(RetentionPolicy::KeepLast(n), Seq::empty(), vs) == vs.subrange(
            if vs.len() > n { vs.len() - n } else { 0 },
            vs.len() as int,
        ),
    decreases vs.len(),
{
    if vs.len() > 0 {
        let d = vs.drop_last();
        keep_last_holds_the_newest(n, d);
        let lo = if d.len() > n { d.len() - n } else { 0 };
        let p = d.subrange(lo, d.len() as int).push(vs.last());
        assert(p =~= vs.subrange(lo, vs.len() as int));
        if p.len() > n {
            assert(p.drop_first() =~= vs.subrange(lo + 1, vs.len() as int));
        }
    } else {
        assert(vs.subrange(0, 0) =~= Seq::<T>::empty());
    }
}

/// Under `KeepFirst(n)`, after any sequence of pushes into an empty session,
/// the session holds exactly the first `n` values ever pushed.
pub proof fn keep_first_holds_the_oldest<T>(n: usize, vs: Seq<T>)
    ensures
        pushed_all(RetentionPolicy::KeepFirst(n), Seq::empty(), vs).len() <= n,
        pushed_all(RetentionPolicy::KeepFirst(n), Seq::empty(), vs) == vs.subrange(
            0,
            if vs.len() > n { n as int } else { vs.len() as int },
        ),
    decreases vs.len(),
{
    if vs.len() > 0 {
        let d = vs.drop_last();
        keep_first_holds_the_oldest(n, d);
        if d.len() < n {
            assert(d.subrange(0, d.len() as int).push(vs.last()) =~= vs.subrange(
                0,
                vs.len() as int,
            ));
        } else {
            assert(d.subrange(0, n as int) =~= vs.subrange(0, n as int));
        }
    } else {
        assert(vs.subrange(0, 0) =~= Seq::<T>::empty());
    }
}

/// Under `KeepFirst(n)`, a push into a full session changes nothing and
/// hands back the very value that was pushed.
pub proof fn keep_first_rejects_unchanged<T>(n: usize, q: Seq<T>, v: T)
    requires
        q.len() >= n,
    ensures
        pushed(RetentionPolicy::KeepFirst(n), q, v) == (q, Some(v)),
{
}

/// Under `KeepAll`, a push never returns anything and every pushed value is
/// kept: the count grows by one with each push.
pub proof fn keep_all_keeps_everything<T>(q: Seq<T>, vs: Seq<T>)
    ensures
        forall|v: T| #[trigger] pushed(RetentionPolicy::KeepAll, q, v) == (q.push(v), None::<T>),
        pushed_all(RetentionPolicy::KeepAll, q, vs) == q + vs,
        pushed_all(RetentionPolicy::KeepAll, q, vs).len() == q.len() + vs.len(),
    decreases vs.len(),
{
    if vs.len() > 0 {
        keep_all_keeps_everything(q, vs.drop_last());
        assert((q + vs.drop_last()).push(vs.last()) =~= q + vs);
    } else {
        assert(q + vs =~= q);
    }
}

/// One operation on a session, as the storage and the guard perform it.
pub enum SessionStep<T> {
    Push(T),
    Pull,
    PullNewest,
    /// Remove the items whose index lies in `start..end`.
    Drain(usize, usize),
}

/// Contents of a session that held `q` after `step`, as the contracts of
/// `push`, `pull`, `pull_newest` and `drain` state it. A drain outside the
/// contents is not allowed by `drain` and leaves them here as they are.
pub open spec fn after_step<T>(policy: RetentionPolicy, q: Seq<T>, step: SessionStep<T>) -> Seq<T> {
    match step {
        SessionStep::Push(v) => pushed(policy, q, v).0,
        SessionStep::Pull => if q.len() > 0 { q.drop_first() } else { q },
        SessionStep::PullNewest => if q.len() > 0 { q.drop_last() } else { q },
        SessionStep::Drain(start, end) => {
            if start <= end <= q.len() {
                q.subrange(0, start as int) + q.subrange(end as int, q.len() as int)
            } else {
                q
            }
        },
    }
}

/// How many items `step` takes out of `q` by pulling or draining.
pub open spec fn taken_out<T>(q: Seq<T>, step: SessionStep<T>) -> nat {
    match step {
        SessionStep::Push(_) => 0,
        SessionStep::Pull => if q.len() > 0 { 1 } else { 0 },
        SessionStep::PullNewest => if q.len() > 0 { 1 } else { 0 },
        SessionStep::Drain(start, end) => if start <= end <= q.len() { (end - start) as nat } else { 0 },
    }
}

/// Contents after running `steps` in order from `q`.
pub open spec fn after_steps<T>(policy: RetentionPolicy, q: Seq<T>, steps: Seq<SessionStep<T>>) -> Seq<T>
    decreases steps.len(),
{
    if steps.len() == 0 {
        q
    } else {
        after_step(policy, after_steps(policy, q, steps.drop_last()), steps.last())
    }
}

/// Items taken out by pulls and drains while running `steps` from `q`.
pub open spec fn taken_out_all<T>(policy: RetentionPolicy, q: Seq<T>, steps: Seq<SessionStep<T>>) -> nat
    decreases steps.len(),
{
    if steps.len() == 0 {
        0
    } else {
        taken_out_all(policy, q, steps.drop_last()) + taken_out(
            after_steps(policy, q, steps.drop_last()),
            steps.last(),
        )
    }
}

/// How many of `steps` are pushes.
pub open spec fn push_count<T>(steps: Seq<SessionStep<T>>) -> nat
    decreases steps.len(),
{
    if steps.len() == 0 {
        0
    } else {
        push_count(steps.drop_last()) + if steps.last() is Push { 1nat } else { 0nat }
    }
}

/// Under `KeepAll`, whatever mix of pushes, pulls and drains runs on a
/// session, its count is where it started plus the pushes minus what the
/// pulls and drains took out: every push adds exactly one item.
pub proof fn keep_all_count_balances<T>(q: Seq<T>, steps: Seq<SessionStep<T>>)
    ensures
        after_steps(RetentionPolicy::KeepAll, q, steps).len() + taken_out_all(
            RetentionPolicy::KeepAll,
            q,
            steps,
        ) == q.len() + push_count(steps),
    decreases steps.len(),
{
    if steps.len() > 0 {
        keep_all_count_balances(q, steps.drop_last());
    }
}

} // verus!
