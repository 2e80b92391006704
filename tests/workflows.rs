use impulse_buffer::{
    listeners_to_wake, AnyBufferKey, Buffer, BufferAccess, BufferAccessMut, BufferKey,
    BufferKeyBuilder, BufferSettings, BufferWorld, Entity, Gate,
};

fn e(n: u64) -> Entity {
    Entity::from_bits(n)
}

const SESSION: u64 = 1;
const INPUT_NODE: u64 = 50;

fn key_for<T>(buffer: &Buffer<T>, accessor: u64) -> BufferKey<T> {
    BufferKey::create_key(buffer, &BufferKeyBuilder::untracked(e(SESSION), e(accessor)))
}

/// Stores `value` through the input slot of the workflow.
fn feed<T>(world: &mut BufferWorld<T>, buffer: &Buffer<T>, value: T) {
    let key = key_for(buffer, INPUT_NODE);
    let mut guard = world.buffer_mut(&key).unwrap();
    guard.push(value);
    guard.release();
}

fn add_from_buffer(lhs: f64, key: &BufferKey<f64>, world: &mut BufferWorld<f64>) -> Result<f64, f64> {
    let mut access = BufferAccessMut { world };
    let mut guard = access.get_mut(key).map_err(|_| lhs)?;
    let pulled = guard.pull();
    guard.release();
    let rhs = pulled.ok_or(lhs)?;
    Ok(lhs + rhs)
}

fn multiply_buffers_by_copy(key_a: &BufferKey<f64>, key_b: &BufferKey<f64>, world: &BufferWorld<f64>) -> f64 {
    let access = BufferAccess { world };
    *access.get(key_a).unwrap().oldest().unwrap() * *access.get(key_b).unwrap().oldest().unwrap()
}

fn add_buffers_by_pull(key_a: &BufferKey<f64>, key_b: &BufferKey<f64>, world: &mut BufferWorld<f64>) -> Option<f64> {
    if world.buffer_view(key_a).unwrap().is_empty() {
        return None;
    }
    if world.buffer_view(key_b).unwrap().is_empty() {
        return None;
    }
    let mut guard = world.buffer_mut(key_a).unwrap();
    let rhs = guard.pull().unwrap();
    guard.release();
    let mut guard = world.buffer_mut(key_b).unwrap();
    let lhs = guard.pull().unwrap();
    guard.release();
    Some(rhs + lhs)
}

#[test]
fn test_buffer_key_access() {
    let node = 60;

    let mut world: BufferWorld<f64> = BufferWorld::new();
    let a = world.create_buffer(e(1), BufferSettings::default());
    let b = world.create_buffer(e(1), BufferSettings::default());
    feed(&mut world, &a, 2.0);
    feed(&mut world, &b, 3.0);
    let value = multiply_buffers_by_copy(&key_for(&a, node), &key_for(&b, node), &world);
    assert!(value == 6.0);

    feed(&mut world, &a, 4.0);
    feed(&mut world, &b, 5.0);
    let value = add_buffers_by_pull(&key_for(&a, node), &key_for(&b, node), &mut world);
    assert!(value.is_some_and(|v| v == 9.0));

    // The adder loops on an empty buffer until the value arrives, then a
    // second pull finds the buffer empty again.
    let buffer = world.create_buffer(e(1), BufferSettings::keep_first(10));
    let key = key_for(&buffer, node);
    let mut lhs = 2.0;
    let mut rounds = 0;
    let first = loop {
        match add_from_buffer(lhs, &key, &mut world) {
            Ok(sum) => break sum,
            Err(back) => lhs = back,
        }
        rounds += 1;
        if rounds == 3 {
            feed(&mut world, &buffer, 3.0);
        }
    };
    let result = add_from_buffer(first, &key, &mut world);
    assert!(result.is_err_and(|n| n == 5.0));
}

#[derive(Clone, Copy, Debug, PartialEq)]
struct Register {
    in_slot: u64,
    out_slot: u64,
}

impl Register {
    fn new(start_from: u64) -> Self {
        Self { in_slot: start_from, out_slot: 0 }
    }

    fn finished_with(&self, out_slot: u64) -> bool {
        self.in_slot == 0 && self.out_slot == out_slot
    }
}

fn decrement_register(mut register: Register, key: &BufferKey<Register>, world: &mut BufferWorld<Register>) -> Register {
    if register.in_slot == 0 {
        let mut guard = world.buffer_mut(key).unwrap();
        guard.push(register);
        guard.release();
        return register;
    }
    register.in_slot -= 1;
    register.out_slot += 1;
    register
}

/// Runs a chain of four decrementing nodes that each get a key to the
/// buffer, then lets the listener pull. `None` means the workflow could only
/// be cancelled: nothing reached the buffer and no key is in use any more.
fn run_register_chain(initial_value: u64) -> Option<Register> {
    let mut world: BufferWorld<Register> = BufferWorld::new();
    let buffer = world.create_buffer(e(1), BufferSettings::keep_all());
    let builder = BufferKeyBuilder::new(e(SESSION), e(70));
    let mut register = Register::new(initial_value);
    // Each node hands its key on to the next one; the previous key is dropped.
    let mut in_flight: Option<BufferKey<Register>> = None;
    for _ in 0..4 {
        let key = BufferKey::create_key(&buffer, &builder);
        assert!(key.is_in_use());
        register = decrement_register(register, &key, &mut world);
        in_flight = Some(key);
    }
    drop(builder);
    let updates = world.take_updates();
    let listener = e(71);
    if updates.iter().any(|u| u.notifies(listener)) {
        let key = key_for(&buffer, listener.to_bits());
        let mut guard = world.buffer_mut(&key).unwrap();
        let pulled = guard.pull();
        guard.release();
        return pulled;
    }
    // Only the last key is still alive, and nothing shares its lifecycle: the
    // session can be cancelled.
    let last = in_flight.unwrap();
    assert!(!last.is_in_use());
    let copy = last.clone();
    assert!(last.is_in_use() && copy.is_in_use());
    None
}

#[test]
fn test_buffer_key_lifecycle() {
    for initial_value in 0..=3 {
        let result = run_register_chain(initial_value);
        assert!(result.is_some_and(|r| r.finished_with(initial_value)));
    }
    for initial_value in 4..=6 {
        assert!(run_register_chain(initial_value).is_none());
    }
}

/// Pulls the value, checks that the flag was closed before it ran, opens it
/// again, and either loops the value back incremented or finishes.
fn gate_access_test_open_loop(key: &BufferKey<u64>, world: &mut BufferWorld<u64>) -> (Option<u64>, Option<u64>) {
    let mut buffer = world.buffer_mut(key).unwrap();
    let value = buffer.pull().unwrap();
    buffer.release();
    let any: AnyBufferKey = key.clone().into();
    let mut gate = world.buffer_gate_mut(&any).unwrap();
    assert_eq!(gate.get(), Gate::Closed);
    gate.open_gate();
    if value >= 5 {
        (None, Some(value))
    } else {
        (Some(value + 1), None)
    }
}

#[test]
fn test_buffer_key_gate_control() {
    let service = e(80);
    let mut world: BufferWorld<u64> = BufferWorld::new();
    let buffer = world.create_buffer(e(1), BufferSettings::keep_all());
    feed(&mut world, &buffer, 0);

    let mut outcome = None;
    let mut wakeups = 0;
    while outcome.is_none() {
        let updates = world.take_updates();
        assert!(!updates.is_empty(), "the workflow stalled");
        for update in updates {
            for _ in listeners_to_wake(&update, &vec![service]) {
                wakeups += 1;
                let key = key_for(&buffer, service.to_bits());
                let any: AnyBufferKey = key.clone().into();
                world.buffer_gate_mut(&any).unwrap().close_gate();
                match gate_access_test_open_loop(&key, &mut world) {
                    (Some(next), None) => feed(&mut world, &buffer, next),
                    (None, Some(done)) => outcome = Some(done),
                    _ => unreachable!(),
                }
            }
        }
    }
    assert!(outcome.is_some_and(|v| v == 5));
    assert_eq!(wakeups, 6);
    // The service's own pulls wake nobody: no spurious wake-up.
    for update in world.take_updates() {
        assert!(listeners_to_wake(&update, &vec![service]).is_empty());
    }
}

fn gate_access_test_closed_loop(key: &BufferKey<u64>, world: &mut BufferWorld<u64>) -> (Option<u64>, Option<u64>) {
    let mut buffer = world.buffer_mut(key).unwrap().allow_closed_loops();
    let pulled = buffer.pull();
    buffer.release();
    if let Some(value) = pulled {
        (Some(value + 1), None)
    } else {
        (None, Some(0))
    }
}

#[test]
fn test_closed_loop_key_access() {
    let service = e(90);
    let mut world: BufferWorld<u64> = BufferWorld::new();
    let buffer = world.create_buffer(e(1), BufferSettings::keep_all());
    feed(&mut world, &buffer, 3);

    let mut delayed = Vec::new();
    let mut outcome = None;
    while outcome.is_none() {
        let updates = world.take_updates();
        if updates.is_empty() {
            // The delay node hands its values back to the buffer.
            assert!(!delayed.is_empty(), "the workflow stalled");
            for value in delayed.drain(..) {
                feed(&mut world, &buffer, value);
            }
            continue;
        }
        for update in updates {
            for _ in listeners_to_wake(&update, &vec![service]) {
                let key = key_for(&buffer, service.to_bits());
                match gate_access_test_closed_loop(&key, &mut world) {
                    (Some(next), None) => delayed.push(next),
                    (None, Some(done)) => outcome = Some(done),
                    _ => unreachable!(),
                }
            }
        }
    }
    assert!(outcome.is_some_and(|v| v == 0));
}
