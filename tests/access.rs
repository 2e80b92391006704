use impulse_buffer::{
    in_use_given,
    listeners_to_wake, AnyBufferKey, Buffer, BufferAccess, BufferAccessMut, BufferError,
    BufferGateAccess, BufferGateAccessMut, BufferKey,
    BufferKeyBuilder, BufferLocation, BufferSettings, BufferUpdate, BufferWorld, Entity, Gate,
};

fn e(n: u64) -> Entity {
    Entity::from_bits(n)
}

fn world_with_buffer(settings: BufferSettings) -> (BufferWorld<u64>, Buffer<u64>) {
    let mut world = BufferWorld::new();
    assert!(world.can_create());
    let buffer = world.create_buffer(e(100), settings);
    (world, buffer)
}

fn key_for(buffer: &Buffer<u64>, session: u64, accessor: u64) -> BufferKey<u64> {
    BufferKey::create_key(buffer, &BufferKeyBuilder::untracked(e(session), e(accessor)))
}

#[test]
fn guard_queues_exactly_one_event_per_lifetime() {
    let (mut world, buffer) = world_with_buffer(BufferSettings::keep_all());
    let key = key_for(&buffer, 1, 7);
    {
        let mut guard = world.buffer_mut(&key).unwrap();
        guard.push(1);
        guard.push(2);
        guard.pull();
        guard.push(3);
        guard.release();
    }
    let updates = world.take_updates();
    assert_eq!(
        updates,
        vec![BufferUpdate { buffer: buffer.id(), session: e(1), excluded_accessor: Some(e(7)) }]
    );
    assert!(world.take_updates().is_empty());

    let guard = world.buffer_mut(&key).unwrap();
    assert_eq!(guard.len(), 2);
    guard.release();
    assert!(world.take_updates().is_empty());
}

#[test]
fn pulse_notifies_without_changing_contents() {
    let (mut world, buffer) = world_with_buffer(BufferSettings::keep_all());
    let key = key_for(&buffer, 1, 7);
    let mut guard = world.buffer_mut(&key).unwrap();
    guard.pulse();
    assert!(guard.is_empty());
    guard.release();
    assert_eq!(world.take_updates().len(), 1);
}

#[test]
fn allow_closed_loops_clears_the_excluded_accessor() {
    let (mut world, buffer) = world_with_buffer(BufferSettings::keep_all());
    let key = key_for(&buffer, 1, 7);
    let mut guard = world.buffer_mut(&key).unwrap().allow_closed_loops();
    guard.push(5);
    guard.release();
    let updates = world.take_updates();
    assert_eq!(updates.len(), 1);
    assert_eq!(updates[0].excluded_accessor, None);
    assert!(updates[0].notifies(e(7)));
}

#[test]
fn closed_loop_listener_is_not_woken_by_its_own_write() {
    let (mut world, buffer) = world_with_buffer(BufferSettings::keep_all());
    let listener = e(7);
    let other_listener = e(8);
    let key = key_for(&buffer, 1, listener.to_bits());
    let mut guard = world.buffer_mut(&key).unwrap();
    guard.push(3);
    guard.release();
    let updates = world.take_updates();
    assert_eq!(updates.len(), 1);
    let woken = listeners_to_wake(&updates[0], &vec![listener, other_listener]);
    assert_eq!(woken, vec![other_listener]);
}

#[test]
fn guard_operations_follow_the_policy() {
    let (mut world, buffer) = world_with_buffer(BufferSettings::keep_last(1));
    let key = key_for(&buffer, 1, 7);
    let mut guard = world.buffer_mut(&key).unwrap();
    assert_eq!(guard.push(5), None);
    assert_eq!(guard.push(7), Some(5));
    assert_eq!(guard.oldest(), Some(&7));
    assert_eq!(guard.newest(), Some(&7));
    assert_eq!(guard.get(1), None);
    if let Some(x) = guard.newest_mut() {
        *x = 8;
    }
    assert_eq!(guard.iter(), &[8]);
    assert_eq!(guard.pull_newest(), Some(8));
    if let Some(x) = guard.newest_mut_or_default() {
        *x += 4;
    }
    assert_eq!(guard.iter(), &[4]);
    assert_eq!(guard.push_as_oldest(1), Some(1));
    assert_eq!(guard.drain(0..1), vec![4]);
    assert!(guard.is_empty());
    guard.release();
}

#[test]
fn views_read_one_session_only() {
    let (mut world, buffer) = world_with_buffer(BufferSettings::keep_all());
    let key_a = key_for(&buffer, 1, 7);
    let key_b = key_for(&buffer, 2, 7);
    let mut guard = world.buffer_mut(&key_a).unwrap();
    guard.push(11);
    guard.push(12);
    guard.release();

    let access = BufferAccess { world: &world };
    let view_a = access.get(&key_a).unwrap();
    assert_eq!(view_a.len(), 2);
    assert_eq!(view_a.oldest(), Some(&11));
    assert_eq!(view_a.get(1), Some(&12));
    assert_eq!(view_a.iter(), &[11, 12]);
    let view_b = access.get(&key_b).unwrap();
    assert!(view_b.is_empty());
    assert_eq!(view_b.newest(), None);
    assert_eq!(access.get_newest(&key_a), Some(&12));
    assert_eq!(access.get_newest(&key_b), None);
}

#[test]
fn access_mut_resolves_keys() {
    let (mut world, buffer) = world_with_buffer(BufferSettings::keep_first(1));
    let key = key_for(&buffer, 1, 7);
    let mut access = BufferAccessMut { world: &mut world };
    {
        let mut guard = access.get_mut(&key).unwrap();
        assert_eq!(guard.push(1), None);
        assert_eq!(guard.push(2), Some(2));
        guard.release();
    }
    assert_eq!(access.get_newest(&key), Some(&1));
    assert_eq!(access.get(&key).unwrap().len(), 1);
    assert_eq!(world.take_updates().len(), 1);
}

#[test]
fn missing_buffer_is_an_error() {
    let (mut world, buffer) = world_with_buffer(BufferSettings::keep_all());
    let key = key_for(&buffer, 1, 7);
    world.despawn_buffer(buffer.id());
    assert_eq!(world.buffer_view(&key).err(), Some(BufferError::BufferMissing));
    assert!(matches!(world.buffer_mut(&key), Err(BufferError::BufferMissing)));
    let any: AnyBufferKey = key.clone().into();
    assert!(matches!(world.buffer_gate_view(&any), Err(BufferError::BufferMissing)));
    assert!(matches!(world.buffer_gate_mut(&any), Err(BufferError::BufferMissing)));
    assert_eq!(BufferAccess { world: &world }.get_newest(&key), None);
    assert_eq!(BufferError::BufferMissing.message(), "The key was unable to identify a buffer");
}

#[test]
fn gate_transitions_leave_contents_alone() {
    let (mut world, buffer) = world_with_buffer(BufferSettings::keep_all());
    let key = key_for(&buffer, 1, 7);
    let mut guard = world.buffer_mut(&key).unwrap();
    guard.push(1);
    guard.release();
    let any: AnyBufferKey = key.clone().into();
    assert_eq!(world.buffer_gate_view(&any).unwrap().get(), Gate::Open);
    {
        let mut gate = world.buffer_gate_mut(&any).unwrap();
        gate.close_gate();
        assert_eq!(gate.get(), Gate::Closed);
        gate.close_gate();
        assert_eq!(gate.get(), Gate::Closed);
    }
    assert_eq!(world.buffer_gate_view(&any).unwrap().get(), Gate::Closed);
    assert_eq!(world.buffer_view(&key).unwrap().len(), 1);
    {
        let mut gate = world.buffer_gate_mut(&any).unwrap();
        gate.open_gate();
        assert_eq!(gate.get(), Gate::Open);
    }
    assert_eq!(world.buffer_gate_view(&any).unwrap().get(), Gate::Open);
    assert_eq!(world.buffer_view(&key).unwrap().len(), 1);
    world.take_updates();
    {
        let mut gate = world.buffer_gate_mut(&any).unwrap();
        gate.close_gate();
    }
    assert!(world.take_updates().is_empty());
}

#[test]
fn clearing_a_session_releases_its_items_and_flag() {
    let (mut world, buffer) = world_with_buffer(BufferSettings::keep_all());
    let key_a = key_for(&buffer, 1, 7);
    let key_b = key_for(&buffer, 2, 7);
    for key in [&key_a, &key_b] {
        let mut guard = world.buffer_mut(key).unwrap();
        guard.push(1);
        guard.release();
    }
    let any_a: AnyBufferKey = key_a.clone().into();
    world.buffer_gate_mut(&any_a).unwrap().close_gate();
    world.clear_session(buffer.id(), e(1));
    assert!(world.buffer_view(&key_a).unwrap().is_empty());
    assert_eq!(world.buffer_gate_view(&any_a).unwrap().get(), Gate::Open);
    assert_eq!(world.buffer_view(&key_b).unwrap().len(), 1);
}

#[test]
fn buffers_get_distinct_identities() {
    let mut world: BufferWorld<u64> = BufferWorld::new();
    let a = world.create_buffer(e(100), BufferSettings::keep_all());
    let b = world.create_buffer(e(100), BufferSettings::keep_all());
    assert_ne!(a.id(), b.id());
    assert_eq!(a.scope(), e(100));
    assert_eq!(b.location(), BufferLocation { scope: e(100), source: b.id() });
    let c = a.by_cloning();
    assert_eq!(c.id(), a.id());
    let back: Buffer<u64> = c.into();
    assert_eq!(back.location(), a.location());
}

#[test]
fn key_lifecycle_tracks_live_handles() {
    let mut world: BufferWorld<u64> = BufferWorld::new();
    let buffer = world.create_buffer(e(100), BufferSettings::keep_all());
    let builder = BufferKeyBuilder::new(e(1), e(7));
    let key = BufferKey::create_key(&buffer, &builder);
    assert_eq!(key.buffer(), buffer.id());
    assert_eq!(key.session(), e(1));
    assert_eq!(key.tag().accessor, e(7));
    assert!(key.is_in_use());
    drop(builder);
    assert!(!key.is_in_use());
    let copy = key.clone();
    assert!(key.is_in_use());
    assert!(copy.is_in_use());
    let deep = key.deep_clone();
    assert_eq!(deep.buffer(), key.buffer());
    assert_eq!(deep.session(), key.session());
    assert!(!deep.is_in_use());
    drop(copy);
    assert!(!key.is_in_use());

    let untracked = key_for(&buffer, 1, 7);
    assert!(!untracked.is_in_use());
    assert!(!untracked.clone().is_in_use());
}

#[test]
fn gate_accessors_resolve_type_erased_keys() {
    let (mut world, buffer) = world_with_buffer(BufferSettings::keep_all());
    let any: AnyBufferKey = key_for(&buffer, 1, 7).into();
    let other_session: AnyBufferKey = key_for(&buffer, 2, 7).into();
    {
        let mut access = BufferGateAccessMut { world: &mut world };
        access.get_mut(&any).unwrap().close_gate();
    }
    let access = BufferGateAccess { world: &world };
    assert_eq!(access.get(&any).unwrap().get(), Gate::Closed);
    assert_eq!(access.get(&other_session).unwrap().get(), Gate::Open);
}

#[test]
fn guard_iter_mut_marks_the_guard_modified() {
    let (mut world, buffer) = world_with_buffer(BufferSettings::keep_all());
    let key = key_for(&buffer, 1, 7);
    let mut guard = world.buffer_mut(&key).unwrap();
    guard.push(1);
    guard.push(2);
    guard.release();
    world.take_updates();
    let mut guard = world.buffer_mut(&key).unwrap();
    for x in guard.iter_mut() {
        *x += 1;
    }
    assert_eq!(guard.iter(), &[2, 3]);
    guard.release();
    assert_eq!(world.take_updates().len(), 1);
}

#[test]
fn callback_access_releases_the_guard() {
    let (mut world, buffer) = world_with_buffer(BufferSettings::keep_all());
    let key = key_for(&buffer, 1, 7);
    let pushed = world.buffer_mut_with(&key, |g| {
        g.push(4);
        g.push(5);
        g.len()
    });
    assert_eq!(pushed, Ok(2));
    assert_eq!(
        world.take_updates(),
        vec![BufferUpdate { buffer: buffer.id(), session: e(1), excluded_accessor: Some(e(7)) }]
    );
    let read = world.buffer_mut_with(&key, |g| g.newest().copied());
    assert_eq!(read, Ok(Some(5)));
    assert!(world.take_updates().is_empty());

    let any: AnyBufferKey = key.clone().into();
    assert_eq!(world.buffer_gate_mut_with(&any, |g| g.close_gate()), Ok(()));
    assert_eq!(world.buffer_gate_view(&any).unwrap().get(), Gate::Closed);
    assert_eq!(world.buffer_gate_mut_with(&any, |g| g.open_gate()), Ok(()));
    assert_eq!(world.buffer_gate_view(&any).unwrap().get(), Gate::Open);
    assert!(world.take_updates().is_empty());

    world.despawn_buffer(buffer.id());
    let mut called = false;
    let missing = world.buffer_mut_with(&key, |_| called = true);
    assert_eq!(missing, Err(BufferError::BufferMissing));
    assert!(!called);
    assert_eq!(world.buffer_gate_mut_with(&any, |_| ()), Err(BufferError::BufferMissing));
}

#[test]
fn in_use_means_another_live_handle() {
    assert!(!in_use_given(0));
    assert!(!in_use_given(1));
    assert!(in_use_given(2));
    assert!(in_use_given(5));
}
