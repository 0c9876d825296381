use ctxbuilder::Context;

#[test]
fn insert_then_get_round_trip() {
    let mut ctx = ctxbuilder::ctx();
    assert_eq!(ctx.insert(41u32), None);
    assert_eq!(ctx.get(), Some(&41u32));

    let mut named = ctxbuilder::ctx();
    assert_eq!(named.insert_named("answer", 42u32), None);
    assert_eq!(named.get_named("answer"), Some(&42u32));
}

#[test]
fn insert_overwrites_and_returns_displaced() {
    let mut ctx = ctxbuilder::ctx();
    assert_eq!(ctx.insert(1u32), None);
    assert_eq!(ctx.insert(2u32), Some(1u32));
    assert_eq!(ctx.get(), Some(&2u32));

    let mut named = ctxbuilder::ctx();
    assert_eq!(named.insert_named("k", 10u32), None);
    assert_eq!(named.insert_named("k", 20u32), Some(10u32));
    assert_eq!(named.get_named("k"), Some(&20u32));
}

#[test]
fn named_and_unnamed_slots_are_disjoint() {
    let mut ctx = ctxbuilder::ctx();
    ctx.insert_named("a", 1u32);
    assert_eq!(ctx.get(), None);
    assert_eq!(ctx.get_named("b"), None);
    assert_eq!(ctx.get_named("a"), Some(&1u32));

    ctx.insert(7u32);
    assert_eq!(ctx.get_named("a"), Some(&1u32));
    assert_eq!(ctx.get(), Some(&7u32));
}

#[test]
fn or_insert_keeps_existing_value() {
    let mut ctx = ctxbuilder::ctx().with(5u32);
    let resolved = *ctx.entry().or_insert(9u32);
    assert_eq!(resolved, 5);
    assert_eq!(ctx.get(), Some(&5u32));
}

#[test]
fn or_insert_fills_vacant_slot() {
    let mut ctx = ctxbuilder::ctx();
    let resolved = *ctx.entry_named("n").or_insert(9u32);
    assert_eq!(resolved, 9);
    assert_eq!(ctx.get_named("n"), Some(&9u32));
}

#[test]
fn or_insert_with_skips_factory_when_occupied() {
    let mut ctx = ctxbuilder::ctx().with(5u32);
    let mut called = false;
    let resolved = *ctx.entry().or_insert_with(|| {
        called = true;
        9u32
    });
    assert_eq!(resolved, 5);
    assert!(!called);
}

#[test]
fn or_insert_with_runs_factory_once_when_vacant() {
    let mut ctx = ctxbuilder::ctx();
    let mut calls = 0u32;
    let resolved = *ctx.entry().or_insert_with(|| {
        calls += 1;
        9u32
    });
    assert_eq!(resolved, 9);
    assert_eq!(calls, 1);
    assert_eq!(ctx.get(), Some(&9u32));
}

#[test]
fn or_insert_with_skips_factory_when_inherited() {
    let ctx = ctxbuilder::ctx().with(5u32);
    let mut sub = ctx.sub();
    let mut called = false;
    let resolved = *sub.entry().or_insert_with(|| {
        called = true;
        9u32
    });
    assert_eq!(resolved, 5);
    assert!(!called);
    assert_eq!(ctx.get(), Some(&5u32));
}

#[test]
fn and_modify_is_noop_when_vacant() {
    let mut ctx = ctxbuilder::ctx();
    let resolved = *ctx.entry().and_modify(|x: u32| x + 1).or_insert(3u32);
    assert_eq!(resolved, 3);
    assert_eq!(ctx.get(), Some(&3u32));
}

#[test]
fn and_modify_applies_to_occupied() {
    let mut ctx = ctxbuilder::ctx().with(5u32);
    let resolved = *ctx.entry().and_modify(|x: u32| x + 1).or_insert(99u32);
    assert_eq!(resolved, 6);
    assert_eq!(ctx.get(), Some(&6u32));
}

#[test]
fn and_modify_materializes_only_locally() {
    let ctx = ctxbuilder::ctx().with(5u32);
    let mut sub = ctx.sub();
    // and_modify discards the inherited value: the local slot is vacant, so
    // the chained or_insert applies the default locally.
    let resolved = *sub.entry().and_modify(|x: u32| x + 1).or_insert(9u32);
    assert_eq!(resolved, 9);
    assert_eq!(sub.get(), Some(&9u32));
    assert_eq!(ctx.get(), Some(&5u32));
}

#[test]
fn or_default_uses_existing_then_default() {
    let mut ctx = ctxbuilder::ctx().with(5u32);
    assert_eq!(*ctx.entry().or_default(), 5);

    let mut empty = ctxbuilder::ctx();
    assert_eq!(*empty.entry().or_default(), 0u32);
    assert_eq!(empty.get(), Some(&0u32));
}

#[test]
fn or_default_prefers_inherited_value() {
    let ctx = ctxbuilder::ctx().with(5u32);
    let mut sub = ctx.sub();
    assert_eq!(*sub.entry().or_default(), 5);
    assert_eq!(ctx.get(), Some(&5u32));
}
