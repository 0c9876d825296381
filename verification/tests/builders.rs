use ctxbuilder::{Builder, Context, NamedBuilder};
use uuid::Uuid;

#[test]
fn identifier_builds_converge_on_one_value() {
    let mut ctx = ctxbuilder::ctx();
    let first: Uuid = ctx.build();
    let second: Uuid = ctx.build();
    assert_eq!(first, second);
    assert_eq!(ctx.get(), Some(&first));
}

#[test]
fn named_identifier_builds_converge_on_one_value() {
    let mut ctx = ctxbuilder::ctx();
    let first: Uuid = ctx.build_named("person");
    let second: Uuid = ctx.build_named("person");
    assert_eq!(first, second);
    assert_eq!(ctx.get_named("person"), Some(&first));
}

#[test]
fn named_identifiers_differ_between_names() {
    let mut ctx = ctxbuilder::ctx();
    let a: Uuid = ctx.build_named("a");
    let b: Uuid = Uuid::build_with_name(&mut ctx, "b");
    assert_eq!(ctx.get_named("a"), Some(&a));
    assert_eq!(ctx.get_named("b"), Some(&b));
    assert_eq!(ctx.get(), None);
}

#[test]
fn derived_context_shares_root_identifier() {
    let mut root = ctxbuilder::ctx();
    let id: Uuid = root.build();
    let mut sub = root.sub();
    let inherited: Uuid = sub.build();
    assert_eq!(inherited, id);
    // The derived resolution did not materialize a local copy, and the root
    // still holds the one identifier.
    assert_eq!(root.get(), Some(&id));
}

#[test]
fn fresh_identifier_stored_where_requested() {
    let root = ctxbuilder::ctx();
    let mut sub = root.sub();
    let id = Uuid::build(&mut sub);
    assert_eq!(sub.get(), Some(&id));
    // The root was vacant and stays vacant: the derived context's store took
    // the fresh identifier.
    assert_eq!(root.get(), None);
}
