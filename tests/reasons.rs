use unsafety::{unsafe_because, unsafe_because_all, unsafe_reason, StandardReason, UnsafeReason};

#[test]
fn new_record_has_only_its_id() {
    let r = UnsafeReason::new("CUSTOM_REASON");
    assert_eq!(r.id(), "CUSTOM_REASON");
    assert!(r.owners().is_empty());
    assert!(r.bugs().is_empty());
    assert!(r.links().is_empty());
    assert!(r.tags().is_empty());
    assert!(r.messages().is_empty());
}

#[test]
fn derived_from_catalog_entry() {
    let base = StandardReason::UsesForeignCode.reason();
    let derived = base.clone().owner("alice").bug("BUG-123");
    assert_eq!(derived.id(), "USES_FOREIGN_CODE");
    assert_eq!(derived.owners(), &["alice"][..]);
    assert_eq!(derived.bugs(), &["BUG-123"][..]);
    assert!(base.owners().is_empty());
    assert!(base.bugs().is_empty());
    assert_eq!(base.id(), "USES_FOREIGN_CODE");
}

#[test]
fn each_builder_adds_one_value() {
    let base = UnsafeReason::new("X").owner("o");
    let with_bug = base.clone().bug("b");
    assert_eq!(with_bug.bugs(), &["b"][..]);
    assert_eq!(with_bug.owners(), &["o"][..]);
    let with_link = base.clone().link("https://example.com/design");
    assert_eq!(with_link.links(), &["https://example.com/design"][..]);
    assert!(with_link.bugs().is_empty());
    let with_tag = base.clone().tag("k", "v");
    assert_eq!(with_tag.tags(), &[("k", "v")][..]);
    let with_message = base.clone().message("read me");
    assert_eq!(with_message.messages(), &["read me"][..]);
    assert_eq!(with_message.owners(), &["o"][..]);
    assert_eq!(base.owners(), &["o"][..]);
    assert!(base.messages().is_empty());
}

#[test]
fn owners_accumulate_in_order() {
    let r = StandardReason::ImplementsDeviceDriver.reason().owner("foo").owner("bar");
    assert_eq!(r.owners(), &["foo", "bar"][..]);
    assert_eq!(r.id(), "IMPLEMENTS_DEVICE_DRIVER");
}

#[test]
fn repeated_tag_keys_are_all_kept() {
    let r = UnsafeReason::new("X").tag("team", "a").tag("team", "b");
    assert_eq!(r.tags(), &[("team", "a"), ("team", "b")][..]);
}

#[test]
fn full_chain_of_builders() {
    let r = StandardReason::ImplementsDeviceDriver
        .reason()
        .bug("some_bug_link")
        .owner("foo")
        .owner("bar")
        .link("https://example.com/some_design_doc.html")
        .message("registers are mapped once at boot");
    assert_eq!(r.id(), "IMPLEMENTS_DEVICE_DRIVER");
    assert_eq!(r.bugs(), &["some_bug_link"][..]);
    assert_eq!(r.owners(), &["foo", "bar"][..]);
    assert_eq!(r.links(), &["https://example.com/some_design_doc.html"][..]);
    assert_eq!(r.messages(), &["registers are mapped once at boot"][..]);
    assert!(r.tags().is_empty());
}

#[test]
fn catalog_names_are_ids() {
    let all = [
        (StandardReason::UsesForeignCode, "USES_FOREIGN_CODE"),
        (StandardReason::UsedByForeignCode, "USED_BY_FOREIGN_CODE"),
        (StandardReason::Performance, "PERFORMANCE"),
        (StandardReason::ImplementsSafeTransmute, "IMPLEMENTS_SAFE_TRANSMUTE"),
        (StandardReason::ImplementsContainer, "IMPLEMENTS_CONTAINER"),
        (StandardReason::ImplementsDeviceDriver, "IMPLEMENTS_DEVICE_DRIVER"),
        (StandardReason::ImplementsMemoryManager, "IMPLEMENTS_MEMORY_MANAGER"),
        (StandardReason::UsesVectorIntrinsics, "USES_VECTOR_INTRINSICS"),
    ];
    for (kind, name) in all {
        assert_eq!(kind.name(), name);
        let r = kind.reason();
        assert_eq!(r.id(), name);
        assert!(r.owners().is_empty() && r.bugs().is_empty() && r.links().is_empty());
        assert!(r.tags().is_empty() && r.messages().is_empty());
        let derived = kind.reason().owner("someone").tag("k", "v");
        assert_eq!(derived.id(), name);
    }
    for (i, (_, a)) in all.iter().enumerate() {
        for (j, (_, b)) in all.iter().enumerate() {
            assert_eq!(i == j, a == b);
        }
    }
}

#[test]
fn wrap_returns_body_value() {
    let derived = StandardReason::UsesForeignCode.reason().owner("alice").bug("BUG-123");
    let x: u64 = 41;
    let r = unsafe_because(derived, || x + 1);
    assert_eq!(r, 42);
}

#[test]
fn wrap_keeps_side_effects() {
    let mut log: Vec<u32> = Vec::new();
    let out = unsafe_because(StandardReason::Performance.reason(), || {
        log.push(7);
        log.len()
    });
    assert_eq!(out, 1);
    assert_eq!(log, vec![7]);
}

#[test]
fn wrap_list_same_as_single() {
    let single = unsafe_because(StandardReason::Performance.reason(), || "fast".to_string());
    let listed = unsafe_because_all(
        vec![
            StandardReason::Performance.reason(),
            StandardReason::ImplementsDeviceDriver.reason(),
        ],
        || "fast".to_string(),
    );
    assert_eq!(single, "fast");
    assert_eq!(listed, single);
}

#[test]
fn wrap_list_of_one() {
    let r = unsafe_because_all(vec![UnsafeReason::new("ONLY")], || (1u8, 'z'));
    assert_eq!(r, (1u8, 'z'));
}

#[test]
fn validator_accepts_any_record() {
    unsafe_reason(UnsafeReason::new("X").owner("o").message("m"));
    unsafe_reason(StandardReason::UsesVectorIntrinsics.reason());
}
