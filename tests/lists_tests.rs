use lpus::lists::{ssdt_owner, ssdt_target, ssdt_targets, unloaded_driver_slots, walk_list, ListError, ModuleRange};

#[test]
fn list_walk_returns_objects_until_head() {
    let read = |a: u64| match a {
        0x100 => 0x210,
        0x210 => 0x310,
        0x310 => 0x100,
        _ => 0,
    };
    assert_eq!(walk_list(0x100, 0x10, 0, 16, &read), Ok(vec![0x200, 0x300]));
}

#[test]
fn list_walk_reads_flink_at_offset() {
    let read = |a: u64| match a {
        0x108 => 0x500,
        0x508 => 0x100,
        _ => 0,
    };
    assert_eq!(walk_list(0x100, 0x40, 8, 16, &read), Ok(vec![0x4c0]));
}

#[test]
fn empty_list_has_no_objects() {
    let read = |a: u64| if a == 0x100 { 0x100 } else { 0 };
    assert_eq!(walk_list(0x100, 0x10, 0, 16, &read), Ok(vec![]));
}

#[test]
fn looping_list_is_reported_corrupt() {
    let read = |a: u64| match a {
        0x100 => 0x200,
        0x200 => 0x300,
        0x300 => 0x200,
        _ => 0,
    };
    assert_eq!(walk_list(0x100, 0x10, 0, 5, &read), Err(ListError::Corrupt));
}

#[test]
fn unloaded_driver_slots_are_bounded() {
    let few = unloaded_driver_slots(0x1000, 3);
    assert_eq!(few, vec![0x1000, 0x1028, 0x1050]);
    let many = unloaded_driver_slots(0x1000, 1000);
    assert_eq!(many.len(), 0x32);
    assert_eq!(many[0x31], 0x1000 + 0x31 * 0x28);
}

#[test]
fn ssdt_entries_are_signed_offsets() {
    assert_eq!(ssdt_target(0xfffff800_00100000, 0x1230), 0xfffff800_00100123);
    assert_eq!(ssdt_target(0xfffff800_00100000, -0x100), 0xfffff800_000ffff0);
    assert_eq!(ssdt_targets(0x1000, &vec![0x40, 0x80]), vec![0x1004, 0x1008]);
}

#[test]
fn ssdt_owner_is_first_containing_module() {
    let modules = vec![ModuleRange { base: 0x1000, size: 0x100 }, ModuleRange { base: 0x2000, size: 0x100 }];
    assert_eq!(ssdt_owner(0x2050, &modules), Some(1));
    assert_eq!(ssdt_owner(0x1000, &modules), None);
    assert_eq!(ssdt_owner(0x3000, &modules), None);
}
