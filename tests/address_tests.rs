use lpus::address::Address;
use lpus::mask::{get_bit_mask_handler, MaskCast};

#[test]
fn indirect_address_resolves_through_pointer() {
    let a = Address::from_base(0x1000);
    let b = Address::from_ptr(a) + 0x40;
    let r = |x: u64| if x == 0x1000 { 0x2000 } else { 0x9999 };
    assert_eq!(b.get(&r), 0x2040);
    let null = |x: u64| if x == 0x1000 { 0 } else { 0x9999 };
    assert_eq!(b.get(&null), 0);
}

#[test]
fn leaf_addition_adds_to_value() {
    let a = Address::from_base(0x1000) + 0x10;
    assert_eq!(a.address(), 0x1010);
    let b = a.clone() + 0x20;
    assert_eq!(b.address(), a.address() + 0x20);
    let c = b - 0x30;
    assert_eq!(c.address(), 0x1000);
}

#[test]
fn null_leaf_resolves_to_null() {
    let a = Address::from_base(0) + 0x30;
    assert_eq!(a.address(), 0x30);
    assert_eq!(a.get(&|x: u64| x), 0);
}

#[test]
fn indirection_over_null_pointer_is_null() {
    let p = Address::from_ptr(Address::from_base(0)) + 8;
    let calls = std::cell::Cell::new(0u32);
    let r = |x: u64| {
        calls.set(calls.get() + 1);
        x + 1
    };
    assert_eq!(p.get(&r), 0);
    assert_eq!(calls.get(), 0);
}

#[test]
fn indirect_address_reports_outer_offset() {
    let p = Address::from_ptr(Address::from_base(0x5000)) + 0x18;
    assert_eq!(p.address(), 0x18);
}

#[test]
fn two_hops_resolve_in_order() {
    let p = Address::from_ptr(Address::from_ptr(Address::from_base(0x10)) + 4) + 8;
    let r = |x: u64| match x {
        0x10 => 0x100,
        0x104 => 0x2000,
        _ => 0,
    };
    assert_eq!(p.get(&r), 0x2008);
}

#[test]
fn leaves_compare_by_value() {
    let a = Address::from_base(0x1000);
    let b = Address::from_base(0x1000);
    let c = Address::from_base(0x2000);
    assert!(a == b);
    assert!(a < c);
    assert!(c >= b);
    let p = Address::from_ptr(Address::from_base(0x1000));
    let q = Address::from_ptr(Address::from_base(0x1000));
    assert!(!(p == q));
    assert_eq!(p.partial_cmp(&a), None);
}

#[test]
fn bit_mask_extracts_range() {
    let m = get_bit_mask_handler(4, 4);
    assert_eq!(m.apply(0xAB), 0xA);
    assert_eq!(m.width(), 1);
    let full = get_bit_mask_handler(0, 64);
    assert_eq!(full.apply(u64::MAX), u64::MAX);
    assert_eq!(full.width(), 8);
    let top = get_bit_mask_handler(63, 1);
    assert_eq!(top.apply(0x8000_0000_0000_0000), 1);
    let wide = get_bit_mask_handler(12, 36);
    assert_eq!(wide.apply(0x0000_0000_AAAA_A067), 0xAAAAA);
    assert_eq!(wide.width(), 5);
}

#[test]
fn mask_cast_widens_and_narrows() {
    assert_eq!(<u8 as MaskCast<u64>>::mask_cast_from(0x1234), 0x34u8);
    assert_eq!(<u16 as MaskCast<u64>>::mask_cast_from(0x12345), 0x2345u16);
    assert_eq!(<u32 as MaskCast<u64>>::mask_cast_from(0x1_0000_0002), 2u32);
    assert_eq!(<u64 as MaskCast<u64>>::mask_cast_from(7), 7u64);
    assert_eq!(0xFFu8.mask_cast_to(), 0xFFu64);
    assert_eq!(0xFFFFu16.mask_cast_to(), 0xFFFFu64);
    assert_eq!(5u32.mask_cast_to(), 5u64);
}
