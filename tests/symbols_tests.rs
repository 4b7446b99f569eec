use lpus::address::Address;
use lpus::symbols::{FieldInfo, Member, PdbStore, SymbolError};

fn member(name: &str, ty: &str, offset: u64, bit_pos: u64, bit_len: u64) -> Member {
    Member {
        name: name.to_string(),
        info: FieldInfo { ty: ty.to_string(), offset, bit_pos, bit_len },
    }
}

fn sample_store() -> PdbStore {
    let mut store = PdbStore::new();
    store.insert_struct("P".to_string(), 0x40, vec![member("q", "Q*", 0x10, 0, 64), member("inner", "Q", 0x20, 0, 128)]);
    store.insert_struct("Q".to_string(), 0x10, vec![member("v", "Uint4B", 0x8, 0, 32), member("flag", "Uint8B", 0x0, 57, 1)]);
    store.insert_symbol("PsActiveProcessHead".to_string(), 0xC1_0000);
    store
}

#[test]
fn decompose_through_pointer_field() {
    let store = sample_store();
    let (addr, mask, width) = store.decompose(&Address::from_base(0x3000), "P.q.v").unwrap();
    assert_eq!(width, 4);
    assert_eq!(mask.len, 32);
    assert_eq!(addr.base, 0);
    assert_eq!(addr.offset, 0x8);
    let inner = addr.pointer.as_ref().unwrap();
    assert!(inner.pointer.is_none());
    assert_eq!(inner.address(), 0x3010);
    let r = |x: u64| if x == 0x3010 { 0x5000 } else { 0 };
    assert_eq!(addr.get(&r), 0x5008);
}

#[test]
fn decompose_twice_gives_same_triple() {
    let store = sample_store();
    let root = Address::from_base(0x3000);
    let (a1, m1, w1) = store.decompose(&root, "P.q.v").unwrap();
    let (a2, m2, w2) = store.decompose(&root, "P.q.v").unwrap();
    assert_eq!(m1, m2);
    assert_eq!(w1, w2);
    assert_eq!(a1.offset, a2.offset);
    assert_eq!(a1.pointer.as_ref().unwrap().address(), a2.pointer.as_ref().unwrap().address());
    let (l1, _, _) = store.decompose(&root, "P.inner.v").unwrap();
    let (l2, _, _) = store.decompose(&root, "P.inner.v").unwrap();
    assert!(l1 == l2);
}

#[test]
fn pointer_hop_uses_one_resolver_call() {
    let store = sample_store();
    let (addr, mask, width) = store.decompose(&Address::from_base(0x3000), "P.q.flag").unwrap();
    assert_eq!(mask.pos, 57);
    assert_eq!(mask.len, 1);
    assert_eq!(width, 1);
    let calls = std::cell::Cell::new(0u32);
    let r = |x: u64| {
        calls.set(calls.get() + 1);
        if x == 0x3010 { 0x7000 } else { 0 }
    };
    assert_eq!(addr.get(&r), 0x7000);
    assert_eq!(calls.get(), 1);
}

#[test]
fn embedded_struct_path_stays_a_leaf() {
    let store = sample_store();
    let (addr, mask, width) = store.decompose(&Address::from_base(0x3000), "P.inner.v").unwrap();
    assert!(addr.pointer.is_none());
    assert_eq!(addr.address(), 0x3028);
    assert_eq!(mask.len, 32);
    assert_eq!(width, 4);
}

#[test]
fn decompose_reports_errors() {
    let store = sample_store();
    let root = Address::from_base(0x3000);
    assert_eq!(store.decompose(&root, "P").err(), Some(SymbolError::NotDecomposable));
    assert_eq!(store.decompose(&root, "P.").err(), Some(SymbolError::NotDecomposable));
    assert_eq!(store.decompose(&root, "X.q").err(), Some(SymbolError::UnknownStruct));
    assert_eq!(store.decompose(&root, "P.zz").err(), Some(SymbolError::UnknownField));
    assert_eq!(store.decompose(&root, "Q.v.w").err(), Some(SymbolError::UnknownStruct));
}

#[test]
fn offsets_of_symbols_and_fields() {
    let store = sample_store();
    assert_eq!(store.get_offset("PsActiveProcessHead"), Some(0xC1_0000));
    assert_eq!(store.get_offset("P.q"), Some(0x10));
    assert_eq!(store.get_offset("P.q.v"), Some(0x10));
    assert_eq!(store.get_offset("P.struct_size"), Some(0x40));
    assert_eq!(store.get_offset("Nope"), None);
    assert_eq!(store.get_offset_r("Nope"), Err(SymbolError::UnknownSymbol));
    assert_eq!(store.get_offset_r("P.nope"), Err(SymbolError::UnknownField));
}

#[test]
fn insert_replaces_earlier_entries() {
    let mut store = sample_store();
    store.insert_symbol("PsActiveProcessHead".to_string(), 0x42);
    assert_eq!(store.get_offset("PsActiveProcessHead"), Some(0x42));
    assert_eq!(store.symbols.len(), 1);
    store.insert_struct("P".to_string(), 0x8, vec![]);
    assert_eq!(store.get_offset("P.struct_size"), Some(0x8));
    assert_eq!(store.get_offset("P.q"), None);
    assert_eq!(store.get_offset("Q.v"), Some(0x8));
}

#[test]
fn appended_symbols_keep_first_entry() {
    let mut store = PdbStore::new();
    store.append_symbol("KiServiceTable".to_string(), 0x100);
    store.append_symbol("KiServiceLimit".to_string(), 0x200);
    store.append_symbol("KiServiceTable".to_string(), 0x300);
    assert_eq!(store.get_offset("KiServiceTable"), Some(0x100));
    assert_eq!(store.get_offset("KiServiceLimit"), Some(0x200));
    assert_eq!(store.symbols.len(), 3);
}

#[test]
fn field_layouts_of_plain_and_bit_fields() {
    let plain = FieldInfo::layout("Uint4B".to_string(), 0x10, 4, None);
    assert_eq!((plain.bit_pos, plain.bit_len, plain.offset), (0, 32, 0x10));
    let bits = FieldInfo::layout("Uint8B".to_string(), 0, 8, Some((57, 1)));
    assert_eq!((bits.bit_pos, bits.bit_len), (57, 1));
    let huge = FieldInfo::layout("X".to_string(), 0, u64::MAX, None);
    assert_eq!(huge.bit_len, u64::MAX);
}
