//! Reading kernel structure fields through a memory-read callback: field
//! paths are resolved by the symbol store, pointers on the way are followed
//! through the callback, and the field's bits are extracted from the word
//! read at its address.
use vstd::prelude::*;
use crate::address::{Address, agrees_with};
use crate::mask::extract_bits;
use crate::symbols::{PdbStore, SymbolError};

verus! {

/// Address of the field at `path` from `root`, with memory read as `mem`.
pub open spec fn spec_address_of(
    store: &PdbStore,
    root: Address,
    path: Seq<char>,
    mem: spec_fn(u64) -> u64,
) -> Result<u64, SymbolError> {
    match store.spec_decompose(root, path) {
        Ok(t) => Ok(t.0.resolve(mem)),
        Err(e) => Err(e),
    }
}

/// Value of the field at `path` from `root`: its bits in the word at its
/// address, or 0 when the address resolves to null.
pub open spec fn spec_field_value(
    store: &PdbStore,
    root: Address,
    path: Seq<char>,
    mem: spec_fn(u64) -> u64,
) -> Result<u64, SymbolError> {
    match store.spec_decompose(root, path) {
        Ok(t) => {
            let at = t.0.resolve(mem);
            Ok(
                if at == 0 {
                    0
                } else {
                    extract_bits(mem(at), t.1.pos, t.1.len)
                },
            )
        },
        Err(e) => Err(e),
    }
}

/// Address of the field at `path` from `root`; `read(a)` gives the word at `a`.
pub fn address_of<F: Fn(u64) -> u64>(store: &PdbStore, root: &Address, path: &str, read: &F) -> (r:
    Result<u64, SymbolError>)
    requires
        forall|x: u64| read.requires((x,)),
    ensures
        r is Err <==> store.spec_decompose(*root, path@) is Err,
        r matches Err(e) ==> store.spec_decompose(*root, path@) == Err::<
            (Address, crate::mask::BitMask, u64),
            SymbolError,
        >(e),
        forall|mem: spec_fn(u64) -> u64|
            agrees_with(read, mem) ==> r == spec_address_of(store, *root, path@, mem),
{
    match store.decompose(root, path) {
        Ok(t) => Ok(t.0.get(read)),
        Err(e) => Err(e),
    }
}

/// Value of the field at `path` from `root`; `read(a)` gives the word at
/// `a`, and nothing is read at a null address.
pub fn decompose_value<F: Fn(u64) -> u64>(store: &PdbStore, root: &Address, path: &str, read: &F) -> (r:
    Result<u64, SymbolError>)
    requires
        forall|x: u64| read.requires((x,)),
    ensures
        r is Err <==> store.spec_decompose(*root, path@) is Err,
        r matches Err(e) ==> store.spec_decompose(*root, path@) == Err::<
            (Address, crate::mask::BitMask, u64),
            SymbolError,
        >(e),
        forall|mem: spec_fn(u64) -> u64|
            agrees_with(read, mem) ==> r == spec_field_value(store, *root, path@, mem),
{
    match store.decompose(root, path) {
        Ok(t) => {
            let at = t.0.get(read);
            if at == 0 {
                Ok(0)
            } else {
                let word = read(at);
                Ok(t.1.apply(word))
            }
        },
        Err(e) => Err(e),
    }
}

} // verus!
