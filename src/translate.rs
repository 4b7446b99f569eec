//! Manual translation of a user-mode virtual address through the four
//! paging levels, for 4 KiB pages.
use vstd::prelude::*;
use crate::address::agrees_with;
use crate::paging::PHYSICAL_FRAME_MASK;

verus! {

/// A paging entry is usable when it is non-zero and its valid bit is set.
pub open spec fn spec_is_valid_entry(entry: u64) -> bool {
    entry != 0 && entry & 1 == 1
}

pub fn is_valid_entry(entry: u64) -> (r: bool)
    ensures
        r == spec_is_valid_entry(entry),
{
    entry != 0 && entry & 1 == 1
}

/// Address of the level-4 entry: frame of `cr3`, index from bits 47:39.
pub open spec fn pml4e_address(cr3: u64, vaddr: u64) -> u64 {
    (cr3 & PHYSICAL_FRAME_MASK) | ((vaddr & 0xFF80_0000_0000) >> 36u64)
}

/// Address of the level-3 entry: frame of the level-4 entry, index from bits 38:30.
pub open spec fn pdpte_address(pml4e: u64, vaddr: u64) -> u64 {
    (pml4e & PHYSICAL_FRAME_MASK) | ((vaddr & 0x7F_C000_0000) >> 27u64)
}

/// Address of the level-2 entry: frame of the level-3 entry, index from bits 29:21.
pub open spec fn pde_address(pdpte: u64, vaddr: u64) -> u64 {
    (pdpte & PHYSICAL_FRAME_MASK) | ((vaddr & 0x3FE0_0000) >> 18u64)
}

/// Address of the level-1 entry: frame of the level-2 entry, index from bits 20:12.
pub open spec fn pte_address(pde: u64, vaddr: u64) -> u64 {
    (pde & PHYSICAL_FRAME_MASK) | ((vaddr & 0x1F_F000) >> 9u64)
}

/// Physical address: frame of the level-1 entry, offset from bits 11:0.
pub open spec fn physical_address(pte: u64, vaddr: u64) -> u64 {
    (pte & PHYSICAL_FRAME_MASK) | (vaddr & 0xFFF)
}

/// The level whose entry was not valid.
#[derive(Clone, Copy, Debug, PartialEq, Eq, Structural)]
pub enum TranslateError {
    InvalidPml4e,
    InvalidPdpte,
    InvalidPde,
    InvalidPte,
}

/// Translation of `vaddr` under the tables at `cr3`, physical memory read as `mem`.
pub open spec fn spec_translate(cr3: u64, vaddr: u64, mem: spec_fn(u64) -> u64) -> Result<u64, TranslateError> {
    let e4 = mem(pml4e_address(cr3, vaddr));
    if !spec_is_valid_entry(e4) {
        Err(TranslateError::InvalidPml4e)
    } else {
        let e3 = mem(pdpte_address(e4, vaddr));
        if !spec_is_valid_entry(e3) {
            Err(TranslateError::InvalidPdpte)
        } else {
            let e2 = mem(pde_address(e3, vaddr));
            if !spec_is_valid_entry(e2) {
                Err(TranslateError::InvalidPde)
            } else {
                let e1 = mem(pte_address(e2, vaddr));
                if !spec_is_valid_entry(e1) {
                    Err(TranslateError::InvalidPte)
                } else {
                    Ok(physical_address(e1, vaddr))
                }
            }
        }
    }
}

/// Content of the level-4 entry for `vaddr`, if valid.
pub fn get_pml4e<F: Fn(u64) -> u64>(cr3: u64, vaddr: u64, read_phys: &F) -> (r: Result<u64, TranslateError>)
    requires
        forall|x: u64| read_phys.requires((x,)),
    ensures
        forall|mem: spec_fn(u64) -> u64|
            agrees_with(read_phys, mem) ==> r == {
                let e = mem(pml4e_address(cr3, vaddr));
                if spec_is_valid_entry(e) {
                    Ok(e)
                } else {
                    Err::<u64, TranslateError>(TranslateError::InvalidPml4e)
                }
            },
{
    let e = read_phys((cr3 & PHYSICAL_FRAME_MASK) | ((vaddr & 0xFF80_0000_0000) >> 36u64));
    if is_valid_entry(e) { Ok(e) } else { Err(TranslateError::InvalidPml4e) }
}

/// Content of the level-3 entry for `vaddr` below `pml4e`, if valid.
pub fn get_pdpte<F: Fn(u64) -> u64>(pml4e: u64, vaddr: u64, read_phys: &F) -> (r: Result<u64, TranslateError>)
    requires
        forall|x: u64| read_phys.requires((x,)),
    ensures
        forall|mem: spec_fn(u64) -> u64|
            agrees_with(read_phys, mem) ==> r == {
                let e = mem(pdpte_address(pml4e, vaddr));
                if spec_is_valid_entry(e) {
                    Ok(e)
                } else {
                    Err::<u64, TranslateError>(TranslateError::InvalidPdpte)
                }
            },
{
    let e = read_phys((pml4e & PHYSICAL_FRAME_MASK) | ((vaddr & 0x7F_C000_0000) >> 27u64));
    if is_valid_entry(e) { Ok(e) } else { Err(TranslateError::InvalidPdpte) }
}

/// Content of the level-2 entry for `vaddr` below `pdpte`, if valid.
pub fn get_pde<F: Fn(u64) -> u64>(pdpte: u64, vaddr: u64, read_phys: &F) -> (r: Result<u64, TranslateError>)
    requires
        forall|x: u64| read_phys.requires((x,)),
    ensures
        forall|mem: spec_fn(u64) -> u64|
            agrees_with(read_phys, mem) ==> r == {
                let e = mem(pde_address(pdpte, vaddr));
                if spec_is_valid_entry(e) {
                    Ok(e)
                } else {
                    Err::<u64, TranslateError>(TranslateError::InvalidPde)
                }
            },
{
    let e = read_phys((pdpte & PHYSICAL_FRAME_MASK) | ((vaddr & 0x3FE0_0000) >> 18u64));
    if is_valid_entry(e) { Ok(e) } else { Err(TranslateError::InvalidPde) }
}

/// Content of the level-1 entry for `vaddr` below `pde`, if valid.
pub fn get_pte<F: Fn(u64) -> u64>(pde: u64, vaddr: u64, read_phys: &F) -> (r: Result<u64, TranslateError>)
    requires
        forall|x: u64| read_phys.requires((x,)),
    ensures
        forall|mem: spec_fn(u64) -> u64|
            agrees_with(read_phys, mem) ==> r == {
                let e = mem(pte_address(pde, vaddr));
                if spec_is_valid_entry(e) {
                    Ok(e)
                } else {
                    Err::<u64, TranslateError>(TranslateError::InvalidPte)
                }
            },
{
    let e = read_phys((pde & PHYSICAL_FRAME_MASK) | ((vaddr & 0x1F_F000) >> 9u64));
    if is_valid_entry(e) { Ok(e) } else { Err(TranslateError::InvalidPte) }
}

/// Physical address of `vaddr` under the tables at `cr3` (4 KiB pages).
pub fn translate_addr<F: Fn(u64) -> u64>(cr3: u64, vaddr: u64, read_phys: &F) -> (r: Result<u64, TranslateError>)
    requires
        forall|x: u64| read_phys.requires((x,)),
    ensures
        forall|mem: spec_fn(u64) -> u64|
            agrees_with(read_phys, mem) ==> r == spec_translate(cr3, vaddr, mem),
{
    let e4 = match get_pml4e(cr3, vaddr, read_phys) {
        Ok(e) => e,
        Err(e) => { return Err(e); },
    };
    let e3 = match get_pdpte(e4, vaddr, read_phys) {
        Ok(e) => e,
        Err(e) => { return Err(e); },
    };
    let e2 = match get_pde(e3, vaddr, read_phys) {
        Ok(e) => e,
        Err(e) => { return Err(e); },
    };
    let e1 = match get_pte(e2, vaddr, read_phys) {
        Ok(e) => e,
        Err(e) => { return Err(e); },
    };
    Ok((e1 & PHYSICAL_FRAME_MASK) | (vaddr & 0xFFF))
}

} // verus!
