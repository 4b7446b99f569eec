//! Page-table entries: classification of a raw entry into one of four
//! states, protection and sharedness decisions, and the four-level walk
//! from a directory-table base.
use vstd::prelude::*;
use crate::address::{Address, agrees_with};
use crate::mask::{BitMask, extract_bits};
use crate::symbols::{PdbStore, SymbolError};

verus! {

/// Marker value of a prototype entry whose protection lives in the entry
/// itself (a "virtual address descriptor" prototype).
pub const PROTO_VAD_MARKER: u64 = 0xFFFF_FFFF_0000;

/// Mask of the physical-address bits 12..51 of an entry.
pub const PHYSICAL_FRAME_MASK: u64 = 0xF_FFFF_FFFF_F000;

/// Entries per paging structure.
pub const ENTRIES_PER_TABLE: u64 = 512;

/// Bit of `_MMPFN.u4` that marks a page backed by a prototype entry.
pub const PFN_PROTOTYPE_BIT: u64 = 57;

/// State of a page-table entry.
#[derive(Clone, Copy, Debug, PartialEq, Eq, Structural)]
pub enum PageState {
    Hardware,
    Transition,
    Prototype,
    Pagefile,
}

/// Access class given by the low three bits of a software `Protection`.
#[derive(Clone, Copy, Debug, PartialEq, Eq, Structural)]
pub enum PteProtection {
    MmZeroAccess,
    MmReadonly,
    MmExecute,
    MmExecuteRead,
    MmReadwrite,
    MmWritecopy,
    MmExecuteReadwrite,
    MmExecuteWritecopy,
}

pub open spec fn spec_protection(p: u64) -> PteProtection {
    let a = p % 8;
    if a == 0 {
        PteProtection::MmZeroAccess
    } else if a == 1 {
        PteProtection::MmReadonly
    } else if a == 2 {
        PteProtection::MmExecute
    } else if a == 3 {
        PteProtection::MmExecuteRead
    } else if a == 4 {
        PteProtection::MmReadwrite
    } else if a == 5 {
        PteProtection::MmWritecopy
    } else if a == 6 {
        PteProtection::MmExecuteReadwrite
    } else {
        PteProtection::MmExecuteWritecopy
    }
}

impl PteProtection {
    pub open spec fn spec_is_executable(&self) -> bool {
        match self {
            PteProtection::MmExecute | PteProtection::MmExecuteRead
            | PteProtection::MmExecuteReadwrite | PteProtection::MmExecuteWritecopy => true,
            _ => false,
        }
    }

    pub open spec fn spec_is_writable(&self) -> bool {
        match self {
            PteProtection::MmReadwrite | PteProtection::MmWritecopy
            | PteProtection::MmExecuteReadwrite | PteProtection::MmExecuteWritecopy => true,
            _ => false,
        }
    }

    /// Access class of a `Protection` field: its low three bits.
    pub fn from_protection(p: u64) -> (r: PteProtection)
        ensures
            r == spec_protection(p),
    {
        let a = p % 8;
        if a == 0 {
            PteProtection::MmZeroAccess
        } else if a == 1 {
            PteProtection::MmReadonly
        } else if a == 2 {
            PteProtection::MmExecute
        } else if a == 3 {
            PteProtection::MmExecuteRead
        } else if a == 4 {
            PteProtection::MmReadwrite
        } else if a == 5 {
            PteProtection::MmWritecopy
        } else if a == 6 {
            PteProtection::MmExecuteReadwrite
        } else {
            PteProtection::MmExecuteWritecopy
        }
    }

    pub fn is_executable(&self) -> (r: bool)
        ensures
            r == self.spec_is_executable(),
    {
        match self {
            PteProtection::MmExecute | PteProtection::MmExecuteRead
            | PteProtection::MmExecuteReadwrite | PteProtection::MmExecuteWritecopy => true,
            _ => false,
        }
    }

    pub fn is_writable(&self) -> (r: bool)
        ensures
            r == self.spec_is_writable(),
    {
        match self {
            PteProtection::MmReadwrite | PteProtection::MmWritecopy
            | PteProtection::MmExecuteReadwrite | PteProtection::MmExecuteWritecopy => true,
            _ => false,
        }
    }
}

/// Bit layouts of the entry fields the classifier reads, taken from the
/// symbol store.
#[derive(Clone, Copy, Debug, PartialEq, Eq, Structural)]
pub struct PteLayout {
    /// `_MMPTE_HARDWARE.Valid`
    pub hw_valid: BitMask,
    /// `_MMPTE_HARDWARE.PageFrameNumber`
    pub hw_pfn: BitMask,
    /// `_MMPTE_HARDWARE.NoExecute`
    pub hw_no_execute: BitMask,
    /// `_MMPTE_HARDWARE.Write`
    pub hw_write: BitMask,
    /// `_MMPTE_HARDWARE.CopyOnWrite`
    pub hw_copy_on_write: BitMask,
    /// `_MMPTE_HARDWARE.LargePage`
    pub hw_large_page: BitMask,
    /// `_MMPTE_PROTOTYPE.Prototype`
    pub proto_flag: BitMask,
    /// `_MMPTE_PROTOTYPE.ProtoAddress`
    pub proto_address: BitMask,
    /// `_MMPTE_PROTOTYPE.Protection`
    pub proto_protection: BitMask,
    /// `_MMPTE_TRANSITION.Transition`
    pub trans_flag: BitMask,
    /// `_MMPTE_TRANSITION.PageFrameNumber`
    pub trans_pfn: BitMask,
    /// `_MMPTE_TRANSITION.Protection`
    pub trans_protection: BitMask,
    /// `_MMPTE_SOFTWARE.Protection`
    pub soft_protection: BitMask,
    /// `_MMPTE_SOFTWARE.PageFileHigh`
    pub soft_pagefile_high: BitMask,
    /// `_MMPTE_SUBSECTION.Protection`
    pub subsection_protection: BitMask,
}

pub open spec fn field_of(m: BitMask, raw: u64) -> u64 {
    extract_bits(raw, m.pos, m.len)
}

/// Bit range that the store gives for `path`, read at address 0.
pub open spec fn spec_mask_of(store: &PdbStore, path: Seq<char>) -> Result<BitMask, SymbolError> {
    match store.spec_decompose(Address { base: 0, pointer: None, offset: 0 }, path) {
        Ok(t) => Ok(t.1),
        Err(e) => Err(e),
    }
}

fn mask_of(store: &PdbStore, path: &str) -> (r: Result<BitMask, SymbolError>)
    ensures
        r == spec_mask_of(store, path@),
{
    let root = Address::from_base(0);
    match store.decompose(&root, path) {
        Ok(t) => Ok(t.1),
        Err(e) => Err(e),
    }
}

impl PteLayout {
    /// The layout read from the store's `_MMPTE_*` structures.
    pub fn from_store(store: &PdbStore) -> (r: Result<PteLayout, SymbolError>)
        ensures
            r matches Ok(l) ==> {
                &&& Ok::<BitMask, SymbolError>(l.hw_valid) == spec_mask_of(store, "_MMPTE_HARDWARE.Valid"@)
                &&& Ok::<BitMask, SymbolError>(l.hw_pfn) == spec_mask_of(store, "_MMPTE_HARDWARE.PageFrameNumber"@)
                &&& Ok::<BitMask, SymbolError>(l.hw_no_execute) == spec_mask_of(store, "_MMPTE_HARDWARE.NoExecute"@)
                &&& Ok::<BitMask, SymbolError>(l.hw_write) == spec_mask_of(store, "_MMPTE_HARDWARE.Write"@)
                &&& Ok::<BitMask, SymbolError>(l.hw_copy_on_write) == spec_mask_of(store, "_MMPTE_HARDWARE.CopyOnWrite"@)
                &&& Ok::<BitMask, SymbolError>(l.hw_large_page) == spec_mask_of(store, "_MMPTE_HARDWARE.LargePage"@)
                &&& Ok::<BitMask, SymbolError>(l.proto_flag) == spec_mask_of(store, "_MMPTE_PROTOTYPE.Prototype"@)
                &&& Ok::<BitMask, SymbolError>(l.proto_address) == spec_mask_of(store, "_MMPTE_PROTOTYPE.ProtoAddress"@)
                &&& Ok::<BitMask, SymbolError>(l.proto_protection) == spec_mask_of(store, "_MMPTE_PROTOTYPE.Protection"@)
                &&& Ok::<BitMask, SymbolError>(l.trans_flag) == spec_mask_of(store, "_MMPTE_TRANSITION.Transition"@)
                &&& Ok::<BitMask, SymbolError>(l.trans_pfn) == spec_mask_of(store, "_MMPTE_TRANSITION.PageFrameNumber"@)
                &&& Ok::<BitMask, SymbolError>(l.trans_protection) == spec_mask_of(store, "_MMPTE_TRANSITION.Protection"@)
                &&& Ok::<BitMask, SymbolError>(l.soft_protection) == spec_mask_of(store, "_MMPTE_SOFTWARE.Protection"@)
                &&& Ok::<BitMask, SymbolError>(l.soft_pagefile_high) == spec_mask_of(store, "_MMPTE_SOFTWARE.PageFileHigh"@)
                &&& Ok::<BitMask, SymbolError>(l.subsection_protection) == spec_mask_of(store, "_MMPTE_SUBSECTION.Protection"@)
            },
            r matches Err(e) ==> spec_mask_of(store, "_MMPTE_HARDWARE.Valid"@) == Err::<BitMask, SymbolError>(e)
                || spec_mask_of(store, "_MMPTE_HARDWARE.PageFrameNumber"@) == Err::<BitMask, SymbolError>(e)
                || spec_mask_of(store, "_MMPTE_HARDWARE.NoExecute"@) == Err::<BitMask, SymbolError>(e)
                || spec_mask_of(store, "_MMPTE_HARDWARE.Write"@) == Err::<BitMask, SymbolError>(e)
                || spec_mask_of(store, "_MMPTE_HARDWARE.CopyOnWrite"@) == Err::<BitMask, SymbolError>(e)
                || spec_mask_of(store, "_MMPTE_HARDWARE.LargePage"@) == Err::<BitMask, SymbolError>(e)
                || spec_mask_of(store, "_MMPTE_PROTOTYPE.Prototype"@) == Err::<BitMask, SymbolError>(e)
                || spec_mask_of(store, "_MMPTE_PROTOTYPE.ProtoAddress"@) == Err::<BitMask, SymbolError>(e)
                || spec_mask_of(store, "_MMPTE_PROTOTYPE.Protection"@) == Err::<BitMask, SymbolError>(e)
                || spec_mask_of(store, "_MMPTE_TRANSITION.Transition"@) == Err::<BitMask, SymbolError>(e)
                || spec_mask_of(store, "_MMPTE_TRANSITION.PageFrameNumber"@) == Err::<BitMask, SymbolError>(e)
                || spec_mask_of(store, "_MMPTE_TRANSITION.Protection"@) == Err::<BitMask, SymbolError>(e)
                || spec_mask_of(store, "_MMPTE_SOFTWARE.Protection"@) == Err::<BitMask, SymbolError>(e)
                || spec_mask_of(store, "_MMPTE_SOFTWARE.PageFileHigh"@) == Err::<BitMask, SymbolError>(e)
                || spec_mask_of(store, "_MMPTE_SUBSECTION.Protection"@) == Err::<BitMask, SymbolError>(e),
    {
        let hw_valid = match mask_of(store, "_MMPTE_HARDWARE.Valid") { Ok(m) => m, Err(e) => { return Err(e); } };
        let hw_pfn = match mask_of(store, "_MMPTE_HARDWARE.PageFrameNumber") { Ok(m) => m, Err(e) => { return Err(e); } };
        let hw_no_execute = match mask_of(store, "_MMPTE_HARDWARE.NoExecute") { Ok(m) => m, Err(e) => { return Err(e); } };
        let hw_write = match mask_of(store, "_MMPTE_HARDWARE.Write") { Ok(m) => m, Err(e) => { return Err(e); } };
        let hw_copy_on_write = match mask_of(store, "_MMPTE_HARDWARE.CopyOnWrite") { Ok(m) => m, Err(e) => { return Err(e); } };
        let hw_large_page = match mask_of(store, "_MMPTE_HARDWARE.LargePage") { Ok(m) => m, Err(e) => { return Err(e); } };
        let proto_flag = match mask_of(store, "_MMPTE_PROTOTYPE.Prototype") { Ok(m) => m, Err(e) => { return Err(e); } };
        let proto_address = match mask_of(store, "_MMPTE_PROTOTYPE.ProtoAddress") { Ok(m) => m, Err(e) => { return Err(e); } };
        let proto_protection = match mask_of(store, "_MMPTE_PROTOTYPE.Protection") { Ok(m) => m, Err(e) => { return Err(e); } };
        let trans_flag = match mask_of(store, "_MMPTE_TRANSITION.Transition") { Ok(m) => m, Err(e) => { return Err(e); } };
        let trans_pfn = match mask_of(store, "_MMPTE_TRANSITION.PageFrameNumber") { Ok(m) => m, Err(e) => { return Err(e); } };
        let trans_protection = match mask_of(store, "_MMPTE_TRANSITION.Protection") { Ok(m) => m, Err(e) => { return Err(e); } };
        let soft_protection = match mask_of(store, "_MMPTE_SOFTWARE.Protection") { Ok(m) => m, Err(e) => { return Err(e); } };
        let soft_pagefile_high = match mask_of(store, "_MMPTE_SOFTWARE.PageFileHigh") { Ok(m) => m, Err(e) => { return Err(e); } };
        let subsection_protection = match mask_of(store, "_MMPTE_SUBSECTION.Protection") { Ok(m) => m, Err(e) => { return Err(e); } };
        Ok(PteLayout {
            hw_valid,
            hw_pfn,
            hw_no_execute,
            hw_write,
            hw_copy_on_write,
            hw_large_page,
            proto_flag,
            proto_address,
            proto_protection,
            trans_flag,
            trans_pfn,
            trans_protection,
            soft_protection,
            soft_pagefile_high,
            subsection_protection,
        })
    }

    /// State of a raw entry: probe `Valid`, then `Prototype`, then
    /// `Transition`; an entry with none of them points into the pagefile.
    pub open spec fn spec_state(&self, raw: u64) -> PageState {
        if field_of(self.hw_valid, raw) != 0 {
            PageState::Hardware
        } else if field_of(self.proto_flag, raw) != 0 {
            PageState::Prototype
        } else if field_of(self.trans_flag, raw) != 0 {
            PageState::Transition
        } else {
            PageState::Pagefile
        }
    }

    /// Executable right of an entry that needs no further read.
    pub open spec fn local_executable(&self, state: PageState, raw: u64) -> bool {
        match state {
            PageState::Hardware => field_of(self.hw_no_execute, raw) == 0,
            PageState::Transition => spec_protection(field_of(self.trans_protection, raw)).spec_is_executable(),
            PageState::Prototype => spec_protection(field_of(self.subsection_protection, raw)).spec_is_executable(),
            PageState::Pagefile => field_of(self.soft_pagefile_high, raw) != 0 && spec_protection(
                field_of(self.soft_protection, raw),
            ).spec_is_executable(),
        }
    }

    /// Writable right of an entry that needs no further read.
    pub open spec fn local_writable(&self, state: PageState, raw: u64) -> bool {
        match state {
            PageState::Hardware => field_of(self.hw_write, raw) != 0 || field_of(self.hw_copy_on_write, raw) != 0,
            PageState::Transition => spec_protection(field_of(self.trans_protection, raw)).spec_is_writable(),
            PageState::Prototype => spec_protection(field_of(self.subsection_protection, raw)).spec_is_writable(),
            PageState::Pagefile => field_of(self.soft_pagefile_high, raw) != 0 && spec_protection(
                field_of(self.soft_protection, raw),
            ).spec_is_writable(),
        }
    }

    /// Protection decision for an entry; a prototype entry without local
    /// protection follows its prototype entry (read from `mem`) one hop.
    /// `writable` selects the write right, else the execute right.
    pub open spec fn spec_access(&self, pte: Pte, mem: spec_fn(u64) -> u64, writable: bool) -> bool {
        let local = |state: PageState, raw: u64|
            if writable {
                self.local_writable(state, raw)
            } else {
                self.local_executable(state, raw)
            };
        match pte.state {
            PageState::Prototype => {
                let target = field_of(self.proto_address, pte.value);
                if target == PROTO_VAD_MARKER {
                    let p = spec_protection(field_of(self.soft_protection, pte.value));
                    if writable { p.spec_is_writable() } else { p.spec_is_executable() }
                } else if field_of(self.proto_protection, pte.value) != 0 {
                    let p = spec_protection(field_of(self.proto_protection, pte.value));
                    if writable { p.spec_is_writable() } else { p.spec_is_executable() }
                } else {
                    let raw = mem(target);
                    local(self.spec_state(raw), raw)
                }
            },
            _ => local(pte.state, pte.value),
        }
    }
}

/// Exactly one of the four states describes any 64-bit entry.
pub proof fn lemma_state_exclusive(layout: PteLayout, raw: u64)
    ensures
        ({
            let valid = field_of(layout.hw_valid, raw) != 0;
            let proto = field_of(layout.proto_flag, raw) != 0;
            let trans = field_of(layout.trans_flag, raw) != 0;
            let hardware = valid;
            let prototype = !valid && proto;
            let transition = !valid && !proto && trans;
            let pagefile = !valid && !proto && !trans;
            &&& (hardware || prototype || transition || pagefile)
            &&& !(hardware && prototype) && !(hardware && transition) && !(hardware && pagefile)
            &&& !(prototype && transition) && !(prototype && pagefile)
            &&& !(transition && pagefile)
            &&& (layout.spec_state(raw) == PageState::Hardware <==> hardware)
            &&& (layout.spec_state(raw) == PageState::Prototype <==> prototype)
            &&& (layout.spec_state(raw) == PageState::Transition <==> transition)
            &&& (layout.spec_state(raw) == PageState::Pagefile <==> pagefile)
        }),
{
}

/// Why a query has no answer for an entry.
#[derive(Clone, Copy, Debug, PartialEq, Eq, Structural)]
pub enum PteError {
    /// Prototype and pagefile entries carry no page-frame number.
    NoPageFrame,
}

/// A page-table entry read at physical `address` with raw `value`.
#[derive(Clone, Copy, Debug, PartialEq, Eq, Structural)]
pub struct Pte {
    pub state: PageState,
    pub address: u64,
    pub value: u64,
}

impl Pte {
    /// Classifies the raw entry `value` found at `address`.
    pub fn from_value_at(layout: &PteLayout, address: u64, value: u64) -> (r: Pte)
        ensures
            r == (Pte { state: layout.spec_state(value), address, value }),
    {
        let state = if layout.hw_valid.apply(value) != 0 {
            PageState::Hardware
        } else if layout.proto_flag.apply(value) != 0 {
            PageState::Prototype
        } else if layout.trans_flag.apply(value) != 0 {
            PageState::Transition
        } else {
            PageState::Pagefile
        };
        Pte { state, address, value }
    }

    /// Classifies a raw entry that was not read from memory (address 0).
    pub fn from_value(layout: &PteLayout, value: u64) -> (r: Pte)
        ensures
            r == (Pte { state: layout.spec_state(value), address: 0, value }),
    {
        Pte::from_value_at(layout, 0, value)
    }

    /// Reads the entry at physical `addr` through `read_phys` and classifies it.
    pub fn from_addr<F: Fn(u64) -> u64>(layout: &PteLayout, addr: u64, read_phys: &F) -> (r: Pte)
        requires
            forall|x: u64| read_phys.requires((x,)),
        ensures
            r.address == addr,
            read_phys.ensures((addr,), r.value),
            r.state == layout.spec_state(r.value),
            forall|mem: spec_fn(u64) -> u64| agrees_with(read_phys, mem) ==> r.value == mem(addr),
    {
        let value = read_phys(addr);
        Pte::from_value_at(layout, addr, value)
    }

    pub fn is_present(&self) -> (r: bool)
        ensures
            r == (self.state == PageState::Hardware),
    {
        match self.state {
            PageState::Hardware => true,
            _ => false,
        }
    }

    /// Page-frame number of a hardware or transition entry.
    pub fn get_pfn(&self, layout: &PteLayout) -> (r: Result<u64, PteError>)
        ensures
            r == match self.state {
                PageState::Hardware => Ok(field_of(layout.hw_pfn, self.value)),
                PageState::Transition => Ok(field_of(layout.trans_pfn, self.value)),
                _ => Err::<u64, PteError>(PteError::NoPageFrame),
            },
    {
        match self.state {
            PageState::Hardware => Ok(layout.hw_pfn.apply(self.value)),
            PageState::Transition => Ok(layout.trans_pfn.apply(self.value)),
            _ => Err(PteError::NoPageFrame),
        }
    }

    /// Large-page bit of a hardware entry; other entries are never large.
    pub fn is_large_page(&self, layout: &PteLayout) -> (r: bool)
        ensures
            r == (self.state == PageState::Hardware && field_of(layout.hw_large_page, self.value) != 0),
    {
        match self.state {
            PageState::Hardware => layout.hw_large_page.apply(self.value) != 0,
            _ => false,
        }
    }

    fn local_access(layout: &PteLayout, state: PageState, raw: u64, writable: bool) -> (r: bool)
        ensures
            r == if writable {
                layout.local_writable(state, raw)
            } else {
                layout.local_executable(state, raw)
            },
    {
        match state {
            PageState::Hardware => {
                if writable {
                    layout.hw_write.apply(raw) != 0 || layout.hw_copy_on_write.apply(raw) != 0
                } else {
                    layout.hw_no_execute.apply(raw) == 0
                }
            },
            PageState::Transition => {
                let p = PteProtection::from_protection(layout.trans_protection.apply(raw));
                if writable { p.is_writable() } else { p.is_executable() }
            },
            PageState::Prototype => {
                let p = PteProtection::from_protection(layout.subsection_protection.apply(raw));
                if writable { p.is_writable() } else { p.is_executable() }
            },
            PageState::Pagefile => {
                if layout.soft_pagefile_high.apply(raw) != 0 {
                    let p = PteProtection::from_protection(layout.soft_protection.apply(raw));
                    if writable { p.is_writable() } else { p.is_executable() }
                } else {
                    false
                }
            },
        }
    }

    fn access<F: Fn(u64) -> u64>(&self, layout: &PteLayout, read_phys: &F, writable: bool) -> (r: bool)
        requires
            forall|x: u64| read_phys.requires((x,)),
        ensures
            forall|mem: spec_fn(u64) -> u64|
                agrees_with(read_phys, mem) ==> r == layout.spec_access(*self, mem, writable),
    {
        match self.state {
            PageState::Prototype => {
                let target = layout.proto_address.apply(self.value);
                if target == PROTO_VAD_MARKER {
                    let p = PteProtection::from_protection(layout.soft_protection.apply(self.value));
                    if writable { p.is_writable() } else { p.is_executable() }
                } else {
                    let local = layout.proto_protection.apply(self.value);
                    if local != 0 {
                        let p = PteProtection::from_protection(local);
                        if writable { p.is_writable() } else { p.is_executable() }
                    } else {
                        let proto = Pte::from_addr(layout, target, read_phys);
                        Pte::local_access(layout, proto.state, proto.value, writable)
                    }
                }
            },
            _ => Pte::local_access(layout, self.state, self.value, writable),
        }
    }

    /// Whether the page may be executed; a prototype entry without local
    /// protection is decided by its prototype entry, read via `read_phys`.
    pub fn is_executable<F: Fn(u64) -> u64>(&self, layout: &PteLayout, read_phys: &F) -> (r: bool)
        requires
            forall|x: u64| read_phys.requires((x,)),
        ensures
            forall|mem: spec_fn(u64) -> u64|
                agrees_with(read_phys, mem) ==> r == layout.spec_access(*self, mem, false),
    {
        self.access(layout, read_phys, false)
    }

    /// Whether the page may be written (for a hardware entry: the write bit
    /// or the copy-on-write bit, so that writable shared pages count).
    pub fn is_writable<F: Fn(u64) -> u64>(&self, layout: &PteLayout, read_phys: &F) -> (r: bool)
        requires
            forall|x: u64| read_phys.requires((x,)),
        ensures
            forall|mem: spec_fn(u64) -> u64|
                agrees_with(read_phys, mem) ==> r == layout.spec_access(*self, mem, true),
    {
        self.access(layout, read_phys, true)
    }
}

/// Physical address of entry `index` of the table whose frame is `pfn`.
pub open spec fn child_address(pfn: u64, index: u64) -> u64 {
    (pfn << 12u64) | (index << 3u64)
}

/// Physical address of entry `index` of the top-level table at `cr3`.
pub open spec fn top_address(cr3: u64, index: u64) -> u64 {
    (cr3 & PHYSICAL_FRAME_MASK) | (index << 3u64)
}

pub open spec fn is_present_entry(p: Pte) -> bool {
    p.state == PageState::Hardware
}

/// Physical address of entry `i` of a table: at the top level `frame` is
/// the directory-table base, below it the page-frame number of the parent.
pub open spec fn entry_address(top: bool, frame: u64, i: u64) -> u64 {
    if top {
        top_address(frame, i)
    } else {
        child_address(frame, i)
    }
}

/// The first `n` entries of a table (see `entry_address`), as read from `mem`.
pub open spec fn table_entries(
    layout: PteLayout,
    mem: spec_fn(u64) -> u64,
    top: bool,
    frame: u64,
    n: nat,
) -> Seq<Pte> {
    Seq::new(
        n,
        |i: int|
            Pte {
                state: layout.spec_state(mem(entry_address(top, frame, i as u64))),
                address: entry_address(top, frame, i as u64),
                value: mem(entry_address(top, frame, i as u64)),
            },
    )
}

/// Number of top-level entries that map user-mode addresses: entry `i`
/// covers addresses from `i << 39`, and user mode ends at 0x7FFF_FFFF_FFFF.
pub const USER_TOP_ENTRIES: u64 = 256;

/// The top-level entries below `USER_TOP_ENTRIES` are exactly those whose
/// range starts in user mode.
pub proof fn lemma_user_top_entries(i: u64)
    requires
        i < ENTRIES_PER_TABLE,
    ensures
        (i < USER_TOP_ENTRIES) <==> ((i << 39u64) <= 0x7FFF_FFFF_FFFFu64),
{
    assert((i < 512u64) ==> ((i < 256u64) <==> ((i << 39u64) <= 0x7FFF_FFFF_FFFFu64))) by (bit_vector);
}

fn entry_address_of(top: bool, frame: u64, index: u64) -> (r: u64)
    ensures
        r == entry_address(top, frame, index),
{
    if top {
        (frame & PHYSICAL_FRAME_MASK) | (index << 3u64)
    } else {
        (frame << 12u64) | (index << 3u64)
    }
}

fn read_table<F: Fn(u64) -> u64>(
    layout: &PteLayout,
    frame: u64,
    top: bool,
    count: u64,
    keep_absent: bool,
    read_phys: &F,
) -> (r: Vec<Pte>)
    requires
        forall|x: u64| read_phys.requires((x,)),
        count <= ENTRIES_PER_TABLE,
    ensures
        !keep_absent ==> forall|i: int| 0 <= i < r@.len() ==> is_present_entry(#[trigger] r@[i]),
        forall|mem: spec_fn(u64) -> u64|
            agrees_with(read_phys, mem) ==> r@ == if keep_absent {
                table_entries(*layout, mem, top, frame, count as nat)
            } else {
                table_entries(*layout, mem, top, frame, count as nat).filter(
                    |p: Pte| is_present_entry(p),
                )
            },
{
    let mut out: Vec<Pte> = Vec::new();
    let mut index: u64 = 0;
    proof {
        reveal(Seq::filter);
        assert forall|mem: spec_fn(u64) -> u64| agrees_with(read_phys, mem) implies out@ == if keep_absent {
            table_entries(*layout, mem, top, frame, 0)
        } else {
            table_entries(*layout, mem, top, frame, 0).filter(|p: Pte| is_present_entry(p))
        } by {
            assert(table_entries(*layout, mem, top, frame, 0) =~= Seq::<Pte>::empty());
        }
    }
    while index < count
        invariant
            forall|x: u64| read_phys.requires((x,)),
            index <= count <= ENTRIES_PER_TABLE,
            !keep_absent ==> forall|i: int| 0 <= i < out@.len() ==> is_present_entry(#[trigger] out@[i]),
            forall|mem: spec_fn(u64) -> u64|
                agrees_with(read_phys, mem) ==> out@ == if keep_absent {
                    table_entries(*layout, mem, top, frame, index as nat)
                } else {
                    table_entries(*layout, mem, top, frame, index as nat).filter(
                        |p: Pte| is_present_entry(p),
                    )
                },
        decreases count - index,
    {
        let addr = entry_address_of(top, frame, index);
        let entry = Pte::from_addr(layout, addr, read_phys);
        if keep_absent || entry.is_present() {
            out.push(entry);
        }
        proof {
            reveal(Seq::filter);
            assert forall|mem: spec_fn(u64) -> u64| agrees_with(read_phys, mem) implies out@ == if keep_absent {
                table_entries(*layout, mem, top, frame, (index + 1) as nat)
            } else {
                table_entries(*layout, mem, top, frame, (index + 1) as nat).filter(
                    |p: Pte| is_present_entry(p),
                )
            } by {
                let grown = table_entries(*layout, mem, top, frame, (index + 1) as nat);
                assert(grown.drop_last() =~= table_entries(*layout, mem, top, frame, index as nat));
                assert(grown.last() == entry);
                if keep_absent {
                    assert(out@ =~= grown);
                }
            }
        }
        index += 1;
    }
    out
}

/// The present top-level entries that map user-mode addresses.
pub fn list_all_pml4e<F: Fn(u64) -> u64>(layout: &PteLayout, cr3: u64, read_phys: &F) -> (r: Vec<Pte>)
    requires
        forall|x: u64| read_phys.requires((x,)),
    ensures
        forall|i: int| 0 <= i < r@.len() ==> is_present_entry(#[trigger] r@[i]),
        forall|mem: spec_fn(u64) -> u64|
            agrees_with(read_phys, mem) ==> r@ == table_entries(
                *layout,
                mem,
                true,
                cr3,
                USER_TOP_ENTRIES as nat,
            ).filter(|p: Pte| is_present_entry(p)),
{
    read_table(layout, cr3, true, USER_TOP_ENTRIES, false, read_phys)
}

/// Entries below a present entry.  A large page (1 GiB at the PDPT level,
/// 2 MiB at the PD level) is itself the leaf: the result is that entry alone
/// and nothing below it is read.  Otherwise the result is the 512 entries of
/// the next table (only the present ones unless `keep_absent`).
pub fn descend<F: Fn(u64) -> u64>(layout: &PteLayout, entry: &Pte, keep_absent: bool, read_phys: &F) -> (r: Vec<Pte>)
    requires
        forall|x: u64| read_phys.requires((x,)),
        entry.state == PageState::Hardware,
    ensures
        !keep_absent ==> forall|i: int| 0 <= i < r@.len() ==> is_present_entry(#[trigger] r@[i]),
        field_of(layout.hw_large_page, entry.value) != 0 ==> r@ == seq![*entry],
        field_of(layout.hw_large_page, entry.value) == 0 ==> forall|mem: spec_fn(u64) -> u64|
            agrees_with(read_phys, mem) ==> r@ == if keep_absent {
                table_entries(
                    *layout,
                    mem,
                    false,
                    field_of(layout.hw_pfn, entry.value),
                    ENTRIES_PER_TABLE as nat,
                )
            } else {
                table_entries(
                    *layout,
                    mem,
                    false,
                    field_of(layout.hw_pfn, entry.value),
                    ENTRIES_PER_TABLE as nat,
                ).filter(|p: Pte| is_present_entry(p))
            },
{
    if entry.is_large_page(layout) {
        let mut r: Vec<Pte> = Vec::new();
        r.push(*entry);
        assert(r@ =~= seq![*entry]);
        assert(is_present_entry(r@[0]));
        r
    } else {
        let pfn = layout.hw_pfn.apply(entry.value);
        read_table(layout, pfn, false, ENTRIES_PER_TABLE, keep_absent, read_phys)
    }
}

/// What lies below entry `e` as read from `mem`: the entry itself when it
/// maps a large page (and large pages are honoured at this level), else the
/// entries of its table (the present ones unless `keep_absent`).
pub open spec fn below(
    layout: PteLayout,
    mem: spec_fn(u64) -> u64,
    e: Pte,
    keep_absent: bool,
    honor_large: bool,
) -> Seq<Pte> {
    if honor_large && field_of(layout.hw_large_page, e.value) != 0 {
        seq![e]
    } else {
        let t = table_entries(layout, mem, false, field_of(layout.hw_pfn, e.value), ENTRIES_PER_TABLE as nat);
        if keep_absent {
            t
        } else {
            t.filter(|p: Pte| is_present_entry(p))
        }
    }
}

/// `below` of every entry of `s`, concatenated in order.
pub open spec fn expand_all(
    layout: PteLayout,
    mem: spec_fn(u64) -> u64,
    s: Seq<Pte>,
    keep_absent: bool,
    honor_large: bool,
) -> Seq<Pte>
    decreases s.len(),
{
    if s.len() == 0 {
        Seq::empty()
    } else {
        expand_all(layout, mem, s.drop_last(), keep_absent, honor_large) + below(
            layout,
            mem,
            s.last(),
            keep_absent,
            honor_large,
        )
    }
}

/// Present user-mode top-level entries.
pub open spec fn spec_pml4es(layout: PteLayout, mem: spec_fn(u64) -> u64, cr3: u64) -> Seq<Pte> {
    table_entries(layout, mem, true, cr3, USER_TOP_ENTRIES as nat).filter(|p: Pte| is_present_entry(p))
}

/// Present second-level entries.
pub open spec fn spec_pdptes(layout: PteLayout, mem: spec_fn(u64) -> u64, cr3: u64) -> Seq<Pte> {
    expand_all(layout, mem, spec_pml4es(layout, mem, cr3), false, false)
}

/// Present third-level entries, and second-level entries mapping 1 GiB pages.
pub open spec fn spec_pdes(layout: PteLayout, mem: spec_fn(u64) -> u64, cr3: u64) -> Seq<Pte> {
    expand_all(layout, mem, spec_pdptes(layout, mem, cr3), false, true)
}

/// Every leaf: all last-level entries, and the entries mapping large pages.
pub open spec fn spec_ptes(layout: PteLayout, mem: spec_fn(u64) -> u64, cr3: u64) -> Seq<Pte> {
    expand_all(layout, mem, spec_pdes(layout, mem, cr3), true, true)
}

fn expand_level<F: Fn(u64) -> u64>(
    layout: &PteLayout,
    entries: &Vec<Pte>,
    keep_absent: bool,
    honor_large: bool,
    read_phys: &F,
) -> (r: Vec<Pte>)
    requires
        forall|x: u64| read_phys.requires((x,)),
        forall|i: int| 0 <= i < entries@.len() ==> is_present_entry(#[trigger] entries@[i]),
    ensures
        !keep_absent ==> forall|i: int| 0 <= i < r@.len() ==> is_present_entry(#[trigger] r@[i]),
        forall|mem: spec_fn(u64) -> u64|
            agrees_with(read_phys, mem) ==> r@ == expand_all(
                *layout,
                mem,
                entries@,
                keep_absent,
                honor_large,
            ),
{
    let mut out: Vec<Pte> = Vec::new();
    let mut k: usize = 0;
    while k < entries.len()
        invariant
            forall|x: u64| read_phys.requires((x,)),
            forall|i: int| 0 <= i < entries@.len() ==> is_present_entry(#[trigger] entries@[i]),
            k <= entries@.len(),
            !keep_absent ==> forall|i: int| 0 <= i < out@.len() ==> is_present_entry(#[trigger] out@[i]),
            forall|mem: spec_fn(u64) -> u64|
                agrees_with(read_phys, mem) ==> out@ == expand_all(
                    *layout,
                    mem,
                    entries@.take(k as int),
                    keep_absent,
                    honor_large,
                ),
        decreases entries@.len() - k,
    {
        let e = entries[k];
        let mut sub = if honor_large {
            descend(layout, &e, keep_absent, read_phys)
        } else {
            let pfn = layout.hw_pfn.apply(e.value);
            read_table(layout, pfn, false, ENTRIES_PER_TABLE, keep_absent, read_phys)
        };
        let ghost before = out@;
        let ghost got = sub@;
        out.append(&mut sub);
        proof {
            assert forall|mem: spec_fn(u64) -> u64| agrees_with(read_phys, mem) implies out@
                == expand_all(*layout, mem, entries@.take(k + 1), keep_absent, honor_large) by {
                let next = entries@.take(k + 1);
                assert(next.drop_last() =~= entries@.take(k as int));
                assert(next.last() == e);
                assert(got == below(*layout, mem, e, keep_absent, honor_large));
            }
        }
        k += 1;
    }
    assert(entries@.take(entries@.len() as int) =~= entries@);
    out
}

/// Present second-level entries of the user-mode range.
pub fn list_all_pdpte<F: Fn(u64) -> u64>(layout: &PteLayout, cr3: u64, read_phys: &F) -> (r: Vec<Pte>)
    requires
        forall|x: u64| read_phys.requires((x,)),
    ensures
        forall|i: int| 0 <= i < r@.len() ==> is_present_entry(#[trigger] r@[i]),
        forall|mem: spec_fn(u64) -> u64|
            agrees_with(read_phys, mem) ==> r@ == spec_pdptes(*layout, mem, cr3),
{
    let top = list_all_pml4e(layout, cr3, read_phys);
    expand_level(layout, &top, false, false, read_phys)
}

/// Present third-level entries, with the second-level entries that map
/// 1 GiB pages in their place.
pub fn list_all_pde<F: Fn(u64) -> u64>(layout: &PteLayout, cr3: u64, read_phys: &F) -> (r: Vec<Pte>)
    requires
        forall|x: u64| read_phys.requires((x,)),
    ensures
        forall|i: int| 0 <= i < r@.len() ==> is_present_entry(#[trigger] r@[i]),
        forall|mem: spec_fn(u64) -> u64|
            agrees_with(read_phys, mem) ==> r@ == spec_pdes(*layout, mem, cr3),
{
    let upper = list_all_pdpte(layout, cr3, read_phys);
    expand_level(layout, &upper, false, true, read_phys)
}

/// Every leaf of the user-mode range: all entries of the last-level tables
/// (present or not), and the entries that map large pages.
pub fn list_all_pte<F: Fn(u64) -> u64>(layout: &PteLayout, cr3: u64, read_phys: &F) -> (r: Vec<Pte>)
    requires
        forall|x: u64| read_phys.requires((x,)),
    ensures
        forall|mem: spec_fn(u64) -> u64|
            agrees_with(read_phys, mem) ==> r@ == spec_ptes(*layout, mem, cr3),
{
    let upper = list_all_pde(layout, cr3, read_phys);
    expand_level(layout, &upper, true, true, read_phys)
}

/// Entry of the page-frame database that describes one physical page.
#[derive(Clone, Copy, Debug, PartialEq, Eq, Structural)]
pub struct MMPFN {
    pub index: u64,
    pub address: u64,
}

impl MMPFN {
    /// Entry `index` of the database at `database` whose entries are
    /// `entry_size` bytes long.
    pub fn new(database: u64, index: u64, entry_size: u64) -> (r: MMPFN)
        ensures
            r.index == index,
            r.address == database.wrapping_add(index.wrapping_mul(entry_size)),
    {
        MMPFN { index, address: database.wrapping_add(index.wrapping_mul(entry_size)) }
    }

    /// Whether the page is shared memory: the `PrototypePte` bit of the
    /// entry's `u4` word, read at `u4_offset` from the entry.
    pub fn is_shared_mem<G: Fn(u64) -> u64>(&self, u4_offset: u64, read_virt: &G) -> (r: bool)
        requires
            forall|x: u64| read_virt.requires((x,)),
        ensures
            forall|mem: spec_fn(u64) -> u64|
                agrees_with(read_virt, mem) ==> r == (extract_bits(
                    mem(self.address.wrapping_add(u4_offset)),
                    PFN_PROTOTYPE_BIT,
                    1,
                ) != 0),
    {
        let u4 = read_virt(self.address.wrapping_add(u4_offset));
        let bit = BitMask { pos: PFN_PROTOTYPE_BIT, len: 1 };
        bit.apply(u4) != 0
    }
}

/// Where the page-frame database lies and how its entries are laid out.
#[derive(Clone, Copy, Debug, PartialEq, Eq, Structural)]
pub struct PfnDatabase {
    pub base: u64,
    pub entry_size: u64,
    pub u4_offset: u64,
}

impl PfnDatabase {
    /// The page with frame `pfn` is shared memory, reading the database from `mem`.
    pub open spec fn spec_shared(&self, pfn: u64, mem: spec_fn(u64) -> u64) -> bool {
        extract_bits(
            mem(self.base.wrapping_add(pfn.wrapping_mul(self.entry_size)).wrapping_add(self.u4_offset)),
            PFN_PROTOTYPE_BIT,
            1,
        ) != 0
    }
}

/// Executable and writable.
pub fn is_rwx_page<F: Fn(u64) -> u64>(layout: &PteLayout, pte: &Pte, read_phys: &F) -> (r: bool)
    requires
        forall|x: u64| read_phys.requires((x,)),
    ensures
        forall|mem: spec_fn(u64) -> u64|
            agrees_with(read_phys, mem) ==> r == (layout.spec_access(*pte, mem, false)
                && layout.spec_access(*pte, mem, true)),
{
    pte.is_executable(layout, read_phys) && pte.is_writable(layout, read_phys)
}

/// Executable and not shared: private executable memory.
pub fn is_shared_exec_page<F: Fn(u64) -> u64, G: Fn(u64) -> u64>(
    layout: &PteLayout,
    pte: &Pte,
    pfn_entry: &MMPFN,
    u4_offset: u64,
    read_phys: &F,
    read_virt: &G,
) -> (r: bool)
    requires
        forall|x: u64| read_phys.requires((x,)),
        forall|x: u64| read_virt.requires((x,)),
    ensures
        forall|pmem: spec_fn(u64) -> u64, vmem: spec_fn(u64) -> u64|
            agrees_with(read_phys, pmem) && agrees_with(read_virt, vmem) ==> r == (
            layout.spec_access(*pte, pmem, false) && !(extract_bits(
                vmem(pfn_entry.address.wrapping_add(u4_offset)),
                PFN_PROTOTYPE_BIT,
                1,
            ) != 0)),
{
    pte.is_executable(layout, read_phys) && !pfn_entry.is_shared_mem(u4_offset, read_virt)
}

/// Page-frame number of a present entry, or 0 when it has none.
fn pfn_or_zero(layout: &PteLayout, pte: &Pte) -> (r: u64)
    ensures
        r == match pte.state {
            PageState::Hardware => field_of(layout.hw_pfn, pte.value),
            PageState::Transition => field_of(layout.trans_pfn, pte.value),
            _ => 0,
        },
{
    match pte.get_pfn(layout) {
        Ok(p) => p,
        Err(_) => 0,
    }
}

/// Selection made by the injected-code scans on one leaf.
pub open spec fn spec_selected(
    layout: PteLayout,
    pte: Pte,
    pmem: spec_fn(u64) -> u64,
    vmem: spec_fn(u64) -> u64,
    db: PfnDatabase,
    rwx: bool,
    private_exec: bool,
) -> bool {
    let pfn = field_of(layout.hw_pfn, pte.value);
    let exec = layout.spec_access(pte, pmem, false);
    let write = layout.spec_access(pte, pmem, true);
    is_present_entry(pte) && ((rwx && exec && write) || (private_exec && pfn != 0 && exec
        && !db.spec_shared(pfn, vmem)))
}

fn select_pages<F: Fn(u64) -> u64, G: Fn(u64) -> u64>(
    layout: &PteLayout,
    leaves: &Vec<Pte>,
    db: &PfnDatabase,
    rwx: bool,
    private_exec: bool,
    read_phys: &F,
    read_virt: &G,
) -> (r: Vec<Pte>)
    requires
        forall|x: u64| read_phys.requires((x,)),
        forall|x: u64| read_virt.requires((x,)),
    ensures
        forall|pmem: spec_fn(u64) -> u64, vmem: spec_fn(u64) -> u64|
            agrees_with(read_phys, pmem) && agrees_with(read_virt, vmem) ==> r@ == leaves@.filter(
                |p: Pte| spec_selected(*layout, p, pmem, vmem, *db, rwx, private_exec),
            ),
{
    let mut out: Vec<Pte> = Vec::new();
    let mut k: usize = 0;
    proof {
        reveal(Seq::filter);
        assert(leaves@.take(0) =~= Seq::<Pte>::empty());
    }
    while k < leaves.len()
        invariant
            forall|x: u64| read_phys.requires((x,)),
            forall|x: u64| read_virt.requires((x,)),
            k <= leaves@.len(),
            forall|pmem: spec_fn(u64) -> u64, vmem: spec_fn(u64) -> u64|
                agrees_with(read_phys, pmem) && agrees_with(read_virt, vmem) ==> out@
                    == leaves@.take(k as int).filter(
                    |p: Pte| spec_selected(*layout, p, pmem, vmem, *db, rwx, private_exec),
                ),
        decreases leaves@.len() - k,
    {
        let pte = leaves[k];
        let mut keep = false;
        if pte.is_present() {
            let exec = pte.is_executable(layout, read_phys);
            if rwx && exec && pte.is_writable(layout, read_phys) {
                keep = true;
            } else if private_exec {
                let pfn = pfn_or_zero(layout, &pte);
                if pfn != 0 && exec {
                    let entry = MMPFN::new(db.base, pfn, db.entry_size);
                    keep = !entry.is_shared_mem(db.u4_offset, read_virt);
                }
            }
        }
        if keep {
            out.push(pte);
        }
        proof {
            reveal(Seq::filter);
            assert forall|pmem: spec_fn(u64) -> u64, vmem: spec_fn(u64) -> u64|
                agrees_with(read_phys, pmem) && agrees_with(read_virt, vmem) implies out@
                    == leaves@.take(k + 1).filter(
                    |p: Pte| spec_selected(*layout, p, pmem, vmem, *db, rwx, private_exec),
                ) by {
                let next = leaves@.take(k + 1);
                assert(next.drop_last() =~= leaves@.take(k as int));
                assert(next.last() == pte);
                assert(keep == spec_selected(*layout, pte, pmem, vmem, *db, rwx, private_exec));
            }
        }
        k += 1;
    }
    assert(leaves@.take(leaves@.len() as int) =~= leaves@);
    out
}

/// Present pages that are both writable and executable.
pub fn scan_rwx_pages<F: Fn(u64) -> u64, G: Fn(u64) -> u64>(
    layout: &PteLayout,
    cr3: u64,
    db: &PfnDatabase,
    read_phys: &F,
    read_virt: &G,
) -> (r: Vec<Pte>)
    requires
        forall|x: u64| read_phys.requires((x,)),
        forall|x: u64| read_virt.requires((x,)),
    ensures
        forall|pmem: spec_fn(u64) -> u64, vmem: spec_fn(u64) -> u64|
            agrees_with(read_phys, pmem) && agrees_with(read_virt, vmem) ==> r@ == spec_ptes(
                *layout,
                pmem,
                cr3,
            ).filter(|p: Pte| spec_selected(*layout, p, pmem, vmem, *db, true, false)),
{
    let leaves = list_all_pte(layout, cr3, read_phys);
    select_pages(layout, &leaves, db, true, false, read_phys, read_virt)
}

/// Present executable pages with a page frame that is not shared memory.
pub fn scan_private_exec_pages<F: Fn(u64) -> u64, G: Fn(u64) -> u64>(
    layout: &PteLayout,
    cr3: u64,
    db: &PfnDatabase,
    read_phys: &F,
    read_virt: &G,
) -> (r: Vec<Pte>)
    requires
        forall|x: u64| read_phys.requires((x,)),
        forall|x: u64| read_virt.requires((x,)),
    ensures
        forall|pmem: spec_fn(u64) -> u64, vmem: spec_fn(u64) -> u64|
            agrees_with(read_phys, pmem) && agrees_with(read_virt, vmem) ==> r@ == spec_ptes(
                *layout,
                pmem,
                cr3,
            ).filter(|p: Pte| spec_selected(*layout, p, pmem, vmem, *db, false, true)),
{
    let leaves = list_all_pte(layout, cr3, read_phys);
    select_pages(layout, &leaves, db, false, true, read_phys, read_virt)
}

/// Pages that either scan selects: the injected-code heuristic.
pub fn scan_injected_pages<F: Fn(u64) -> u64, G: Fn(u64) -> u64>(
    layout: &PteLayout,
    cr3: u64,
    db: &PfnDatabase,
    read_phys: &F,
    read_virt: &G,
) -> (r: Vec<Pte>)
    requires
        forall|x: u64| read_phys.requires((x,)),
        forall|x: u64| read_virt.requires((x,)),
    ensures
        forall|pmem: spec_fn(u64) -> u64, vmem: spec_fn(u64) -> u64|
            agrees_with(read_phys, pmem) && agrees_with(read_virt, vmem) ==> r@ == spec_ptes(
                *layout,
                pmem,
                cr3,
            ).filter(|p: Pte| spec_selected(*layout, p, pmem, vmem, *db, true, true)),
{
    let leaves = list_all_pte(layout, cr3, read_phys);
    select_pages(layout, &leaves, db, true, true, read_phys, read_virt)
}

} // verus!
