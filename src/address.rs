//! Symbolic addresses: a concrete `base + offset`, or "the pointer stored at an
//! inner address, plus an offset", resolved lazily through a dereference
//! callback.
use vstd::prelude::*;

verus! {

/// A kernel address that may go through a chain of pointer indirections.
///
/// A leaf (`pointer == None`) stands for `base + offset`.  An indirection
/// stands for "the value stored at `pointer`, plus `offset`"; its `base` is 0.
/// Arithmetic on addresses wraps modulo 2^64, as addresses do.
pub struct Address {
    pub base: u64,
    pub pointer: Option<Box<Address>>,
    pub offset: u64,
}

impl Address {
    /// True when the address involves no indirection.
    pub open spec fn is_leaf(&self) -> bool {
        self.pointer is None
    }

    /// Pre-resolution value: `base + offset`, wrapping.
    pub open spec fn spec_address(&self) -> u64 {
        self.base.wrapping_add(self.offset)
    }

    /// The concrete value this address stands for when memory reads as `mem`.
    /// A null intermediate pointer makes the whole result null.
    pub open spec fn resolve(&self, mem: spec_fn(u64) -> u64) -> u64
        decreases self,
    {
        match self.pointer {
            None => if self.base == 0 {
                0
            } else {
                self.base.wrapping_add(self.offset)
            },
            Some(p) => {
                let v = p.resolve(mem);
                if v == 0 {
                    0
                } else if mem(v) == 0 {
                    0
                } else {
                    mem(v).wrapping_add(self.offset)
                }
            },
        }
    }

    /// Leaf address `base`.
    pub fn from_base(base: u64) -> (r: Address)
        ensures
            r.base == base,
            r.pointer is None,
            r.offset == 0,
    {
        Address { base, pointer: None, offset: 0 }
    }

    /// Indirection: the value stored at `pointer`.
    pub fn from_ptr(pointer: Address) -> (r: Address)
        ensures
            r.base == 0,
            r.pointer == Some(Box::new(pointer)),
            r.offset == 0,
    {
        Address { base: 0, pointer: Some(Box::new(pointer)), offset: 0 }
    }

    /// `base + offset` without resolving any indirection.
    pub fn address(&self) -> (r: u64)
        ensures
            r == self.spec_address(),
    {
        self.base.wrapping_add(self.offset)
    }

    /// Resolves the address, calling `resolver` once per pointer hop.
    ///
    /// Whatever memory model `mem` the resolver agrees with, the result is
    /// `self.resolve(mem)`.
    pub fn get<F: Fn(u64) -> u64>(&self, resolver: &F) -> (r: u64)
        requires
            forall|x: u64| resolver.requires((x,)),
        ensures
            forall|mem: spec_fn(u64) -> u64|
                agrees_with(resolver, mem) ==> r == self.resolve(mem),
        decreases self,
    {
        match &self.pointer {
            None => {
                if self.base == 0 {
                    0
                } else {
                    self.base.wrapping_add(self.offset)
                }
            },
            Some(p) => {
                let v = p.get(resolver);
                let r = if v == 0 {
                    0
                } else {
                    let b = resolver(v);
                    if b == 0 {
                        0
                    } else {
                        b.wrapping_add(self.offset)
                    }
                };
                proof {
                    assert forall|mem: spec_fn(u64) -> u64| agrees_with(resolver, mem) implies r
                        == self.resolve(mem) by {
                        assert(v == p.resolve(mem));
                    }
                }
                r
            },
        }
    }
}

impl Address {
    /// The same address with `k` added to its offset (wrapping).
    pub open spec fn spec_plus(self, k: u64) -> Address {
        Address { base: self.base, pointer: self.pointer, offset: self.offset.wrapping_add(k) }
    }

    /// The same address with `k` taken from its offset (wrapping).
    pub open spec fn spec_minus(self, k: u64) -> Address {
        Address { base: self.base, pointer: self.pointer, offset: self.offset.wrapping_sub(k) }
    }

    /// Both are leaves and stand for the same `base + offset` split.
    pub open spec fn spec_same_leaf(&self, other: &Address) -> bool {
        self.pointer is None && other.pointer is None && self.base == other.base && self.offset
            == other.offset
    }

    /// Order of two leaves by their value; indirect addresses do not compare.
    pub open spec fn spec_order(&self, other: &Address) -> Option<core::cmp::Ordering> {
        if self.pointer is Some || other.pointer is Some {
            None
        } else if self.spec_address() < other.spec_address() {
            Some(core::cmp::Ordering::Less)
        } else if self.spec_address() == other.spec_address() {
            Some(core::cmp::Ordering::Equal)
        } else {
            Some(core::cmp::Ordering::Greater)
        }
    }
}

impl Clone for Address {
    fn clone(&self) -> (r: Self)
        ensures
            r == *self,
        decreases self,
    {
        let pointer = match &self.pointer {
            Some(p) => Some(Box::new((&**p).clone())),
            None => None,
        };
        Address { base: self.base, pointer, offset: self.offset }
    }
}

impl vstd::std_specs::ops::AddSpecImpl<u64> for Address {
    open spec fn obeys_add_spec() -> bool {
        true
    }

    open spec fn add_req(self, rhs: u64) -> bool {
        true
    }

    open spec fn add_spec(self, rhs: u64) -> Address {
        self.spec_plus(rhs)
    }
}

impl core::ops::Add<u64> for Address {
    type Output = Address;

    fn add(self, rhs: u64) -> (r: Address)
        ensures
            r == self.spec_plus(rhs),
    {
        Address { base: self.base, pointer: self.pointer, offset: self.offset.wrapping_add(rhs) }
    }
}

impl vstd::std_specs::ops::SubSpecImpl<u64> for Address {
    open spec fn obeys_sub_spec() -> bool {
        true
    }

    open spec fn sub_req(self, rhs: u64) -> bool {
        true
    }

    open spec fn sub_spec(self, rhs: u64) -> Address {
        self.spec_minus(rhs)
    }
}

impl core::ops::Sub<u64> for Address {
    type Output = Address;

    fn sub(self, rhs: u64) -> (r: Address)
        ensures
            r == self.spec_minus(rhs),
    {
        Address { base: self.base, pointer: self.pointer, offset: self.offset.wrapping_sub(rhs) }
    }
}

impl PartialEq for Address {
    fn eq(&self, other: &Address) -> (r: bool)
        ensures
            r == self.spec_same_leaf(other),
    {
        self.pointer.is_none() && other.pointer.is_none() && self.base == other.base
            && self.offset == other.offset
    }
}

impl vstd::std_specs::cmp::PartialEqSpecImpl for Address {
    open spec fn obeys_eq_spec() -> bool {
        true
    }

    open spec fn eq_spec(&self, other: &Address) -> bool {
        self.spec_same_leaf(other)
    }
}

impl PartialOrd for Address {
    fn partial_cmp(&self, other: &Address) -> (r: Option<core::cmp::Ordering>)
        ensures
            r == self.spec_order(other),
    {
        if self.pointer.is_some() || other.pointer.is_some() {
            None
        } else {
            let this = self.base.wrapping_add(self.offset);
            let that = other.base.wrapping_add(other.offset);
            if this < that {
                Some(core::cmp::Ordering::Less)
            } else if this == that {
                Some(core::cmp::Ordering::Equal)
            } else {
                Some(core::cmp::Ordering::Greater)
            }
        }
    }
}

impl vstd::std_specs::cmp::PartialOrdSpecImpl for Address {
    open spec fn obeys_partial_cmp_spec() -> bool {
        true
    }

    open spec fn partial_cmp_spec(&self, other: &Address) -> Option<core::cmp::Ordering> {
        self.spec_order(other)
    }
}

/// Address algebra: adding `k` to a leaf adds `k` to its value; adding `k` to
/// an indirection through `a` yields the pointee of `a` plus `k`, or 0 when
/// `a` or its pointee is null.
pub proof fn lemma_address_algebra(a: Address, k: u64, mem: spec_fn(u64) -> u64)
    ensures
        a.is_leaf() ==> a.spec_plus(k).spec_address() == a.spec_address().wrapping_add(k),
        ({
            let p = Address { base: 0, pointer: Some(Box::new(a)), offset: 0 }.spec_plus(k);
            let inner = a.resolve(mem);
            p.resolve(mem) == if inner != 0 && mem(inner) != 0 {
                mem(inner).wrapping_add(k)
            } else {
                0
            }
        }),
{
    let p = Address { base: 0, pointer: Some(Box::new(a)), offset: 0 }.spec_plus(k);
    assert(0u64.wrapping_add(k) == k) by (bit_vector);
    if a.is_leaf() {
        let b = a.base;
        let o = a.offset;
        assert(b.wrapping_add(o.wrapping_add(k)) == b.wrapping_add(o).wrapping_add(k))
            by (bit_vector);
    }
}

/// The resolver `f` answers as the memory model `mem` does.
pub open spec fn agrees_with<F: Fn(u64) -> u64>(f: &F, mem: spec_fn(u64) -> u64) -> bool {
    forall|x: u64, v: u64| f.ensures((x,), v) ==> v == mem(x)
}

} // verus!
