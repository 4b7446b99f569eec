//! The symbol store: global symbol offsets and structure field layouts read
//! from the kernel's debug-symbol file, and the field-path language that
//! resolves `Struct.Field.SubField` against an address.
use vstd::prelude::*;
use vstd::string::*;
use crate::address::Address;
use crate::mask::{BitMask, bytes_for_bits};
use crate::text::{
    first_match, lemma_first_match, split_path, path_segments, views_of, text_eq, has_dot,
};

verus! {

/// Why a name or a path could not be resolved.
#[derive(Clone, Copy, Debug, PartialEq, Eq, Structural)]
pub enum SymbolError {
    /// The path holds fewer than two segments.
    NotDecomposable,
    /// No global symbol of that name.
    UnknownSymbol,
    /// No structure of that name.
    UnknownStruct,
    /// The structure has no field of that name.
    UnknownField,
}

/// Layout of one structure field.
pub struct FieldInfo {
    /// Type as written by the symbol file; a trailing `*` marks a pointer.
    pub ty: String,
    /// Byte offset inside the structure.
    pub offset: u64,
    /// First bit of a bitfield (0 for plain fields).
    pub bit_pos: u64,
    /// Number of bits (8 times the size for plain fields).
    pub bit_len: u64,
}

impl FieldInfo {
    /// Layout of a field of type `ty` at byte `offset`: a bitfield keeps its
    /// bit position and length; a plain field of `byte_size` bytes starts at
    /// bit 0 and spans all its bits.
    pub fn layout(ty: String, offset: u64, byte_size: u64, bitfield: Option<(u8, u8)>) -> (r: FieldInfo)
        ensures
            r.ty == ty,
            r.offset == offset,
            match bitfield {
                Some((pos, len)) => r.bit_pos == pos && r.bit_len == len,
                None => r.bit_pos == 0 && r.bit_len == if byte_size <= u64::MAX / 8 {
                    (8 * byte_size) as u64
                } else {
                    u64::MAX
                },
            },
    {
        match bitfield {
            Some((pos, len)) => FieldInfo { ty, offset, bit_pos: pos as u64, bit_len: len as u64 },
            None => {
                let bits = if byte_size <= u64::MAX / 8 {
                    8 * byte_size
                } else {
                    u64::MAX
                };
                FieldInfo { ty, offset, bit_pos: 0, bit_len: bits }
            },
        }
    }
}

pub struct Member {
    pub name: String,
    pub info: FieldInfo,
}

pub struct StructLayout {
    pub name: String,
    pub members: Vec<Member>,
}

pub struct Symbol {
    pub name: String,
    pub rva: u64,
}

/// Symbols and structure layouts; lookups take the first entry of a name.
pub struct PdbStore {
    pub symbols: Vec<Symbol>,
    pub structs: Vec<StructLayout>,
}

pub open spec fn symbol_names(s: Seq<Symbol>) -> Seq<Seq<char>> {
    s.map_values(|x: Symbol| x.name@)
}

pub open spec fn struct_names(s: Seq<StructLayout>) -> Seq<Seq<char>> {
    s.map_values(|x: StructLayout| x.name@)
}

pub open spec fn member_names(s: Seq<Member>) -> Seq<Seq<char>> {
    s.map_values(|x: Member| x.name@)
}

/// A type name ending in `*` is a pointer to the type before the star.
pub open spec fn is_pointer_type(t: Seq<char>) -> bool {
    t.len() > 0 && t.last() == '*'
}

/// Name of the synthetic field that holds a structure's size.
pub open spec fn struct_size_name() -> Seq<char> {
    seq!['s', 't', 'r', 'u', 'c', 't', '_', 's', 'i', 'z', 'e']
}


/// One line of a structure listing: a field's offset, type and name.
pub struct ListedMember {
    pub offset: u64,
    pub ty: String,
    pub name: String,
}

pub open spec fn listed_view(m: ListedMember) -> (u64, Seq<char>, Seq<char>) {
    (m.offset, m.ty@, m.name@)
}

pub open spec fn member_view(m: Member) -> (u64, Seq<char>, Seq<char>) {
    (m.info.offset, m.info.ty@, m.name@)
}

/// The fields of a layout that a listing shows: all but `struct_size`.
pub open spec fn shown(m: Member) -> bool {
    m.name@ != struct_size_name()
}

pub open spec fn listable(members: Seq<Member>) -> Seq<(u64, Seq<char>, Seq<char>)> {
    members.filter(|m: Member| shown(m)).map_values(|m: Member| member_view(m))
}

pub open spec fn sorted_by_offset(list: Seq<ListedMember>) -> bool {
    forall|i: int, j: int| 0 <= i < j < list.len() ==> list[i].offset <= list[j].offset
}

impl PdbStore {
    pub open spec fn spec_symbol(&self, name: Seq<char>) -> Option<u64> {
        match first_match(symbol_names(self.symbols@), name) {
            Some(i) => Some(self.symbols@[i].rva),
            None => None,
        }
    }

    pub open spec fn spec_struct_index(&self, name: Seq<char>) -> Option<int> {
        first_match(struct_names(self.structs@), name)
    }

    /// Layout of field `f` of structure `s`.
    pub open spec fn spec_field(&self, s: Seq<char>, f: Seq<char>) -> Result<FieldInfo, SymbolError> {
        match self.spec_struct_index(s) {
            None => Err(SymbolError::UnknownStruct),
            Some(i) => {
                let members = self.structs@[i].members@;
                match first_match(member_names(members), f) {
                    None => Err(SymbolError::UnknownField),
                    Some(j) => Ok(members[j].info),
                }
            },
        }
    }

    /// Walks `fields` starting at structure `root` placed at `addr`: each
    /// field adds its offset; a pointer field followed by more path wraps
    /// the address in an indirection and continues in the pointee type.
    /// The last field gives the bit range and the byte width to read.
    pub open spec fn decompose_from(
        &self,
        addr: Address,
        root: Seq<char>,
        fields: Seq<Seq<char>>,
    ) -> Result<(Address, BitMask, u64), SymbolError>
        decreases fields.len(),
    {
        if fields.len() == 0 {
            Err(SymbolError::NotDecomposable)
        } else {
            match self.spec_field(root, fields[0]) {
                Err(e) => Err(e),
                Ok(info) => {
                    let at = addr.spec_plus(info.offset);
                    if fields.len() == 1 {
                        Ok(
                            (
                                at,
                                BitMask { pos: info.bit_pos, len: info.bit_len },
                                bytes_for_bits(info.bit_len),
                            ),
                        )
                    } else if is_pointer_type(info.ty@) {
                        self.decompose_from(
                            Address { base: 0, pointer: Some(Box::new(at)), offset: 0 },
                            info.ty@.drop_last(),
                            fields.drop_first(),
                        )
                    } else {
                        self.decompose_from(at, info.ty@, fields.drop_first())
                    }
                },
            }
        }
    }

    /// Decomposition of the dotted path `S.F[.Sub...]` from `source`.
    pub open spec fn spec_decompose(&self, source: Address, path: Seq<char>) -> Result<
        (Address, BitMask, u64),
        SymbolError,
    > {
        let segs = path_segments(path);
        if segs.len() < 2 {
            Err(SymbolError::NotDecomposable)
        } else {
            self.decompose_from(source, segs[0], segs.drop_first())
        }
    }

    /// Offset named by `name`: a global symbol, or for `S.F` the byte offset
    /// of field `F` in `S` (later segments are ignored).
    pub open spec fn spec_offset(&self, name: Seq<char>) -> Result<u64, SymbolError> {
        if name.contains('.') {
            let segs = path_segments(name);
            if segs.len() < 2 {
                Err(SymbolError::NotDecomposable)
            } else {
                match self.spec_field(segs[0], segs[1]) {
                    Ok(info) => Ok(info.offset),
                    Err(e) => Err(e),
                }
            }
        } else {
            match self.spec_symbol(name) {
                Some(v) => Ok(v),
                None => Err(SymbolError::UnknownSymbol),
            }
        }
    }

    /// An empty store.
    pub fn new() -> (r: PdbStore)
        ensures
            r.symbols@.len() == 0,
            r.structs@.len() == 0,
    {
        PdbStore { symbols: Vec::new(), structs: Vec::new() }
    }

    /// Sets global symbol `name` to `rva`, replacing an earlier value.
    pub fn insert_symbol(&mut self, name: String, rva: u64)
        ensures
            final(self).spec_symbol(name@) == Some(rva),
            forall|n: Seq<char>| n != name@ ==> final(self).spec_symbol(n) == old(self).spec_symbol(n),
            final(self).structs@ == old(self).structs@,
    {
        let ghost names = symbol_names(self.symbols@);
        let ghost key = name@;
        match self.find_symbol(name.as_str()) {
            Some(i) => {
                proof {
                    lemma_first_match(names, key);
                }
                self.symbols.set(i, Symbol { name, rva });
                proof {
                    assert(symbol_names(self.symbols@) =~= names);
                    assert forall|n: Seq<char>| n != key implies self.spec_symbol(n)
                        == old(self).spec_symbol(n) by {
                        lemma_first_match(names, n);
                    }
                }
            },
            None => {
                self.symbols.push(Symbol { name, rva });
                proof {
                    let grown = symbol_names(self.symbols@);
                    assert(grown.drop_last() =~= names);
                    assert forall|n: Seq<char>| n != key implies self.spec_symbol(n)
                        == old(self).spec_symbol(n) by {
                        lemma_first_match(names, n);
                        assert(first_match(grown, n) == first_match(names, n));
                    }
                }
            },
        }
    }

    /// Appends global symbol `name` at `rva` without looking for an earlier
    /// entry of that name, which keeps precedence in lookups.  For bulk
    /// loading of names known to be distinct.
    pub fn append_symbol(&mut self, name: String, rva: u64)
        ensures
            final(self).symbols@ == old(self).symbols@.push(Symbol { name, rva }),
            final(self).structs@ == old(self).structs@,
            old(self).spec_symbol(name@) is None ==> final(self).spec_symbol(name@) == Some(rva),
            forall|n: Seq<char>| n != name@ ==> final(self).spec_symbol(n) == old(self).spec_symbol(n),
    {
        let ghost names = symbol_names(self.symbols@);
        let ghost key = name@;
        self.symbols.push(Symbol { name, rva });
        proof {
            let grown = symbol_names(self.symbols@);
            assert(grown.drop_last() =~= names);
            assert forall|n: Seq<char>| n != key implies self.spec_symbol(n) == old(self).spec_symbol(n) by {
                lemma_first_match(names, n);
                assert(first_match(grown, n) == first_match(names, n));
            }
        }
    }

    /// Records structure `name` of `size` bytes with fields `members`,
    /// followed by the synthetic `struct_size` field (offset = `size`),
    /// replacing an earlier layout of that name.
    pub fn insert_struct(&mut self, name: String, size: u64, members: Vec<Member>)
        ensures
            ({
                let layout = final(self).spec_struct_index(name@);
                &&& layout is Some
                &&& final(self).structs@[layout->0].members@.drop_last() == members@
                &&& final(self).structs@[layout->0].members@.last().name@ == struct_size_name()
                &&& final(self).structs@[layout->0].members@.last().info.offset == size
                &&& final(self).structs@[layout->0].members@.last().info.bit_pos == 0
                &&& final(self).structs@[layout->0].members@.last().info.bit_len == 32
            }),
            forall|s: Seq<char>, f: Seq<char>|
                s != name@ ==> final(self).spec_field(s, f) == old(self).spec_field(s, f),
            final(self).symbols@ == old(self).symbols@,
    {
        let ghost names = struct_names(self.structs@);
        let ghost key = name@;
        let mut all = members;
        let ghost given = all@;
        proof {
            reveal_strlit("struct_size");
        }
        let size_name = String::from_str("struct_size");
        let size_ty = String::from_str("u32");
        all.push(
            Member {
                name: size_name,
                info: FieldInfo { ty: size_ty, offset: size, bit_pos: 0, bit_len: 32 },
            },
        );
        proof {
            assert(all@.drop_last() =~= given);
            assert(size_name@ =~= struct_size_name());
        }
        match self.find_struct(name.as_str()) {
            Some(i) => {
                proof {
                    lemma_first_match(names, key);
                }
                self.structs.set(i, StructLayout { name, members: all });
                proof {
                    assert(struct_names(self.structs@) =~= names);
                    assert forall|s: Seq<char>, f: Seq<char>| s != key implies self.spec_field(s, f)
                        == old(self).spec_field(s, f) by {
                        lemma_first_match(names, s);
                    }
                }
            },
            None => {
                self.structs.push(StructLayout { name, members: all });
                proof {
                    let grown = struct_names(self.structs@);
                    assert(grown.drop_last() =~= names);
                    assert forall|s: Seq<char>, f: Seq<char>| s != key implies self.spec_field(s, f)
                        == old(self).spec_field(s, f) by {
                        lemma_first_match(names, s);
                        assert(first_match(grown, s) == first_match(names, s));
                    }
                }
            },
        }
    }

    /// Name of the first global symbol at `rva`.
    pub fn symbol_at(&self, rva: u64) -> (r: Option<&String>)
        ensures
            match r {
                Some(name) => exists|i: int|
                    0 <= i < self.symbols@.len() && self.symbols@[i].rva == rva && self.symbols@[i].name
                        == *name && forall|j: int| 0 <= j < i ==> self.symbols@[j].rva != rva,
                None => forall|i: int| 0 <= i < self.symbols@.len() ==> self.symbols@[i].rva != rva,
            },
    {
        let mut i: usize = 0;
        while i < self.symbols.len()
            invariant
                i <= self.symbols@.len(),
                forall|j: int| 0 <= j < i ==> self.symbols@[j].rva != rva,
            decreases self.symbols@.len() - i,
        {
            if self.symbols[i].rva == rva {
                return Some(&self.symbols[i].name);
            }
            i += 1;
        }
        None
    }

    /// Layout of structure `struct_name` for display: its size and its
    /// fields (without `struct_size`) in order of offset.
    pub fn dt(&self, struct_name: &str) -> (r: Result<(u64, Vec<ListedMember>), SymbolError>)
        ensures
            match r {
                Ok((size, list)) => {
                    &&& self.spec_field(struct_name@, struct_size_name()) matches Ok(info)
                        && info.offset == size
                    &&& self.spec_struct_index(struct_name@) is Some
                    &&& sorted_by_offset(list@)
                    &&& list@.map_values(|m: ListedMember| listed_view(m)).to_multiset()
                        == listable(
                        self.structs@[self.spec_struct_index(struct_name@)->0].members@,
                    ).to_multiset()
                },
                Err(e) => self.spec_field(struct_name@, struct_size_name()) == Err::<
                    FieldInfo,
                    SymbolError,
                >(e),
            },
    {
        proof {
            reveal_strlit("struct_size");
        }
        let size_key = "struct_size";
        assert(size_key@ =~= struct_size_name());
        let size = match self.field(struct_name, size_key) {
            Ok(info) => info.offset,
            Err(e) => {
                return Err(e);
            },
        };
        let idx = match self.find_struct(struct_name) {
            Some(i) => i,
            None => {
                return Err(SymbolError::UnknownStruct);
            },
        };
        let members = &self.structs[idx].members;
        let mut list: Vec<ListedMember> = Vec::new();
        let mut k: usize = 0;
        proof {
            reveal(Seq::filter);
            assert(members@.take(0) =~= Seq::<Member>::empty());
            assert(list@.map_values(|m: ListedMember| listed_view(m)) =~= Seq::<(u64, Seq<char>, Seq<char>)>::empty());
            assert(listable(members@.take(0)) =~= Seq::<(u64, Seq<char>, Seq<char>)>::empty());
        }
        while k < members.len()
            invariant
                k <= members@.len(),
                size_key@ == struct_size_name(),
                sorted_by_offset(list@),
                list@.map_values(|m: ListedMember| listed_view(m)).to_multiset() == listable(
                    members@.take(k as int),
                ).to_multiset(),
            decreases members@.len() - k,
        {
            let m = &members[k];
            let ghost before = list@;
            let is_size = crate::text::text_eq(m.name.as_str(), size_key);
            if !is_size {
                let mut p: usize = 0;
                while p < list.len() && list[p].offset <= m.info.offset
                    invariant
                        p <= list@.len(),
                        list@ == before,
                        forall|j: int| 0 <= j < p ==> list@[j].offset <= m.info.offset,
                    decreases list@.len() - p,
                {
                    p += 1;
                }
                let entry = ListedMember {
                    offset: m.info.offset,
                    ty: m.info.ty.clone(),
                    name: m.name.clone(),
                };
                list.insert(p, entry);
                proof {
                    assert(list@ =~= before.insert(p as int, entry));
                    assert(list@.map_values(|m: ListedMember| listed_view(m)) =~= before.map_values(
                        |m: ListedMember| listed_view(m),
                    ).insert(p as int, listed_view(entry)));
                    assert(listed_view(entry) == member_view(*m));
                    vstd::seq_lib::to_multiset_insert(
                        before.map_values(|m: ListedMember| listed_view(m)),
                        p as int,
                        listed_view(entry),
                    );
                    assert(list@.map_values(|m: ListedMember| listed_view(m)).to_multiset()
                        == before.map_values(|m: ListedMember| listed_view(m)).to_multiset().insert(
                        member_view(*m),
                    ));
                    assert forall|i: int, j: int| 0 <= i < j < list@.len() implies list@[i].offset
                        <= list@[j].offset by {
                        if j < p {
                        } else if j == p {
                        } else if i < p {
                            assert(list@[j] == before[j - 1]);
                            if p < before.len() {
                                assert(before[p as int].offset > m.info.offset);
                                assert(before[p as int].offset <= before[j - 1].offset);
                            }
                        } else if i == p {
                            assert(list@[j] == before[j - 1]);
                            assert(before[p as int].offset > m.info.offset);
                            assert(before[p as int].offset <= before[j - 1].offset);
                        } else {
                            assert(list@[i] == before[i - 1]);
                            assert(list@[j] == before[j - 1]);
                        }
                    }
                }
            }
            proof {
                reveal(Seq::filter);
                let next = members@.take(k + 1);
                assert(next.drop_last() =~= members@.take(k as int));
                assert(next.last() == *m);
                let fk = members@.take(k as int).filter(|m: Member| shown(m));
                let fk1 = next.filter(|m: Member| shown(m));
                assert(is_size == !shown(*m));
                if is_size {
                    assert(fk1 == fk);
                    assert(list@ == before);
                } else {
                    assert(fk1 == fk.push(*m));
                    assert(fk1.map_values(|m: Member| member_view(m)) =~= fk.map_values(
                        |m: Member| member_view(m),
                    ).push(member_view(*m)));
                    vstd::seq_lib::to_multiset_build(listable(members@.take(k as int)), member_view(*m));
                    assert(listable(next).to_multiset() == listable(members@.take(k as int)).to_multiset().insert(
                        member_view(*m),
                    ));
                }
            }
            k += 1;
        }
        proof {
            assert(members@.take(members@.len() as int) =~= members@);
        }
        Ok((size, list))
    }

    fn find_symbol(&self, name: &str) -> (r: Option<usize>)
        ensures
            match r {
                Some(i) => i < self.symbols@.len() && first_match(symbol_names(self.symbols@), name@)
                    == Some(i as int),
                None => first_match(symbol_names(self.symbols@), name@) is None,
            },
    {
        let mut i: usize = 0;
        while i < self.symbols.len()
            invariant
                i <= self.symbols@.len(),
                forall|j: int| 0 <= j < i ==> self.symbols@[j].name@ != name@,
            decreases self.symbols@.len() - i,
        {
            if text_eq(self.symbols[i].name.as_str(), name) {
                proof {
                    let names = symbol_names(self.symbols@);
                    lemma_first_match(names, name@);
                    assert(names[i as int] == name@);
                    assert(forall|j: int| 0 <= j < i ==> names[j] != name@);
                }
                return Some(i);
            }
            i += 1;
        }
        proof {
            lemma_first_match(symbol_names(self.symbols@), name@);
        }
        None
    }

    fn find_struct(&self, name: &str) -> (r: Option<usize>)
        ensures
            match r {
                Some(i) => i < self.structs@.len() && self.spec_struct_index(name@) == Some(i as int),
                None => self.spec_struct_index(name@) is None,
            },
    {
        let mut i: usize = 0;
        while i < self.structs.len()
            invariant
                i <= self.structs@.len(),
                forall|j: int| 0 <= j < i ==> self.structs@[j].name@ != name@,
            decreases self.structs@.len() - i,
        {
            if text_eq(self.structs[i].name.as_str(), name) {
                proof {
                    let names = struct_names(self.structs@);
                    lemma_first_match(names, name@);
                    assert(names[i as int] == name@);
                    assert(forall|j: int| 0 <= j < i ==> names[j] != name@);
                }
                return Some(i);
            }
            i += 1;
        }
        proof {
            lemma_first_match(struct_names(self.structs@), name@);
        }
        None
    }

    /// Layout of field `field` of structure `st`.
    pub fn field(&self, st: &str, field: &str) -> (r: Result<&FieldInfo, SymbolError>)
        ensures
            match r {
                Ok(info) => self.spec_field(st@, field@) == Ok::<FieldInfo, SymbolError>(*info),
                Err(e) => self.spec_field(st@, field@) == Err::<FieldInfo, SymbolError>(e),
            },
    {
        match self.find_struct(st) {
            None => Err(SymbolError::UnknownStruct),
            Some(i) => {
                let members = &self.structs[i].members;
                let mut j: usize = 0;
                while j < members.len()
                    invariant
                        i < self.structs@.len(),
                        members@ == self.structs@[i as int].members@,
                        self.spec_struct_index(st@) == Some(i as int),
                        j <= members@.len(),
                        forall|k: int| 0 <= k < j ==> members@[k].name@ != field@,
                    decreases members@.len() - j,
                {
                    if text_eq(members[j].name.as_str(), field) {
                        proof {
                            let names = member_names(members@);
                            lemma_first_match(names, field@);
                            assert(names[j as int] == field@);
                            assert(forall|k: int| 0 <= k < j ==> names[k] != field@);
                        }
                        return Ok(&members[j].info);
                    }
                    j += 1;
                }
                proof {
                    lemma_first_match(member_names(members@), field@);
                }
                Err(SymbolError::UnknownField)
            },
        }
    }

    /// Offset named by `name`, or why there is none.
    pub fn get_offset_r(&self, name: &str) -> (r: Result<u64, SymbolError>)
        ensures
            r == self.spec_offset(name@),
    {
        if has_dot(name) {
            let segs = split_path(name);
            proof {
                assert(views_of(segs@).len() == segs@.len());
            }
            if segs.len() < 2 {
                return Err(SymbolError::NotDecomposable);
            }
            proof {
                assert(views_of(segs@)[0] == segs@[0]@);
                assert(views_of(segs@)[1] == segs@[1]@);
            }
            match self.field(segs[0], segs[1]) {
                Ok(info) => Ok(info.offset),
                Err(e) => Err(e),
            }
        } else {
            match self.find_symbol(name) {
                Some(i) => Ok(self.symbols[i].rva),
                None => Err(SymbolError::UnknownSymbol),
            }
        }
    }

    /// Offset named by `name`, if any.
    pub fn get_offset(&self, name: &str) -> (r: Option<u64>)
        ensures
            r == match self.spec_offset(name@) {
                Ok(v) => Some(v),
                Err(_) => None::<u64>,
            },
    {
        match self.get_offset_r(name) {
            Ok(v) => Some(v),
            Err(_) => None,
        }
    }

    /// Resolves a field path against `source`: the field's address (with an
    /// indirection for every pointer crossed), its bit range, and the number
    /// of bytes to read.
    pub fn decompose(&self, source: &Address, full_name: &str) -> (r: Result<
        (Address, BitMask, u64),
        SymbolError,
    >)
        ensures
            r == self.spec_decompose(*source, full_name@),
    {
        let segs = split_path(full_name);
        let ghost fields = views_of(segs@);
        proof {
            assert(fields.len() == segs@.len());
        }
        if segs.len() < 2 {
            return Err(SymbolError::NotDecomposable);
        }
        let mut cur: Address = source.clone();
        let mut cur_root: &str = segs[0];
        let mut k: usize = 1;
        proof {
            assert(fields[0] == segs@[0]@);
            assert(fields.drop_first() =~= fields.skip(1));
        }
        loop
            invariant
                1 <= k < segs@.len(),
                fields == views_of(segs@),
                fields.len() == segs@.len(),
                path_segments(full_name@) == fields,
                self.spec_decompose(*source, full_name@) == self.decompose_from(
                    cur,
                    cur_root@,
                    fields.skip(k as int),
                ),
            decreases segs@.len() - k,
        {
            let ghost rest = fields.skip(k as int);
            proof {
                assert(rest[0] == segs@[k as int]@);
            }
            let info = match self.field(cur_root, segs[k]) {
                Ok(info) => info,
                Err(e) => {
                    return Err(e);
                },
            };
            let at = cur + info.offset;
            if k == segs.len() - 1 {
                let m = BitMask { pos: info.bit_pos, len: info.bit_len };
                let w = m.width();
                return Ok((at, m, w));
            }
            proof {
                assert(rest.drop_first() =~= fields.skip(k + 1));
            }
            let tn = info.ty.as_str();
            let n = tn.unicode_len();
            if n > 0 && tn.get_char(n - 1) == '*' {
                cur = Address::from_ptr(at);
                cur_root = tn.substring_char(0, n - 1);
                proof {
                    assert(cur_root@ =~= info.ty@.drop_last());
                }
            } else {
                cur = at;
                cur_root = tn;
            }
            k += 1;
        }
    }
}

/// Decomposition is a function of the store, the root and the path: two
/// decompositions of the same path against the same root agree.
pub proof fn lemma_decompose_repeatable(
    store: &PdbStore,
    root: Address,
    path: Seq<char>,
    first: Result<(Address, BitMask, u64), SymbolError>,
    second: Result<(Address, BitMask, u64), SymbolError>,
)
    requires
        first == store.spec_decompose(root, path),
        second == store.spec_decompose(root, path),
    ensures
        first == second,
{
}

/// A path `S.F.G` whose field `F` is a pointer `T*` decomposes to
/// `from_ptr(root + off(F)) + off(G)`: one indirection over a leaf, so it is
/// resolved with a single dereference, and the bit range and width are those
/// of `T.G`.
pub proof fn lemma_pointer_hop(
    store: &PdbStore,
    root: Address,
    path: Seq<char>,
    mem: spec_fn(u64) -> u64,
)
    requires
        root.is_leaf(),
        path_segments(path).len() == 3,
        store.spec_field(path_segments(path)[0], path_segments(path)[1]) is Ok,
        is_pointer_type(
            store.spec_field(path_segments(path)[0], path_segments(path)[1])->Ok_0.ty@,
        ),
        store.spec_field(
            store.spec_field(path_segments(path)[0], path_segments(path)[1])->Ok_0.ty@.drop_last(),
            path_segments(path)[2],
        ) is Ok,
    ensures
        ({
            let segs = path_segments(path);
            let f = store.spec_field(segs[0], segs[1])->Ok_0;
            let g = store.spec_field(f.ty@.drop_last(), segs[2])->Ok_0;
            let inner = root.spec_plus(f.offset);
            let hop = Address { base: 0, pointer: Some(Box::new(inner)), offset: 0 }.spec_plus(
                g.offset,
            );
            let v = inner.resolve(mem);
            &&& store.spec_decompose(root, path) == Ok::<(Address, BitMask, u64), SymbolError>(
                (hop, BitMask { pos: g.bit_pos, len: g.bit_len }, bytes_for_bits(g.bit_len)),
            )
            &&& inner.is_leaf()
            &&& hop.resolve(mem) == if v != 0 && mem(v) != 0 {
                mem(v).wrapping_add(g.offset)
            } else {
                0
            }
        }),
{
    let segs = path_segments(path);
    let rest = segs.drop_first();
    assert(rest[0] == segs[1]);
    assert(rest.drop_first()[0] == segs[2]);
    assert(rest.drop_first().len() == 1);
    let f = store.spec_field(segs[0], segs[1])->Ok_0;
    let g = store.spec_field(f.ty@.drop_last(), segs[2])->Ok_0;
    let go = g.offset;
    assert(0u64.wrapping_add(go) == go) by (bit_vector);
    let inner = root.spec_plus(f.offset);
    let ptr = Address { base: 0, pointer: Some(Box::new(inner)), offset: 0 };
    assert(store.decompose_from(root, segs[0], rest) == store.decompose_from(
        ptr,
        f.ty@.drop_last(),
        rest.drop_first(),
    ));
    assert(store.decompose_from(ptr, f.ty@.drop_last(), rest.drop_first()) == Ok::<
        (Address, BitMask, u64),
        SymbolError,
    >((ptr.spec_plus(go), BitMask { pos: g.bit_pos, len: g.bit_len }, bytes_for_bits(g.bit_len))));
}

} // verus!
