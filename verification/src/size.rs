//! The size calculator: the byte size of a type record, 0 when unsizable.
//! Size queries never fail outward: a lookup miss, an exhausted recursion
//! budget or an unresolvable name all degrade to a size of 0.

use vstd::prelude::*;
use crate::catalog::{DEPTH_LIMIT, TypeDumper, fwd_get};
use crate::records::{
    ClassType, PrimitiveKind, PrimitiveType, TypeData, TypeIndex, UnionType, Variant, class_key,
    class_linkage_name, union_key, union_linkage_name,
};

verus! {

/// The fixed size table of primitive subkinds, in bytes.
pub open spec fn spec_primitive_kind_size(kind: PrimitiveKind) -> u32 {
    match kind {
        PrimitiveKind::NoType => 0,
        PrimitiveKind::Void => 0,
        PrimitiveKind::Char => 1,
        PrimitiveKind::UChar => 1,
        PrimitiveKind::RChar => 1,
        PrimitiveKind::I8 => 1,
        PrimitiveKind::U8 => 1,
        PrimitiveKind::Bool8 => 1,
        PrimitiveKind::WChar => 2,
        PrimitiveKind::RChar16 => 2,
        PrimitiveKind::I16 => 2,
        PrimitiveKind::U16 => 2,
        PrimitiveKind::F16 => 2,
        PrimitiveKind::Bool16 => 2,
        PrimitiveKind::RChar32 => 4,
        PrimitiveKind::I32 => 4,
        PrimitiveKind::U32 => 4,
        PrimitiveKind::F32 => 4,
        PrimitiveKind::F32PP => 4,
        PrimitiveKind::Bool32 => 4,
        PrimitiveKind::HRESULT => 4,
        PrimitiveKind::I64 => 8,
        PrimitiveKind::U64 => 8,
        PrimitiveKind::F64 => 8,
        PrimitiveKind::Complex32 => 8,
        PrimitiveKind::Bool64 => 8,
        PrimitiveKind::I128 => 16,
        PrimitiveKind::U128 => 16,
        PrimitiveKind::F128 => 16,
        PrimitiveKind::Complex64 => 16,
        PrimitiveKind::F48 => 6,
        PrimitiveKind::F80 => 10,
        PrimitiveKind::Complex80 => 20,
        PrimitiveKind::Complex128 => 32,
    }
}

/// The width implied by the representation an enumerator's literal value
/// was stored with.
pub open spec fn spec_variant_size(v: Variant) -> u32 {
    match v {
        Variant::I8(_) => 1,
        Variant::U8(_) => 1,
        Variant::I16(_) => 2,
        Variant::U16(_) => 2,
        Variant::I32(_) => 4,
        Variant::U32(_) => 4,
        Variant::I64(_) => 8,
        Variant::U64(_) => 8,
    }
}

impl TypeDumper {
    /// The size of a primitive record: the pointer width when the record
    /// marks indirection, else the fixed table entry for its subkind.
    pub open spec fn spec_primitive_size(self, t: PrimitiveType) -> u32 {
        if t.indirection {
            self.ptr_size
        } else {
            spec_primitive_kind_size(t.kind)
        }
    }

    /// The size of a class record: the stored size when defining, else the
    /// forward-reference table's entry for its linkage name (0 when that
    /// entry is absent, which construction rules out).
    pub open spec fn spec_class_size(self, t: ClassType) -> u32 {
        if t.forward_reference {
            if self.fwd_map().contains_key(class_linkage_name(t)) {
                self.fwd_map()[class_linkage_name(t)]
            } else {
                0
            }
        } else {
            t.size
        }
    }

    /// The size of a union record, resolved like a class record.
    pub open spec fn spec_union_size(self, t: UnionType) -> u32 {
        if t.forward_reference {
            if self.fwd_map().contains_key(union_linkage_name(t)) {
                self.fwd_map()[union_linkage_name(t)]
            } else {
                0
            }
        } else {
            t.size
        }
    }

    /// The size of the record stored under an index, with a recursion
    /// budget: 0 when the index is absent or the budget is exhausted.
    pub open spec fn spec_type_size(self, index: TypeIndex, depth: nat) -> u32
        decreases depth, 0int,
    {
        match self.spec_find(index) {
            None => 0,
            Some(t) => if depth == 0 {
                0
            } else {
                self.spec_data_size(t, (depth - 1) as nat)
            },
        }
    }

    /// The size of a parsed record, by the table of record kinds: pointers
    /// decay to their encoded width, function types to the target pointer
    /// width, arrays to their stored outermost cumulative byte size,
    /// enumerations and modifiers to their underlying type, and anything
    /// unrecognized to 0.
    pub open spec fn spec_data_size(self, t: TypeData, depth: nat) -> u32
        decreases depth, 1int,
    {
        match t {
            TypeData::Primitive(p) => self.spec_primitive_size(p),
            TypeData::Class(c) => self.spec_class_size(c),
            TypeData::Union(u) => self.spec_union_size(u),
            TypeData::MemberFunction(_) => self.ptr_size,
            TypeData::Procedure(_) => self.ptr_size,
            TypeData::Pointer(p) => p.attributes.size,
            TypeData::Array(a) => if a.dimensions@.len() == 0 {
                0
            } else {
                a.dimensions@.last()
            },
            TypeData::Enumeration(e) => self.spec_type_size(e.underlying_type, depth),
            TypeData::Enumerate(e) => spec_variant_size(e.value),
            TypeData::Modifier(m) => self.spec_type_size(m.underlying_type, depth),
            TypeData::ArgumentList(_) => 0,
            TypeData::Other(_) => 0,
        }
    }

    fn get_class_size(&self, typ: &ClassType) -> (r: u32)
        ensures
            r == self.spec_class_size(*typ),
    {
        if typ.forward_reference {
            match fwd_get(&self.fwd, class_key(typ)) {
                Some(v) => v,
                None => 0,
            }
        } else {
            typ.size
        }
    }

    fn get_union_size(&self, typ: &UnionType) -> (r: u32)
        ensures
            r == self.spec_union_size(*typ),
    {
        if typ.forward_reference {
            match fwd_get(&self.fwd, union_key(typ)) {
                Some(v) => v,
                None => 0,
            }
        } else {
            typ.size
        }
    }

    /// The byte size of the type stored under `index`, 0 if unsizable.
    pub fn get_type_size(&self, index: TypeIndex) -> (r: u32)
        ensures
            r == self.spec_type_size(index, DEPTH_LIMIT as nat),
    {
        self.type_size_limited(index, DEPTH_LIMIT)
    }

    fn type_size_limited(&self, index: TypeIndex, depth: u32) -> (r: u32)
        ensures
            r == self.spec_type_size(index, depth as nat),
        decreases depth, 0int,
    {
        match self.find(index) {
            Ok(t) => {
                if depth == 0 {
                    0
                } else {
                    self.get_data_size(t, depth - 1)
                }
            },
            Err(_) => 0,
        }
    }

    /// The byte size of a parsed record.
    pub(crate) fn get_data_size(&self, typ: &TypeData, depth: u32) -> (r: u32)
        ensures
            r == self.spec_data_size(*typ, depth as nat),
        decreases depth, 1int,
    {
        match typ {
            TypeData::Primitive(t) => {
                if t.indirection {
                    self.ptr_size
                } else {
                    match t.kind {
                        PrimitiveKind::NoType => 0,
                        PrimitiveKind::Void => 0,
                        PrimitiveKind::Char => 1,
                        PrimitiveKind::UChar => 1,
                        PrimitiveKind::RChar => 1,
                        PrimitiveKind::I8 => 1,
                        PrimitiveKind::U8 => 1,
                        PrimitiveKind::Bool8 => 1,
                        PrimitiveKind::WChar => 2,
                        PrimitiveKind::RChar16 => 2,
                        PrimitiveKind::I16 => 2,
                        PrimitiveKind::U16 => 2,
                        PrimitiveKind::F16 => 2,
                        PrimitiveKind::Bool16 => 2,
                        PrimitiveKind::RChar32 => 4,
                        PrimitiveKind::I32 => 4,
                        PrimitiveKind::U32 => 4,
                        PrimitiveKind::F32 => 4,
                        PrimitiveKind::F32PP => 4,
                        PrimitiveKind::Bool32 => 4,
                        PrimitiveKind::HRESULT => 4,
                        PrimitiveKind::I64 => 8,
                        PrimitiveKind::U64 => 8,
                        PrimitiveKind::F64 => 8,
                        PrimitiveKind::Complex32 => 8,
                        PrimitiveKind::Bool64 => 8,
                        PrimitiveKind::I128 => 16,
                        PrimitiveKind::U128 => 16,
                        PrimitiveKind::F128 => 16,
                        PrimitiveKind::Complex64 => 16,
                        PrimitiveKind::F48 => 6,
                        PrimitiveKind::F80 => 10,
                        PrimitiveKind::Complex80 => 20,
                        PrimitiveKind::Complex128 => 32,
                    }
                }
            },
            TypeData::Class(t) => self.get_class_size(t),
            TypeData::Union(t) => self.get_union_size(t),
            TypeData::MemberFunction(_) => self.ptr_size,
            TypeData::Procedure(_) => self.ptr_size,
            TypeData::Pointer(t) => t.attributes.size,
            TypeData::Array(t) => {
                if t.dimensions.len() == 0 {
                    0
                } else {
                    t.dimensions[t.dimensions.len() - 1]
                }
            },
            TypeData::Enumeration(t) => self.type_size_limited(t.underlying_type, depth),
            TypeData::Enumerate(t) => {
                match t.value {
                    Variant::I8(_) => 1,
                    Variant::U8(_) => 1,
                    Variant::I16(_) => 2,
                    Variant::U16(_) => 2,
                    Variant::I32(_) => 4,
                    Variant::U32(_) => 4,
                    Variant::I64(_) => 8,
                    Variant::U64(_) => 8,
                }
            },
            TypeData::Modifier(t) => self.type_size_limited(t.underlying_type, depth),
            TypeData::ArgumentList(_) => 0,
            TypeData::Other(_) => 0,
        }
    }
}

} // verus!
