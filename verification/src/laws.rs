//! Laws of the catalog queries: forward-reference round trips, pointer
//! widths on a 64-bit target, and determinism of size and print queries
//! over a frozen catalog.

use vstd::prelude::*;
use crate::catalog::{DEPTH_LIMIT, TypeDumper, defined_size_entry, fwd_table};
use crate::printer::text_matches;
use crate::records::{ClassType, TypeData, TypeError, TypeIndex, class_linkage_name};

verus! {

/// A defining class or union record that no later defining record shadows
/// owns its entry in the forward-reference table built from the records:
/// the table maps its linkage name to its stored size.
pub proof fn lemma_fwd_table_last_definition(
    rs: Seq<(TypeIndex, TypeData)>,
    j: int,
    nm: Seq<char>,
    sz: u32,
)
    requires
        0 <= j < rs.len(),
        defined_size_entry(rs[j].1) == Some((nm, sz)),
        forall|k: int|
            j < k < rs.len() ==> (match defined_size_entry(#[trigger] rs[k].1) {
                Some(e2) => e2.0 != nm,
                None => true,
            }),
    ensures
        fwd_table(rs).contains_key(nm),
        fwd_table(rs)[nm] == sz,
    decreases rs.len(),
{
    if j == rs.len() - 1 {
        assert(fwd_table(rs) == fwd_table(rs.drop_last()).insert(nm, sz));
    } else {
        assert(rs.drop_last()[j] == rs[j]);
        lemma_fwd_table_last_definition(rs.drop_last(), j, nm, sz);
        match defined_size_entry(rs.last().1) {
            Some(e) => {
                assert(e.0 != nm);
            },
            None => {},
        }
    }
}

/// Forward-reference round trip: when a catalog holds a defining class
/// record and a forward-declared class record of the same linkage name,
/// and the forward-reference table maps that name to the defining record's
/// size (which construction guarantees when no later defining record
/// shadows it), then both indices report that same size.
pub proof fn lemma_forward_ref_round_trip(
    d: &TypeDumper,
    i: TypeIndex,
    j: TypeIndex,
    def: ClassType,
    fwd: ClassType,
    depth: nat,
)
    requires
        depth >= 2,
        d.spec_find(i) == Some(TypeData::Class(def)),
        d.spec_find(j) == Some(TypeData::Class(fwd)),
        !def.forward_reference,
        fwd.forward_reference,
        class_linkage_name(fwd) == class_linkage_name(def),
        d.fwd_map().contains_key(class_linkage_name(def)),
        d.fwd_map()[class_linkage_name(def)] == def.size,
    ensures
        d.spec_type_size(i, depth) == def.size,
        d.spec_type_size(j, depth) == def.size,
{
    assert(d.spec_type_size(i, depth) == d.spec_data_size(
        TypeData::Class(def),
        (depth - 1) as nat,
    ));
    assert(d.spec_type_size(j, depth) == d.spec_data_size(
        TypeData::Class(fwd),
        (depth - 1) as nat,
    ));
}

/// Forward-reference round trip from construction: in a catalog whose
/// forward-reference table was built from `records` (what construction
/// ensures), a defining class record that no later defining record shadows
/// fixes the size reported for every forward-declared class of the same
/// linkage name, and for itself.
pub proof fn lemma_catalog_forward_ref_round_trip(
    records: Seq<(TypeIndex, TypeData)>,
    d: &TypeDumper,
    ri: int,
    i: TypeIndex,
    j: TypeIndex,
    def: ClassType,
    declared: ClassType,
    depth: nat,
)
    requires
        depth >= 2,
        d.fwd_map() == fwd_table(records),
        0 <= ri < records.len(),
        records[ri].1 == TypeData::Class(def),
        !def.forward_reference,
        forall|k: int|
            ri < k < records.len() ==> (match defined_size_entry(#[trigger] records[k].1) {
                Some(e2) => e2.0 != class_linkage_name(def),
                None => true,
            }),
        d.spec_find(i) == Some(TypeData::Class(def)),
        d.spec_find(j) == Some(TypeData::Class(declared)),
        declared.forward_reference,
        class_linkage_name(declared) == class_linkage_name(def),
    ensures
        d.spec_type_size(i, depth) == def.size,
        d.spec_type_size(j, depth) == def.size,
{
    assert(defined_size_entry(records[ri].1) == Some((class_linkage_name(def), def.size)));
    lemma_fwd_table_last_definition(records, ri, class_linkage_name(def), def.size);
    lemma_forward_ref_round_trip(d, i, j, def, declared, depth);
}

/// On a 64-bit target every procedure and member-function record has size
/// 8, as does every pointer record whose attributes were encoded with the
/// 64-bit width (a pointer record carries its own encoded width, so one
/// encoded otherwise is out of this law's reach).
pub proof fn lemma_pointer_width_on_64bit(d: &TypeDumper, index: TypeIndex, depth: nat)
    requires
        d.ptr_size == 8,
        depth >= 2,
        match d.spec_find(index) {
            Some(TypeData::Pointer(p)) => p.attributes.size == 8,
            Some(TypeData::Procedure(_)) => true,
            Some(TypeData::MemberFunction(_)) => true,
            _ => false,
        },
    ensures
        d.spec_type_size(index, depth) == 8,
{
    match d.spec_find(index) {
        Some(t) => {
            assert(d.spec_type_size(index, depth) == d.spec_data_size(t, (depth - 1) as nat));
        },
        None => {},
    }
}

/// Sizing an index twice yields the same value: each query equals one
/// function of the frozen catalog and the index.
pub proof fn lemma_size_idempotent(d: &TypeDumper, index: TypeIndex, r1: u32, r2: u32)
    requires
        r1 == d.spec_type_size(index, DEPTH_LIMIT as nat),
        r2 == d.spec_type_size(index, DEPTH_LIMIT as nat),
    ensures
        r1 == r2,
{
}

/// Printing an index twice yields identical output: two results that both
/// agree with the one specified text agree with each other.
pub proof fn lemma_print_idempotent(
    d: &TypeDumper,
    index: TypeIndex,
    r1: Result<String, TypeError>,
    r2: Result<String, TypeError>,
)
    requires
        text_matches(r1, d.spec_dump_index(index, DEPTH_LIMIT as nat)),
        text_matches(r2, d.spec_dump_index(index, DEPTH_LIMIT as nat)),
    ensures
        match r1 {
            Ok(a) => match r2 {
                Ok(b) => a@ == b@,
                Err(_) => false,
            },
            Err(e1) => match r2 {
                Ok(_) => false,
                Err(e2) => e1 == e2,
            },
        },
{
}

} // verus!
