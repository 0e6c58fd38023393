//! The catalog: a frozen lookup from type index to parsed record, a
//! name-to-size table for forward-reference resolution, and the target
//! pointer width.
//!
//! Construction scans the records once. Every class or union record that is
//! not a forward declaration contributes `(linkage name, size)` to the
//! forward-reference table, the later record winning when two defining
//! records share a name. Construction then fails hard when some
//! forward-declared class or union could never be resolved, so that size
//! queries on a built catalog are total.

use std::collections::HashMap;
use vstd::prelude::*;
use crate::records::{
    ClassType, TypeData, TypeError, TypeIndex, UnionType, class_key, class_linkage_name, union_key,
    union_linkage_name,
};

verus! {

broadcast use vstd::std_specs::hash::group_hash_axioms;

/// Defensive cap on the depth of recursion through the type graph; chains
/// deeper than this are treated as malformed input.
pub const DEPTH_LIMIT: u32 = 256;

#[verifier::external_type_specification]
#[verifier::external_body]
pub struct ExFxHasher(fxhash::FxHasher);

#[verifier::external_type_specification]
#[verifier::external_body]
#[verifier::reject_recursive_types(H)]
pub struct ExBuildHasherDefault<H>(core::hash::BuildHasherDefault<H>);

/// The forward-reference table: linkage name to byte size, keyed by the
/// name's characters, as fxhash's map hashes and compares keys by content.
pub type FwdRefSize = fxhash::FxHashMap<String, u32>;

/// What the forward-reference table holds: its entries as a map from
/// linkage name to byte size.
pub uninterp spec fn fwd_contents(m: FwdRefSize) -> Map<Seq<char>, u32>;

/// Relies on fxhash's `FxHashMap::default` (a std `HashMap` with the Fx
/// hasher): a fresh map holds no entry.
#[verifier::external_body]
fn fwd_new() -> (ret: FwdRefSize)
    ensures
        match ret {
            m => fwd_contents(m) == Map::<Seq<char>, u32>::empty(),
        },
{
    fxhash::FxHashMap::default()
}

/// Relies on `HashMap::insert` with fxhash's hasher: the entry for `k` is
/// set to `v`, replacing any entry with an equal key; other entries keep
/// their values.
#[verifier::external_body]
pub(crate) fn fwd_insert(m: &mut FwdRefSize, k: String, v: u32)
    ensures
        fwd_contents(*final(m)) == fwd_contents(*old(m)).insert(k@, v),
{
    m.insert(k, v);
}

/// Relies on `HashMap::get` with fxhash's hasher: returns the value stored
/// under `k`, if any.
#[verifier::external_body]
pub(crate) fn fwd_get(m: &FwdRefSize, k: &String) -> (r: Option<u32>)
    ensures
        match r {
            Some(v) => fwd_contents(*m).contains_key(k@) && fwd_contents(*m)[k@] == v,
            None => !fwd_contents(*m).contains_key(k@),
        },
{
    m.get(k).copied()
}

/// The catalog over parsed type records. Built once, then queried through
/// shared references only.
pub struct TypeDumper {
    pub records: HashMap<TypeIndex, TypeData>,
    pub fwd: FwdRefSize,
    pub ptr_size: u32,
}

/// The `(linkage name, size)` entry a record contributes to the
/// forward-reference table, if any: defining class and union records only.
pub open spec fn defined_size_entry(t: TypeData) -> Option<(Seq<char>, u32)> {
    match t {
        TypeData::Class(c) => if !c.forward_reference {
            Some((class_linkage_name(c), c.size))
        } else {
            None
        },
        TypeData::Union(u) => if !u.forward_reference {
            Some((union_linkage_name(u), u.size))
        } else {
            None
        },
        _ => None,
    }
}

/// The linkage name a record must find in the forward-reference table, if
/// any: forward-declared class and union records only.
pub open spec fn needed_size_name(t: TypeData) -> Option<Seq<char>> {
    match t {
        TypeData::Class(c) => if c.forward_reference {
            Some(class_linkage_name(c))
        } else {
            None
        },
        TypeData::Union(u) => if u.forward_reference {
            Some(union_linkage_name(u))
        } else {
            None
        },
        _ => None,
    }
}

/// Whether a record's size can be resolved against the given table.
pub open spec fn resolvable(t: TypeData, table: Map<Seq<char>, u32>) -> bool {
    match needed_size_name(t) {
        Some(n) => table.contains_key(n),
        None => true,
    }
}

/// The index lookup that a sequence of `(index, record)` pairs builds, a
/// later pair winning on a repeated index.
pub open spec fn records_table(rs: Seq<(TypeIndex, TypeData)>) -> Map<TypeIndex, TypeData>
    decreases rs.len(),
{
    if rs.len() == 0 {
        Map::empty()
    } else {
        records_table(rs.drop_last()).insert(rs.last().0, rs.last().1)
    }
}

/// The forward-reference table that a sequence of records builds, a later
/// defining record winning on a repeated name.
pub open spec fn fwd_table(rs: Seq<(TypeIndex, TypeData)>) -> Map<Seq<char>, u32>
    decreases rs.len(),
{
    if rs.len() == 0 {
        Map::empty()
    } else {
        let m = fwd_table(rs.drop_last());
        match defined_size_entry(rs.last().1) {
            Some(e) => m.insert(e.0, e.1),
            None => m,
        }
    }
}

/// Whether some pair of `rs` supplies the entry the built table holds
/// under `k`.
pub open spec fn table_entry_from(rs: Seq<(TypeIndex, TypeData)>, k: TypeIndex) -> bool {
    exists|j: int|
        0 <= j < rs.len() && (#[trigger] rs[j]).0 == k && rs[j].1 == records_table(rs)[k]
}

proof fn lemma_records_table_membership(rs: Seq<(TypeIndex, TypeData)>)
    ensures
        forall|k: TypeIndex| records_table(rs).contains_key(k) ==> #[trigger] table_entry_from(
            rs,
            k,
        ),
    decreases rs.len(),
{
    if rs.len() > 0 {
        lemma_records_table_membership(rs.drop_last());
        assert forall|k: TypeIndex| records_table(rs).contains_key(k) implies #[trigger]
        table_entry_from(rs, k) by {
            if k == rs.last().0 {
                assert(rs[rs.len() - 1].0 == k && rs[rs.len() - 1].1 == records_table(rs)[k]);
            } else {
                let prev = records_table(rs.drop_last());
                assert(prev.contains_key(k) && prev[k] == records_table(rs)[k]);
                assert(table_entry_from(rs.drop_last(), k));
                let j = choose|j: int|
                    0 <= j < rs.drop_last().len() && (#[trigger] rs.drop_last()[j]).0 == k
                        && rs.drop_last()[j].1 == prev[k];
                assert(rs[j] == rs.drop_last()[j]);
                assert(rs[j].0 == k && rs[j].1 == records_table(rs)[k]);
            }
        }
    } else {
        assert(records_table(rs) == Map::<TypeIndex, TypeData>::empty());
        assert(forall|k: TypeIndex| !(#[trigger] records_table(rs).contains_key(k)));
    }
}

impl TypeDumper {
    /// The parsed record stored under an index, if any.
    pub open spec fn spec_find(self, index: TypeIndex) -> Option<TypeData> {
        if self.records@.contains_key(index) {
            Some(self.records@[index])
        } else {
            None
        }
    }

    /// The forward-reference table as a map from linkage name to size.
    pub open spec fn fwd_map(self) -> Map<Seq<char>, u32> {
        fwd_contents(self.fwd)
    }

    /// Every forward-declared class or union in the catalog finds its size
    /// in the forward-reference table. Holds of every catalog that
    /// construction returns; size queries then never meet an unresolvable
    /// forward reference.
    pub open spec fn catalog_wf(self) -> bool {
        forall|i: TypeIndex|
            self.records@.contains_key(i) ==> resolvable(#[trigger] self.records@[i], self.fwd_map())
    }

    /// Builds the catalog from parsed records: records the size of every
    /// defining class/union under its linkage name, later records winning,
    /// and fails with `MissingDefinition` exactly when some forward-declared
    /// class or union has no entry to resolve against.
    pub fn new(records: Vec<(TypeIndex, TypeData)>, ptr_size: u32) -> (r: Result<
        TypeDumper,
        TypeError,
    >)
        ensures
            match r {
                Ok(d) => {
                    &&& d.records@ == records_table(records@)
                    &&& d.fwd_map() == fwd_table(records@)
                    &&& d.ptr_size == ptr_size
                    &&& d.catalog_wf()
                    &&& forall|j: int|
                        0 <= j < records@.len() ==> resolvable(
                            #[trigger] records@[j].1,
                            fwd_table(records@),
                        )
                },
                Err(e) => {
                    &&& e == TypeError::MissingDefinition
                    &&& exists|j: int|
                        0 <= j < records@.len() && match needed_size_name(
                            #[trigger] records@[j].1,
                        ) {
                            Some(n) => !fwd_table(records@).contains_key(n),
                            None => false,
                        }
                },
            },
    {
        let ghost all = records@;
        let n = records.len();

        let mut fwd = fwd_new();
        let mut i: usize = 0;
        while i < n
            invariant
                0 <= i <= n,
                n == records@.len(),
                records@ == all,
                fwd_contents(fwd) == fwd_table(all.take(i as int)),
            decreases n - i,
        {
            proof {
                assert(all.take(i + 1).drop_last() =~= all.take(i as int));
            }
            match &records[i].1 {
                TypeData::Class(c) => {
                    if !c.forward_reference {
                        let key = class_key(c).clone();
                        fwd_insert(&mut fwd, key, c.size);
                    }
                },
                TypeData::Union(u) => {
                    if !u.forward_reference {
                        let key = union_key(u).clone();
                        fwd_insert(&mut fwd, key, u.size);
                    }
                },
                _ => {},
            }
            i = i + 1;
        }
        proof {
            assert(all.take(n as int) =~= all);
        }

        let mut i: usize = 0;
        while i < n
            invariant
                0 <= i <= n,
                n == records@.len(),
                records@ == all,
                fwd_contents(fwd) == fwd_table(all),
                forall|j: int|
                    0 <= j < i ==> resolvable(#[trigger] all[j].1, fwd_table(all)),
            decreases n - i,
        {
            let missing: bool = match &records[i].1 {
                TypeData::Class(c) => {
                    if c.forward_reference {
                        fwd_get(&fwd, class_key(c)).is_none()
                    } else {
                        false
                    }
                },
                TypeData::Union(u) => {
                    if u.forward_reference {
                        fwd_get(&fwd, union_key(u)).is_none()
                    } else {
                        false
                    }
                },
                _ => false,
            };
            if missing {
                proof {
                    assert(match needed_size_name(all[i as int].1) {
                        Some(nm) => !fwd_table(all).contains_key(nm),
                        None => false,
                    });
                }
                return Err(TypeError::MissingDefinition);
            }
            i = i + 1;
        }

        let mut map: HashMap<TypeIndex, TypeData> = HashMap::new();
        let mut records = records;
        let mut i: usize = 0;
        while i < n
            invariant
                0 <= i <= n,
                n == all.len(),
                records@ =~= all.skip(i as int),
                map@ == records_table(all.take(i as int)),
            decreases n - i,
        {
            let (idx, data) = records.remove(0);
            proof {
                assert(all.take(i + 1).drop_last() =~= all.take(i as int));
                assert(all.take(i + 1).last() == all[i as int]);
                assert(all.skip(i as int)[0] == all[i as int]);
                assert(all.skip(i as int).subrange(
                    1,
                    all.skip(i as int).len() as int,
                ) =~= all.skip(i + 1));
            }
            map.insert(idx, data);
            i = i + 1;
        }
        proof {
            assert(all.take(n as int) =~= all);
        }

        let d = TypeDumper { records: map, fwd, ptr_size };
        proof {
            lemma_records_table_membership(all);
            assert forall|k: TypeIndex| d.records@.contains_key(k) implies resolvable(
                #[trigger] d.records@[k],
                d.fwd_map(),
            ) by {
                assert(table_entry_from(all, k));
                let j = choose|j: int|
                    0 <= j < all.len() && (#[trigger] all[j]).0 == k && all[j].1 == records_table(
                        all,
                    )[k];
                assert(resolvable(all[j].1, fwd_table(all)));
            }
        }
        Ok(d)
    }

    /// Returns the record stored under `index`, or fails: an index absent
    /// from the catalog is malformed input.
    pub fn find(&self, index: TypeIndex) -> (r: Result<&TypeData, TypeError>)
        ensures
            match r {
                Ok(t) => self.spec_find(index) == Some(*t),
                Err(e) => self.spec_find(index) is None && e == TypeError::UnknownIndex(index),
            },
    {
        match self.records.get(&index) {
            Some(t) => Ok(t),
            None => Err(TypeError::UnknownIndex(index)),
        }
    }
}

} // verus!
