//! Hydration: filling the tables of the model from the descriptors of the
//! files that `protoc` hands a plugin.
use crate::ast::file::{dependent_of, DependenciesInner, DependencyInner, DependentInner};
use crate::ast::fqn::{spec_package_fqn, FullyQualifiedName};
use crate::ast::node::{FileKey, PackageKey};
use crate::ast::enum_value;
use crate::ast::file::Hydrated;
use crate::ast::fqn::spec_qualify;
use crate::ast::location;
use crate::ast::node::{EnumKey, EnumValueKey, NodeKey};
use crate::ast::table::{EnumTable, EnumValueTable, FileTable, PackageTable};
use crate::ast::uninterpreted::chars_or_empty;
use crate::ast::container::ContainerKey;
use crate::ast::enums::{self, enum_named, WellKnownEnum};
use crate::descriptor::{EnumDescriptorProto, EnumValueDescriptorProto};
use crate::sync::{to_i32, Mutex};
use vstd::prelude::*;

verus! {

/// The dependents that the imports `all` add to the file whose key has the
/// number `k`, in order.
pub open spec fn dependents_added(all: Seq<DependencyInner>, k: u64) -> Seq<DependentInner>
    decreases all.len(),
{
    if all.len() == 0 {
        Seq::empty()
    } else {
        let prev = dependents_added(all.drop_last(), k);
        if all.last().dependency == FileKey(k) {
            prev.push(dependent_of(all.last()))
        } else {
            prev
        }
    }
}

proof fn lemma_dependents_added_none(all: Seq<DependencyInner>, k: u64)
    requires
        forall|j: int| 0 <= j < all.len() ==> #[trigger] all[j].dependency != FileKey(k),
    ensures
        dependents_added(all, k) == Seq::<DependentInner>::empty(),
    decreases all.len(),
{
    if all.len() > 0 {
        lemma_dependents_added_none(all.drop_last(), k);
    }
}

/// The dependents that the file numbered `k` of `before` had, or none for
/// a file that `before` does not hold.
pub open spec fn dependents_before(before: Map<u64, crate::ast::file::Inner>, k: u64) -> Seq<
    DependentInner,
> {
    if before.dom().contains(k) {
        before[k].dependents@
    } else {
        Seq::empty()
    }
}

/// The transitive dependents that the file numbered `k` of `before` had,
/// or none for a file that `before` does not hold.
pub open spec fn transitive_before(before: Map<u64, crate::ast::file::Inner>, k: u64) -> Seq<
    DependentInner,
> {
    if before.dom().contains(k) {
        before[k].transitive_dependents@
    } else {
        Seq::empty()
    }
}

/// Where the nodes of the enum `ds[i]` start among those that hydrating
/// the enums `ds` gives: two for each enum and one for each value before it.
pub open spec fn block_start(ds: Seq<EnumDescriptorProto>, i: int) -> int {
    2 * i + total_values(ds.subrange(0, i))
}

proof fn lemma_block_start_gap(ds: Seq<EnumDescriptorProto>, k: int, i: int)
    requires
        0 <= k < i <= ds.len(),
    ensures
        block_start(ds, k) + 2 <= block_start(ds, i),
    decreases i - k,
{
    lemma_total_values_prefix(ds, k);
    if k + 1 < i {
        lemma_block_start_gap(ds, k + 1, i);
    }
}

proof fn lemma_block_end(ds: Seq<EnumDescriptorProto>, k: int, i: int)
    requires
        0 <= k < i <= ds.len(),
    ensures
        block_start(ds, k) + 2 + ds[k].value@.len() <= block_start(ds, i),
{
    lemma_total_values_prefix(ds, k);
    if k + 1 < i {
        lemma_block_start_gap(ds, k + 1, i);
    }
}

/// `node` is the node, among those an enum named `enum_fqn` makes known, of
/// the value that `d` describes: its fully qualified name, and the key that
/// name has in `values`.
pub open spec fn value_node(
    node: (FullyQualifiedName, NodeKey),
    d: EnumValueDescriptorProto,
    enum_fqn: Seq<char>,
    values: EnumValueTable,
) -> bool {
    &&& node.0@ == spec_qualify(chars_or_empty(d.name), Some(enum_fqn))
    &&& values.find(node.0@) matches Some(v) && node.1 == NodeKey::EnumValue(EnumValueKey(v))
}

/// Where only the value nodes under the keys `vals` may have changed, and
/// `nodes` lists those keys after its first element, only the value nodes
/// that `nodes` names may have changed.
proof fn lemma_value_frame(
    before: Map<u64, enum_value::Inner>,
    after: Map<u64, enum_value::Inner>,
    vals: Seq<Hydrated<EnumValueKey>>,
    nodes: Seq<(FullyQualifiedName, NodeKey)>,
)
    requires
        forall|k: u64|
            before.dom().contains(k) && (forall|i: int| 0 <= i < vals.len() ==> #[trigger] vals[i].0.0 != k)
                ==> #[trigger] after[k] == before[k],
        nodes.len() == vals.len() + 1,
        forall|m: int| 0 <= m < vals.len() ==> #[trigger] nodes[m + 1].1 == NodeKey::EnumValue(vals[m].0),
    ensures
        forall|k: u64|
            before.dom().contains(k) && (forall|i: int|
                1 <= i < nodes.len() ==> #[trigger] nodes[i].1 != NodeKey::EnumValue(EnumValueKey(k)))
                ==> #[trigger] after[k] == before[k],
{
    assert forall|k: u64|
        before.dom().contains(k) && (forall|i: int|
            1 <= i < nodes.len() ==> #[trigger] nodes[i].1 != NodeKey::EnumValue(EnumValueKey(k)))
            implies #[trigger] after[k] == before[k] by {
        assert forall|m: int| 0 <= m < vals.len() implies #[trigger] vals[m].0.0 != k by {
            assert(nodes[m + 1].1 != NodeKey::EnumValue(EnumValueKey(k)));
        }
    }
}

/// The value node that `values` holds under the name of `node` is the one
/// that `d` describes, at the location `l`, of the enum `enum_key` in `file`
/// and `package`.
pub open spec fn value_stored(
    node: (FullyQualifiedName, NodeKey),
    d: EnumValueDescriptorProto,
    l: location::EnumValue,
    enum_key: EnumKey,
    file: FileKey,
    package: Option<PackageKey>,
    values: EnumValueTable,
) -> bool {
    values.find(node.0@) matches Some(v) && value_from(values.nodes()[v], d, l, enum_key, file, package)
}

/// Every enum node that `after` finds by a name keeps the package, file and
/// referrers of the node that `before` finds by that name; a node that
/// `before` does not find has none of them.
#[verifier::opaque]
pub open spec fn enums_kept(after: EnumTable, before: EnumTable) -> bool {
    forall|n: Seq<char>|
        #[trigger] after.find(n) matches Some(k) ==> match before.find(n) {
            Some(j) => {
                &&& after.nodes()[k].package == before.nodes()[j].package
                &&& after.nodes()[k].file == before.nodes()[j].file
                &&& after.nodes()[k].referenced_by == before.nodes()[j].referenced_by
            },
            None => {
                &&& after.nodes()[k].package is None
                &&& after.nodes()[k].file == FileKey(0)
                &&& after.nodes()[k].referenced_by@.len() == 0
            },
        }
}

/// What [`enums_kept`] says of the node found by the name `n`.
pub proof fn lemma_enums_kept_at(after: EnumTable, before: EnumTable, n: Seq<char>)
    requires
        enums_kept(after, before),
    ensures
        after.find(n) matches Some(k) ==> match before.find(n) {
            Some(j) => {
                &&& after.nodes()[k].package == before.nodes()[j].package
                &&& after.nodes()[k].file == before.nodes()[j].file
                &&& after.nodes()[k].referenced_by == before.nodes()[j].referenced_by
            },
            None => {
                &&& after.nodes()[k].package is None
                &&& after.nodes()[k].file == FileKey(0)
                &&& after.nodes()[k].referenced_by@.len() == 0
            },
        },
{
    reveal(enums_kept);
    assert(after.find(n) == after.find(n));
}

proof fn lemma_enums_kept_refl(t: EnumTable)
    ensures
        enums_kept(t, t),
{
    reveal(enums_kept);
}

proof fn lemma_enums_kept_trans(a: EnumTable, b: EnumTable, c: EnumTable)
    requires
        enums_kept(b, a),
        enums_kept(c, b),
        forall|n: Seq<char>| a.find(n) is Some ==> #[trigger] b.find(n) == a.find(n),
    ensures
        enums_kept(c, a),
{
    reveal(enums_kept);
    assert forall|n: Seq<char>| #[trigger] c.find(n) is Some implies match a.find(n) {
        Some(j) => {
            &&& c.nodes()[c.find(n)->0].package == a.nodes()[j].package
            &&& c.nodes()[c.find(n)->0].file == a.nodes()[j].file
            &&& c.nodes()[c.find(n)->0].referenced_by == a.nodes()[j].referenced_by
        },
        None => {
            &&& c.nodes()[c.find(n)->0].package is None
            &&& c.nodes()[c.find(n)->0].file == FileKey(0)
            &&& c.nodes()[c.find(n)->0].referenced_by@.len() == 0
        },
    } by {
        if b.find(n) is Some {
            let k = b.find(n)->0;
            assert(b.find(n) == Some(k));
        } else {
            assert(a.find(n) is None);
        }
    }
}

proof fn lemma_enums_kept_insert(t0: EnumTable, t1: EnumTable, fqn: Seq<char>, key: u64)
    requires
        t0.wf(),
        t1.find(fqn) == Some(key),
        forall|n: Seq<char>| n != fqn ==> #[trigger] t1.find(n) == t0.find(n),
        match t0.find(fqn) {
            Some(k0) => key == k0 && t1.nodes() == t0.nodes(),
            None => {
                &&& !t0.nodes().dom().contains(key)
                &&& t1.nodes() == t0.nodes().insert(key, t1.nodes()[key])
                &&& crate::ast::table::fresh_enum(t1.nodes()[key], fqn, EnumKey(key))
            },
        },
    ensures
        enums_kept(t1, t0),
        forall|n: Seq<char>| t0.find(n) is Some ==> #[trigger] t1.find(n) == t0.find(n),
{
    reveal(enums_kept);
    assert forall|n: Seq<char>| #[trigger] t1.find(n) is Some implies match t0.find(n) {
        Some(j) => {
            &&& t1.nodes()[t1.find(n)->0].package == t0.nodes()[j].package
            &&& t1.nodes()[t1.find(n)->0].file == t0.nodes()[j].file
            &&& t1.nodes()[t1.find(n)->0].referenced_by == t0.nodes()[j].referenced_by
        },
        None => {
            &&& t1.nodes()[t1.find(n)->0].package is None
            &&& t1.nodes()[t1.find(n)->0].file == FileKey(0)
            &&& t1.nodes()[t1.find(n)->0].referenced_by@.len() == 0
        },
    } by {
        t0.lemma_found(n);
        if n != fqn {
            assert(t1.find(n) == t0.find(n));
        }
    }
}

proof fn lemma_enums_kept_hydrate(t1: EnumTable, t2: EnumTable, key: u64)
    requires
        forall|n: Seq<char>| #[trigger] t2.find(n) == t1.find(n),
        t2.nodes() == t1.nodes().insert(key, t2.nodes()[key]),
        t2.nodes()[key].package == t1.nodes()[key].package,
        t2.nodes()[key].file == t1.nodes()[key].file,
        t2.nodes()[key].referenced_by == t1.nodes()[key].referenced_by,
    ensures
        enums_kept(t2, t1),
{
    reveal(enums_kept);
    assert forall|n: Seq<char>| #[trigger] t2.find(n) is Some implies match t1.find(n) {
        Some(j) => {
            &&& t2.nodes()[t2.find(n)->0].package == t1.nodes()[j].package
            &&& t2.nodes()[t2.find(n)->0].file == t1.nodes()[j].file
            &&& t2.nodes()[t2.find(n)->0].referenced_by == t1.nodes()[j].referenced_by
        },
        None => {
            &&& t2.nodes()[t2.find(n)->0].package is None
            &&& t2.nodes()[t2.find(n)->0].file == FileKey(0)
            &&& t2.nodes()[t2.find(n)->0].referenced_by@.len() == 0
        },
    } by {
        assert(t2.find(n) == t1.find(n));
    }
}

/// Every enum value node that `after` finds by a name keeps the path of the
/// node that `before` finds by that name; a node that `before` does not find
/// has an empty path.
#[verifier::opaque]
pub open spec fn values_kept(after: EnumValueTable, before: EnumValueTable) -> bool {
    forall|n: Seq<char>|
        #[trigger] after.find(n) matches Some(k) ==> match before.find(n) {
            Some(j) => {
                &&& after.nodes()[k].node_path == before.nodes()[j].node_path
            },
            None => {
                &&& after.nodes()[k].node_path@.len() == 0
            },
        }
}

proof fn lemma_values_kept_refl(t: EnumValueTable)
    ensures
        values_kept(t, t),
{
    reveal(values_kept);
}

proof fn lemma_values_kept_trans(a: EnumValueTable, b: EnumValueTable, c: EnumValueTable)
    requires
        values_kept(b, a),
        values_kept(c, b),
        forall|n: Seq<char>| a.find(n) is Some ==> #[trigger] b.find(n) == a.find(n),
    ensures
        values_kept(c, a),
{
    reveal(values_kept);
    assert forall|n: Seq<char>| #[trigger] c.find(n) is Some implies match a.find(n) {
        Some(j) => {
            &&& c.nodes()[c.find(n)->0].node_path == a.nodes()[j].node_path
        },
        None => {
            &&& c.nodes()[c.find(n)->0].node_path@.len() == 0
        },
    } by {
        if b.find(n) is Some {
            let k = b.find(n)->0;
            assert(b.find(n) == Some(k));
        } else {
            assert(a.find(n) is None);
        }
    }
}

proof fn lemma_values_kept_insert(t0: EnumValueTable, t1: EnumValueTable, fqn: Seq<char>, key: u64)
    requires
        t0.wf(),
        t1.find(fqn) == Some(key),
        forall|n: Seq<char>| n != fqn ==> #[trigger] t1.find(n) == t0.find(n),
        match t0.find(fqn) {
            Some(k0) => key == k0 && t1.nodes() == t0.nodes(),
            None => {
                &&& !t0.nodes().dom().contains(key)
                &&& t1.nodes() == t0.nodes().insert(key, t1.nodes()[key])
                &&& crate::ast::table::fresh_enum_value(t1.nodes()[key], fqn, EnumValueKey(key))
            },
        },
    ensures
        values_kept(t1, t0),
        forall|n: Seq<char>| t0.find(n) is Some ==> #[trigger] t1.find(n) == t0.find(n),
{
    reveal(values_kept);
    assert forall|n: Seq<char>| #[trigger] t1.find(n) is Some implies match t0.find(n) {
        Some(j) => {
            &&& t1.nodes()[t1.find(n)->0].node_path == t0.nodes()[j].node_path
        },
        None => {
            &&& t1.nodes()[t1.find(n)->0].node_path@.len() == 0
        },
    } by {
        t0.lemma_found(n);
        if n != fqn {
            assert(t1.find(n) == t0.find(n));
        }
    }
}

proof fn lemma_values_kept_hydrate(t1: EnumValueTable, t2: EnumValueTable, key: u64)
    requires
        forall|n: Seq<char>| #[trigger] t2.find(n) == t1.find(n),
        t2.nodes() == t1.nodes().insert(key, t2.nodes()[key]),
        t2.nodes()[key].node_path == t1.nodes()[key].node_path,
    ensures
        values_kept(t2, t1),
{
    reveal(values_kept);
    assert forall|n: Seq<char>| #[trigger] t2.find(n) is Some implies match t1.find(n) {
        Some(j) => {
            &&& t2.nodes()[t2.find(n)->0].node_path == t1.nodes()[j].node_path
        },
        None => {
            &&& t2.nodes()[t2.find(n)->0].node_path@.len() == 0
        },
    } by {
        assert(t2.find(n) == t1.find(n));
    }
}

/// The number of values of the enums `ds`.
pub open spec fn total_values(ds: Seq<EnumDescriptorProto>) -> nat
    decreases ds.len(),
{
    if ds.len() == 0 {
        0
    } else {
        total_values(ds.drop_last()) + ds.last().value@.len()
    }
}

proof fn lemma_total_values_prefix(ds: Seq<EnumDescriptorProto>, i: int)
    requires
        0 <= i < ds.len(),
    ensures
        total_values(ds.subrange(0, i + 1)) == total_values(ds.subrange(0, i)) + ds[i].value@.len(),
{
    assert(ds.subrange(0, i + 1).drop_last() =~= ds.subrange(0, i));
}

proof fn lemma_total_values_prefix_le(ds: Seq<EnumDescriptorProto>, i: int)
    requires
        0 <= i <= ds.len(),
    ensures
        total_values(ds.subrange(0, i)) <= total_values(ds),
    decreases ds.len() - i,
{
    if i < ds.len() {
        lemma_total_values_prefix(ds, i);
        lemma_total_values_prefix_le(ds, i + 1);
    } else {
        assert(ds.subrange(0, i) =~= ds);
    }
}

/// The elements of `v` in reverse order.
fn reversed<T>(v: Vec<T>) -> (r: Vec<T>)
    ensures
        r@ == v@.reverse(),
{
    let ghost all = v@;
    let mut rest = v;
    let mut out: Vec<T> = Vec::new();
    while rest.len() > 0
        invariant
            rest@ + out@.reverse() == all,
        decreases rest@.len(),
    {
        let ghost before = rest@;
        let ghost out_before = out@;
        let x = rest.pop().unwrap();
        out.push(x);
        assert(out@.reverse() =~= seq![x] + out_before.reverse());
        assert(before =~= rest@.push(x));
        assert(rest@ + out@.reverse() =~= before + out_before.reverse());
    }
    assert(out@.reverse().reverse() =~= out@);
    assert(out@.reverse() =~= all);
    assert(out@ =~= all.reverse());
    out
}

/// Whether `v` holds `x`.
fn contains_index(v: &Vec<i32>, x: i32) -> (r: bool)
    ensures
        r == v@.contains(x),
{
    let mut i: usize = 0;
    while i < v.len()
        invariant
            i <= v@.len(),
            forall|j: int| 0 <= j < i ==> v@[j] != x,
        decreases v@.len() - i,
    {
        if v[i] == x {
            assert(v@[i as int] == x);
            return true;
        }
        i = i + 1;
    }
    false
}

/// The tables that hydration fills.
pub struct Hydrate {
    pub packages: Mutex<PackageTable>,
    pub files: Mutex<FileTable>,
    pub enums: Mutex<EnumTable>,
    pub enum_values: Mutex<EnumValueTable>,
    pub well_known_package: PackageKey,
}

impl Hydrate {
    /// Empty tables.
    pub fn new() -> (r: Hydrate)
        ensures
            r.packages.value().wf(),
            r.files.value().wf(),
            r.packages.value().size() == 0,
            r.files.value().size() == 0,
            r.packages.value().nodes().dom() == Set::<u64>::empty(),
            r.files.value().nodes().dom() == Set::<u64>::empty(),
            r.enums.value().wf(),
            r.enum_values.value().wf(),
            r.enums.value().size() == 0,
            r.enum_values.value().size() == 0,
            r.enums.value().nodes().dom() == Set::<u64>::empty(),
            r.enum_values.value().nodes().dom() == Set::<u64>::empty(),
            r.well_known_package == PackageKey(0),
    {
        Hydrate {
            packages: Mutex::new(PackageTable::new()),
            files: Mutex::new(FileTable::new()),
            enums: Mutex::new(EnumTable::new()),
            enum_values: Mutex::new(EnumValueTable::new()),
            well_known_package: PackageKey(0),
        }
    }

    /// Whether `package` is the package of the well-known types.
    pub fn is_well_known(&self, package: Option<PackageKey>) -> (r: bool)
        ensures
            r == (package == Some(self.well_known_package)),
    {
        match package {
            Some(p) => p == self.well_known_package,
            None => false,
        }
    }

    /// The key of the package named `fqn`, stored anew where the table holds
    /// none.
    pub fn package_key(&mut self, fqn: FullyQualifiedName) -> (k: PackageKey)
        requires
            old(self).packages.value().wf(),
            old(self).packages.value().size() < u32::MAX - 1,
        ensures
            final(self).packages.value().wf(),
            final(self).packages.value().find(fqn@) == Some(k.0),
            forall|n: Seq<char>|
                n != fqn@ ==> #[trigger] final(self).packages.value().find(n) == old(self).packages.value().find(n),
            match old(self).packages.value().find(fqn@) {
                Some(k0) => k.0 == k0 && final(self).packages.value().nodes() == old(self).packages.value().nodes(),
                None => {
                    &&& !old(self).packages.value().nodes().dom().contains(k.0)
                    &&& final(self).packages.value().nodes() == old(self).packages.value().nodes().insert(
                        k.0,
                        final(self).packages.value().nodes()[k.0],
                    )
                    &&& crate::ast::table::fresh_package(final(self).packages.value().nodes()[k.0], fqn@, k)
                },
            },
            final(self).well_known_package == old(self).well_known_package,
            final(self).files == old(self).files,
            final(self).enums == old(self).enums,
            final(self).enum_values == old(self).enum_values,
    {
        self.packages.lock().get_or_insert_key(fqn)
    }

    /// The key of the file named `fqn`, stored anew where the table holds
    /// none.
    pub fn file_key(&mut self, fqn: FullyQualifiedName) -> (k: FileKey)
        requires
            old(self).files.value().wf(),
            old(self).files.value().size() < u32::MAX - 1,
        ensures
            final(self).files.value().wf(),
            final(self).files.value().find(fqn@) == Some(k.0),
            forall|n: Seq<char>|
                n != fqn@ ==> #[trigger] final(self).files.value().find(n) == old(self).files.value().find(n),
            match old(self).files.value().find(fqn@) {
                Some(k0) => k.0 == k0 && final(self).files.value().nodes() == old(self).files.value().nodes(),
                None => {
                    &&& !old(self).files.value().nodes().dom().contains(k.0)
                    &&& final(self).files.value().nodes() == old(self).files.value().nodes().insert(
                        k.0,
                        final(self).files.value().nodes()[k.0],
                    )
                    &&& crate::ast::table::fresh_file(final(self).files.value().nodes()[k.0], fqn@, k)
                },
            },
            final(self).packages == old(self).packages,
            final(self).well_known_package == old(self).well_known_package,
            final(self).enums == old(self).enums,
            final(self).enum_values == old(self).enum_values,
    {
        self.files.lock().get_or_insert_key(fqn)
    }

    /// The key and fully qualified name of the package that a file declares
    /// by the name `package`; none where it declares no package or the empty
    /// one. A package met for the first time is stored, with its name.
    pub fn hydrate_package(&mut self, package: Option<String>) -> (r: (
        Option<PackageKey>,
        Option<FullyQualifiedName>,
    ))
        requires
            old(self).packages.value().wf(),
            old(self).packages.value().size() < u32::MAX - 1,
        ensures
            final(self).packages.value().wf(),
            final(self).well_known_package == old(self).well_known_package,
            final(self).files == old(self).files,
            final(self).enums == old(self).enums,
            final(self).enum_values == old(self).enum_values,
            match package {
                Some(p) if p@.len() > 0 => {
                    &&& r.0 matches Some(k) && final(self).packages.value().find(
                        spec_package_fqn(p@),
                    ) == Some(k.0) && final(self).packages.value().nodes()[k.0].name == p
                        && final(self).packages.value().nodes()[k.0].fqn@ == spec_package_fqn(p@)
                    &&& r.1 matches Some(f) && f@ == spec_package_fqn(p@)
                    &&& match old(self).packages.value().find(spec_package_fqn(p@)) {
                        Some(j) => final(self).packages.value().nodes()[r.0.unwrap().0] == (
                        crate::ast::package::Inner { name: p, ..old(self).packages.value().nodes()[j] }),
                        None => {
                            let node = final(self).packages.value().nodes()[r.0.unwrap().0];
                            &&& node.key == r.0.unwrap()
                            &&& !node.is_well_known
                            &&& node.files@.len() == 0
                            &&& node.comments@.len() == 0
                        },
                    }
                    &&& forall|n: Seq<char>|
                        n != spec_package_fqn(p@) ==> #[trigger] final(self).packages.value().find(n)
                            == old(self).packages.value().find(n)
                    &&& forall|k: u64|
                        k != r.0.unwrap().0 ==> (#[trigger] final(self).packages.value().nodes().dom().contains(k)
                            <==> old(self).packages.value().nodes().dom().contains(k))
                    &&& forall|k: u64|
                        k != r.0.unwrap().0 && old(self).packages.value().nodes().dom().contains(k)
                            ==> #[trigger] final(self).packages.value().nodes()[k] == old(
                            self,
                        ).packages.value().nodes()[k]
                },
                _ => r.0 is None && r.1 is None && *final(self) == *old(self),
            },
    {
        let package = match package {
            Some(p) => p,
            None => return (None, None),
        };
        if package.as_str().is_empty() {
            return (None, None);
        }
        let fqn = FullyQualifiedName::for_package(package.as_str());
        let table = self.packages.lock();
        let key = table.get_or_insert_key(fqn.duplicate());
        proof {
            table.lemma_found(fqn@);
        }
        table.set_name(key, package);
        (Some(key), Some(fqn))
    }

    /// The imports of the file `dependent`: the files named in
    /// `dependencies_by_fqn`, in order, each public or weak where its index is
    /// among `public_dependencies` or `weak_dependencies`, none of them used
    /// yet. Each imported file is found by its name, or stored anew, and
    /// records the import among its dependents.
    #[verifier::rlimit(60)]
    pub fn hydrate_dependencies(
        &mut self,
        dependent: FileKey,
        dependencies_by_fqn: Vec<String>,
        public_dependencies: Vec<i32>,
        weak_dependencies: Vec<i32>,
    ) -> (r: DependenciesInner)
        requires
            old(self).files.value().wf(),
            old(self).files.value().size() + dependencies_by_fqn@.len() < u32::MAX - 1,
            dependencies_by_fqn@.len() <= i32::MAX + 1,
        ensures
            final(self).files.value().wf(),
            final(self).packages == old(self).packages,
            final(self).well_known_package == old(self).well_known_package,
            final(self).enums == old(self).enums,
            final(self).enum_values == old(self).enum_values,
            r.all@.len() == dependencies_by_fqn@.len(),
            forall|i: int|
                0 <= i < r.all@.len() ==> {
                    &&& final(self).files.value().find(dependencies_by_fqn@[i]@) == Some(
                        #[trigger] r.all@[i].dependency.0,
                    )
                    &&& r.all@[i] == (DependencyInner {
                        is_used: false,
                        is_public: public_dependencies@.contains(i as i32),
                        is_weak: weak_dependencies@.contains(i as i32),
                        dependent,
                        dependency: r.all@[i].dependency,
                    })
                },
            r.public@ == r.all@.filter(|d: DependencyInner| d.is_public),
            r.weak@ == r.all@.filter(|d: DependencyInner| d.is_weak),
            r.unused@.len() == 0,
            forall|n: Seq<char>|
                (forall|i: int| 0 <= i < dependencies_by_fqn@.len() ==> n != #[trigger] dependencies_by_fqn@[i]@)
                    ==> #[trigger] final(self).files.value().find(n) == old(self).files.value().find(n),
            forall|k: u64|
                old(self).files.value().nodes().dom().contains(k) ==> final(self).files.value().nodes().dom().contains(k),
            forall|k: u64| #[trigger]
                final(self).files.value().nodes().dom().contains(k) && !old(
                    self,
                ).files.value().nodes().dom().contains(k) ==> {
                    &&& final(self).files.value().nodes()[k].key == FileKey(k)
                    &&& crate::ast::file::blank_file_but_dependents(
                        crate::ast::file::Inner { key: FileKey(0), ..final(self).files.value().nodes()[k] },
                        final(self).files.value().nodes()[k].fqn@,
                    )
                },
            forall|k: u64| #[trigger]
                old(self).files.value().nodes().dom().contains(k) ==> final(self).files.value().nodes()[k]
                    == (crate::ast::file::Inner {
                    dependents: final(self).files.value().nodes()[k].dependents,
                    transitive_dependents: final(self).files.value().nodes()[k].transitive_dependents,
                    ..old(self).files.value().nodes()[k]
                }),
            forall|k: u64| #[trigger]
                final(self).files.value().nodes().dom().contains(k) ==> {
                    &&& final(self).files.value().nodes()[k].dependents@ == dependents_before(
                        old(self).files.value().nodes(),
                        k,
                    ) + dependents_added(r.all@, k)
                    &&& final(self).files.value().nodes()[k].transitive_dependents@
                        == transitive_before(old(self).files.value().nodes(), k)
                        + dependents_added(r.all@, k)
                },
    {
        let ghost deps = dependencies_by_fqn@;
        let ghost start = old(self).files.value();
        let mut all: Vec<DependencyInner> = Vec::new();
        let mut public: Vec<DependencyInner> = Vec::new();
        let mut weak: Vec<DependencyInner> = Vec::new();
        let mut i: usize = 0;
        for dependency in it: dependencies_by_fqn.into_iter()
            invariant
                it.seq() == deps,
                i == it.index(),
                deps.len() <= i32::MAX + 1,
                self.files.value().wf(),
                self.files.value().size() <= start.size() + i,
                start.size() + deps.len() < u32::MAX - 1,
                self.packages == old(self).packages,
                self.well_known_package == old(self).well_known_package,
                self.enums == old(self).enums,
                self.enum_values == old(self).enum_values,
                all@.len() == i,
                forall|j: int|
                    0 <= j < i ==> {
                        &&& self.files.value().find(deps[j]@) == Some(
                            #[trigger] all@[j].dependency.0,
                        )
                        &&& self.files.value().nodes().dom().contains(all@[j].dependency.0)
                        &&& all@[j] == (DependencyInner {
                            is_used: false,
                            is_public: public_dependencies@.contains(j as i32),
                            is_weak: weak_dependencies@.contains(j as i32),
                            dependent,
                            dependency: all@[j].dependency,
                        })
                    },
                public@ == all@.filter(|d: DependencyInner| d.is_public),
                weak@ == all@.filter(|d: DependencyInner| d.is_weak),
                forall|n: Seq<char>|
                    (forall|j: int| 0 <= j < i ==> n != #[trigger] deps[j]@) ==> #[trigger] self.files.value().find(n)
                        == start.find(n),
                forall|k: u64|
                    start.nodes().dom().contains(k) ==> self.files.value().nodes().dom().contains(k),
                forall|k: u64| #[trigger]
                    self.files.value().nodes().dom().contains(k) && !start.nodes().dom().contains(k) ==> {
                        &&& self.files.value().nodes()[k].key == FileKey(k)
                        &&& crate::ast::file::blank_file_but_dependents(
                            crate::ast::file::Inner { key: FileKey(0), ..self.files.value().nodes()[k] },
                            self.files.value().nodes()[k].fqn@,
                        )
                    },
                forall|k: u64| #[trigger]
                    start.nodes().dom().contains(k) ==> self.files.value().nodes()[k]
                        == (crate::ast::file::Inner {
                        dependents: self.files.value().nodes()[k].dependents,
                        transitive_dependents: self.files.value().nodes()[k].transitive_dependents,
                        ..start.nodes()[k]
                    }),
                forall|k: u64| #[trigger]
                    self.files.value().nodes().dom().contains(k) ==> {
                        &&& self.files.value().nodes()[k].dependents@ == dependents_before(
                            start.nodes(),
                            k,
                        ) + dependents_added(all@, k)
                        &&& self.files.value().nodes()[k].transitive_dependents@
                            == transitive_before(start.nodes(), k) + dependents_added(all@, k)
                    },
        {
            let index = to_i32(i);
            let is_weak = contains_index(&weak_dependencies, index);
            let is_public = contains_index(&public_dependencies, index);
            let ghost d = dependency;
            let fqn = FullyQualifiedName::from(dependency);
            let ghost name = fqn@;
            proof {
                crate::ast::fqn::lemma_from_string(d);
            }
            let files = self.files.lock();
            let ghost before = files.nodes();
            let ghost all_before = all@;
            let key = files.get_or_insert_key(fqn);
            proof {
                if !before.dom().contains(key.0) {
                    assert forall|j: int| 0 <= j < all_before.len() implies #[trigger] all_before[j].dependency
                        != FileKey(key.0) by {
                        assert(before.dom().contains(all_before[j].dependency.0));
                    }
                    lemma_dependents_added_none(all_before, key.0);
                }
            }
            let dep = DependencyInner { is_used: false, is_public, is_weak, dependent, dependency: key };
            let ghost mid = files.nodes();
            files.add_dependent(key, dep.as_dependent_inner());
            proof {
                let after = files.nodes();
                assert forall|k: u64| #[trigger]
                    after.dom().contains(k) && !start.nodes().dom().contains(k) implies {
                        &&& after[k].key == FileKey(k)
                        &&& crate::ast::file::blank_file_but_dependents(
                            crate::ast::file::Inner { key: FileKey(0), ..after[k] },
                            after[k].fqn@,
                        )
                    } by {
                    assert(mid.dom().contains(k));
                    if before.dom().contains(k) {
                        assert(before.dom().contains(k) && !start.nodes().dom().contains(k));
                        assert(mid[k] == before[k]);
                    }
                }
            }
            all.push(dep);
            if is_public {
                public.push(dep);
            }
            if is_weak {
                weak.push(dep);
            }
            proof {
                reveal(Seq::filter);
                assert(all@.drop_last() =~= all_before);
                assert(name == deps[i as int]@);
            }
            i = i + 1;
        }
        assert(all@.len() == deps.len());
        assert forall|j: int| 0 <= j < all@.len() implies self.files.value().find(deps[j]@) == Some(
            #[trigger] all@[j].dependency.0,
        ) by {}
        DependenciesInner { all, public, weak, unused: Vec::new() }
    }

    /// Hydrates the enum value that `descriptor` describes, named `fqn`,
    /// of the enum `enum_key`: its node is found by the name, or stored anew,
    /// and takes the value's name, number, location and options. The
    /// descriptor must carry options.
    pub fn hydrate_enum_value(
        &mut self,
        descriptor: EnumValueDescriptorProto,
        fqn: FullyQualifiedName,
        location: location::EnumValue,
        enum_key: EnumKey,
        file: FileKey,
        package: Option<PackageKey>,
    ) -> (r: Hydrated<EnumValueKey>)
        requires
            old(self).enum_values.value().wf(),
            old(self).enum_values.value().size() < u32::MAX - 1,
            descriptor.options is Some,
        ensures
            final(self).enum_values.value().wf(),
            final(self).packages == old(self).packages,
            final(self).well_known_package == old(self).well_known_package,
            final(self).files == old(self).files,
            final(self).enums == old(self).enums,
            values_kept(final(self).enum_values.value(), old(self).enum_values.value()),
            final(self).enum_values.value().find(fqn@) == Some(r.0.0),
            old(self).enum_values.value().find(fqn@) matches Some(k) ==> r.0.0 == k,
            r.1@ == fqn@,
            r.2@ == chars_or_empty(descriptor.name),
            final(self).enum_values.value().size() <= old(self).enum_values.value().size() + 1,
            forall|n: Seq<char>|
                n != fqn@ ==> #[trigger] final(self).enum_values.value().find(n) == old(
                    self,
                ).enum_values.value().find(n),
            final(self).enum_values.value().nodes().dom().contains(r.0.0),
            forall|k: u64|
                k != r.0.0 && old(self).enum_values.value().nodes().dom().contains(k)
                    ==> #[trigger] final(self).enum_values.value().nodes()[k] == old(
                    self,
                ).enum_values.value().nodes()[k],
            forall|k: u64|
                k != r.0.0 ==> (#[trigger] final(self).enum_values.value().nodes().dom().contains(k)
                    <==> old(self).enum_values.value().nodes().dom().contains(k)),
            value_from(
                final(self).enum_values.value().nodes()[r.0.0],
                descriptor,
                location,
                enum_key,
                file,
                package,
            ),
    {
        let table = self.enum_values.lock();
        let ghost t0 = *table;
        let key = table.get_or_insert_key(fqn);
        proof {
            lemma_values_kept_insert(t0, *table, fqn@, key.0);
        }
        let ghost t1 = *table;
        let name = match descriptor.name {
            Some(n) => n,
            None => String::new(),
        };
        let number = match descriptor.number {
            Some(n) => n,
            None => 0,
        };
        proof {
            table.lemma_found(fqn@);
        }
        let r = table.hydrate(
            key,
            enum_value::Hydrate {
                name,
                number,
                location: location.detail,
                options: descriptor.options,
                enum_key,
                file,
                package,
            },
        );
        proof {
            lemma_values_kept_hydrate(t1, *table, key.0);
            lemma_values_kept_trans(t0, t1, *table);
        }
        r
    }

    /// Hydrates the values `descriptors` of the enum `enum_key` named
    /// `enum_fqn`, each at the location of the same index in `locations`,
    /// which must be as many (each descriptor carrying options). Gives, for
    /// each value in order, its key, fully qualified name and name, and the
    /// nodes it makes known by name.
    pub fn hydrate_enum_values(
        &mut self,
        descriptors: Vec<EnumValueDescriptorProto>,
        locations: Vec<location::EnumValue>,
        enum_key: EnumKey,
        enum_fqn: FullyQualifiedName,
        file: FileKey,
        package: Option<PackageKey>,
    ) -> (r: (Vec<Hydrated<EnumValueKey>>, Vec<(FullyQualifiedName, NodeKey)>))
        requires
            locations@.len() == descriptors@.len(),
            forall|i: int| 0 <= i < descriptors@.len() ==> (#[trigger] descriptors@[i]).options is Some,
            old(self).enum_values.value().wf(),
            old(self).enum_values.value().size() + descriptors@.len() < u32::MAX - 1,
        ensures
            final(self).enum_values.value().wf(),
            final(self).packages == old(self).packages,
            final(self).well_known_package == old(self).well_known_package,
            final(self).files == old(self).files,
            final(self).enums == old(self).enums,
            final(self).enum_values.value().size() <= old(self).enum_values.value().size()
                + descriptors@.len(),
            forall|n: Seq<char>|
                old(self).enum_values.value().find(n) is Some
                    ==> #[trigger] final(self).enum_values.value().find(n)
                    == old(self).enum_values.value().find(n),
            forall|k: u64|
                old(self).enum_values.value().nodes().dom().contains(k)
                    ==> #[trigger] final(self).enum_values.value().nodes().dom().contains(k),
            forall|k: u64|
                old(self).enum_values.value().nodes().dom().contains(k) && (forall|i: int|
                    0 <= i < r.0@.len() ==> #[trigger] r.0@[i].0.0 != k)
                    ==> #[trigger] final(self).enum_values.value().nodes()[k]
                    == old(self).enum_values.value().nodes()[k],
            values_kept(final(self).enum_values.value(), old(self).enum_values.value()),
            r.0@.len() == descriptors@.len(),
            r.1@.len() == descriptors@.len(),
            forall|i: int|
                0 <= i < descriptors@.len() ==> {
                    &&& (#[trigger] r.0@[i]).1@ == spec_qualify(
                        chars_or_empty(descriptors@[i].name),
                        Some(enum_fqn@),
                    )
                    &&& r.0@[i].2@ == chars_or_empty(descriptors@[i].name)
                    &&& final(self).enum_values.value().find(r.0@[i].1@) == Some(r.0@[i].0.0)
                    &&& r.1@[i].0@ == r.0@[i].1@
                    &&& r.1@[i].1 == NodeKey::EnumValue(r.0@[i].0)
                },
            forall|i: int|
                0 <= i < descriptors@.len() && (forall|j: int|
                    i < j < descriptors@.len() ==> #[trigger] r.0@[j].1@ != r.0@[i].1@) ==> value_from(
                    final(self).enum_values.value().nodes()[(#[trigger] r.0@[i]).0.0],
                    descriptors@[i],
                    locations@[i],
                    enum_key,
                    file,
                    package,
                ),
    {
        let ghost ds = descriptors@;
        let ghost ls = locations@;
        let n = descriptors.len();
        let mut rest = reversed(locations);
        let mut values: Vec<Hydrated<EnumValueKey>> = Vec::new();
        let mut nodes: Vec<(FullyQualifiedName, NodeKey)> = Vec::new();
        let mut i: usize = 0;
        proof {
            lemma_values_kept_refl(self.enum_values.value());
        }
        assert(ls.subrange(0, n as int) =~= ls);
        for descriptor in it: descriptors.into_iter()
            invariant
                it.seq() == ds,
                i == it.index(),
                n == ds.len(),
                ls.len() == n,
                forall|k: int| 0 <= k < n ==> (#[trigger] ds[k]).options is Some,
                rest@ == ls.subrange(i as int, n as int).reverse(),
                self.enum_values.value().wf(),
                self.enum_values.value().size() <= old(self).enum_values.value().size() + i,
                old(self).enum_values.value().size() + n < u32::MAX - 1,
                self.packages == old(self).packages,
                self.well_known_package == old(self).well_known_package,
                self.files == old(self).files,
                self.enums == old(self).enums,
                forall|m: Seq<char>|
                    old(self).enum_values.value().find(m) is Some ==> #[trigger] self.enum_values.value().find(m)
                        == old(self).enum_values.value().find(m),
                forall|kk: u64|
                    old(self).enum_values.value().nodes().dom().contains(kk)
                        ==> #[trigger] self.enum_values.value().nodes().dom().contains(kk),
                forall|kk: u64|
                    old(self).enum_values.value().nodes().dom().contains(kk) && (forall|m: int|
                        0 <= m < i ==> #[trigger] values@[m].0.0 != kk)
                        ==> #[trigger] self.enum_values.value().nodes()[kk]
                        == old(self).enum_values.value().nodes()[kk],
                values_kept(self.enum_values.value(), old(self).enum_values.value()),
                values@.len() == i,
                nodes@.len() == i,
                forall|k: int|
                    0 <= k < i ==> {
                        &&& (#[trigger] values@[k]).1@ == spec_qualify(
                            chars_or_empty(ds[k].name),
                            Some(enum_fqn@),
                        )
                        &&& values@[k].2@ == chars_or_empty(ds[k].name)
                        &&& self.enum_values.value().find(values@[k].1@) == Some(values@[k].0.0)
                        &&& nodes@[k].0@ == values@[k].1@
                        &&& nodes@[k].1 == NodeKey::EnumValue(values@[k].0)
                    },
                forall|k: int|
                    0 <= k < i && (forall|j: int| k < j < i ==> #[trigger] values@[j].1@ != values@[k].1@)
                        ==> value_from(
                        self.enum_values.value().nodes()[(#[trigger] values@[k]).0.0],
                        ds[k],
                        ls[k],
                        enum_key,
                        file,
                        package,
                    ),
        {
            let ghost rest_before = rest@;
            assert(rest_before.last() == ls[i as int]);
            let loc = rest.pop().unwrap();
            assert(rest@ =~= ls.subrange(i + 1, n as int).reverse());
            let value_fqn = {
                let name: &str = match &descriptor.name {
                    Some(s) => s.as_str(),
                    None => "",
                };
                proof {
                    reveal_strlit("");
                }
                FullyQualifiedName::new(name, Some(enum_fqn.duplicate()))
            };
            let ghost table_before = self.enum_values.value();
            let ghost values_before = values@;
            let h = self.hydrate_enum_value(
                descriptor,
                value_fqn.duplicate(),
                loc,
                enum_key,
                file,
                package,
            );
            proof {
                lemma_values_kept_trans(old(self).enum_values.value(), table_before, self.enum_values.value());
            }
            let key = h.0;
            values.push(h);
            nodes.push((value_fqn, NodeKey::EnumValue(key)));
            proof {
                assert forall|kk: u64|
                    old(self).enum_values.value().nodes().dom().contains(kk) && (forall|m: int|
                        0 <= m <= i ==> #[trigger] values@[m].0.0 != kk)
                        implies #[trigger] self.enum_values.value().nodes()[kk]
                        == old(self).enum_values.value().nodes()[kk] by {
                    assert forall|m: int| 0 <= m < i implies #[trigger] values_before[m].0.0 != kk by {
                        assert(values@[m] == values_before[m]);
                    }
                    assert(values@[i as int].0.0 != kk);
                }
                let t = self.enum_values.value();
                assert forall|k: int| 0 <= k < i implies t.find(values_before[k].1@) == Some(
                    values_before[k].0.0,
                ) by {
                    if values_before[k].1@ == values@[i as int].1@ {
                        assert(table_before.find(values_before[k].1@) == Some(values_before[k].0.0));
                    }
                }
                assert forall|k: int|
                    0 <= k <= i && (forall|j: int| k < j <= i ==> #[trigger] values@[j].1@ != values@[k].1@)
                        implies value_from(
                        t.nodes()[(#[trigger] values@[k]).0.0],
                        ds[k],
                        ls[k],
                        enum_key,
                        file,
                        package,
                    ) by {
                    if k < i {
                        assert(values@[k] == values_before[k]);
                        assert(values@[i as int].1@ != values@[k].1@);
                        assert(forall|j: int| k < j < i ==> #[trigger] values_before[j].1@ != values_before[k].1@) by {
                            assert forall|j: int| k < j < i implies #[trigger] values_before[j].1@ != values_before[k].1@ by {
                                assert(values@[j] == values_before[j]);
                            }
                        }
                        table_before.lemma_found(values_before[k].1@);
                        t.lemma_find_injective(values@[i as int].1@, values@[k].1@);
                    }
                }
            }
            i = i + 1;
        }
        (values, nodes)
    }

    /// Hydrates the enum that `descriptor` describes, named `fqn`, at
    /// `location` in `container`: first its values, then the enum itself,
    /// which is well known where it lies in the package of the well-known
    /// types and bears one of their names. Gives its key, fully qualified name
    /// and name, and the nodes it makes known: itself, then its values.
    #[verifier::rlimit(100)]
    #[verifier::spinoff_prover]
    pub fn hydrate_enum(
        &mut self,
        descriptor: EnumDescriptorProto,
        fqn: FullyQualifiedName,
        location: location::Enum,
        container: ContainerKey,
        file: FileKey,
        package: Option<PackageKey>,
    ) -> (r: (Hydrated<EnumKey>, Vec<(FullyQualifiedName, NodeKey)>))
        requires
            location.values@.len() == descriptor.value@.len(),
            forall|i: int|
                0 <= i < descriptor.value@.len() ==> (#[trigger] descriptor.value@[i]).options is Some,
            old(self).enums.value().wf(),
            old(self).enums.value().size() < u32::MAX - 1,
            old(self).enum_values.value().wf(),
            old(self).enum_values.value().size() + descriptor.value@.len() < u32::MAX - 1,
        ensures
            final(self).enums.value().wf(),
            final(self).enum_values.value().wf(),
            final(self).packages == old(self).packages,
            final(self).well_known_package == old(self).well_known_package,
            final(self).files == old(self).files,
            final(self).enums.value().size() <= old(self).enums.value().size() + 1,
            final(self).enum_values.value().size() <= old(self).enum_values.value().size()
                + descriptor.value@.len(),
            final(self).enums.value().find(fqn@) == Some(r.0.0.0),
            old(self).enums.value().find(fqn@) matches Some(k) ==> r.0.0.0 == k,
            forall|n: Seq<char>|
                n != fqn@ ==> #[trigger] final(self).enums.value().find(n) == old(
                    self,
                ).enums.value().find(n),
            forall|n: Seq<char>|
                old(self).enum_values.value().find(n) is Some
                    ==> #[trigger] final(self).enum_values.value().find(n)
                    == old(self).enum_values.value().find(n),
            forall|k: u64|
                old(self).enum_values.value().nodes().dom().contains(k)
                    ==> #[trigger] final(self).enum_values.value().nodes().dom().contains(k),
            forall|k: u64|
                old(self).enum_values.value().nodes().dom().contains(k) && (forall|i: int|
                    1 <= i < r.1@.len() ==> #[trigger] r.1@[i].1 != NodeKey::EnumValue(EnumValueKey(k)))
                    ==> #[trigger] final(self).enum_values.value().nodes()[k]
                    == old(self).enum_values.value().nodes()[k],
            values_kept(final(self).enum_values.value(), old(self).enum_values.value()),
            enums_kept(final(self).enums.value(), old(self).enums.value()),
            match old(self).enums.value().find(fqn@) {
                Some(j) => {
                    &&& final(self).enums.value().nodes()[r.0.0.0].package == old(self).enums.value().nodes()[j].package
                    &&& final(self).enums.value().nodes()[r.0.0.0].file == old(self).enums.value().nodes()[j].file
                    &&& final(self).enums.value().nodes()[r.0.0.0].referenced_by
                        == old(self).enums.value().nodes()[j].referenced_by
                },
                None => {
                    &&& final(self).enums.value().nodes()[r.0.0.0].package is None
                    &&& final(self).enums.value().nodes()[r.0.0.0].file == FileKey(0)
                    &&& final(self).enums.value().nodes()[r.0.0.0].referenced_by@.len() == 0
                },
            },
            final(self).enums.value().nodes()[r.0.0.0].key == r.0.0,
            final(self).enums.value().nodes()[r.0.0.0].fqn@ == fqn@,
            r.0.1@ == fqn@,
            r.0.2@ == chars_or_empty(descriptor.name),
            final(self).enums.value().nodes() == old(self).enums.value().nodes().insert(
                r.0.0.0,
                final(self).enums.value().nodes()[r.0.0.0],
            ),
            r.1@.len() == descriptor.value@.len() + 1,
            r.1@[0].0@ == fqn@,
            r.1@[0].1 == NodeKey::Enum(r.0.0),
            enum_from(
                final(self).enums.value().nodes()[r.0.0.0],
                descriptor,
                location,
                container,
                if package == Some(old(self).well_known_package) {
                    enum_named(chars_or_empty(descriptor.name))
                } else {
                    None
                },
            ),
            forall|i: int|
                0 <= i < descriptor.value@.len() ==> {
                    &&& (#[trigger] r.1@[i + 1]).0@ == spec_qualify(
                        chars_or_empty(descriptor.value@[i].name),
                        Some(fqn@),
                    )
                    &&& r.1@[i + 1].1 == NodeKey::EnumValue(
                        final(self).enums.value().nodes()[r.0.0.0].values@[i],
                    )
                    &&& final(self).enum_values.value().find(r.1@[i + 1].0@) == Some(
                        final(self).enums.value().nodes()[r.0.0.0].values@[i].0,
                    )
                },
            forall|i: int|
                0 <= i < descriptor.value@.len() && (forall|j: int|
                    i < j < descriptor.value@.len() ==> #[trigger] r.1@[j + 1].0@ != r.1@[i + 1].0@)
                    ==> value_from(
                    final(self).enum_values.value().nodes()[(#[trigger] final(self).enums.value().nodes()[r.0.0.0].values@[i]).0],
                    descriptor.value@[i],
                    location.values@[i],
                    r.0.0,
                    file,
                    package,
                ),
    {
        let ghost d = descriptor;
        let EnumDescriptorProto { name, value, options, reserved_range, reserved_name } =
            descriptor;
        let name = match name {
            Some(n) => n,
            None => String::new(),
        };
        let key = self.enums.lock().get_or_insert_key(fqn.duplicate());
        proof {
            lemma_enums_kept_insert(old(self).enums.value(), self.enums.value(), fqn@, key.0);
        }
        let ghost t1 = self.enums.value();
        let location::Enum { detail, values: value_locations } = location;
        let (values, value_nodes) = self.hydrate_enum_values(
            value,
            value_locations,
            key,
            fqn.duplicate(),
            file,
            package,
        );
        let well_known = if self.is_well_known(package) {
            match WellKnownEnum::from_name(name.as_str()) {
                Ok(e) => Some(e),
                Err(()) => None,
            }
        } else {
            None
        };
        let ghost vals = values@;
        let ghost ev = self.enum_values.value();
        let table = self.enums.lock();
        proof {
            table.lemma_found(fqn@);
        }
        let h = table.hydrate(
            key,
            enums::Hydrate {
                name,
                values,
                container,
                location: detail,
                options,
                reserved_names: reserved_name,
                reserved_ranges: reserved_range,
                well_known,
            },
        );
        proof {
            lemma_enums_kept_hydrate(t1, self.enums.value(), key.0);
            lemma_enums_kept_trans(old(self).enums.value(), t1, self.enums.value());
            lemma_enums_kept_at(self.enums.value(), old(self).enums.value(), fqn@);
        }
        assert(self.enums.value().nodes()[h.0.0].values.names() =~= value_names(d.value@)) by {
            assert forall|m: int| 0 <= m < vals.len() implies #[trigger] vals[m].2@ == chars_or_empty(
                d.value@[m].name,
            ) by {}
        }
        let mut nodes: Vec<(FullyQualifiedName, NodeKey)> = Vec::new();
        nodes.push((h.1.duplicate(), NodeKey::Enum(h.0)));
        let ghost vn = value_nodes@;
        let mut rest = value_nodes;
        nodes.append(&mut rest);
        assert(forall|j: int| 0 <= j < vn.len() ==> #[trigger] nodes@[j + 1] == vn[j]);
        assert(self.enum_values.value() == ev);
        proof {
            lemma_value_frame(
                old(self).enum_values.value().nodes(),
                self.enum_values.value().nodes(),
                vals,
                nodes@,
            );
        }
        assert forall|i: int|
            0 <= i < d.value@.len() && (forall|j: int|
                i < j < d.value@.len() ==> #[trigger] nodes@[j + 1].0@ != nodes@[i + 1].0@)
                implies value_from(
                self.enum_values.value().nodes()[(#[trigger] self.enums.value().nodes()[h.0.0].values@[i]).0],
                d.value@[i],
                location.values@[i],
                h.0,
                file,
                package,
            ) by {
            assert(self.enums.value().nodes()[h.0.0].values@[i] == vals[i].0);
            assert forall|j: int| i < j < d.value@.len() implies #[trigger] vals[j].1@ != vals[i].1@ by {
                assert(nodes@[j + 1] == vn[j]);
                assert(nodes@[i + 1] == vn[i]);
            }
        }
        assert forall|i: int| 0 <= i < d.value@.len() implies {
            &&& (#[trigger] nodes@[i + 1]).0@ == spec_qualify(
                chars_or_empty(d.value@[i].name),
                Some(fqn@),
            )
            &&& nodes@[i + 1].1 == NodeKey::EnumValue(
                self.enums.value().nodes()[h.0.0].values@[i],
            )
            &&& self.enum_values.value().find(nodes@[i + 1].0@) == Some(
                self.enums.value().nodes()[h.0.0].values@[i].0,
            )
        } by {
            assert(nodes@[i + 1] == vn[i]);
            assert(self.enums.value().nodes()[h.0.0].values@[i] == vals[i].0);
        }
        (h, nodes)
    }

    /// Hydrates the enums `descriptors` of the container `container` named
    /// `container_fqn`, each at the location of the same index in
    /// `locations`, which must be as many. Gives, for each enum in order, its
    /// key, fully qualified name and name, and the nodes the enums make known:
    /// for each enum, the enum, then the nodes that hydrating it gives. Where
    /// two enums or two values share a name, the node holds the later one;
    /// nodes of other names are left as they were.
    #[verifier::rlimit(100)]
    #[verifier::spinoff_prover]
    pub fn hydrate_enums(
        &mut self,
        descriptors: Vec<EnumDescriptorProto>,
        locations: Vec<location::Enum>,
        container: ContainerKey,
        container_fqn: FullyQualifiedName,
        file: FileKey,
        package: Option<PackageKey>,
    ) -> (r: (Vec<Hydrated<EnumKey>>, Vec<(FullyQualifiedName, NodeKey)>))
        requires
            locations@.len() == descriptors@.len(),
            forall|i: int|
                0 <= i < descriptors@.len() ==> (#[trigger] locations@[i]).values@.len()
                    == descriptors@[i].value@.len(),
            forall|i: int, j: int|
                0 <= i < descriptors@.len() && 0 <= j < descriptors@[i].value@.len() ==> (
                #[trigger] descriptors@[i].value@[j]).options is Some,
            old(self).enums.value().wf(),
            old(self).enums.value().size() + descriptors@.len() < u32::MAX - 1,
            old(self).enum_values.value().wf(),
            old(self).enum_values.value().size() + total_values(descriptors@) < u32::MAX - 1,
        ensures
            final(self).enums.value().wf(),
            final(self).enum_values.value().wf(),
            final(self).packages == old(self).packages,
            final(self).well_known_package == old(self).well_known_package,
            final(self).files == old(self).files,
            forall|n: Seq<char>|
                old(self).enums.value().find(n) is Some
                    ==> #[trigger] final(self).enums.value().find(n)
                    == old(self).enums.value().find(n),
            forall|n: Seq<char>|
                old(self).enum_values.value().find(n) is Some
                    ==> #[trigger] final(self).enum_values.value().find(n)
                    == old(self).enum_values.value().find(n),
            forall|k: u64|
                old(self).enums.value().nodes().dom().contains(k)
                    ==> #[trigger] final(self).enums.value().nodes().dom().contains(k),
            forall|k: u64|
                old(self).enums.value().nodes().dom().contains(k) && (forall|i: int|
                    0 <= i < r.0@.len() ==> #[trigger] r.0@[i].0.0 != k)
                    ==> #[trigger] final(self).enums.value().nodes()[k]
                    == old(self).enums.value().nodes()[k],
            forall|k: u64|
                old(self).enum_values.value().nodes().dom().contains(k)
                    ==> #[trigger] final(self).enum_values.value().nodes().dom().contains(k),
            forall|k: u64|
                old(self).enum_values.value().nodes().dom().contains(k) && (forall|p: int|
                    0 <= p < r.1@.len() ==> #[trigger] r.1@[p].1 != NodeKey::EnumValue(EnumValueKey(k)))
                    ==> #[trigger] final(self).enum_values.value().nodes()[k]
                    == old(self).enum_values.value().nodes()[k],
            values_kept(final(self).enum_values.value(), old(self).enum_values.value()),
            enums_kept(final(self).enums.value(), old(self).enums.value()),
            r.0@.len() == descriptors@.len(),
            r.1@.len() == 2 * descriptors@.len() + total_values(descriptors@),
            forall|i: int, j: int|
                0 <= i < descriptors@.len() && 0 <= j < descriptors@[i].value@.len() && (forall|p: int|
                    block_start(descriptors@, i) + 2 + j < p < r.1@.len() ==> #[trigger] r.1@[p].0@
                        != r.1@[block_start(descriptors@, i) + 2 + j].0@) ==> value_stored(
                    r.1@[block_start(descriptors@, i) + 2 + j],
                    #[trigger] descriptors@[i].value@[j],
                    locations@[i].values@[j],
                    r.0@[i].0,
                    file,
                    package,
                    final(self).enum_values.value(),
                ),
            forall|i: int, j: int|
                0 <= i < descriptors@.len() && 0 <= j < descriptors@[i].value@.len() ==> value_node(
                    r.1@[block_start(descriptors@, i) + 2 + j],
                    #[trigger] descriptors@[i].value@[j],
                    r.0@[i].1@,
                    final(self).enum_values.value(),
                ),
            forall|i: int|
                0 <= i < descriptors@.len() ==> {
                    &&& (#[trigger] r.0@[i]).1@ == spec_qualify(
                        chars_or_empty(descriptors@[i].name),
                        Some(container_fqn@),
                    )
                    &&& r.0@[i].2@ == chars_or_empty(descriptors@[i].name)
                    &&& final(self).enums.value().find(r.0@[i].1@) == Some(r.0@[i].0.0)
                    &&& r.1@[block_start(descriptors@, i)].0@ == r.0@[i].1@
                    &&& r.1@[block_start(descriptors@, i)].1 == NodeKey::Enum(r.0@[i].0)
                    &&& r.1@[block_start(descriptors@, i) + 1].0@ == r.0@[i].1@
                    &&& r.1@[block_start(descriptors@, i) + 1].1 == NodeKey::Enum(r.0@[i].0)
                },
            forall|i: int|
                0 <= i < descriptors@.len() && (forall|j: int|
                    i < j < descriptors@.len() ==> #[trigger] r.0@[j].1@ != r.0@[i].1@) ==> enum_from(
                    final(self).enums.value().nodes()[(#[trigger] r.0@[i]).0.0],
                    descriptors@[i],
                    locations@[i],
                    container,
                    if package == Some(old(self).well_known_package) {
                        enum_named(chars_or_empty(descriptors@[i].name))
                    } else {
                        None
                    },
                ),
    {
        let ghost ds = descriptors@;
        let n = descriptors.len();
        let mut rest = reversed(locations);
        let ghost ls = locations@;
        let mut enums: Vec<Hydrated<EnumKey>> = Vec::new();
        let mut nodes: Vec<(FullyQualifiedName, NodeKey)> = Vec::new();
        let mut i: usize = 0;
        proof {
            lemma_values_kept_refl(self.enum_values.value());
            lemma_enums_kept_refl(self.enums.value());
        }
        assert(ls.subrange(0, n as int) =~= ls);
        for descriptor in it: descriptors.into_iter()
            invariant
                it.seq() == ds,
                i == it.index(),
                n == ds.len(),
                ls.len() == n,
                forall|k: int| 0 <= k < n ==> (#[trigger] ls[k]).values@.len() == ds[k].value@.len(),
                forall|k: int, j: int|
                    0 <= k < n && 0 <= j < ds[k].value@.len() ==> (#[trigger] ds[k].value@[j]).options is Some,
                rest@ == ls.subrange(i as int, n as int).reverse(),
                self.enums.value().wf(),
                self.enum_values.value().wf(),
                self.enums.value().size() <= old(self).enums.value().size() + i,
                old(self).enums.value().size() + n < u32::MAX - 1,
                self.enum_values.value().size() <= old(self).enum_values.value().size()
                    + total_values(ds.subrange(0, i as int)),
                old(self).enum_values.value().size() + total_values(ds) < u32::MAX - 1,
                self.packages == old(self).packages,
                self.well_known_package == old(self).well_known_package,
                self.files == old(self).files,
                forall|m: Seq<char>|
                    old(self).enums.value().find(m) is Some ==> #[trigger] self.enums.value().find(m)
                        == old(self).enums.value().find(m),
                forall|m: Seq<char>|
                    old(self).enum_values.value().find(m) is Some ==> #[trigger] self.enum_values.value().find(m)
                        == old(self).enum_values.value().find(m),
                forall|kk: u64|
                    old(self).enums.value().nodes().dom().contains(kk)
                        ==> #[trigger] self.enums.value().nodes().dom().contains(kk),
                forall|kk: u64|
                    old(self).enums.value().nodes().dom().contains(kk) && (forall|m: int|
                        0 <= m < i ==> #[trigger] enums@[m].0.0 != kk)
                        ==> #[trigger] self.enums.value().nodes()[kk]
                        == old(self).enums.value().nodes()[kk],
                forall|kk: u64|
                    old(self).enum_values.value().nodes().dom().contains(kk)
                        ==> #[trigger] self.enum_values.value().nodes().dom().contains(kk),
                forall|kk: u64|
                    old(self).enum_values.value().nodes().dom().contains(kk) && (forall|p: int|
                        0 <= p < nodes@.len() ==> #[trigger] nodes@[p].1 != NodeKey::EnumValue(EnumValueKey(kk)))
                        ==> #[trigger] self.enum_values.value().nodes()[kk]
                        == old(self).enum_values.value().nodes()[kk],
                values_kept(self.enum_values.value(), old(self).enum_values.value()),
                enums_kept(self.enums.value(), old(self).enums.value()),
                enums@.len() == i,
                nodes@.len() == 2 * i + total_values(ds.subrange(0, i as int)),
                forall|k: int, j: int|
                    0 <= k < i && 0 <= j < ds[k].value@.len() && (forall|p: int|
                        block_start(ds, k) + 2 + j < p < nodes@.len() ==> #[trigger] nodes@[p].0@
                            != nodes@[block_start(ds, k) + 2 + j].0@) ==> value_stored(
                        nodes@[block_start(ds, k) + 2 + j],
                        #[trigger] ds[k].value@[j],
                        ls[k].values@[j],
                        enums@[k].0,
                        file,
                        package,
                        self.enum_values.value(),
                    ),
                forall|k: int, j: int|
                    0 <= k < i && 0 <= j < ds[k].value@.len() ==> value_node(
                        nodes@[block_start(ds, k) + 2 + j],
                        #[trigger] ds[k].value@[j],
                        enums@[k].1@,
                        self.enum_values.value(),
                    ),
                forall|k: int|
                    0 <= k < i ==> {
                        &&& (#[trigger] enums@[k]).1@ == spec_qualify(
                            chars_or_empty(ds[k].name),
                            Some(container_fqn@),
                        )
                        &&& enums@[k].2@ == chars_or_empty(ds[k].name)
                        &&& self.enums.value().find(enums@[k].1@) == Some(enums@[k].0.0)
                        &&& nodes@[block_start(ds, k)].0@ == enums@[k].1@
                        &&& nodes@[block_start(ds, k)].1 == NodeKey::Enum(enums@[k].0)
                        &&& nodes@[block_start(ds, k) + 1].0@ == enums@[k].1@
                        &&& nodes@[block_start(ds, k) + 1].1 == NodeKey::Enum(enums@[k].0)
                    },
                forall|k: int|
                    0 <= k < i && (forall|j: int| k < j < i ==> #[trigger] enums@[j].1@ != enums@[k].1@)
                        ==> enum_from(
                        self.enums.value().nodes()[(#[trigger] enums@[k]).0.0],
                        ds[k],
                        ls[k],
                        container,
                        if package == Some(old(self).well_known_package) {
                            enum_named(chars_or_empty(ds[k].name))
                        } else {
                            None
                        },
                    ),
        {
            let ghost rest_before = rest@;
            assert(rest_before.last() == ls[i as int]);
            let loc = rest.pop().unwrap();
            assert(rest@ =~= ls.subrange(i + 1, n as int).reverse());
            proof {
                lemma_total_values_prefix(ds, i as int);
                lemma_total_values_prefix_le(ds, i + 1);
            }
            let enum_fqn = {
                let name: &str = match &descriptor.name {
                    Some(s) => s.as_str(),
                    None => "",
                };
                proof {
                    reveal_strlit("");
                }
                FullyQualifiedName::new(name, Some(container_fqn.duplicate()))
            };
            let ghost enums_before = enums@;
            let ghost table_before = self.enums.value();
            let ghost values_before = self.enum_values.value();
            let (h, enum_nodes) = self.hydrate_enum(
                descriptor,
                enum_fqn.duplicate(),
                loc,
                container,
                file,
                package,
            );
            proof {
                lemma_values_kept_trans(old(self).enum_values.value(), values_before, self.enum_values.value());
                lemma_enums_kept_trans(old(self).enums.value(), table_before, self.enums.value());
            }
            let ghost nodes_before = nodes@;
            let ghost en = enum_nodes@;
            nodes.push((enum_fqn, NodeKey::Enum(h.0)));
            let ghost start = nodes_before.len();
            let mut block = enum_nodes;
            nodes.append(&mut block);
            assert(forall|j: int| 0 <= j < start ==> #[trigger] nodes@[j] == nodes_before[j]);
            assert(forall|j: int| 0 <= j < en.len() ==> #[trigger] nodes@[start + 1 + j] == en[j]);
            enums.push(h);
            proof {
                let t = self.enums.value();
                assert forall|k: int| 0 <= k < i implies t.find(enums_before[k].1@) == Some(
                    enums_before[k].0.0,
                ) by {
                    if enums_before[k].1@ == enums@[i as int].1@ {
                        assert(table_before.find(enums_before[k].1@) == Some(enums_before[k].0.0));
                    }
                }
                assert(start == block_start(ds, i as int));
                assert forall|k: int| 0 <= k <= i implies {
                    &&& (#[trigger] enums@[k]).1@ == spec_qualify(
                        chars_or_empty(ds[k].name),
                        Some(container_fqn@),
                    )
                    &&& enums@[k].2@ == chars_or_empty(ds[k].name)
                    &&& t.find(enums@[k].1@) == Some(enums@[k].0.0)
                    &&& nodes@[block_start(ds, k)].0@ == enums@[k].1@
                    &&& nodes@[block_start(ds, k)].1 == NodeKey::Enum(enums@[k].0)
                    &&& nodes@[block_start(ds, k) + 1].0@ == enums@[k].1@
                    &&& nodes@[block_start(ds, k) + 1].1 == NodeKey::Enum(enums@[k].0)
                } by {
                    if k < i {
                        assert(enums@[k] == enums_before[k]);
                        lemma_block_start_gap(ds, k, i as int);
                        assert(nodes@[block_start(ds, k)] == nodes_before[block_start(ds, k)]);
                        assert(nodes@[block_start(ds, k) + 1] == nodes_before[block_start(ds, k) + 1]);
                    }
                }
                assert forall|k: int|
                    0 <= k <= i && (forall|j: int| k < j <= i ==> #[trigger] enums@[j].1@ != enums@[k].1@)
                        implies enum_from(
                        t.nodes()[(#[trigger] enums@[k]).0.0],
                        ds[k],
                        ls[k],
                        container,
                        if package == Some(old(self).well_known_package) {
                            enum_named(chars_or_empty(ds[k].name))
                        } else {
                            None
                        },
                    ) by {
                    if k < i {
                        assert(enums@[k] == enums_before[k]);
                        assert(enums@[i as int].1@ != enums@[k].1@);
                        assert(forall|j: int| k < j < i ==> #[trigger] enums_before[j].1@ != enums_before[k].1@) by {
                            assert forall|j: int| k < j < i implies #[trigger] enums_before[j].1@ != enums_before[k].1@ by {
                                assert(enums@[j] == enums_before[j]);
                            }
                        }
                        t.lemma_find_injective(enums@[i as int].1@, enums@[k].1@);
                    }
                }
            }
            proof {
                let t = self.enum_values.value();
                assert forall|k: int, j: int|
                    0 <= k <= i && 0 <= j < ds[k].value@.len() implies value_node(
                        nodes@[block_start(ds, k) + 2 + j],
                        #[trigger] ds[k].value@[j],
                        enums@[k].1@,
                        t,
                    ) by {
                    if k < i {
                        lemma_block_end(ds, k, i as int);
                        assert(enums@[k] == enums_before[k]);
                        assert(nodes@[block_start(ds, k) + 2 + j] == nodes_before[block_start(ds, k) + 2 + j]);
                    } else {
                        assert(nodes@[block_start(ds, k) + 2 + j] == en[j + 1]);
                    }
                }
            }
            proof {
                assert forall|kk: u64|
                    old(self).enums.value().nodes().dom().contains(kk) && (forall|m: int|
                        0 <= m <= i ==> #[trigger] enums@[m].0.0 != kk)
                        implies #[trigger] self.enums.value().nodes()[kk]
                        == old(self).enums.value().nodes()[kk] by {
                    assert forall|m: int| 0 <= m < i implies #[trigger] enums_before[m].0.0 != kk by {
                        assert(enums@[m] == enums_before[m]);
                    }
                    assert(enums@[i as int].0.0 != kk);
                }
                assert forall|kk: u64|
                    old(self).enum_values.value().nodes().dom().contains(kk) && (forall|p: int|
                        0 <= p < nodes@.len() ==> #[trigger] nodes@[p].1 != NodeKey::EnumValue(EnumValueKey(kk)))
                        implies #[trigger] self.enum_values.value().nodes()[kk]
                        == old(self).enum_values.value().nodes()[kk] by {
                    assert forall|p: int| 0 <= p < nodes_before.len() implies #[trigger] nodes_before[p].1
                        != NodeKey::EnumValue(EnumValueKey(kk)) by {
                        assert(nodes@[p] == nodes_before[p]);
                    }
                    assert forall|m: int| 1 <= m < en.len() implies #[trigger] en[m].1
                        != NodeKey::EnumValue(EnumValueKey(kk)) by {
                        assert(nodes@[start + 1 + m] == en[m]);
                    }
                }
            }
            proof {
                let t = self.enum_values.value();
                assert forall|k: int, j: int|
                    0 <= k <= i && 0 <= j < ds[k].value@.len() && (forall|p: int|
                        block_start(ds, k) + 2 + j < p < nodes@.len() ==> #[trigger] nodes@[p].0@
                            != nodes@[block_start(ds, k) + 2 + j].0@) implies value_stored(
                        nodes@[block_start(ds, k) + 2 + j],
                        #[trigger] ds[k].value@[j],
                        ls[k].values@[j],
                        enums@[k].0,
                        file,
                        package,
                        t,
                    ) by {
                    let q = block_start(ds, k) + 2 + j;
                    if k < i {
                        lemma_block_end(ds, k, i as int);
                        assert(enums@[k] == enums_before[k]);
                        assert(nodes@[q] == nodes_before[q]);
                        assert forall|p: int| q < p < nodes_before.len() implies #[trigger] nodes_before[p].0@
                            != nodes_before[q].0@ by {
                            assert(nodes@[p] == nodes_before[p]);
                        }
                        assert(value_stored(
                            nodes_before[q],
                            ds[k].value@[j],
                            ls[k].values@[j],
                            enums_before[k].0,
                            file,
                            package,
                            values_before,
                        ));
                        let v = values_before.find(nodes_before[q].0@)->0;
                        assert(t.find(nodes_before[q].0@) == Some(v));
                        values_before.lemma_found(nodes_before[q].0@);
                        assert forall|m: int| 1 <= m < en.len() implies #[trigger] en[m].1
                            != NodeKey::EnumValue(EnumValueKey(v)) by {
                            if en[m].1 == NodeKey::EnumValue(EnumValueKey(v)) {
                                let mm = m - 1;
                                assert(en[mm + 1] == en[m]);
                                assert(nodes@[start + 1 + m] == en[m]);
                                t.lemma_find_injective(en[m].0@, nodes_before[q].0@);
                            }
                        }
                    } else {
                        assert(nodes@[q] == en[j + 1]);
                        assert forall|jj: int| j < jj < ds[k].value@.len() implies #[trigger] en[jj + 1].0@
                            != en[j + 1].0@ by {
                            assert(nodes@[start + 1 + jj + 1] == en[jj + 1]);
                        }
                    }
                }
            }
            i = i + 1;
        }
        assert(ds.subrange(0, n as int) =~= ds);
        let ghost es = enums@;
        let result = (enums, nodes);
        assert forall|kk: u64|
            old(self).enums.value().nodes().dom().contains(kk) && (forall|m: int|
                0 <= m < result.0@.len() ==> #[trigger] result.0@[m].0.0 != kk)
                implies #[trigger] self.enums.value().nodes()[kk]
                == old(self).enums.value().nodes()[kk] by {
            assert(result.0@ == es);
            assert forall|m: int| 0 <= m < i implies #[trigger] es[m].0.0 != kk by {
                assert(result.0@[m] == es[m]);
            }
        }
        result
    }
}

/// The names of the values that `vs` describe, in order.
pub open spec fn value_names(vs: Seq<EnumValueDescriptorProto>) -> Seq<Seq<char>> {
    Seq::new(vs.len(), |i: int| chars_or_empty(vs[i].name))
}

/// `e` is the enum node that `d` describes at the location `l` in
/// `container`, with the well-known type `well_known`.
pub open spec fn enum_from(
    e: enums::Inner,
    d: EnumDescriptorProto,
    l: location::Enum,
    container: ContainerKey,
    well_known: Option<WellKnownEnum>,
) -> bool {
    &&& e.name@ == chars_or_empty(d.name)
    &&& e.values@.len() == d.value@.len()
    &&& e.values.names() == value_names(d.value@)
    &&& e.reserved.names@ == d.reserved_name@
    &&& e.reserved.ranges@ == d.reserved_range@
    &&& e.container == container
    &&& e.well_known == well_known
    &&& e.node_path == l.detail.path
    &&& e.span == l.detail.span
    &&& e.comments == l.detail.comments
    &&& match d.options {
        Some(o) => enums::enum_options_from(e, o),
        None => !e.allow_alias && !e.deprecated && e.uninterpreted_options@.len() == 0,
    }
}

/// `v` is the enum value node that `d` describes, at the location `l`, of
/// the enum `enum_key` in `file` and `package`.
pub open spec fn value_from(
    v: enum_value::Inner,
    d: EnumValueDescriptorProto,
    l: location::EnumValue,
    enum_key: EnumKey,
    file: FileKey,
    package: Option<PackageKey>,
) -> bool {
    &&& v.name@ == chars_or_empty(d.name)
    &&& v.number == (match d.number {
        Some(n) => n,
        None => 0i32,
    })
    &&& v.span == l.detail.span
    &&& v.comments == l.detail.comments
    &&& v.enum_key == enum_key
    &&& v.file == file
    &&& v.package == package
    &&& enum_value::value_options_from(v, d.options->0)
}

} // verus!
