//! The tables that hold the nodes of the model: each stores the nodes of
//! one kind in a `slotmap` slot map and finds them again by their fully
//! qualified names.
use crate::ast::file::{self, DependentInner};
use crate::ast::fqn::FullyQualifiedName;
use crate::ast::enum_value;
use crate::ast::enums;
use crate::ast::node::{EnumKey, EnumValueKey, FileKey, PackageKey};
use crate::ast::package;
use ahash::HashMap;
use slotmap::{DefaultKey, Key, KeyData, SlotMap};
use vstd::prelude::*;

verus! {

/// A `slotmap` slot map of file nodes, keyed by `DefaultKey`.
#[verifier::external_body]
pub struct FileSlots {
    slots: SlotMap<DefaultKey, file::Inner>,
}

/// A `slotmap` slot map of package nodes, keyed by `DefaultKey`.
#[verifier::external_body]
pub struct PackageSlots {
    slots: SlotMap<DefaultKey, package::Inner>,
}

/// What a slot map of file nodes holds: each value by the `KeyData::as_ffi`
/// number of its key.
pub uninterp spec fn file_slots(m: FileSlots) -> Map<u64, file::Inner>;

/// The number of slots that a slot map of file nodes has taken, its empty
/// first slot not counted.
pub uninterp spec fn file_slots_taken(m: FileSlots) -> nat;

/// `SlotMap::with_key` of the `slotmap` crate: an empty slot map of file nodes,
/// with no slot taken.
#[verifier::external_body]
fn new_file_slots() -> (r: FileSlots)
    ensures
        file_slots(r).dom() == Set::<u64>::empty(),
        file_slots_taken(r) == 0,
{
    FileSlots { slots: SlotMap::with_key() }
}

/// `SlotMap::insert` of the `slotmap` crate: stores `value` under a key
/// that no value has, and hands out the `KeyData::as_ffi` number of the key.
/// It takes a free slot or one more slot. Besides the taken slots the map
/// keeps one empty first slot, and it panics where that would make
/// `u32::MAX` slots, that is once `u32::MAX - 1` are taken, which `requires`
/// leaves out.
#[verifier::external_body]
fn insert_file_slot(m: &mut FileSlots, value: file::Inner) -> (k: u64)
    requires
        file_slots_taken(*old(m)) < u32::MAX - 1,
    ensures
        !file_slots(*old(m)).dom().contains(k),
        file_slots(*final(m)) == file_slots(*old(m)).insert(k, value),
        file_slots_taken(*final(m)) <= file_slots_taken(*old(m)) + 1,
{
    m.slots.insert(value).data().as_ffi()
}

/// `Index::index` of `SlotMap` of the `slotmap` crate, with the key that
/// `KeyData::from_ffi` makes of `k`: the value stored under the key whose
/// `as_ffi` number is `k`. It panics on a key that holds no value, which
/// `requires` leaves out.
#[verifier::external_body]
fn file_slot(m: &FileSlots, k: u64) -> (r: &file::Inner)
    requires
        file_slots(*m).dom().contains(k),
    ensures
        *r == file_slots(*m)[k],
{
    &m.slots[DefaultKey::from(KeyData::from_ffi(k))]
}

/// `IndexMut::index_mut` of `SlotMap` of the `slotmap` crate, with the key
/// that `KeyData::from_ffi` makes of `k`: the value stored under the key
/// whose `as_ffi` number is `k`, to change in place. It panics on a key that
/// holds no value, which `requires` leaves out.
#[verifier::external_body]
fn file_slot_mut(m: &mut FileSlots, k: u64) -> (r: &mut file::Inner)
    requires
        file_slots(*old(m)).dom().contains(k),
    ensures
        *r == file_slots(*old(m))[k],
        file_slots(*final(m)) == file_slots(*old(m)).insert(k, *final(r)),
        file_slots_taken(*final(m)) == file_slots_taken(*old(m)),
{
    &mut m.slots[DefaultKey::from(KeyData::from_ffi(k))]
}

/// What a slot map of package nodes holds: each value by the `KeyData::as_ffi`
/// number of its key.
pub uninterp spec fn package_slots(m: PackageSlots) -> Map<u64, package::Inner>;

/// The number of slots that a slot map of package nodes has taken, its empty
/// first slot not counted.
pub uninterp spec fn package_slots_taken(m: PackageSlots) -> nat;

/// `SlotMap::with_key` of the `slotmap` crate: an empty slot map of package nodes,
/// with no slot taken.
#[verifier::external_body]
fn new_package_slots() -> (r: PackageSlots)
    ensures
        package_slots(r).dom() == Set::<u64>::empty(),
        package_slots_taken(r) == 0,
{
    PackageSlots { slots: SlotMap::with_key() }
}

/// `SlotMap::insert` of the `slotmap` crate: stores `value` under a key
/// that no value has, and hands out the `KeyData::as_ffi` number of the key.
/// It takes a free slot or one more slot. Besides the taken slots the map
/// keeps one empty first slot, and it panics where that would make
/// `u32::MAX` slots, that is once `u32::MAX - 1` are taken, which `requires`
/// leaves out.
#[verifier::external_body]
fn insert_package_slot(m: &mut PackageSlots, value: package::Inner) -> (k: u64)
    requires
        package_slots_taken(*old(m)) < u32::MAX - 1,
    ensures
        !package_slots(*old(m)).dom().contains(k),
        package_slots(*final(m)) == package_slots(*old(m)).insert(k, value),
        package_slots_taken(*final(m)) <= package_slots_taken(*old(m)) + 1,
{
    m.slots.insert(value).data().as_ffi()
}

/// `Index::index` of `SlotMap` of the `slotmap` crate, with the key that
/// `KeyData::from_ffi` makes of `k`: the value stored under the key whose
/// `as_ffi` number is `k`. It panics on a key that holds no value, which
/// `requires` leaves out.
#[verifier::external_body]
fn package_slot(m: &PackageSlots, k: u64) -> (r: &package::Inner)
    requires
        package_slots(*m).dom().contains(k),
    ensures
        *r == package_slots(*m)[k],
{
    &m.slots[DefaultKey::from(KeyData::from_ffi(k))]
}

/// `IndexMut::index_mut` of `SlotMap` of the `slotmap` crate, with the key
/// that `KeyData::from_ffi` makes of `k`: the value stored under the key
/// whose `as_ffi` number is `k`, to change in place. It panics on a key that
/// holds no value, which `requires` leaves out.
#[verifier::external_body]
fn package_slot_mut(m: &mut PackageSlots, k: u64) -> (r: &mut package::Inner)
    requires
        package_slots(*old(m)).dom().contains(k),
    ensures
        *r == package_slots(*old(m))[k],
        package_slots(*final(m)) == package_slots(*old(m)).insert(k, *final(r)),
        package_slots_taken(*final(m)) == package_slots_taken(*old(m)),
{
    &mut m.slots[DefaultKey::from(KeyData::from_ffi(k))]
}


/// An `ahash` hash map from fully qualified names to the numbers of keys,
/// reached only through the functions below; [`name_index`] names what it
/// holds.
#[verifier::external_body]
pub struct NameIndex {
    map: HashMap<FullyQualifiedName, u64>,
}

/// What a name index holds: the number stored under each name.
pub uninterp spec fn name_index(m: NameIndex) -> Map<Seq<char>, u64>;

/// The number that `m` stores under `name`, if any.
pub open spec fn name_found(m: NameIndex, name: Seq<char>) -> Option<u64> {
    if name_index(m).dom().contains(name) {
        Some(name_index(m)[name])
    } else {
        None
    }
}

/// `HashMap::default` of std, with the `ahash` hasher: a map that holds
/// nothing.
#[verifier::external_body]
fn new_name_index() -> (r: NameIndex)
    ensures
        name_index(r).dom() == Set::<Seq<char>>::empty(),
{
    NameIndex { map: HashMap::default() }
}

/// `HashMap::get` of std, with the `ahash` hasher: the number stored under
/// the name equal to `name`, if any. Names are equal where their strings
/// are, as the derived `Eq` and `Hash` of `FullyQualifiedName` compare and
/// hash the string alone.
#[verifier::external_body]
fn name_index_get(m: &NameIndex, name: &FullyQualifiedName) -> (r: Option<u64>)
    ensures
        r == name_found(*m, name@),
{
    m.map.get(name).copied()
}

/// `HashMap::insert` of std, with the `ahash` hasher: stores `k` under
/// `name`, in place of what the map held under that name.
#[verifier::external_body]
fn name_index_insert(m: &mut NameIndex, name: FullyQualifiedName, k: u64)
    ensures
        name_index(*final(m)) == name_index(*old(m)).insert(name@, k),
{
    m.map.insert(name, k);
}

/// `f` is a new file node named `fqn` that holds the key `k`.
pub open spec fn fresh_file(f: file::Inner, fqn: Seq<char>, k: FileKey) -> bool {
    &&& f.key == k
    &&& file::blank_file(file::Inner { key: FileKey(0), ..f }, fqn)
}

/// `p` is a new package node named `fqn` that holds the key `k`.
pub open spec fn fresh_package(p: package::Inner, fqn: Seq<char>, k: PackageKey) -> bool {
    &&& p.key == k
    &&& package::blank_package(package::Inner { key: PackageKey(0), ..p }, fqn)
}

/// The table of file nodes: each stored in a slot map and found again by its
/// fully qualified name.
pub struct FileTable {
    map: FileSlots,
    lookup: NameIndex,
    count: usize,
    order: Vec<FileKey>,
}

impl FileTable {
    /// Distinct names of a well-formed table lead to distinct nodes.
    pub proof fn lemma_find_injective(&self, a: Seq<char>, b: Seq<char>)
        requires
            self.wf(),
        ensures
            self.find(a) is Some && self.find(a) == self.find(b) ==> a == b,
    {
        if self.find(a) is Some && self.find(a) == self.find(b) {
            assert(file_slots(self.map)[self.find(a)->0].fqn@ == a);
        }
    }

    /// A name found in a well-formed table leads to a node of that name, which
    /// holds its own key.
    pub proof fn lemma_found(&self, name: Seq<char>)
        requires
            self.wf(),
        ensures
            self.find(name) matches Some(k) ==> self.nodes().dom().contains(k)
                && self.nodes()[k].fqn@ == name && self.nodes()[k].key == FileKey(k),
    {
    }

    /// The nodes, each by the number of its key.
    pub closed spec fn nodes(&self) -> Map<u64, file::Inner> {
        file_slots(self.map)
    }

    /// The number of the key of the node named `name`, if any.
    pub closed spec fn find(&self, name: Seq<char>) -> Option<u64> {
        name_found(self.lookup, name)
    }

    /// The number of names the table stores.
    pub closed spec fn size(&self) -> nat {
        self.count as nat
    }

    /// The keys in the order the table keeps.
    pub closed spec fn order(&self) -> Seq<FileKey> {
        self.order@
    }

    /// Every name found leads to a node, and each node holds its own key.
    pub closed spec fn wf(&self) -> bool {
        &&& file_slots_taken(self.map) <= self.count
        &&& name_index(self.lookup).dom().finite()
        &&& name_index(self.lookup).dom().len() == self.count
        &&& forall|n: Seq<char>| #[trigger]
            name_index(self.lookup).dom().contains(n) ==> file_slots(self.map).dom().contains(
                name_index(self.lookup)[n],
            ) && file_slots(self.map)[name_index(self.lookup)[n]].fqn@ == n
        &&& forall|k: u64| #[trigger]
            file_slots(self.map).dom().contains(k) ==> file_slots(self.map)[k].key == FileKey(k)
    }

    /// The empty table.
    pub fn new() -> (r: FileTable)
        ensures
            r.wf(),
            r.nodes().dom() == Set::<u64>::empty(),
            r.size() == 0,
            r.order().len() == 0,
            forall|n: Seq<char>| #[trigger] r.find(n) is None,
    {
        FileTable { map: new_file_slots(), lookup: new_name_index(), count: 0, order: Vec::new() }
    }

    /// The key of the node named `fqn`: the one stored under that name, or,
    /// where there is none, a new node made from the name and stored under
    /// a new key. Either way the node holds its key.
    pub fn get_or_insert_key(&mut self, fqn: FullyQualifiedName) -> (k: FileKey)
        requires
            old(self).wf(),
            old(self).size() < u32::MAX - 1,
        ensures
            final(self).wf(),
            final(self).find(fqn@) == Some(k.0),
            final(self).nodes().dom().contains(k.0),
            final(self).order() == old(self).order(),
            forall|n: Seq<char>| n != fqn@ ==> #[trigger] final(self).find(n) == old(self).find(n),
            match old(self).find(fqn@) {
                Some(k0) => {
                    &&& k.0 == k0
                    &&& final(self).nodes() == old(self).nodes()
                    &&& final(self).size() == old(self).size()
                },
                None => {
                    &&& !old(self).nodes().dom().contains(k.0)
                    &&& final(self).nodes() == old(self).nodes().insert(k.0, final(self).nodes()[k.0])
                    &&& fresh_file(final(self).nodes()[k.0], fqn@, k)
                    &&& final(self).size() == old(self).size() + 1
                },
            },
    {
        match name_index_get(&self.lookup, &fqn) {
            Some(k) => {
                return FileKey(k);
            },
            None => {},
        }
        let name = fqn.duplicate();
        let k = insert_file_slot(&mut self.map, file::Inner::from_fqn(fqn));
        let node = file_slot_mut(&mut self.map, k);
        node.set_key(FileKey(k));
        name_index_insert(&mut self.lookup, name, k);
        self.count = self.count + 1;
        proof {
            assert forall|n: Seq<char>| #[trigger]
                name_index(self.lookup).dom().contains(n) implies file_slots(self.map).dom().contains(
                    name_index(self.lookup)[n],
                ) && file_slots(self.map)[name_index(self.lookup)[n]].fqn@ == n by {
                if n != name@ {
                    assert(old(self).nodes().dom().contains(name_index(old(self).lookup)[n]));
                }
            }
        }
        assert(file_slots(self.map).dom() =~= old(self).nodes().dom().insert(k));
        FileKey(k)
    }

    /// The node stored under `key`, where the table holds one.
    pub fn get(&self, key: FileKey) -> (r: &file::Inner)
        requires
            self.nodes().dom().contains(key.0),
        ensures
            *r == self.nodes()[key.0],
    {
        file_slot(&self.map, key.0)
    }

    /// The node named `fqn`, if any.
    pub fn get_by_fqn(&self, fqn: &FullyQualifiedName) -> (r: Option<&file::Inner>)
        requires
            self.wf(),
        ensures
            match self.find(fqn@) {
                Some(k) => r == Some(&self.nodes()[k]),
                None => r is None,
            },
    {
        match name_index_get(&self.lookup, fqn) {
            Some(k) => Some(file_slot(&self.map, k)),
            None => None,
        }
    }

    /// The keys that the table keeps in order.
    pub fn keys(&self) -> (r: Vec<FileKey>)
        ensures
            r@ == self.order(),
    {
        let mut out: Vec<FileKey> = Vec::new();
        let mut i: usize = 0;
        while i < self.order.len()
            invariant
                i <= self.order@.len(),
                out@ == self.order@.subrange(0, i as int),
            decreases self.order@.len() - i,
        {
            out.push(self.order[i]);
            i = i + 1;
            assert(out@ =~= self.order@.subrange(0, i as int));
        }
        assert(out@ =~= self.order@);
        out
    }
}

/// The table of package nodes: each stored in a slot map and found again by its
/// fully qualified name.
pub struct PackageTable {
    map: PackageSlots,
    lookup: NameIndex,
    count: usize,
    order: Vec<PackageKey>,
}

impl PackageTable {
    /// Distinct names of a well-formed table lead to distinct nodes.
    pub proof fn lemma_find_injective(&self, a: Seq<char>, b: Seq<char>)
        requires
            self.wf(),
        ensures
            self.find(a) is Some && self.find(a) == self.find(b) ==> a == b,
    {
        if self.find(a) is Some && self.find(a) == self.find(b) {
            assert(package_slots(self.map)[self.find(a)->0].fqn@ == a);
        }
    }

    /// A name found in a well-formed table leads to a node of that name, which
    /// holds its own key.
    pub proof fn lemma_found(&self, name: Seq<char>)
        requires
            self.wf(),
        ensures
            self.find(name) matches Some(k) ==> self.nodes().dom().contains(k)
                && self.nodes()[k].fqn@ == name && self.nodes()[k].key == PackageKey(k),
    {
    }

    /// The nodes, each by the number of its key.
    pub closed spec fn nodes(&self) -> Map<u64, package::Inner> {
        package_slots(self.map)
    }

    /// The number of the key of the node named `name`, if any.
    pub closed spec fn find(&self, name: Seq<char>) -> Option<u64> {
        name_found(self.lookup, name)
    }

    /// The number of names the table stores.
    pub closed spec fn size(&self) -> nat {
        self.count as nat
    }

    /// The keys in the order the table keeps.
    pub closed spec fn order(&self) -> Seq<PackageKey> {
        self.order@
    }

    /// Every name found leads to a node, and each node holds its own key.
    pub closed spec fn wf(&self) -> bool {
        &&& package_slots_taken(self.map) <= self.count
        &&& name_index(self.lookup).dom().finite()
        &&& name_index(self.lookup).dom().len() == self.count
        &&& forall|n: Seq<char>| #[trigger]
            name_index(self.lookup).dom().contains(n) ==> package_slots(self.map).dom().contains(
                name_index(self.lookup)[n],
            ) && package_slots(self.map)[name_index(self.lookup)[n]].fqn@ == n
        &&& forall|k: u64| #[trigger]
            package_slots(self.map).dom().contains(k) ==> package_slots(self.map)[k].key == PackageKey(k)
    }

    /// The empty table.
    pub fn new() -> (r: PackageTable)
        ensures
            r.wf(),
            r.nodes().dom() == Set::<u64>::empty(),
            r.size() == 0,
            r.order().len() == 0,
            forall|n: Seq<char>| #[trigger] r.find(n) is None,
    {
        PackageTable { map: new_package_slots(), lookup: new_name_index(), count: 0, order: Vec::new() }
    }

    /// The key of the node named `fqn`: the one stored under that name, or,
    /// where there is none, a new node made from the name and stored under
    /// a new key. Either way the node holds its key.
    pub fn get_or_insert_key(&mut self, fqn: FullyQualifiedName) -> (k: PackageKey)
        requires
            old(self).wf(),
            old(self).size() < u32::MAX - 1,
        ensures
            final(self).wf(),
            final(self).find(fqn@) == Some(k.0),
            final(self).nodes().dom().contains(k.0),
            final(self).order() == old(self).order(),
            forall|n: Seq<char>| n != fqn@ ==> #[trigger] final(self).find(n) == old(self).find(n),
            match old(self).find(fqn@) {
                Some(k0) => {
                    &&& k.0 == k0
                    &&& final(self).nodes() == old(self).nodes()
                    &&& final(self).size() == old(self).size()
                },
                None => {
                    &&& !old(self).nodes().dom().contains(k.0)
                    &&& final(self).nodes() == old(self).nodes().insert(k.0, final(self).nodes()[k.0])
                    &&& fresh_package(final(self).nodes()[k.0], fqn@, k)
                    &&& final(self).size() == old(self).size() + 1
                },
            },
    {
        match name_index_get(&self.lookup, &fqn) {
            Some(k) => {
                return PackageKey(k);
            },
            None => {},
        }
        let name = fqn.duplicate();
        let k = insert_package_slot(&mut self.map, package::Inner::from_fqn(fqn));
        let node = package_slot_mut(&mut self.map, k);
        node.set_key(PackageKey(k));
        name_index_insert(&mut self.lookup, name, k);
        self.count = self.count + 1;
        proof {
            assert forall|n: Seq<char>| #[trigger]
                name_index(self.lookup).dom().contains(n) implies package_slots(self.map).dom().contains(
                    name_index(self.lookup)[n],
                ) && package_slots(self.map)[name_index(self.lookup)[n]].fqn@ == n by {
                if n != name@ {
                    assert(old(self).nodes().dom().contains(name_index(old(self).lookup)[n]));
                }
            }
        }
        assert(package_slots(self.map).dom() =~= old(self).nodes().dom().insert(k));
        PackageKey(k)
    }

    /// The node stored under `key`, where the table holds one.
    pub fn get(&self, key: PackageKey) -> (r: &package::Inner)
        requires
            self.nodes().dom().contains(key.0),
        ensures
            *r == self.nodes()[key.0],
    {
        package_slot(&self.map, key.0)
    }

    /// The node named `fqn`, if any.
    pub fn get_by_fqn(&self, fqn: &FullyQualifiedName) -> (r: Option<&package::Inner>)
        requires
            self.wf(),
        ensures
            match self.find(fqn@) {
                Some(k) => r == Some(&self.nodes()[k]),
                None => r is None,
            },
    {
        match name_index_get(&self.lookup, fqn) {
            Some(k) => Some(package_slot(&self.map, k)),
            None => None,
        }
    }

    /// The keys that the table keeps in order.
    pub fn keys(&self) -> (r: Vec<PackageKey>)
        ensures
            r@ == self.order(),
    {
        let mut out: Vec<PackageKey> = Vec::new();
        let mut i: usize = 0;
        while i < self.order.len()
            invariant
                i <= self.order@.len(),
                out@ == self.order@.subrange(0, i as int),
            decreases self.order@.len() - i,
        {
            out.push(self.order[i]);
            i = i + 1;
            assert(out@ =~= self.order@.subrange(0, i as int));
        }
        assert(out@ =~= self.order@);
        out
    }
}


impl FileTable {
    /// Records the import `dependent` in the file stored under `key`, among
    /// its direct and transitive dependents.
    pub fn add_dependent(&mut self, key: FileKey, dependent: DependentInner)
        requires
            old(self).wf(),
            old(self).nodes().dom().contains(key.0),
        ensures
            final(self).wf(),
            final(self).nodes() == old(self).nodes().insert(key.0, final(self).nodes()[key.0]),
            final(self).nodes()[key.0].dependents@ == old(self).nodes()[key.0].dependents@.push(
                dependent,
            ),
            final(self).nodes()[key.0].transitive_dependents@ == old(
                self,
            ).nodes()[key.0].transitive_dependents@.push(dependent),
            final(self).nodes()[key.0] == (file::Inner {
                dependents: final(self).nodes()[key.0].dependents,
                transitive_dependents: final(self).nodes()[key.0].transitive_dependents,
                ..old(self).nodes()[key.0]
            }),
            forall|n: Seq<char>| #[trigger] final(self).find(n) == old(self).find(n),
            final(self).size() == old(self).size(),
            final(self).order() == old(self).order(),
    {
        let node = file_slot_mut(&mut self.map, key.0);
        node.add_dependent(dependent);
        proof {
            assert forall|n: Seq<char>| #[trigger]
                name_index(self.lookup).dom().contains(n) implies file_slots(self.map).dom().contains(
                    name_index(self.lookup)[n],
                ) && file_slots(self.map)[name_index(self.lookup)[n]].fqn@ == n by {
                assert(old(self).nodes().dom().contains(name_index(self.lookup)[n]));
            }
        }
    }
}

impl PackageTable {
    /// Sets the name of the package stored under `key`.
    pub fn set_name(&mut self, key: PackageKey, name: String)
        requires
            old(self).wf(),
            old(self).nodes().dom().contains(key.0),
        ensures
            final(self).wf(),
            final(self).nodes() == old(self).nodes().insert(
                key.0,
                package::Inner { name, ..old(self).nodes()[key.0] },
            ),
            forall|n: Seq<char>| #[trigger] final(self).find(n) == old(self).find(n),
            final(self).size() == old(self).size(),
            final(self).order() == old(self).order(),
    {
        let node = package_slot_mut(&mut self.map, key.0);
        node.set_name(name);
        proof {
            assert forall|n: Seq<char>| #[trigger]
                name_index(self.lookup).dom().contains(n) implies package_slots(self.map).dom().contains(
                    name_index(self.lookup)[n],
                ) && package_slots(self.map)[name_index(self.lookup)[n]].fqn@ == n by {
                assert(old(self).nodes().dom().contains(name_index(self.lookup)[n]));
            }
        }
    }
}

/// A `slotmap` slot map of enum nodes, keyed by `DefaultKey`.
#[verifier::external_body]
pub struct EnumSlots {
    slots: SlotMap<DefaultKey, enums::Inner>,
}

/// What a slot map of enum nodes holds: each value by the `KeyData::as_ffi`
/// number of its key.
pub uninterp spec fn enum_slots(m: EnumSlots) -> Map<u64, enums::Inner>;

/// The number of slots that a slot map of enum nodes has taken, its empty
/// first slot not counted.
pub uninterp spec fn enum_slots_taken(m: EnumSlots) -> nat;

/// `SlotMap::with_key` of the `slotmap` crate: an empty slot map of enum nodes,
/// with no slot taken.
#[verifier::external_body]
fn new_enum_slots() -> (r: EnumSlots)
    ensures
        enum_slots(r).dom() == Set::<u64>::empty(),
        enum_slots_taken(r) == 0,
{
    EnumSlots { slots: SlotMap::with_key() }
}

/// `SlotMap::insert` of the `slotmap` crate: stores `value` under a key
/// that no value has, and hands out the `KeyData::as_ffi` number of the key.
/// It takes a free slot or one more slot. Besides the taken slots the map
/// keeps one empty first slot, and it panics where that would make
/// `u32::MAX` slots, that is once `u32::MAX - 1` are taken, which `requires`
/// leaves out.
#[verifier::external_body]
fn insert_enum_slot(m: &mut EnumSlots, value: enums::Inner) -> (k: u64)
    requires
        enum_slots_taken(*old(m)) < u32::MAX - 1,
    ensures
        !enum_slots(*old(m)).dom().contains(k),
        enum_slots(*final(m)) == enum_slots(*old(m)).insert(k, value),
        enum_slots_taken(*final(m)) <= enum_slots_taken(*old(m)) + 1,
{
    m.slots.insert(value).data().as_ffi()
}

/// `Index::index` of `SlotMap` of the `slotmap` crate, with the key that
/// `KeyData::from_ffi` makes of `k`: the value stored under the key whose
/// `as_ffi` number is `k`. It panics on a key that holds no value, which
/// `requires` leaves out.
#[verifier::external_body]
fn enum_slot(m: &EnumSlots, k: u64) -> (r: &enums::Inner)
    requires
        enum_slots(*m).dom().contains(k),
    ensures
        *r == enum_slots(*m)[k],
{
    &m.slots[DefaultKey::from(KeyData::from_ffi(k))]
}

/// `IndexMut::index_mut` of `SlotMap` of the `slotmap` crate, with the key
/// that `KeyData::from_ffi` makes of `k`: the value stored under the key
/// whose `as_ffi` number is `k`, to change in place. It panics on a key that
/// holds no value, which `requires` leaves out.
#[verifier::external_body]
fn enum_slot_mut(m: &mut EnumSlots, k: u64) -> (r: &mut enums::Inner)
    requires
        enum_slots(*old(m)).dom().contains(k),
    ensures
        *r == enum_slots(*old(m))[k],
        enum_slots(*final(m)) == enum_slots(*old(m)).insert(k, *final(r)),
        enum_slots_taken(*final(m)) == enum_slots_taken(*old(m)),
{
    &mut m.slots[DefaultKey::from(KeyData::from_ffi(k))]
}

/// `e` is a new enum node named `fqn` that holds the key `k`.
pub open spec fn fresh_enum(e: enums::Inner, fqn: Seq<char>, k: EnumKey) -> bool {
    &&& e.key == k
    &&& enums::blank_enum(enums::Inner { key: EnumKey(0), ..e }, fqn)
}

/// The table of enum nodes: each stored in a slot map and found again by its
/// fully qualified name.
pub struct EnumTable {
    map: EnumSlots,
    lookup: NameIndex,
    count: usize,
    order: Vec<EnumKey>,
}

impl EnumTable {
    /// Distinct names of a well-formed table lead to distinct nodes.
    pub proof fn lemma_find_injective(&self, a: Seq<char>, b: Seq<char>)
        requires
            self.wf(),
        ensures
            self.find(a) is Some && self.find(a) == self.find(b) ==> a == b,
    {
        if self.find(a) is Some && self.find(a) == self.find(b) {
            assert(enum_slots(self.map)[self.find(a)->0].fqn@ == a);
        }
    }

    /// A name found in a well-formed table leads to a node of that name, which
    /// holds its own key.
    pub proof fn lemma_found(&self, name: Seq<char>)
        requires
            self.wf(),
        ensures
            self.find(name) matches Some(k) ==> self.nodes().dom().contains(k)
                && self.nodes()[k].fqn@ == name && self.nodes()[k].key == EnumKey(k),
    {
    }

    /// The nodes, each by the number of its key.
    pub closed spec fn nodes(&self) -> Map<u64, enums::Inner> {
        enum_slots(self.map)
    }

    /// The number of the key of the node named `name`, if any.
    pub closed spec fn find(&self, name: Seq<char>) -> Option<u64> {
        name_found(self.lookup, name)
    }

    /// The number of names the table stores.
    pub closed spec fn size(&self) -> nat {
        self.count as nat
    }

    /// The keys in the order the table keeps.
    pub closed spec fn order(&self) -> Seq<EnumKey> {
        self.order@
    }

    /// Every name found leads to a node, and each node holds its own key.
    pub closed spec fn wf(&self) -> bool {
        &&& enum_slots_taken(self.map) <= self.count
        &&& name_index(self.lookup).dom().finite()
        &&& name_index(self.lookup).dom().len() == self.count
        &&& forall|n: Seq<char>| #[trigger]
            name_index(self.lookup).dom().contains(n) ==> enum_slots(self.map).dom().contains(
                name_index(self.lookup)[n],
            ) && enum_slots(self.map)[name_index(self.lookup)[n]].fqn@ == n
        &&& forall|k: u64| #[trigger]
            enum_slots(self.map).dom().contains(k) ==> enum_slots(self.map)[k].key == EnumKey(k)
    }

    /// The empty table.
    pub fn new() -> (r: EnumTable)
        ensures
            r.wf(),
            r.nodes().dom() == Set::<u64>::empty(),
            r.size() == 0,
            r.order().len() == 0,
            forall|n: Seq<char>| #[trigger] r.find(n) is None,
    {
        EnumTable { map: new_enum_slots(), lookup: new_name_index(), count: 0, order: Vec::new() }
    }

    /// The key of the node named `fqn`: the one stored under that name, or,
    /// where there is none, a new node made from the name and stored under
    /// a new key. Either way the node holds its key.
    pub fn get_or_insert_key(&mut self, fqn: FullyQualifiedName) -> (k: EnumKey)
        requires
            old(self).wf(),
            old(self).size() < u32::MAX - 1,
        ensures
            final(self).wf(),
            final(self).find(fqn@) == Some(k.0),
            final(self).nodes().dom().contains(k.0),
            final(self).order() == old(self).order(),
            forall|n: Seq<char>| n != fqn@ ==> #[trigger] final(self).find(n) == old(self).find(n),
            match old(self).find(fqn@) {
                Some(k0) => {
                    &&& k.0 == k0
                    &&& final(self).nodes() == old(self).nodes()
                    &&& final(self).size() == old(self).size()
                },
                None => {
                    &&& !old(self).nodes().dom().contains(k.0)
                    &&& final(self).nodes() == old(self).nodes().insert(k.0, final(self).nodes()[k.0])
                    &&& fresh_enum(final(self).nodes()[k.0], fqn@, k)
                    &&& final(self).size() == old(self).size() + 1
                },
            },
    {
        match name_index_get(&self.lookup, &fqn) {
            Some(k) => {
                return EnumKey(k);
            },
            None => {},
        }
        let name = fqn.duplicate();
        let k = insert_enum_slot(&mut self.map, enums::Inner::from_fqn(fqn));
        let node = enum_slot_mut(&mut self.map, k);
        node.set_key(EnumKey(k));
        name_index_insert(&mut self.lookup, name, k);
        self.count = self.count + 1;
        proof {
            assert forall|n: Seq<char>| #[trigger]
                name_index(self.lookup).dom().contains(n) implies enum_slots(self.map).dom().contains(
                    name_index(self.lookup)[n],
                ) && enum_slots(self.map)[name_index(self.lookup)[n]].fqn@ == n by {
                if n != name@ {
                    assert(old(self).nodes().dom().contains(name_index(old(self).lookup)[n]));
                }
            }
        }
        assert(enum_slots(self.map).dom() =~= old(self).nodes().dom().insert(k));
        EnumKey(k)
    }

    /// The node stored under `key`, where the table holds one.
    pub fn get(&self, key: EnumKey) -> (r: &enums::Inner)
        requires
            self.nodes().dom().contains(key.0),
        ensures
            *r == self.nodes()[key.0],
    {
        enum_slot(&self.map, key.0)
    }

    /// The node named `fqn`, if any.
    pub fn get_by_fqn(&self, fqn: &FullyQualifiedName) -> (r: Option<&enums::Inner>)
        requires
            self.wf(),
        ensures
            match self.find(fqn@) {
                Some(k) => r == Some(&self.nodes()[k]),
                None => r is None,
            },
    {
        match name_index_get(&self.lookup, fqn) {
            Some(k) => Some(enum_slot(&self.map, k)),
            None => None,
        }
    }

    /// The keys that the table keeps in order.
    pub fn keys(&self) -> (r: Vec<EnumKey>)
        ensures
            r@ == self.order(),
    {
        let mut out: Vec<EnumKey> = Vec::new();
        let mut i: usize = 0;
        while i < self.order.len()
            invariant
                i <= self.order@.len(),
                out@ == self.order@.subrange(0, i as int),
            decreases self.order@.len() - i,
        {
            out.push(self.order[i]);
            i = i + 1;
            assert(out@ =~= self.order@.subrange(0, i as int));
        }
        assert(out@ =~= self.order@);
        out
    }
}

/// A `slotmap` slot map of enum value nodes, keyed by `DefaultKey`.
#[verifier::external_body]
pub struct EnumValueSlots {
    slots: SlotMap<DefaultKey, enum_value::Inner>,
}

/// What a slot map of enum value nodes holds: each value by the `KeyData::as_ffi`
/// number of its key.
pub uninterp spec fn enum_value_slots(m: EnumValueSlots) -> Map<u64, enum_value::Inner>;

/// The number of slots that a slot map of enum value nodes has taken, its empty
/// first slot not counted.
pub uninterp spec fn enum_value_slots_taken(m: EnumValueSlots) -> nat;

/// `SlotMap::with_key` of the `slotmap` crate: an empty slot map of enum value nodes,
/// with no slot taken.
#[verifier::external_body]
fn new_enum_value_slots() -> (r: EnumValueSlots)
    ensures
        enum_value_slots(r).dom() == Set::<u64>::empty(),
        enum_value_slots_taken(r) == 0,
{
    EnumValueSlots { slots: SlotMap::with_key() }
}

/// `SlotMap::insert` of the `slotmap` crate: stores `value` under a key
/// that no value has, and hands out the `KeyData::as_ffi` number of the key.
/// It takes a free slot or one more slot. Besides the taken slots the map
/// keeps one empty first slot, and it panics where that would make
/// `u32::MAX` slots, that is once `u32::MAX - 1` are taken, which `requires`
/// leaves out.
#[verifier::external_body]
fn insert_enum_value_slot(m: &mut EnumValueSlots, value: enum_value::Inner) -> (k: u64)
    requires
        enum_value_slots_taken(*old(m)) < u32::MAX - 1,
    ensures
        !enum_value_slots(*old(m)).dom().contains(k),
        enum_value_slots(*final(m)) == enum_value_slots(*old(m)).insert(k, value),
        enum_value_slots_taken(*final(m)) <= enum_value_slots_taken(*old(m)) + 1,
{
    m.slots.insert(value).data().as_ffi()
}

/// `Index::index` of `SlotMap` of the `slotmap` crate, with the key that
/// `KeyData::from_ffi` makes of `k`: the value stored under the key whose
/// `as_ffi` number is `k`. It panics on a key that holds no value, which
/// `requires` leaves out.
#[verifier::external_body]
fn enum_value_slot(m: &EnumValueSlots, k: u64) -> (r: &enum_value::Inner)
    requires
        enum_value_slots(*m).dom().contains(k),
    ensures
        *r == enum_value_slots(*m)[k],
{
    &m.slots[DefaultKey::from(KeyData::from_ffi(k))]
}

/// `IndexMut::index_mut` of `SlotMap` of the `slotmap` crate, with the key
/// that `KeyData::from_ffi` makes of `k`: the value stored under the key
/// whose `as_ffi` number is `k`, to change in place. It panics on a key that
/// holds no value, which `requires` leaves out.
#[verifier::external_body]
fn enum_value_slot_mut(m: &mut EnumValueSlots, k: u64) -> (r: &mut enum_value::Inner)
    requires
        enum_value_slots(*old(m)).dom().contains(k),
    ensures
        *r == enum_value_slots(*old(m))[k],
        enum_value_slots(*final(m)) == enum_value_slots(*old(m)).insert(k, *final(r)),
        enum_value_slots_taken(*final(m)) == enum_value_slots_taken(*old(m)),
{
    &mut m.slots[DefaultKey::from(KeyData::from_ffi(k))]
}

/// `v` is a new enum value node named `fqn` that holds the key `k`.
pub open spec fn fresh_enum_value(v: enum_value::Inner, fqn: Seq<char>, k: EnumValueKey) -> bool {
    &&& v.key == k
    &&& enum_value::blank_value(enum_value::Inner { key: EnumValueKey(0), ..v }, fqn)
}

/// The table of enum value nodes: each stored in a slot map and found again by its
/// fully qualified name.
pub struct EnumValueTable {
    map: EnumValueSlots,
    lookup: NameIndex,
    count: usize,
    order: Vec<EnumValueKey>,
}

impl EnumValueTable {
    /// Distinct names of a well-formed table lead to distinct nodes.
    pub proof fn lemma_find_injective(&self, a: Seq<char>, b: Seq<char>)
        requires
            self.wf(),
        ensures
            self.find(a) is Some && self.find(a) == self.find(b) ==> a == b,
    {
        if self.find(a) is Some && self.find(a) == self.find(b) {
            assert(enum_value_slots(self.map)[self.find(a)->0].fqn@ == a);
        }
    }

    /// A name found in a well-formed table leads to a node of that name, which
    /// holds its own key.
    pub proof fn lemma_found(&self, name: Seq<char>)
        requires
            self.wf(),
        ensures
            self.find(name) matches Some(k) ==> self.nodes().dom().contains(k)
                && self.nodes()[k].fqn@ == name && self.nodes()[k].key == EnumValueKey(k),
    {
    }

    /// The nodes, each by the number of its key.
    pub closed spec fn nodes(&self) -> Map<u64, enum_value::Inner> {
        enum_value_slots(self.map)
    }

    /// The number of the key of the node named `name`, if any.
    pub closed spec fn find(&self, name: Seq<char>) -> Option<u64> {
        name_found(self.lookup, name)
    }

    /// The number of names the table stores.
    pub closed spec fn size(&self) -> nat {
        self.count as nat
    }

    /// The keys in the order the table keeps.
    pub closed spec fn order(&self) -> Seq<EnumValueKey> {
        self.order@
    }

    /// Every name found leads to a node, and each node holds its own key.
    pub closed spec fn wf(&self) -> bool {
        &&& enum_value_slots_taken(self.map) <= self.count
        &&& name_index(self.lookup).dom().finite()
        &&& name_index(self.lookup).dom().len() == self.count
        &&& forall|n: Seq<char>| #[trigger]
            name_index(self.lookup).dom().contains(n) ==> enum_value_slots(self.map).dom().contains(
                name_index(self.lookup)[n],
            ) && enum_value_slots(self.map)[name_index(self.lookup)[n]].fqn@ == n
        &&& forall|k: u64| #[trigger]
            enum_value_slots(self.map).dom().contains(k) ==> enum_value_slots(self.map)[k].key == EnumValueKey(k)
    }

    /// The empty table.
    pub fn new() -> (r: EnumValueTable)
        ensures
            r.wf(),
            r.nodes().dom() == Set::<u64>::empty(),
            r.size() == 0,
            r.order().len() == 0,
            forall|n: Seq<char>| #[trigger] r.find(n) is None,
    {
        EnumValueTable { map: new_enum_value_slots(), lookup: new_name_index(), count: 0, order: Vec::new() }
    }

    /// The key of the node named `fqn`: the one stored under that name, or,
    /// where there is none, a new node made from the name and stored under
    /// a new key. Either way the node holds its key.
    pub fn get_or_insert_key(&mut self, fqn: FullyQualifiedName) -> (k: EnumValueKey)
        requires
            old(self).wf(),
            old(self).size() < u32::MAX - 1,
        ensures
            final(self).wf(),
            final(self).find(fqn@) == Some(k.0),
            final(self).nodes().dom().contains(k.0),
            final(self).order() == old(self).order(),
            forall|n: Seq<char>| n != fqn@ ==> #[trigger] final(self).find(n) == old(self).find(n),
            match old(self).find(fqn@) {
                Some(k0) => {
                    &&& k.0 == k0
                    &&& final(self).nodes() == old(self).nodes()
                    &&& final(self).size() == old(self).size()
                },
                None => {
                    &&& !old(self).nodes().dom().contains(k.0)
                    &&& final(self).nodes() == old(self).nodes().insert(k.0, final(self).nodes()[k.0])
                    &&& fresh_enum_value(final(self).nodes()[k.0], fqn@, k)
                    &&& final(self).size() == old(self).size() + 1
                },
            },
    {
        match name_index_get(&self.lookup, &fqn) {
            Some(k) => {
                return EnumValueKey(k);
            },
            None => {},
        }
        let name = fqn.duplicate();
        let k = insert_enum_value_slot(&mut self.map, enum_value::Inner::from_fqn(fqn));
        let node = enum_value_slot_mut(&mut self.map, k);
        node.set_key(EnumValueKey(k));
        name_index_insert(&mut self.lookup, name, k);
        self.count = self.count + 1;
        proof {
            assert forall|n: Seq<char>| #[trigger]
                name_index(self.lookup).dom().contains(n) implies enum_value_slots(self.map).dom().contains(
                    name_index(self.lookup)[n],
                ) && enum_value_slots(self.map)[name_index(self.lookup)[n]].fqn@ == n by {
                if n != name@ {
                    assert(old(self).nodes().dom().contains(name_index(old(self).lookup)[n]));
                }
            }
        }
        assert(enum_value_slots(self.map).dom() =~= old(self).nodes().dom().insert(k));
        EnumValueKey(k)
    }

    /// The node stored under `key`, where the table holds one.
    pub fn get(&self, key: EnumValueKey) -> (r: &enum_value::Inner)
        requires
            self.nodes().dom().contains(key.0),
        ensures
            *r == self.nodes()[key.0],
    {
        enum_value_slot(&self.map, key.0)
    }

    /// The node named `fqn`, if any.
    pub fn get_by_fqn(&self, fqn: &FullyQualifiedName) -> (r: Option<&enum_value::Inner>)
        requires
            self.wf(),
        ensures
            match self.find(fqn@) {
                Some(k) => r == Some(&self.nodes()[k]),
                None => r is None,
            },
    {
        match name_index_get(&self.lookup, fqn) {
            Some(k) => Some(enum_value_slot(&self.map, k)),
            None => None,
        }
    }

    /// The keys that the table keeps in order.
    pub fn keys(&self) -> (r: Vec<EnumValueKey>)
        ensures
            r@ == self.order(),
    {
        let mut out: Vec<EnumValueKey> = Vec::new();
        let mut i: usize = 0;
        while i < self.order.len()
            invariant
                i <= self.order@.len(),
                out@ == self.order@.subrange(0, i as int),
            decreases self.order@.len() - i,
        {
            out.push(self.order[i]);
            i = i + 1;
            assert(out@ =~= self.order@.subrange(0, i as int));
        }
        assert(out@ =~= self.order@);
        out
    }
}

impl EnumTable {
    /// Hydrates the enum stored under `key` from `h`.
    pub fn hydrate(&mut self, key: EnumKey, h: enums::Hydrate) -> (r: crate::ast::file::Hydrated<
        EnumKey,
    >)
        requires
            old(self).wf(),
            old(self).nodes().dom().contains(key.0),
        ensures
            final(self).wf(),
            r.0 == key,
            r.1@ == old(self).nodes()[key.0].fqn@,
            r.2@ == h.name@,
            final(self).nodes() == old(self).nodes().insert(key.0, final(self).nodes()[key.0]),
            enums::enum_hydrated(final(self).nodes()[key.0], old(self).nodes()[key.0], h),
            forall|n: Seq<char>| #[trigger] final(self).find(n) == old(self).find(n),
            final(self).size() == old(self).size(),
            final(self).order() == old(self).order(),
    {
        let node = enum_slot_mut(&mut self.map, key.0);
        let r = node.hydrate(h);
        proof {
            assert forall|n: Seq<char>| #[trigger]
                name_index(self.lookup).dom().contains(n) implies enum_slots(self.map).dom().contains(
                    name_index(self.lookup)[n],
                ) && enum_slots(self.map)[name_index(self.lookup)[n]].fqn@ == n by {
                assert(old(self).nodes().dom().contains(name_index(self.lookup)[n]));
            }
        }
        r
    }
}

impl EnumValueTable {
    /// Hydrates the enum value stored under `key` from `h`, which must carry
    /// options.
    pub fn hydrate(&mut self, key: EnumValueKey, h: enum_value::Hydrate) -> (r:
        crate::ast::file::Hydrated<EnumValueKey>)
        requires
            old(self).wf(),
            old(self).nodes().dom().contains(key.0),
            h.options is Some,
        ensures
            final(self).wf(),
            r.0 == key,
            r.1@ == old(self).nodes()[key.0].fqn@,
            r.2@ == h.name@,
            final(self).nodes() == old(self).nodes().insert(key.0, final(self).nodes()[key.0]),
            enum_value::value_hydrated(final(self).nodes()[key.0], old(self).nodes()[key.0], h),
            forall|n: Seq<char>| #[trigger] final(self).find(n) == old(self).find(n),
            final(self).size() == old(self).size(),
            final(self).order() == old(self).order(),
    {
        let node = enum_value_slot_mut(&mut self.map, key.0);
        let r = node.hydrate(h);
        proof {
            assert forall|n: Seq<char>| #[trigger]
                name_index(self.lookup).dom().contains(n) implies enum_value_slots(self.map).dom().contains(
                    name_index(self.lookup)[n],
                ) && enum_value_slots(self.map)[name_index(self.lookup)[n]].fqn@ == n by {
                assert(old(self).nodes().dom().contains(name_index(self.lookup)[n]));
            }
        }
        r
    }
}

} // verus!
