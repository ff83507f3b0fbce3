//! Shared, identity-based storage for topological objects.
//!
//! Storing a value yields a [`Handle`]: a reference to one immutable stored
//! instance. Handle equality is defined by the identity of the underlying
//! storage cell — the id issued by the [`Store`] that created the cell —
//! never by the value of the stored object. Two independently stored,
//! value-identical objects therefore have unequal handles, while every clone
//! of a handle refers to the same cell and equals the original.

use std::sync::Arc;
use vstd::prelude::*;

verus! {

/// Internal cell type: holds exactly one instance of `T`, collectively owned
/// by all handles cloned from it, tagged with the id that makes its identity.
#[derive(Debug)]
pub struct Storage<T> {
    id: u64,
    inner: Arc<T>,
}

/// Relies on `alloc::sync::Arc::clone`: the returned `Arc` shares the same
/// allocation, so it carries the same value as the original.
#[verifier::external_body]
pub(crate) fn arc_clone<T>(arc: &Arc<T>) -> (r: Arc<T>)
    ensures
        r == *arc,
{
    Arc::clone(arc)
}

/// Relies on `alloc::sync::Arc` dereferencing: a shared reference to the
/// value the `Arc` holds.
#[verifier::external_body]
pub(crate) fn arc_get<T>(arc: &Arc<T>) -> (r: &T)
    ensures
        *r == **arc,
{
    &**arc
}

impl<T> Storage<T> {
    /// The identity of this storage cell.
    pub closed spec fn id_spec(&self) -> u64 {
        self.id
    }

    /// The value this storage cell holds.
    pub closed spec fn value_spec(&self) -> T {
        *self.inner
    }

    /// Create a `Storage` instance that wraps the provided object.
    ///
    /// The id makes the cell's identity; fresh ids come from a [`Store`].
    pub fn new(value: T, id: u64) -> (r: Self)
        ensures
            r.id_spec() == id,
            r.value_spec() == value,
    {
        Storage { id, inner: Arc::new(value) }
    }

    /// Create a handle that refers to this `Storage` instance.
    pub fn handle(&self) -> (r: Handle<T>)
        ensures
            r.id_spec() == self.id_spec(),
            r.value_spec() == self.value_spec(),
    {
        Handle { storage: self.clone() }
    }

    /// Read the stored value.
    pub fn get(&self) -> (r: &T)
        ensures
            *r == self.value_spec(),
    {
        arc_get(&self.inner)
    }

    /// The id of this cell, the whole of its identity.
    pub fn ptr(&self) -> (r: u64)
        ensures
            r == self.id_spec(),
    {
        self.id
    }
}

impl<T> Clone for Storage<T> {
    /// Cloning a cell shares it: the clone has the same identity and value.
    fn clone(&self) -> (r: Self)
        ensures
            r == *self,
    {
        Storage { id: self.id, inner: arc_clone(&self.inner) }
    }
}

impl<T> PartialEq for Storage<T> {
    /// Cell equality is identity: two cells are equal exactly if they are
    /// the same cell, never by the values they hold.
    fn eq(&self, other: &Self) -> (r: bool)
    {
        self.id == other.id
    }
}

impl<T> vstd::std_specs::cmp::PartialEqSpecImpl for Storage<T> {
    open spec fn obeys_eq_spec() -> bool {
        true
    }

    open spec fn eq_spec(&self, other: &Self) -> bool {
        self.id_spec() == other.id_spec()
    }
}

/// A handle to an object held in a storage cell.
///
/// A handle is only obtainable by storing a value in a [`Store`], or by
/// cloning an existing handle; either way it refers to a live cell and
/// always resolves to the stored object. Equality of handles is equality
/// of cell identity: two handles are equal exactly if they refer to the
/// same cell, regardless of the values stored.
#[derive(Debug)]
pub struct Handle<T> {
    storage: Storage<T>,
}

impl<T> Handle<T> {
    /// The identity of the cell this handle refers to.
    pub closed spec fn id_spec(&self) -> u64 {
        self.storage.id
    }

    /// The object this handle resolves to.
    pub closed spec fn value_spec(&self) -> T {
        *self.storage.inner
    }

    /// Whether two handles refer to the same storage cell; this is what
    /// handle equality means.
    pub open spec fn same_cell(&self, other: &Handle<T>) -> bool {
        self.id_spec() == other.id_spec()
    }

    /// Access the object that the handle references.
    pub fn get(&self) -> (r: Ref<'_, T>)
        ensures
            *r.0 == self.value_spec(),
    {
        Ref(self.storage.get())
    }

    /// Access the storage cell this handle refers to.
    pub fn storage(&self) -> (r: &Storage<T>)
        ensures
            r.id_spec() == self.id_spec(),
            r.value_spec() == self.value_spec(),
    {
        &self.storage
    }

    /// The identity of the referenced cell as a plain number.
    pub fn id(&self) -> (r: u64)
        ensures
            r == self.id_spec(),
    {
        self.storage.ptr()
    }
}

impl<T> Clone for Handle<T> {
    /// A clone of a handle refers to the same cell and equals the original.
    fn clone(&self) -> (r: Self)
        ensures
            r == *self,
    {
        Handle { storage: self.storage.clone() }
    }
}

impl<T> PartialEq for Handle<T> {
    /// Handle equality is identity of the referenced cell, never value
    /// equality of the stored objects.
    fn eq(&self, other: &Self) -> (r: bool)
    {
        self.storage.ptr() == other.storage.ptr()
    }
}

impl<T> vstd::std_specs::cmp::PartialEqSpecImpl for Handle<T> {
    open spec fn obeys_eq_spec() -> bool {
        true
    }

    open spec fn eq_spec(&self, other: &Self) -> bool {
        self.same_cell(other)
    }
}

/// Returned by [`Handle::get`]: a read-only view of the stored object.
pub struct Ref<'r, T>(pub &'r T);

/// Issues the identities that make storage cells distinguishable.
///
/// Every cell created through one store carries an id no other cell from
/// that store shares, so graph-walking code can tell true aliasing (the
/// same cell reused by two parents) from two independently stored,
/// value-equal objects.
pub struct Store {
    next_id: u64,
}

impl Store {
    /// The id the next stored value will receive.
    pub closed spec fn next_id_spec(&self) -> u64 {
        self.next_id
    }

    /// Whether this store has already issued the given id.
    pub open spec fn issued(&self, id: u64) -> bool {
        id < self.next_id_spec()
    }

    /// Create a store that has issued no ids yet.
    pub fn new() -> (r: Store)
        ensures
            r.next_id_spec() == 0,
    {
        Store { next_id: 0 }
    }

    /// Store a value, yielding a handle to a fresh cell: one whose id this
    /// store never issued before.
    pub fn insert<T>(&mut self, value: T) -> (h: Handle<T>)
        requires
            old(self).next_id_spec() < u64::MAX,
        ensures
            h.id_spec() == old(self).next_id_spec(),
            h.value_spec() == value,
            !old(self).issued(h.id_spec()),
            final(self).issued(h.id_spec()),
            final(self).next_id_spec() == old(self).next_id_spec() + 1,
            forall|i: u64| old(self).issued(i) ==> final(self).issued(i),
    {
        let id = self.next_id;
        self.next_id = self.next_id + 1;
        Storage::new(value, id).handle()
    }
}

/// Identity versus value equality: a handle whose id a store has already
/// issued is unequal to the next handle that store creates, whatever the
/// stored values are — in particular when the values are equal.
pub proof fn lemma_fresh_handle_distinct<T>(store: Store, earlier: Handle<T>, fresh: Handle<T>)
    requires
        store.issued(earlier.id_spec()),
        fresh.id_spec() == store.next_id_spec(),
    ensures
        !earlier.same_cell(&fresh),
        !fresh.same_cell(&earlier),
{
}

} // verus!
