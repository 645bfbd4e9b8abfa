use vstd::prelude::*;

verus! {

/// Tracks the reference count of every geometry that was created, by id.
/// A count of zero means the underlying buffer pair has been destroyed.
pub struct GeometryStore {
    counts: Vec<u64>,
}

/// An immutable, reference-counted GPU vertex/index buffer pair. Handles to
/// the same buffers share one reference count in the [`GeometryStore`]; the
/// buffers are destroyed exactly once, when the last handle is released.
pub struct Geometry {
    id: usize,
    present: bool,
    vertex_buffer: u64,
    index_buffer: u64,
    index_count: u32,
}

/// The reference count a geometry holds right after its creation.
pub open spec fn spec_count_after_create() -> nat {
    1
}

/// The reference count after the initial handle was cloned `n` times.
pub open spec fn spec_count_after_clones(n: nat) -> nat
    decreases n,
{
    if n == 0 {
        spec_count_after_create()
    } else {
        spec_count_after_clones((n - 1) as nat) + 1
    }
}

/// The reference count after `j` of the `n + 1` handles were released.
pub open spec fn spec_count_after_releases(n: nat, j: nat) -> nat
    decreases j,
{
    if j == 0 {
        spec_count_after_clones(n)
    } else {
        (spec_count_after_releases(n, (j - 1) as nat) - 1) as nat
    }
}

/// A release destroys the buffers exactly when it observes a count of one.
pub open spec fn spec_release_destroys(count_before: nat) -> bool {
    count_before == 1
}

impl View for GeometryStore {
    type V = Seq<u64>;

    closed spec fn view(&self) -> Seq<u64> {
        self.counts@
    }
}

impl GeometryStore {
    /// A store with no geometries yet.
    pub fn new() -> (s: GeometryStore)
        ensures
            s@.len() == 0,
    {
        GeometryStore { counts: Vec::new() }
    }

    /// How many geometries were ever created in this store.
    pub fn len(&self) -> (n: usize)
        ensures
            n == self@.len(),
    {
        self.counts.len()
    }

    /// The current reference count of geometry `id`.
    pub fn count(&self, id: usize) -> (c: u64)
        requires
            id < self@.len(),
        ensures
            c == self@[id as int],
    {
        self.counts[id]
    }
}

impl Geometry {
    /// The id under which the store tracks this geometry's reference count.
    pub closed spec fn spec_id(&self) -> nat {
        self.id as nat
    }

    /// Whether this handle still co-owns the underlying buffers.
    pub closed spec fn spec_present(&self) -> bool {
        self.present
    }

    /// The number of indices of the geometry.
    pub closed spec fn spec_index_count(&self) -> nat {
        self.index_count as nat
    }

    /// The vertex buffer handle the geometry was created over.
    pub closed spec fn spec_vertex_buffer(&self) -> u64 {
        self.vertex_buffer
    }

    /// The index buffer handle the geometry was created over.
    pub closed spec fn spec_index_buffer(&self) -> u64 {
        self.index_buffer
    }

    /// Registers a new geometry with reference count one. The buffer handles
    /// are whatever the caller's staged uploads produced.
    pub fn new(store: &mut GeometryStore, vertex_buffer: u64, index_buffer: u64, index_count: u32) -> (g: Geometry)
        requires
            old(store)@.len() < usize::MAX,
        ensures
            final(store)@ == old(store)@.push(spec_count_after_create() as u64),
            g.spec_id() == old(store)@.len(),
            g.spec_present(),
            g.spec_index_count() == index_count,
            g.spec_vertex_buffer() == vertex_buffer,
            g.spec_index_buffer() == index_buffer,
    {
        let id = store.counts.len();
        store.counts.push(1);
        Geometry { id, present: true, vertex_buffer, index_buffer, index_count }
    }

    /// Returns an aliasing handle and increments the shared reference count;
    /// the GPU buffers are never duplicated.
    pub fn clone_ref(&self, store: &mut GeometryStore) -> (g: Geometry)
        requires
            self.spec_present(),
            self.spec_id() < old(store)@.len(),
            old(store)@[self.spec_id() as int] >= 1,
            old(store)@[self.spec_id() as int] < u64::MAX,
        ensures
            final(store)@ == old(store)@.update(
                self.spec_id() as int,
                (old(store)@[self.spec_id() as int] + 1) as u64,
            ),
            g.spec_id() == self.spec_id(),
            g.spec_present(),
            g.spec_index_count() == self.spec_index_count(),
            g.spec_vertex_buffer() == self.spec_vertex_buffer(),
            g.spec_index_buffer() == self.spec_index_buffer(),
    {
        let c = store.counts[self.id];
        store.counts.set(self.id, c + 1);
        Geometry {
            id: self.id,
            present: true,
            vertex_buffer: self.vertex_buffer,
            index_buffer: self.index_buffer,
            index_count: self.index_count,
        }
    }

    /// The buffer handles and index count, exactly as the geometry was
    /// created with them, available as long as the handle has not been
    /// released.
    pub fn get(&self) -> (r: Option<(u64, u64, u32)>)
        ensures
            r is Some <==> self.spec_present(),
            r is Some ==> r.unwrap() == (
                self.spec_vertex_buffer(),
                self.spec_index_buffer(),
                self.spec_index_count() as u32,
            ),
    {
        if self.present {
            Some((self.vertex_buffer, self.index_buffer, self.index_count))
        } else {
            None
        }
    }

    /// Releases this handle. Returns true exactly when this was the last
    /// handle, i.e. when the caller must now destroy the GPU buffers.
    pub fn cleanup(self, store: &mut GeometryStore) -> (destroy: bool)
        requires
            self.spec_id() < old(store)@.len(),
            self.spec_present() ==> old(store)@[self.spec_id() as int] >= 1,
        ensures
            self.spec_present() ==> final(store)@ == old(store)@.update(
                self.spec_id() as int,
                (old(store)@[self.spec_id() as int] - 1) as u64,
            ),
            !self.spec_present() ==> final(store)@ == old(store)@,
            destroy <==> self.spec_present() && spec_release_destroys(
                old(store)@[self.spec_id() as int] as nat,
            ),
    {
        if !self.present {
            return false;
        }
        let c = store.counts[self.id];
        store.counts.set(self.id, c - 1);
        c == 1
    }
}

/// Reference counting law: after one creation and `n` clones the count is
/// `n + 1`; while `j < n + 1` handles have been released no release has
/// destroyed the buffers except possibly the last, and the release made with
/// `j` earlier releases destroys the buffers exactly when it is the final,
/// `n + 1`-st one (`j == n`). So all `n + 1` releases together destroy the
/// buffer pair exactly once, and never while a handle is outstanding.
pub proof fn lemma_geometry_refcount(n: nat, j: nat)
    requires
        j <= n,
    ensures
        spec_count_after_clones(n) == n + 1,
        spec_count_after_releases(n, j) == n + 1 - j,
        spec_release_destroys(spec_count_after_releases(n, j)) <==> j == n,
    decreases n + j,
{
    if n > 0 {
        lemma_geometry_refcount((n - 1) as nat, 0);
    }
    if j > 0 {
        lemma_geometry_refcount(n, (j - 1) as nat);
    }
}

} // verus!
