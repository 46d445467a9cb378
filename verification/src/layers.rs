//! The layered geometry arena: three flat backing stores (vertices, 16-bit
//! indices, per-draw instances) partitioned at construction time into
//! fixed-capacity windows, one per layer.
//!
//! Layers are declared as an ordered list of bounds and packed in reverse
//! physical order: the bound declared at position `k` occupies the physical
//! chunk `n - 1 - k`, so the bound declared first sits at the highest offset
//! of every backing store. External indexing is translated back at lookup so
//! that layer 0 still addresses the first declared bound.

use vstd::prelude::*;

verus! {

broadcast use vstd::array::group_array_axioms;

/// An RGBA color with 8-bit channels.
#[derive(Copy, Clone, Eq, PartialEq, Hash, Debug, Default)]
pub struct Color {
    pub r: u8,
    pub g: u8,
    pub b: u8,
    pub a: u8,
}

impl Color {
    pub fn new(r: u8, g: u8, b: u8, a: u8) -> (c: Self)
        ensures
            c == (Color { r, g, b, a }),
    {
        Self { r, g, b, a }
    }

    pub fn with_r(self, r: u8) -> (c: Self)
        ensures
            c == (Color { r, ..self }),
    {
        Self { r, ..self }
    }

    pub fn with_g(self, g: u8) -> (c: Self)
        ensures
            c == (Color { g, ..self }),
    {
        Self { g, ..self }
    }

    pub fn with_b(self, b: u8) -> (c: Self)
        ensures
            c == (Color { b, ..self }),
    {
        Self { b, ..self }
    }

    pub fn with_a(self, a: u8) -> (c: Self)
        ensures
            c == (Color { a, ..self }),
    {
        Self { a, ..self }
    }
}

pub fn color(r: u8, g: u8, b: u8, a: u8) -> (c: Color)
    ensures
        c == (Color { r, g, b, a }),
{
    Color { r, g, b, a }
}

/// A 2D point carried as two IEEE-754 single-precision bit patterns.
///
/// The arena stores and moves vertices without ever interpreting their
/// coordinates; the renderer converts bit patterns to floating point at the
/// boundary where the data leaves the library.
#[derive(Copy, Clone, Eq, PartialEq, Hash, Debug, Default)]
pub struct Vec2Bits {
    pub x: u32,
    pub y: u32,
}

impl Vec2Bits {
    pub fn new(x: u32, y: u32) -> (v: Self)
        ensures
            v == (Vec2Bits { x, y }),
    {
        Self { x, y }
    }

    pub fn zero() -> (v: Self)
        ensures
            v == (Vec2Bits { x: 0u32, y: 0u32 }),
    {
        Self { x: 0, y: 0 }
    }
}

/// One drawable placement of a layer's geometry: a 2D affine transform
/// (six scalars, carried as bit patterns) and an RGBA color.
#[derive(Copy, Clone, Eq, PartialEq, Debug)]
pub struct Instance {
    pub transform: [u32; 6],
    pub color: Color,
}

impl Instance {
    /// The zero-filled instance used to initialize the backing store.
    pub open spec fn spec_zero() -> Instance {
        Instance {
            transform: vstd::array::spec_array_fill_for_copy_type(0u32),
            color: Color { r: 0, g: 0, b: 0, a: 0 },
        }
    }

    pub fn zero() -> (c: Self)
        ensures
            c == Self::spec_zero(),
    {
        Self { transform: [0u32; 6], color: Color { r: 0, g: 0, b: 0, a: 0 } }
    }

    pub fn new(transform: [u32; 6], c: Color) -> (r: Self)
        ensures
            r == (Instance { transform, color: c }),
    {
        Self { transform, color: c }
    }

    pub fn with_transform(self, transform: [u32; 6]) -> (r: Self)
        ensures
            r == (Instance { transform, ..self }),
    {
        Self { transform, ..self }
    }

    pub fn with_color(self, c: Color) -> (r: Self)
        ensures
            r == (Instance { color: c, ..self }),
    {
        Self { color: c, ..self }
    }
}

pub fn instance(transform: [u32; 6], c: Color) -> (r: Instance)
    ensures
        r == (Instance { transform, color: c }),
{
    Instance::new(transform, c)
}

/// Declared capacity of one layer, fixed for the arena's lifetime.
#[derive(Copy, Clone, Eq, PartialEq, Debug, Default)]
pub struct LayerBounds {
    pub max_vertices: u16,
    pub max_indices: u32,
    pub max_instances: u32,
}

impl LayerBounds {
    pub fn new(max_vertices: u16, max_indices: u32, max_instances: u32) -> (b: Self)
        ensures
            b == (LayerBounds { max_vertices, max_indices, max_instances }),
    {
        Self { max_vertices, max_indices, max_instances }
    }
}

pub fn layer_bounds(max_vertices: u16, max_indices: u32, max_instances: u32) -> (b: LayerBounds)
    ensures
        b == (LayerBounds { max_vertices, max_indices, max_instances }),
{
    LayerBounds::new(max_vertices, max_indices, max_instances)
}

/// Per-layer bookkeeping: a fixed `start` offset and a mutable
/// `floating_end` for each of the three backing stores, marking the live
/// sub-extent within the layer's fixed capacity window.
#[derive(Copy, Clone, Eq, PartialEq, Debug, Default)]
pub struct LayerRange {
    pub vertex_start: u16,
    pub vertex_floating_end: u16,
    pub index_start: u32,
    pub instance_start: u32,
    pub index_floating_end: u32,
    pub instance_floating_end: u32,
}

impl LayerRange {
    pub fn vertex_range(&self) -> (r: core::ops::Range<usize>)
        ensures
            r.start == self.vertex_start,
            r.end == self.vertex_floating_end,
    {
        self.vertex_start as usize..self.vertex_floating_end as usize
    }

    pub fn instance_range(&self) -> (r: core::ops::Range<usize>)
        ensures
            r.start == self.instance_start,
            r.end == self.instance_floating_end,
    {
        self.instance_start as usize..self.instance_floating_end as usize
    }

    pub fn index_range32(&self) -> (r: core::ops::Range<u32>)
        ensures
            r.start == self.index_start,
            r.end == self.index_floating_end,
    {
        self.index_start..self.index_floating_end
    }

    pub fn instance_range32(&self) -> (r: core::ops::Range<u32>)
        ensures
            r.start == self.instance_start,
            r.end == self.instance_floating_end,
    {
        self.instance_start..self.instance_floating_end
    }
}

/// Sum of `max_vertices` over `bounds[k..]`.
pub open spec fn vertex_sum_from(bounds: Seq<LayerBounds>, k: int) -> int
    decreases bounds.len() - k,
{
    if 0 <= k < bounds.len() {
        bounds[k].max_vertices + vertex_sum_from(bounds, k + 1)
    } else {
        0
    }
}

/// Sum of `max_indices` over `bounds[k..]`.
pub open spec fn index_sum_from(bounds: Seq<LayerBounds>, k: int) -> int
    decreases bounds.len() - k,
{
    if 0 <= k < bounds.len() {
        bounds[k].max_indices + index_sum_from(bounds, k + 1)
    } else {
        0
    }
}

/// Sum of `max_instances` over `bounds[k..]`.
pub open spec fn instance_sum_from(bounds: Seq<LayerBounds>, k: int) -> int
    decreases bounds.len() - k,
{
    if 0 <= k < bounds.len() {
        bounds[k].max_instances + instance_sum_from(bounds, k + 1)
    } else {
        0
    }
}

/// Suffix sums only grow when the suffix grows.
pub proof fn lemma_sums_monotone(bounds: Seq<LayerBounds>, j: int, k: int)
    requires
        0 <= j <= k,
    ensures
        vertex_sum_from(bounds, k) <= vertex_sum_from(bounds, j),
        index_sum_from(bounds, k) <= index_sum_from(bounds, j),
        instance_sum_from(bounds, k) <= instance_sum_from(bounds, j),
    decreases k - j,
{
    if j < k {
        lemma_sums_monotone(bounds, j + 1, k);
        lemma_sums_nonnegative(bounds, j + 1);
    }
}

/// A suffix sum is never negative.
pub proof fn lemma_sums_nonnegative(bounds: Seq<LayerBounds>, k: int)
    ensures
        vertex_sum_from(bounds, k) >= 0,
        index_sum_from(bounds, k) >= 0,
        instance_sum_from(bounds, k) >= 0,
    decreases bounds.len() - k,
{
    if 0 <= k < bounds.len() {
        lemma_sums_nonnegative(bounds, k + 1);
    }
}

/// `s` with `items` written over the window that starts at `at`.
pub open spec fn seq_splice<T>(s: Seq<T>, at: int, items: Seq<T>) -> Seq<T> {
    s.take(at) + items + s.skip(at + items.len())
}

/// `items` rebased from layer-local to global vertex numbering, with the
/// wrap-around of 16-bit addition.
pub open spec fn rebase_to_global(items: Seq<u16>, vertex_start: u16) -> Seq<u16> {
    Seq::new(items.len(), |i: int| items[i].wrapping_add(vertex_start))
}

/// The arena: owns the three flat backing stores and the per-chunk ranges.
/// `ranges` is indexed in physical storage order; the layer declared at
/// position `index` is backed by physical chunk `len - 1 - index`.
pub struct Layers {
    vertices: Vec<Vec2Bits>,
    indices: Vec<u16>,
    instances: Vec<Instance>,
    ranges: Vec<LayerRange>,
}

impl Layers {
    /// The vertex backing store, as a sequence.
    pub closed spec fn vertices_view(&self) -> Seq<Vec2Bits> {
        self.vertices@
    }

    /// The index backing store, as a sequence. Entries are stored pre-offset
    /// to global vertex positions.
    pub closed spec fn indices_view(&self) -> Seq<u16> {
        self.indices@
    }

    /// The instance backing store, as a sequence.
    pub closed spec fn instances_view(&self) -> Seq<Instance> {
        self.instances@
    }

    /// The per-chunk ranges, in physical storage order.
    pub closed spec fn ranges_view(&self) -> Seq<LayerRange> {
        self.ranges@
    }

    /// Number of layers.
    pub open spec fn layer_count(&self) -> int {
        self.ranges_view().len() as int
    }

    /// The physical chunk that backs the layer declared at `index`.
    pub open spec fn chunk_of(&self, index: int) -> int {
        self.layer_count() - 1 - index
    }

    /// End of physical chunk `k`'s window in the vertex store.
    pub open spec fn vertex_end(&self, k: int) -> int {
        if k + 1 == self.layer_count() {
            self.vertices_view().len() as int
        } else {
            self.ranges_view()[k + 1].vertex_start as int
        }
    }

    /// End of physical chunk `k`'s window in the index store.
    pub open spec fn index_end(&self, k: int) -> int {
        if k + 1 == self.layer_count() {
            self.indices_view().len() as int
        } else {
            self.ranges_view()[k + 1].index_start as int
        }
    }

    /// End of physical chunk `k`'s window in the instance store.
    pub open spec fn instance_end(&self, k: int) -> int {
        if k + 1 == self.layer_count() {
            self.instances_view().len() as int
        } else {
            self.ranges_view()[k + 1].instance_start as int
        }
    }

    /// `start <= floating_end <= start + capacity` for every dimension of
    /// physical chunk `k`.
    pub open spec fn chunk_wf(&self, k: int) -> bool {
        let r = self.ranges_view()[k];
        &&& r.vertex_start <= r.vertex_floating_end <= self.vertex_end(k)
        &&& r.index_start <= r.index_floating_end <= self.index_end(k)
        &&& r.instance_start <= r.instance_floating_end <= self.instance_end(k)
    }

    /// Well-formedness: chunk windows tile each backing store from offset 0,
    /// every floating end stays within its window, and store lengths fit the
    /// index types that address them.
    pub open spec fn wf(&self) -> bool {
        &&& forall|k: int| 0 <= k < self.layer_count() ==> #[trigger] self.chunk_wf(k)
        &&& self.layer_count() > 0 ==> {
            let r0 = self.ranges_view()[0];
            r0.vertex_start == 0 && r0.index_start == 0 && r0.instance_start == 0
        }
        &&& self.layer_count() == 0 ==> {
            self.vertices_view().len() == 0 && self.indices_view().len() == 0
                && self.instances_view().len() == 0
        }
        &&& self.vertices_view().len() <= 0xFFFF
        &&& self.indices_view().len() <= 0xFFFF_FFFF
        &&& self.instances_view().len() <= 0xFFFF_FFFF
    }

    pub fn len(&self) -> (n: usize)
        ensures
            n == self.layer_count(),
    {
        self.ranges.len()
    }

    pub fn is_empty(&self) -> (e: bool)
        ensures
            e == (self.layer_count() == 0),
    {
        self.ranges.len() == 0
    }

    /// Read physical chunk `k`'s range.
    pub fn range_at(&self, k: usize) -> (r: LayerRange)
        requires
            k < self.layer_count(),
        ensures
            r == self.ranges_view()[k as int],
    {
        self.ranges[k]
    }

    /// The whole vertex backing store, for a full-store upload.
    pub fn all_vertices(&self) -> (r: &Vec<Vec2Bits>)
        ensures
            r@ == self.vertices_view(),
    {
        &self.vertices
    }

    /// The whole index backing store, for a full-store upload.
    pub fn all_indices(&self) -> (r: &Vec<u16>)
        ensures
            r@ == self.indices_view(),
    {
        &self.indices
    }

    /// The whole instance backing store, for a full-store upload.
    pub fn all_instances(&self) -> (r: &Vec<Instance>)
        ensures
            r@ == self.instances_view(),
    {
        &self.instances
    }

    /// Builds an arena for the declared bounds: allocates each backing store
    /// to exactly the sum of the requested capacities, zero-initializes it,
    /// and computes the per-chunk ranges under the reverse packing rule.
    ///
    /// The sums must fit the integer types that address each store; vertex
    /// positions are addressed by 16-bit indices.
    pub fn new(bounds: &[LayerBounds]) -> (arena: Self)
        requires
            vertex_sum_from(bounds@, 0) <= 0xFFFF,
            index_sum_from(bounds@, 0) <= 0xFFFF_FFFF,
            instance_sum_from(bounds@, 0) <= 0xFFFF_FFFF,
        ensures
            arena.wf(),
            arena.layer_count() == bounds@.len(),
            arena.vertices_view().len() == vertex_sum_from(bounds@, 0),
            arena.indices_view().len() == index_sum_from(bounds@, 0),
            arena.instances_view().len() == instance_sum_from(bounds@, 0),
            forall|k: int| 0 <= k < bounds@.len() ==> {
                let r = #[trigger] arena.ranges_view()[k];
                &&& r.vertex_start == vertex_sum_from(bounds@, bounds@.len() - k)
                &&& r.index_start == index_sum_from(bounds@, bounds@.len() - k)
                &&& r.instance_start == instance_sum_from(bounds@, bounds@.len() - k)
                &&& r.vertex_floating_end == r.vertex_start
                &&& r.index_floating_end == r.index_start
                &&& r.instance_floating_end == r.instance_start
            },
            forall|j: int| 0 <= j < bounds@.len() ==> {
                let k = arena.chunk_of(j);
                let r = arena.ranges_view()[k];
                &&& arena.vertex_end(k) - r.vertex_start == #[trigger] bounds@[j].max_vertices
                &&& arena.index_end(k) - r.index_start == bounds@[j].max_indices
                &&& arena.instance_end(k) - r.instance_start == bounds@[j].max_instances
            },
            forall|i: int| 0 <= i < arena.vertices_view().len()
                ==> #[trigger] arena.vertices_view()[i] == (Vec2Bits { x: 0u32, y: 0u32 }),
            forall|i: int| 0 <= i < arena.indices_view().len()
                ==> #[trigger] arena.indices_view()[i] == 0u16,
            forall|i: int| 0 <= i < arena.instances_view().len()
                ==> #[trigger] arena.instances_view()[i] == Instance::spec_zero(),
    {
        let n = bounds.len();
        let mut ranges: Vec<LayerRange> = Vec::new();
        let mut vertex_start: u16 = 0;
        let mut index_start: u32 = 0;
        let mut instance_start: u32 = 0;
        proof {
            lemma_sums_monotone(bounds@, 0, n as int);
        }
        for i in 0..n
            invariant
                n == bounds@.len(),
                vertex_sum_from(bounds@, 0) <= 0xFFFF,
                index_sum_from(bounds@, 0) <= 0xFFFF_FFFF,
                instance_sum_from(bounds@, 0) <= 0xFFFF_FFFF,
                ranges@.len() == i,
                vertex_start == vertex_sum_from(bounds@, n - i),
                index_start == index_sum_from(bounds@, n - i),
                instance_start == instance_sum_from(bounds@, n - i),
                forall|k: int| 0 <= k < i ==> {
                    let r = #[trigger] ranges@[k];
                    &&& r.vertex_start == vertex_sum_from(bounds@, n - k)
                    &&& r.index_start == index_sum_from(bounds@, n - k)
                    &&& r.instance_start == instance_sum_from(bounds@, n - k)
                    &&& r.vertex_floating_end == r.vertex_start
                    &&& r.index_floating_end == r.index_start
                    &&& r.instance_floating_end == r.instance_start
                },
        {
            ranges.push(LayerRange {
                vertex_start,
                vertex_floating_end: vertex_start,
                index_start,
                instance_start,
                index_floating_end: index_start,
                instance_floating_end: instance_start,
            });
            let bound = bounds[n - i - 1];
            proof {
                lemma_sums_monotone(bounds@, 0, n - i - 1);
                lemma_sums_nonnegative(bounds@, n - i - 1);
            }
            vertex_start = vertex_start + bound.max_vertices;
            index_start = index_start + bound.max_indices;
            instance_start = instance_start + bound.max_instances;
        }
        let vertices = fill_vertices(vertex_start as usize);
        let indices = fill_indices(index_start as usize);
        let instances = fill_instances(instance_start as usize);
        let arena = Self { vertices, indices, instances, ranges };
        proof {
            assert forall|k: int| 0 <= k < arena.layer_count() implies #[trigger] arena.chunk_wf(
                k,
            ) by {
                lemma_sums_monotone(bounds@, n - k - 1, n - k);
                lemma_sums_nonnegative(bounds@, n - k);
            }
        }
        arena
    }
}

impl Layers {
    /// Every chunk window lies inside its backing store.
    pub proof fn lemma_window_bounds(&self, k: int)
        requires
            self.wf(),
            0 <= k < self.layer_count(),
        ensures
            self.vertex_end(k) <= self.vertices_view().len(),
            self.index_end(k) <= self.indices_view().len(),
            self.instance_end(k) <= self.instances_view().len(),
        decreases self.layer_count() - k,
    {
        if k + 1 < self.layer_count() {
            self.lemma_window_bounds(k + 1);
            assert(self.chunk_wf(k + 1));
        }
    }

    /// Empties the live vertex range of the layer declared at `index`; the
    /// capacity window and the backing bytes are untouched.
    pub fn clear_vertices(&mut self, index: usize)
        requires
            old(self).wf(),
            index < old(self).layer_count(),
        ensures
            final(self).wf(),
            ({
                let k = old(self).chunk_of(index as int);
                let r = old(self).ranges_view()[k];
                final(self).ranges_view() == old(self).ranges_view().update(
                    k,
                    (LayerRange { vertex_floating_end: r.vertex_start, ..r }),
                )
            }),
            final(self).vertices_view() == old(self).vertices_view(),
            final(self).indices_view() == old(self).indices_view(),
            final(self).instances_view() == old(self).instances_view(),
    {
        let k = self.ranges.len() - 1 - index;
        let mut r = self.ranges[k];
        r.vertex_floating_end = r.vertex_start;
        self.ranges[k] = r;
        proof {
            assert(old(self).chunk_wf(k as int));
            assert forall|j: int| 0 <= j < self.layer_count() implies #[trigger] self.chunk_wf(j) by {
                assert(old(self).chunk_wf(j));
            }
        }
    }

    /// Empties the live index range of the layer declared at `index`.
    pub fn clear_indices(&mut self, index: usize)
        requires
            old(self).wf(),
            index < old(self).layer_count(),
        ensures
            final(self).wf(),
            ({
                let k = old(self).chunk_of(index as int);
                let r = old(self).ranges_view()[k];
                final(self).ranges_view() == old(self).ranges_view().update(
                    k,
                    (LayerRange { index_floating_end: r.index_start, ..r }),
                )
            }),
            final(self).vertices_view() == old(self).vertices_view(),
            final(self).indices_view() == old(self).indices_view(),
            final(self).instances_view() == old(self).instances_view(),
    {
        let k = self.ranges.len() - 1 - index;
        let mut r = self.ranges[k];
        r.index_floating_end = r.index_start;
        self.ranges[k] = r;
        proof {
            assert(old(self).chunk_wf(k as int));
            assert forall|j: int| 0 <= j < self.layer_count() implies #[trigger] self.chunk_wf(j) by {
                assert(old(self).chunk_wf(j));
            }
        }
    }

    /// Empties the live instance range of the layer declared at `index`.
    pub fn clear_instances(&mut self, index: usize)
        requires
            old(self).wf(),
            index < old(self).layer_count(),
        ensures
            final(self).wf(),
            ({
                let k = old(self).chunk_of(index as int);
                let r = old(self).ranges_view()[k];
                final(self).ranges_view() == old(self).ranges_view().update(
                    k,
                    (LayerRange { instance_floating_end: r.instance_start, ..r }),
                )
            }),
            final(self).vertices_view() == old(self).vertices_view(),
            final(self).indices_view() == old(self).indices_view(),
            final(self).instances_view() == old(self).instances_view(),
    {
        let k = self.ranges.len() - 1 - index;
        let mut r = self.ranges[k];
        r.instance_floating_end = r.instance_start;
        self.ranges[k] = r;
        proof {
            assert(old(self).chunk_wf(k as int));
            assert forall|j: int| 0 <= j < self.layer_count() implies #[trigger] self.chunk_wf(j) by {
                assert(old(self).chunk_wf(j));
            }
        }
    }
    /// Moves the vertex floating end of the layer declared at `index` to
    /// `start + len`, but only when that position reaches the capacity
    /// ceiling; a smaller `len` leaves the live range unchanged. The guard
    /// direction is deliberate and callers rely on the no-op case.
    pub fn truncate_vertices(&mut self, index: usize, len: usize)
        requires
            old(self).wf(),
            index < old(self).layer_count(),
            ({
                let k = old(self).chunk_of(index as int);
                old(self).ranges_view()[k].vertex_start + len <= old(self).vertex_end(k)
            }),
        ensures
            final(self).wf(),
            ({
                let k = old(self).chunk_of(index as int);
                let r = old(self).ranges_view()[k];
                let offset = r.vertex_start + len;
                if offset < old(self).vertex_end(k) {
                    final(self).ranges_view() == old(self).ranges_view()
                } else {
                    final(self).ranges_view() == old(self).ranges_view().update(
                        k,
                        (LayerRange { vertex_floating_end: offset as u16, ..r }),
                    )
                }
            }),
            final(self).vertices_view() == old(self).vertices_view(),
            final(self).indices_view() == old(self).indices_view(),
            final(self).instances_view() == old(self).instances_view(),
    {
        let k = self.ranges.len() - 1 - index;
        proof {
            assert(old(self).chunk_wf(k as int));
            self.lemma_window_bounds(k as int);
        }
        let end: u16 = if k + 1 == self.ranges.len() {
            self.vertices.len() as u16
        } else {
            self.ranges[k + 1].vertex_start
        };
        let mut r = self.ranges[k];
        let offset: u16 = r.vertex_start + len as u16;
        if offset < end {
            return;
        }
        r.vertex_floating_end = offset;
        self.ranges[k] = r;
        proof {
            assert forall|j: int| 0 <= j < self.layer_count() implies #[trigger] self.chunk_wf(j) by {
                assert(old(self).chunk_wf(j));
            }
        }
    }

    /// Moves the index floating end of the layer declared at `index` to
    /// `start + len`, but only when that position reaches the capacity
    /// ceiling; a smaller `len` leaves the live range unchanged.
    pub fn truncate_indices(&mut self, index: usize, len: usize)
        requires
            old(self).wf(),
            index < old(self).layer_count(),
            ({
                let k = old(self).chunk_of(index as int);
                old(self).ranges_view()[k].index_start + len <= old(self).index_end(k)
            }),
        ensures
            final(self).wf(),
            ({
                let k = old(self).chunk_of(index as int);
                let r = old(self).ranges_view()[k];
                let offset = r.index_start + len;
                if offset < old(self).index_end(k) {
                    final(self).ranges_view() == old(self).ranges_view()
                } else {
                    final(self).ranges_view() == old(self).ranges_view().update(
                        k,
                        (LayerRange { index_floating_end: offset as u32, ..r }),
                    )
                }
            }),
            final(self).vertices_view() == old(self).vertices_view(),
            final(self).indices_view() == old(self).indices_view(),
            final(self).instances_view() == old(self).instances_view(),
    {
        let k = self.ranges.len() - 1 - index;
        proof {
            assert(old(self).chunk_wf(k as int));
            self.lemma_window_bounds(k as int);
        }
        let end: u32 = if k + 1 == self.ranges.len() {
            self.indices.len() as u32
        } else {
            self.ranges[k + 1].index_start
        };
        let mut r = self.ranges[k];
        let offset: u32 = r.index_start + len as u32;
        if offset < end {
            return;
        }
        r.index_floating_end = offset;
        self.ranges[k] = r;
        proof {
            assert forall|j: int| 0 <= j < self.layer_count() implies #[trigger] self.chunk_wf(j) by {
                assert(old(self).chunk_wf(j));
            }
        }
    }

    /// Moves the instance floating end of the layer declared at `index` to
    /// `start + len`, but only when that position reaches the capacity
    /// ceiling; a smaller `len` leaves the live range unchanged.
    pub fn truncate_instances(&mut self, index: usize, len: usize)
        requires
            old(self).wf(),
            index < old(self).layer_count(),
            ({
                let k = old(self).chunk_of(index as int);
                old(self).ranges_view()[k].instance_start + len <= old(self).instance_end(k)
            }),
        ensures
            final(self).wf(),
            ({
                let k = old(self).chunk_of(index as int);
                let r = old(self).ranges_view()[k];
                let offset = r.instance_start + len;
                if offset < old(self).instance_end(k) {
                    final(self).ranges_view() == old(self).ranges_view()
                } else {
                    final(self).ranges_view() == old(self).ranges_view().update(
                        k,
                        (LayerRange { instance_floating_end: offset as u32, ..r }),
                    )
                }
            }),
            final(self).vertices_view() == old(self).vertices_view(),
            final(self).indices_view() == old(self).indices_view(),
            final(self).instances_view() == old(self).instances_view(),
    {
        let k = self.ranges.len() - 1 - index;
        proof {
            assert(old(self).chunk_wf(k as int));
            self.lemma_window_bounds(k as int);
        }
        let end: u32 = if k + 1 == self.ranges.len() {
            self.instances.len() as u32
        } else {
            self.ranges[k + 1].instance_start
        };
        let mut r = self.ranges[k];
        let offset: u32 = r.instance_start + len as u32;
        if offset < end {
            return;
        }
        r.instance_floating_end = offset;
        self.ranges[k] = r;
        proof {
            assert forall|j: int| 0 <= j < self.layer_count() implies #[trigger] self.chunk_wf(j) by {
                assert(old(self).chunk_wf(j));
            }
        }
    }
    /// Appends vertices one at a time into the unused capacity window of the
    /// layer declared at `index`, silently dropping whatever does not fit:
    /// the arena never grows, so overflow is a truncation, not a failure.
    pub fn extend_vertices(&mut self, index: usize, items: &Vec<Vec2Bits>)
        requires
            old(self).wf(),
            index < old(self).layer_count(),
        ensures
            final(self).wf(),
            ({
                let k = old(self).chunk_of(index as int);
                let r = old(self).ranges_view()[k];
                let n = vstd::math::min(
                    items@.len() as int,
                    old(self).vertex_end(k) - r.vertex_floating_end,
                );
                &&& final(self).vertices_view() == seq_splice(
                    old(self).vertices_view(),
                    r.vertex_floating_end as int,
                    items@.take(n),
                )
                &&& final(self).ranges_view() == old(self).ranges_view().update(
                    k,
                    (LayerRange { vertex_floating_end: (r.vertex_floating_end + n) as u16, ..r }),
                )
            }),
            final(self).indices_view() == old(self).indices_view(),
            final(self).instances_view() == old(self).instances_view(),
    {
        let k = self.ranges.len() - 1 - index;
        proof {
            assert(old(self).chunk_wf(k as int));
            self.lemma_window_bounds(k as int);
        }
        let end: u16 = if k + 1 == self.ranges.len() {
            self.vertices.len() as u16
        } else {
            self.ranges[k + 1].vertex_start
        };
        let mut r = self.ranges[k];
        let fe0: u16 = r.vertex_floating_end;
        let mut fe: u16 = fe0;
        let mut j: usize = 0;
        while j < items.len() && fe < end
            invariant
                old(self).wf(),
                0 <= k < old(self).layer_count(),
                k == old(self).layer_count() - 1 - index,
                r == old(self).ranges_view()[k as int],
                fe0 == r.vertex_floating_end,
                end == old(self).vertex_end(k as int),
                end <= old(self).vertices_view().len(),
                fe0 <= fe <= end,
                j <= items@.len(),
                fe == fe0 + j,
                self.ranges_view() == old(self).ranges_view(),
                self.indices_view() == old(self).indices_view(),
                self.instances_view() == old(self).instances_view(),
                self.vertices_view().len() == old(self).vertices_view().len(),
                forall|i: int| 0 <= i < fe0
                    ==> #[trigger] self.vertices_view()[i] == old(self).vertices_view()[i],
                forall|i: int| fe0 + j <= i < self.vertices_view().len()
                    ==> #[trigger] self.vertices_view()[i] == old(self).vertices_view()[i],
                forall|i: int| 0 <= i < j
                    ==> #[trigger] self.vertices_view()[fe0 + i] == items@[i],
            decreases items@.len() - j,
        {
            self.vertices[fe as usize] = items[j];
            fe = fe + 1;
            j = j + 1;
        }
        r.vertex_floating_end = fe;
        self.ranges[k] = r;
        proof {
            let ghost n = vstd::math::min(
                items@.len() as int,
                old(self).vertex_end(k as int) - fe0,
            );
            assert(j == n);
            let ghost target = seq_splice(old(self).vertices_view(), fe0 as int, items@.take(n));
            assert forall|i: int| 0 <= i < self.vertices_view().len() implies self.vertices_view()[i]
                == target[i] by {
                if fe0 <= i < fe0 + n {
                    assert(self.vertices_view()[fe0 + (i - fe0)] == items@[i - fe0]);
                } else {
                    assert(self.vertices_view()[i] == old(self).vertices_view()[i]);
                }
            }
            assert(self.vertices_view() =~= target);
            assert(self.ranges_view() =~= old(self).ranges_view().update(
                k as int,
                (LayerRange { vertex_floating_end: (fe0 + n) as u16, ..old(self).ranges_view()[k as int] }),
            ));
            assert forall|p: int| 0 <= p < self.layer_count() implies #[trigger] self.chunk_wf(p) by {
                assert(old(self).chunk_wf(p));
            }
        }
    }

    /// Appends indices one at a time into the unused capacity window of the
    /// layer declared at `index`, rebasing each layer-local value to its
    /// global vertex position and silently dropping whatever does not fit.
    pub fn extend_indices(&mut self, index: usize, items: &Vec<u16>)
        requires
            old(self).wf(),
            index < old(self).layer_count(),
        ensures
            final(self).wf(),
            ({
                let k = old(self).chunk_of(index as int);
                let r = old(self).ranges_view()[k];
                let n = vstd::math::min(
                    items@.len() as int,
                    old(self).index_end(k) - r.index_floating_end,
                );
                &&& final(self).indices_view() == seq_splice(
                    old(self).indices_view(),
                    r.index_floating_end as int,
                    rebase_to_global(items@.take(n), r.vertex_start),
                )
                &&& final(self).ranges_view() == old(self).ranges_view().update(
                    k,
                    (LayerRange { index_floating_end: (r.index_floating_end + n) as u32, ..r }),
                )
            }),
            final(self).vertices_view() == old(self).vertices_view(),
            final(self).instances_view() == old(self).instances_view(),
    {
        let k = self.ranges.len() - 1 - index;
        proof {
            assert(old(self).chunk_wf(k as int));
            self.lemma_window_bounds(k as int);
        }
        let end: u32 = if k + 1 == self.ranges.len() {
            self.indices.len() as u32
        } else {
            self.ranges[k + 1].index_start
        };
        let mut r = self.ranges[k];
        let fe0: u32 = r.index_floating_end;
        let mut fe: u32 = fe0;
        let mut j: usize = 0;
        while j < items.len() && fe < end
            invariant
                old(self).wf(),
                0 <= k < old(self).layer_count(),
                k == old(self).layer_count() - 1 - index,
                r == old(self).ranges_view()[k as int],
                fe0 == r.index_floating_end,
                end == old(self).index_end(k as int),
                end <= old(self).indices_view().len(),
                fe0 <= fe <= end,
                j <= items@.len(),
                fe == fe0 + j,
                self.ranges_view() == old(self).ranges_view(),
                self.vertices_view() == old(self).vertices_view(),
                self.instances_view() == old(self).instances_view(),
                self.indices_view().len() == old(self).indices_view().len(),
                forall|i: int| 0 <= i < fe0
                    ==> #[trigger] self.indices_view()[i] == old(self).indices_view()[i],
                forall|i: int| fe0 + j <= i < self.indices_view().len()
                    ==> #[trigger] self.indices_view()[i] == old(self).indices_view()[i],
                forall|i: int| 0 <= i < j
                    ==> #[trigger] self.indices_view()[fe0 + i]
                        == items@[i].wrapping_add(r.vertex_start),
            decreases items@.len() - j,
        {
            self.indices[fe as usize] = items[j].wrapping_add(r.vertex_start);
            fe = fe + 1;
            j = j + 1;
        }
        r.index_floating_end = fe;
        self.ranges[k] = r;
        proof {
            let ghost n = vstd::math::min(
                items@.len() as int,
                old(self).index_end(k as int) - fe0,
            );
            assert(j == n);
            let ghost target = seq_splice(
                old(self).indices_view(),
                fe0 as int,
                rebase_to_global(items@.take(n), r.vertex_start),
            );
            assert forall|i: int| 0 <= i < self.indices_view().len() implies self.indices_view()[i]
                == target[i] by {
                if fe0 <= i < fe0 + n {
                    assert(self.indices_view()[fe0 + (i - fe0)]
                        == items@[i - fe0].wrapping_add(r.vertex_start));
                } else {
                    assert(self.indices_view()[i] == old(self).indices_view()[i]);
                }
            }
            assert(self.indices_view() =~= target);
            assert(self.ranges_view() =~= old(self).ranges_view().update(
                k as int,
                (LayerRange { index_floating_end: (fe0 + n) as u32, ..old(self).ranges_view()[k as int] }),
            ));
            assert forall|p: int| 0 <= p < self.layer_count() implies #[trigger] self.chunk_wf(p) by {
                assert(old(self).chunk_wf(p));
            }
        }
    }

    /// Appends instances one at a time into the unused capacity window of
    /// the layer declared at `index`, silently dropping whatever does not
    /// fit.
    pub fn extend_instances(&mut self, index: usize, items: &Vec<Instance>)
        requires
            old(self).wf(),
            index < old(self).layer_count(),
        ensures
            final(self).wf(),
            ({
                let k = old(self).chunk_of(index as int);
                let r = old(self).ranges_view()[k];
                let n = vstd::math::min(
                    items@.len() as int,
                    old(self).instance_end(k) - r.instance_floating_end,
                );
                &&& final(self).instances_view() == seq_splice(
                    old(self).instances_view(),
                    r.instance_floating_end as int,
                    items@.take(n),
                )
                &&& final(self).ranges_view() == old(self).ranges_view().update(
                    k,
                    (LayerRange { instance_floating_end: (r.instance_floating_end + n) as u32, ..r }),
                )
            }),
            final(self).vertices_view() == old(self).vertices_view(),
            final(self).indices_view() == old(self).indices_view(),
    {
        let k = self.ranges.len() - 1 - index;
        proof {
            assert(old(self).chunk_wf(k as int));
            self.lemma_window_bounds(k as int);
        }
        let end: u32 = if k + 1 == self.ranges.len() {
            self.instances.len() as u32
        } else {
            self.ranges[k + 1].instance_start
        };
        let mut r = self.ranges[k];
        let fe0: u32 = r.instance_floating_end;
        let mut fe: u32 = fe0;
        let mut j: usize = 0;
        while j < items.len() && fe < end
            invariant
                old(self).wf(),
                0 <= k < old(self).layer_count(),
                k == old(self).layer_count() - 1 - index,
                r == old(self).ranges_view()[k as int],
                fe0 == r.instance_floating_end,
                end == old(self).instance_end(k as int),
                end <= old(self).instances_view().len(),
                fe0 <= fe <= end,
                j <= items@.len(),
                fe == fe0 + j,
                self.ranges_view() == old(self).ranges_view(),
                self.vertices_view() == old(self).vertices_view(),
                self.indices_view() == old(self).indices_view(),
                self.instances_view().len() == old(self).instances_view().len(),
                forall|i: int| 0 <= i < fe0
                    ==> #[trigger] self.instances_view()[i] == old(self).instances_view()[i],
                forall|i: int| fe0 + j <= i < self.instances_view().len()
                    ==> #[trigger] self.instances_view()[i] == old(self).instances_view()[i],
                forall|i: int| 0 <= i < j
                    ==> #[trigger] self.instances_view()[fe0 + i] == items@[i],
            decreases items@.len() - j,
        {
            self.instances[fe as usize] = items[j];
            fe = fe + 1;
            j = j + 1;
        }
        r.instance_floating_end = fe;
        self.ranges[k] = r;
        proof {
            let ghost n = vstd::math::min(
                items@.len() as int,
                old(self).instance_end(k as int) - fe0,
            );
            assert(j == n);
            let ghost target = seq_splice(old(self).instances_view(), fe0 as int, items@.take(n));
            assert forall|i: int| 0 <= i < self.instances_view().len() implies self
                .instances_view()[i] == target[i] by {
                if fe0 <= i < fe0 + n {
                    assert(self.instances_view()[fe0 + (i - fe0)] == items@[i - fe0]);
                } else {
                    assert(self.instances_view()[i] == old(self).instances_view()[i]);
                }
            }
            assert(self.instances_view() =~= target);
            assert(self.ranges_view() =~= old(self).ranges_view().update(
                k as int,
                (LayerRange { instance_floating_end: (fe0 + n) as u32, ..old(self).ranges_view()[k as int] }),
            ));
            assert forall|p: int| 0 <= p < self.layer_count() implies #[trigger] self.chunk_wf(p) by {
                assert(old(self).chunk_wf(p));
            }
        }
    }
    /// Replaces the live vertices of the layer declared at `index`: empties
    /// the live range, then appends, silently truncating on overflow.
    pub fn set_vertices(&mut self, index: usize, items: &Vec<Vec2Bits>)
        requires
            old(self).wf(),
            index < old(self).layer_count(),
        ensures
            final(self).wf(),
            ({
                let k = old(self).chunk_of(index as int);
                let r = old(self).ranges_view()[k];
                let n = vstd::math::min(
                    items@.len() as int,
                    old(self).vertex_end(k) - r.vertex_start,
                );
                &&& final(self).vertices_view() == seq_splice(
                    old(self).vertices_view(),
                    r.vertex_start as int,
                    items@.take(n),
                )
                &&& final(self).ranges_view() == old(self).ranges_view().update(
                    k,
                    (LayerRange { vertex_floating_end: (r.vertex_start + n) as u16, ..r }),
                )
            }),
            final(self).indices_view() == old(self).indices_view(),
            final(self).instances_view() == old(self).instances_view(),
    {
        self.clear_vertices(index);
        self.extend_vertices(index, items);
        proof {
            let k = old(self).chunk_of(index as int);
            let r = old(self).ranges_view()[k];
            let n = vstd::math::min(
                items@.len() as int,
                old(self).vertex_end(k) - r.vertex_start,
            );
            assert(self.ranges_view() =~= old(self).ranges_view().update(
                k,
                (LayerRange { vertex_floating_end: (r.vertex_start + n) as u16, ..r }),
            ));
        }
    }

    /// Replaces the live indices of the layer declared at `index`: empties
    /// the live range, then appends rebased values, silently truncating on
    /// overflow.
    pub fn set_indices(&mut self, index: usize, items: &Vec<u16>)
        requires
            old(self).wf(),
            index < old(self).layer_count(),
        ensures
            final(self).wf(),
            ({
                let k = old(self).chunk_of(index as int);
                let r = old(self).ranges_view()[k];
                let n = vstd::math::min(
                    items@.len() as int,
                    old(self).index_end(k) - r.index_start,
                );
                &&& final(self).indices_view() == seq_splice(
                    old(self).indices_view(),
                    r.index_start as int,
                    rebase_to_global(items@.take(n), r.vertex_start),
                )
                &&& final(self).ranges_view() == old(self).ranges_view().update(
                    k,
                    (LayerRange { index_floating_end: (r.index_start + n) as u32, ..r }),
                )
            }),
            final(self).vertices_view() == old(self).vertices_view(),
            final(self).instances_view() == old(self).instances_view(),
    {
        self.clear_indices(index);
        self.extend_indices(index, items);
        proof {
            let k = old(self).chunk_of(index as int);
            let r = old(self).ranges_view()[k];
            let n = vstd::math::min(
                items@.len() as int,
                old(self).index_end(k) - r.index_start,
            );
            assert(self.ranges_view() =~= old(self).ranges_view().update(
                k,
                (LayerRange { index_floating_end: (r.index_start + n) as u32, ..r }),
            ));
        }
    }

    /// Replaces the live instances of the layer declared at `index`: empties
    /// the live range, then appends, silently truncating on overflow.
    pub fn set_instances(&mut self, index: usize, items: &Vec<Instance>)
        requires
            old(self).wf(),
            index < old(self).layer_count(),
        ensures
            final(self).wf(),
            ({
                let k = old(self).chunk_of(index as int);
                let r = old(self).ranges_view()[k];
                let n = vstd::math::min(
                    items@.len() as int,
                    old(self).instance_end(k) - r.instance_start,
                );
                &&& final(self).instances_view() == seq_splice(
                    old(self).instances_view(),
                    r.instance_start as int,
                    items@.take(n),
                )
                &&& final(self).ranges_view() == old(self).ranges_view().update(
                    k,
                    (LayerRange { instance_floating_end: (r.instance_start + n) as u32, ..r }),
                )
            }),
            final(self).vertices_view() == old(self).vertices_view(),
            final(self).indices_view() == old(self).indices_view(),
    {
        self.clear_instances(index);
        self.extend_instances(index, items);
        proof {
            let k = old(self).chunk_of(index as int);
            let r = old(self).ranges_view()[k];
            let n = vstd::math::min(
                items@.len() as int,
                old(self).instance_end(k) - r.instance_start,
            );
            assert(self.ranges_view() =~= old(self).ranges_view().update(
                k,
                (LayerRange { instance_floating_end: (r.instance_start + n) as u32, ..r }),
            ));
        }
    }

    /// Writes a layer-local index value at absolute position `at` of the
    /// global index store, rebased to the layer's global vertex numbering.
    /// Returns whether `at` was in bounds. Callers are expected to address
    /// only positions already reserved through `extend_indices` or
    /// `set_indices`.
    pub fn set_index(&mut self, index: usize, at: usize, value: u16) -> (ok: bool)
        requires
            old(self).wf(),
            index < old(self).layer_count(),
        ensures
            final(self).wf(),
            final(self).ranges_view() == old(self).ranges_view(),
            final(self).vertices_view() == old(self).vertices_view(),
            final(self).instances_view() == old(self).instances_view(),
            ({
                let r = old(self).ranges_view()[old(self).chunk_of(index as int)];
                if at < old(self).indices_view().len() {
                    &&& ok
                    &&& final(self).indices_view() == old(self).indices_view().update(
                        at as int,
                        value.wrapping_add(r.vertex_start),
                    )
                } else {
                    &&& !ok
                    &&& final(self).indices_view() == old(self).indices_view()
                }
            }),
    {
        let k = self.ranges.len() - 1 - index;
        let r = self.ranges[k];
        let ok = if at < self.indices.len() {
            self.indices[at] = value.wrapping_add(r.vertex_start);
            true
        } else {
            false
        };
        proof {
            assert forall|p: int| 0 <= p < self.layer_count() implies #[trigger] self.chunk_wf(p) by {
                assert(old(self).chunk_wf(p));
            }
        }
        ok
    }

    /// Overwrites the live vertex at sub-position `at` of the layer declared
    /// at `index`; returns whether `at` was inside the live range.
    pub fn set_vertex(&mut self, index: usize, at: usize, value: Vec2Bits) -> (ok: bool)
        requires
            old(self).wf(),
            index < old(self).layer_count(),
        ensures
            final(self).wf(),
            final(self).ranges_view() == old(self).ranges_view(),
            final(self).indices_view() == old(self).indices_view(),
            final(self).instances_view() == old(self).instances_view(),
            ({
                let r = old(self).ranges_view()[old(self).chunk_of(index as int)];
                if at < r.vertex_floating_end - r.vertex_start {
                    &&& ok
                    &&& final(self).vertices_view() == old(self).vertices_view().update(
                        r.vertex_start + at,
                        value,
                    )
                } else {
                    &&& !ok
                    &&& final(self).vertices_view() == old(self).vertices_view()
                }
            }),
    {
        let k = self.ranges.len() - 1 - index;
        proof {
            assert(old(self).chunk_wf(k as int));
            self.lemma_window_bounds(k as int);
        }
        let r = self.ranges[k];
        let live: usize = (r.vertex_floating_end - r.vertex_start) as usize;
        let ok = if at < live {
            self.vertices[r.vertex_start as usize + at] = value;
            true
        } else {
            false
        };
        proof {
            assert forall|p: int| 0 <= p < self.layer_count() implies #[trigger] self.chunk_wf(p) by {
                assert(old(self).chunk_wf(p));
            }
        }
        ok
    }

    /// Overwrites the live instance at sub-position `at` of the layer
    /// declared at `index`; returns whether `at` was inside the live range.
    pub fn set_instance(&mut self, index: usize, at: usize, value: Instance) -> (ok: bool)
        requires
            old(self).wf(),
            index < old(self).layer_count(),
        ensures
            final(self).wf(),
            final(self).ranges_view() == old(self).ranges_view(),
            final(self).vertices_view() == old(self).vertices_view(),
            final(self).indices_view() == old(self).indices_view(),
            ({
                let r = old(self).ranges_view()[old(self).chunk_of(index as int)];
                if at < r.instance_floating_end - r.instance_start {
                    &&& ok
                    &&& final(self).instances_view() == old(self).instances_view().update(
                        r.instance_start + at,
                        value,
                    )
                } else {
                    &&& !ok
                    &&& final(self).instances_view() == old(self).instances_view()
                }
            }),
    {
        let k = self.ranges.len() - 1 - index;
        proof {
            assert(old(self).chunk_wf(k as int));
            self.lemma_window_bounds(k as int);
        }
        let r = self.ranges[k];
        let live: usize = (r.instance_floating_end - r.instance_start) as usize;
        let ok = if at < live {
            self.instances[r.instance_start as usize + at] = value;
            true
        } else {
            false
        };
        proof {
            assert forall|p: int| 0 <= p < self.layer_count() implies #[trigger] self.chunk_wf(p) by {
                assert(old(self).chunk_wf(p));
            }
        }
        ok
    }

    /// Returns a read-only snapshot of the layer declared at `index`, or
    /// `None` when `index` is out of range.
    pub fn get(&self, index: usize) -> (l: Option<Layer>)
        requires
            self.wf(),
        ensures
            match l {
                Some(l) => {
                    let k = self.chunk_of(index as int);
                    let r = self.ranges_view()[k];
                    &&& index < self.layer_count()
                    &&& l.vertices_view() == self.vertices_view().subrange(
                        r.vertex_start as int,
                        r.vertex_floating_end as int,
                    )
                    &&& l.indices_view() == self.indices_view().subrange(
                        r.index_start as int,
                        r.index_floating_end as int,
                    )
                    &&& l.instances_view() == self.instances_view().subrange(
                        r.instance_start as int,
                        r.instance_floating_end as int,
                    )
                    &&& l.spec_vertex_start() == r.vertex_start
                    &&& l.spec_max_vertices_len() == self.vertex_end(k) - r.vertex_start
                    &&& l.spec_max_indices_len() == self.index_end(k) - r.index_start
                    &&& l.spec_max_instances_len() == self.instance_end(k) - r.instance_start
                },
                None => index >= self.layer_count(),
            },
    {
        if index >= self.ranges.len() {
            return None;
        }
        let k = self.ranges.len() - 1 - index;
        proof {
            assert(self.chunk_wf(k as int));
            self.lemma_window_bounds(k as int);
        }
        let r = self.ranges[k];
        let (vertex_end, index_end, instance_end) = if k + 1 == self.ranges.len() {
            (self.vertices.len(), self.indices.len(), self.instances.len())
        } else {
            let next = self.ranges[k + 1];
            (next.vertex_start as usize, next.index_start as usize, next.instance_start as usize)
        };
        Some(Layer {
            vertices: copy_range(&self.vertices, r.vertex_start as usize, r.vertex_floating_end as usize),
            indices: copy_range(&self.indices, r.index_start as usize, r.index_floating_end as usize),
            instances: copy_range(
                &self.instances,
                r.instance_start as usize,
                r.instance_floating_end as usize,
            ),
            vertex_start: r.vertex_start,
            max_vertices_len: vertex_end - r.vertex_start as usize,
            max_indices_len: index_end - r.index_start as usize,
            max_instances_len: instance_end - r.instance_start as usize,
        })
    }
}

/// A read-only snapshot of one layer: the live contents of its three
/// windows, the layer's global vertex offset, and its capacity ceilings.
pub struct Layer {
    vertices: Vec<Vec2Bits>,
    indices: Vec<u16>,
    instances: Vec<Instance>,
    vertex_start: u16,
    max_vertices_len: usize,
    max_indices_len: usize,
    max_instances_len: usize,
}

impl Layer {
    /// The live vertices.
    pub closed spec fn vertices_view(&self) -> Seq<Vec2Bits> {
        self.vertices@
    }

    /// The live indices, in global (rebased) numbering.
    pub closed spec fn indices_view(&self) -> Seq<u16> {
        self.indices@
    }

    /// The live instances.
    pub closed spec fn instances_view(&self) -> Seq<Instance> {
        self.instances@
    }

    /// The layer's global vertex offset.
    pub closed spec fn spec_vertex_start(&self) -> u16 {
        self.vertex_start
    }

    pub closed spec fn spec_max_vertices_len(&self) -> usize {
        self.max_vertices_len
    }

    pub closed spec fn spec_max_indices_len(&self) -> usize {
        self.max_indices_len
    }

    pub closed spec fn spec_max_instances_len(&self) -> usize {
        self.max_instances_len
    }

    pub fn vertices_len(&self) -> (n: usize)
        ensures
            n == self.vertices_view().len(),
    {
        self.vertices.len()
    }

    pub fn indices_len(&self) -> (n: usize)
        ensures
            n == self.indices_view().len(),
    {
        self.indices.len()
    }

    pub fn instances_len(&self) -> (n: usize)
        ensures
            n == self.instances_view().len(),
    {
        self.instances.len()
    }

    pub fn max_vertices_len(&self) -> (n: usize)
        ensures
            n == self.spec_max_vertices_len(),
    {
        self.max_vertices_len
    }

    pub fn max_indices_len(&self) -> (n: usize)
        ensures
            n == self.spec_max_indices_len(),
    {
        self.max_indices_len
    }

    pub fn max_instances_len(&self) -> (n: usize)
        ensures
            n == self.spec_max_instances_len(),
    {
        self.max_instances_len
    }

    pub fn vertices(&self) -> (r: &Vec<Vec2Bits>)
        ensures
            r@ == self.vertices_view(),
    {
        &self.vertices
    }

    pub fn instances(&self) -> (r: &Vec<Instance>)
        ensures
            r@ == self.instances_view(),
    {
        &self.instances
    }

    /// The index at live sub-position `at`, converted back from global to
    /// layer-local numbering; `None` outside the live index range.
    pub fn get_index(&self, at: usize) -> (r: Option<u16>)
        ensures
            r == if at < self.indices_view().len() {
                Some(self.indices_view()[at as int].wrapping_sub(self.spec_vertex_start()))
            } else {
                None::<u16>
            },
    {
        if at < self.indices.len() {
            Some(self.indices[at].wrapping_sub(self.vertex_start))
        } else {
            None
        }
    }
}

impl Layers {
    /// Sum of the vertex-window capacities of physical chunks `k..`.
    pub open spec fn vertex_window_sum(&self, k: int) -> int
        decreases self.layer_count() - k,
    {
        if 0 <= k < self.layer_count() {
            (self.vertex_end(k) - self.ranges_view()[k].vertex_start) + self.vertex_window_sum(
                k + 1,
            )
        } else {
            0
        }
    }

    /// Sum of the index-window capacities of physical chunks `k..`.
    pub open spec fn index_window_sum(&self, k: int) -> int
        decreases self.layer_count() - k,
    {
        if 0 <= k < self.layer_count() {
            (self.index_end(k) - self.ranges_view()[k].index_start) + self.index_window_sum(k + 1)
        } else {
            0
        }
    }

    /// Sum of the instance-window capacities of physical chunks `k..`.
    pub open spec fn instance_window_sum(&self, k: int) -> int
        decreases self.layer_count() - k,
    {
        if 0 <= k < self.layer_count() {
            (self.instance_end(k) - self.ranges_view()[k].instance_start)
                + self.instance_window_sum(k + 1)
        } else {
            0
        }
    }

    proof fn lemma_partition_from(&self, k: int)
        requires
            self.wf(),
            0 <= k <= self.layer_count(),
        ensures
            self.vertex_window_sum(k) == self.vertices_view().len() - if k < self.layer_count() {
                self.ranges_view()[k].vertex_start as int
            } else {
                self.vertices_view().len() as int
            },
            self.index_window_sum(k) == self.indices_view().len() - if k < self.layer_count() {
                self.ranges_view()[k].index_start as int
            } else {
                self.indices_view().len() as int
            },
            self.instance_window_sum(k) == self.instances_view().len() - if k
                < self.layer_count() {
                self.ranges_view()[k].instance_start as int
            } else {
                self.instances_view().len() as int
            },
        decreases self.layer_count() - k,
    {
        if k < self.layer_count() {
            self.lemma_partition_from(k + 1);
        }
    }

    /// The capacities of all layers sum to the backing store length, for
    /// each of the three stores independently.
    pub proof fn lemma_capacity_partition(&self)
        requires
            self.wf(),
        ensures
            self.vertex_window_sum(0) == self.vertices_view().len(),
            self.index_window_sum(0) == self.indices_view().len(),
            self.instance_window_sum(0) == self.instances_view().len(),
    {
        self.lemma_partition_from(0);
    }
}

impl Layers {
    /// Largest vertex-window capacity among physical chunks `0..k`.
    pub open spec fn max_vertex_window_upto(&self, k: int) -> int
        decreases k,
    {
        if 0 < k <= self.layer_count() {
            let w = self.vertex_end(k - 1) - self.ranges_view()[k - 1].vertex_start;
            let rest = self.max_vertex_window_upto(k - 1);
            if w >= rest {
                w
            } else {
                rest
            }
        } else {
            0
        }
    }

    /// Largest index-window capacity among physical chunks `0..k`.
    pub open spec fn max_index_window_upto(&self, k: int) -> int
        decreases k,
    {
        if 0 < k <= self.layer_count() {
            let w = self.index_end(k - 1) - self.ranges_view()[k - 1].index_start;
            let rest = self.max_index_window_upto(k - 1);
            if w >= rest {
                w
            } else {
                rest
            }
        } else {
            0
        }
    }

    /// The largest vertex and index window capacities over all layers:
    /// a scratch buffer of this size fits a retessellation of any single
    /// layer.
    pub fn widest_windows(&self) -> (r: (u16, u32))
        requires
            self.wf(),
        ensures
            r.0 == self.max_vertex_window_upto(self.layer_count()),
            r.1 == self.max_index_window_upto(self.layer_count()),
    {
        let n = self.ranges.len();
        let mut vertex_capacity: u16 = 0;
        let mut index_capacity: u32 = 0;
        for k in 0..n
            invariant
                self.wf(),
                n == self.layer_count(),
                vertex_capacity == self.max_vertex_window_upto(k as int),
                index_capacity == self.max_index_window_upto(k as int),
        {
            proof {
                assert(self.chunk_wf(k as int));
                self.lemma_window_bounds(k as int);
            }
            let r = self.ranges[k];
            let (vertex_end, index_end) = if k + 1 == n {
                (self.vertices.len() as u16, self.indices.len() as u32)
            } else {
                let next = self.ranges[k + 1];
                (next.vertex_start, next.index_start)
            };
            let vw: u16 = vertex_end - r.vertex_start;
            let iw: u32 = index_end - r.index_start;
            if vw > vertex_capacity {
                vertex_capacity = vw;
            }
            if iw > index_capacity {
                index_capacity = iw;
            }
        }
        (vertex_capacity, index_capacity)
    }
}

/// An extend never raises a live length beyond the layer's declared
/// capacity: with `fe` the floating end, `start..end` the capacity window
/// and `n_items` elements supplied, the live length after the append equals
/// the lesser of (old live length + supplied) and the capacity — whatever
/// exceeds the window is dropped.
pub proof fn lemma_live_after_extend(start: int, fe: int, end: int, n_items: int)
    requires
        start <= fe <= end,
        0 <= n_items,
    ensures
        ({
            let n = vstd::math::min(n_items, end - fe);
            (fe + n) - start == vstd::math::min((fe - start) + n_items, end - start)
        }),
        fe + vstd::math::min(n_items, end - fe) <= end,
{
}

/// Rebasing a layer-local index to global numbering and back returns the
/// original value, for every value and every offset: the two wrap-arounds
/// cancel exactly.
pub proof fn lemma_rebase_round_trip(value: u16, vertex_start: u16)
    ensures
        value.wrapping_add(vertex_start).wrapping_sub(vertex_start) == value,
{
}

/// The sequence form of the round trip: reading back any position of a
/// rebased index sequence returns the value originally passed there.
pub proof fn lemma_rebased_sequence_round_trip(items: Seq<u16>, vertex_start: u16, i: int)
    requires
        0 <= i < items.len(),
    ensures
        rebase_to_global(items, vertex_start)[i].wrapping_sub(vertex_start) == items[i],
{
    lemma_rebase_round_trip(items[i], vertex_start);
}

/// The arena form of the round trip: after `set_indices` accepted the first
/// `n` of `items` into a layer, reading back live position `i` and
/// converting from global to layer-local numbering — what `get_index` does —
/// returns exactly the value passed at position `i`.
pub proof fn lemma_set_indices_round_trip(
    pre: Layers,
    post: Layers,
    index: int,
    items: Seq<u16>,
    i: int,
)
    requires
        pre.wf(),
        0 <= index < pre.layer_count(),
        ({
            let k = pre.chunk_of(index);
            let r = pre.ranges_view()[k];
            let n = vstd::math::min(items.len() as int, pre.index_end(k) - r.index_start);
            &&& post.indices_view() == seq_splice(
                pre.indices_view(),
                r.index_start as int,
                rebase_to_global(items.take(n), r.vertex_start),
            )
            &&& 0 <= i < n
        }),
    ensures
        ({
            let r = pre.ranges_view()[pre.chunk_of(index)];
            post.indices_view()[r.index_start + i].wrapping_sub(r.vertex_start) == items[i]
        }),
{
    let k = pre.chunk_of(index);
    let r = pre.ranges_view()[k];
    let n = vstd::math::min(items.len() as int, pre.index_end(k) - r.index_start);
    assert(pre.chunk_wf(k));
    pre.lemma_window_bounds(k);
    let rebased = rebase_to_global(items.take(n), r.vertex_start);
    assert(post.indices_view()[r.index_start + i] == rebased[i]);
    assert(rebased[i] == items[i].wrapping_add(r.vertex_start));
    lemma_rebase_round_trip(items[i], r.vertex_start);
}

/// A copy of `src[from..to]`.
fn copy_range<T: Copy>(src: &Vec<T>, from: usize, to: usize) -> (r: Vec<T>)
    requires
        from <= to <= src@.len(),
    ensures
        r@ == src@.subrange(from as int, to as int),
{
    let mut r: Vec<T> = Vec::new();
    let mut i: usize = from;
    while i < to
        invariant
            from <= i <= to <= src@.len(),
            r@.len() == i - from,
            forall|p: int| 0 <= p < r@.len() ==> #[trigger] r@[p] == src@[from + p],
        decreases to - i,
    {
        r.push(src[i]);
        i = i + 1;
    }
    proof {
        assert(r@ =~= src@.subrange(from as int, to as int));
    }
    r
}

/// A zero-filled vertex vector of the given length.
fn fill_vertices(n: usize) -> (r: Vec<Vec2Bits>)
    ensures
        r@.len() == n,
        forall|i: int| 0 <= i < n ==> #[trigger] r@[i] == (Vec2Bits { x: 0u32, y: 0u32 }),
{
    let mut r: Vec<Vec2Bits> = Vec::new();
    for j in 0..n
        invariant
            r@.len() == j,
            forall|i: int| 0 <= i < j ==> #[trigger] r@[i] == (Vec2Bits { x: 0u32, y: 0u32 }),
    {
        r.push(Vec2Bits::zero());
    }
    r
}

/// A zero-filled index vector of the given length.
fn fill_indices(n: usize) -> (r: Vec<u16>)
    ensures
        r@.len() == n,
        forall|i: int| 0 <= i < n ==> #[trigger] r@[i] == 0u16,
{
    let mut r: Vec<u16> = Vec::new();
    for j in 0..n
        invariant
            r@.len() == j,
            forall|i: int| 0 <= i < j ==> #[trigger] r@[i] == 0u16,
    {
        r.push(0u16);
    }
    r
}

/// A zero-filled instance vector of the given length.
fn fill_instances(n: usize) -> (r: Vec<Instance>)
    ensures
        r@.len() == n,
        forall|i: int| 0 <= i < n ==> #[trigger] r@[i] == Instance::spec_zero(),
{
    let mut r: Vec<Instance> = Vec::new();
    for j in 0..n
        invariant
            r@.len() == j,
            forall|i: int| 0 <= i < j ==> #[trigger] r@[i] == Instance::spec_zero(),
    {
        r.push(Instance::zero());
    }
    r
}

} // verus!
