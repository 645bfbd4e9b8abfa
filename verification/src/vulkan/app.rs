use vstd::prelude::*;

use crate::vulkan::shader::{ModulePoll, ShaderSlot, SlotState, ReloadOutcome};
use crate::vulkan::pipeline::{CullMode, Pipeline};
use crate::vulkan::geometry::{Geometry, GeometryStore};
use crate::vulkan::frame::{AcquireResult, FramePlan, InFlightFrames, PresentResult};
use crate::vulkan::swapchain::{recreate_plan, SwapchainProperties, SwapchainStep};
use crate::math::matrix::Matrix;

verus! {

/// How many frames may be in flight at once.
pub const MAX_FRAMES_IN_FLIGHT: usize = 2;

/// Index of the skybox pipeline in the pipeline list.
pub const PIPELINE_IDX_CUBE: usize = 1;

/// Index of the first shader-art pipeline in the pipeline list.
pub const PIPELINE_IDX_ART: usize = 2;

/// Bytecode that must be turned into a GPU shader module on the render
/// thread, for the slot that owns it.
pub struct ModuleLoad {
    pub slot: usize,
    pub words: Vec<u32>,
}

/// One shader-art panel: its two shader slots and whether it draws on the
/// shared box geometry or on the flat quad.
#[derive(Debug, Clone, Copy, PartialEq, Eq, Structural)]
pub struct ArtDesc {
    pub vert_slot: usize,
    pub frag_slot: usize,
    pub is_3d: bool,
}

/// The uploaded buffer pair a geometry is created over.
#[derive(Debug, Clone, Copy, PartialEq, Eq, Structural)]
pub struct GeometryInit {
    pub vertex_buffer: u64,
    pub index_buffer: u64,
    pub index_count: u32,
}

/// The renderer core: the shader slot store, the pipelines over it, the
/// shared geometries, the swapchain properties and the in-flight frame ring.
/// Every GPU call it decides on is returned to the caller as a plan or job.
pub struct VkApp {
    pub dirty_swapchain: bool,
    pub model_matrix: Matrix,
    pub slots: Vec<ShaderSlot>,
    pub pipelines: Vec<Pipeline>,
    pub geometry_store: GeometryStore,
    pub swapchain: SwapchainProperties,
    pub msaa_samples: u32,
    pub depth_format: u32,
    pub in_flight: InFlightFrames,
    pub textures: Vec<u64>,
}

/// A slot after one pass of the module poll: an existing module is kept,
/// fresh bytecode is consumed into a module, and otherwise nothing changes.
pub open spec fn spec_poll(s: ShaderSlot) -> ShaderSlot {
    if s.has_module {
        s
    } else if s.bytecode is Some {
        ShaderSlot { bytecode: None, has_module: true, ..s }
    } else {
        s
    }
}

/// A pipeline after the reload sweep, given the slot store as the sweep left
/// it: a pipeline whose shader slots ended up compiling loses its GPU
/// pipeline and waits; any other pipeline is untouched.
pub open spec fn spec_pipeline_after_reload(p: Pipeline, slots: Seq<ShaderSlot>) -> Pipeline {
    if slots[p.vert_slot as int].state == SlotState::Compiling || slots[p.frag_slot as int].state
        == SlotState::Compiling {
        Pipeline { has_pipeline: false, waiting_for_shaders: true, ..p }
    } else {
        p
    }
}

/// Whether `v` holds `x`.
fn contains_usize(v: &Vec<usize>, x: usize) -> (r: bool)
    ensures
        r == v@.contains(x),
{
    let n = v.len();
    let mut k: usize = 0;
    while k < n
        invariant
            k <= n,
            n == v@.len(),
            forall|i: int| 0 <= i < k ==> v@[i] != x,
        decreases n - k,
    {
        if v[k] == x {
            return true;
        }
        k = k + 1;
    }
    false
}

/// Pushing an element onto a sequence adds exactly that element to its
/// contents.
proof fn lemma_push_contains(s: Seq<usize>, x: usize)
    ensures
        forall|y: usize| #[trigger] s.push(x).contains(y) <==> s.contains(y) || y == x,
{
    assert forall|y: usize| #[trigger] s.push(x).contains(y) implies s.contains(y) || y == x by {
        let j = choose|j: int| 0 <= j < s.push(x).len() && s.push(x)[j] == y;
        if j < s.len() {
            assert(s[j] == y);
        }
    }
    assert forall|y: usize| s.contains(y) || y == x implies #[trigger] s.push(x).contains(y) by {
        if s.contains(y) {
            let j = choose|j: int| 0 <= j < s.len() && s[j] == y;
            assert(s.push(x)[j] == y);
        } else {
            assert(s.push(x)[s.len() as int] == y);
        }
    }
}

/// Extending a prefix by one element adds exactly that element to its
/// contents.
proof fn lemma_subrange_grow_contains(s: Seq<usize>, k: int)
    requires
        0 <= k < s.len(),
    ensures
        forall|y: usize| #[trigger]
            s.subrange(0, k + 1).contains(y) <==> s.subrange(0, k).contains(y) || y == s[k],
{
    assert(s.subrange(0, k + 1) =~= s.subrange(0, k).push(s[k]));
    lemma_push_contains(s.subrange(0, k), s[k]);
}

/// How many of the first `k` art panels draw on the shared box geometry.
pub open spec fn spec_count_3d(arts: Seq<ArtDesc>, k: int) -> int
    decreases k,
{
    if k <= 0 {
        0
    } else {
        spec_count_3d(arts, k - 1) + if arts[k - 1].is_3d {
            1int
        } else {
            0int
        }
    }
}

/// The box-geometry panel count lies between 0 and `k`, and equals `k`
/// exactly when every one of the first `k` panels draws on the box.
proof fn lemma_count_3d_bounds(arts: Seq<ArtDesc>, k: int)
    requires
        0 <= k <= arts.len(),
    ensures
        0 <= spec_count_3d(arts, k) <= k,
        spec_count_3d(arts, k) == k <==> (forall|a: int|
            0 <= a < k ==> (#[trigger] arts[a]).is_3d),
    decreases k,
{
    if k > 0 {
        lemma_count_3d_bounds(arts, k - 1);
        if spec_count_3d(arts, k) == k {
            assert(forall|a: int| 0 <= a < k - 1 ==> (#[trigger] arts[a]).is_3d);
        }
        if forall|a: int| 0 <= a < k ==> (#[trigger] arts[a]).is_3d {
            assert(arts[k - 1].is_3d);
        }
    }
}

impl VkApp {
    /// Every slot and pipeline is well formed, pipeline slot indices point
    /// into the slot store, geometries point into the geometry store, and
    /// the main and skybox pipelines exist.
    pub open spec fn wf(&self) -> bool {
        &&& self.in_flight.wf()
        &&& self.pipelines@.len() >= PIPELINE_IDX_ART
        &&& forall|i: int| 0 <= i < self.slots@.len() ==> (#[trigger] self.slots@[i]).wf()
        &&& forall|i: int|
            0 <= i < self.pipelines@.len() ==> (#[trigger] self.pipelines@[i]).wf()
                && self.pipelines@[i].vert_slot < self.slots@.len()
                && self.pipelines@[i].frag_slot < self.slots@.len() && (self.pipelines@[i].geometry
                is Some ==> self.pipelines@[i].geometry.unwrap().spec_id()
                < self.geometry_store@.len())
    }

    /// Whether slot `s` belongs to one of the shader-art pipelines.
    pub open spec fn spec_is_art_slot(&self, s: int) -> bool {
        exists|i: int|
            PIPELINE_IDX_ART <= i < self.pipelines@.len() && ((
            #[trigger] self.pipelines@[i]).vert_slot == s || self.pipelines@[i].frag_slot == s)
    }

    /// Whether slot `s` belongs to a shader-art pipeline with index below
    /// `bound`.
    pub open spec fn spec_art_slot_before(&self, s: int, bound: int) -> bool {
        exists|i: int|
            PIPELINE_IDX_ART <= i < bound && i < self.pipelines@.len() && ((
            #[trigger] self.pipelines@[i]).vert_slot == s || self.pipelines@[i].frag_slot == s)
    }

    /// Collects the slot indices of all shader-art pipelines, each once.
    fn collect_art_slots(&self) -> (art_slots: Vec<usize>)
        requires
            self.wf(),
        ensures
            forall|s: usize| #[trigger] art_slots@.contains(s) <==> self.spec_is_art_slot(s as int),
            art_slots@.no_duplicates(),
            forall|j: int| 0 <= j < art_slots@.len() ==> #[trigger] art_slots@[j] < self.slots@.len(),
    {
        let mut art_slots: Vec<usize> = Vec::new();
        let n = self.pipelines.len();
        let mut i: usize = PIPELINE_IDX_ART;
        while i < n
            invariant
                PIPELINE_IDX_ART <= i <= n,
                self.wf(),
                n == self.pipelines@.len(),
                forall|s: usize| #[trigger]
                    art_slots@.contains(s) <==> self.spec_art_slot_before(s as int, i as int),
                art_slots@.no_duplicates(),
                forall|j: int|
                    0 <= j < art_slots@.len() ==> #[trigger] art_slots@[j] < self.slots@.len(),
            decreases n - i,
        {
            let vs = self.pipelines[i].vert_slot;
            let fs = self.pipelines[i].frag_slot;
            let ghost before_vs = art_slots@;
            if !contains_usize(&art_slots, vs) {
                art_slots.push(vs);
                proof {
                    lemma_push_contains(before_vs, vs);
                }
            }
            let ghost before_fs = art_slots@;
            if !contains_usize(&art_slots, fs) {
                art_slots.push(fs);
                proof {
                    lemma_push_contains(before_fs, fs);
                }
            }
            proof {
                assert forall|s: int|
                    self.spec_art_slot_before(s, i + 1) implies self.spec_art_slot_before(
                    s,
                    i as int,
                ) || s == vs || s == fs by {
                    let w = choose|w: int|
                        PIPELINE_IDX_ART <= w < i + 1 && w < self.pipelines@.len() && (
                        self.pipelines@[w].vert_slot == s || self.pipelines@[w].frag_slot == s);
                    if w < i {
                        assert(self.spec_art_slot_before(s, i as int));
                    }
                }
                assert forall|s: int|
                    self.spec_art_slot_before(s, i as int) implies self.spec_art_slot_before(
                    s,
                    i + 1,
                ) by {
                    let w = choose|w: int|
                        PIPELINE_IDX_ART <= w < i && w < self.pipelines@.len() && (
                        self.pipelines@[w].vert_slot == s || self.pipelines@[w].frag_slot == s);
                    assert(PIPELINE_IDX_ART <= w < i + 1 && w < self.pipelines@.len() && (
                    self.pipelines@[w].vert_slot == s || self.pipelines@[w].frag_slot == s));
                }
                assert(self.spec_art_slot_before(vs as int, i + 1)) by {
                    assert(PIPELINE_IDX_ART <= i < i + 1 && i < self.pipelines@.len() && (
                    self.pipelines@[i as int].vert_slot == vs as int
                        || self.pipelines@[i as int].frag_slot == vs as int));
                }
                assert(self.spec_art_slot_before(fs as int, i + 1)) by {
                    assert(PIPELINE_IDX_ART <= i < i + 1 && i < self.pipelines@.len() && (
                    self.pipelines@[i as int].vert_slot == fs as int
                        || self.pipelines@[i as int].frag_slot == fs as int));
                }
            }
            i = i + 1;
        }
        proof {
            assert forall|s: int|
                self.spec_is_art_slot(s) implies self.spec_art_slot_before(s, n as int) by {
                let w = choose|w: int|
                    PIPELINE_IDX_ART <= w < self.pipelines@.len() && ((
                    #[trigger] self.pipelines@[w]).vert_slot == s || self.pipelines@[w].frag_slot
                        == s);
                assert(PIPELINE_IDX_ART <= w < n && w < self.pipelines@.len() && (
                self.pipelines@[w].vert_slot == s || self.pipelines@[w].frag_slot == s));
            }
            assert forall|s: int|
                self.spec_art_slot_before(s, n as int) implies self.spec_is_art_slot(s) by {
                let w = choose|w: int|
                    PIPELINE_IDX_ART <= w < n && w < self.pipelines@.len() && ((
                    #[trigger] self.pipelines@[w]).vert_slot == s || self.pipelines@[w].frag_slot
                        == s);
                assert(PIPELINE_IDX_ART <= w < self.pipelines@.len() && (
                self.pipelines@[w].vert_slot == s || self.pipelines@[w].frag_slot == s));
            }
        }
        art_slots
    }

    /// Requests a reload on both shader slots of every shader-art pipeline:
    /// the per-frame sweep that turns dirty bits into compile jobs (not
    /// forced), or the host's reload-everything command (forced).
    ///
    /// Each involved slot makes the reload decision exactly once, so a slot
    /// shared by several panels enqueues at most one job. A pipeline whose
    /// slots end up compiling loses its GPU pipeline and waits; every other
    /// pipeline and every uninvolved slot is untouched. The returned list
    /// holds each slot for which a job was enqueued, exactly once; the
    /// caller hands each job to the compilation worker.
    pub fn request_art_reloads(&mut self, forced: bool) -> (jobs: Vec<usize>)
        requires
            old(self).wf(),
        ensures
            final(self).wf(),
            *final(self) == (VkApp {
                slots: final(self).slots,
                pipelines: final(self).pipelines,
                ..*old(self)
            }),
            final(self).slots@.len() == old(self).slots@.len(),
            final(self).pipelines@.len() == old(self).pipelines@.len(),
            forall|s: int|
                0 <= s < old(self).slots@.len() && old(self).spec_is_art_slot(s) ==> final(self).slots@[s] == (#[trigger] old(self).slots@[s]).spec_request_reload(forced).0,
            forall|s: int|
                0 <= s < old(self).slots@.len() && !old(self).spec_is_art_slot(s) ==> final(self).slots@[s] == old(self).slots@[s],
            forall|i: int|
                0 <= i < PIPELINE_IDX_ART ==> final(self).pipelines@[i] == old(self).pipelines@[i],
            forall|i: int|
                PIPELINE_IDX_ART <= i < old(self).pipelines@.len() ==> final(self).pipelines@[i]
                    == spec_pipeline_after_reload(
                    #[trigger] old(self).pipelines@[i],
                    final(self).slots@,
                ),
            forall|s: usize|
                #[trigger] jobs@.contains(s) <==> s < old(self).slots@.len() && old(self).spec_is_art_slot(s as int) && old(self).slots@[s as int].spec_request_reload(
                    forced,
                ).1 is Enqueued,
    {
        let ghost pre = *self;
        let art_slots = self.collect_art_slots();
        let mut jobs: Vec<usize> = Vec::new();
        let m = art_slots.len();
        let mut k: usize = 0;
        while k < m
            invariant
                k <= m,
                pre.wf(),
                m == art_slots@.len(),
                forall|s: usize| #[trigger]
                    art_slots@.contains(s) <==> pre.spec_is_art_slot(s as int),
                art_slots@.no_duplicates(),
                forall|j: int| 0 <= j < art_slots@.len() ==> #[trigger] art_slots@[j] < pre.slots@.len(),
                *self == (VkApp { slots: self.slots, ..pre }),
                self.slots@.len() == pre.slots@.len(),
                forall|i: int| 0 <= i < self.slots@.len() ==> (#[trigger] self.slots@[i]).wf(),
                forall|t: usize|
                    t < pre.slots@.len() && #[trigger] art_slots@.subrange(0, k as int).contains(t)
                        ==> self.slots@[t as int] == pre.slots@[t as int].spec_request_reload(
                        forced,
                    ).0,
                forall|t: usize|
                    t < pre.slots@.len() && !(#[trigger] art_slots@.subrange(0, k as int).contains(
                        t,
                    )) ==> self.slots@[t as int] == pre.slots@[t as int],
                forall|s: usize|
                    #[trigger] jobs@.contains(s) <==> art_slots@.subrange(0, k as int).contains(s)
                        && s < pre.slots@.len() && pre.slots@[s as int].spec_request_reload(
                        forced,
                    ).1 is Enqueued,
            decreases m - k,
        {
            let s = art_slots[k];
            proof {
                if art_slots@.subrange(0, k as int).contains(s) {
                    let j = choose|j: int|
                        0 <= j < k && art_slots@.subrange(0, k as int)[j] == s;
                    assert(art_slots@[j] == art_slots@[k as int]);
                    assert(false);
                }
            }
            let r = self.slots[s].request_reload(forced);
            let ghost jobs0 = jobs@;
            if matches!(r, ReloadOutcome::Enqueued(_)) {
                jobs.push(s);
                proof {
                    lemma_push_contains(jobs0, s);
                }
            }
            proof {
                lemma_subrange_grow_contains(art_slots@, k as int);
            }
            k = k + 1;
        }
        let slots_len = self.slots.len();
        proof {
            assert(art_slots@.subrange(0, m as int) =~= art_slots@);
            assert(self.slots@.len() == slots_len);
            assert forall|s: int|
                0 <= s < pre.slots@.len() && pre.spec_is_art_slot(s) implies self.slots@[s] == (
            #[trigger] pre.slots@[s]).spec_request_reload(forced).0 by {
                let su = s as usize;
                assert(art_slots@.contains(su));
            }
            assert forall|s: int|
                0 <= s < pre.slots@.len() && !pre.spec_is_art_slot(s) implies self.slots@[s] == (
            #[trigger] pre.slots@[s]) by {
                let su = s as usize;
                assert(!art_slots@.contains(su));
            }
        }
        let n = self.pipelines.len();
        let mut i: usize = PIPELINE_IDX_ART;
        while i < n
            invariant
                PIPELINE_IDX_ART <= i <= n,
                pre.wf(),
                n == self.pipelines@.len(),
                self.pipelines@.len() == pre.pipelines@.len(),
                *self == (VkApp { slots: self.slots, pipelines: self.pipelines, ..pre }),
                self.slots@.len() == pre.slots@.len(),
                forall|t: int| 0 <= t < self.slots@.len() ==> (#[trigger] self.slots@[t]).wf(),
                forall|s: int|
                    0 <= s < pre.slots@.len() && pre.spec_is_art_slot(s) ==> self.slots@[s] == (
                    #[trigger] pre.slots@[s]).spec_request_reload(forced).0,
                forall|s: int|
                    0 <= s < pre.slots@.len() && !pre.spec_is_art_slot(s) ==> self.slots@[s]
                        == pre.slots@[s],
                forall|k2: int|
                    (0 <= k2 < PIPELINE_IDX_ART || i <= k2 < pre.pipelines@.len()) ==> (
                    #[trigger] self.pipelines@[k2]) == pre.pipelines@[k2],
                forall|k2: int|
                    PIPELINE_IDX_ART <= k2 < i ==> (#[trigger] self.pipelines@[k2])
                        == spec_pipeline_after_reload(pre.pipelines@[k2], self.slots@),
            decreases n - i,
        {
            let vs = self.pipelines[i].vert_slot;
            let fs = self.pipelines[i].frag_slot;
            let v_compiling = matches!(self.slots[vs].state, SlotState::Compiling);
            let f_compiling = matches!(self.slots[fs].state, SlotState::Compiling);
            if v_compiling || f_compiling {
                self.pipelines[i].cleanup_pip();
            }
            i = i + 1;
        }
        jobs
    }

    /// The host command that reloads every shader-art panel: a forced reload
    /// request on each involved slot, as `request_art_reloads` performs it.
    /// Slots that are already compiling are left alone; every other involved
    /// slot enqueues exactly one compile job, and the panels wait for the
    /// new shaders.
    pub fn reload_shaders(&mut self) -> (jobs: Vec<usize>)
        requires
            old(self).wf(),
        ensures
            final(self).wf(),
            *final(self) == (VkApp {
                slots: final(self).slots,
                pipelines: final(self).pipelines,
                ..*old(self)
            }),
            final(self).slots@.len() == old(self).slots@.len(),
            final(self).pipelines@.len() == old(self).pipelines@.len(),
            forall|s: int|
                0 <= s < old(self).slots@.len() && old(self).spec_is_art_slot(s) ==> final(self).slots@[s] == (#[trigger] old(self).slots@[s]).spec_request_reload(true).0,
            forall|s: int|
                0 <= s < old(self).slots@.len() && !old(self).spec_is_art_slot(s) ==> final(self).slots@[s] == old(self).slots@[s],
            forall|i: int|
                0 <= i < PIPELINE_IDX_ART ==> final(self).pipelines@[i] == old(self).pipelines@[i],
            forall|i: int|
                PIPELINE_IDX_ART <= i < old(self).pipelines@.len() ==> final(self).pipelines@[i]
                    == spec_pipeline_after_reload(
                    #[trigger] old(self).pipelines@[i],
                    final(self).slots@,
                ),
            forall|s: usize|
                #[trigger] jobs@.contains(s) <==> s < old(self).slots@.len() && old(self).spec_is_art_slot(s as int) && old(self).slots@[s as int].spec_request_reload(
                    true,
                ).1 is Enqueued,
    {
        self.request_art_reloads(true)
    }

    /// Polls every shader slot once: a slot with fresh bytecode hands it out
    /// as a module-load job and counts as live from then on; other slots are
    /// untouched.
    fn poll_all_slots(&mut self) -> (loads: Vec<ModuleLoad>)
        requires
            old(self).wf(),
        ensures
            final(self).wf(),
            *final(self) == (VkApp { slots: final(self).slots, ..*old(self) }),
            final(self).slots@.len() == old(self).slots@.len(),
            forall|s: int|
                0 <= s < old(self).slots@.len() ==> final(self).slots@[s] == spec_poll(
                    #[trigger] old(self).slots@[s],
                ),
            forall|j: int|
                0 <= j < loads@.len() ==> (#[trigger] loads@[j]).slot < old(self).slots@.len()
                    && old(self).slots@[loads@[j].slot as int].bytecode is Some && !old(self).slots@[loads@[j].slot as int].has_module && loads@[j].words@ == old(self).slots@[loads@[j].slot as int].bytecode.unwrap()@,
            forall|s: int|
                0 <= s < old(self).slots@.len() && (#[trigger] old(self).slots@[s]).bytecode
                    is Some && !old(self).slots@[s].has_module ==> exists|j: int|
                    0 <= j < loads@.len() && (#[trigger] loads@[j]).slot == s,
    {
        let ghost pre = *self;
        let mut loads: Vec<ModuleLoad> = Vec::new();
        let n = self.slots.len();
        let mut s: usize = 0;
        while s < n
            invariant
                s <= n,
                pre.wf(),
                n == pre.slots@.len(),
                *self == (VkApp { slots: self.slots, ..pre }),
                self.slots@.len() == pre.slots@.len(),
                forall|t: int| 0 <= t < self.slots@.len() ==> (#[trigger] self.slots@[t]).wf(),
                forall|t: int|
                    0 <= t < s ==> self.slots@[t] == spec_poll(#[trigger] pre.slots@[t]),
                forall|t: int| s <= t < n ==> self.slots@[t] == pre.slots@[t],
                forall|j: int|
                    0 <= j < loads@.len() ==> (#[trigger] loads@[j]).slot < n
                        && pre.slots@[loads@[j].slot as int].bytecode is Some
                        && !pre.slots@[loads@[j].slot as int].has_module && loads@[j].words@
                        == pre.slots@[loads@[j].slot as int].bytecode.unwrap()@,
                forall|t: int|
                    0 <= t < s && (#[trigger] pre.slots@[t]).bytecode is Some
                        && !pre.slots@[t].has_module ==> exists|j: int|
                        0 <= j < loads@.len() && (#[trigger] loads@[j]).slot == t,
            decreases n - s,
        {
            let r = self.slots[s].poll_module();
            match r {
                ModulePoll::Load(words) => {
                    let ghost loads0 = loads@;
                    loads.push(ModuleLoad { slot: s, words });
                    proof {
                        assert(loads@[loads0.len() as int].slot == s);
                        assert forall|j: int| 0 <= j < loads0.len() implies #[trigger] loads@[j]
                            == loads0[j] by {}
                        assert forall|t: int|
                            0 <= t < s + 1 && (#[trigger] pre.slots@[t]).bytecode is Some
                                && !pre.slots@[t].has_module implies exists|j: int|
                            0 <= j < loads@.len() && (#[trigger] loads@[j]).slot == t by {
                            if t < s {
                                let j = choose|j: int|
                                    0 <= j < loads0.len() && (#[trigger] loads0[j]).slot == t;
                                assert(loads@[j].slot == t);
                            } else {
                                assert(loads@[loads0.len() as int].slot == t);
                            }
                        }
                    }
                },
                _ => {},
            }
            s = s + 1;
        }
        loads
    }

    /// Polls the shader slots for completed background compiles and rebuilds
    /// every shader-art pipeline that was waiting and whose two slots now
    /// expose a module. Returns the module-load jobs and whether any
    /// pipeline was rebuilt — if one was, the command buffers must be
    /// re-recorded once before the next frame.
    pub fn poll_art_pipelines(&mut self) -> (r: (Vec<ModuleLoad>, bool))
        requires
            old(self).wf(),
        ensures
            final(self).wf(),
            *final(self) == (VkApp {
                slots: final(self).slots,
                pipelines: final(self).pipelines,
                ..*old(self)
            }),
            final(self).slots@.len() == old(self).slots@.len(),
            final(self).pipelines@.len() == old(self).pipelines@.len(),
            forall|s: int|
                0 <= s < old(self).slots@.len() ==> final(self).slots@[s] == spec_poll(
                    #[trigger] old(self).slots@[s],
                ),
            forall|i: int|
                0 <= i < PIPELINE_IDX_ART ==> final(self).pipelines@[i] == old(self).pipelines@[i],
            forall|i: int|
                PIPELINE_IDX_ART <= i < old(self).pipelines@.len() ==> final(self).pipelines@[i]
                    == spec_pipeline_after_poll(
                    #[trigger] old(self).pipelines@[i],
                    old(self).slots@,
                ),
            r.1 == exists|i: int|
                PIPELINE_IDX_ART <= i < old(self).pipelines@.len() && spec_pipeline_rebuilt(
                    #[trigger] old(self).pipelines@[i],
                    old(self).slots@,
                ),
            forall|j: int|
                0 <= j < r.0@.len() ==> (#[trigger] r.0@[j]).slot < old(self).slots@.len()
                    && old(self).slots@[r.0@[j].slot as int].bytecode is Some && !old(
                    self,
                ).slots@[r.0@[j].slot as int].has_module && r.0@[j].words@ == old(
                    self,
                ).slots@[r.0@[j].slot as int].bytecode.unwrap()@,
            forall|s: int|
                0 <= s < old(self).slots@.len() && (#[trigger] old(self).slots@[s]).bytecode
                    is Some && !old(self).slots@[s].has_module ==> exists|j: int|
                    0 <= j < r.0@.len() && (#[trigger] r.0@[j]).slot == s,
    {
        let ghost pre = *self;
        let loads = self.poll_all_slots();
        let mut rebuilt = false;
        let n = self.pipelines.len();
        let mut i: usize = PIPELINE_IDX_ART;
        while i < n
            invariant
                PIPELINE_IDX_ART <= i <= n,
                pre.wf(),
                n == self.pipelines@.len(),
                self.pipelines@.len() == pre.pipelines@.len(),
                *self == (VkApp { slots: self.slots, pipelines: self.pipelines, ..pre }),
                self.slots@.len() == pre.slots@.len(),
                forall|t: int| 0 <= t < self.slots@.len() ==> (#[trigger] self.slots@[t]).wf(),
                forall|s: int|
                    0 <= s < pre.slots@.len() ==> self.slots@[s] == spec_poll(
                        #[trigger] pre.slots@[s],
                    ),
                forall|k2: int|
                    (0 <= k2 < PIPELINE_IDX_ART || i <= k2 < pre.pipelines@.len()) ==> (
                    #[trigger] self.pipelines@[k2]) == pre.pipelines@[k2],
                forall|k2: int|
                    PIPELINE_IDX_ART <= k2 < i ==> (#[trigger] self.pipelines@[k2])
                        == spec_pipeline_after_poll(pre.pipelines@[k2], pre.slots@),
                rebuilt == exists|k2: int|
                    PIPELINE_IDX_ART <= k2 < i && spec_pipeline_rebuilt(
                        #[trigger] pre.pipelines@[k2],
                        pre.slots@,
                    ),
            decreases n - i,
        {
            if self.pipelines[i].waiting_for_shaders {
                let vs = self.pipelines[i].vert_slot;
                let fs = self.pipelines[i].frag_slot;
                let v_live = self.slots[vs].module_live();
                let f_live = self.slots[fs].module_live();
                let built = self.pipelines[i].recreate(v_live, f_live);
                if built {
                    rebuilt = true;
                }
            }
            i = i + 1;
        }
        (loads, rebuilt)
    }

    /// Which sync slot the next frame's acquire must use.
    pub fn frame_sync_slot(&self) -> (slot: usize)
        ensures
            slot == self.in_flight.current_frame,
    {
        self.in_flight.current_frame
    }

    /// Starts a frame, given what the acquire returned. An out-of-date
    /// acquire marks the swapchain dirty and changes nothing else — no fence
    /// is reset and the ring does not advance. A successful acquire returns
    /// the frame's plan.
    pub fn draw_frame(&mut self, acquire: AcquireResult) -> (plan: Option<FramePlan>)
        requires
            old(self).wf(),
        ensures
            final(self).wf(),
            *final(self) == (VkApp {
                dirty_swapchain: final(self).dirty_swapchain,
                in_flight: final(self).in_flight,
                ..*old(self)
            }),
            acquire is OutOfDate ==> final(self).in_flight == old(self).in_flight && plan is None
                && final(self).dirty_swapchain,
            acquire is Image ==> final(self).dirty_swapchain == old(self).dirty_swapchain && plan
                == Some(
                FramePlan {
                    sync_slot: old(self).in_flight.current_frame,
                    image_index: acquire->Image_0,
                },
            ),
            acquire is Image ==> final(self).in_flight.current_frame == old(self).in_flight.current_frame && final(self).in_flight.ring_size == old(self).in_flight.ring_size,
            acquire is Image ==> final(self).in_flight.fence_pending@ == old(
                self,
            ).in_flight.fence_pending@.update(old(self).in_flight.current_frame as int, true),
    {
        let plan = self.in_flight.begin_frame(acquire);
        if plan.is_none() {
            self.dirty_swapchain = true;
        }
        plan
    }

    /// Ends a submitted frame, given what presenting returned; advances the
    /// ring and marks the swapchain dirty when the present reported it out
    /// of date or suboptimal.
    pub fn finish_frame(&mut self, present: PresentResult)
        requires
            old(self).wf(),
        ensures
            final(self).wf(),
            *final(self) == (VkApp {
                dirty_swapchain: final(self).dirty_swapchain,
                in_flight: final(self).in_flight,
                ..*old(self)
            }),
            final(self).dirty_swapchain == (old(self).dirty_swapchain || match present {
                PresentResult::Presented(suboptimal) => suboptimal,
                PresentResult::OutOfDate => true,
            }),
            final(self).in_flight.current_frame == (old(self).in_flight.current_frame + 1) % old(self).in_flight.ring_size as int,
            final(self).in_flight.ring_size == old(self).in_flight.ring_size,
    {
        let needs_recreate = self.in_flight.finish_frame(present);
        if needs_recreate {
            self.dirty_swapchain = true;
        }
    }

    /// Whether the caller must recreate the swapchain now, skip the frame
    /// because the window is minimized, or draw normally. Recreating with a
    /// zero extent is forbidden; a minimized window leaves the swapchain
    /// dirty until a usable extent arrives.
    pub fn resize_decision(&self, width: u32, height: u32) -> (r: ResizeDecision)
        ensures
            r == ResizeDecision::Recreate <==> self.dirty_swapchain && width > 0 && height > 0,
            r == ResizeDecision::SkipMinimized <==> self.dirty_swapchain && !(width > 0 && height
                > 0),
            r == ResizeDecision::DrawNormally <==> !self.dirty_swapchain,
    {
        if self.dirty_swapchain {
            if width > 0 && height > 0 {
                ResizeDecision::Recreate
            } else {
                ResizeDecision::SkipMinimized
            }
        } else {
            ResizeDecision::DrawNormally
        }
    }

    /// Recreates the swapchain for a new, non-zero extent: adopts the new
    /// properties, polls every shader slot, rebuilds every pipeline against
    /// the new render pass (a pipeline whose shaders are still missing stays
    /// waiting, never partially constructed), and clears the dirty flag. The
    /// returned plan lists the GPU steps in their required order; the loads
    /// are the modules to create.
    pub fn recreate_swapchain(&mut self, properties: SwapchainProperties) -> (r: (
        Vec<SwapchainStep>,
        Vec<ModuleLoad>,
    ))
        requires
            old(self).wf(),
            properties.width > 0,
            properties.height > 0,
        ensures
            final(self).wf(),
            *final(self) == (VkApp {
                dirty_swapchain: false,
                swapchain: properties,
                slots: final(self).slots,
                pipelines: final(self).pipelines,
                ..*old(self)
            }),
            final(self).slots@.len() == old(self).slots@.len(),
            final(self).pipelines@.len() == old(self).pipelines@.len(),
            forall|s: int|
                0 <= s < old(self).slots@.len() ==> final(self).slots@[s] == spec_poll(
                    #[trigger] old(self).slots@[s],
                ),
            forall|i: int|
                0 <= i < old(self).pipelines@.len() ==> final(self).pipelines@[i] == (#[trigger] old(self).pipelines@[i]).spec_recreate(
                    spec_poll(old(self).slots@[old(self).pipelines@[i].vert_slot as int]).has_module,
                    spec_poll(old(self).slots@[old(self).pipelines@[i].frag_slot as int]).has_module,
                ),
            r.0@ == crate::vulkan::swapchain::spec_teardown_plan()
                + crate::vulkan::swapchain::spec_rebuild_plan(),
            forall|j: int|
                0 <= j < r.1@.len() ==> (#[trigger] r.1@[j]).slot < old(self).slots@.len()
                    && old(self).slots@[r.1@[j].slot as int].bytecode is Some && !old(
                    self,
                ).slots@[r.1@[j].slot as int].has_module && r.1@[j].words@ == old(
                    self,
                ).slots@[r.1@[j].slot as int].bytecode.unwrap()@,
            forall|s: int|
                0 <= s < old(self).slots@.len() && (#[trigger] old(self).slots@[s]).bytecode
                    is Some && !old(self).slots@[s].has_module ==> exists|j: int|
                    0 <= j < r.1@.len() && (#[trigger] r.1@[j]).slot == s,
    {
        let plan = recreate_plan(properties.width, properties.height);
        self.swapchain = properties;
        self.dirty_swapchain = false;
        let loads = self.rebuild_pipelines();
        (plan, loads)
    }

    /// Polls every shader slot and rebuilds every pipeline against the
    /// current module availability: ready exactly when both its slots
    /// expose a module, waiting otherwise.
    fn rebuild_pipelines(&mut self) -> (loads: Vec<ModuleLoad>)
        requires
            old(self).wf(),
        ensures
            final(self).wf(),
            *final(self) == (VkApp {
                slots: final(self).slots,
                pipelines: final(self).pipelines,
                ..*old(self)
            }),
            final(self).slots@.len() == old(self).slots@.len(),
            final(self).pipelines@.len() == old(self).pipelines@.len(),
            forall|s: int|
                0 <= s < old(self).slots@.len() ==> final(self).slots@[s] == spec_poll(
                    #[trigger] old(self).slots@[s],
                ),
            forall|i: int|
                0 <= i < old(self).pipelines@.len() ==> final(self).pipelines@[i] == (#[trigger] old(self).pipelines@[i]).spec_recreate(
                    spec_poll(old(self).slots@[old(self).pipelines@[i].vert_slot as int]).has_module,
                    spec_poll(old(self).slots@[old(self).pipelines@[i].frag_slot as int]).has_module,
                ),
            forall|j: int|
                0 <= j < loads@.len() ==> (#[trigger] loads@[j]).slot < old(self).slots@.len()
                    && old(self).slots@[loads@[j].slot as int].bytecode is Some && !old(
                    self,
                ).slots@[loads@[j].slot as int].has_module && loads@[j].words@ == old(
                    self,
                ).slots@[loads@[j].slot as int].bytecode.unwrap()@,
            forall|s: int|
                0 <= s < old(self).slots@.len() && (#[trigger] old(self).slots@[s]).bytecode
                    is Some && !old(self).slots@[s].has_module ==> exists|j: int|
                    0 <= j < loads@.len() && (#[trigger] loads@[j]).slot == s,
    {
        let ghost pre = *self;
        let loads = self.poll_all_slots();
        let ghost mid = *self;
        let n = self.pipelines.len();
        let mut i: usize = 0;
        while i < n
            invariant
                i <= n,
                pre.wf(),
                n == self.pipelines@.len(),
                self.pipelines@.len() == pre.pipelines@.len(),
                *self == (VkApp { pipelines: self.pipelines, ..mid }),
                mid == (VkApp { slots: mid.slots, pipelines: pre.pipelines, ..pre }),
                mid.slots@.len() == pre.slots@.len(),
                forall|t: int| 0 <= t < mid.slots@.len() ==> (#[trigger] mid.slots@[t]).wf(),
                forall|s: int|
                    0 <= s < pre.slots@.len() ==> mid.slots@[s] == spec_poll(
                        #[trigger] pre.slots@[s],
                    ),
                forall|k2: int|
                    i <= k2 < pre.pipelines@.len() ==> (#[trigger] self.pipelines@[k2])
                        == pre.pipelines@[k2],
                forall|k2: int|
                    0 <= k2 < i ==> (#[trigger] self.pipelines@[k2])
                        == pre.pipelines@[k2].spec_recreate(
                        spec_poll(pre.slots@[pre.pipelines@[k2].vert_slot as int]).has_module,
                        spec_poll(pre.slots@[pre.pipelines@[k2].frag_slot as int]).has_module,
                    ),
            decreases n - i,
        {
            let vs = self.pipelines[i].vert_slot;
            let fs = self.pipelines[i].frag_slot;
            let v_live = self.slots[vs].module_live();
            let f_live = self.slots[fs].module_live();
            self.pipelines[i].recreate(v_live, f_live);
            i = i + 1;
        }
        loads
    }

    /// Builds the renderer core: one geometry each for the scene model, the
    /// skybox box and the flat quad; the main and skybox pipelines over the
    /// first four shader slots; and one pipeline per shader-art panel, on an
    /// aliased handle of the box or quad geometry. Every pipeline is then
    /// rebuilt against the modules its slots expose.
    ///
    /// Returns the core; the module-load jobs for the caller's render
    /// thread, one for every slot that brought bytecode; and the buffer
    /// pairs of helper geometries that no panel shares and that the caller
    /// must free — the box is always shared with the skybox pipeline, so
    /// only the quad's buffers are freed, and only when no flat panel
    /// exists.
    pub fn new(
        swapchain: SwapchainProperties,
        msaa_samples: u32,
        depth_format: u32,
        slots: Vec<ShaderSlot>,
        arts: Vec<ArtDesc>,
        main_geometry: GeometryInit,
        skybox_geometry: GeometryInit,
        quad_geometry: GeometryInit,
        textures: Vec<u64>,
    ) -> (r: (VkApp, Vec<ModuleLoad>, Vec<(u64, u64)>))
        requires
            slots@.len() >= 4,
            forall|k: int|
                0 <= k < arts@.len() ==> (#[trigger] arts@[k]).vert_slot < slots@.len()
                    && arts@[k].frag_slot < slots@.len(),
            forall|s: int| 0 <= s < slots@.len() ==> (#[trigger] slots@[s]).wf(),
            arts@.len() < 0x4000_0000,
            textures@.len() > 0,
        ensures
            r.0.wf(),
            r.0.pipelines@.len() == 2 + arts@.len(),
            !r.0.dirty_swapchain,
            r.0.swapchain == swapchain,
            r.0.msaa_samples == msaa_samples,
            r.0.depth_format == depth_format,
            r.0.textures == textures,
            r.0.in_flight.ring_size == MAX_FRAMES_IN_FLIGHT,
            r.0.in_flight.current_frame == 0,
            r.0.slots@.len() == slots@.len(),
            forall|s: int|
                0 <= s < slots@.len() ==> r.0.slots@[s] == spec_poll(#[trigger] slots@[s]),
            forall|i: int| 0 <= i < r.0.pipelines@.len() ==> (#[trigger] r.0.pipelines@[i]).active,
            r.0.pipelines@[0].vert_slot == 0 && r.0.pipelines@[0].frag_slot == 1
                && r.0.pipelines@[0].geometry is Some,
            r.0.pipelines@[1].vert_slot == 2 && r.0.pipelines@[1].frag_slot == 3
                && r.0.pipelines@[1].geometry is Some,
            forall|k: int|
                0 <= k < arts@.len() ==> {
                    let p = #[trigger] r.0.pipelines@[PIPELINE_IDX_ART + k];
                    &&& p.vert_slot == arts@[k].vert_slot
                    &&& p.frag_slot == arts@[k].frag_slot
                    &&& p.geometry is Some
                    &&& p.has_push_constants
                },
            forall|j: int|
                0 <= j < r.1@.len() ==> (#[trigger] r.1@[j]).slot < slots@.len()
                    && slots@[r.1@[j].slot as int].bytecode is Some
                    && !slots@[r.1@[j].slot as int].has_module && r.1@[j].words@
                    == slots@[r.1@[j].slot as int].bytecode.unwrap()@,
            forall|s: int|
                0 <= s < slots@.len() && (#[trigger] slots@[s]).bytecode is Some
                    && !slots@[s].has_module ==> exists|j: int|
                    0 <= j < r.1@.len() && (#[trigger] r.1@[j]).slot == s,
            (exists|a: int| 0 <= a < arts@.len() && !(#[trigger] arts@[a]).is_3d) ==> r.2@.len()
                == 0,
            (forall|a: int| 0 <= a < arts@.len() ==> (#[trigger] arts@[a]).is_3d) ==> r.2@
                == seq![(quad_geometry.vertex_buffer, quad_geometry.index_buffer)],
    {
        let mut store = GeometryStore::new();
        let g_main = Geometry::new(
            &mut store,
            main_geometry.vertex_buffer,
            main_geometry.index_buffer,
            main_geometry.index_count,
        );
        let g_sky = Geometry::new(
            &mut store,
            skybox_geometry.vertex_buffer,
            skybox_geometry.index_buffer,
            skybox_geometry.index_count,
        );
        let g_quad = Geometry::new(
            &mut store,
            quad_geometry.vertex_buffer,
            quad_geometry.index_buffer,
            quad_geometry.index_count,
        );
        let mut pipelines: Vec<Pipeline> = Vec::new();
        let v0 = slots[0].module_live();
        let f0 = slots[1].module_live();
        pipelines.push(Pipeline::new(CullMode::Back, 0, 1, Some(g_main), false, v0, f0));
        let g_sky_cube = g_sky.clone_ref(&mut store);
        let v1 = slots[2].module_live();
        let f1 = slots[3].module_live();
        pipelines.push(Pipeline::new(CullMode::Back, 2, 3, Some(g_sky_cube), false, v1, f1));
        let art_count = arts.len();
        let mut k: usize = 0;
        while k < art_count
            invariant
                k <= art_count,
                art_count == arts@.len(),
                arts@.len() < 0x4000_0000,
                forall|a: int|
                    0 <= a < arts@.len() ==> (#[trigger] arts@[a]).vert_slot < slots@.len()
                        && arts@[a].frag_slot < slots@.len(),
                store@.len() == 3,
                g_sky.spec_present(),
                g_sky.spec_id() == 1,
                g_quad.spec_present(),
                g_quad.spec_id() == 2,
                store@[0] == 1,
                store@[1] == 2 + spec_count_3d(arts@, k as int),
                store@[2] == 1 + k - spec_count_3d(arts@, k as int),
                pipelines@.len() == 2 + k,
                forall|i: int|
                    0 <= i < pipelines@.len() ==> (#[trigger] pipelines@[i]).active
                        && pipelines@[i].wf() && pipelines@[i].vert_slot < slots@.len()
                        && pipelines@[i].frag_slot < slots@.len() && (pipelines@[i].geometry
                        is Some ==> pipelines@[i].geometry.unwrap().spec_id() < 3),
                pipelines@[0].vert_slot == 0 && pipelines@[0].frag_slot == 1
                    && pipelines@[0].geometry is Some,
                pipelines@[1].vert_slot == 2 && pipelines@[1].frag_slot == 3
                    && pipelines@[1].geometry is Some,
                forall|a: int|
                    0 <= a < k ==> {
                        let p = #[trigger] pipelines@[PIPELINE_IDX_ART + a];
                        &&& p.vert_slot == arts@[a].vert_slot
                        &&& p.frag_slot == arts@[a].frag_slot
                        &&& p.geometry is Some
                        &&& p.has_push_constants
                    },
            decreases art_count - k,
        {
            let art = arts[k];
            proof {
                lemma_count_3d_bounds(arts@, k as int);
                lemma_count_3d_bounds(arts@, k + 1);
            }
            let geometry = if art.is_3d {
                g_sky.clone_ref(&mut store)
            } else {
                g_quad.clone_ref(&mut store)
            };
            let v_live = slots[art.vert_slot].module_live();
            let f_live = slots[art.frag_slot].module_live();
            pipelines.push(
                Pipeline::new(
                    CullMode::Back,
                    art.vert_slot,
                    art.frag_slot,
                    Some(geometry),
                    true,
                    v_live,
                    f_live,
                ),
            );
            k = k + 1;
        }
        proof {
            lemma_count_3d_bounds(arts@, art_count as int);
        }
        let mut free_buffers: Vec<(u64, u64)> = Vec::new();
        let sky_buffers = g_sky.get();
        if g_sky.cleanup(&mut store) {
            if let Some(bufs) = sky_buffers {
                free_buffers.push((bufs.0, bufs.1));
            }
        }
        let quad_buffers = g_quad.get();
        if g_quad.cleanup(&mut store) {
            if let Some(bufs) = quad_buffers {
                free_buffers.push((bufs.0, bufs.1));
            }
            proof {
                assert(free_buffers@ =~= seq![
                    (quad_geometry.vertex_buffer, quad_geometry.index_buffer),
                ]);
            }
        }
        let mut app = VkApp {
            dirty_swapchain: false,
            model_matrix: Matrix::unit(4),
            slots,
            pipelines,
            geometry_store: store,
            swapchain,
            msaa_samples,
            depth_format,
            in_flight: InFlightFrames::new(MAX_FRAMES_IN_FLIGHT),
            textures,
        };
        let ghost app0 = app;
        let loads = app.rebuild_pipelines();
        proof {
            assert forall|i: int|
                0 <= i < app.pipelines@.len() implies (#[trigger] app.pipelines@[i]).active by {
                assert(app.pipelines@[i] == app0.pipelines@[i].spec_recreate(
                    spec_poll(app0.slots@[app0.pipelines@[i].vert_slot as int]).has_module,
                    spec_poll(app0.slots@[app0.pipelines@[i].frag_slot as int]).has_module,
                ));
            }
            assert forall|a: int|
                0 <= a < arts@.len() implies {
                let p = #[trigger] app.pipelines@[PIPELINE_IDX_ART + a];
                &&& p.vert_slot == arts@[a].vert_slot
                &&& p.frag_slot == arts@[a].frag_slot
                &&& p.geometry is Some
                &&& p.has_push_constants
            } by {
                assert(app.pipelines@[PIPELINE_IDX_ART + a]
                    == app0.pipelines@[PIPELINE_IDX_ART + a].spec_recreate(
                    spec_poll(
                        app0.slots@[app0.pipelines@[PIPELINE_IDX_ART + a].vert_slot as int],
                    ).has_module,
                    spec_poll(
                        app0.slots@[app0.pipelines@[PIPELINE_IDX_ART + a].frag_slot as int],
                    ).has_module,
                ));
            }
        }
        (app, loads, free_buffers)
    }

    /// The pipelines the command buffers must record: exactly the active
    /// ones whose GPU pipeline is built, each once, in ascending pipeline
    /// order. A waiting pipeline is never recorded.
    pub fn record_plan(&self) -> (included: Vec<usize>)
        requires
            self.wf(),
        ensures
            forall|j: int|
                0 <= j < included@.len() ==> (#[trigger] included@[j]) < self.pipelines@.len()
                    && self.pipelines@[included@[j] as int].active
                    && self.pipelines@[included@[j] as int].has_pipeline,
            forall|i: usize|
                i < self.pipelines@.len() && (#[trigger] self.pipelines@[i as int]).active
                    && self.pipelines@[i as int].has_pipeline ==> included@.contains(i),
            forall|a: int, b: int|
                0 <= a < b < included@.len() ==> included@[a] < included@[b],
    {
        let mut included: Vec<usize> = Vec::new();
        let n = self.pipelines.len();
        let mut i: usize = 0;
        while i < n
            invariant
                i <= n,
                n == self.pipelines@.len(),
                forall|j: int|
                    0 <= j < included@.len() ==> (#[trigger] included@[j]) < n
                        && self.pipelines@[included@[j] as int].active
                        && self.pipelines@[included@[j] as int].has_pipeline,
                forall|k: usize|
                    k < i && (#[trigger] self.pipelines@[k as int]).active
                        && self.pipelines@[k as int].has_pipeline ==> included@.contains(k),
                forall|j: int| 0 <= j < included@.len() ==> #[trigger] included@[j] < i,
                forall|a: int, b: int|
                    0 <= a < b < included@.len() ==> included@[a] < included@[b],
            decreases n - i,
        {
            if self.pipelines[i].active && self.pipelines[i].is_built() {
                let ghost included0 = included@;
                included.push(i);
                proof {
                    lemma_push_contains(included0, i);
                }
            }
            i = i + 1;
        }
        included
    }

    /// Toggles whether the skybox pipeline is recorded, without destroying
    /// it.
    pub fn toggle_cubemap(&mut self)
        requires
            old(self).wf(),
        ensures
            final(self).wf(),
            *final(self) == (VkApp { pipelines: final(self).pipelines, ..*old(self) }),
            final(self).pipelines@ == old(self).pipelines@.update(
                PIPELINE_IDX_CUBE as int,
                (Pipeline {
                    active: !old(self).pipelines@[PIPELINE_IDX_CUBE as int].active,
                    ..old(self).pipelines@[PIPELINE_IDX_CUBE as int]
                }),
            ),
    {
        let active = self.pipelines[PIPELINE_IDX_CUBE].active;
        self.pipelines[PIPELINE_IDX_CUBE].active = !active;
    }

    /// Resets the model matrix to the unit matrix.
    pub fn reset_ubo(&mut self)
        requires
            old(self).wf(),
        ensures
            final(self).wf(),
            *final(self) == (VkApp { model_matrix: final(self).model_matrix, ..*old(self) }),
            final(self).model_matrix@.len() == 4,
            final(self).model_matrix.wf(),
            final(self).model_matrix.spec_rows() == 4,
            forall|i: int, j: int| #![trigger final(self).model_matrix@[i][j]]
                0 <= i < 4 && 0 <= j < 4 ==> final(self).model_matrix@[i][j] == if i == j {
                    1i64
                } else {
                    0i64
                },
    {
        self.model_matrix = Matrix::unit(4);
    }

    /// Tears the renderer core down, in dependency order. The caller first
    /// waits for the device to go idle and performs the swapchain teardown
    /// half; this then consumes the core, destroying each pipeline's GPU
    /// pipeline and releasing its geometry handle — the returned buffer
    /// pairs are exactly the geometries whose last handle this released,
    /// each once — and afterwards destroying each slot's live module: the
    /// returned slot list holds exactly the slots that had one, in
    /// ascending order. The caller then frees those objects and the
    /// textures and pools, and joins the worker by closing its job channel.
    pub fn shutdown(self) -> (r: (Vec<(u64, u64)>, Vec<usize>))
        requires
            self.wf(),
            spec_release_ok(self.pipelines@, self.geometry_store@),
        ensures
            r.0@ == spec_release_geometries(
                self.pipelines@,
                self.geometry_store@,
                Seq::empty(),
            ).1,
            forall|j: int|
                0 <= j < r.1@.len() ==> (#[trigger] r.1@[j]) < self.slots@.len()
                    && self.slots@[r.1@[j] as int].has_module,
            forall|s: int|
                0 <= s < self.slots@.len() && (#[trigger] self.slots@[s]).has_module
                    ==> r.1@.contains(s as usize),
            forall|a: int, b: int| 0 <= a < b < r.1@.len() ==> r.1@[a] < r.1@[b],
    {
        let VkApp { mut slots, mut pipelines, mut geometry_store, .. } = self;
        let ghost pipes0 = pipelines@;
        let ghost store0 = geometry_store@;
        let mut freed: Vec<(u64, u64)> = Vec::new();
        while pipelines.len() > 0
            invariant
                spec_release_ok(pipelines@, geometry_store@),
                spec_release_geometries(pipelines@, geometry_store@, freed@)
                    == spec_release_geometries(pipes0, store0, Seq::empty()),
                forall|k: int|
                    0 <= k < pipelines@.len() && (#[trigger] pipelines@[k]).geometry is Some
                        ==> pipelines@[k].geometry.unwrap().spec_id() < geometry_store@.len(),
            decreases pipelines.len(),
        {
            let ghost pipes_prev = pipelines@;
            let ghost store_prev = geometry_store@;
            let ghost freed_prev = freed@;
            let p = pipelines.remove(0);
            proof {
                assert(pipes_prev.remove(0) =~= pipes_prev.drop_first());
            }
            let bufs = match &p.geometry {
                Some(g) => g.get(),
                None => None,
            };
            let destroy = p.cleanup(&mut geometry_store);
            if destroy {
                if let Some(b) = bufs {
                    freed.push((b.0, b.1));
                }
            }
            proof {
                assert(pipelines@ =~= pipes_prev.drop_first());
                assert(p == pipes_prev[0]);
                if p.geometry is Some && p.geometry.unwrap().spec_present() {
                    let g = p.geometry.unwrap();
                    let id = g.spec_id() as int;
                    assert(geometry_store@ == store_prev.update(
                        id,
                        (store_prev[id] - 1) as u64,
                    ));
                    if store_prev[id] == 1 {
                        assert(freed@ =~= freed_prev.push(
                            (g.spec_vertex_buffer(), g.spec_index_buffer()),
                        ));
                    } else {
                        assert(freed@ == freed_prev);
                    }
                } else {
                    assert(geometry_store@ == store_prev);
                    assert(freed@ == freed_prev);
                }
                assert(spec_release_geometries(pipes_prev, store_prev, freed_prev)
                    == spec_release_geometries(pipelines@, geometry_store@, freed@));
                assert(spec_release_ok(pipelines@, geometry_store@));
            }
        }
        let ghost slots0 = slots@;
        proof {
            assert(forall|t: int| 0 <= t < slots0.len() ==> (#[trigger] slots0[t]).wf());
        }
        let mut modules: Vec<usize> = Vec::new();
        let n = slots.len();
        let mut s: usize = 0;
        while s < n
            invariant
                s <= n,
                n == slots@.len(),
                slots@.len() == slots0.len(),
                forall|t: int| 0 <= t < slots0.len() ==> (#[trigger] slots0[t]).wf(),
                forall|t: int| s <= t < n ==> #[trigger] slots@[t] == slots0[t],
                forall|j: int|
                    0 <= j < modules@.len() ==> (#[trigger] modules@[j]) < s
                        && slots0[modules@[j] as int].has_module,
                forall|t: usize|
                    t < s && (#[trigger] slots0[t as int]).has_module ==> modules@.contains(t),
                forall|a: int, b: int| 0 <= a < b < modules@.len() ==> modules@[a] < modules@[b],
            decreases n - s,
        {
            proof {
                assert(slots@[s as int] == slots0[s as int]);
                assert(slots@[s as int].wf());
            }
            let destroyed = slots[s].cleanup();
            if destroyed {
                let ghost modules0 = modules@;
                modules.push(s);
                proof {
                    lemma_push_contains(modules0, s);
                }
            }
            s = s + 1;
        }
        (freed, modules)
    }

    /// Replaces the scene texture by a newly uploaded one; the previous
    /// handle is returned so the caller can destroy it after the device went
    /// idle. Command buffers must be re-recorded afterwards.
    pub fn load_new_texture(&mut self, texture: u64) -> (previous: u64)
        requires
            old(self).wf(),
            old(self).textures@.len() > 0,
        ensures
            final(self).wf(),
            *final(self) == (VkApp { textures: final(self).textures, ..*old(self) }),
            final(self).textures@ == old(self).textures@.update(0, texture),
            previous == old(self).textures@[0],
    {
        let previous = self.textures[0];
        self.textures.set(0, texture);
        previous
    }
}

/// Whether releasing the pipelines' geometry handles, in pipeline order,
/// never releases a geometry more often than its reference count: the
/// object graph is consistent, so the teardown frees nothing twice.
pub open spec fn spec_release_ok(pipelines: Seq<Pipeline>, store: Seq<u64>) -> bool
    decreases pipelines.len(),
{
    if pipelines.len() == 0 {
        true
    } else {
        let p = pipelines[0];
        if p.geometry is Some && p.geometry.unwrap().spec_present() {
            let g = p.geometry.unwrap();
            &&& g.spec_id() < store.len()
            &&& store[g.spec_id() as int] >= 1
            &&& spec_release_ok(
                pipelines.drop_first(),
                store.update(g.spec_id() as int, (store[g.spec_id() as int] - 1) as u64),
            )
        } else {
            spec_release_ok(pipelines.drop_first(), store)
        }
    }
}

/// The store counts and the freed buffer pairs after releasing the
/// pipelines' geometry handles in pipeline order: each release decrements
/// its geometry's count, and the release that takes a count to zero appends
/// that geometry's buffer pair — so each buffer pair is freed exactly once,
/// by the release of its last handle.
pub open spec fn spec_release_geometries(
    pipelines: Seq<Pipeline>,
    store: Seq<u64>,
    freed: Seq<(u64, u64)>,
) -> (Seq<u64>, Seq<(u64, u64)>)
    decreases pipelines.len(),
{
    if pipelines.len() == 0 {
        (store, freed)
    } else {
        let p = pipelines[0];
        if p.geometry is Some && p.geometry.unwrap().spec_present() {
            let g = p.geometry.unwrap();
            let id = g.spec_id() as int;
            let store1 = store.update(id, (store[id] - 1) as u64);
            let freed1 = if store[id] == 1 {
                freed.push((g.spec_vertex_buffer(), g.spec_index_buffer()))
            } else {
                freed
            };
            spec_release_geometries(pipelines.drop_first(), store1, freed1)
        } else {
            spec_release_geometries(pipelines.drop_first(), store, freed)
        }
    }
}

/// What the frame loop must do about the window size before drawing.
#[derive(Debug, Clone, Copy, PartialEq, Eq, Structural)]
pub enum ResizeDecision {
    Recreate,
    SkipMinimized,
    DrawNormally,
}

/// A pipeline after the per-frame module poll, given the slot store before
/// it: only a waiting pipeline is touched, and it becomes ready exactly when
/// both its slots had a live module or bytecode to load one from.
pub open spec fn spec_pipeline_after_poll(p: Pipeline, slots: Seq<ShaderSlot>) -> Pipeline {
    if p.waiting_for_shaders {
        p.spec_recreate(
            spec_poll(slots[p.vert_slot as int]).has_module,
            spec_poll(slots[p.frag_slot as int]).has_module,
        )
    } else {
        p
    }
}

/// Whether the per-frame poll turns waiting pipeline `p` into a ready one.
pub open spec fn spec_pipeline_rebuilt(p: Pipeline, slots: Seq<ShaderSlot>) -> bool {
    p.waiting_for_shaders && spec_poll(slots[p.vert_slot as int]).has_module && spec_poll(
        slots[p.frag_slot as int],
    ).has_module
}

/// Whichever way a frame touches a pipeline — the reload sweep, the module
/// poll, or a full rebuild against a new swapchain — the pipeline is left
/// ready with a built GPU pipeline or waiting for its shaders with none,
/// never partially constructed.
pub proof fn lemma_pipeline_never_partial(p: Pipeline, slots: Seq<ShaderSlot>, v: bool, f: bool)
    requires
        p.wf(),
    ensures
        spec_pipeline_after_reload(p, slots).wf(),
        spec_pipeline_after_poll(p, slots).wf(),
        p.spec_recreate(v, f).wf(),
{
}

} // verus!
