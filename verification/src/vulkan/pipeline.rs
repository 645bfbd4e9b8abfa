use vstd::prelude::*;

use crate::vulkan::geometry::{Geometry, GeometryStore};

verus! {

/// Which faces the rasterizer culls.
#[derive(Debug, Clone, Copy, PartialEq, Eq, Structural)]
pub enum CullMode {
    Disabled,
    Front,
    Back,
}

/// One step of recording a pipeline's draw into a command buffer.
#[derive(Debug, Clone, Copy, PartialEq, Eq, Structural)]
pub enum DrawStep {
    /// Bind the pipeline to the graphics bind point.
    BindPipeline,
    /// Bind the geometry's vertex buffer, at binding 0 and offset 0.
    BindVertexBuffer(u64),
    /// Bind the geometry's index buffer, at offset 0, with 32-bit indices.
    BindIndexBuffer(u64),
    /// Push the per-draw constants to the vertex stage, at offset 0.
    PushConstants,
    /// Bind the frame's descriptor sets, starting at set 0.
    BindDescriptorSets,
    /// Issue the indexed draw: index count and instance count.
    DrawIndexed(u32, u32),
}

/// One graphics pipeline: fixed-function state, two shader slots (referred to
/// by their indices in the slot store), an optional shared geometry and an
/// optional push-constant payload.
///
/// Its state machine has two states: waiting for shaders, or ready with a
/// built GPU pipeline. `recreate` moves between them depending on whether
/// both shader slots expose a live module.
pub struct Pipeline {
    pub active: bool,
    pub waiting_for_shaders: bool,
    pub has_pipeline: bool,
    pub cull_mode: CullMode,
    pub vert_slot: usize,
    pub frag_slot: usize,
    pub geometry: Option<Geometry>,
    pub has_push_constants: bool,
}

impl Pipeline {
    /// The GPU pipeline handle exists if and only if the pipeline is not
    /// waiting for its shaders.
    pub open spec fn wf(&self) -> bool {
        self.has_pipeline <==> !self.waiting_for_shaders
    }

    /// A new pipeline stores its configuration, starts active, and attempts
    /// `recreate` once immediately against the module availability of its
    /// two shader slots, as handed in: ready with a built GPU pipeline when
    /// both modules are live, waiting for its shaders otherwise.
    pub fn new(
        cull_mode: CullMode,
        vert_slot: usize,
        frag_slot: usize,
        geometry: Option<Geometry>,
        has_push_constants: bool,
        vert_live: bool,
        frag_live: bool,
    ) -> (p: Pipeline)
        ensures
            p.wf(),
            p.active,
            p.has_pipeline == (vert_live && frag_live),
            p.waiting_for_shaders == !(vert_live && frag_live),
            p.cull_mode == cull_mode,
            p.vert_slot == vert_slot,
            p.frag_slot == frag_slot,
            p.geometry == geometry,
            p.has_push_constants == has_push_constants,
    {
        let mut p = Pipeline {
            active: true,
            waiting_for_shaders: true,
            has_pipeline: false,
            cull_mode,
            vert_slot,
            frag_slot,
            geometry,
            has_push_constants,
        };
        p.recreate(vert_live, frag_live);
        p
    }

    /// The pipeline after `recreate` was polled with the given module
    /// availability of its two shader slots.
    pub open spec fn spec_recreate(self, vert_live: bool, frag_live: bool) -> Pipeline {
        Pipeline {
            has_pipeline: vert_live && frag_live,
            waiting_for_shaders: !(vert_live && frag_live),
            ..self
        }
    }

    /// Destroys any existing GPU pipeline and rebuilds it if both shader
    /// slots expose a live module; otherwise the pipeline stays waiting.
    /// Safe to call every frame as a polling check, and idempotent for fixed
    /// module availability.
    pub fn recreate(&mut self, vert_live: bool, frag_live: bool) -> (built: bool)
        ensures
            final(self).wf(),
            *final(self) == old(self).spec_recreate(vert_live, frag_live),
            built == (vert_live && frag_live),
    {
        self.has_pipeline = vert_live && frag_live;
        self.waiting_for_shaders = !(vert_live && frag_live);
        vert_live && frag_live
    }

    /// Reacts to reload requests on the pipeline's shader slots: when either
    /// slot is compiling, the GPU pipeline is destroyed and the pipeline
    /// waits for the new shaders. Returns whether a reload is under way.
    pub fn reload_shaders(&mut self, vert_compiling: bool, frag_compiling: bool) -> (reloading:
        bool)
        requires
            old(self).wf(),
        ensures
            final(self).wf(),
            reloading == (vert_compiling || frag_compiling),
            reloading ==> *final(self) == (Pipeline {
                has_pipeline: false,
                waiting_for_shaders: true,
                ..*old(self)
            }),
            !reloading ==> *final(self) == *old(self),
    {
        if vert_compiling || frag_compiling {
            self.has_pipeline = false;
            self.waiting_for_shaders = true;
            true
        } else {
            false
        }
    }

    /// Tears the GPU pipeline down; the pipeline must be rebuilt by
    /// `recreate` before it can draw again.
    pub fn cleanup_pip(&mut self)
        ensures
            final(self).wf(),
            *final(self) == (Pipeline {
                has_pipeline: false,
                waiting_for_shaders: true,
                ..*old(self)
            }),
    {
        self.has_pipeline = false;
        self.waiting_for_shaders = true;
    }

    /// Whether a built GPU pipeline currently exists.
    pub fn is_built(&self) -> (r: bool)
        ensures
            r == self.has_pipeline,
    {
        self.has_pipeline
    }

    /// The recording a ready pipeline makes into a command buffer, in
    /// order: bind the pipeline; with a geometry, bind its vertex and index
    /// buffers; with push constants, push them to the vertex stage; bind
    /// the descriptor sets; draw one instance of the geometry's indices (or
    /// of zero indices without a geometry). Valid only in the ready state;
    /// the frame engine filters on `active` and readiness before recording.
    pub open spec fn spec_bind_steps(self) -> Seq<DrawStep> {
        seq![DrawStep::BindPipeline] + (if self.geometry is Some {
            seq![
                DrawStep::BindVertexBuffer(self.geometry.unwrap().spec_vertex_buffer()),
                DrawStep::BindIndexBuffer(self.geometry.unwrap().spec_index_buffer()),
            ]
        } else {
            Seq::empty()
        }) + (if self.has_push_constants {
            seq![DrawStep::PushConstants]
        } else {
            Seq::empty()
        }) + seq![
            DrawStep::BindDescriptorSets,
            DrawStep::DrawIndexed(
                if self.geometry is Some {
                    self.geometry.unwrap().spec_index_count() as u32
                } else {
                    0u32
                },
                1u32,
            ),
        ]
    }

    /// Records the pipeline's draw: exactly the steps of `spec_bind_steps`,
    /// in that order.
    pub fn bind_to_cmd_buffer(&self) -> (steps: Vec<DrawStep>)
        requires
            self.has_pipeline,
            self.geometry is Some ==> self.geometry.unwrap().spec_present(),
        ensures
            steps@ == self.spec_bind_steps(),
    {
        let mut steps: Vec<DrawStep> = Vec::new();
        steps.push(DrawStep::BindPipeline);
        let index_count: u32 = match &self.geometry {
            Some(g) => match g.get() {
                Some(bufs) => {
                    steps.push(DrawStep::BindVertexBuffer(bufs.0));
                    steps.push(DrawStep::BindIndexBuffer(bufs.1));
                    bufs.2
                },
                None => 0,
            },
            None => 0,
        };
        if self.has_push_constants {
            steps.push(DrawStep::PushConstants);
        }
        steps.push(DrawStep::BindDescriptorSets);
        steps.push(DrawStep::DrawIndexed(index_count, 1));
        proof {
            assert(steps@ =~= self.spec_bind_steps());
        }
        steps
    }

    /// Releases the pipeline's resources: the GPU pipeline must already be
    /// torn down, and the geometry handle, if any, is released against the
    /// store. Returns whether the caller must destroy the geometry buffers.
    pub fn cleanup(self, store: &mut GeometryStore) -> (destroy_geometry: bool)
        requires
            self.geometry is Some ==> self.geometry.unwrap().spec_id() < old(store)@.len(),
            self.geometry is Some && self.geometry.unwrap().spec_present() ==> old(store)@[self.geometry.unwrap().spec_id() as int] >= 1,
        ensures
            destroy_geometry <==> self.geometry is Some && self.geometry.unwrap().spec_present()
                && old(store)@[self.geometry.unwrap().spec_id() as int] == 1,
            self.geometry is Some && self.geometry.unwrap().spec_present() ==> final(store)@
                == old(store)@.update(
                self.geometry.unwrap().spec_id() as int,
                (old(store)@[self.geometry.unwrap().spec_id() as int] - 1) as u64,
            ),
            !(self.geometry is Some && self.geometry.unwrap().spec_present()) ==> final(store)@
                == old(store)@,
    {
        match self.geometry {
            Some(g) => g.cleanup(store),
            None => false,
        }
    }
}

/// `recreate` is idempotent: polling it again with the same module
/// availability leaves the pipeline unchanged.
pub proof fn lemma_recreate_idempotent(p: Pipeline, vert_live: bool, frag_live: bool)
    ensures
        p.spec_recreate(vert_live, frag_live).spec_recreate(vert_live, frag_live)
            == p.spec_recreate(vert_live, frag_live),
{
}

/// However `recreate` is polled, the pipeline ends up well formed: ready with
/// a built pipeline exactly when both modules were live, and otherwise
/// waiting with no GPU pipeline — never partially constructed.
pub proof fn lemma_recreate_wf(p: Pipeline, vert_live: bool, frag_live: bool)
    ensures
        p.spec_recreate(vert_live, frag_live).wf(),
        p.spec_recreate(vert_live, frag_live).waiting_for_shaders <==> !(vert_live && frag_live),
{
}

} // verus!
