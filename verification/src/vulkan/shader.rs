use vstd::prelude::*;
use vstd::string::StringSliceAdditionalSpecFns;

verus! {

/// The pipeline stage a shader is compiled for.
#[derive(Debug, Clone, Copy, PartialEq, Eq, Structural)]
pub enum ShaderStage {
    Vertex,
    Fragment,
}

/// The compilation status of a shader slot.
///
/// `Empty`: never compiled and no compile in flight. `Compiling`: exactly one
/// compile job is in flight. `Ready`: compiled at least once; the bytecode or
/// module may be stale while a newer source version waits for a reload.
#[derive(Debug, Clone, Copy, PartialEq, Eq, Structural)]
pub enum SlotState {
    Empty,
    Compiling,
    Ready,
}

/// What a reload request decided.
#[derive(Debug, Clone, PartialEq, Eq, Structural)]
pub enum ReloadOutcome {
    /// A compile is already in flight; nothing was enqueued.
    InFlight,
    /// The source has not changed and the reload was not forced.
    NoChange,
    /// One compile job was enqueued; the payload says whether a live module
    /// had to be destroyed first.
    Enqueued(bool),
}

/// What polling for a live module decided.
pub enum ModulePoll {
    /// A GPU module is already live.
    Live,
    /// Fresh bytecode was handed out; the caller must create the GPU module
    /// from it on the render thread.
    Load(Vec<u32>),
    /// Neither a live module nor bytecode is available.
    Missing,
}

/// A hot-reloadable compilation unit: a source locator, the latest compiled
/// bytecode, whether a live GPU module exists, and a small state machine that
/// admits at most one compile job in flight.
pub struct ShaderSlot {
    pub stage: ShaderStage,
    pub path: Option<String>,
    pub bytecode: Option<Vec<u32>>,
    pub has_module: bool,
    pub state: SlotState,
    pub dirty: bool,
    pub last_error: Option<String>,
}

impl ShaderSlot {
    /// A live module exists only after it consumed the matching bytecode, and
    /// a slot that was never compiled is exactly the `Empty` one.
    pub open spec fn wf(&self) -> bool {
        &&& self.has_module ==> self.bytecode is None
        &&& self.state == SlotState::Empty ==> !self.has_module && self.bytecode is None
    }

    /// The slot was compiled at least once.
    pub open spec fn spec_loaded(&self) -> bool {
        self.has_module || self.bytecode is Some
    }

    /// A fresh slot for `stage`: never compiled, nothing in flight.
    pub fn new(stage: ShaderStage) -> (s: ShaderSlot)
        ensures
            s.wf(),
            s.stage == stage,
            s.path is None,
            s.bytecode is None,
            !s.has_module,
            s.state == SlotState::Empty,
            !s.dirty,
            s.last_error is None,
    {
        ShaderSlot {
            stage,
            path: None,
            bytecode: None,
            has_module: false,
            state: SlotState::Empty,
            dirty: false,
            last_error: None,
        }
    }

    /// Attaches the path of the source file the slot reloads from.
    pub fn with_path(self, path: String) -> (s: ShaderSlot)
        ensures
            s == (ShaderSlot { path: Some(path), ..self }),
    {
        ShaderSlot { path: Some(path), ..self }
    }

    /// Seeds the slot with precompiled bytecode, as used by the always
    /// present passes whose shaders are embedded at build time.
    pub fn with_bytes(self, words: Vec<u32>) -> (s: ShaderSlot)
        requires
            !self.has_module,
        ensures
            s.wf(),
            s == (ShaderSlot { bytecode: Some(words), state: SlotState::Ready, ..self }),
    {
        ShaderSlot { bytecode: Some(words), state: SlotState::Ready, ..self }
    }

    /// The source path, if the slot has one.
    pub fn get_path(&self) -> (r: Option<&String>)
        ensures
            r is Some <==> self.path is Some,
            r is Some ==> r.unwrap()@ == self.path.unwrap()@,
    {
        self.path.as_ref()
    }

    /// Whether the watcher flagged the source as changed since the last
    /// compile started.
    pub fn code_has_changed(&self) -> (r: bool)
        ensures
            r == self.dirty,
    {
        self.dirty
    }

    /// Flags the source as changed; consumed by the next reload request.
    pub fn mark_changed(&mut self)
        ensures
            *final(self) == (ShaderSlot { dirty: true, ..*old(self) }),
    {
        self.dirty = true;
    }

    /// The slot after a reload request, and what the request decided.
    pub open spec fn spec_request_reload(self, forced: bool) -> (ShaderSlot, ReloadOutcome) {
        if self.state == SlotState::Compiling {
            (self, ReloadOutcome::InFlight)
        } else if !self.dirty && !forced {
            (self, ReloadOutcome::NoChange)
        } else {
            (
                ShaderSlot {
                    dirty: false,
                    has_module: false,
                    state: SlotState::Compiling,
                    ..self
                },
                ReloadOutcome::Enqueued(self.has_module),
            )
        }
    }

    /// Requests a recompile of the slot's source.
    ///
    /// While a compile is in flight this is a no-op: the dirty bit stays set
    /// so that the change is picked up once the current job completes. A
    /// clean, unforced request changes nothing. Otherwise the dirty bit is
    /// cleared (the job starts now), the live module is destroyed, and one
    /// compile job is enqueued.
    pub fn request_reload(&mut self, forced: bool) -> (r: ReloadOutcome)
        requires
            old(self).wf(),
        ensures
            final(self).wf(),
            (*final(self), r) == old(self).spec_request_reload(forced),
            r is Enqueued ==> final(self).state == SlotState::Compiling
                && !final(self).has_module && !final(self).dirty,
    {
        if matches!(self.state, SlotState::Compiling) {
            return ReloadOutcome::InFlight;
        }
        if !self.dirty && !forced {
            return ReloadOutcome::NoChange;
        }
        let destroyed = self.has_module;
        self.dirty = false;
        self.has_module = false;
        self.state = SlotState::Compiling;
        ReloadOutcome::Enqueued(destroyed)
    }

    /// Applies the worker's compile result.
    ///
    /// Success stores the new bytecode; the GPU module is created lazily on
    /// the render thread. Failure records the error and leaves the previous
    /// bytecode and module, if any, untouched: the slot falls back to `Ready`
    /// (stale but valid) or `Empty` (never compiled).
    pub fn finish_compile(&mut self, result: Result<Vec<u32>, String>)
        requires
            old(self).wf(),
            old(self).state == SlotState::Compiling,
        ensures
            final(self).wf(),
            result is Ok ==> *final(self) == (ShaderSlot {
                bytecode: Some(result.unwrap()),
                has_module: false,
                state: SlotState::Ready,
                last_error: None,
                ..*old(self)
            }),
            result is Err ==> *final(self) == (ShaderSlot {
                state: if old(self).spec_loaded() {
                    SlotState::Ready
                } else {
                    SlotState::Empty
                },
                last_error: Some(result.unwrap_err()),
                ..*old(self)
            }),
    {
        match result {
            Ok(words) => {
                self.bytecode = Some(words);
                self.has_module = false;
                self.state = SlotState::Ready;
                self.last_error = None;
            },
            Err(message) => {
                self.state = if self.has_module || self.bytecode.is_some() {
                    SlotState::Ready
                } else {
                    SlotState::Empty
                };
                self.last_error = Some(message);
            },
        }
    }

    /// Polls for a usable module: either one is live already, or fresh
    /// bytecode is handed out so the caller can create the GPU module, or
    /// nothing is available yet.
    pub fn poll_module(&mut self) -> (r: ModulePoll)
        requires
            old(self).wf(),
        ensures
            final(self).wf(),
            r is Live ==> *final(self) == *old(self) && old(self).has_module,
            r is Load ==> old(self).bytecode is Some && !old(self).has_module && *final(self)
                == (ShaderSlot { bytecode: None, has_module: true, ..*old(self) }),
            r is Load ==> r->Load_0@ == old(self).bytecode.unwrap()@,
            r is Missing ==> *final(self) == *old(self) && !old(self).has_module && old(
                self,
            ).bytecode is None,
            final(self).has_module == old(self).spec_loaded(),
    {
        if self.has_module {
            return ModulePoll::Live;
        }
        let code = self.bytecode.take();
        match code {
            Some(words) => {
                self.has_module = true;
                ModulePoll::Load(words)
            },
            None => ModulePoll::Missing,
        }
    }

    /// Whether a live GPU module exists right now.
    pub fn module_live(&self) -> (r: bool)
        ensures
            r == self.has_module,
    {
        self.has_module
    }

    /// Destroys the live module, if any; returns whether one was destroyed.
    pub fn cleanup(&mut self) -> (destroyed: bool)
        requires
            old(self).wf(),
        ensures
            final(self).wf(),
            destroyed == old(self).has_module,
            *final(self) == (ShaderSlot {
                has_module: false,
                state: old(self).state,
                ..*old(self)
            }),
    {
        let had = self.has_module;
        self.has_module = false;
        had
    }
}

/// Marks exactly the slots listed in `changed` as dirty; every other slot is
/// left untouched. The watcher maps file system events to slot indices and
/// only ever flags dirtiness; compilation is triggered later by reload
/// requests that consume the flag.
pub fn mark_slots_changed(slots: &mut Vec<ShaderSlot>, changed: &Vec<usize>)
    ensures
        final(slots)@.len() == old(slots)@.len(),
        forall|i: int|
            0 <= i < old(slots)@.len() && changed@.contains(i as usize) ==> final(slots)@[i]
                == (ShaderSlot { dirty: true, ..old(slots)@[i] }),
        forall|i: int|
            0 <= i < old(slots)@.len() && !changed@.contains(i as usize) ==> final(slots)@[i]
                == old(slots)@[i],
{
    let n = changed.len();
    let mut k: usize = 0;
    while k < n
        invariant
            k <= n,
            n == changed@.len(),
            slots@.len() == old(slots)@.len(),
            forall|i: int|
                0 <= i < old(slots)@.len() && changed@.subrange(0, k as int).contains(i as usize)
                    ==> slots@[i] == (ShaderSlot { dirty: true, ..old(slots)@[i] }),
            forall|i: int|
                0 <= i < old(slots)@.len() && !changed@.subrange(0, k as int).contains(i as usize)
                    ==> slots@[i] == old(slots)@[i],
        decreases n - k,
    {
        let idx = changed[k];
        let ghost pre = changed@.subrange(0, k as int);
        let ghost post = changed@.subrange(0, k + 1);
        if idx < slots.len() {
            slots[idx].mark_changed();
            proof {
                assert(slots@[idx as int] == (ShaderSlot { dirty: true, ..old(slots)@[idx as int] }));
            }
        }
        proof {
            assert forall|x: usize| #[trigger] post.contains(x) implies pre.contains(x) || x
                == changed@[k as int] by {
                let j = choose|j: int| 0 <= j < post.len() && post[j] == x;
                if j < k {
                    assert(pre[j] == x);
                }
            }
            assert forall|x: usize| #[trigger] pre.contains(x) implies post.contains(x) by {
                let j = choose|j: int| 0 <= j < pre.len() && pre[j] == x;
                assert(post[j] == x);
            }
            assert(post.contains(changed@[k as int])) by {
                assert(post[k as int] == changed@[k as int]);
            }
        }
        k = k + 1;
    }
    proof {
        assert(changed@.subrange(0, n as int) =~= changed@);
    }
}

/// A source text the compiler can take: plain ASCII with no NUL byte.
/// glslang receives the source as a C string, so a NUL must not reach it;
/// and when a parse error echoes a byte above 127 into glslang's error log,
/// the log stops being text that can be handed back, so such bytes must not
/// reach it either.
pub open spec fn source_is_clean(source: Seq<u8>) -> bool {
    forall|i: int| 0 <= i < source.len() ==> 0 < #[trigger] source[i] < 0x80
}

/// Whether the shader compiler front end accepts a source text for a vertex
/// (`true`) or fragment (`false`) stage.
pub uninterp spec fn glsl_accepts(vertex_stage: bool, source: Seq<u8>) -> bool;

/// The SPIR-V words the shader compiler front end produces for a vertex
/// (`true`) or fragment (`false`) stage and a source text it accepts.
pub uninterp spec fn spirv_words(vertex_stage: bool, source: Seq<u8>) -> Seq<u32>;

/// Relies on glslang's compiler front end (`Compiler::create_shader` and
/// `Shader::compile` with default options): whether a source compiles, and
/// the SPIR-V produced when it does, are functions of the stage and the
/// source bytes alone. The source must be plain ASCII without NUL: glslang
/// takes it as a C string, so converting one with an interior NUL does not
/// return; and on a parse error glslang echoes the offending byte into its
/// error log, so a byte above 127 makes the log invalid text and decoding
/// it does not return either. Also relies on `Compiler::acquire`: glslang's
/// one-time process initialization always succeeds, so the process-global
/// compiler instance is available on every call.
#[verifier::external_body]
fn compile_glsl(vertex_stage: bool, source: &str) -> (r: Result<Vec<u32>, String>)
    requires
        source_is_clean(source.spec_bytes()),
    ensures
        r is Ok <==> glsl_accepts(vertex_stage, source.spec_bytes()),
        r is Ok ==> r.unwrap()@ == spirv_words(vertex_stage, source.spec_bytes()),
{
    let stage = if vertex_stage {
        glslang::ShaderStage::Vertex
    } else {
        glslang::ShaderStage::Fragment
    };
    let compiler = match glslang::Compiler::acquire() {
        Some(compiler) => compiler,
        None => return Err("failed to acquire the shader compiler".to_string()),
    };
    let src = glslang::ShaderSource::from(source);
    let opts = glslang::CompilerOptions::default();
    let input = glslang::ShaderInput::new::<(&str, Option<&str>)>(&src, stage, &opts, None, None)
        .map_err(|e| e.to_string())?;
    let shader = compiler.create_shader(input).map_err(|e| e.to_string())?;
    shader.compile().map_err(|e| e.to_string())
}

/// Compiles shader source text to SPIR-V for the given stage. The worker
/// thread runs this for each enqueued job; the result is applied to the
/// job's slot on the render thread. Succeeds exactly when the source is
/// plain ASCII without NUL and the compiler accepts it; a source whose only
/// bytes outside that range sit in comments, which the compiler itself
/// would take, is refused here as well, since the compiler cannot echo such
/// bytes safely into its error log.
pub fn compile_code(vertex_stage: bool, source: &str) -> (r: Result<Vec<u32>, String>)
    ensures
        r is Ok <==> source_is_clean(source.spec_bytes()) && glsl_accepts(
            vertex_stage,
            source.spec_bytes(),
        ),
        r is Ok ==> r.unwrap()@ == spirv_words(vertex_stage, source.spec_bytes()),
{
    let bytes = source.as_bytes();
    let n = bytes.len();
    let mut k: usize = 0;
    while k < n
        invariant
            k <= n,
            n == source.spec_bytes().len(),
            bytes@ == source.spec_bytes(),
            forall|i: int| 0 <= i < k ==> 0 < #[trigger] source.spec_bytes()[i] < 0x80,
        decreases n - k,
    {
        if bytes[k] == 0 || bytes[k] >= 0x80 {
            return Err("shader source holds a NUL or non-ASCII byte".to_string());
        }
        k = k + 1;
    }
    compile_glsl(vertex_stage, source)
}

/// Runs one compile job on the slot whose job it is: compiles the source
/// text and applies the outcome. It succeeds exactly when the compiler
/// accepts the NUL-free source; the slot then holds exactly the compiler's
/// bytecode for this stage and source and is ready. On failure the error is
/// recorded and the previous bytecode and module, if any, stay untouched.
pub fn compile_slot_source(slot: &mut ShaderSlot, source: &str) -> (ok: bool)
    requires
        old(slot).wf(),
        old(slot).state == SlotState::Compiling,
    ensures
        final(slot).wf(),
        final(slot).stage == old(slot).stage,
        final(slot).path == old(slot).path,
        final(slot).dirty == old(slot).dirty,
        ok == (source_is_clean(source.spec_bytes()) && glsl_accepts(
            old(slot).stage == ShaderStage::Vertex,
            source.spec_bytes(),
        )),
        ok ==> *final(slot) == (ShaderSlot {
            bytecode: final(slot).bytecode,
            has_module: false,
            state: SlotState::Ready,
            last_error: None,
            ..*old(slot)
        }),
        ok ==> final(slot).bytecode is Some && final(slot).bytecode.unwrap()@ == spirv_words(
            old(slot).stage == ShaderStage::Vertex,
            source.spec_bytes(),
        ),
        !ok ==> *final(slot) == (ShaderSlot {
            state: if old(slot).spec_loaded() {
                SlotState::Ready
            } else {
                SlotState::Empty
            },
            last_error: final(slot).last_error,
            ..*old(slot)
        }) && final(slot).last_error is Some,
{
    let vertex_stage = matches!(slot.stage, ShaderStage::Vertex);
    match compile_code(vertex_stage, source) {
        Ok(words) => {
            slot.finish_compile(Ok(words));
            true
        },
        Err(message) => {
            slot.finish_compile(Err(message));
            false
        },
    }
}

/// A reload requested while a compile is in flight enqueues nothing and
/// changes nothing: two requests in rapid succession enqueue at most one
/// additional job. After a request that enqueued a job, any further request
/// finds the slot compiling and is a no-op.
pub proof fn lemma_reload_in_flight_no_op(s: ShaderSlot, forced: bool, forced2: bool)
    requires
        s.spec_request_reload(forced).1 is Enqueued,
    ensures
        s.spec_request_reload(forced).0.spec_request_reload(forced2) == (
            s.spec_request_reload(forced).0,
            ReloadOutcome::InFlight,
        ),
{
}

} // verus!
