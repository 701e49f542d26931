//! A single compiled shader stage.
//!
//! Construction validates that the source text can become a C-style string
//! (no interior NUL byte) and emits the commands that create the shader
//! object, submit the source and compile it. Compile diagnostics are only
//! reported by the executor, never propagated — a design choice carried
//! through the whole pipeline; only the source-conversion failure is typed.

use vstd::prelude::*;
use vstd::string::StringSliceAdditionalSpecFns;

verus! {

use crate::commands::GlCmd;
use crate::commands::HandleArena;
use crate::commands::ShaderStage;
use crate::commands::extends;

/// The one typed failure of shader construction: the source text holds a
/// NUL byte and cannot become a C-style string.
#[derive(Clone, Copy, PartialEq, Eq, Structural, Debug)]
pub enum ShaderError {
    /// The byte offset of the first NUL in the UTF-8 encoding of the source.
    InteriorNul { position: usize },
}

/// A stage-typed shader object, identified by a virtual handle.
pub struct Shader {
    id: u32,
    stage: ShaderStage,
}

impl Shader {
    pub closed spec fn id_spec(&self) -> u32 {
        self.id
    }

    pub closed spec fn stage_spec(&self) -> ShaderStage {
        self.stage
    }

    /// The virtual handle of the underlying shader object.
    pub fn id(&self) -> (r: u32)
        ensures
            r == self.id_spec(),
    {
        self.id
    }

    /// Compiles a vertex shader from source text.
    pub fn from_vertex_src(source: &str, arena: &mut HandleArena, log: &mut Vec<GlCmd>) -> (r:
        Result<Shader, ShaderError>)
        requires
            old(arena).wf(),
            old(arena).next_id() < u32::MAX,
        ensures
            final(arena).wf(),
            shader_ensures(
                r,
                ShaderStage::Vertex,
                source@,
                source.spec_bytes(),
                *old(arena),
                *final(arena),
                old(log)@,
                final(log)@,
            ),
    {
        from_src(source, ShaderStage::Vertex, arena, log)
    }

    /// Compiles a fragment shader from source text.
    pub fn from_fragment_src(source: &str, arena: &mut HandleArena, log: &mut Vec<GlCmd>) -> (r:
        Result<Shader, ShaderError>)
        requires
            old(arena).wf(),
            old(arena).next_id() < u32::MAX,
        ensures
            final(arena).wf(),
            shader_ensures(
                r,
                ShaderStage::Fragment,
                source@,
                source.spec_bytes(),
                *old(arena),
                *final(arena),
                old(log)@,
                final(log)@,
            ),
    {
        from_src(source, ShaderStage::Fragment, arena, log)
    }

    /// Emits the command that releases the underlying shader object.
    pub fn release(self, log: &mut Vec<GlCmd>)
        ensures
            final(log)@ == old(log)@.push(GlCmd::DeleteShader { shader: self.id_spec() }),
    {
        log.push(GlCmd::DeleteShader { shader: self.id });
    }
}

/// What shader construction guarantees: success exactly when the source
/// holds no NUL byte; on success, a fresh handle and the four commands that
/// create, source, compile and status-check the shader; on failure, the
/// offset of the first NUL and nothing emitted or allocated.
pub open spec fn shader_ensures(
    r: Result<Shader, ShaderError>,
    stage: ShaderStage,
    source: Seq<char>,
    source_bytes: Seq<u8>,
    arena_old: HandleArena,
    arena_new: HandleArena,
    log_old: Seq<GlCmd>,
    log_new: Seq<GlCmd>,
) -> bool {
    &&& (r is Ok <==> !source_bytes.contains(0u8))
    &&& (r matches Ok(shader) ==> {
        &&& shader.id_spec() == arena_old.next_id()
        &&& shader.stage_spec() == stage
        &&& arena_new.next_id() == arena_old.next_id() + 1
        &&& extends(log_old, log_new)
        &&& log_new.len() == log_old.len() + 4
        &&& compile_cmds_at(shader.id_spec(), stage, source, log_new, log_old.len() as int)
    })
    &&& (r matches Err(e) ==> {
        &&& e matches ShaderError::InteriorNul { position } && position < source_bytes.len()
            && source_bytes[position as int] == 0u8 && (forall|j: int|
            0 <= j < position ==> source_bytes[j] != 0u8)
        &&& arena_new == arena_old
        &&& log_new == log_old
    })
}

/// `log` holds, starting at `at`, the four commands that compile shader
/// `id` from `source`.
pub open spec fn compile_cmds_at(
    id: u32,
    stage: ShaderStage,
    source: Seq<char>,
    log: Seq<GlCmd>,
    at: int,
) -> bool {
    &&& at >= 0
    &&& log.len() >= at + 4
    &&& log[at] == (GlCmd::CreateShader { shader: id, stage })
    &&& (log[at + 1] matches GlCmd::ShaderSource { shader: sid, source: src } && sid == id && src@
        == source)
    &&& log[at + 2] == (GlCmd::CompileShader { shader: id })
    &&& log[at + 3] == (GlCmd::QueryCompileStatus { shader: id })
}

/// Compile commands stay where they are when the log only grows.
pub proof fn lemma_compile_cmds_extend(
    id: u32,
    stage: ShaderStage,
    source: Seq<char>,
    a: Seq<GlCmd>,
    b: Seq<GlCmd>,
    at: int,
)
    requires
        compile_cmds_at(id, stage, source, a, at),
        extends(a, b),
    ensures
        compile_cmds_at(id, stage, source, b, at),
{
    crate::commands::lemma_extends_index(a, b);
}

/// Compiles one shader stage: validates the source, allocates a handle and
/// emits the create/source/compile/status commands.
fn from_src(source: &str, stage: ShaderStage, arena: &mut HandleArena, log: &mut Vec<GlCmd>) -> (r:
    Result<Shader, ShaderError>)
    requires
        old(arena).wf(),
        old(arena).next_id() < u32::MAX,
    ensures
        final(arena).wf(),
        shader_ensures(
            r,
            stage,
            source@,
            source.spec_bytes(),
            *old(arena),
            *final(arena),
            old(log)@,
            final(log)@,
        ),
{
    let bytes = source.as_bytes();
    let mut i: usize = 0;
    while i < bytes.len()
        invariant
            i <= bytes@.len(),
            bytes@ == source.spec_bytes(),
            forall|j: int| 0 <= j < i ==> bytes@[j] != 0u8,
            *arena == *old(arena),
            old(arena).wf(),
            log@ == old(log)@,
        decreases bytes@.len() - i,
    {
        if bytes[i] == 0u8 {
            return Err(ShaderError::InteriorNul { position: i });
        }
        i = i + 1;
    }
    assert(!source.spec_bytes().contains(0u8)) by {
        if source.spec_bytes().contains(0u8) {
            let k = choose|k: int|
                0 <= k < source.spec_bytes().len() && source.spec_bytes()[k] == 0u8;
        }
    }
    let id = arena.fresh();
    let ghost log0 = log@;
    log.push(GlCmd::CreateShader { shader: id, stage });
    log.push(GlCmd::ShaderSource { shader: id, source: source.to_owned() });
    log.push(GlCmd::CompileShader { shader: id });
    log.push(GlCmd::QueryCompileStatus { shader: id });
    assert(extends(log0, log@)) by {
        assert(log0 =~= log@.subrange(0, log0.len() as int));
    }
    Ok(Shader { id, stage })
}

} // verus!
