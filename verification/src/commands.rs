//! The graphics-API command layer.
//!
//! The library never calls the graphics API itself: every operation appends
//! the commands it must issue to a log, and an unverified executor replays
//! the log against the real API. Resource handles are virtual: a
//! [`HandleArena`] hands out fresh identifiers, and the executor maps each
//! identifier to the handle the graphics API actually returned. The command
//! log doubles as a countable record of the calls an operation performs.

use vstd::prelude::*;

verus! {

/// The stage a shader object is compiled for.
#[derive(Clone, Copy, PartialEq, Eq, Structural, Debug)]
pub enum ShaderStage {
    Vertex,
    Fragment,
}

/// The binding target of a buffer object.
#[derive(Clone, Copy, PartialEq, Eq, Structural, Debug)]
pub enum BufferTarget {
    Array,
    ElementArray,
}

/// A 2D-texture sampling parameter.
#[derive(Clone, Copy, PartialEq, Eq, Structural, Debug)]
pub enum TexParamName {
    WrapS,
    WrapT,
    MinFilter,
    MagFilter,
}

/// The value assigned to a sampling parameter.
#[derive(Clone, Copy, PartialEq, Eq, Structural, Debug)]
pub enum TexParamValue {
    Repeat,
    Linear,
}

/// One graphics-API call, as data. Handles are virtual identifiers from a
/// [`HandleArena`]; the identifier `0` stands for "no object" in bind
/// commands. Scalars destined for float uniforms or vertex buffers are
/// IEEE-754 single-precision bit patterns.
#[derive(Debug)]
pub enum GlCmd {
    CreateShader { shader: u32, stage: ShaderStage },
    ShaderSource { shader: u32, source: String },
    CompileShader { shader: u32 },
    /// Fetch the compile status and log of a shader and report it; compile
    /// diagnostics are logged, never propagated.
    QueryCompileStatus { shader: u32 },
    DeleteShader { shader: u32 },
    CreateProgram { program: u32 },
    AttachShader { program: u32, shader: u32 },
    LinkProgram { program: u32 },
    DetachShader { program: u32, shader: u32 },
    DeleteProgram { program: u32 },
    UseProgram { program: u32 },
    /// Resolve `name` in `program` and upload a float; an unresolved name is
    /// a fatal error at execution time.
    UniformFloat { program: u32, name: String, bits: u32 },
    UniformInt { program: u32, name: String, value: i32 },
    UniformMatrix { program: u32, name: String, entries: Vec<u32> },
    GenVertexArray { vao: u32 },
    GenBuffer { buffer: u32 },
    BindVertexArray { vao: u32 },
    BindBuffer { target: BufferTarget, buffer: u32 },
    /// Upload a vertex buffer of single-precision floats, given as bits.
    BufferFloatData { target: BufferTarget, bits: Vec<u32> },
    /// Upload an index buffer of 32-bit integers.
    BufferIntData { target: BufferTarget, data: Vec<i32> },
    EnableVertexAttribArray { index: u32 },
    VertexAttribPointer { index: u32, components: i32, stride_bytes: i32, offset_bytes: usize },
    GenTexture { texture: u32 },
    ActiveTexture { unit: u32 },
    BindTexture { texture: u32 },
    TexParameter { name: TexParamName, value: TexParamValue },
    /// Upload decoded pixel data; `channels` selects the pixel format (3 for
    /// RGB, 4 for RGBA).
    TexImage2D { width: u32, height: u32, channels: u32, pixels: Vec<u8> },
    GenerateMipmap,
    /// An indexed triangle-list draw over `count` indices.
    DrawElements { count: i32 },
}

/// How many indexed draws a command sequence issues.
pub open spec fn draw_count(s: Seq<GlCmd>) -> nat
    decreases s.len(),
{
    if s.len() == 0 {
        0
    } else {
        draw_count(s.drop_last()) + (if s.last() is DrawElements {
            1nat
        } else {
            0nat
        })
    }
}

/// How many `AttachShader` commands a sequence holds.
pub open spec fn attach_count(s: Seq<GlCmd>) -> nat
    decreases s.len(),
{
    if s.len() == 0 {
        0
    } else {
        attach_count(s.drop_last()) + (if s.last() is AttachShader {
            1nat
        } else {
            0nat
        })
    }
}

/// How many `DetachShader` commands a sequence holds.
pub open spec fn detach_count(s: Seq<GlCmd>) -> nat
    decreases s.len(),
{
    if s.len() == 0 {
        0
    } else {
        detach_count(s.drop_last()) + (if s.last() is DetachShader {
            1nat
        } else {
            0nat
        })
    }
}

/// Counts distribute over concatenation.
pub proof fn lemma_counts_add(a: Seq<GlCmd>, b: Seq<GlCmd>)
    ensures
        draw_count(a + b) == draw_count(a) + draw_count(b),
        attach_count(a + b) == attach_count(a) + attach_count(b),
        detach_count(a + b) == detach_count(a) + detach_count(b),
    decreases b.len(),
{
    if b.len() == 0 {
        assert(a + b =~= a);
    } else {
        lemma_counts_add(a, b.drop_last());
        assert((a + b).drop_last() =~= a + b.drop_last());
        assert((a + b).last() == b.last());
    }
}

/// A sequence without draws counts zero, and the other way round.
pub proof fn lemma_no_draws(s: Seq<GlCmd>)
    ensures
        draw_count(s) == 0 <==> (forall|i: int| 0 <= i < s.len() ==> !((#[trigger] s[i]) is DrawElements)),
    decreases s.len(),
{
    if s.len() > 0 {
        lemma_no_draws(s.drop_last());
        assert(forall|i: int|
            0 <= i < s.len() - 1 ==> s.drop_last()[i] == (#[trigger] s[i]));
        assert(s.last() == s[s.len() - 1]);
    }
}

/// Indices below the prefix keep their commands when a log only grows.
pub proof fn lemma_extends_index(a: Seq<GlCmd>, b: Seq<GlCmd>)
    requires
        extends(a, b),
    ensures
        forall|p: int| 0 <= p < a.len() ==> a[p] == (#[trigger] b[p]),
{
    assert forall|p: int| 0 <= p < a.len() implies a[p] == (#[trigger] b[p]) by {
        assert(b.subrange(0, a.len() as int)[p] == b[p]);
    }
}

/// Growing a log twice grows it once.
pub proof fn lemma_extends_trans(a: Seq<GlCmd>, b: Seq<GlCmd>, c: Seq<GlCmd>)
    requires
        extends(a, b),
        extends(b, c),
    ensures
        extends(a, c),
{
    lemma_extends_index(a, b);
    lemma_extends_index(b, c);
    assert(a =~= c.subrange(0, a.len() as int)) by {
        assert forall|p: int| 0 <= p < a.len() implies a[p] == c.subrange(0, a.len() as int)[p] by {
            assert(a[p] == b[p]);
            assert(b[p] == c[p]);
            assert(c.subrange(0, a.len() as int)[p] == c[p]);
        }
    }
}

/// One appended command raises exactly the counter of its own kind.
pub proof fn lemma_counts_push(s: Seq<GlCmd>, c: GlCmd)
    ensures
        draw_count(s.push(c)) == draw_count(s) + (if c is DrawElements {
            1nat
        } else {
            0nat
        }),
        attach_count(s.push(c)) == attach_count(s) + (if c is AttachShader {
            1nat
        } else {
            0nat
        }),
        detach_count(s.push(c)) == detach_count(s) + (if c is DetachShader {
            1nat
        } else {
            0nat
        }),
{
    assert(s.push(c).drop_last() =~= s);
}

/// `new_log` is `old_log` with zero or more commands appended.
pub open spec fn extends(old_log: Seq<GlCmd>, new_log: Seq<GlCmd>) -> bool {
    old_log.is_prefix_of(new_log)
}

/// The commands appended beyond `old_log`.
pub open spec fn added(old_log: Seq<GlCmd>, new_log: Seq<GlCmd>) -> Seq<GlCmd> {
    new_log.skip(old_log.len() as int)
}

/// Hands out fresh virtual resource identifiers, starting at 1 so that 0 can
/// stand for "no object".
pub struct HandleArena {
    next: u32,
}

impl HandleArena {
    pub closed spec fn next_id(&self) -> u32 {
        self.next
    }

    pub closed spec fn wf(&self) -> bool {
        self.next >= 1
    }

    pub fn new() -> (r: HandleArena)
        ensures
            r.wf(),
            r.next_id() == 1,
    {
        HandleArena { next: 1 }
    }

    /// A fresh identifier, never handed out before.
    pub fn fresh(&mut self) -> (id: u32)
        requires
            old(self).wf(),
            old(self).next_id() < u32::MAX,
        ensures
            final(self).wf(),
            id == old(self).next_id(),
            final(self).next_id() == old(self).next_id() + 1,
    {
        let id = self.next;
        self.next = self.next + 1;
        id
    }
}

} // verus!
