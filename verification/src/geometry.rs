//! Geometry: a vertex/index buffer pair with an attribute layout, owning its
//! program, textures and model transformation, and issuing indexed draws.
//!
//! Construction uploads the raw vertex and index data and describes the
//! attribute layout; drawing activates the program (which flushes the staged
//! uniforms), binds every texture to its sequential unit, and issues one
//! indexed draw — or, when a per-instance position list is present, one draw
//! per position with a freshly built, randomly wobbled model matrix.

use vstd::prelude::*;
use vstd::string::StringSliceAdditionalSpecFns;

verus! {

use crate::commands::BufferTarget;
use crate::commands::ShaderStage;
use crate::commands::GlCmd;
use crate::commands::HandleArena;
use crate::commands::added;
use crate::commands::draw_count;
use crate::commands::extends;
use crate::commands::lemma_counts_push;
use crate::commands::lemma_no_draws;
use crate::gl_program::GLProgram;
use crate::linalg::Mat4Bits;
use crate::linalg::Vec3Bits;
use crate::linalg::copy_u32_vec;
use crate::linalg::identity_bits;
use crate::linalg::mul4_of;
use crate::linalg::translation4_of;
use crate::linalg::rotation_axis4_of;
use crate::linalg::radians_of;
use crate::linalg::prod_of;
use crate::linalg::mat_mul;
use crate::linalg::mat_translation;
use crate::linalg::mat_rotation_axis;
use crate::linalg::radians;
use crate::linalg::mul_bits;
use crate::linalg::neg_of;
use crate::shader::Shader;
use crate::shader::ShaderError;
use crate::shader::compile_cmds_at;
use crate::gl_program::LinkError;
use crate::gl_program::PendingLink;
use crate::textures::Texture;
use crate::textures::TextureError;
use crate::textures::TextureSource;
use crate::textures::decoded_image_of;
use crate::textures::upload_cmds_at;
use crate::transformation::Transformation;

/// The per-frame animation hook: a capability that may mutate a geometry's
/// model transformation once per draw. Implementors must keep the
/// transformation well-formed.
pub trait Animator {
    fn update(&mut self, t: &mut Transformation)
        requires
            old(t).wf(),
        ensures
            final(t).wf(),
    ;
}

/// The do-nothing animator.
pub struct Still;

impl Animator for Still {
    fn update(&mut self, t: &mut Transformation) {
    }
}

/// A geometry object: buffer handles, layout, program, textures, model
/// transformation, optional instance positions and optional animator.
pub struct Geometry<A: Animator> {
    vao: u32,
    program: GLProgram,
    textures: Vec<Texture>,
    idx_size: i32,
    matrix: Transformation,
    positions: Vec<Vec3Bits>,
    timer_func: Option<A>,
}

impl<A: Animator> Geometry<A> {
    pub closed spec fn vao_spec(&self) -> u32 {
        self.vao
    }

    pub closed spec fn program_spec(&self) -> GLProgram {
        self.program
    }

    pub closed spec fn textures_spec(&self) -> Seq<Texture> {
        self.textures@
    }

    pub closed spec fn idx_size_spec(&self) -> i32 {
        self.idx_size
    }

    pub closed spec fn matrix_spec(&self) -> Transformation {
        self.matrix
    }

    pub closed spec fn positions_spec(&self) -> Seq<Vec3Bits> {
        self.positions@
    }

    pub closed spec fn has_animator(&self) -> bool {
        self.timer_func is Some
    }

    pub open spec fn wf(&self) -> bool {
        &&& self.program_spec().wf()
        &&& self.matrix_spec().wf()
    }

    /// The virtual handle of the vertex-array object.
    pub fn vao(&self) -> (r: u32)
        ensures
            r == self.vao_spec(),
    {
        self.vao
    }

    /// The owned program.
    pub fn program(&self) -> (r: &GLProgram)
        ensures
            *r == self.program_spec(),
    {
        &self.program
    }

    /// Exclusive access to the owned program.
    pub fn program_mut(&mut self) -> (r: &mut GLProgram)
        ensures
            *r == old(self).program_spec(),
            final(self).program_spec() == *final(r),
            final(self).vao_spec() == old(self).vao_spec(),
            final(self).textures_spec() == old(self).textures_spec(),
            final(self).idx_size_spec() == old(self).idx_size_spec(),
            final(self).matrix_spec() == old(self).matrix_spec(),
            final(self).positions_spec() == old(self).positions_spec(),
            final(self).has_animator() == old(self).has_animator(),
    {
        &mut self.program
    }

    /// The number of indices one draw covers.
    pub fn idx_size(&self) -> (r: i32)
        ensures
            r == self.idx_size_spec(),
    {
        self.idx_size
    }

    /// Exclusive access to the model transformation.
    pub fn matrix_mut(&mut self) -> (r: &mut Transformation)
        ensures
            *r == old(self).matrix_spec(),
            final(self).matrix_spec() == *final(r),
            final(self).vao_spec() == old(self).vao_spec(),
            final(self).program_spec() == old(self).program_spec(),
            final(self).textures_spec() == old(self).textures_spec(),
            final(self).idx_size_spec() == old(self).idx_size_spec(),
            final(self).positions_spec() == old(self).positions_spec(),
            final(self).has_animator() == old(self).has_animator(),
    {
        &mut self.matrix
    }

    /// Installs the per-instance position list: the next draw repeats once
    /// per position.
    pub fn set_positions(&mut self, positions: Vec<Vec3Bits>)
        ensures
            final(self).positions_spec() == positions@,
            final(self).vao_spec() == old(self).vao_spec(),
            final(self).program_spec() == old(self).program_spec(),
            final(self).textures_spec() == old(self).textures_spec(),
            final(self).idx_size_spec() == old(self).idx_size_spec(),
            final(self).matrix_spec() == old(self).matrix_spec(),
            final(self).has_animator() == old(self).has_animator(),
    {
        self.positions = positions;
    }

    /// Installs the per-frame animation hook.
    pub fn set_render_func(&mut self, callback: A)
        ensures
            final(self).has_animator(),
            final(self).vao_spec() == old(self).vao_spec(),
            final(self).program_spec() == old(self).program_spec(),
            final(self).textures_spec() == old(self).textures_spec(),
            final(self).idx_size_spec() == old(self).idx_size_spec(),
            final(self).matrix_spec() == old(self).matrix_spec(),
            final(self).positions_spec() == old(self).positions_spec(),
    {
        self.timer_func = Some(callback);
    }

    /// Stages the geometry's own model matrix under the fixed uniform name
    /// `model`, to be uploaded on the next activation.
    pub fn before_draw(&mut self)
        requires
            old(self).wf(),
        ensures
            final(self).wf(),
            final(self).program_spec().matrices_map().dom() == old(self).program_spec()
                .matrices_map().dom().insert("model"@),
            final(self).program_spec().matrices_map()["model"@]@ == old(
                self,
            ).matrix_spec().matrix_bits(),
            forall|k: Seq<char>|
                old(self).program_spec().matrices_map().dom().contains(k) && k != "model"@
                    ==> final(self).program_spec().matrices_map()[k] == old(self).program_spec()
                    .matrices_map()[k],
            final(self).program_spec().floats_map() == old(self).program_spec().floats_map(),
            final(self).program_spec().ints_map() == old(self).program_spec().ints_map(),
            final(self).program_spec().bools_map() == old(self).program_spec().bools_map(),
            final(self).program_spec().id_spec() == old(self).program_spec().id_spec(),
            final(self).vao_spec() == old(self).vao_spec(),
            final(self).textures_spec() == old(self).textures_spec(),
            final(self).idx_size_spec() == old(self).idx_size_spec(),
            final(self).matrix_spec() == old(self).matrix_spec(),
            final(self).positions_spec() == old(self).positions_spec(),
            final(self).has_animator() == old(self).has_animator(),
    {
        let snap = self.matrix.snapshot();
        self.program.set_matrix("model", &snap);
    }

    /// Uploads the raw vertex and index arrays verbatim, describes the
    /// attribute layout (index `i` gets `offsets[i].0` float components at
    /// float offset `offsets[i].1`, with a stride of `data_size` floats),
    /// registers each texture's sampler uniform with its sequential unit
    /// index on the program, and assembles the geometry. Buffer lengths are
    /// not validated against the layout: that is the caller's contract.
    pub fn from_data(
        data: &Vec<u32>,
        indexes: &Vec<i32>,
        program: GLProgram,
        textures: Vec<Texture>,
        data_size: i32,
        offsets: &Vec<(i32, usize)>,
        arena: &mut HandleArena,
        log: &mut Vec<GlCmd>,
    ) -> (g: Geometry<A>)
        requires
            program.wf(),
            old(arena).wf(),
            old(arena).next_id() + 3 <= u32::MAX,
            indexes@.len() <= i32::MAX,
            0 <= data_size * 4 <= i32::MAX,
            forall|k: int| 0 <= k < offsets@.len() ==> (#[trigger] offsets@[k]).1 * 4 <= usize::MAX,
            offsets@.len() <= u32::MAX,
            textures@.len() <= i32::MAX,
        ensures
            final(arena).wf(),
            final(arena).next_id() == old(arena).next_id() + 3,
            g.wf(),
            g.vao_spec() == old(arena).next_id(),
            g.idx_size_spec() == indexes@.len() as i32,
            g.positions_spec() == Seq::<Vec3Bits>::empty(),
            !g.has_animator(),
            g.matrix_spec()@ == crate::transformation::fresh_model(),
            g.textures_spec() == textures@,
            g.program_spec().id_spec() == program.id_spec(),
            g.program_spec().ints_map() == with_samplers(program.ints_map(), textures@),
            g.program_spec().floats_map() == program.floats_map(),
            g.program_spec().bools_map() == program.bools_map(),
            g.program_spec().matrices_map() == program.matrices_map(),
            extends(old(log)@, final(log)@),
            added(old(log)@, final(log)@).len() == 8 + 2 * offsets@.len(),
            buffer_setup_at(
                g.vao_spec(),
                (old(arena).next_id() + 1) as u32,
                (old(arena).next_id() + 2) as u32,
                data@,
                indexes@,
                data_size,
                offsets@,
                final(log)@,
                old(log)@.len() as int,
            ),
    {
        let ghost prog0 = program;
        let mut prog = program;
        let mut i: usize = 0;
        while i < textures.len()
            invariant
                i <= textures@.len(),
                textures@.len() <= i32::MAX,
                prog.wf(),
                prog.id_spec() == prog0.id_spec(),
                prog.floats_map() == prog0.floats_map(),
                prog.bools_map() == prog0.bools_map(),
                prog.matrices_map() == prog0.matrices_map(),
                prog.ints_map() == with_samplers(prog0.ints_map(), textures@.take(i as int)),
            decreases textures@.len() - i,
        {
            prog.set_int(textures[i].uniform().as_str(), i as i32);
            proof {
                assert(textures@.take(i as int + 1).drop_last() =~= textures@.take(i as int));
                assert(textures@.take(i as int + 1).last() == textures@[i as int]);
            }
            i = i + 1;
        }
        assert(textures@.take(textures@.len() as int) =~= textures@);
        let vao = arena.fresh();
        let vbo = arena.fresh();
        let ebo = arena.fresh();
        let ghost log0 = log@;
        let ghost base = log@.len() as int;
        log.push(GlCmd::GenVertexArray { vao });
        log.push(GlCmd::GenBuffer { buffer: vbo });
        log.push(GlCmd::GenBuffer { buffer: ebo });
        log.push(GlCmd::BindVertexArray { vao });
        log.push(GlCmd::BindBuffer { target: BufferTarget::Array, buffer: vbo });
        log.push(GlCmd::BufferFloatData { target: BufferTarget::Array, bits: copy_u32_vec(data) });
        log.push(GlCmd::BindBuffer { target: BufferTarget::ElementArray, buffer: ebo });
        log.push(
            GlCmd::BufferIntData {
                target: BufferTarget::ElementArray,
                data: crate::linalg::copy_i32_vec(indexes),
            },
        );
        let mut k: usize = 0;
        while k < offsets.len()
            invariant
                k <= offsets@.len(),
                offsets@.len() <= u32::MAX,
                0 <= data_size * 4 <= i32::MAX,
                forall|j: int|
                    0 <= j < offsets@.len() ==> (#[trigger] offsets@[j]).1 * 4 <= usize::MAX,
                log0.len() == base,
                log@.len() == base + 8 + 2 * k,
                log0.is_prefix_of(log@),
                log@[base] == (GlCmd::GenVertexArray { vao }),
                log@[base + 1] == (GlCmd::GenBuffer { buffer: vbo }),
                log@[base + 2] == (GlCmd::GenBuffer { buffer: ebo }),
                log@[base + 3] == (GlCmd::BindVertexArray { vao }),
                log@[base + 4] == (GlCmd::BindBuffer { target: BufferTarget::Array, buffer: vbo }),
                (log@[base + 5] matches GlCmd::BufferFloatData { target, bits } && target is Array
                    && bits@ == data@),
                log@[base + 6] == (GlCmd::BindBuffer {
                    target: BufferTarget::ElementArray,
                    buffer: ebo,
                }),
                (log@[base + 7] matches GlCmd::BufferIntData { target, data: d }
                    && target is ElementArray && d@ == indexes@),
                forall|j: int|
                    0 <= j < k ==> (#[trigger] log@[base + 8 + 2 * j]) == (
                    GlCmd::EnableVertexAttribArray { index: j as u32 }),
                forall|j: int|
                    0 <= j < k ==> ((#[trigger] log@[base + 8 + 2 * j + 1])
                        matches GlCmd::VertexAttribPointer {
                        index,
                        components,
                        stride_bytes,
                        offset_bytes,
                    } && index == j as u32 && components == offsets@[j].0 && stride_bytes
                        == data_size * 4 && offset_bytes == offsets@[j].1 * 4),
            decreases offsets@.len() - k,
        {
            let (components, float_offset) = offsets[k];
            log.push(GlCmd::EnableVertexAttribArray { index: k as u32 });
            log.push(
                GlCmd::VertexAttribPointer {
                    index: k as u32,
                    components,
                    stride_bytes: data_size * 4,
                    offset_bytes: float_offset * 4,
                },
            );
            k = k + 1;
        }
        proof {
            assert(added(log0, log@) =~= log@.skip(base));
        }
        Geometry {
            vao,
            program: prog,
            textures,
            idx_size: indexes.len() as i32,
            matrix: Transformation::new(),
            positions: Vec::new(),
            timer_func: None,
        }
    }

    /// Draws the geometry: activates the program (flushing every staged
    /// uniform), binds each texture to its sequential unit, binds the
    /// vertex array, runs the animation hook once, and issues indexed
    /// draws — exactly one when the position list is empty, otherwise
    /// exactly one per position, each preceded by a direct upload of a
    /// freshly built, randomly wobbled model matrix.
    pub fn draw(&mut self, rng: &mut rand::rngs::StdRng, log: &mut Vec<GlCmd>)
        requires
            old(self).wf(),
            old(self).textures_spec().len() <= u32::MAX,
        ensures
            final(self).wf(),
            extends(old(log)@, final(log)@),
            draw_count(added(old(log)@, final(log)@)) == (if old(self).positions_spec().len()
                == 0 {
                1nat
            } else {
                old(self).positions_spec().len()
            }),
            draws_sized(added(old(log)@, final(log)@), old(self).idx_size_spec()),
            added(old(log)@, final(log)@).len() == crate::gl_program::flush_len(
                old(self).program_spec(),
            ) + 2 * old(self).textures_spec().len() + 2 + (
            if old(self).positions_spec().len() == 0 {
                1int
            } else {
                2 * old(self).positions_spec().len() as int
            }),
            crate::gl_program::flush_ok(
                old(self).program_spec(),
                added(old(log)@, final(log)@).subrange(
                    0,
                    crate::gl_program::flush_len(old(self).program_spec()),
                ),
            ),
            ({
                let fl = crate::gl_program::flush_len(old(self).program_spec());
                let a = added(old(log)@, final(log)@);
                &&& forall|t: int|
                    0 <= t < old(self).textures_spec().len() ==> (#[trigger] a[fl + 2 * t]) == (
                    GlCmd::ActiveTexture { unit: t as u32 })
                &&& forall|t: int|
                    0 <= t < old(self).textures_spec().len() ==> (#[trigger] a[fl + 2 * t + 1])
                        == (GlCmd::BindTexture {
                        texture: old(self).textures_spec()[t].id_spec(),
                    })
                &&& a[fl + 2 * old(self).textures_spec().len()] == (GlCmd::BindVertexArray {
                    vao: old(self).vao_spec(),
                })
                &&& a.last() == (GlCmd::BindVertexArray { vao: 0 })
            }),
            final(self).vao_spec() == old(self).vao_spec(),
            final(self).program_spec() == old(self).program_spec(),
            final(self).textures_spec() == old(self).textures_spec(),
            final(self).idx_size_spec() == old(self).idx_size_spec(),
            final(self).positions_spec() == old(self).positions_spec(),
            final(self).has_animator() == old(self).has_animator(),
            !old(self).has_animator() ==> final(self).matrix_spec() == old(self).matrix_spec(),
            ({
                let start = crate::gl_program::flush_len(old(self).program_spec()) + 2 * old(
                    self,
                ).textures_spec().len() + 1;
                let a = added(old(log)@, final(log)@);
                &&& (old(self).positions_spec().len() == 0 ==> a[start] == (GlCmd::DrawElements {
                    count: old(self).idx_size_spec(),
                }))
                &&& forall|i: int|
                    0 <= i < old(self).positions_spec().len() ==> ((#[trigger] a[start + 2 * i + 1])
                        == (GlCmd::DrawElements { count: old(self).idx_size_spec() }) && (
                    exists|u: u32|
                        crate::gl_program::is_matrix_cmd(
                            a[start + 2 * i],
                            old(self).program_spec().id_spec(),
                            "model"@,
                            wobble_matrix(old(self).positions_spec()[i], u),
                        )))
            }),
    {
        let ghost log0 = log@;
        let ghost base = log@.len() as int;
        let ghost fl = crate::gl_program::flush_len(self.program_spec());
        self.program.activate(log);
        let ghost log_a = log@;
        proof {
            assert(added(log0, log@) =~= log@.skip(base));
            assert(log_a.len() == base + fl);
            lemma_no_draws(log_a.skip(base));
            assert(draws_sized(log_a.skip(base), self.idx_size_spec()));
        }
        let ntex = self.textures.len();
        let mut t: usize = 0;
        while t < ntex
            invariant
                t <= ntex,
                ntex == self.textures_spec().len(),
                ntex <= u32::MAX,
                log_a.len() == base + fl,
                base == log0.len(),
                log0.is_prefix_of(log_a),
                log_a.is_prefix_of(log@),
                log@.len() == log_a.len() + 2 * t,
                draw_count(log@.skip(base)) == 0,
                draws_sized(log@.skip(base), self.idx_size_spec()),
                forall|j: int|
                    0 <= j < t ==> (#[trigger] log@[log_a.len() + 2 * j]) == (
                    GlCmd::ActiveTexture { unit: j as u32 }),
                forall|j: int|
                    0 <= j < t ==> (#[trigger] log@[log_a.len() + 2 * j + 1]) == (
                    GlCmd::BindTexture { texture: self.textures_spec()[j].id_spec() }),
            decreases ntex - t,
        {
            let ghost suffix = log@.skip(base);
            let cmd0 = GlCmd::ActiveTexture { unit: t as u32 };
            log.push(cmd0);
            proof {
                lemma_counts_push(suffix, GlCmd::ActiveTexture { unit: t as u32 });
                lemma_draws_sized_push(
                    suffix,
                    GlCmd::ActiveTexture { unit: t as u32 },
                    self.idx_size_spec(),
                );
                assert(log@.skip(base) =~= suffix.push(GlCmd::ActiveTexture { unit: t as u32 }));
            }
            let ghost suffix = log@.skip(base);
            let tid = self.textures[t].id();
            log.push(GlCmd::BindTexture { texture: tid });
            proof {
                lemma_counts_push(suffix, GlCmd::BindTexture { texture: tid });
                lemma_draws_sized_push(
                    suffix,
                    GlCmd::BindTexture { texture: tid },
                    self.idx_size_spec(),
                );
                assert(log@.skip(base) =~= suffix.push(GlCmd::BindTexture { texture: tid }));
            }
            t = t + 1;
        }
        let ghost log_b = log@;
        let ghost suffix = log@.skip(base);
        log.push(GlCmd::BindVertexArray { vao: self.vao });
        proof {
            lemma_counts_push(suffix, GlCmd::BindVertexArray { vao: self.vao_spec() });
            lemma_draws_sized_push(
                suffix,
                GlCmd::BindVertexArray { vao: self.vao_spec() },
                self.idx_size_spec(),
            );
            assert(log@.skip(base) =~= suffix.push(GlCmd::BindVertexArray { vao: self.vao_spec() }));
        }
        let ghost log_c = log@;
        proof {
            assert(log_c[log_b.len() as int] == (GlCmd::BindVertexArray { vao: self.vao_spec() }));
        }
        match &mut self.timer_func {
            Some(f) => {
                f.update(&mut self.matrix);
            },
            None => {},
        }
        let npos = self.positions.len();
        if npos == 0 {
            let ghost suffix = log@.skip(base);
            log.push(GlCmd::DrawElements { count: self.idx_size });
            proof {
                lemma_counts_push(suffix, GlCmd::DrawElements { count: self.idx_size_spec() });
                lemma_draws_sized_push(
                    suffix,
                    GlCmd::DrawElements { count: self.idx_size_spec() },
                    self.idx_size_spec(),
                );
                assert(log@.skip(base) =~= suffix.push(
                    GlCmd::DrawElements { count: self.idx_size_spec() },
                ));
                assert(log@[log_c.len() as int] == (GlCmd::DrawElements {
                    count: self.idx_size_spec(),
                }));
            }
        } else {
            let ghost mut units: Seq<u32> = Seq::empty();
            let mut i: usize = 0;
            while i < npos
                invariant
                    i <= npos,
                    npos == self.positions_spec().len(),
                    base == log0.len(),
                    base >= 0,
                    fl >= 1,
                    log_b.len() == base + fl + 2 * self.textures_spec().len(),
                    log_c.len() == log_b.len() + 1,
                    log_c.is_prefix_of(log@),
                    log@.len() == log_b.len() + 1 + 2 * i,
                    draw_count(log@.skip(base)) == i,
                    draws_sized(log@.skip(base), self.idx_size_spec()),
                    units.len() == i,
                    forall|j: int|
                        0 <= j < i ==> crate::gl_program::is_matrix_cmd(
                            #[trigger] log@[log_c.len() + 2 * j],
                            self.program_spec().id_spec(),
                            "model"@,
                            wobble_matrix(self.positions_spec()[j], units[j]),
                        ),
                    forall|j: int|
                        0 <= j < i ==> (#[trigger] log@[log_c.len() + 2 * j + 1]) == (
                        GlCmd::DrawElements { count: self.idx_size_spec() }),
                decreases npos - i,
            {
                let unit = crate::random::gen_unit_bits(rng);
                let deg = mul_bits(WOBBLE_DEGREES_BITS, unit);
                let angle = radians(deg);
                let angle_again = radians(angle);
                let axis = Vec3Bits { x: ONE_BITS, y: WOBBLE_AXIS_MID_BITS, z: HALF_BITS };
                let pos = self.positions[i];
                let translated = mat_mul(
                    &Mat4Bits::identity(),
                    &mat_translation(pos.x, pos.y, pos.z),
                );
                let model = mat_mul(&translated, &mat_rotation_axis(angle_again, axis));
                assert(model@ == wobble_matrix(pos, unit));
                let ghost suffix = log@.skip(base);
                let pid = self.program.id();
                let name: String = "model".to_owned();
                let entries = copy_u32_vec(model.entries());
                let cmd = GlCmd::UniformMatrix { program: pid, name, entries };
                log.push(cmd);
                proof {
                    lemma_counts_push(suffix, log@.last());
                    lemma_draws_sized_push(suffix, log@.last(), self.idx_size_spec());
                    assert(log@.skip(base) =~= suffix.push(log@.last()));
                    assert(crate::gl_program::is_matrix_cmd(
                        log@[log_c.len() + 2 * i],
                        self.program_spec().id_spec(),
                        "model"@,
                        wobble_matrix(self.positions_spec()[i as int], unit),
                    ));
                }
                let ghost suffix = log@.skip(base);
                log.push(GlCmd::DrawElements { count: self.idx_size });
                proof {
                    lemma_counts_push(suffix, GlCmd::DrawElements { count: self.idx_size_spec() });
                    lemma_draws_sized_push(
                        suffix,
                        GlCmd::DrawElements { count: self.idx_size_spec() },
                        self.idx_size_spec(),
                    );
                    assert(log@.skip(base) =~= suffix.push(
                        GlCmd::DrawElements { count: self.idx_size_spec() },
                    ));
                    assert(log@[log_c.len() + 2 * i + 1] == (GlCmd::DrawElements {
                        count: self.idx_size_spec(),
                    }));
                    units = units.push(unit);
                }
                i = i + 1;
            }
        }
        let ghost log_d = log@;
        let ghost suffix = log@.skip(base);
        log.push(GlCmd::BindVertexArray { vao: 0 });
        proof {
            lemma_counts_push(suffix, GlCmd::BindVertexArray { vao: 0 });
            lemma_draws_sized_push(suffix, GlCmd::BindVertexArray { vao: 0 }, self.idx_size_spec());
            assert(log@.skip(base) =~= suffix.push(GlCmd::BindVertexArray { vao: 0 }));
            let a = added(log0, log@);
            assert(a =~= log@.skip(base));
            assert(log_c.is_prefix_of(log@)) by {
                assert(log_c =~= log@.subrange(0, log_c.len() as int));
            }
            assert(log_b.is_prefix_of(log_c)) by {
                assert(log_b =~= log_c.subrange(0, log_b.len() as int));
            }
            crate::commands::lemma_extends_trans(log_b, log_c, log@);
            crate::commands::lemma_extends_trans(log_a, log_b, log@);
            crate::commands::lemma_extends_index(log_a, log@);
            crate::commands::lemma_extends_index(log_b, log@);
            crate::commands::lemma_extends_index(log_c, log@);
            assert(a.subrange(0, fl) =~= log_a.skip(base));
            assert forall|j: int| 0 <= j < self.textures_spec().len() implies (#[trigger] a[fl + 2
                * j]) == (GlCmd::ActiveTexture { unit: j as u32 }) by {
                assert(a[fl + 2 * j] == log@[base + fl + 2 * j]);
                assert(log_b[base + fl + 2 * j] == (GlCmd::ActiveTexture { unit: j as u32 }));
            }
            assert forall|j: int| 0 <= j < self.textures_spec().len() implies (#[trigger] a[fl + 2
                * j + 1]) == (GlCmd::BindTexture {
                texture: self.textures_spec()[j].id_spec(),
            }) by {
                assert(a[fl + 2 * j + 1] == log@[base + fl + 2 * j + 1]);
                assert(log_b[base + fl + 2 * j + 1] == (GlCmd::BindTexture {
                    texture: self.textures_spec()[j].id_spec(),
                }));
            }
            assert(a[fl + 2 * self.textures_spec().len()] == log@[base + fl + 2
                * self.textures_spec().len()]);
            assert(a.last() == (GlCmd::BindVertexArray { vao: 0 }));
            let start = fl + 2 * self.textures_spec().len() as int + 1;
            if self.positions_spec().len() == 0 {
                assert(a[start] == log@[log_c.len() as int]);
                assert(log@[log_c.len() as int] == log_d[log_c.len() as int]);
            }
            assert forall|i: int| 0 <= i < self.positions_spec().len() implies ((#[trigger] a[start
                + 2 * i + 1]) == (GlCmd::DrawElements { count: self.idx_size_spec() }) && (
            exists|u: u32|
                crate::gl_program::is_matrix_cmd(
                    a[start + 2 * i],
                    self.program_spec().id_spec(),
                    "model"@,
                    wobble_matrix(self.positions_spec()[i], u),
                ))) by {
                assert(a[start + 2 * i] == log@[log_c.len() + 2 * i]);
                assert(a[start + 2 * i + 1] == log@[log_c.len() + 2 * i + 1]);
                assert(log@[log_c.len() + 2 * i] == log_d[log_c.len() + 2 * i]);
                assert(log@[log_c.len() + 2 * i + 1] == log_d[log_c.len() + 2 * i + 1]);
            }
        }
    }
}

/// The bits of `20.0`: the magnitude of the decorative wobble, in degrees.
pub const WOBBLE_DEGREES_BITS: u32 = 0x41A0_0000;

/// The bits of `1.0`.
pub const ONE_BITS: u32 = 0x3F80_0000;

/// The bits of `0.5`.
pub const HALF_BITS: u32 = 0x3F00_0000;

/// The bits of `0.3`: the second component of the fixed wobble axis.
pub const WOBBLE_AXIS_MID_BITS: u32 = 0x3E99_999A;

/// The bits of `0.01`: the scale from caller units to clip-space extents.
pub const CENTI_BITS: u32 = 0x3C23_D70A;

/// The model matrix of one drawn instance: the identity translated to the
/// instance position, then rotated about the fixed axis `(1.0, 0.3, 0.5)`
/// by a random fraction of the wobble magnitude (the degree value passes
/// the degrees-to-radians conversion twice, a quirk kept by design).
pub open spec fn wobble_matrix(pos: Vec3Bits, unit: u32) -> Seq<u32> {
    mul4_of(
        mul4_of(identity_bits(), translation4_of(pos.x, pos.y, pos.z)),
        rotation_axis4_of(
            radians_of(radians_of(prod_of(WOBBLE_DEGREES_BITS, unit))),
            ONE_BITS,
            WOBBLE_AXIS_MID_BITS,
            HALF_BITS,
        ),
    )
}

/// Every indexed draw in `s` covers exactly `idx` indices.
pub open spec fn draws_sized(s: Seq<GlCmd>, idx: i32) -> bool {
    forall|p: int|
        0 <= p < s.len() ==> ((#[trigger] s[p]) matches GlCmd::DrawElements { count } ==> count
            == idx)
}

/// Appending a command keeps every draw correctly sized, provided the new
/// command is itself a correctly sized draw or no draw at all.
proof fn lemma_draws_sized_push(s: Seq<GlCmd>, c: GlCmd, idx: i32)
    requires
        draws_sized(s, idx),
        c matches GlCmd::DrawElements { count } ==> count == idx,
    ensures
        draws_sized(s.push(c), idx),
{
    assert forall|p: int| 0 <= p < s.push(c).len() implies ((#[trigger] s.push(c)[p])
        matches GlCmd::DrawElements { count } ==> count == idx) by {
        if p < s.len() {
            assert(s.push(c)[p] == s[p]);
        } else {
            assert(s.push(c)[p] == c);
        }
    }
}

/// The sampler registration `from_data` performs: each texture's uniform
/// name staged as an integer uniform holding its sequential unit index.
pub open spec fn with_samplers(m: Map<Seq<char>, i32>, textures: Seq<Texture>) -> Map<
    Seq<char>,
    i32,
>
    decreases textures.len(),
{
    if textures.len() == 0 {
        m
    } else {
        with_samplers(m, textures.drop_last()).insert(
            textures.last().uniform_spec(),
            (textures.len() - 1) as i32,
        )
    }
}

/// The bits of `-0.5`.
pub const NEG_HALF_BITS: u32 = 0xBF00_0000;

/// Why building a shape failed: a shader source could not be converted, the
/// program failed to link, or a texture could not be decoded.
#[derive(Debug)]
pub enum GeometryError {
    Shader(ShaderError),
    Link(LinkError),
    Texture(TextureError),
}

/// The top clip-space extent of a rectangle: half the caller's height,
/// scaled to hundredths.
pub open spec fn rect_top(height: u32) -> u32 {
    prod_of(prod_of(height, HALF_BITS), CENTI_BITS)
}

/// The right clip-space extent of a rectangle: half the caller's width,
/// scaled to hundredths.
pub open spec fn rect_right(width: u32) -> u32 {
    prod_of(prod_of(width, HALF_BITS), CENTI_BITS)
}

/// The interleaved vertex data of a rectangle: four corners, each with a
/// position, a color and a texture coordinate.
pub open spec fn rectangle_data(width: u32, height: u32) -> Seq<u32> {
    let top = rect_top(height);
    let bottom = neg_of(top);
    let right = rect_right(width);
    let left = neg_of(right);
    seq![
        top, right, 0u32, ONE_BITS, 0u32, 0u32, ONE_BITS, ONE_BITS,
        bottom, right, 0u32, 0u32, ONE_BITS, 0u32, ONE_BITS, 0u32,
        bottom, left, 0u32, ONE_BITS, 0u32, 0u32, 0u32, 0u32,
        top, left, 0u32, 0u32, 0u32, ONE_BITS, 0u32, ONE_BITS,
    ]
}

/// Two triangles over the four corners of the rectangle.
pub open spec fn rectangle_indexes() -> Seq<i32> {
    seq![0i32, 1i32, 3i32, 1i32, 2i32, 3i32]
}

/// The shared attribute layout of the built-in shapes: three position
/// floats at offset 0, three color floats at 3, two texture floats at 6.
pub open spec fn shape_offsets() -> Seq<(i32, usize)> {
    seq![(3i32, 0usize), (3i32, 3usize), (2i32, 6usize)]
}

/// A rectangle whose shaders are compiled and whose program awaits its link
/// status.
pub struct PendingRectangle {
    width: u32,
    height: u32,
    shaders: Vec<Shader>,
    link: PendingLink,
}

impl PendingRectangle {
    pub closed spec fn width_spec(&self) -> u32 {
        self.width
    }

    pub closed spec fn height_spec(&self) -> u32 {
        self.height
    }

    pub closed spec fn program_id_spec(&self) -> u32 {
        self.link.id_spec()
    }

    pub closed spec fn shader_ids_spec(&self) -> Seq<u32> {
        self.shaders@.map(|i: int, s: Shader| s.id_spec())
    }

    pub open spec fn wf(&self) -> bool {
        self.shader_ids_spec().len() == 2
    }

    /// The virtual handle of the program object being linked.
    pub fn program_id(&self) -> (r: u32)
        ensures
            r == self.program_id_spec(),
    {
        self.link.id()
    }

    /// Finishes the rectangle once the executor has reported the link
    /// status: on success, uploads the vertex and index data and assembles
    /// the geometry, then releases the two shaders; on failure, releases
    /// the program object and the shaders and reports the diagnostic.
    pub fn finish<A: Animator>(
        self,
        link_ok: bool,
        diagnostic: String,
        arena: &mut HandleArena,
        log: &mut Vec<GlCmd>,
    ) -> (r: Result<Geometry<A>, GeometryError>)
        requires
            self.wf(),
            old(arena).wf(),
            old(arena).next_id() + 3 <= u32::MAX,
        ensures
            final(arena).wf(),
            r is Ok <==> link_ok,
            r matches Ok(g) ==> {
                &&& g.wf()
                &&& final(arena).next_id() == old(arena).next_id() + 3
                &&& g.vao_spec() == old(arena).next_id()
                &&& g.idx_size_spec() == 6
                &&& g.positions_spec() == Seq::<Vec3Bits>::empty()
                &&& !g.has_animator()
                &&& g.matrix_spec()@ == crate::transformation::fresh_model()
                &&& g.textures_spec() == Seq::<Texture>::empty()
                &&& g.program_spec().id_spec() == self.program_id_spec()
                &&& g.program_spec().floats_map() == Map::<Seq<char>, u32>::empty()
                &&& g.program_spec().ints_map() == Map::<Seq<char>, i32>::empty()
                &&& g.program_spec().bools_map() == Map::<Seq<char>, bool>::empty()
                &&& g.program_spec().matrices_map() == Map::<Seq<char>, Vec<u32>>::empty()
                &&& extends(old(log)@, final(log)@)
                &&& added(old(log)@, final(log)@).len() == 16
                &&& buffer_setup_at(
                    old(arena).next_id(),
                    (old(arena).next_id() + 1) as u32,
                    (old(arena).next_id() + 2) as u32,
                    rectangle_data(self.width_spec(), self.height_spec()),
                    rectangle_indexes(),
                    8,
                    shape_offsets(),
                    final(log)@,
                    old(log)@.len() as int,
                )
                &&& added(old(log)@, final(log)@)[14] == (GlCmd::DeleteShader {
                    shader: self.shader_ids_spec()[0],
                })
                &&& added(old(log)@, final(log)@)[15] == (GlCmd::DeleteShader {
                    shader: self.shader_ids_spec()[1],
                })
            },
            !link_ok ==> {
                &&& r matches Err(e) && (e matches GeometryError::Link(le) && le.message_spec()
                    == diagnostic@)
                &&& *final(arena) == *old(arena)
                &&& final(log)@ == old(log)@.push(
                    GlCmd::DeleteProgram { program: self.program_id_spec() },
                ).push(GlCmd::DeleteShader { shader: self.shader_ids_spec()[0] }).push(
                    GlCmd::DeleteShader { shader: self.shader_ids_spec()[1] },
                )
            },
    {
        let PendingRectangle { width, height, mut shaders, link } = self;
        let program = match link.finish(link_ok, diagnostic, log) {
            Ok(p) => p,
            Err(e) => {
                let s0 = shaders.remove(0);
                s0.release(log);
                let s1 = shaders.remove(0);
                s1.release(log);
                return Err(GeometryError::Link(e));
            },
        };
        let top = mul_bits(mul_bits(height, HALF_BITS), CENTI_BITS);
        let bottom = crate::linalg::neg_bits(top);
        let right = mul_bits(mul_bits(width, HALF_BITS), CENTI_BITS);
        let left = crate::linalg::neg_bits(right);
        let data: Vec<u32> = vec![
            top, right, 0u32, ONE_BITS, 0u32, 0u32, ONE_BITS, ONE_BITS,
            bottom, right, 0u32, 0u32, ONE_BITS, 0u32, ONE_BITS, 0u32,
            bottom, left, 0u32, ONE_BITS, 0u32, 0u32, 0u32, 0u32,
            top, left, 0u32, 0u32, 0u32, ONE_BITS, 0u32, ONE_BITS,
        ];
        let indexes: Vec<i32> = vec![0i32, 1i32, 3i32, 1i32, 2i32, 3i32];
        let offsets: Vec<(i32, usize)> = vec![(3i32, 0usize), (3i32, 3usize), (2i32, 6usize)];
        assert(data@ =~= rectangle_data(width, height));
        assert(indexes@ =~= rectangle_indexes());
        assert(offsets@ =~= shape_offsets());
        let geometry = Geometry::<A>::from_data(
            &data,
            &indexes,
            program,
            Vec::new(),
            8,
            &offsets,
            arena,
            log,
        );
        let s0 = shaders.remove(0);
        s0.release(log);
        let s1 = shaders.remove(0);
        s1.release(log);
        Ok(geometry)
    }
}

impl<A: Animator> Geometry<A> {
    /// Compiles the fragment and vertex shaders of a rectangle and emits
    /// the link attempt; the result awaits the link status in
    /// [`PendingRectangle::finish`]. Fails exactly when a source holds a
    /// NUL byte.
    pub fn rectangle(
        width: u32,
        height: u32,
        frag: &str,
        vert: &str,
        arena: &mut HandleArena,
        log: &mut Vec<GlCmd>,
    ) -> (r: Result<PendingRectangle, GeometryError>)
        requires
            old(arena).wf(),
            old(arena).next_id() + 3 <= u32::MAX,
        ensures
            final(arena).wf(),
            r is Ok <==> (!frag.spec_bytes().contains(0u8) && !vert.spec_bytes().contains(0u8)),
            extends(old(log)@, final(log)@),
            r matches Ok(p) ==> {
                &&& p.wf()
                &&& p.width_spec() == width
                &&& p.height_spec() == height
                &&& p.program_id_spec() == old(arena).next_id() + 2
                &&& p.shader_ids_spec() == seq![
                    (old(arena).next_id() + 1) as u32,
                    old(arena).next_id(),
                ]
                &&& final(arena).next_id() == old(arena).next_id() + 3
                &&& added(old(log)@, final(log)@).len() == 14
                &&& compile_cmds_at(
                    old(arena).next_id(),
                    ShaderStage::Fragment,
                    frag@,
                    final(log)@,
                    old(log)@.len() as int,
                )
                &&& compile_cmds_at(
                    (old(arena).next_id() + 1) as u32,
                    ShaderStage::Vertex,
                    vert@,
                    final(log)@,
                    old(log)@.len() as int + 4,
                )
                &&& crate::gl_program::link_cmds_at(
                    (old(arena).next_id() + 2) as u32,
                    seq![(old(arena).next_id() + 1) as u32, old(arena).next_id()],
                    final(log)@,
                    old(log)@.len() as int + 8,
                )
            },
            r matches Err(e) ==> e is Shader,
    {
        let triangle_frag = match Shader::from_fragment_src(frag, arena, log) {
            Ok(s) => s,
            Err(e) => {
                return Err(GeometryError::Shader(e));
            },
        };
        let ghost log1 = log@;
        let triangle_vert = match Shader::from_vertex_src(vert, arena, log) {
            Ok(s) => s,
            Err(e) => {
                triangle_frag.release(log);
                return Err(GeometryError::Shader(e));
            },
        };
        let ghost log2 = log@;
        let shaders: Vec<Shader> = vec![triangle_vert, triangle_frag];
        let link = GLProgram::from_shaders(&shaders, arena, log);
        proof {
            let ghost base = old(log)@.len() as int;
            assert(shaders@ =~= seq![triangle_vert, triangle_frag]);
            let ids = shaders@.map(|i: int, s: Shader| s.id_spec());
            assert(ids =~= seq![triangle_vert.id_spec(), triangle_frag.id_spec()]);
            crate::commands::lemma_extends_trans(log1, log2, log@);
            crate::shader::lemma_compile_cmds_extend(
                triangle_frag.id_spec(),
                ShaderStage::Fragment,
                frag@,
                log1,
                log@,
                base,
            );
            crate::shader::lemma_compile_cmds_extend(
                triangle_vert.id_spec(),
                ShaderStage::Vertex,
                vert@,
                log2,
                log@,
                base + 4,
            );
        }
        Ok(PendingRectangle { width, height, shaders, link })
    }
}

/// The front clip-space extent of a cube: half the caller's depth, scaled
/// to hundredths.
pub open spec fn cube_front(depth: u32) -> u32 {
    prod_of(prod_of(depth, HALF_BITS), CENTI_BITS)
}

/// The interleaved vertex data of a cube: six faces of six corners, each
/// with a position, a color and a texture coordinate. The x extent of the
/// side faces, the y extent of floor and ceiling and the z extent of the
/// front and back faces come from the caller; the remaining coordinates are
/// fixed at half a unit.
pub open spec fn cube_data(width: u32, height: u32, depth: u32) -> Seq<u32> {
    let top = rect_top(height);
    let bottom = neg_of(top);
    let right = rect_right(width);
    let left = neg_of(right);
    let front = cube_front(depth);
    let back = neg_of(front);
    seq![
        NEG_HALF_BITS, NEG_HALF_BITS, back, 0u32, 0u32, 0u32, 0u32, 0u32,
        HALF_BITS, NEG_HALF_BITS, back, 0u32, 0u32, 0u32, ONE_BITS, 0u32,
        HALF_BITS, HALF_BITS, back, 0u32, 0u32, 0u32, ONE_BITS, ONE_BITS,
        HALF_BITS, HALF_BITS, back, 0u32, 0u32, 0u32, ONE_BITS, ONE_BITS,
        NEG_HALF_BITS, HALF_BITS, back, 0u32, 0u32, 0u32, 0u32, ONE_BITS,
        NEG_HALF_BITS, NEG_HALF_BITS, back, 0u32, 0u32, 0u32, 0u32, 0u32,
        NEG_HALF_BITS, NEG_HALF_BITS, front, 0u32, 0u32, 0u32, 0u32, 0u32,
        HALF_BITS, NEG_HALF_BITS, front, 0u32, 0u32, 0u32, ONE_BITS, 0u32,
        HALF_BITS, HALF_BITS, front, 0u32, 0u32, 0u32, ONE_BITS, ONE_BITS,
        HALF_BITS, HALF_BITS, front, 0u32, 0u32, 0u32, ONE_BITS, ONE_BITS,
        NEG_HALF_BITS, HALF_BITS, front, 0u32, 0u32, 0u32, 0u32, ONE_BITS,
        NEG_HALF_BITS, NEG_HALF_BITS, front, 0u32, 0u32, 0u32, 0u32, 0u32,
        left, HALF_BITS, HALF_BITS, 0u32, 0u32, 0u32, ONE_BITS, 0u32,
        left, HALF_BITS, NEG_HALF_BITS, 0u32, 0u32, 0u32, ONE_BITS, ONE_BITS,
        left, NEG_HALF_BITS, NEG_HALF_BITS, 0u32, 0u32, 0u32, 0u32, ONE_BITS,
        left, NEG_HALF_BITS, NEG_HALF_BITS, 0u32, 0u32, 0u32, 0u32, ONE_BITS,
        left, NEG_HALF_BITS, HALF_BITS, 0u32, 0u32, 0u32, 0u32, 0u32,
        left, HALF_BITS, HALF_BITS, 0u32, 0u32, 0u32, ONE_BITS, 0u32,
        right, HALF_BITS, HALF_BITS, 0u32, 0u32, 0u32, ONE_BITS, 0u32,
        right, HALF_BITS, NEG_HALF_BITS, 0u32, 0u32, 0u32, ONE_BITS, ONE_BITS,
        right, NEG_HALF_BITS, NEG_HALF_BITS, 0u32, 0u32, 0u32, 0u32, ONE_BITS,
        right, NEG_HALF_BITS, NEG_HALF_BITS, 0u32, 0u32, 0u32, 0u32, ONE_BITS,
        right, NEG_HALF_BITS, HALF_BITS, 0u32, 0u32, 0u32, 0u32, 0u32,
        right, HALF_BITS, HALF_BITS, 0u32, 0u32, 0u32, ONE_BITS, 0u32,
        NEG_HALF_BITS, bottom, NEG_HALF_BITS, 0u32, 0u32, 0u32, 0u32, ONE_BITS,
        HALF_BITS, bottom, NEG_HALF_BITS, 0u32, 0u32, 0u32, ONE_BITS, ONE_BITS,
        HALF_BITS, bottom, HALF_BITS, 0u32, 0u32, 0u32, ONE_BITS, 0u32,
        HALF_BITS, bottom, HALF_BITS, 0u32, 0u32, 0u32, ONE_BITS, 0u32,
        NEG_HALF_BITS, bottom, HALF_BITS, 0u32, 0u32, 0u32, 0u32, 0u32,
        NEG_HALF_BITS, bottom, NEG_HALF_BITS, 0u32, 0u32, 0u32, 0u32, ONE_BITS,
        NEG_HALF_BITS, top, NEG_HALF_BITS, 0u32, 0u32, 0u32, 0u32, ONE_BITS,
        HALF_BITS, top, NEG_HALF_BITS, 0u32, 0u32, 0u32, ONE_BITS, ONE_BITS,
        HALF_BITS, top, HALF_BITS, 0u32, 0u32, 0u32, ONE_BITS, 0u32,
        HALF_BITS, top, HALF_BITS, 0u32, 0u32, 0u32, ONE_BITS, 0u32,
        NEG_HALF_BITS, top, HALF_BITS, 0u32, 0u32, 0u32, 0u32, 0u32,
        NEG_HALF_BITS, top, NEG_HALF_BITS, 0u32, 0u32, 0u32, 0u32, ONE_BITS,
    ]
}

/// One triangle per three consecutive corners of the cube.
pub open spec fn cube_indexes() -> Seq<i32> {
    seq![
        0i32, 1i32, 2i32, 3i32, 4i32, 5i32,
        6i32, 7i32, 8i32, 9i32, 10i32, 11i32,
        12i32, 13i32, 14i32, 15i32, 16i32, 17i32,
        18i32, 19i32, 20i32, 21i32, 22i32, 23i32,
        24i32, 25i32, 26i32, 27i32, 28i32, 29i32,
        30i32, 31i32, 32i32, 33i32, 34i32, 35i32,
    ]
}

/// Buffer-setup commands stay where they are when the log only grows.
pub proof fn lemma_buffer_setup_extend(
    vao: u32,
    vbo: u32,
    ebo: u32,
    data: Seq<u32>,
    indexes: Seq<i32>,
    data_size: i32,
    offsets: Seq<(i32, usize)>,
    a: Seq<GlCmd>,
    b: Seq<GlCmd>,
    at: int,
)
    requires
        buffer_setup_at(vao, vbo, ebo, data, indexes, data_size, offsets, a, at),
        extends(a, b),
    ensures
        buffer_setup_at(vao, vbo, ebo, data, indexes, data_size, offsets, b, at),
{
    crate::commands::lemma_extends_index(a, b);
    assert forall|k: int| 0 <= k < offsets.len() implies (#[trigger] b[at + 8 + 2 * k]) == (
    GlCmd::EnableVertexAttribArray { index: k as u32 }) by {
        assert(b[at + 8 + 2 * k] == a[at + 8 + 2 * k]);
    }
    assert forall|k: int| 0 <= k < offsets.len() implies ((#[trigger] b[at + 8 + 2 * k + 1])
        matches GlCmd::VertexAttribPointer { index, components, stride_bytes, offset_bytes }
        && index == k as u32 && components == offsets[k].0 && stride_bytes == data_size * 4
        && offset_bytes == offsets[k].1 * 4) by {
        assert(b[at + 8 + 2 * k + 1] == a[at + 8 + 2 * k + 1]);
    }
}

/// A cube whose shaders are compiled and whose program awaits its link
/// status.
pub struct PendingCube {
    width: u32,
    height: u32,
    depth: u32,
    shaders: Vec<Shader>,
    link: PendingLink,
}

impl PendingCube {
    pub closed spec fn width_spec(&self) -> u32 {
        self.width
    }

    pub closed spec fn height_spec(&self) -> u32 {
        self.height
    }

    pub closed spec fn depth_spec(&self) -> u32 {
        self.depth
    }

    pub closed spec fn program_id_spec(&self) -> u32 {
        self.link.id_spec()
    }

    pub closed spec fn shader_ids_spec(&self) -> Seq<u32> {
        self.shaders@.map(|i: int, s: Shader| s.id_spec())
    }

    pub open spec fn wf(&self) -> bool {
        self.shader_ids_spec().len() == 2
    }

    /// The virtual handle of the program object being linked.
    pub fn program_id(&self) -> (r: u32)
        ensures
            r == self.program_id_spec(),
    {
        self.link.id()
    }

    /// Finishes the cube once the executor has reported the link status:
    /// on success, decodes and uploads every texture source (all-or-
    /// nothing), uploads the vertex and index data, assembles the geometry
    /// and releases the two shaders; on a link failure or a decode failure,
    /// releases what was created and reports the typed error.
    #[verifier::rlimit(80)]
    pub fn finish<A: Animator>(
        self,
        link_ok: bool,
        diagnostic: String,
        sources: &Vec<TextureSource>,
        arena: &mut HandleArena,
        log: &mut Vec<GlCmd>,
    ) -> (r: Result<Geometry<A>, GeometryError>)
        requires
            self.wf(),
            old(arena).wf(),
            old(arena).next_id() + sources@.len() + 3 <= u32::MAX,
            sources@.len() <= i32::MAX,
        ensures
            final(arena).wf(),
            r is Ok <==> (link_ok && (forall|i: int|
                0 <= i < sources@.len() ==> decoded_image_of(#[trigger] sources@[i].bytes@)
                    is Some)),
            extends(old(log)@, final(log)@),
            r matches Ok(g) ==> {
                let n = sources@.len() as int;
                &&& g.wf()
                &&& final(arena).next_id() == old(arena).next_id() + n + 3
                &&& g.vao_spec() == old(arena).next_id() + n
                &&& g.idx_size_spec() == 36
                &&& g.positions_spec() == Seq::<Vec3Bits>::empty()
                &&& !g.has_animator()
                &&& g.matrix_spec()@ == crate::transformation::fresh_model()
                &&& g.textures_spec().len() == n
                &&& forall|i: int|
                    0 <= i < n ==> (#[trigger] g.textures_spec()[i]).id_spec() == old(
                        arena,
                    ).next_id() + i && g.textures_spec()[i].uniform_spec()
                        == sources@[i].uniform@
                &&& g.program_spec().id_spec() == self.program_id_spec()
                &&& g.program_spec().floats_map() == Map::<Seq<char>, u32>::empty()
                &&& g.program_spec().bools_map() == Map::<Seq<char>, bool>::empty()
                &&& g.program_spec().matrices_map() == Map::<Seq<char>, Vec<u32>>::empty()
                &&& g.program_spec().ints_map() == with_samplers(
                    Map::<Seq<char>, i32>::empty(),
                    g.textures_spec(),
                )
                &&& added(old(log)@, final(log)@).len() == 9 * n + 16
                &&& forall|i: int|
                    0 <= i < n ==> upload_cmds_at(
                        (old(arena).next_id() + i) as u32,
                        decoded_image_of(sources@[i].bytes@)->0,
                        final(log)@,
                        old(log)@.len() + 9 * i,
                    )
                &&& buffer_setup_at(
                    (old(arena).next_id() + n) as u32,
                    (old(arena).next_id() + n + 1) as u32,
                    (old(arena).next_id() + n + 2) as u32,
                    cube_data(self.width_spec(), self.height_spec(), self.depth_spec()),
                    cube_indexes(),
                    8,
                    shape_offsets(),
                    final(log)@,
                    old(log)@.len() + 9 * n,
                )
                &&& added(old(log)@, final(log)@)[9 * n + 14] == (GlCmd::DeleteShader {
                    shader: self.shader_ids_spec()[1],
                })
                &&& added(old(log)@, final(log)@)[9 * n + 15] == (GlCmd::DeleteShader {
                    shader: self.shader_ids_spec()[0],
                })
            },
            !link_ok ==> {
                &&& r matches Err(e) && (e matches GeometryError::Link(le) && le.message_spec()
                    == diagnostic@)
                &&& *final(arena) == *old(arena)
                &&& final(log)@ == old(log)@.push(
                    GlCmd::DeleteProgram { program: self.program_id_spec() },
                ).push(GlCmd::DeleteShader { shader: self.shader_ids_spec()[1] }).push(
                    GlCmd::DeleteShader { shader: self.shader_ids_spec()[0] },
                )
            },
            (link_ok && r is Err) ==> {
                &&& r matches Err(e) && e is Texture
                &&& *final(arena) == *old(arena)
                &&& final(log)@ == old(log)@.push(
                    GlCmd::DeleteProgram { program: self.program_id_spec() },
                ).push(GlCmd::DeleteShader { shader: self.shader_ids_spec()[1] }).push(
                    GlCmd::DeleteShader { shader: self.shader_ids_spec()[0] },
                )
            },
    {
        let PendingCube { width, height, depth, mut shaders, link } = self;
        let program = match link.finish(link_ok, diagnostic, log) {
            Ok(p) => p,
            Err(e) => {
                let vert = shaders.remove(1);
                vert.release(log);
                let frag = shaders.remove(0);
                frag.release(log);
                return Err(GeometryError::Link(e));
            },
        };
        let textures = match Texture::from_files(sources, arena, log) {
            Ok(t) => t,
            Err(e) => {
                program.release(log);
                let vert = shaders.remove(1);
                vert.release(log);
                let frag = shaders.remove(0);
                frag.release(log);
                return Err(GeometryError::Texture(e));
            },
        };
        let ghost log_t = log@;
        let ghost tex_seq = textures@;
        let top = mul_bits(mul_bits(height, HALF_BITS), CENTI_BITS);
        let bottom = crate::linalg::neg_bits(top);
        let right = mul_bits(mul_bits(width, HALF_BITS), CENTI_BITS);
        let left = crate::linalg::neg_bits(right);
        let front = mul_bits(mul_bits(depth, HALF_BITS), CENTI_BITS);
        let back = crate::linalg::neg_bits(front);
        let data: Vec<u32> = vec![
        NEG_HALF_BITS, NEG_HALF_BITS, back, 0u32, 0u32, 0u32, 0u32, 0u32,
        HALF_BITS, NEG_HALF_BITS, back, 0u32, 0u32, 0u32, ONE_BITS, 0u32,
        HALF_BITS, HALF_BITS, back, 0u32, 0u32, 0u32, ONE_BITS, ONE_BITS,
        HALF_BITS, HALF_BITS, back, 0u32, 0u32, 0u32, ONE_BITS, ONE_BITS,
        NEG_HALF_BITS, HALF_BITS, back, 0u32, 0u32, 0u32, 0u32, ONE_BITS,
        NEG_HALF_BITS, NEG_HALF_BITS, back, 0u32, 0u32, 0u32, 0u32, 0u32,
        NEG_HALF_BITS, NEG_HALF_BITS, front, 0u32, 0u32, 0u32, 0u32, 0u32,
        HALF_BITS, NEG_HALF_BITS, front, 0u32, 0u32, 0u32, ONE_BITS, 0u32,
        HALF_BITS, HALF_BITS, front, 0u32, 0u32, 0u32, ONE_BITS, ONE_BITS,
        HALF_BITS, HALF_BITS, front, 0u32, 0u32, 0u32, ONE_BITS, ONE_BITS,
        NEG_HALF_BITS, HALF_BITS, front, 0u32, 0u32, 0u32, 0u32, ONE_BITS,
        NEG_HALF_BITS, NEG_HALF_BITS, front, 0u32, 0u32, 0u32, 0u32, 0u32,
        left, HALF_BITS, HALF_BITS, 0u32, 0u32, 0u32, ONE_BITS, 0u32,
        left, HALF_BITS, NEG_HALF_BITS, 0u32, 0u32, 0u32, ONE_BITS, ONE_BITS,
        left, NEG_HALF_BITS, NEG_HALF_BITS, 0u32, 0u32, 0u32, 0u32, ONE_BITS,
        left, NEG_HALF_BITS, NEG_HALF_BITS, 0u32, 0u32, 0u32, 0u32, ONE_BITS,
        left, NEG_HALF_BITS, HALF_BITS, 0u32, 0u32, 0u32, 0u32, 0u32,
        left, HALF_BITS, HALF_BITS, 0u32, 0u32, 0u32, ONE_BITS, 0u32,
        right, HALF_BITS, HALF_BITS, 0u32, 0u32, 0u32, ONE_BITS, 0u32,
        right, HALF_BITS, NEG_HALF_BITS, 0u32, 0u32, 0u32, ONE_BITS, ONE_BITS,
        right, NEG_HALF_BITS, NEG_HALF_BITS, 0u32, 0u32, 0u32, 0u32, ONE_BITS,
        right, NEG_HALF_BITS, NEG_HALF_BITS, 0u32, 0u32, 0u32, 0u32, ONE_BITS,
        right, NEG_HALF_BITS, HALF_BITS, 0u32, 0u32, 0u32, 0u32, 0u32,
        right, HALF_BITS, HALF_BITS, 0u32, 0u32, 0u32, ONE_BITS, 0u32,
        NEG_HALF_BITS, bottom, NEG_HALF_BITS, 0u32, 0u32, 0u32, 0u32, ONE_BITS,
        HALF_BITS, bottom, NEG_HALF_BITS, 0u32, 0u32, 0u32, ONE_BITS, ONE_BITS,
        HALF_BITS, bottom, HALF_BITS, 0u32, 0u32, 0u32, ONE_BITS, 0u32,
        HALF_BITS, bottom, HALF_BITS, 0u32, 0u32, 0u32, ONE_BITS, 0u32,
        NEG_HALF_BITS, bottom, HALF_BITS, 0u32, 0u32, 0u32, 0u32, 0u32,
        NEG_HALF_BITS, bottom, NEG_HALF_BITS, 0u32, 0u32, 0u32, 0u32, ONE_BITS,
        NEG_HALF_BITS, top, NEG_HALF_BITS, 0u32, 0u32, 0u32, 0u32, ONE_BITS,
        HALF_BITS, top, NEG_HALF_BITS, 0u32, 0u32, 0u32, ONE_BITS, ONE_BITS,
        HALF_BITS, top, HALF_BITS, 0u32, 0u32, 0u32, ONE_BITS, 0u32,
        HALF_BITS, top, HALF_BITS, 0u32, 0u32, 0u32, ONE_BITS, 0u32,
        NEG_HALF_BITS, top, HALF_BITS, 0u32, 0u32, 0u32, 0u32, 0u32,
        NEG_HALF_BITS, top, NEG_HALF_BITS, 0u32, 0u32, 0u32, 0u32, ONE_BITS,
        ];
        let indexes: Vec<i32> = vec![
            0i32, 1i32, 2i32, 3i32, 4i32, 5i32,
            6i32, 7i32, 8i32, 9i32, 10i32, 11i32,
            12i32, 13i32, 14i32, 15i32, 16i32, 17i32,
            18i32, 19i32, 20i32, 21i32, 22i32, 23i32,
            24i32, 25i32, 26i32, 27i32, 28i32, 29i32,
            30i32, 31i32, 32i32, 33i32, 34i32, 35i32,
        ];
        let offsets: Vec<(i32, usize)> = vec![(3i32, 0usize), (3i32, 3usize), (2i32, 6usize)];
        assert(data@ =~= cube_data(width, height, depth));
        assert(indexes@ =~= cube_indexes());
        assert(offsets@ =~= shape_offsets());
        let geometry = Geometry::<A>::from_data(
            &data,
            &indexes,
            program,
            textures,
            8,
            &offsets,
            arena,
            log,
        );
        let ghost log_d = log@;
        let vert = shaders.remove(1);
        vert.release(log);
        let frag = shaders.remove(0);
        frag.release(log);
        proof {
            assert(extends(log_t, log_d));
            assert(extends(log_d, log@)) by {
                assert(log_d =~= log@.subrange(0, log_d.len() as int));
            }
            crate::commands::lemma_extends_trans(log_t, log_d, log@);
            let n = sources@.len() as int;
            assert forall|i: int| 0 <= i < n implies upload_cmds_at(
                (old(arena).next_id() + i) as u32,
                decoded_image_of(sources@[i].bytes@)->0,
                log@,
                old(log)@.len() + 9 * i,
            ) by {
                assert(tex_seq[i].id_spec() == (old(arena).next_id() + i) as u32);
                crate::textures::lemma_upload_cmds_extend(
                    tex_seq[i].id_spec(),
                    decoded_image_of(sources@[i].bytes@)->0,
                    log_t,
                    log@,
                    old(log)@.len() + 9 * i,
                );
            }
            lemma_buffer_setup_extend(
                geometry.vao_spec(),
                (geometry.vao_spec() + 1) as u32,
                (geometry.vao_spec() + 2) as u32,
                cube_data(width, height, depth),
                cube_indexes(),
                8,
                shape_offsets(),
                log_d,
                log@,
                log_t.len() as int,
            );
        }
        Ok(geometry)
    }
}

impl<A: Animator> Geometry<A> {
    /// Compiles the fragment and vertex shaders of a cube and emits the
    /// link attempt; the result awaits the link status and the texture
    /// sources in [`PendingCube::finish`]. Fails exactly when a source
    /// holds a NUL byte.
    pub fn cube(
        width: u32,
        height: u32,
        depth: u32,
        frag: &str,
        vert: &str,
        arena: &mut HandleArena,
        log: &mut Vec<GlCmd>,
    ) -> (r: Result<PendingCube, GeometryError>)
        requires
            old(arena).wf(),
            old(arena).next_id() + 3 <= u32::MAX,
        ensures
            final(arena).wf(),
            r is Ok <==> (!frag.spec_bytes().contains(0u8) && !vert.spec_bytes().contains(0u8)),
            extends(old(log)@, final(log)@),
            r matches Ok(p) ==> {
                &&& p.wf()
                &&& p.width_spec() == width
                &&& p.height_spec() == height
                &&& p.depth_spec() == depth
                &&& p.program_id_spec() == old(arena).next_id() + 2
                &&& p.shader_ids_spec() == seq![
                    old(arena).next_id(),
                    (old(arena).next_id() + 1) as u32,
                ]
                &&& final(arena).next_id() == old(arena).next_id() + 3
                &&& added(old(log)@, final(log)@).len() == 14
                &&& compile_cmds_at(
                    old(arena).next_id(),
                    ShaderStage::Fragment,
                    frag@,
                    final(log)@,
                    old(log)@.len() as int,
                )
                &&& compile_cmds_at(
                    (old(arena).next_id() + 1) as u32,
                    ShaderStage::Vertex,
                    vert@,
                    final(log)@,
                    old(log)@.len() as int + 4,
                )
                &&& crate::gl_program::link_cmds_at(
                    (old(arena).next_id() + 2) as u32,
                    seq![old(arena).next_id(), (old(arena).next_id() + 1) as u32],
                    final(log)@,
                    old(log)@.len() as int + 8,
                )
            },
            r matches Err(e) ==> e is Shader,
    {
        let frag_shader = match Shader::from_fragment_src(frag, arena, log) {
            Ok(s) => s,
            Err(e) => {
                return Err(GeometryError::Shader(e));
            },
        };
        let ghost log1 = log@;
        let vertex_shader = match Shader::from_vertex_src(vert, arena, log) {
            Ok(s) => s,
            Err(e) => {
                frag_shader.release(log);
                return Err(GeometryError::Shader(e));
            },
        };
        let ghost log2 = log@;
        let shaders: Vec<Shader> = vec![frag_shader, vertex_shader];
        let link = GLProgram::from_shaders(&shaders, arena, log);
        proof {
            let ghost base = old(log)@.len() as int;
            assert(shaders@ =~= seq![frag_shader, vertex_shader]);
            let ids = shaders@.map(|i: int, s: Shader| s.id_spec());
            assert(ids =~= seq![frag_shader.id_spec(), vertex_shader.id_spec()]);
            crate::commands::lemma_extends_trans(log1, log2, log@);
            crate::shader::lemma_compile_cmds_extend(
                frag_shader.id_spec(),
                ShaderStage::Fragment,
                frag@,
                log1,
                log@,
                base,
            );
            crate::shader::lemma_compile_cmds_extend(
                vertex_shader.id_spec(),
                ShaderStage::Vertex,
                vert@,
                log2,
                log@,
                base + 4,
            );
        }
        Ok(PendingCube { width, height, depth, shaders, link })
    }
}

/// `log` holds, starting at `at`, the buffer-setup commands of `from_data`:
/// generate the vertex-array and both buffers, bind them, upload the vertex
/// floats and the indices, and describe each attribute with its component
/// count, byte stride and byte offset.
pub open spec fn buffer_setup_at(
    vao: u32,
    vbo: u32,
    ebo: u32,
    data: Seq<u32>,
    indexes: Seq<i32>,
    data_size: i32,
    offsets: Seq<(i32, usize)>,
    log: Seq<GlCmd>,
    at: int,
) -> bool {
    &&& at >= 0
    &&& log.len() >= at + 8 + 2 * offsets.len()
    &&& log[at] == (GlCmd::GenVertexArray { vao })
    &&& log[at + 1] == (GlCmd::GenBuffer { buffer: vbo })
    &&& log[at + 2] == (GlCmd::GenBuffer { buffer: ebo })
    &&& log[at + 3] == (GlCmd::BindVertexArray { vao })
    &&& log[at + 4] == (GlCmd::BindBuffer { target: BufferTarget::Array, buffer: vbo })
    &&& (log[at + 5] matches GlCmd::BufferFloatData { target, bits } && target is Array && bits@
        == data)
    &&& log[at + 6] == (GlCmd::BindBuffer { target: BufferTarget::ElementArray, buffer: ebo })
    &&& (log[at + 7] matches GlCmd::BufferIntData { target, data: d } && target is ElementArray
        && d@ == indexes)
    &&& forall|k: int|
        0 <= k < offsets.len() ==> (#[trigger] log[at + 8 + 2 * k]) == (
        GlCmd::EnableVertexAttribArray { index: k as u32 })
    &&& forall|k: int|
        0 <= k < offsets.len() ==> ((#[trigger] log[at + 8 + 2 * k + 1])
            matches GlCmd::VertexAttribPointer { index, components, stride_bytes, offset_bytes }
            && index == k as u32 && components == offsets[k].0 && stride_bytes == data_size * 4
            && offset_bytes == offsets[k].1 * 4)
}

} // verus!
