//! The scene: an ordered collection of geometries, a projection matrix and a
//! camera. Each frame renders every geometry in insertion order, recomputing
//! the camera's view matrix for each one and staging the projection, view
//! and model matrices on that geometry's program before drawing.

use vstd::prelude::*;

verus! {

use crate::camera::Action;
use crate::camera::Camera;
use crate::camera::Key;
use crate::camera::camera_step;
use crate::camera::camera_view;
use crate::camera::initial_camera;
use crate::commands::GlCmd;
use crate::commands::added;
use crate::commands::draw_count;
use crate::commands::extends;
use crate::commands::lemma_counts_add;
use crate::geometry::Animator;
use crate::geometry::Geometry;
use crate::transformation::Transformation;
use crate::transformation::fresh_model;

/// How many indexed draws one geometry issues: one, or one per instance
/// position.
pub open spec fn expected_draws<A: Animator>(g: Geometry<A>) -> nat {
    if g.positions_spec().len() == 0 {
        1nat
    } else {
        g.positions_spec().len()
    }
}

/// How many indexed draws a render pass over these geometries issues.
pub open spec fn total_draws<A: Animator>(gs: Seq<Geometry<A>>) -> nat
    decreases gs.len(),
{
    if gs.len() == 0 {
        0
    } else {
        total_draws(gs.drop_last()) + expected_draws(gs.last())
    }
}

/// What one render pass does to one geometry: everything stays as it was,
/// except that the projection, view and model matrices are staged on its
/// program (and its model transformation may have been advanced by its
/// animation hook).
pub open spec fn rendered<A: Animator>(
    g_old: Geometry<A>,
    g_new: Geometry<A>,
    proj: Seq<u32>,
    view: Seq<u32>,
) -> bool {
    &&& g_new.wf()
    &&& g_new.vao_spec() == g_old.vao_spec()
    &&& g_new.textures_spec() == g_old.textures_spec()
    &&& g_new.idx_size_spec() == g_old.idx_size_spec()
    &&& g_new.positions_spec() == g_old.positions_spec()
    &&& g_new.has_animator() == g_old.has_animator()
    &&& g_new.program_spec().id_spec() == g_old.program_spec().id_spec()
    &&& g_new.program_spec().floats_map() == g_old.program_spec().floats_map()
    &&& g_new.program_spec().ints_map() == g_old.program_spec().ints_map()
    &&& g_new.program_spec().bools_map() == g_old.program_spec().bools_map()
    &&& g_new.program_spec().matrices_map().dom() == g_old.program_spec().matrices_map().dom()
        .insert("projection"@).insert("view"@).insert("model"@)
    &&& g_new.program_spec().matrices_map()["projection"@]@ == proj
    &&& g_new.program_spec().matrices_map()["view"@]@ == view
    &&& g_new.program_spec().matrices_map()["model"@]@ == g_old.matrix_spec().matrix_bits()
    &&& forall|k: Seq<char>|
        g_old.program_spec().matrices_map().dom().contains(k) && k != "projection"@ && k
            != "view"@ && k != "model"@ ==> g_new.program_spec().matrices_map()[k]
            == g_old.program_spec().matrices_map()[k]
}

/// An ordered collection of geometries with a projection matrix and a
/// camera; render order is insertion order.
pub struct Scene<A: Animator> {
    geometries: Vec<Geometry<A>>,
    projection_matrix: Transformation,
    camera: Camera,
}

impl<A: Animator> Scene<A> {
    pub closed spec fn geometries_spec(&self) -> Seq<Geometry<A>> {
        self.geometries@
    }

    pub closed spec fn projection_spec(&self) -> Transformation {
        self.projection_matrix
    }

    pub closed spec fn camera_spec(&self) -> Camera {
        self.camera
    }

    /// Every geometry and the projection matrix are well-formed.
    pub open spec fn wf(&self) -> bool {
        &&& self.projection_spec().wf()
        &&& forall|j: int|
            0 <= j < self.geometries_spec().len() ==> (#[trigger] self.geometries_spec()[j]).wf()
                && self.geometries_spec()[j].textures_spec().len() <= u32::MAX
    }

    /// An empty scene with an identity projection and the starting camera.
    pub fn new() -> (s: Scene<A>)
        ensures
            s.wf(),
            s.geometries_spec() == Seq::<Geometry<A>>::empty(),
            s.projection_spec()@ == fresh_model(),
            s.camera_spec() == initial_camera(),
    {
        Scene {
            geometries: Vec::new(),
            projection_matrix: Transformation::new(),
            camera: Camera::new(),
        }
    }

    /// Exclusive access to the projection matrix.
    pub fn projection(&mut self) -> (r: &mut Transformation)
        ensures
            *r == old(self).projection_spec(),
            final(self).projection_spec() == *final(r),
            final(self).geometries_spec() == old(self).geometries_spec(),
            final(self).camera_spec() == old(self).camera_spec(),
    {
        &mut self.projection_matrix
    }

    /// Exclusive access to the camera.
    pub fn _camera(&mut self) -> (r: &mut Camera)
        ensures
            *r == old(self).camera_spec(),
            final(self).camera_spec() == *final(r),
            final(self).geometries_spec() == old(self).geometries_spec(),
            final(self).projection_spec() == old(self).projection_spec(),
    {
        &mut self.camera
    }

    /// Exclusive access to the geometry list.
    pub fn geometries(&mut self) -> (r: &mut Vec<Geometry<A>>)
        ensures
            (*r)@ == old(self).geometries_spec(),
            final(self).geometries_spec() == (*final(r))@,
            final(self).camera_spec() == old(self).camera_spec(),
            final(self).projection_spec() == old(self).projection_spec(),
    {
        &mut self.geometries
    }

    /// Renders every geometry in insertion order: recomputes the camera's
    /// view matrix, stages the projection and the fresh view matrix on the
    /// geometry's program, stages its model matrix, and draws. The camera
    /// and the projection are read, never changed, and the number of
    /// indexed draws is exactly the per-geometry sum.
    pub fn render(&mut self, rng: &mut rand::rngs::StdRng, log: &mut Vec<GlCmd>)
        requires
            old(self).wf(),
        ensures
            final(self).wf(),
            final(self).geometries_spec().len() == old(self).geometries_spec().len(),
            final(self).camera_spec() == old(self).camera_spec(),
            final(self).projection_spec() == old(self).projection_spec(),
            extends(old(log)@, final(log)@),
            draw_count(added(old(log)@, final(log)@)) == total_draws(
                old(self).geometries_spec(),
            ),
            forall|j: int|
                0 <= j < old(self).geometries_spec().len() ==> rendered(
                    old(self).geometries_spec()[j],
                    #[trigger] final(self).geometries_spec()[j],
                    old(self).projection_spec().matrix_bits(),
                    camera_view(old(self).camera_spec()),
                ),
    {
        let ghost old_gs = self.geometries@;
        let ghost proj_bits = self.projection_matrix.matrix_bits();
        let ghost view_bits = camera_view(self.camera);
        let ghost log0 = log@;
        let ghost base = log@.len() as int;
        proof {
            reveal_strlit("projection");
            reveal_strlit("view");
            reveal_strlit("model");
        }
        let mut done: Vec<Geometry<A>> = Vec::new();
        while self.geometries.len() > 0
            invariant
                done@.len() + self.geometries@.len() == old_gs.len(),
                self.geometries@ =~= old_gs.skip(done@.len() as int),
                self.camera == old(self).camera_spec(),
                self.projection_matrix == old(self).projection_spec(),
                proj_bits == old(self).projection_spec().matrix_bits(),
                view_bits == camera_view(old(self).camera_spec()),
                old(self).wf(),
                old_gs == old(self).geometries_spec(),
                self.projection_matrix.wf(),
                base == log0.len(),
                log0.is_prefix_of(log@),
                draw_count(log@.skip(base)) == total_draws(old_gs.take(done@.len() as int)),
                forall|j: int|
                    0 <= j < done@.len() ==> rendered(
                        old_gs[j],
                        #[trigger] done@[j],
                        proj_bits,
                        view_bits,
                    ),
            decreases self.geometries@.len(),
        {
            let ghost k = done@.len() as int;
            let mut g = self.geometries.remove(0);
            proof {
                assert(g == old_gs[k]);
                assert(g.wf() && g.textures_spec().len() <= u32::MAX);
                assert(self.geometries@ =~= old_gs.skip(k + 1));
                reveal_strlit("projection");
                reveal_strlit("view");
                reveal_strlit("model");
                assert("projection"@.len() == 10 && "view"@.len() == 4 && "model"@.len() == 5);
                assert("projection"@ != "view"@ && "projection"@ != "model"@ && "view"@
                    != "model"@);
            }
            let view_matrix = self.camera.view();
            let proj_matrix = self.projection_matrix.snapshot();
            g.program_mut().set_matrix("projection", &proj_matrix);
            g.program_mut().set_matrix("view", &view_matrix);
            g.before_draw();
            let ghost log_pre = log@;
            g.draw(rng, log);
            proof {
                assert(rendered(old_gs[k], g, proj_bits, view_bits)) by {
                    assert(g.program_spec().matrices_map().dom() =~= old_gs[k].program_spec()
                        .matrices_map().dom().insert("projection"@).insert("view"@).insert(
                        "model"@,
                    ));
                }
                assert(log@.skip(base) =~= log_pre.skip(base) + added(log_pre, log@));
                lemma_counts_add(log_pre.skip(base), added(log_pre, log@));
                assert(old_gs.take(k + 1).drop_last() =~= old_gs.take(k));
                assert(old_gs.take(k + 1).last() == old_gs[k]);
                assert(log0.is_prefix_of(log@)) by {
                    assert(log0 =~= log@.subrange(0, log0.len() as int));
                }
            }
            done.push(g);
        }
        proof {
            assert(old_gs.take(old_gs.len() as int) =~= old_gs);
        }
        self.geometries = done;
        proof {
            assert(added(log0, log@) =~= log@.skip(base));
        }
    }

    /// Forwards a key event to the camera; movement keys are consumed,
    /// anything else is not.
    pub fn key_event(&mut self, key: Key, _scancode: i32, action: Action, _modifiers: u32) -> (consumed:
        bool)
        ensures
            consumed == (action is Press && !(key is Other)),
            final(self).camera_spec() == camera_step(old(self).camera_spec(), key, action),
            final(self).geometries_spec() == old(self).geometries_spec(),
            final(self).projection_spec() == old(self).projection_spec(),
    {
        self.camera.key_event(key, _scancode, action, _modifiers)
    }

    /// Mouse presses are not handled by the scene.
    pub fn mouse_press_event(&mut self, _button: u32, _action: Action, _modifiers: u32) -> (r:
        bool)
        ensures
            !r,
            *final(self) == *old(self),
    {
        false
    }

    /// Mouse movement is not handled by the scene; the coordinates arrive
    /// as double-precision bit patterns.
    pub fn mouse_move_event(&mut self, _x: u64, _y: u64) -> (r: bool)
        ensures
            !r,
            *final(self) == *old(self),
    {
        false
    }
}

} // verus!
