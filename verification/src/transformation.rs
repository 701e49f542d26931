//! The transformation accumulator: a 4x4 matrix composed from scale,
//! translation and rotation operations by right-multiplication, with an
//! absolute (replacing) perspective-projection operation.
//!
//! Each value carries a ghost model: the base matrix it started from
//! (identity, or the projection that last replaced everything) and the
//! sequence of operation matrices appended since. The well-formedness
//! invariant ties the stored entry bits to the left-to-right product of the
//! model, so the composition law holds of every reachable value.

use vstd::prelude::*;

verus! {

use crate::linalg::Mat4Bits;
use crate::linalg::Vec3Bits;
use crate::linalg::identity_bits;
use crate::linalg::mul4_of;
use crate::linalg::translation4_of;
use crate::linalg::scaling4_of;
use crate::linalg::rotation4_of;
use crate::linalg::perspective4_of;
use crate::linalg::radians_of;
use crate::linalg::mat_mul;
use crate::linalg::mat_translation;
use crate::linalg::mat_scaling;
use crate::linalg::mat_rotation;
use crate::linalg::mat_perspective;
use crate::linalg::radians;
use crate::linalg::perspective_defined_of;

/// An axis-angle rotation: a rotation axis scaled by an angle in degrees.
pub type Angle = Vec3Bits;

/// The ghost model of a transformation: the matrix it was last reset or
/// replaced to, and the operation matrices appended since, oldest first.
pub ghost struct TransformModel {
    pub base: Seq<u32>,
    pub ops: Seq<Seq<u32>>,
}

/// The left-to-right product `base * ops[0] * ops[1] * ... * ops[n-1]`:
/// every appended operation acts nearest to the accumulated transform.
pub open spec fn fold_mul(base: Seq<u32>, ops: Seq<Seq<u32>>) -> Seq<u32>
    decreases ops.len(),
{
    if ops.len() == 0 {
        base
    } else {
        mul4_of(fold_mul(base, ops.drop_last()), ops.last())
    }
}

impl TransformModel {
    /// The matrix this model denotes.
    pub open spec fn matrix(self) -> Seq<u32> {
        fold_mul(self.base, self.ops)
    }
}

/// The model of a fresh transformation: the identity with no operations.
pub open spec fn fresh_model() -> TransformModel {
    TransformModel { base: identity_bits(), ops: Seq::empty() }
}

/// The model after appending a translation by `(x, y, z)`.
pub open spec fn after_translate(m: TransformModel, x: u32, y: u32, z: u32) -> TransformModel {
    TransformModel { base: m.base, ops: m.ops.push(translation4_of(x, y, z)) }
}

/// The model after appending a uniform scaling by `factor`.
pub open spec fn after_scale(m: TransformModel, factor: u32) -> TransformModel {
    TransformModel { base: m.base, ops: m.ops.push(scaling4_of(factor, factor, factor)) }
}

/// The model after appending a rotation by the axis-angle vector `angle`
/// (given in degrees and converted component-wise to radians).
pub open spec fn after_rotate(m: TransformModel, angle: Angle) -> TransformModel {
    TransformModel {
        base: m.base,
        ops: m.ops.push(rotation4_of(radians_of(angle.x), radians_of(angle.y), radians_of(angle.z))),
    }
}

/// The projection matrix installed by `perspective`: the aspect ratio is
/// passed through the degrees-to-radians conversion first.
pub open spec fn perspective_matrix(aspect: u32, fovy: u32, znear: u32, zfar: u32) -> Seq<u32> {
    perspective4_of(radians_of(aspect), fovy, znear, zfar)
}

/// The model after `perspective`: the projection replaces everything, so no
/// part of the prior model survives.
pub open spec fn after_perspective(
    m: TransformModel,
    aspect: u32,
    fovy: u32,
    znear: u32,
    zfar: u32,
) -> TransformModel {
    TransformModel { base: perspective_matrix(aspect, fovy, znear, zfar), ops: Seq::empty() }
}

/// Appending one operation right-multiplies the accumulated matrix by it.
pub proof fn lemma_compose_step(m: TransformModel, op: Seq<u32>)
    ensures
        fold_mul(m.base, m.ops.push(op)) == mul4_of(m.matrix(), op),
{
    assert(m.ops.push(op).drop_last() =~= m.ops);
}

/// The composition law: every reachable transformation's stored matrix is
/// the left-to-right product of its base matrix and each operation applied
/// since, in application order — for a fresh transformation, the chain
/// `identity * op1 * op2 * ... * opN`.
pub proof fn lemma_matrix_is_composition(t: Transformation)
    requires
        t.wf(),
    ensures
        t.matrix_bits() == fold_mul(t@.base, t@.ops),
        t@.base == identity_bits() ==> t.matrix_bits() == fold_mul(identity_bits(), t@.ops),
{
}

/// Setting the projection forgets everything that came before: two
/// transformation histories, however different, denote the same matrix after
/// the same `perspective` call, and still agree after any further
/// translation — a translation done before the projection leaves no trace.
pub proof fn lemma_perspective_replaces(
    m1: TransformModel,
    m2: TransformModel,
    aspect: u32,
    fovy: u32,
    znear: u32,
    zfar: u32,
    x: u32,
    y: u32,
    z: u32,
)
    ensures
        after_perspective(m1, aspect, fovy, znear, zfar)
            == after_perspective(m2, aspect, fovy, znear, zfar),
        after_translate(after_perspective(m1, aspect, fovy, znear, zfar), x, y, z).matrix()
            == after_translate(after_perspective(m2, aspect, fovy, znear, zfar), x, y, z).matrix(),
{
}

/// A 4x4 matrix accumulating composition operations, identity-initialized.
pub struct Transformation {
    matrix: Mat4Bits,
    model: Ghost<TransformModel>,
}

impl View for Transformation {
    type V = TransformModel;

    closed spec fn view(&self) -> TransformModel {
        self.model@
    }
}

impl Transformation {
    /// The column-major entry bits of the accumulated matrix.
    pub closed spec fn matrix_bits(&self) -> Seq<u32> {
        self.matrix@
    }

    /// The stored matrix is exactly the product the model denotes.
    pub open spec fn wf(&self) -> bool {
        self.matrix_bits() == self@.matrix() && self.matrix_bits().len() == 16
    }

    pub fn new() -> (t: Transformation)
        ensures
            t.wf(),
            t@ == fresh_model(),
    {
        Transformation { matrix: Mat4Bits::identity(), model: Ghost(fresh_model()) }
    }

    /// Appends a translation by `(x, y, z)`: the new matrix is the old one
    /// right-multiplied by the translation matrix.
    pub fn translade(&mut self, x: u32, y: u32, z: u32)
        requires
            old(self).wf(),
        ensures
            final(self).wf(),
            final(self)@ == after_translate(old(self)@, x, y, z),
            final(self).matrix_bits() == mul4_of(old(self).matrix_bits(), translation4_of(x, y, z)),
    {
        let op = mat_translation(x, y, z);
        self.matrix = mat_mul(&self.matrix, &op);
        proof {
            lemma_compose_step(self.model@, translation4_of(x, y, z));
        }
        self.model = Ghost(after_translate(self.model@, x, y, z));
    }

    /// Appends a uniform scaling: the new matrix is the old one
    /// right-multiplied by the scale matrix.
    pub fn scale(&mut self, scale_factor: u32)
        requires
            old(self).wf(),
        ensures
            final(self).wf(),
            final(self)@ == after_scale(old(self)@, scale_factor),
            final(self).matrix_bits() == mul4_of(
                old(self).matrix_bits(),
                scaling4_of(scale_factor, scale_factor, scale_factor),
            ),
    {
        let op = mat_scaling(scale_factor, scale_factor, scale_factor);
        self.matrix = mat_mul(&self.matrix, &op);
        proof {
            lemma_compose_step(self.model@, scaling4_of(scale_factor, scale_factor, scale_factor));
        }
        self.model = Ghost(after_scale(self.model@, scale_factor));
    }

    /// Appends a rotation about the axis of `angle` by its length in
    /// degrees: the new matrix is the old one right-multiplied by the
    /// rotation matrix for the radian-converted axis-angle vector.
    pub fn rotate(&mut self, angle: Angle)
        requires
            old(self).wf(),
        ensures
            final(self).wf(),
            final(self)@ == after_rotate(old(self)@, angle),
            final(self).matrix_bits() == mul4_of(
                old(self).matrix_bits(),
                rotation4_of(radians_of(angle.x), radians_of(angle.y), radians_of(angle.z)),
            ),
    {
        let rx = radians(angle.x);
        let ry = radians(angle.y);
        let rz = radians(angle.z);
        let op = mat_rotation(rx, ry, rz);
        self.matrix = mat_mul(&self.matrix, &op);
        proof {
            lemma_compose_step(
                self.model@,
                rotation4_of(radians_of(angle.x), radians_of(angle.y), radians_of(angle.z)),
            );
        }
        self.model = Ghost(after_rotate(self.model@, angle));
    }

    /// Replaces the accumulated matrix with a perspective projection; unlike
    /// the composition operations, nothing of the prior state survives. The
    /// caller must stay on the projection's domain (the underlying call
    /// rejects a near-zero aspect value and coinciding clip planes);
    /// [`Transformation::try_perspective`] checks the domain itself.
    pub fn perspective(&mut self, aspect: u32, fovy: u32, znear: u32, zfar: u32)
        requires
            perspective_defined_of(radians_of(aspect), fovy, znear, zfar),
        ensures
            final(self).wf(),
            final(self)@ == after_perspective(old(self)@, aspect, fovy, znear, zfar),
            final(self).matrix_bits() == perspective_matrix(aspect, fovy, znear, zfar),
    {
        let a = radians(aspect);
        self.matrix = match mat_perspective(a, fovy, znear, zfar) {
            Some(m) => m,
            None => {
                // unreachable: the precondition puts the call on the domain
                proof {
                    assert(false);
                }
                Mat4Bits::identity()
            },
        };
        self.model = Ghost(after_perspective(self.model@, aspect, fovy, znear, zfar));
    }

    /// Installs a perspective projection if its arguments lie on the
    /// projection's domain, and reports whether it did; off the domain
    /// (a near-zero aspect value, or near and far planes that coincide)
    /// the transformation is left untouched.
    pub fn try_perspective(&mut self, aspect: u32, fovy: u32, znear: u32, zfar: u32) -> (ok: bool)
        ensures
            ok == perspective_defined_of(radians_of(aspect), fovy, znear, zfar),
            ok ==> final(self).wf() && final(self)@ == after_perspective(
                old(self)@,
                aspect,
                fovy,
                znear,
                zfar,
            ) && final(self).matrix_bits() == perspective_matrix(aspect, fovy, znear, zfar),
            !ok ==> *final(self) == *old(self),
    {
        let a = radians(aspect);
        match mat_perspective(a, fovy, znear, zfar) {
            Some(_) => {
                self.perspective(aspect, fovy, znear, zfar);
                true
            },
            None => false,
        }
    }

    /// Hard-sets the accumulated matrix back to the identity.
    pub fn reset_transformations(&mut self)
        ensures
            final(self).wf(),
            final(self)@ == fresh_model(),
            final(self).matrix_bits() == identity_bits(),
    {
        self.matrix = Mat4Bits::identity();
        self.model = Ghost(fresh_model());
    }

    /// A read-only view of the 16 accumulated entry bits in column-major
    /// order, ready for upload as a matrix uniform.
    pub fn internal_ptr(&self) -> (r: &Vec<u32>)
        ensures
            r@ == self.matrix_bits(),
    {
        self.matrix.entries()
    }

    /// A copy of the accumulated matrix.
    pub fn snapshot(&self) -> (r: Mat4Bits)
        ensures
            r@ == self.matrix_bits(),
    {
        self.matrix.clone_bits()
    }
}

} // verus!
