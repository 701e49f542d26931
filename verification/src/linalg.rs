//! Matrix and vector values for the rendering pipeline.
//!
//! Every scalar is the raw bit pattern (`u32`) of an IEEE-754 single-precision
//! number. The library never computes with the floats itself: each operation
//! is delegated to the `nalgebra_glm` crate through a trusted wrapper, and the
//! result of each wrapped operation is given a name (an uninterpreted spec
//! function of the operand bits), so that contracts throughout the crate can
//! speak exactly about which matrix or vector a value is.

use vstd::prelude::*;

verus! {

use gl::types::GLfloat;

/// A 4x4 single-precision matrix held as 16 bit patterns in column-major
/// order.
pub struct Mat4Bits {
    entries: Vec<u32>,
}

impl View for Mat4Bits {
    type V = Seq<u32>;

    closed spec fn view(&self) -> Seq<u32> {
        self.entries@
    }
}

/// A 3-component single-precision vector held as three bit patterns.
#[derive(Clone, Copy, PartialEq, Eq, Structural, Debug)]
pub struct Vec3Bits {
    pub x: u32,
    pub y: u32,
    pub z: u32,
}

impl Vec3Bits {
    pub fn new(x: u32, y: u32, z: u32) -> (r: Vec3Bits)
        ensures
            r == (Vec3Bits { x, y, z }),
    {
        Vec3Bits { x, y, z }
    }
}

/// The first three entries of a sequence of scalar bits, as a vector.
pub open spec fn v3(s: Seq<u32>) -> Vec3Bits {
    Vec3Bits { x: s[0], y: s[1], z: s[2] }
}

/// The component-wise sum of two vectors, by its name.
pub open spec fn vadd3(a: Vec3Bits, b: Vec3Bits) -> Vec3Bits {
    v3(vadd3_of(a.x, a.y, a.z, b.x, b.y, b.z))
}

/// The component-wise difference of two vectors, by its name.
pub open spec fn vsub3(a: Vec3Bits, b: Vec3Bits) -> Vec3Bits {
    v3(vsub3_of(a.x, a.y, a.z, b.x, b.y, b.z))
}

/// A vector scaled by a scalar, by its name.
pub open spec fn vscale3(s: u32, v: Vec3Bits) -> Vec3Bits {
    v3(vscale3_of(s, v.x, v.y, v.z))
}

/// The cross product of two vectors, by its name.
pub open spec fn vcross3(a: Vec3Bits, b: Vec3Bits) -> Vec3Bits {
    v3(cross3_of(a.x, a.y, a.z, b.x, b.y, b.z))
}

/// A vector normalized to unit length, by its name.
pub open spec fn vnormalize3(v: Vec3Bits) -> Vec3Bits {
    v3(normalize3_of(v.x, v.y, v.z))
}

/// The component-wise product of two vectors, by its name.
pub open spec fn vcmul3(a: Vec3Bits, b: Vec3Bits) -> Vec3Bits {
    v3(cmul3_of(a.x, a.y, a.z, b.x, b.y, b.z))
}

/// What multiplying two 4x4 matrices returns: the entry bits of `a * b`.
pub uninterp spec fn mul4_of(a: Seq<u32>, b: Seq<u32>) -> Seq<u32>;

/// What `nalgebra_glm::translation` returns for the vector `(x, y, z)`.
pub uninterp spec fn translation4_of(x: u32, y: u32, z: u32) -> Seq<u32>;

impl Mat4Bits {
    pub open spec fn wf(&self) -> bool {
        self@.len() == 16
    }

    /// The raw column-major entry bits.
    pub fn entries(&self) -> (r: &Vec<u32>)
        ensures
            r@ == self@,
    {
        &self.entries
    }

    pub fn from_entries(entries: Vec<u32>) -> (r: Mat4Bits)
        requires
            entries@.len() == 16,
        ensures
            r@ == entries@,
    {
        Mat4Bits { entries }
    }

    pub fn clone_bits(&self) -> (r: Mat4Bits)
        ensures
            r@ == self@,
    {
        Mat4Bits { entries: copy_u32_vec(&self.entries) }
    }
}

/// An element-by-element copy of a vector of scalar bits.
pub(crate) fn copy_u32_vec(v: &Vec<u32>) -> (r: Vec<u32>)
    ensures
        r@ == v@,
{
    let mut out: Vec<u32> = Vec::new();
    let mut i: usize = 0;
    while i < v.len()
        invariant
            i <= v@.len(),
            out@ == v@.subrange(0, i as int),
        decreases v@.len() - i,
    {
        out.push(v[i]);
        i = i + 1;
    }
    assert(out@ == v@);
    out
}

/// An element-by-element copy of a vector of 32-bit integers.
pub(crate) fn copy_i32_vec(v: &Vec<i32>) -> (r: Vec<i32>)
    ensures
        r@ == v@,
{
    let mut out: Vec<i32> = Vec::new();
    let mut i: usize = 0;
    while i < v.len()
        invariant
            i <= v@.len(),
            out@ == v@.subrange(0, i as int),
        decreases v@.len() - i,
    {
        out.push(v[i]);
        i = i + 1;
    }
    assert(out@ == v@);
    out
}

/// An element-by-element copy of a vector of bytes.
pub(crate) fn copy_u8_vec(v: &Vec<u8>) -> (r: Vec<u8>)
    ensures
        r@ == v@,
{
    let mut out: Vec<u8> = Vec::new();
    let mut i: usize = 0;
    while i < v.len()
        invariant
            i <= v@.len(),
            out@ == v@.subrange(0, i as int),
        decreases v@.len() - i,
    {
        out.push(v[i]);
        i = i + 1;
    }
    assert(out@ == v@);
    out
}

/// Relies on the `Mul` implementation of `nalgebra` 4x4 matrices: returns the
/// matrix product `a * b`, a function of the operand bits alone.
#[verifier::external_body]
pub(crate) fn mat_mul(a: &Mat4Bits, b: &Mat4Bits) -> (r: Mat4Bits)
    requires
        a.wf(),
        b.wf(),
    ensures
        r@ == mul4_of(a@, b@),
        r.wf(),
{
    let fa: Vec<GLfloat> = a.entries.iter().map(|x| GLfloat::from_bits(*x)).collect();
    let fb: Vec<GLfloat> = b.entries.iter().map(|x| GLfloat::from_bits(*x)).collect();
    let m = nalgebra_glm::Mat4::from_column_slice(&fa) * nalgebra_glm::Mat4::from_column_slice(&fb);
    Mat4Bits { entries: m.as_slice().iter().map(|x| x.to_bits()).collect() }
}

/// Relies on `nalgebra_glm::translation`: the 4x4 translation matrix for the
/// vector `(x, y, z)`, a function of the component bits alone.
#[verifier::external_body]
pub(crate) fn mat_translation(x: u32, y: u32, z: u32) -> (r: Mat4Bits)
    ensures
        r@ == translation4_of(x, y, z),
        r.wf(),
{
    let m = nalgebra_glm::translation(&nalgebra_glm::vec3(
        GLfloat::from_bits(x),
        GLfloat::from_bits(y),
        GLfloat::from_bits(z),
    ));
    Mat4Bits { entries: m.as_slice().iter().map(|v| v.to_bits()).collect() }
}

/// What `nalgebra_glm::scaling` returns for the vector `(x, y, z)`.
pub uninterp spec fn scaling4_of(x: u32, y: u32, z: u32) -> Seq<u32>;

/// Relies on `nalgebra_glm::scaling`: the 4x4 scale matrix for the vector
/// `(x, y, z)`, a function of the component bits alone.
#[verifier::external_body]
pub(crate) fn mat_scaling(x: u32, y: u32, z: u32) -> (r: Mat4Bits)
    ensures
        r@ == scaling4_of(x, y, z),
        r.wf(),
{
    let m = nalgebra_glm::scaling(&nalgebra_glm::vec3(
        GLfloat::from_bits(x),
        GLfloat::from_bits(y),
        GLfloat::from_bits(z),
    ));
    Mat4Bits { entries: m.as_slice().iter().map(|v| v.to_bits()).collect() }
}

/// What `Mat4::from_scaled_axis` returns for the axis-angle vector
/// `(x, y, z)` (a rotation about that axis by its length, in radians).
pub uninterp spec fn rotation4_of(x: u32, y: u32, z: u32) -> Seq<u32>;

/// Relies on `nalgebra`'s `Matrix4::from_scaled_axis`: the 4x4 rotation
/// matrix for the scaled-axis vector, a function of the component bits alone.
#[verifier::external_body]
pub(crate) fn mat_rotation(x: u32, y: u32, z: u32) -> (r: Mat4Bits)
    ensures
        r@ == rotation4_of(x, y, z),
        r.wf(),
{
    let m = nalgebra_glm::Mat4::from_scaled_axis(nalgebra_glm::vec3(
        GLfloat::from_bits(x),
        GLfloat::from_bits(y),
        GLfloat::from_bits(z),
    ));
    Mat4Bits { entries: m.as_slice().iter().map(|v| v.to_bits()).collect() }
}

/// What `nalgebra_glm::rotation` returns for an angle in radians and an
/// axis vector (normalized internally).
pub uninterp spec fn rotation_axis4_of(angle: u32, ax: u32, ay: u32, az: u32) -> Seq<u32>;

/// Relies on `nalgebra_glm::rotation`: the 4x4 rotation matrix about the
/// (normalized) axis by the angle, a function of the argument bits alone.
#[verifier::external_body]
pub(crate) fn mat_rotation_axis(angle: u32, axis: Vec3Bits) -> (r: Mat4Bits)
    ensures
        r@ == rotation_axis4_of(angle, axis.x, axis.y, axis.z),
        r.wf(),
{
    let m = nalgebra_glm::rotation(
        GLfloat::from_bits(angle),
        &nalgebra_glm::vec3(
            GLfloat::from_bits(axis.x),
            GLfloat::from_bits(axis.y),
            GLfloat::from_bits(axis.z),
        ),
    );
    Mat4Bits { entries: m.as_slice().iter().map(|v| v.to_bits()).collect() }
}

/// What `nalgebra_glm::perspective` returns for aspect ratio, vertical field
/// of view (radians), and near/far clip distances.
pub uninterp spec fn perspective4_of(aspect: u32, fovy: u32, znear: u32, zfar: u32) -> Seq<u32>;

/// Where `nalgebra_glm::perspective` is defined: the function asserts that
/// the aspect value and the far/near difference are not within machine
/// epsilon of zero, and panics otherwise. This names that domain, a
/// function of the argument bits alone.
pub uninterp spec fn perspective_defined_of(aspect: u32, fovy: u32, znear: u32, zfar: u32) -> bool;

/// Relies on `nalgebra_glm::perspective`: the right-handed perspective
/// projection matrix, a function of the argument bits alone. The call is
/// made only on its domain: the function's own assertions reject an aspect
/// value or a far/near difference within machine epsilon of zero (the
/// `relative_eq`-to-zero check both assertions reduce to), and this wrapper
/// performs exactly that check first, answering `None` where the call would
/// abort.
#[verifier::external_body]
pub(crate) fn mat_perspective(aspect: u32, fovy: u32, znear: u32, zfar: u32) -> (r: Option<
    Mat4Bits,
>)
    ensures
        r is Some <==> perspective_defined_of(aspect, fovy, znear, zfar),
        r matches Some(m) ==> m@ == perspective4_of(aspect, fovy, znear, zfar) && m.wf(),
{
    let a = GLfloat::from_bits(aspect);
    let n = GLfloat::from_bits(znear);
    let f = GLfloat::from_bits(zfar);
    if (f - n).abs() <= GLfloat::EPSILON || a.abs() <= GLfloat::EPSILON {
        return None;
    }
    let m = nalgebra_glm::perspective(a, GLfloat::from_bits(fovy), n, f);
    Some(Mat4Bits { entries: m.as_slice().iter().map(|v| v.to_bits()).collect() })
}

/// What `nalgebra_glm::look_at` returns for eye, target and up vectors.
pub uninterp spec fn look_at4_of(
    ex: u32, ey: u32, ez: u32,
    cx: u32, cy: u32, cz: u32,
    ux: u32, uy: u32, uz: u32,
) -> Seq<u32>;

/// Relies on `nalgebra_glm::look_at`: the right-handed view matrix looking
/// from `eye` toward `center`, a function of the component bits alone.
#[verifier::external_body]
pub(crate) fn mat_look_at(eye: Vec3Bits, center: Vec3Bits, up: Vec3Bits) -> (r: Mat4Bits)
    ensures
        r@ == look_at4_of(eye.x, eye.y, eye.z, center.x, center.y, center.z, up.x, up.y, up.z),
        r.wf(),
{
    let m = nalgebra_glm::look_at(
        &nalgebra_glm::vec3(GLfloat::from_bits(eye.x), GLfloat::from_bits(eye.y), GLfloat::from_bits(eye.z)),
        &nalgebra_glm::vec3(GLfloat::from_bits(center.x), GLfloat::from_bits(center.y), GLfloat::from_bits(center.z)),
        &nalgebra_glm::vec3(GLfloat::from_bits(up.x), GLfloat::from_bits(up.y), GLfloat::from_bits(up.z)),
    );
    Mat4Bits { entries: m.as_slice().iter().map(|v| v.to_bits()).collect() }
}

/// What `nalgebra_glm::radians` returns for one degree value: the angle
/// multiplied by pi and divided by 180.
pub uninterp spec fn radians_of(degrees: u32) -> u32;

/// Relies on `nalgebra_glm::radians`: degrees to radians by the formula
/// `degrees * pi / 180`, a function of the argument bits alone.
#[verifier::external_body]
pub fn radians(degrees: u32) -> (r: u32)
    ensures
        r == radians_of(degrees),
{
    nalgebra_glm::radians(&nalgebra_glm::vec1(GLfloat::from_bits(degrees))).x.to_bits()
}

/// What multiplying two single-precision scalars returns.
pub uninterp spec fn prod_of(a: u32, b: u32) -> u32;

/// Relies on `f32` multiplication: the IEEE-754 product of the two scalars,
/// a function of the operand bits alone.
#[verifier::external_body]
pub(crate) fn mul_bits(a: u32, b: u32) -> (r: u32)
    ensures
        r == prod_of(a, b),
{
    (GLfloat::from_bits(a) * GLfloat::from_bits(b)).to_bits()
}

/// What the component-wise product of two 3-vectors returns.
pub uninterp spec fn cmul3_of(ax: u32, ay: u32, az: u32, bx: u32, by: u32, bz: u32) -> Seq<u32>;

/// Relies on `nalgebra`'s `component_mul` on 3-vectors: the component-wise
/// product, a function of the component bits alone.
#[verifier::external_body]
pub(crate) fn vec_component_mul(a: Vec3Bits, b: Vec3Bits) -> (r: Vec3Bits)
    ensures
        r == v3(cmul3_of(a.x, a.y, a.z, b.x, b.y, b.z)),
{
    let v = nalgebra_glm::vec3(GLfloat::from_bits(a.x), GLfloat::from_bits(a.y), GLfloat::from_bits(a.z))
        .component_mul(&nalgebra_glm::vec3(GLfloat::from_bits(b.x), GLfloat::from_bits(b.y), GLfloat::from_bits(b.z)));
    Vec3Bits { x: v.x.to_bits(), y: v.y.to_bits(), z: v.z.to_bits() }
}

/// What adding two 3-vectors returns.
pub uninterp spec fn vadd3_of(ax: u32, ay: u32, az: u32, bx: u32, by: u32, bz: u32) -> Seq<u32>;

/// Relies on `nalgebra`'s vector addition: the component-wise sum, a
/// function of the component bits alone.
#[verifier::external_body]
pub(crate) fn vec_add(a: Vec3Bits, b: Vec3Bits) -> (r: Vec3Bits)
    ensures
        r == v3(vadd3_of(a.x, a.y, a.z, b.x, b.y, b.z)),
{
    let v = nalgebra_glm::vec3(GLfloat::from_bits(a.x), GLfloat::from_bits(a.y), GLfloat::from_bits(a.z))
        + nalgebra_glm::vec3(GLfloat::from_bits(b.x), GLfloat::from_bits(b.y), GLfloat::from_bits(b.z));
    Vec3Bits { x: v.x.to_bits(), y: v.y.to_bits(), z: v.z.to_bits() }
}

/// What subtracting two 3-vectors returns.
pub uninterp spec fn vsub3_of(ax: u32, ay: u32, az: u32, bx: u32, by: u32, bz: u32) -> Seq<u32>;

/// Relies on `nalgebra`'s vector subtraction: the component-wise difference,
/// a function of the component bits alone.
#[verifier::external_body]
pub(crate) fn vec_sub(a: Vec3Bits, b: Vec3Bits) -> (r: Vec3Bits)
    ensures
        r == v3(vsub3_of(a.x, a.y, a.z, b.x, b.y, b.z)),
{
    let v = nalgebra_glm::vec3(GLfloat::from_bits(a.x), GLfloat::from_bits(a.y), GLfloat::from_bits(a.z))
        - nalgebra_glm::vec3(GLfloat::from_bits(b.x), GLfloat::from_bits(b.y), GLfloat::from_bits(b.z));
    Vec3Bits { x: v.x.to_bits(), y: v.y.to_bits(), z: v.z.to_bits() }
}

/// What multiplying a 3-vector by a scalar returns.
pub uninterp spec fn vscale3_of(s: u32, x: u32, y: u32, z: u32) -> Seq<u32>;

/// Relies on `nalgebra`'s scalar-times-vector multiplication: each component
/// multiplied by `s`, a function of the bits alone.
#[verifier::external_body]
pub(crate) fn vec_scale(s: u32, v: Vec3Bits) -> (r: Vec3Bits)
    ensures
        r == v3(vscale3_of(s, v.x, v.y, v.z)),
{
    let w = GLfloat::from_bits(s)
        * nalgebra_glm::vec3(GLfloat::from_bits(v.x), GLfloat::from_bits(v.y), GLfloat::from_bits(v.z));
    Vec3Bits { x: w.x.to_bits(), y: w.y.to_bits(), z: w.z.to_bits() }
}

/// What the cross product of two 3-vectors returns.
pub uninterp spec fn cross3_of(ax: u32, ay: u32, az: u32, bx: u32, by: u32, bz: u32) -> Seq<u32>;

/// Relies on `nalgebra_glm::cross`: the cross product, a function of the
/// component bits alone.
#[verifier::external_body]
pub(crate) fn vec_cross(a: Vec3Bits, b: Vec3Bits) -> (r: Vec3Bits)
    ensures
        r == v3(cross3_of(a.x, a.y, a.z, b.x, b.y, b.z)),
{
    let v = nalgebra_glm::cross(
        &nalgebra_glm::vec3(GLfloat::from_bits(a.x), GLfloat::from_bits(a.y), GLfloat::from_bits(a.z)),
        &nalgebra_glm::vec3(GLfloat::from_bits(b.x), GLfloat::from_bits(b.y), GLfloat::from_bits(b.z)),
    );
    Vec3Bits { x: v.x.to_bits(), y: v.y.to_bits(), z: v.z.to_bits() }
}

/// What normalizing a 3-vector returns.
pub uninterp spec fn normalize3_of(x: u32, y: u32, z: u32) -> Seq<u32>;

/// Relies on `nalgebra_glm::normalize`: the vector divided by its length, a
/// function of the component bits alone.
#[verifier::external_body]
pub(crate) fn vec_normalize(v: Vec3Bits) -> (r: Vec3Bits)
    ensures
        r == v3(normalize3_of(v.x, v.y, v.z)),
{
    let w = nalgebra_glm::normalize(
        &nalgebra_glm::vec3(GLfloat::from_bits(v.x), GLfloat::from_bits(v.y), GLfloat::from_bits(v.z)),
    );
    Vec3Bits { x: w.x.to_bits(), y: w.y.to_bits(), z: w.z.to_bits() }
}

/// The bit patterns of the identity matrix: ones on the diagonal, zeroes
/// elsewhere (`0x3F80_0000` is single-precision `1.0`).
pub open spec fn identity_bits() -> Seq<u32> {
    seq![
        0x3F80_0000u32, 0u32, 0u32, 0u32,
        0u32, 0x3F80_0000u32, 0u32, 0u32,
        0u32, 0u32, 0x3F80_0000u32, 0u32,
        0u32, 0u32, 0u32, 0x3F80_0000u32,
    ]
}

impl Mat4Bits {
    /// The identity matrix.
    pub fn identity() -> (r: Mat4Bits)
        ensures
            r@ == identity_bits(),
            r.wf(),
    {
        let mut entries: Vec<u32> = Vec::new();
        let mut i: usize = 0;
        while i < 16
            invariant
                i <= 16,
                entries@.len() == i,
                forall|j: int| 0 <= j < i ==> entries@[j] == identity_bits()[j],
            decreases 16 - i,
        {
            if i == 0 || i == 5 || i == 10 || i == 15 {
                entries.push(0x3F80_0000u32);
            } else {
                entries.push(0u32);
            }
            i = i + 1;
        }
        assert(entries@ =~= identity_bits());
        Mat4Bits { entries }
    }
}

/// The sign of an IEEE-754 single-precision value lives in its top bit:
/// negation flips it and leaves the rest unchanged.
pub open spec fn neg_of(b: u32) -> u32 {
    b ^ 0x8000_0000u32
}

/// The negation of a single-precision scalar, by flipping its sign bit.
pub fn neg_bits(b: u32) -> (r: u32)
    ensures
        r == neg_of(b),
{
    b ^ 0x8000_0000u32
}

} // verus!
