use nalgebra_glm as glm;
use tacagaita::linalg::Vec3Bits;
use tacagaita::linalg::radians;
use tacagaita::transformation::Transformation;

fn mat_bits(m: &glm::Mat4) -> Vec<u32> {
    m.as_slice().iter().map(|v| v.to_bits()).collect()
}

fn glm_radians(x: f32) -> f32 {
    glm::radians(&glm::vec1(x)).x
}

#[test]
fn new_transformation_is_identity() {
    let t = Transformation::new();
    let reference: glm::Mat4 = glm::identity();
    assert_eq!(t.internal_ptr().as_slice(), mat_bits(&reference).as_slice());
}

#[test]
fn five_operation_chain_matches_reference() {
    let mut t = Transformation::new();
    t.translade(1.5f32.to_bits(), (-2.0f32).to_bits(), 0.25f32.to_bits());
    t.scale(3.0f32.to_bits());
    t.rotate(Vec3Bits::new(
        30.0f32.to_bits(),
        45.0f32.to_bits(),
        (-60.0f32).to_bits(),
    ));
    t.translade(0.1f32.to_bits(), 0.2f32.to_bits(), 0.3f32.to_bits());
    t.scale(0.5f32.to_bits());

    let mut reference: glm::Mat4 = glm::identity();
    reference = reference * glm::translation(&glm::vec3(1.5f32, -2.0, 0.25));
    reference = reference * glm::scaling(&glm::vec3(3.0f32, 3.0, 3.0));
    reference = reference
        * glm::Mat4::from_scaled_axis(glm::vec3(
            glm_radians(30.0),
            glm_radians(45.0),
            glm_radians(-60.0),
        ));
    reference = reference * glm::translation(&glm::vec3(0.1f32, 0.2, 0.3));
    reference = reference * glm::scaling(&glm::vec3(0.5f32, 0.5, 0.5));

    assert_eq!(t.internal_ptr().as_slice(), mat_bits(&reference).as_slice());
}

#[test]
fn perspective_replaces_prior_translation() {
    let mut with_translation = Transformation::new();
    with_translation.translade(7.0f32.to_bits(), 8.0f32.to_bits(), 9.0f32.to_bits());
    with_translation.perspective(
        1.5f32.to_bits(),
        45.0f32.to_bits(),
        0.1f32.to_bits(),
        100.0f32.to_bits(),
    );

    let mut plain = Transformation::new();
    plain.perspective(
        1.5f32.to_bits(),
        45.0f32.to_bits(),
        0.1f32.to_bits(),
        100.0f32.to_bits(),
    );

    // the earlier translation leaves no trace: replace, not compose
    assert_eq!(
        with_translation.internal_ptr().as_slice(),
        plain.internal_ptr().as_slice()
    );

    let reference = glm::perspective(glm_radians(1.5), 45.0f32, 0.1, 100.0);
    assert_eq!(
        with_translation.internal_ptr().as_slice(),
        mat_bits(&reference).as_slice()
    );
}

#[test]
fn perspective_then_translate_carries_no_old_translation() {
    let mut a = Transformation::new();
    a.translade(7.0f32.to_bits(), 8.0f32.to_bits(), 9.0f32.to_bits());
    a.perspective(
        1.0f32.to_bits(),
        60.0f32.to_bits(),
        0.5f32.to_bits(),
        50.0f32.to_bits(),
    );
    a.translade(1.0f32.to_bits(), 0.0f32.to_bits(), 0.0f32.to_bits());

    let mut b = Transformation::new();
    b.perspective(
        1.0f32.to_bits(),
        60.0f32.to_bits(),
        0.5f32.to_bits(),
        50.0f32.to_bits(),
    );
    b.translade(1.0f32.to_bits(), 0.0f32.to_bits(), 0.0f32.to_bits());

    assert_eq!(a.internal_ptr().as_slice(), b.internal_ptr().as_slice());
}

#[test]
fn perspective_off_its_domain_is_refused_and_changes_nothing() {
    let mut t = Transformation::new();
    t.translade(1.0f32.to_bits(), 2.0f32.to_bits(), 3.0f32.to_bits());
    let before: Vec<u32> = t.internal_ptr().clone();
    // a zero aspect ratio and coinciding clip planes lie off the domain
    assert!(!t.try_perspective(
        0.0f32.to_bits(),
        45.0f32.to_bits(),
        0.1f32.to_bits(),
        100.0f32.to_bits()
    ));
    assert!(!t.try_perspective(
        1.5f32.to_bits(),
        45.0f32.to_bits(),
        2.0f32.to_bits(),
        2.0f32.to_bits()
    ));
    assert_eq!(t.internal_ptr().as_slice(), before.as_slice());
}

#[test]
fn checked_perspective_agrees_with_perspective_on_the_domain() {
    let mut a = Transformation::new();
    assert!(a.try_perspective(
        1.5f32.to_bits(),
        45.0f32.to_bits(),
        0.1f32.to_bits(),
        100.0f32.to_bits()
    ));
    let mut b = Transformation::new();
    b.perspective(
        1.5f32.to_bits(),
        45.0f32.to_bits(),
        0.1f32.to_bits(),
        100.0f32.to_bits(),
    );
    assert_eq!(a.internal_ptr().as_slice(), b.internal_ptr().as_slice());
}

#[test]
fn reset_restores_identity() {
    let mut t = Transformation::new();
    t.translade(1.0f32.to_bits(), 2.0f32.to_bits(), 3.0f32.to_bits());
    t.scale(2.0f32.to_bits());
    t.reset_transformations();
    let reference: glm::Mat4 = glm::identity();
    assert_eq!(t.internal_ptr().as_slice(), mat_bits(&reference).as_slice());
}

#[test]
fn radians_of_180_is_pi_and_0_is_0() {
    let pi = f32::from_bits(radians(180.0f32.to_bits()));
    assert!((pi - std::f32::consts::PI).abs() < 1e-6);
    assert_eq!(f32::from_bits(radians(0.0f32.to_bits())), 0.0f32);
}

#[test]
fn radians_matches_documented_formula() {
    for &deg in &[1.0f32, 15.0, 90.0, 180.0, 360.0, -45.0] {
        let got = f32::from_bits(radians(deg.to_bits()));
        let expected = deg * std::f32::consts::PI / 180.0;
        assert!((got - expected).abs() <= expected.abs() * 1e-6 + 1e-9);
    }
}
