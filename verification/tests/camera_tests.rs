use nalgebra_glm as glm;
use tacagaita::camera::Action;
use tacagaita::camera::Camera;
use tacagaita::camera::Key;

fn vec_of(c: &Camera) -> glm::Vec3 {
    glm::vec3(
        f32::from_bits(c.pos.x),
        f32::from_bits(c.pos.y),
        f32::from_bits(c.pos.z),
    )
}

fn bits3(v: &glm::Vec3) -> (u32, u32, u32) {
    (v.x.to_bits(), v.y.to_bits(), v.z.to_bits())
}

#[test]
fn new_camera_starts_at_origin_offset() {
    let c = Camera::new();
    assert_eq!(f32::from_bits(c.pos.z), 3.0);
    assert_eq!(f32::from_bits(c.front.z), -1.0);
    assert_eq!(f32::from_bits(c.up.y), 1.0);
    assert_eq!(f32::from_bits(c.speed), 0.5);
}

#[test]
fn unrecognized_key_is_not_consumed() {
    let mut c = Camera::new();
    let before = c.pos;
    assert!(!c.key_event(Key::Other, 0, Action::Press, 0));
    assert!(!c.key_event(Key::W, 0, Action::Release, 0));
    assert!(!c.key_event(Key::S, 0, Action::Repeat, 0));
    assert_eq!(c.pos, before);
}

#[test]
fn forward_twice_moves_twice_the_single_step() {
    let mut c = Camera::new();
    let start = vec_of(&c);
    let front = glm::vec3(0.0f32, 0.0, -1.0);
    assert!(c.key_event(Key::W, 0, Action::Press, 0));
    assert!(c.key_event(Key::W, 0, Action::Press, 0));
    let expected = (start + 0.5f32 * front) + 0.5f32 * front;
    assert_eq!((c.pos.x, c.pos.y, c.pos.z), bits3(&expected));
    // twice the single-step delta, exactly
    assert_eq!(f32::from_bits(c.pos.z), 2.0);
}

#[test]
fn backward_twice_moves_twice_the_single_step() {
    let mut c = Camera::new();
    let start = vec_of(&c);
    let front = glm::vec3(0.0f32, 0.0, -1.0);
    assert!(c.key_event(Key::S, 0, Action::Press, 0));
    assert!(c.key_event(Key::S, 0, Action::Press, 0));
    let expected = (start - 0.5f32 * front) - 0.5f32 * front;
    assert_eq!((c.pos.x, c.pos.y, c.pos.z), bits3(&expected));
    assert_eq!(f32::from_bits(c.pos.z), 4.0);
}

#[test]
fn strafe_left_twice_moves_twice_the_single_step() {
    let mut c = Camera::new();
    let start = vec_of(&c);
    let front = glm::vec3(0.0f32, 0.0, -1.0);
    let up = glm::vec3(0.0f32, 1.0, 0.0);
    let strafe = glm::normalize(&glm::cross(&front, &up)) * 0.5f32;
    assert!(c.key_event(Key::A, 0, Action::Press, 0));
    assert!(c.key_event(Key::A, 0, Action::Press, 0));
    let expected = (start - strafe) - strafe;
    assert_eq!((c.pos.x, c.pos.y, c.pos.z), bits3(&expected));
    assert_eq!(f32::from_bits(c.pos.x), -1.0);
}

#[test]
fn strafe_right_twice_moves_twice_the_single_step() {
    let mut c = Camera::new();
    let start = vec_of(&c);
    let front = glm::vec3(0.0f32, 0.0, -1.0);
    let up = glm::vec3(0.0f32, 1.0, 0.0);
    let strafe = glm::normalize(&glm::cross(&front, &up)) * 0.5f32;
    assert!(c.key_event(Key::D, 0, Action::Press, 0));
    assert!(c.key_event(Key::D, 0, Action::Press, 0));
    let expected = (start + strafe) + strafe;
    assert_eq!((c.pos.x, c.pos.y, c.pos.z), bits3(&expected));
    assert_eq!(f32::from_bits(c.pos.x), 1.0);
}

#[test]
fn view_targets_componentwise_product() {
    let c = Camera::new();
    let pos = glm::vec3(0.0f32, 0.0, 3.0);
    let front = glm::vec3(0.0f32, 0.0, -1.0);
    let up = glm::vec3(0.0f32, 1.0, 0.0);
    let center = pos.component_mul(&front);
    let reference = glm::look_at(&pos, &center, &up);
    let expected: Vec<u32> = reference.as_slice().iter().map(|v| v.to_bits()).collect();
    let view = c.view();
    assert_eq!(view.entries().as_slice(), expected.as_slice());
}
