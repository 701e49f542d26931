use rand::SeedableRng;
use tacagaita::camera::Action;
use tacagaita::camera::Key;
use tacagaita::commands::GlCmd;
use tacagaita::commands::HandleArena;
use tacagaita::geometry::Geometry;
use tacagaita::geometry::Still;
use tacagaita::gl_program::GLProgram;
use tacagaita::linalg::Vec3Bits;
use tacagaita::scene::Scene;
use tacagaita::shader::Shader;

fn simple_geometry(arena: &mut HandleArena, log: &mut Vec<GlCmd>) -> Geometry<Still> {
    let vert = Shader::from_vertex_src("vert", arena, log).unwrap();
    let frag = Shader::from_fragment_src("frag", arena, log).unwrap();
    let shaders = vec![vert, frag];
    let pending = GLProgram::from_shaders(&shaders, arena, log);
    let program = pending.finish(true, String::new(), log).unwrap();
    let data: Vec<u32> = vec![0u32; 24];
    let indexes: Vec<i32> = vec![0, 1, 2];
    let offsets: Vec<(i32, usize)> = vec![(3, 0), (3, 3), (2, 6)];
    Geometry::<Still>::from_data(&data, &indexes, program, Vec::new(), 8, &offsets, arena, log)
}

fn seeded_rng(seed: u64) -> rand::rngs::StdRng {
    rand::rngs::StdRng::seed_from_u64(seed)
}

fn count_draws(log: &[GlCmd]) -> usize {
    log.iter()
        .filter(|c| matches!(c, GlCmd::DrawElements { .. }))
        .count()
}

#[test]
fn render_draws_each_geometry_in_order() {
    let mut arena = HandleArena::new();
    let mut setup: Vec<GlCmd> = Vec::new();
    let mut scene: Scene<Still> = Scene::new();
    let plain = simple_geometry(&mut arena, &mut setup);
    let mut instanced = simple_geometry(&mut arena, &mut setup);
    instanced.set_positions(vec![Vec3Bits::new(0, 0, 0), Vec3Bits::new(1, 1, 1)]);
    scene.geometries().push(plain);
    scene.geometries().push(instanced);

    let mut rng = seeded_rng(5);
    let mut frame: Vec<GlCmd> = Vec::new();
    scene.render(&mut rng, &mut frame);
    // one draw for the plain geometry, one per position for the other
    assert_eq!(count_draws(&frame), 3);
    assert_eq!(scene.geometries().len(), 2);
}

#[test]
fn render_stages_projection_view_and_model() {
    let mut arena = HandleArena::new();
    let mut setup: Vec<GlCmd> = Vec::new();
    let mut scene: Scene<Still> = Scene::new();
    let g = simple_geometry(&mut arena, &mut setup);
    scene.geometries().push(g);

    let mut rng = seeded_rng(5);
    let mut frame: Vec<GlCmd> = Vec::new();
    scene.render(&mut rng, &mut frame);
    // the flush of the activation uploads the three staged matrices
    let names: Vec<String> = frame
        .iter()
        .filter_map(|c| match c {
            GlCmd::UniformMatrix { name, .. } => Some(name.clone()),
            _ => None,
        })
        .collect();
    assert!(names.iter().any(|n| n.as_str() == "projection"));
    assert!(names.iter().any(|n| n.as_str() == "view"));
    assert!(names.iter().any(|n| n.as_str() == "model"));
}

#[test]
fn empty_scene_renders_nothing() {
    let mut scene: Scene<Still> = Scene::new();
    let mut rng = seeded_rng(5);
    let mut frame: Vec<GlCmd> = Vec::new();
    scene.render(&mut rng, &mut frame);
    assert!(frame.is_empty());
}

#[test]
fn key_events_are_forwarded_to_the_camera() {
    let mut scene: Scene<Still> = Scene::new();
    assert!(scene.key_event(Key::W, 0, Action::Press, 0));
    assert!(!scene.key_event(Key::Other, 0, Action::Press, 0));
    assert!(!scene.key_event(Key::W, 0, Action::Release, 0));
}

#[test]
fn mouse_events_are_not_consumed() {
    let mut scene: Scene<Still> = Scene::new();
    assert!(!scene.mouse_press_event(0, Action::Press, 0));
    assert!(!scene.mouse_move_event(10.0f64.to_bits(), 20.0f64.to_bits()));
}
