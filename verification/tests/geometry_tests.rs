use nalgebra_glm as glm;
use rand::Rng;
use rand::SeedableRng;
use tacagaita::commands::GlCmd;
use tacagaita::commands::HandleArena;
use tacagaita::geometry::Geometry;
use tacagaita::geometry::GeometryError;
use tacagaita::geometry::Still;
use tacagaita::gl_program::GLProgram;
use tacagaita::linalg::Vec3Bits;
use tacagaita::shader::Shader;
use tacagaita::textures::TextureSource;
use tacagaita::transformation::Transformation;

fn linked_program(arena: &mut HandleArena, log: &mut Vec<GlCmd>) -> GLProgram {
    let vert = Shader::from_vertex_src("vert", arena, log).unwrap();
    let frag = Shader::from_fragment_src("frag", arena, log).unwrap();
    let shaders = vec![vert, frag];
    let pending = GLProgram::from_shaders(&shaders, arena, log);
    pending.finish(true, String::new(), log).unwrap()
}

fn seeded_rng(seed: u64) -> rand::rngs::StdRng {
    rand::rngs::StdRng::seed_from_u64(seed)
}

fn count_draws(log: &[GlCmd]) -> usize {
    log.iter()
        .filter(|c| matches!(c, GlCmd::DrawElements { .. }))
        .count()
}

fn simple_geometry(arena: &mut HandleArena, log: &mut Vec<GlCmd>) -> Geometry<Still> {
    let program = linked_program(arena, log);
    let data: Vec<u32> = vec![0u32; 24];
    let indexes: Vec<i32> = vec![0, 1, 2];
    let offsets: Vec<(i32, usize)> = vec![(3, 0), (3, 3), (2, 6)];
    Geometry::<Still>::from_data(&data, &indexes, program, Vec::new(), 8, &offsets, arena, log)
}

#[test]
fn from_data_describes_the_attribute_layout() {
    let mut arena = HandleArena::new();
    let mut log: Vec<GlCmd> = Vec::new();
    let g = simple_geometry(&mut arena, &mut log);
    assert_eq!(g.idx_size(), 3);
    let pointers: Vec<&GlCmd> = log
        .iter()
        .filter(|c| matches!(c, GlCmd::VertexAttribPointer { .. }))
        .collect();
    assert_eq!(pointers.len(), 3);
    match pointers[1] {
        GlCmd::VertexAttribPointer {
            index,
            components,
            stride_bytes,
            offset_bytes,
        } => {
            assert_eq!(*index, 1);
            assert_eq!(*components, 3);
            assert_eq!(*stride_bytes, 8 * 4);
            assert_eq!(*offset_bytes, 3 * 4);
        }
        _ => unreachable!(),
    }
    let uploads = log
        .iter()
        .filter(|c| matches!(c, GlCmd::BufferFloatData { .. }))
        .count();
    assert_eq!(uploads, 1);
}

#[test]
fn draw_with_empty_positions_issues_one_draw() {
    let mut arena = HandleArena::new();
    let mut log: Vec<GlCmd> = Vec::new();
    let mut g = simple_geometry(&mut arena, &mut log);
    let mut rng = seeded_rng(1);
    let mut frame: Vec<GlCmd> = Vec::new();
    g.draw(&mut rng, &mut frame);
    assert_eq!(count_draws(&frame), 1);
    assert!(matches!(frame.last(), Some(GlCmd::BindVertexArray { vao: 0 })));
}

#[test]
fn draw_with_positions_issues_one_draw_per_position() {
    let mut arena = HandleArena::new();
    let mut log: Vec<GlCmd> = Vec::new();
    let mut g = simple_geometry(&mut arena, &mut log);
    let positions = vec![
        Vec3Bits::new(0, 0, 0),
        Vec3Bits::new(1, 2, 3),
        Vec3Bits::new(4, 5, 6),
        Vec3Bits::new(7, 8, 9),
    ];
    g.set_positions(positions);
    let mut rng = seeded_rng(1);
    let mut frame: Vec<GlCmd> = Vec::new();
    g.draw(&mut rng, &mut frame);
    assert_eq!(count_draws(&frame), 4);
    // each repeated draw is preceded by a direct model-matrix upload
    let models = frame
        .iter()
        .filter(|c| matches!(c, GlCmd::UniformMatrix { name, .. } if name.as_str() == "model"))
        .count();
    assert_eq!(models, 4);
}

#[test]
fn wobble_is_reproducible_from_the_seed() {
    let mut arena = HandleArena::new();
    let mut log: Vec<GlCmd> = Vec::new();
    let mut g = simple_geometry(&mut arena, &mut log);
    g.set_positions(vec![Vec3Bits::new(0, 0, 0), Vec3Bits::new(1, 1, 1)]);

    let mut rng_a = seeded_rng(42);
    let mut frame_a: Vec<GlCmd> = Vec::new();
    g.draw(&mut rng_a, &mut frame_a);
    let mut rng_b = seeded_rng(42);
    let mut frame_b: Vec<GlCmd> = Vec::new();
    g.draw(&mut rng_b, &mut frame_b);

    let mats = |frame: &Vec<GlCmd>| -> Vec<Vec<u32>> {
        frame
            .iter()
            .filter_map(|c| match c {
                GlCmd::UniformMatrix { entries, .. } => Some(entries.clone()),
                _ => None,
            })
            .collect()
    };
    assert_eq!(mats(&frame_a), mats(&frame_b));
}

#[test]
fn wobble_matrix_matches_reference_computation() {
    let mut arena = HandleArena::new();
    let mut log: Vec<GlCmd> = Vec::new();
    let mut g = simple_geometry(&mut arena, &mut log);
    g.set_positions(vec![Vec3Bits::new(
        1.0f32.to_bits(),
        2.0f32.to_bits(),
        3.0f32.to_bits(),
    )]);
    let mut rng = seeded_rng(9);
    let mut frame: Vec<GlCmd> = Vec::new();
    g.draw(&mut rng, &mut frame);
    let entries = frame
        .iter()
        .find_map(|c| match c {
            GlCmd::UniformMatrix { entries, .. } => Some(entries.clone()),
            _ => None,
        })
        .unwrap();

    let mut reference_rng = rand::rngs::StdRng::seed_from_u64(9);
    let unit: f32 = reference_rng.gen();
    let degrees = 20.0f32 * unit;
    let angle = glm::radians(&glm::vec1(glm::radians(&glm::vec1(degrees)).x)).x;
    let axis = glm::vec3(1.0f32, 0.3, 0.5);
    let identity: glm::Mat4 = glm::identity();
    let model = (identity * glm::translation(&glm::vec3(1.0f32, 2.0, 3.0)))
        * glm::rotation(angle, &axis);
    let expected: Vec<u32> = model.as_slice().iter().map(|v| v.to_bits()).collect();
    assert_eq!(entries, expected);
}

struct Spin;

impl tacagaita::geometry::Animator for Spin {
    fn update(&mut self, t: &mut Transformation) {
        t.rotate(Vec3Bits::new(1.0f32.to_bits(), 0, 0));
    }
}

#[test]
fn animation_hook_advances_the_model_each_draw() {
    let mut arena = HandleArena::new();
    let mut log: Vec<GlCmd> = Vec::new();
    let program = linked_program(&mut arena, &mut log);
    let data: Vec<u32> = vec![0u32; 24];
    let indexes: Vec<i32> = vec![0, 1, 2];
    let offsets: Vec<(i32, usize)> = vec![(3, 0), (3, 3), (2, 6)];
    let mut g: Geometry<Spin> =
        Geometry::from_data(&data, &indexes, program, Vec::new(), 8, &offsets, &mut arena, &mut log);
    g.set_render_func(Spin);
    let before: Vec<u32> = g.matrix_mut().internal_ptr().clone();
    let mut rng = seeded_rng(1);
    let mut frame: Vec<GlCmd> = Vec::new();
    g.draw(&mut rng, &mut frame);
    let after: Vec<u32> = g.matrix_mut().internal_ptr().clone();
    assert_ne!(before, after);
}

#[test]
fn rectangle_uploads_scaled_extents() {
    let mut arena = HandleArena::new();
    let mut log: Vec<GlCmd> = Vec::new();
    let pending = Geometry::<Still>::rectangle(
        100.0f32.to_bits(),
        50.0f32.to_bits(),
        "frag source",
        "vert source",
        &mut arena,
        &mut log,
    )
    .unwrap();
    let g: Geometry<Still> = pending
        .finish(true, String::new(), &mut arena, &mut log)
        .unwrap();
    assert_eq!(g.idx_size(), 6);

    let top = ((50.0f32 / 2.0) * 0.01).to_bits();
    let bottom = (-((50.0f32 / 2.0) * 0.01)).to_bits();
    let right = ((100.0f32 / 2.0) * 0.01).to_bits();
    let left = (-((100.0f32 / 2.0) * 0.01)).to_bits();
    let one = 1.0f32.to_bits();
    let data = log
        .iter()
        .find(|c| matches!(c, GlCmd::BufferFloatData { .. }))
        .unwrap();
    match data {
        GlCmd::BufferFloatData { bits, .. } => {
            assert_eq!(bits.len(), 32);
            assert_eq!(&bits[0..8], &[top, right, 0, one, 0, 0, one, one]);
            assert_eq!(&bits[8..16], &[bottom, right, 0, 0, one, 0, one, 0]);
            assert_eq!(&bits[16..24], &[bottom, left, 0, one, 0, 0, 0, 0]);
            assert_eq!(&bits[24..32], &[top, left, 0, 0, 0, one, 0, one]);
        }
        _ => unreachable!(),
    }
    let indexes = log
        .iter()
        .find(|c| matches!(c, GlCmd::BufferIntData { .. }))
        .unwrap();
    match indexes {
        GlCmd::BufferIntData { data, .. } => assert_eq!(data.as_slice(), &[0, 1, 3, 1, 2, 3]),
        _ => unreachable!(),
    }
    // the two shaders are released once the geometry is assembled
    let deletes = log
        .iter()
        .filter(|c| matches!(c, GlCmd::DeleteShader { .. }))
        .count();
    assert_eq!(deletes, 2);
}

#[test]
fn rectangle_link_failure_surfaces_and_cleans_up() {
    let mut arena = HandleArena::new();
    let mut log: Vec<GlCmd> = Vec::new();
    let pending = Geometry::<Still>::rectangle(
        10.0f32.to_bits(),
        10.0f32.to_bits(),
        "frag",
        "vert",
        &mut arena,
        &mut log,
    )
    .unwrap();
    let before = log.len();
    let r: Result<Geometry<Still>, GeometryError> =
        pending.finish(false, String::from("bad link"), &mut arena, &mut log);
    match r {
        Err(GeometryError::Link(e)) => assert_eq!(e.message().as_str(), "bad link"),
        _ => panic!("expected a link error"),
    }
    // the program object and both shaders are released, nothing else happens
    assert_eq!(log.len(), before + 3);
    assert!(matches!(log[before], GlCmd::DeleteProgram { .. }));
    assert!(matches!(log[before + 1], GlCmd::DeleteShader { .. }));
    assert!(matches!(log[before + 2], GlCmd::DeleteShader { .. }));
}

#[test]
fn rectangle_rejects_nul_in_source() {
    let mut arena = HandleArena::new();
    let mut log: Vec<GlCmd> = Vec::new();
    let r = Geometry::<Still>::rectangle(
        10.0f32.to_bits(),
        10.0f32.to_bits(),
        "fr\0ag",
        "vert",
        &mut arena,
        &mut log,
    );
    assert!(matches!(r, Err(GeometryError::Shader(_))));
}

fn png_bytes() -> Vec<u8> {
    let mut img = image::RgbImage::new(2, 2);
    img.put_pixel(0, 0, image::Rgb([1, 2, 3]));
    let mut bytes: Vec<u8> = Vec::new();
    img.write_to(
        &mut std::io::Cursor::new(&mut bytes),
        image::ImageFormat::Png,
    )
    .unwrap();
    bytes
}

#[test]
fn cube_builds_with_textures_and_36_indices() {
    let mut arena = HandleArena::new();
    let mut log: Vec<GlCmd> = Vec::new();
    let pending = Geometry::<Still>::cube(
        100.0f32.to_bits(),
        100.0f32.to_bits(),
        100.0f32.to_bits(),
        "frag",
        "vert",
        &mut arena,
        &mut log,
    )
    .unwrap();
    let sources = vec![
        TextureSource {
            bytes: png_bytes(),
            uniform: String::from("texture_1"),
        },
        TextureSource {
            bytes: png_bytes(),
            uniform: String::from("texture_2"),
        },
    ];
    let g: Geometry<Still> = pending
        .finish(true, String::new(), &sources, &mut arena, &mut log)
        .unwrap();
    assert_eq!(g.idx_size(), 36);
    let uploads = log
        .iter()
        .filter(|c| matches!(c, GlCmd::TexImage2D { .. }))
        .count();
    assert_eq!(uploads, 2);

    // the sampler units were pre-registered on the program: the next
    // activation uploads texture_1 -> 0 and texture_2 -> 1
    let mut g = g;
    let mut flush: Vec<GlCmd> = Vec::new();
    g.program_mut().activate(&mut flush);
    let samplers: Vec<(String, i32)> = flush
        .iter()
        .filter_map(|c| match c {
            GlCmd::UniformInt { name, value, .. } => Some((name.clone(), *value)),
            _ => None,
        })
        .collect();
    assert_eq!(samplers.len(), 2);
    assert_eq!(samplers[0].0.as_str(), "texture_1");
    assert_eq!(samplers[0].1, 0);
    assert_eq!(samplers[1].0.as_str(), "texture_2");
    assert_eq!(samplers[1].1, 1);
}

#[test]
fn cube_texture_failure_aborts_whole_batch() {
    let mut arena = HandleArena::new();
    let mut log: Vec<GlCmd> = Vec::new();
    let pending = Geometry::<Still>::cube(
        10.0f32.to_bits(),
        10.0f32.to_bits(),
        10.0f32.to_bits(),
        "frag",
        "vert",
        &mut arena,
        &mut log,
    )
    .unwrap();
    let sources = vec![
        TextureSource {
            bytes: png_bytes(),
            uniform: String::from("texture_1"),
        },
        TextureSource {
            bytes: vec![9u8, 9, 9],
            uniform: String::from("texture_2"),
        },
    ];
    let r: Result<Geometry<Still>, GeometryError> =
        pending.finish(true, String::new(), &sources, &mut arena, &mut log);
    assert!(matches!(r, Err(GeometryError::Texture(_))));
    // no texture was uploaded
    let uploads = log
        .iter()
        .filter(|c| matches!(c, GlCmd::TexImage2D { .. }))
        .count();
    assert_eq!(uploads, 0);
}
