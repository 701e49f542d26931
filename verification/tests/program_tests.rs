use tacagaita::commands::GlCmd;
use tacagaita::commands::HandleArena;
use tacagaita::gl_program::GLProgram;
use tacagaita::shader::Shader;
use tacagaita::shader::ShaderError;

fn count_attaches(log: &[GlCmd]) -> usize {
    log.iter()
        .filter(|c| matches!(c, GlCmd::AttachShader { .. }))
        .count()
}

fn count_detaches(log: &[GlCmd]) -> usize {
    log.iter()
        .filter(|c| matches!(c, GlCmd::DetachShader { .. }))
        .count()
}

#[test]
fn shader_with_interior_nul_is_rejected() {
    let mut arena = HandleArena::new();
    let mut log: Vec<GlCmd> = Vec::new();
    let r = Shader::from_vertex_src("bad\0source", &mut arena, &mut log);
    match r {
        Err(ShaderError::InteriorNul { position }) => assert_eq!(position, 3),
        _ => panic!("expected an interior-NUL error"),
    }
    assert!(log.is_empty());
}

#[test]
fn shader_compilation_emits_create_source_compile() {
    let mut arena = HandleArena::new();
    let mut log: Vec<GlCmd> = Vec::new();
    let s = Shader::from_fragment_src("void main() {}", &mut arena, &mut log).unwrap();
    assert_eq!(log.len(), 4);
    assert!(matches!(log[0], GlCmd::CreateShader { shader, .. } if shader == s.id()));
    match &log[1] {
        GlCmd::ShaderSource { shader, source } => {
            assert_eq!(*shader, s.id());
            assert_eq!(source.as_str(), "void main() {}");
        }
        other => panic!("unexpected command {:?}", other),
    }
    assert!(matches!(log[2], GlCmd::CompileShader { shader } if shader == s.id()));
    assert!(matches!(log[3], GlCmd::QueryCompileStatus { shader } if shader == s.id()));
}

#[test]
fn failed_link_detaches_every_attached_shader() {
    let mut arena = HandleArena::new();
    let mut log: Vec<GlCmd> = Vec::new();
    let vert = Shader::from_vertex_src("vert", &mut arena, &mut log).unwrap();
    let frag = Shader::from_fragment_src("frag", &mut arena, &mut log).unwrap();
    let shaders = vec![vert, frag];
    let pending = GLProgram::from_shaders(&shaders, &mut arena, &mut log);

    // attach and detach pair 1:1, whatever the outcome
    assert_eq!(count_attaches(&log), 2);
    assert_eq!(count_detaches(&log), 2);

    let r = pending.finish(false, String::from("linker said no"), &mut log);
    let e = match r {
        Err(e) => e,
        Ok(_) => panic!("link failure must surface as an error"),
    };
    assert_eq!(e.message().as_str(), "linker said no");
    assert!(matches!(log.last(), Some(GlCmd::DeleteProgram { .. })));
    // no attachment outlives the attempt
    assert_eq!(count_attaches(&log), count_detaches(&log));
}

#[test]
fn successful_link_yields_program_with_empty_tables() {
    let mut arena = HandleArena::new();
    let mut log: Vec<GlCmd> = Vec::new();
    let vert = Shader::from_vertex_src("vert", &mut arena, &mut log).unwrap();
    let frag = Shader::from_fragment_src("frag", &mut arena, &mut log).unwrap();
    let shaders = vec![vert, frag];
    let pending = GLProgram::from_shaders(&shaders, &mut arena, &mut log);
    let pid = pending.id();
    let program = pending.finish(true, String::new(), &mut log).unwrap();
    assert_eq!(program.id(), pid);

    let mut flush: Vec<GlCmd> = Vec::new();
    program.activate(&mut flush);
    // nothing staged: the flush is the bind alone
    assert_eq!(flush.len(), 1);
    assert!(matches!(flush[0], GlCmd::UseProgram { program } if program == pid));
}

#[test]
fn last_write_wins_and_flush_order_is_table_order() {
    let mut arena = HandleArena::new();
    let mut log: Vec<GlCmd> = Vec::new();
    let vert = Shader::from_vertex_src("vert", &mut arena, &mut log).unwrap();
    let frag = Shader::from_fragment_src("frag", &mut arena, &mut log).unwrap();
    let shaders = vec![vert, frag];
    let pending = GLProgram::from_shaders(&shaders, &mut arena, &mut log);
    let mut program = pending.finish(true, String::new(), &mut log).unwrap();

    program.set_float("alpha", 1.0f32.to_bits());
    program.set_float("beta", 2.0f32.to_bits());
    program.set_float("alpha", 3.0f32.to_bits());
    program.set_int("count", 7);
    program.set_bool("enabled", true);

    let mut flush: Vec<GlCmd> = Vec::new();
    program.activate(&mut flush);
    // bind + two floats + one int + one bool
    assert_eq!(flush.len(), 5);
    assert!(matches!(flush[0], GlCmd::UseProgram { .. }));
    match &flush[1] {
        GlCmd::UniformFloat { name, bits, .. } => {
            assert_eq!(name.as_str(), "alpha");
            assert_eq!(f32::from_bits(*bits), 3.0); // the last write won
        }
        other => panic!("unexpected command {:?}", other),
    }
    match &flush[2] {
        GlCmd::UniformFloat { name, bits, .. } => {
            assert_eq!(name.as_str(), "beta");
            assert_eq!(f32::from_bits(*bits), 2.0);
        }
        other => panic!("unexpected command {:?}", other),
    }
    match &flush[3] {
        GlCmd::UniformInt { name, value, .. } => {
            assert_eq!(name.as_str(), "count");
            assert_eq!(*value, 7);
        }
        other => panic!("unexpected command {:?}", other),
    }
    match &flush[4] {
        GlCmd::UniformInt { name, value, .. } => {
            // booleans are uploaded as 0/1 integers
            assert_eq!(name.as_str(), "enabled");
            assert_eq!(*value, 1);
        }
        other => panic!("unexpected command {:?}", other),
    }
}
