use graphics::text::{first_nul, same_text};
use graphics::{
    AsShaderType, Attribute, Command, CompileReport, Fragment, LinkReport, NamedLocation, Program,
    Shader, ShaderError, ShaderType, Vertex,
};

fn compiled<S: AsShaderType>(shader: u32) -> Shader<S> {
    Shader::<S>::compile(CompileReport { shader, compiled: true, log: String::new() }).unwrap()
}

fn named(name: &str, location: i32) -> NamedLocation {
    NamedLocation { name: name.to_string(), location }
}

fn linked(attributes: Vec<NamedLocation>, uniforms: Vec<NamedLocation>) -> Program {
    Program::new(
        compiled::<Vertex>(10),
        compiled::<Fragment>(11),
        LinkReport { program: 12, linked: true, log: String::new(), attributes, uniforms },
    )
    .unwrap()
}

#[test]
fn markers_stand_for_their_stages() {
    assert_eq!(Fragment::as_shader_type(), ShaderType::Fragment);
    assert_eq!(Vertex::as_shader_type(), ShaderType::Vertex);
}

#[test]
fn source_bytes_are_the_text_with_a_closing_zero() {
    let bytes = Shader::<Vertex>::source_bytes("void main() {}").unwrap();
    assert_eq!(bytes, b"void main() {}\0".to_vec());
    assert_eq!(Shader::<Fragment>::source_bytes("").unwrap(), vec![0u8]);
    let bytes = Shader::<Fragment>::source_bytes("// \u{e9}\u{20ac}").unwrap();
    assert_eq!(bytes, vec![0x2f, 0x2f, 0x20, 0xc3, 0xa9, 0xe2, 0x82, 0xac, 0x00]);
}

#[test]
fn source_with_a_zero_byte_is_refused_with_its_position() {
    let error = Shader::<Vertex>::source_bytes("void\0main\0").unwrap_err();
    assert_eq!(error, ShaderError::CStringConversion(4));
    let error = Shader::<Vertex>::source_bytes("\u{20ac}\0").unwrap_err();
    assert_eq!(error, ShaderError::CStringConversion(3));
}

#[test]
fn compile_yields_the_shader_or_the_log() {
    let shader =
        Shader::<Vertex>::compile(CompileReport { shader: 7, compiled: true, log: "warn".into() })
            .unwrap();
    assert_eq!(shader.handle(), 7);
    let error = Shader::<Fragment>::compile(CompileReport {
        shader: 8,
        compiled: false,
        log: "0:1: syntax error".into(),
    })
    .err()
    .unwrap();
    assert_eq!(error, ShaderError::CompilationError("0:1: syntax error".to_string()));
}

#[test]
fn link_yields_the_program_or_the_log() {
    let program = linked(vec![named("position", 0)], Vec::new());
    assert_eq!(program.id(), 12);
    let error = Program::new(
        compiled::<Vertex>(1),
        compiled::<Fragment>(2),
        LinkReport {
            program: 3,
            linked: false,
            log: "unresolved varying".into(),
            attributes: vec![named("position", 0)],
            uniforms: Vec::new(),
        },
    )
    .err()
    .unwrap();
    assert_eq!(error, ShaderError::LinkingError("unresolved varying".to_string()));
}

#[test]
fn messages_name_the_failure_and_carry_the_detail() {
    assert_eq!(
        ShaderError::CompilationError("bad token".into()).message(),
        "Cannot compile the shader: bad token"
    );
    assert_eq!(
        ShaderError::LinkingError("no main".into()).message(),
        "Cannot link the shaders: no main"
    );
    assert_eq!(
        ShaderError::CStringConversion(0).message(),
        "Cannot convert string to a C pointer: nul byte found in provided data at position: 0"
    );
    assert_eq!(
        ShaderError::CStringConversion(1207).message(),
        "Cannot convert string to a C pointer: nul byte found in provided data at position: 1207"
    );
    assert_eq!(
        ShaderError::CStringConversion(usize::MAX).message(),
        format!(
            "Cannot convert string to a C pointer: nul byte found in provided data at position: {}",
            usize::MAX
        )
    );
}

#[test]
fn get_attribute_finds_the_slot_by_name() {
    let program = linked(vec![named("position", 0), named("color", 3)], Vec::new());
    assert_eq!(program.get_attribute("position"), Some(Attribute::at_pos(0)));
    assert_eq!(program.get_attribute("color"), Some(Attribute::at_pos(3)));
    assert_eq!(program.get_attribute("normal"), None);
    assert_eq!(program.get_attribute("Position"), None);
    assert_eq!(program.get_attribute(""), None);
}

#[test]
fn get_attribute_refuses_what_the_backend_cannot_resolve() {
    let program = linked(
        vec![named("gl_VertexID", -1), named("a\0b", 2), named("twice", 4), named("twice", 5)],
        Vec::new(),
    );
    assert_eq!(program.get_attribute("gl_VertexID"), None);
    assert_eq!(program.get_attribute("a\0b"), None);
    assert_eq!(program.get_attribute("twice"), Some(Attribute::at_pos(4)));
}

#[test]
fn get_uniform_finds_the_location_by_name() {
    let program = linked(Vec::new(), vec![named("tint", 6), named("unused", -1)]);
    assert_eq!(program.get_uniform("tint"), Some(6));
    assert_eq!(program.get_uniform("unused"), None);
    assert_eq!(program.get_uniform("position"), None);
    assert_eq!(program.get_uniform("ti\0nt"), None);
}

#[test]
fn use_internal_selects_the_program() {
    let program = linked(Vec::new(), Vec::new());
    let mut calls = Vec::new();
    program.use_internal(&mut calls);
    assert_eq!(calls, vec![Command::UseProgram { program: 12 }]);
}

#[test]
fn attribute_calls_carry_its_slot() {
    let attribute = Attribute::at_pos(9);
    let mut calls = Vec::new();
    attribute.enable(&mut calls).memory_layout(
        4,
        graphics::AttributeType::UnsignedByte,
        true,
        16,
        12,
        &mut calls,
    );
    assert_eq!(
        calls,
        vec![
            Command::EnableVertexAttribArray { index: 9 },
            Command::VertexAttribPointer {
                index: 9,
                size: 4,
                mem_type: graphics::AttributeType::UnsignedByte,
                normalized: true,
                stride: 16,
                offset: 12,
            },
        ]
    );
}

#[test]
fn same_text_tells_equal_from_different() {
    assert!(same_text("position", "position"));
    assert!(same_text("", ""));
    assert!(!same_text("position", "positioN"));
    assert!(!same_text("position", "positions"));
    assert!(!same_text("\u{e9}", "e"));
}

#[test]
fn first_nul_finds_the_first_zero_byte() {
    assert_eq!(first_nul("plain"), None);
    assert_eq!(first_nul(""), None);
    assert_eq!(first_nul("\0"), Some(0));
    assert_eq!(first_nul("ab\0cd\0"), Some(2));
    assert_eq!(first_nul("\u{e9}\0"), Some(2));
}
