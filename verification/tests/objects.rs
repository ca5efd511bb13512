use graphics::{
    ActiveTexture, AttributeType, ClearFlags, Command, CompileReport, DrawLayer, DrawMode,
    DrawTarget, DrawUsage, Ebo, Fragment, LinkReport, NamedLocation, Program, Shader, Texture,
    UniformResource, Vao, Vbo, Vertex,
};

fn program_with_uniforms(uniforms: &[(&str, i32)]) -> Program {
    let vertex =
        Shader::<Vertex>::compile(CompileReport { shader: 1, compiled: true, log: String::new() })
            .unwrap();
    let fragment = Shader::<Fragment>::compile(CompileReport {
        shader: 2,
        compiled: true,
        log: String::new(),
    })
    .unwrap();
    let uniforms = uniforms
        .iter()
        .map(|(name, location)| NamedLocation { name: name.to_string(), location: *location })
        .collect();
    Program::new(
        vertex,
        fragment,
        LinkReport { program: 21, linked: true, log: String::new(), attributes: Vec::new(), uniforms },
    )
    .unwrap()
}

#[test]
fn vertex_array_binds_itself() {
    let vao = Vao::new(5);
    assert_eq!(vao.id(), 5);
    let mut calls = Vec::new();
    vao.bind(&mut calls);
    assert_eq!(calls, vec![Command::BindVertexArray { array: 5 }]);
}

#[test]
fn buffers_are_made_under_their_vertex_array() {
    let vao = Vao::new(5);
    let mut calls = Vec::new();
    let vbo = Vbo::new(&vao, 8, &mut calls);
    let ebo = Ebo::new(&vao, 9, &mut calls);
    assert_eq!(vbo.id(), 8);
    assert_eq!(ebo.id(), 9);
    assert_eq!(
        calls,
        vec![Command::BindVertexArray { array: 5 }, Command::BindVertexArray { array: 5 }]
    );
}

#[test]
fn vertex_data_is_loaded_as_static_array_data() {
    let vao = Vao::new(1);
    let mut calls = Vec::new();
    let vbo = Vbo::new(&vao, 2, &mut calls);
    calls.clear();
    let triangle: [f32; 15] = [0.0; 15];
    vbo.bind_data(&triangle, &mut calls);
    assert_eq!(
        calls,
        vec![
            Command::BindBuffer { target: DrawTarget::ArrayBuffer, buffer: 2 },
            Command::BufferData {
                target: DrawTarget::ArrayBuffer,
                size: 60,
                usage: DrawUsage::StaticDraw,
            },
        ]
    );
}

#[test]
fn index_data_is_attached_to_the_element_binding_point() {
    let vao = Vao::new(1);
    let mut calls = Vec::new();
    let ebo = Ebo::new(&vao, 3, &mut calls);
    calls.clear();
    let indices: [u16; 6] = [0, 1, 2, 2, 3, 0];
    ebo.bind_data(&indices, &mut calls);
    assert_eq!(
        calls,
        vec![
            Command::BindBuffer { target: DrawTarget::ElementArrayBuffer, buffer: 3 },
            Command::BufferData {
                target: DrawTarget::ArrayBuffer,
                size: 12,
                usage: DrawUsage::StaticDraw,
            },
        ]
    );
}

#[test]
fn bind_data_ex_takes_target_and_usage_from_the_caller() {
    let vao = Vao::new(1);
    let mut calls = Vec::new();
    let vbo = Vbo::new(&vao, 2, &mut calls);
    let ebo = Ebo::new(&vao, 3, &mut calls);
    calls.clear();
    let empty: [u64; 0] = [];
    vbo.bind_data_ex(&empty, DrawTarget::UniformBuffer, DrawUsage::DynamicCopy, &mut calls);
    ebo.bind_data_ex(&[7u8, 8, 9], DrawTarget::TextureBuffer, DrawUsage::StreamRead, &mut calls);
    assert_eq!(
        calls,
        vec![
            Command::BindBuffer { target: DrawTarget::UniformBuffer, buffer: 2 },
            Command::BufferData {
                target: DrawTarget::ArrayBuffer,
                size: 0,
                usage: DrawUsage::DynamicCopy,
            },
            Command::BindBuffer { target: DrawTarget::TextureBuffer, buffer: 3 },
            Command::BufferData {
                target: DrawTarget::ArrayBuffer,
                size: 3,
                usage: DrawUsage::StreamRead,
            },
        ]
    );
}

#[test]
fn texture_is_bound_loaded_and_mipmapped() {
    let mut calls = Vec::new();
    let texture = Texture::new(4, 64, 32, &mut calls);
    assert_eq!(texture.id(), 4);
    assert_eq!(
        calls,
        vec![
            Command::BindTexture2D { texture: 4 },
            Command::TexImage2D { width: 64, height: 32 },
            Command::GenerateMipmap2D,
        ]
    );
}

#[test]
fn texture_unit_starts_unbound_and_binds_a_texture() {
    let mut calls = Vec::new();
    let texture = Texture::new(4, 1, 1, &mut calls);
    calls.clear();
    let mut unit = ActiveTexture::new(31);
    assert_eq!(unit.index(), 31);
    assert!(!unit.is_bound());
    unit.bind_texture(&texture, &mut calls);
    assert!(unit.is_bound());
    assert_eq!(unit.index(), 31);
    assert_eq!(
        calls,
        vec![Command::ActiveTexture { unit: 31 }, Command::BindTexture2D { texture: 4 }]
    );
}

#[test]
fn uniforms_load_by_their_own_call() {
    let mut calls = Vec::new();
    let texture = Texture::new(4, 1, 1, &mut calls);
    let mut unit = ActiveTexture::new(2);
    unit.bind_texture(&texture, &mut calls);
    calls.clear();
    unit.uniform(7, &mut calls);
    17u32.uniform(8, &mut calls);
    assert_eq!(
        calls,
        vec![
            Command::Uniform1i { location: 7, value: 2 },
            Command::Uniform1ui { location: 8, value: 17 },
        ]
    );
}

#[test]
fn put_uniform_loads_where_the_program_has_the_name() {
    let layer = DrawLayer::new();
    let program = program_with_uniforms(&[("count", 3), ("gone", -1)]);
    let mut calls = Vec::new();
    assert_eq!(layer.put_uniform(&program, "count", &5u32, &mut calls), Some(()));
    assert_eq!(calls, vec![Command::Uniform1ui { location: 3, value: 5 }]);
    assert_eq!(layer.put_uniform(&program, "gone", &5u32, &mut calls), None);
    assert_eq!(layer.put_uniform(&program, "other", &5u32, &mut calls), None);
    assert_eq!(layer.put_uniform(&program, "cou\0nt", &5u32, &mut calls), None);
    assert_eq!(calls.len(), 1);
}

#[test]
fn put_uniform_feeds_a_sampler_from_a_bound_unit() {
    let layer = DrawLayer::new();
    let program = program_with_uniforms(&[("image", 1)]);
    let mut calls = Vec::new();
    let texture = Texture::new(4, 1, 1, &mut calls);
    let mut unit = ActiveTexture::new(0);
    unit.bind_texture(&texture, &mut calls);
    calls.clear();
    assert_eq!(layer.put_uniform(&program, "image", &unit, &mut calls), Some(()));
    assert_eq!(calls, vec![Command::Uniform1i { location: 1, value: 0 }]);
}

#[test]
fn draw_layer_issues_one_call_per_request() {
    let layer = DrawLayer::new();
    let program = program_with_uniforms(&[]);
    let mut calls = Vec::new();
    layer.clear(ClearFlags::color() | ClearFlags::depth(), &mut calls);
    layer.use_program(&program, &mut calls);
    layer.resize_to(960, 720, false, &mut calls);
    layer.resize_to(960, 720, true, &mut calls);
    layer.enable_depth_testing(&mut calls);
    assert_eq!(
        calls,
        vec![
            Command::Clear { mask: 0x4100 },
            Command::UseProgram { program: 21 },
            Command::Viewport { x: 0, y: 0, width: 960, height: 720 },
            Command::Viewport { x: 0, y: 0, width: 1920, height: 1440 },
            Command::EnableDepthTest,
            Command::DepthFuncLess,
        ]
    );
}

#[test]
fn draws_bind_the_vertex_array_first() {
    let layer = DrawLayer::new();
    let vao = Vao::new(6);
    let mut calls = Vec::new();
    layer.draw_arrays(&vao, DrawMode::Triangles, 0, 3, &mut calls);
    layer.draw_elements(&vao, DrawMode::Triangles, 6, AttributeType::UnsignedShort, 12, &mut calls);
    assert_eq!(
        calls,
        vec![
            Command::BindVertexArray { array: 6 },
            Command::DrawArrays { mode: DrawMode::Triangles, first: 0, count: 3 },
            Command::BindVertexArray { array: 6 },
            Command::DrawElements {
                mode: DrawMode::Triangles,
                count: 6,
                index_type: AttributeType::UnsignedShort,
                indices: 12,
            },
        ]
    );
}
