use graphics::{AttributeType, ClearFlags, DrawMode, DrawTarget, DrawUsage, ShaderType};

#[test]
fn attribute_type_codes_are_the_backend_constants() {
    assert_eq!(AttributeType::Byte.code(), gl::BYTE);
    assert_eq!(AttributeType::UnsignedByte.code(), gl::UNSIGNED_BYTE);
    assert_eq!(AttributeType::Short.code(), gl::SHORT);
    assert_eq!(AttributeType::UnsignedShort.code(), gl::UNSIGNED_SHORT);
    assert_eq!(AttributeType::Float.code(), gl::FLOAT);
    assert_eq!(AttributeType::HalfFloat.code(), gl::HALF_FLOAT);
    assert_eq!(AttributeType::Double.code(), gl::DOUBLE);
    assert_eq!(AttributeType::Int.code(), gl::INT);
    assert_eq!(AttributeType::UnsignedInt.code(), gl::UNSIGNED_INT);
    assert_eq!(AttributeType::Fixed.code(), gl::FIXED);
}

#[test]
fn draw_usage_codes_are_the_backend_constants() {
    assert_eq!(DrawUsage::StreamDraw.code(), gl::STREAM_DRAW);
    assert_eq!(DrawUsage::StreamRead.code(), gl::STREAM_READ);
    assert_eq!(DrawUsage::StreamCopy.code(), gl::STREAM_COPY);
    assert_eq!(DrawUsage::StaticDraw.code(), gl::STATIC_DRAW);
    assert_eq!(DrawUsage::StaticRead.code(), gl::STATIC_READ);
    assert_eq!(DrawUsage::StaticCopy.code(), gl::STATIC_COPY);
    assert_eq!(DrawUsage::DynamicDraw.code(), gl::DYNAMIC_DRAW);
    assert_eq!(DrawUsage::DynamicRead.code(), gl::DYNAMIC_READ);
    assert_eq!(DrawUsage::DynamicCopy.code(), gl::DYNAMIC_COPY);
}

#[test]
fn draw_target_codes_are_the_backend_constants() {
    assert_eq!(DrawTarget::ArrayBuffer.code(), gl::ARRAY_BUFFER);
    assert_eq!(DrawTarget::AtomicCounterBuffer.code(), gl::ATOMIC_COUNTER_BUFFER);
    assert_eq!(DrawTarget::CopyReadBuffer.code(), gl::COPY_READ_BUFFER);
    assert_eq!(DrawTarget::CopyWriteBuffer.code(), gl::COPY_WRITE_BUFFER);
    assert_eq!(DrawTarget::DispatchIndirectBuffer.code(), gl::DISPATCH_INDIRECT_BUFFER);
    assert_eq!(DrawTarget::DrawIndirectBuffer.code(), gl::DRAW_INDIRECT_BUFFER);
    assert_eq!(DrawTarget::ElementArrayBuffer.code(), gl::ELEMENT_ARRAY_BUFFER);
    assert_eq!(DrawTarget::PixelPackBuffer.code(), gl::PIXEL_PACK_BUFFER);
    assert_eq!(DrawTarget::PixelUnpackBuffer.code(), gl::PIXEL_UNPACK_BUFFER);
    assert_eq!(DrawTarget::QueryBuffer.code(), gl::QUERY_BUFFER);
    assert_eq!(DrawTarget::ShaderStorageBuffer.code(), gl::SHADER_STORAGE_BUFFER);
    assert_eq!(DrawTarget::TextureBuffer.code(), gl::TEXTURE_BUFFER);
    assert_eq!(DrawTarget::TransformFeedbackBuffer.code(), gl::TRANSFORM_FEEDBACK_BUFFER);
    assert_eq!(DrawTarget::UniformBuffer.code(), gl::UNIFORM_BUFFER);
}

#[test]
fn draw_mode_and_shader_type_codes_are_the_backend_constants() {
    assert_eq!(DrawMode::Triangles.code(), gl::TRIANGLES);
    assert_eq!(ShaderType::Fragment.code(), gl::FRAGMENT_SHADER);
    assert_eq!(ShaderType::Vertex.code(), gl::VERTEX_SHADER);
}

#[test]
fn clear_flags_are_the_backend_bits_and_combine_by_or() {
    assert_eq!(ClearFlags::color().bits(), gl::COLOR_BUFFER_BIT);
    assert_eq!(ClearFlags::depth().bits(), gl::DEPTH_BUFFER_BIT);
    assert_eq!(ClearFlags::stencil().bits(), gl::STENCIL_BUFFER_BIT);
    let both = ClearFlags::color() | ClearFlags::depth();
    assert_eq!(both.bits(), 0x4100);
    let all = both | ClearFlags::stencil();
    assert_eq!(all.bits(), 0x4500);
    assert_eq!((all | ClearFlags::color()).bits(), 0x4500);
}
