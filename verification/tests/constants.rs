use gl_test::context::gl as own;

#[test]
fn enumerants_agree_with_the_bindings_of_the_interface() {
    assert_eq!(own::DONT_CARE, gl::DONT_CARE);
    assert_eq!(own::DEBUG_SEVERITY_HIGH, gl::DEBUG_SEVERITY_HIGH);
    assert_eq!(own::DEBUG_SEVERITY_MEDIUM, gl::DEBUG_SEVERITY_MEDIUM);
    assert_eq!(own::DEBUG_SEVERITY_LOW, gl::DEBUG_SEVERITY_LOW);
    assert_eq!(own::DEBUG_SEVERITY_NOTIFICATION, gl::DEBUG_SEVERITY_NOTIFICATION);
    assert_eq!(own::DEBUG_SOURCE_API, gl::DEBUG_SOURCE_API);
    assert_eq!(own::DEBUG_SOURCE_WINDOW_SYSTEM, gl::DEBUG_SOURCE_WINDOW_SYSTEM);
    assert_eq!(own::DEBUG_SOURCE_SHADER_COMPILER, gl::DEBUG_SOURCE_SHADER_COMPILER);
    assert_eq!(own::DEBUG_SOURCE_THIRD_PARTY, gl::DEBUG_SOURCE_THIRD_PARTY);
    assert_eq!(own::DEBUG_SOURCE_APPLICATION, gl::DEBUG_SOURCE_APPLICATION);
    assert_eq!(own::DEBUG_SOURCE_OTHER, gl::DEBUG_SOURCE_OTHER);
    assert_eq!(own::DEBUG_TYPE_ERROR, gl::DEBUG_TYPE_ERROR);
    assert_eq!(own::DEBUG_TYPE_DEPRECATED_BEHAVIOR, gl::DEBUG_TYPE_DEPRECATED_BEHAVIOR);
    assert_eq!(own::DEBUG_TYPE_UNDEFINED_BEHAVIOR, gl::DEBUG_TYPE_UNDEFINED_BEHAVIOR);
    assert_eq!(own::DEBUG_TYPE_PORTABILITY, gl::DEBUG_TYPE_PORTABILITY);
    assert_eq!(own::DEBUG_TYPE_PERFORMANCE, gl::DEBUG_TYPE_PERFORMANCE);
    assert_eq!(own::DEBUG_TYPE_OTHER, gl::DEBUG_TYPE_OTHER);
    assert_eq!(own::DEBUG_TYPE_MARKER, gl::DEBUG_TYPE_MARKER);
    assert_eq!(own::DEBUG_TYPE_PUSH_GROUP, gl::DEBUG_TYPE_PUSH_GROUP);
    assert_eq!(own::DEBUG_TYPE_POP_GROUP, gl::DEBUG_TYPE_POP_GROUP);
    assert_eq!(own::ARRAY_BUFFER, gl::ARRAY_BUFFER);
    assert_eq!(own::ATOMIC_COUNTER_BUFFER, gl::ATOMIC_COUNTER_BUFFER);
    assert_eq!(own::COPY_READ_BUFFER, gl::COPY_READ_BUFFER);
    assert_eq!(own::COPY_WRITE_BUFFER, gl::COPY_WRITE_BUFFER);
    assert_eq!(own::DISPATCH_INDIRECT_BUFFER, gl::DISPATCH_INDIRECT_BUFFER);
    assert_eq!(own::DRAW_INDIRECT_BUFFER, gl::DRAW_INDIRECT_BUFFER);
    assert_eq!(own::ELEMENT_ARRAY_BUFFER, gl::ELEMENT_ARRAY_BUFFER);
    assert_eq!(own::PIXEL_PACK_BUFFER, gl::PIXEL_PACK_BUFFER);
    assert_eq!(own::PIXEL_UNPACK_BUFFER, gl::PIXEL_UNPACK_BUFFER);
    assert_eq!(own::QUERY_BUFFER, gl::QUERY_BUFFER);
    assert_eq!(own::SHADER_STORAGE_BUFFER, gl::SHADER_STORAGE_BUFFER);
    assert_eq!(own::TEXTURE_BUFFER, gl::TEXTURE_BUFFER);
    assert_eq!(own::TRANSFORM_FEEDBACK_BUFFER, gl::TRANSFORM_FEEDBACK_BUFFER);
    assert_eq!(own::UNIFORM_BUFFER, gl::UNIFORM_BUFFER);
    assert_eq!(own::STREAM_DRAW, gl::STREAM_DRAW);
    assert_eq!(own::STREAM_READ, gl::STREAM_READ);
    assert_eq!(own::STREAM_COPY, gl::STREAM_COPY);
    assert_eq!(own::STATIC_DRAW, gl::STATIC_DRAW);
    assert_eq!(own::STATIC_READ, gl::STATIC_READ);
    assert_eq!(own::STATIC_COPY, gl::STATIC_COPY);
    assert_eq!(own::DYNAMIC_DRAW, gl::DYNAMIC_DRAW);
    assert_eq!(own::DYNAMIC_READ, gl::DYNAMIC_READ);
    assert_eq!(own::DYNAMIC_COPY, gl::DYNAMIC_COPY);
    assert_eq!(own::COLOR_BUFFER_BIT, gl::COLOR_BUFFER_BIT);
    assert_eq!(own::DEPTH_BUFFER_BIT, gl::DEPTH_BUFFER_BIT);
    assert_eq!(own::STENCIL_BUFFER_BIT, gl::STENCIL_BUFFER_BIT);
    assert_eq!(own::CONTEXT_FLAG_FORWARD_COMPATIBLE_BIT, gl::CONTEXT_FLAG_FORWARD_COMPATIBLE_BIT);
    assert_eq!(own::CONTEXT_FLAG_DEBUG_BIT, gl::CONTEXT_FLAG_DEBUG_BIT);
    assert_eq!(own::CONTEXT_FLAG_ROBUST_ACCESS_BIT, gl::CONTEXT_FLAG_ROBUST_ACCESS_BIT);
    assert_eq!(own::CONTEXT_CORE_PROFILE_BIT, gl::CONTEXT_CORE_PROFILE_BIT);
    assert_eq!(own::CONTEXT_COMPATIBILITY_PROFILE_BIT, gl::CONTEXT_COMPATIBILITY_PROFILE_BIT);
    assert_eq!(own::POINTS, gl::POINTS);
    assert_eq!(own::LINES, gl::LINES);
    assert_eq!(own::LINE_LOOP, gl::LINE_LOOP);
    assert_eq!(own::LINE_STRIP, gl::LINE_STRIP);
    assert_eq!(own::TRIANGLES, gl::TRIANGLES);
    assert_eq!(own::TRIANGLE_STRIP, gl::TRIANGLE_STRIP);
    assert_eq!(own::TRIANGLE_FAN, gl::TRIANGLE_FAN);
    assert_eq!(own::LINE_STRIP_ADJACENCY, gl::LINE_STRIP_ADJACENCY);
    assert_eq!(own::TRIANGLES_ADJACENCY, gl::TRIANGLES_ADJACENCY);
    assert_eq!(own::TRIANGLE_STRIP_ADJACENCY, gl::TRIANGLE_STRIP_ADJACENCY);
    assert_eq!(own::PATCHES, gl::PATCHES);
    assert_eq!(own::NO_ERROR, gl::NO_ERROR);
    assert_eq!(own::INVALID_ENUM, gl::INVALID_ENUM);
    assert_eq!(own::INVALID_VALUE, gl::INVALID_VALUE);
    assert_eq!(own::INVALID_OPERATION, gl::INVALID_OPERATION);
    assert_eq!(own::STACK_OVERFLOW, gl::STACK_OVERFLOW);
    assert_eq!(own::STACK_UNDERFLOW, gl::STACK_UNDERFLOW);
    assert_eq!(own::OUT_OF_MEMORY, gl::OUT_OF_MEMORY);
    assert_eq!(own::INVALID_FRAMEBUFFER_OPERATION, gl::INVALID_FRAMEBUFFER_OPERATION);
    assert_eq!(own::VENDOR, gl::VENDOR);
    assert_eq!(own::RENDERER, gl::RENDERER);
    assert_eq!(own::VERSION, gl::VERSION);
    assert_eq!(own::EXTENSIONS, gl::EXTENSIONS);
    assert_eq!(own::SHADING_LANGUAGE_VERSION, gl::SHADING_LANGUAGE_VERSION);
    assert_eq!(own::BUFFER, gl::BUFFER);
    assert_eq!(own::SHADER, gl::SHADER);
    assert_eq!(own::PROGRAM, gl::PROGRAM);
    assert_eq!(own::QUERY, gl::QUERY);
    assert_eq!(own::PROGRAM_PIPELINE, gl::PROGRAM_PIPELINE);
    assert_eq!(own::SAMPLER, gl::SAMPLER);
    assert_eq!(own::VERTEX_ARRAY, gl::VERTEX_ARRAY);
    assert_eq!(own::TRANSFORM_FEEDBACK, gl::TRANSFORM_FEEDBACK);
    assert_eq!(own::TEXTURE, gl::TEXTURE);
    assert_eq!(own::RENDERBUFFER, gl::RENDERBUFFER);
    assert_eq!(own::FRAMEBUFFER, gl::FRAMEBUFFER);
    assert_eq!(own::FRAGMENT_SHADER, gl::FRAGMENT_SHADER);
    assert_eq!(own::VERTEX_SHADER, gl::VERTEX_SHADER);
    assert_eq!(own::GEOMETRY_SHADER, gl::GEOMETRY_SHADER);
    assert_eq!(own::MAJOR_VERSION, gl::MAJOR_VERSION);
    assert_eq!(own::MINOR_VERSION, gl::MINOR_VERSION);
    assert_eq!(own::NUM_EXTENSIONS, gl::NUM_EXTENSIONS);
    assert_eq!(own::CONTEXT_FLAGS, gl::CONTEXT_FLAGS);
    assert_eq!(own::CONTEXT_PROFILE_MASK, gl::CONTEXT_PROFILE_MASK);
    assert_eq!(own::MAX_VIEWPORT_DIMS, gl::MAX_VIEWPORT_DIMS);
    assert_eq!(own::DEBUG_OUTPUT, gl::DEBUG_OUTPUT);
    assert_eq!(own::DEBUG_OUTPUT_SYNCHRONOUS, gl::DEBUG_OUTPUT_SYNCHRONOUS);
    assert_eq!(own::COMPILE_STATUS, gl::COMPILE_STATUS);
    assert_eq!(own::LINK_STATUS, gl::LINK_STATUS);
    assert_eq!(own::INFO_LOG_LENGTH, gl::INFO_LOG_LENGTH);
    assert_eq!(own::UNSIGNED_INT, gl::UNSIGNED_INT);
    assert_eq!(own::FLOAT, gl::FLOAT);
    assert_eq!(own::TRUE, i32::from(gl::TRUE));
    assert_eq!(own::FALSE, i32::from(gl::FALSE));
}

#[test]
fn enumerants_of_the_later_versions() {
    assert_eq!(own::CONTEXT_FLAG_NO_ERROR_BIT, 0x0000_0008);
    assert_eq!(own::SHADER_BINARY_FORMAT_SPIR_V, 0x9551);
}
