use gl_test::context::Gl;
use gl_test::glerror::GlError;
use gl_test::text::to_decimal;

/// The text that the bytes of a debug message are read as.
fn lossy(bytes: &[u8]) -> String {
    let report = Gl::gl_debug_callback(0x8246, 0x824C, 0, 0x9146, bytes);
    report.text.strip_prefix("[0]: [API; Error] - ").unwrap().to_string()
}

#[test]
fn numbers_in_decimal() {
    assert_eq!(to_decimal(0), "0");
    assert_eq!(to_decimal(7), "7");
    assert_eq!(to_decimal(10), "10");
    assert_eq!(to_decimal(109), "109");
    assert_eq!(to_decimal(1_000_000), "1000000");
    assert_eq!(to_decimal(u32::MAX), "4294967295");
}

#[test]
fn decimal_agrees_with_the_standard_library() {
    for n in [1u32, 9, 11, 99, 100, 101, 12345, 65535, 65536, 999_999_999, 1_000_000_000] {
        assert_eq!(to_decimal(n), n.to_string());
    }
}

#[test]
fn bytes_are_read_as_utf8() {
    assert_eq!(lossy(b"NVIDIA Corporation"), "NVIDIA Corporation");
    assert_eq!(lossy(&[]), "");
    assert_eq!(lossy("Gr\u{fc}n".as_bytes()), "Gr\u{fc}n");
}

#[test]
fn what_is_no_utf8_is_replaced() {
    assert_eq!(lossy(&[b'a', 0xFF, b'b']), "a\u{FFFD}b");
    assert_eq!(lossy(&[0xC3]), "\u{FFFD}");
    assert_eq!(lossy(&[b'o', b'k', 0, b' ']), "ok\0 ");
}

#[test]
fn errors_show_what_failed_and_the_message() {
    assert_eq!(GlError::Buffer("no name".to_string()).to_string(), "Buffer error: no name");
    assert_eq!(
        GlError::Shader("0:1: syntax error".to_string()).to_string(),
        "Shader compilation failed with: 0:1: syntax error"
    );
    assert_eq!(
        GlError::ShaderProgram("missing main".to_string()).to_string(),
        "Linking shader program failed with: missing main"
    );
    assert_eq!(GlError::Shader(String::new()).to_string(), "Shader compilation failed with: ");
}
