use gl_test::context::info::{ApiVersion, ContextInfo, ExtensionsIter, InfoStage, PendingInfo};
use gl_test::context::{Clear, Color, DebugMessage, Gl, Level, Rect, Reply, Request, Size, Step};
use gl_test::glenums::{
    ClearKind, ContextFlags, ContextProfile, DebugSeverity, DebugSource, DebugType, DrawMode,
    GetString,
};

#[test]
fn a_new_context_has_nothing_recorded() {
    let mut gl = Gl::new();
    assert_eq!(gl.take(), Vec::<Request>::new());
}

#[test]
fn requests_are_taken_oldest_first_and_once() {
    let mut gl = Gl::new();
    gl.record(Request::SwapBuffers);
    gl.record(Request::RequestRedraw);
    assert_eq!(gl.take(), vec![Request::SwapBuffers, Request::RequestRedraw]);
    assert_eq!(gl.take(), Vec::<Request>::new());
}

#[test]
fn strings_of_the_context() {
    let mut gl = Gl::new();
    assert!(gl.get_string(GetString::vendor(), None));
    assert!(gl.get_string(GetString::renderer(), Some(3)));
    assert!(gl.get_string(GetString::version(), None));
    assert!(gl.get_string(GetString::glsl_version(), None));
    assert!(gl.get_string(GetString::extensions(), Some(7)));
    assert!(!gl.get_string(GetString::extensions(), None));
    assert_eq!(
        gl.take(),
        vec![
            Request::GetString { name: 0x1F00 },
            Request::GetString { name: 0x1F01 },
            Request::GetString { name: 0x1F02 },
            Request::GetString { name: 0x8B8C },
            Request::GetStringi { name: 0x1F03, index: 7 },
        ]
    );
}

#[test]
fn viewport_and_its_largest_size() {
    let mut gl = Gl::new();
    gl.viewport(Rect { x: 1, y: 2, size: Size { width: 800, height: 600 } });
    gl.viewport(Rect { x: u32::MAX, y: 0, size: Size { width: 0x8000_0000, height: 0 } });
    gl.viewport_max();
    assert_eq!(
        gl.take(),
        vec![
            Request::Viewport { x: 1, y: 2, width: 800, height: 600 },
            Request::Viewport { x: -1, y: 0, width: i32::MIN, height: 0 },
            Request::GetIntegerPair { pname: 0x0D3A },
        ]
    );
    assert_eq!(
        Gl::viewport_max_of(&Reply::Pair(16384, 8192)),
        Size { width: 16384, height: 8192 }
    );
    assert_eq!(Gl::viewport_max_of(&Reply::Pair(-1, 0)), Size { width: u32::MAX, height: 0 });
    assert_eq!(Gl::viewport_max_of(&Reply::Nothing), Size { width: 0, height: 0 });
    assert_eq!(Rect::default(), Rect { x: 0, y: 0, size: Size { width: 0, height: 0 } });
    assert_eq!(Size::default(), Size { width: 0, height: 0 });
}

#[test]
fn clearing_and_drawing() {
    let mut gl = Gl::new();
    gl.clear(ClearKind::color_buffer().union(ClearKind::depth_buffer()));
    gl.draw_elements(DrawMode::triangles(), 6, 12);
    gl.draw_elements(DrawMode::lines(), u32::MAX, u32::MAX);
    assert_eq!(
        gl.take(),
        vec![
            Request::Clear { mask: 0x4100 },
            Request::DrawElements { mode: 4, count: 6, kind: 0x1405, offset: 12 },
            Request::DrawElements { mode: 1, count: -1, kind: 0x1405, offset: 0xFFFF_FFFF },
        ]
    );
}

#[test]
fn the_buffer_of_a_log_is_one_space_longer_than_the_log() {
    assert_eq!(Gl::create_whitespace_cstring(0), vec![b' ']);
    assert_eq!(Gl::create_whitespace_cstring(3), vec![b' '; 4]);
    assert_eq!(Gl::create_whitespace_cstring(1000).len(), 1001);
}

#[test]
fn debug_output() {
    let mut gl = Gl::new();
    gl.enable_debug_output();
    gl.debug_message_control(
        DebugSource::dont_care(),
        DebugType::error(),
        DebugSeverity::high(),
        false,
    );
    assert_eq!(
        gl.take(),
        vec![
            Request::Enable { cap: 0x92E0 },
            Request::Enable { cap: 0x8242 },
            Request::DebugMessageCallback,
            Request::DebugMessageControl {
                source: 0x1100,
                kind: 0x824C,
                severity: 0x9146,
                enabled: false,
            },
        ]
    );
}

#[test]
fn debug_messages_for_the_log() {
    let DebugMessage { level, text } =
        Gl::gl_debug_callback(0x8246, 0x824C, 1282, 0x9146, b"GL_INVALID_OPERATION");
    assert_eq!(level, Level::Error);
    assert_eq!(text, "[1282]: [API; Error] - GL_INVALID_OPERATION");
    let report = Gl::gl_debug_callback(0x8248, 0x8250, 0, 0x9147, b"slow");
    assert_eq!(report.level, Level::Warn);
    assert_eq!(report.text, "[0]: [Shader compiler; Performance] - slow");
    let report = Gl::gl_debug_callback(0x824A, 0x8268, 7, 0x9148, &[0xFF]);
    assert_eq!(report.level, Level::Warn);
    assert_eq!(report.text, "[7]: [User; Marker] - \u{FFFD}");
    let report = Gl::gl_debug_callback(0x824B, 0x8251, u32::MAX, 0x826B, b"");
    assert_eq!(report.level, Level::Info);
    assert_eq!(report.text, "[4294967295]: [Other; Other] - ");
    // Bits outside the flags give the wildcard.
    let report = Gl::gl_debug_callback(0x10000, 0x20000, 1, 0x826B, b"m");
    assert_eq!(report.text, "[1]: [Any; Any] - m");
}

#[test]
fn a_report_of_a_given_text() {
    let report = Gl::report(0x8247, 0x824D, 42, 0x9146, "old call");
    assert_eq!(report.level, Level::Error);
    assert_eq!(report.text, "[42]: [Window system; Deprecated] - old call");
    let report = Gl::report(0x8249, 0x8269, 3, 0x826B, "");
    assert_eq!(report.level, Level::Info);
    assert_eq!(report.text, "[3]: [Third party; Push group] - ");
}

#[test]
fn which_debug_messages_can_be_reported() {
    assert!(Gl::can_report(0x8246, 0x824C, 0x9146));
    assert!(Gl::can_report(0x1100, 0x1100, 0x826B));
    assert!(Gl::can_report(0x10000, 0x824C, 0x9148));
    // The wildcard is no severity of a message, and bits outside the flags give it.
    assert!(!Gl::can_report(0x8246, 0x824C, 0x1100));
    assert!(!Gl::can_report(0x8246, 0x824C, 0x10000));
    // Bits within the flags that are no declared flag have no title.
    assert!(!Gl::can_report(1, 0x824C, 0x9146));
    assert!(!Gl::can_report(0x8246, 1, 0x9146));
    assert!(!Gl::can_report(0x8246, 0x824C, 1));
}

#[test]
fn clear_values() {
    let mut gl = Gl::new();
    Clear::default().set(&mut gl);
    assert_eq!(
        gl.take(),
        vec![
            Request::ClearColor { red: 0, green: 0, blue: 0, alpha: 0 },
            Request::ClearDepthf { depth: 0 },
            Request::ClearStencil { stencil: 0 },
        ]
    );
    let clear = Clear {
        color: Some(Color {
            red: 0.5f32.to_bits(),
            green: 0.0f32.to_bits(),
            blue: 1.0f32.to_bits(),
            alpha: 1.0f32.to_bits(),
        }),
        depth: None,
        stencil: Some(u32::MAX),
    };
    clear.set(&mut gl);
    assert_eq!(
        gl.take(),
        vec![
            Request::ClearColor { red: 0x3F00_0000, green: 0, blue: 0x3F80_0000, alpha: 0x3F80_0000 },
            Request::ClearStencil { stencil: -1 },
        ]
    );
    Clear { color: None, depth: Some(1.0f32.to_bits()), stencil: None }.set(&mut gl);
    assert_eq!(gl.take(), vec![Request::ClearDepthf { depth: 0x3F80_0000 }]);
    Clear { color: None, depth: None, stencil: None }.set(&mut gl);
    assert_eq!(gl.take(), Vec::<Request>::new());
    assert_eq!(Color::default(), Color { red: 0, green: 0, blue: 0, alpha: 0 });
}

#[test]
fn the_version_shows_as_text() {
    assert_eq!(ApiVersion { major: 4, minor: 6 }.to_string(), "OpenGL v4.6");
    assert_eq!(ApiVersion { major: 0, minor: 0 }.to_string(), "OpenGL v0.0");
    assert_eq!(ApiVersion { major: 10, minor: 21 }.to_string(), "OpenGL v10.21");
}

#[test]
fn the_version_is_asked_for_in_two_steps() {
    let mut gl = Gl::new();
    let pending = ApiVersion::new(&mut gl);
    assert_eq!(gl.take(), vec![Request::GetIntegerv { pname: 0x821B }]);
    let pending = match pending.resume(&mut gl, Reply::Integer(4)) {
        Step::Ask(pending) => pending,
        Step::Done(_) => panic!("the version came without its minor part"),
    };
    assert_eq!(gl.take(), vec![Request::GetIntegerv { pname: 0x821C }]);
    match pending.resume(&mut gl, Reply::Integer(-1)) {
        Step::Done(version) => assert_eq!(version, ApiVersion { major: 4, minor: u32::MAX }),
        Step::Ask(_) => panic!("the version asks for more"),
    }
    assert_eq!(gl.take(), Vec::<Request>::new());
}

#[test]
fn the_walk_over_the_extensions() {
    let mut gl = Gl::new();
    let mut iter = ExtensionsIter::iter(&Reply::Integer(2));
    assert_eq!(iter, ExtensionsIter { end: 2, current: 0 });
    assert!(iter.next(&mut gl));
    assert!(iter.next(&mut gl));
    assert!(!iter.next(&mut gl));
    assert!(!iter.next(&mut gl));
    assert_eq!(iter, ExtensionsIter { end: 2, current: 2 });
    assert_eq!(
        gl.take(),
        vec![
            Request::GetStringi { name: 0x1F03, index: 0 },
            Request::GetStringi { name: 0x1F03, index: 1 },
        ]
    );
    assert_eq!(ExtensionsIter::iter(&Reply::Integer(-1)).end, usize::MAX);
    assert_eq!(ExtensionsIter::iter(&Reply::Nothing).end, 0);
}

fn text(value: &str) -> Reply {
    Reply::Text(Some(value.as_bytes().to_vec()))
}

fn ask(step: Step<PendingInfo, ContextInfo>) -> PendingInfo {
    match step {
        Step::Ask(pending) => pending,
        Step::Done(_) => panic!("the details came too early"),
    }
}

#[test]
fn the_details_of_a_context() {
    let mut gl = Gl::new();
    let pending = ContextInfo::new(&mut gl);
    assert_eq!(gl.take(), vec![Request::GetIntegerv { pname: 0x821B }]);
    let pending = ask(pending.resume(&mut gl, Reply::Integer(4)));
    assert_eq!(gl.take(), vec![Request::GetIntegerv { pname: 0x821C }]);
    let pending = ask(pending.resume(&mut gl, Reply::Integer(6)));
    assert_eq!(gl.take(), vec![Request::GetString { name: 0x1F00 }]);
    let pending = ask(pending.resume(&mut gl, text("Mesa")));
    assert_eq!(gl.take(), vec![Request::GetString { name: 0x1F01 }]);
    let pending = ask(pending.resume(&mut gl, text("llvmpipe")));
    assert_eq!(gl.take(), vec![Request::GetIntegerv { pname: 0x821D }]);
    let pending = ask(pending.resume(&mut gl, Reply::Integer(2)));
    assert_eq!(gl.take(), vec![Request::GetStringi { name: 0x1F03, index: 0 }]);
    let pending = ask(pending.resume(&mut gl, text("GL_ARB_one")));
    assert_eq!(gl.take(), vec![Request::GetStringi { name: 0x1F03, index: 1 }]);
    let pending = ask(pending.resume(&mut gl, text("GL_ARB_two")));
    assert_eq!(gl.take(), vec![Request::GetString { name: 0x8B8C }]);
    let pending = ask(pending.resume(&mut gl, text("4.60")));
    assert_eq!(gl.take(), vec![Request::GetIntegerv { pname: 0x9126 }]);
    let pending = ask(pending.resume(&mut gl, Reply::Integer(0x11)));
    assert_eq!(gl.take(), vec![Request::GetIntegerv { pname: 0x821E }]);
    let info = match pending.resume(&mut gl, Reply::Integer(-1)) {
        Step::Done(info) => info,
        Step::Ask(_) => panic!("the details ask for more"),
    };
    assert_eq!(gl.take(), Vec::<Request>::new());
    assert_eq!(info.version, ApiVersion { major: 4, minor: 6 });
    assert_eq!(info.vendor, "Mesa");
    assert_eq!(info.renderer, "llvmpipe");
    assert_eq!(info.extensions, vec!["GL_ARB_one".to_string(), "GL_ARB_two".to_string()]);
    assert_eq!(info.glsl, "4.60");
    assert_eq!(info.profile, ContextProfile::core_profile());
    assert_eq!(info.flags, ContextFlags::all());
}

#[test]
fn the_walk_ends_at_the_first_extension_without_a_string() {
    let mut gl = Gl::new();
    let pending = ContextInfo::new(&mut gl);
    let pending = ask(pending.resume(&mut gl, Reply::Integer(3)));
    let pending = ask(pending.resume(&mut gl, Reply::Integer(3)));
    let pending = ask(pending.resume(&mut gl, Reply::Text(None)));
    let pending = ask(pending.resume(&mut gl, Reply::Nothing));
    let pending = ask(pending.resume(&mut gl, Reply::Integer(5)));
    let pending = ask(pending.resume(&mut gl, text("first")));
    gl.take();
    assert_eq!(pending.stage, InfoStage::Extension(ExtensionsIter { end: 5, current: 2 }));
    let pending = ask(pending.resume(&mut gl, Reply::Text(None)));
    assert_eq!(pending.stage, InfoStage::Glsl);
    assert_eq!(gl.take(), vec![Request::GetString { name: 0x8B8C }]);
    let pending = ask(pending.resume(&mut gl, Reply::Text(Some(vec![0xFF]))));
    let pending = ask(pending.resume(&mut gl, Reply::Integer(0)));
    let info = match pending.resume(&mut gl, Reply::Integer(2)) {
        Step::Done(info) => info,
        Step::Ask(_) => panic!("the details ask for more"),
    };
    assert_eq!(info.vendor, "");
    assert_eq!(info.renderer, "");
    assert_eq!(info.extensions, vec!["first".to_string()]);
    assert_eq!(info.glsl, "\u{FFFD}");
    assert_eq!(info.profile, ContextProfile::empty());
    assert_eq!(info.flags, ContextFlags::debug());
}

#[test]
fn a_context_without_extensions() {
    let mut gl = Gl::new();
    let pending = ContextInfo::new(&mut gl);
    let pending = ask(pending.resume(&mut gl, Reply::Integer(3)));
    let pending = ask(pending.resume(&mut gl, Reply::Integer(3)));
    let pending = ask(pending.resume(&mut gl, text("v")));
    let pending = ask(pending.resume(&mut gl, text("r")));
    gl.take();
    let pending = ask(pending.resume(&mut gl, Reply::Integer(0)));
    assert_eq!(pending.stage, InfoStage::Glsl);
    assert_eq!(gl.take(), vec![Request::GetString { name: 0x8B8C }]);
    assert!(pending.info.extensions.is_empty());
}
