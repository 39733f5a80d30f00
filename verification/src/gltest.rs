//! The program itself: how it sets its objects up once the context is there, and what it does
//! on each event of its window.

use crate::cleanup::Cleanup;
use crate::context::info::{ContextInfo, ContextInfoView, PendingInfo, PendingInfoView};
use crate::context::request::info;
use crate::context::{asks, gl, Clear, Color, Gl, Rect, Reply, Request, RequestView, Size, Step};
use crate::glenums::{ClearKind, DebugSeverity, DebugSource, DebugType, DrawMode};
use crate::glerror::{GlError, GlErrorView};
use crate::resources::programs::rectangle::as_rectangle;
use crate::resources::programs::triangle::{as_triangle_buf, as_triangle_shader};
use crate::resources::programs::{
    PendingRectangle, PendingShapeView, PendingTriangleBuf, PendingTriangleShader, Rectangle,
    RectangleView, TriangleBuf, TriangleBufView, TriangleShader, TriangleShaderView,
};
use crate::shaders::datatypes::vertex::ONE;
use crate::shaders::PendingRawView;
use vstd::prelude::*;

verus! {

/// The red of the background, 220 of 255, as the bit pattern of a single precision number.
pub const BACKGROUND_RED: u32 = 0x3F5C_DCDD;

/// The green of the background, 205 of 255, as the bit pattern of a single precision number.
pub const BACKGROUND_GREEN: u32 = 0x3F4D_CDCE;

/// The program: what is known of its context, the program that draws, and the two shapes.
pub struct GlTest {
    pub info: ContextInfo,
    pub triangle_prog: TriangleShader,
    pub trianglebuf: TriangleBuf,
    pub rectanglebuf: Rectangle,
}

/// The program as contracts speak of it.
pub struct GlTestView {
    pub info: ContextInfoView,
    pub triangle_prog: TriangleShaderView,
    pub trianglebuf: TriangleBufView,
    pub rectanglebuf: RectangleView,
}

impl View for GlTest {
    type V = GlTestView;

    open spec fn view(&self) -> GlTestView {
        GlTestView {
            info: self.info@,
            triangle_prog: self.triangle_prog@,
            trianglebuf: self.trianglebuf@,
            rectanglebuf: self.rectanglebuf@,
        }
    }
}

/// The program on its way: what its setting up waits for, and what is there already.
#[allow(inconsistent_fields)]
pub enum PendingGlTest {
    /// The details of the context.
    Info { pending: PendingInfo },
    /// The program that draws.
    Program { info: ContextInfo, pending: PendingTriangleShader },
    /// The triangle.
    Triangle { info: ContextInfo, triangle_prog: TriangleShader, pending: PendingTriangleBuf },
    /// The rectangle.
    Rectangle {
        info: ContextInfo,
        triangle_prog: TriangleShader,
        trianglebuf: TriangleBuf,
        pending: PendingRectangle,
    },
}

/// The pending program as contracts speak of it.
#[allow(inconsistent_fields)]
pub enum PendingGlTestView {
    Info { pending: PendingInfoView },
    Program { info: ContextInfoView, pending: PendingRawView },
    Triangle { info: ContextInfoView, triangle_prog: TriangleShaderView, pending: PendingShapeView },
    Rectangle {
        info: ContextInfoView,
        triangle_prog: TriangleShaderView,
        trianglebuf: TriangleBufView,
        pending: PendingShapeView,
    },
}

impl View for PendingGlTest {
    type V = PendingGlTestView;

    open spec fn view(&self) -> PendingGlTestView {
        match *self {
            PendingGlTest::Info { pending } => PendingGlTestView::Info { pending: pending@ },
            PendingGlTest::Program { info, pending } => PendingGlTestView::Program {
                info: info@,
                pending: pending@,
            },
            PendingGlTest::Triangle { info, triangle_prog, pending } => PendingGlTestView::Triangle {
                info: info@,
                triangle_prog: triangle_prog@,
                pending: pending@,
            },
            PendingGlTest::Rectangle {
                info,
                triangle_prog,
                trianglebuf,
                pending,
            } => PendingGlTestView::Rectangle {
                info: info@,
                triangle_prog: triangle_prog@,
                trianglebuf: trianglebuf@,
                pending: pending@,
            },
        }
    }
}

/// The values that the program clears to: its background, fully opaque, and 0 for depth and
/// stencil index.
pub open spec fn background() -> Clear {
    Clear {
        color: Some(
            Color { red: BACKGROUND_RED, green: BACKGROUND_GREEN, blue: ONE, alpha: ONE },
        ),
        depth: Some(0u32),
        stencil: Some(0u32),
    }
}

/// The requests that log what is known of a context: its version, its vendor, its renderer
/// and the version of its shading language.
pub open spec fn info_logs(known: ContextInfoView) -> Seq<RequestView> {
    seq![
        info(known.version.text()),
        info("Vendor: "@ + known.vendor),
        info("GPU: "@ + known.renderer),
        info("GLSL version: "@ + known.glsl),
    ]
}

impl PendingGlTestView {
    /// What the setting up can go on with.
    pub open spec fn accepts(self, reply: Reply) -> bool {
        match self {
            PendingGlTestView::Program { pending, .. } => pending.accepts(reply),
            _ => true,
        }
    }

    /// Where the setting up stands once the making of the program that draws has come to
    /// `step`: with the program there, the triangle is started.
    pub open spec fn program_step(
        info: ContextInfoView,
        step: Step<PendingRawView, Result<TriangleShaderView, GlErrorView>>,
    ) -> Step<PendingGlTestView, Result<GlTestView, GlErrorView>> {
        match step {
            Step::Ask(pending) => Step::Ask(PendingGlTestView::Program { info, pending }),
            Step::Done(Ok(triangle_prog)) => Step::Ask(
                PendingGlTestView::Triangle { info, triangle_prog, pending: TriangleBuf::first() },
            ),
            Step::Done(Err(error)) => Step::Done(Err(error)),
        }
    }

    /// What the setting up records once the making of the program that draws has come to
    /// `step`.
    pub open spec fn program_emits(
        step: Step<PendingRawView, Result<TriangleShaderView, GlErrorView>>,
    ) -> Seq<RequestView> {
        match step {
            Step::Done(Ok(_)) => seq![RequestView::GenBuffers],
            _ => Seq::empty(),
        }
    }

    /// Where the setting up stands after the answer `reply`. The details of the context come
    /// first, then the program that draws, the triangle and the rectangle. An error ends the
    /// setting up.
    pub open spec fn next(self, reply: Reply) -> Step<
        PendingGlTestView,
        Result<GlTestView, GlErrorView>,
    > {
        match self {
            PendingGlTestView::Info { pending } => match pending.next(reply) {
                Step::Ask(pending) => Step::Ask(PendingGlTestView::Info { pending }),
                Step::Done(info) => Self::program_step(info, TriangleShader::first()),
            },
            PendingGlTestView::Program { info, pending } => Self::program_step(
                info,
                as_triangle_shader(pending.next(reply)),
            ),
            PendingGlTestView::Triangle { info, triangle_prog, pending } => match as_triangle_buf(
                pending.next(reply),
            ) {
                Step::Ask(pending) => Step::Ask(
                    PendingGlTestView::Triangle { info, triangle_prog, pending },
                ),
                Step::Done(Ok(trianglebuf)) => Step::Ask(
                    PendingGlTestView::Rectangle {
                        info,
                        triangle_prog,
                        trianglebuf,
                        pending: Rectangle::first(),
                    },
                ),
                Step::Done(Err(error)) => Step::Done(Err(error)),
            },
            PendingGlTestView::Rectangle {
                info,
                triangle_prog,
                trianglebuf,
                pending,
            } => match as_rectangle(pending.next(reply)) {
                Step::Ask(pending) => Step::Ask(
                    PendingGlTestView::Rectangle { info, triangle_prog, trianglebuf, pending },
                ),
                Step::Done(Ok(rectanglebuf)) => Step::Done(
                    Ok(GlTestView { info, triangle_prog, trianglebuf, rectanglebuf }),
                ),
                Step::Done(Err(error)) => Step::Done(Err(error)),
            },
        }
    }

    /// How many answers the setting up waits for at most, this one not counted.
    pub open spec fn rank(self) -> nat {
        match self {
            PendingGlTestView::Info { pending } => pending.rank() + 21,
            PendingGlTestView::Program { pending, .. } => pending.rank() + 6,
            PendingGlTestView::Triangle { pending, .. } => pending.rank() + 3,
            PendingGlTestView::Rectangle { pending, .. } => pending.rank(),
        }
    }

    /// Each answer brings the setting up nearer to its end: a driver that answers each request
    /// comes to the program, or to an error, after finitely many answers.
    pub proof fn lemma_progress(self, reply: Reply)
        ensures
            self.next(reply) matches Step::Ask(next) ==> next.rank() < self.rank(),
    {
        match self {
            PendingGlTestView::Info { pending } => {
                pending.lemma_progress(reply);
                TriangleShader::descriptors()[0].lemma_first_rank();
            },
            PendingGlTestView::Program { info, pending } => {
                pending.lemma_progress(reply);
            },
            PendingGlTestView::Triangle { info, triangle_prog, pending } => {
                pending.lemma_progress(reply);
            },
            PendingGlTestView::Rectangle { info, triangle_prog, trianglebuf, pending } => {
                pending.lemma_progress(reply);
            },
        }
    }

    /// Where the setting up asks, the last request that it recorded yields the value that it
    /// waits for: a driver that performs the requests in their order has the answer at hand
    /// when it has performed the last.
    pub proof fn lemma_asks(self, reply: Reply)
        ensures
            self.next(reply) is Ask ==> asks(self.emits(reply)),
    {
        match self {
            PendingGlTestView::Info { pending } => {
                pending.lemma_asks(reply);
                TriangleShader::descriptors()[0].lemma_first_asks();
            },
            PendingGlTestView::Program { info, pending } => {
                pending.lemma_asks(reply);
            },
            PendingGlTestView::Triangle { info, triangle_prog, pending } => {
                pending.lemma_asks(reply);
            },
            PendingGlTestView::Rectangle { info, triangle_prog, trianglebuf, pending } => {
                pending.lemma_asks(reply);
            },
        }
    }

    /// What the setting up records on the answer `reply`. Where it ends with an error, what
    /// was made before is released, the latest first; where it ends well, the background is
    /// set.
    pub open spec fn emits(self, reply: Reply) -> Seq<RequestView> {
        match self {
            PendingGlTestView::Info { pending } => match pending.next(reply) {
                Step::Ask(_) => pending.emits(reply),
                Step::Done(known) => pending.emits(reply) + info_logs(known)
                    + TriangleShader::first_emits() + Self::program_emits(TriangleShader::first()),
            },
            PendingGlTestView::Program { info, pending } => pending.emits(reply)
                + Self::program_emits(as_triangle_shader(pending.next(reply))),
            PendingGlTestView::Triangle { info, triangle_prog, pending } => match pending.next(
                reply,
            ) {
                Step::Ask(_) => pending.emits(reply),
                Step::Done(Ok(_)) => pending.emits(reply) + seq![RequestView::GenBuffers],
                Step::Done(Err(_)) => pending.emits(reply) + triangle_prog.shader.release(),
            },
            PendingGlTestView::Rectangle {
                info,
                triangle_prog,
                trianglebuf,
                pending,
            } => match pending.next(reply) {
                Step::Ask(_) => pending.emits(reply),
                Step::Done(Ok(_)) => pending.emits(reply) + background().requests(),
                Step::Done(Err(_)) => pending.emits(reply) + trianglebuf.vao.release()
                    + triangle_prog.shader.release(),
            },
        }
    }
}

/// What happens in the window.
#[derive(Debug, Clone, Copy, PartialEq, Eq, Structural)]
pub enum Event {
    /// The loop of the events comes to its end.
    LoopDestroyed,
    /// A key went down or up: the key, where it has a meaning.
    KeyboardInput(Option<Key>),
    /// The window has a new size.
    Resized(Size),
    /// The user asks for the window to close.
    CloseRequested,
    /// The window asks to be drawn.
    RedrawRequested,
    /// Anything else.
    Other,
}

/// The keys of the keyboard, as far as the program tells them apart.
#[derive(Debug, Clone, Copy, PartialEq, Eq, Structural)]
pub enum Key {
    A,
    B,
    Other,
}

/// What the loop of the events does after an event.
#[derive(Debug, Clone, Copy, PartialEq, Eq, Structural)]
pub enum ControlFlow {
    /// It waits for the next event.
    Wait,
    /// It ends.
    Exit,
}

/// The program at its start: the largest viewport was asked for.
pub struct PendingRun {
    pub program: u32,
}

impl GlTestView {
    /// The requests that draw the first `count` indices of the shape of the vertex array
    /// `array` as triangles on a cleared background, and ask the window to show them.
    pub open spec fn draws(array: u32, count: u32) -> Seq<RequestView> {
        seq![
            RequestView::Clear { mask: gl::COLOR_BUFFER_BIT },
            RequestView::BindVertexArray { array },
            RequestView::DrawElements {
                mode: gl::TRIANGLES,
                count: count as i32,
                kind: gl::UNSIGNED_INT,
                offset: 0,
            },
            RequestView::RequestRedraw,
        ]
    }

    /// What the program records on the event `event`: the key A draws the triangle, the key B
    /// the rectangle; a new size of the window is taken over by the context and the viewport;
    /// a redraw shows what was drawn.
    pub open spec fn reacts(self, event: Event) -> Seq<RequestView> {
        match event {
            Event::KeyboardInput(Some(Key::A)) => Self::draws(self.trianglebuf.vao.id, 3),
            Event::KeyboardInput(Some(Key::B)) => Self::draws(self.rectanglebuf.vao.id, 6),
            Event::Resized(size) => seq![
                RequestView::ResizeContext { width: size.width, height: size.height },
                RequestView::Viewport {
                    x: 0,
                    y: 0,
                    width: size.width as i32,
                    height: size.height as i32,
                },
            ],
            Event::RedrawRequested => seq![RequestView::SwapBuffers],
            _ => Seq::empty(),
        }
    }

    /// What the loop does after the event `event`: it ends when the window is to close.
    pub open spec fn flows(event: Event) -> ControlFlow {
        match event {
            Event::CloseRequested => ControlFlow::Exit,
            _ => ControlFlow::Wait,
        }
    }

    /// The requests that release what the loop of the events held: the triangle, then the
    /// rectangle. The program that draws was no part of the loop and stays.
    pub open spec fn closes(self) -> Seq<RequestView> {
        self.trianglebuf.vao.release() + self.rectanglebuf.vao.release()
    }

    /// The requests that release the program: the program that draws, the triangle and the
    /// rectangle, in this order.
    pub open spec fn release(self) -> Seq<RequestView> {
        self.triangle_prog.shader.release() + self.trianglebuf.vao.release()
            + self.rectanglebuf.vao.release()
    }
}

impl GlTest {
    /// What the setting up records at its start: the debug output is switched on for every
    /// message, and the major version is asked for.
    pub open spec fn first_emits() -> Seq<RequestView> {
        seq![
            RequestView::Enable { cap: gl::DEBUG_OUTPUT },
            RequestView::Enable { cap: gl::DEBUG_OUTPUT_SYNCHRONOUS },
            RequestView::DebugMessageCallback,
            RequestView::DebugMessageControl {
                source: gl::DONT_CARE,
                kind: gl::DONT_CARE,
                severity: gl::DONT_CARE,
                enabled: true,
            },
            RequestView::GetIntegerv { pname: gl::MAJOR_VERSION },
        ]
    }

    /// Starts the setting up of the program in a context that was just made current.
    pub fn new(gl: &mut Gl) -> (pending: PendingGlTest)
        ensures
            pending@ matches PendingGlTestView::Info { pending: info } && info
                == ContextInfo::first(),
            final(gl)@ == old(gl)@ + Self::first_emits(),
    {
        gl.enable_debug_output();
        gl.debug_message_control(
            DebugSource::dont_care(),
            DebugType::dont_care(),
            DebugSeverity::dont_care(),
            true,
        );
        let pending = ContextInfo::new(gl);
        assert(gl@ =~= old(gl)@ + Self::first_emits());
        PendingGlTest::Info { pending }
    }

    fn after_program(
        gl: &mut Gl,
        info: ContextInfo,
        step: Step<PendingTriangleShader, Result<TriangleShader, GlError>>,
    ) -> (next: Step<PendingGlTest, Result<GlTest, GlError>>)
        ensures
            next.seen() == PendingGlTestView::program_step(info@, step.seen()),
            final(gl)@ == old(gl)@ + PendingGlTestView::program_emits(step.seen()),
    {
        match step {
            Step::Ask(pending) => {
                assert(gl@ =~= old(gl)@ + PendingGlTestView::program_emits(step.seen()));
                Step::Ask(PendingGlTest::Program { info, pending })
            },
            Step::Done(Ok(triangle_prog)) => {
                let pending = TriangleBuf::new(gl);
                assert(gl@ =~= old(gl)@ + PendingGlTestView::program_emits(step.seen()));
                Step::Ask(PendingGlTest::Triangle { info, triangle_prog, pending })
            },
            Step::Done(Err(error)) => {
                assert(gl@ =~= old(gl)@ + PendingGlTestView::program_emits(step.seen()));
                Step::Done(Err(error))
            },
        }
    }

    /// Starts the program: clears the window and asks for the largest viewport.
    pub fn run(&self, gl: &mut Gl) -> (pending: PendingRun)
        ensures
            pending.program == self@.triangle_prog.shader.id,
            final(gl)@ == old(gl)@ + seq![
                RequestView::Clear { mask: gl::COLOR_BUFFER_BIT },
                RequestView::GetIntegerPair { pname: gl::MAX_VIEWPORT_DIMS },
            ],
    {
        gl.clear(ClearKind::color_buffer());
        gl.viewport_max();
        assert(gl@ =~= old(gl)@ + seq![
            RequestView::Clear { mask: gl::COLOR_BUFFER_BIT },
            RequestView::GetIntegerPair { pname: gl::MAX_VIEWPORT_DIMS },
        ]);
        PendingRun { program: self.triangle_prog.shader.name() }
    }

    /// Releases what the loop of the events held, once the loop has come to its end.
    pub fn close(&self, gl: &mut Gl)
        ensures
            final(gl)@ == old(gl)@ + self@.closes(),
    {
        self.trianglebuf.vao.cleanup(gl);
        self.rectanglebuf.vao.cleanup(gl);
        assert(gl@ =~= old(gl)@ + self@.closes());
    }

    /// Does what the program does on the event `event`, and says how the loop goes on.
    pub fn handle(&self, gl: &mut Gl, event: Event) -> (flow: ControlFlow)
        ensures
            flow == GlTestView::flows(event),
            final(gl)@ == old(gl)@ + self@.reacts(event),
    {
        match event {
            Event::KeyboardInput(Some(Key::A)) => {
                gl.clear(ClearKind::color_buffer());
                self.trianglebuf.vao.bind(gl);
                gl.draw_elements(DrawMode::triangles(), 3, 0);
                gl.record(Request::RequestRedraw);
                assert(gl@ =~= old(gl)@ + self@.reacts(event));
                ControlFlow::Wait
            },
            Event::KeyboardInput(Some(Key::B)) => {
                gl.clear(ClearKind::color_buffer());
                self.rectanglebuf.vao.bind(gl);
                gl.draw_elements(DrawMode::triangles(), 6, 0);
                gl.record(Request::RequestRedraw);
                assert(gl@ =~= old(gl)@ + self@.reacts(event));
                ControlFlow::Wait
            },
            Event::Resized(size) => {
                gl.record(Request::ResizeContext { width: size.width, height: size.height });
                gl.viewport(Rect { x: 0, y: 0, size });
                assert(gl@ =~= old(gl)@ + self@.reacts(event));
                ControlFlow::Wait
            },
            Event::CloseRequested => {
                assert(gl@ =~= old(gl)@ + self@.reacts(event));
                ControlFlow::Exit
            },
            Event::RedrawRequested => {
                gl.record(Request::SwapBuffers);
                assert(gl@ =~= old(gl)@ + self@.reacts(event));
                ControlFlow::Wait
            },
            _ => {
                assert(gl@ =~= old(gl)@ + self@.reacts(event));
                ControlFlow::Wait
            },
        }
    }
}

impl PendingRun {
    /// The requests that end the start of the program with what the largest viewport was
    /// found to be: the viewport is set to it, the cleared window is shown, and the program
    /// that draws is made the current one.
    pub open spec fn emits(self, reply: Reply) -> Seq<RequestView> {
        seq![
            RequestView::Viewport {
                x: 0,
                y: 0,
                width: (reply.spec_pair().0 as u32) as i32,
                height: (reply.spec_pair().1 as u32) as i32,
            },
            RequestView::SwapBuffers,
            RequestView::UseProgram { program: self.program },
        ]
    }

    /// Ends the start of the program after the answer `reply` to the request for the largest
    /// viewport.
    pub fn resume(self, gl: &mut Gl, reply: Reply)
        ensures
            final(gl)@ == old(gl)@ + self.emits(reply),
    {
        gl.viewport(Rect { x: 0, y: 0, size: Gl::viewport_max_of(&reply) });
        gl.record(Request::SwapBuffers);
        gl.record(Request::UseProgram { program: self.program });
        assert(gl@ =~= old(gl)@ + self.emits(reply));
    }
}

impl PendingGlTest {
    /// Whether the setting up can go on with the answer `reply`.
    pub fn can_resume(&self, reply: &Reply) -> (accepted: bool)
        ensures
            accepted == self@.accepts(*reply),
    {
        match self {
            PendingGlTest::Program { pending, .. } => pending.can_resume(reply),
            _ => true,
        }
    }

    /// Goes on with the setting up after the answer `reply` to the request that it waited for.
    pub fn resume(self, gl: &mut Gl, reply: Reply) -> (step: Step<
        PendingGlTest,
        Result<GlTest, GlError>,
    >)
        requires
            self@.accepts(reply),
        ensures
            step.seen() == self@.next(reply),
            final(gl)@ == old(gl)@ + self@.emits(reply),
    {
        match self {
            PendingGlTest::Info { pending } => match pending.resume(gl, reply) {
                Step::Ask(pending) => Step::Ask(PendingGlTest::Info { pending }),
                Step::Done(info) => {
                    gl.info(info.version.to_string());
                    gl.info(String::from_str("Vendor: ").concat(info.vendor.as_str()));
                    gl.info(String::from_str("GPU: ").concat(info.renderer.as_str()));
                    gl.info(String::from_str("GLSL version: ").concat(info.glsl.as_str()));
                    let started = TriangleShader::new(gl);
                    let step = GlTest::after_program(gl, info, started);
                    assert(gl@ =~= old(gl)@ + self@.emits(reply));
                    step
                },
            },
            PendingGlTest::Program { info, pending } => {
                let resumed = pending.resume(gl, reply);
                let step = GlTest::after_program(gl, info, resumed);
                assert(gl@ =~= old(gl)@ + self@.emits(reply));
                step
            },
            PendingGlTest::Triangle { info, triangle_prog, pending } => {
                match pending.resume(gl, reply) {
                    Step::Ask(pending) => Step::Ask(
                        PendingGlTest::Triangle { info, triangle_prog, pending },
                    ),
                    Step::Done(Ok(trianglebuf)) => {
                        let pending = Rectangle::new(gl);
                        assert(gl@ =~= old(gl)@ + self@.emits(reply));
                        Step::Ask(
                            PendingGlTest::Rectangle { info, triangle_prog, trianglebuf, pending },
                        )
                    },
                    Step::Done(Err(error)) => {
                        triangle_prog.shader.cleanup(gl);
                        assert(gl@ =~= old(gl)@ + self@.emits(reply));
                        Step::Done(Err(error))
                    },
                }
            },
            PendingGlTest::Rectangle { info, triangle_prog, trianglebuf, pending } => {
                match pending.resume(gl, reply) {
                    Step::Ask(pending) => Step::Ask(
                        PendingGlTest::Rectangle { info, triangle_prog, trianglebuf, pending },
                    ),
                    Step::Done(Ok(rectanglebuf)) => {
                        let clear = Clear {
                            color: Some(
                                Color {
                                    red: BACKGROUND_RED,
                                    green: BACKGROUND_GREEN,
                                    blue: ONE,
                                    alpha: ONE,
                                },
                            ),
                            ..Clear::default()
                        };
                        clear.set(gl);
                        assert(gl@ =~= old(gl)@ + self@.emits(reply));
                        Step::Done(Ok(GlTest { info, triangle_prog, trianglebuf, rectanglebuf }))
                    },
                    Step::Done(Err(error)) => {
                        trianglebuf.vao.cleanup(gl);
                        triangle_prog.shader.cleanup(gl);
                        assert(gl@ =~= old(gl)@ + self@.emits(reply));
                        Step::Done(Err(error))
                    },
                }
            },
        }
    }
}

impl Cleanup for GlTest {
    open spec fn release(&self) -> Seq<RequestView> {
        self@.release()
    }

    fn cleanup(&self, gl: &mut Gl) {
        self.triangle_prog.shader.cleanup(gl);
        self.trianglebuf.vao.cleanup(gl);
        self.rectanglebuf.vao.cleanup(gl);
        assert(gl@ =~= old(gl)@ + self.release());
    }
}

} // verus!
