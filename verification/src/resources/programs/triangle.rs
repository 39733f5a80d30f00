use crate::context::{Gl, Reply, RequestView, Step};
use crate::glerror::{GlError, GlErrorView};
use crate::memory::stateful::{VertexArray, VertexArrayView};
use crate::resources::programs::shape::{PendingShape, PendingShapeView};
use crate::shaders::datatypes::Triangle;
use crate::shaders::shaderprogram::seen_descriptors;
use crate::shaders::{
    PendingRaw, PendingRawView, ShaderDescriptor, ShaderDescriptorView, ShaderFrom, ShaderFromView,
    ShaderKind, ShaderProgram, ShaderProgramView,
};
use vstd::prelude::*;

verus! {

/// The program that draws the shapes: a vertex shader and a fragment shader, each read from
/// its file.
pub struct TriangleShader {
    pub shader: ShaderProgram,
}

/// The program of the shapes as contracts speak of it.
pub struct TriangleShaderView {
    pub shader: ShaderProgramView,
}

impl View for TriangleShader {
    type V = TriangleShaderView;

    open spec fn view(&self) -> TriangleShaderView {
        TriangleShaderView { shader: self.shader@ }
    }
}

/// The program of the shapes on its way.
pub struct PendingTriangleShader {
    pub inner: PendingRaw,
}

impl View for PendingTriangleShader {
    type V = PendingRawView;

    open spec fn view(&self) -> PendingRawView {
        self.inner@
    }
}

/// The step of the program of the shapes that goes with a step of its program.
pub open spec fn as_triangle_shader(
    step: Step<PendingRawView, Result<ShaderProgramView, GlErrorView>>,
) -> Step<PendingRawView, Result<TriangleShaderView, GlErrorView>> {
    match step {
        Step::Ask(inner) => Step::Ask(inner),
        Step::Done(Ok(shader)) => Step::Done(Ok(TriangleShaderView { shader })),
        Step::Done(Err(error)) => Step::Done(Err(error)),
    }
}

impl TriangleShader {
    /// The shaders of the program: the vertex shader, then the fragment shader.
    pub open spec fn descriptors() -> Seq<ShaderDescriptorView> {
        seq![
            ShaderDescriptorView {
                kind: ShaderKind::Vertex,
                from: ShaderFromView::FilePath("assets/shaders/triangle.vert"@),
            },
            ShaderDescriptorView {
                kind: ShaderKind::Fragment,
                from: ShaderFromView::FilePath("assets/shaders/triangle.frag"@),
            },
        ]
    }

    /// Where the making of the program that draws stands after its start.
    pub open spec fn first() -> Step<PendingRawView, Result<TriangleShaderView, GlErrorView>> {
        as_triangle_shader(
            PendingRawView::turn(Seq::empty(), Self::descriptors(), "TriangleShader"@),
        )
    }

    /// What the making of the program that draws records at its start.
    pub open spec fn first_emits() -> Seq<RequestView> {
        Self::descriptors()[0].first_emits()
    }

    /// Starts the making of the program: asks for the file of the vertex shader.
    pub fn new(gl: &mut Gl) -> (step: Step<PendingTriangleShader, Result<TriangleShader, GlError>>)
        ensures
            step.seen() == Self::first(),
            final(gl)@ == old(gl)@ + Self::first_emits(),
    {
        let mut raw_shaders: Vec<ShaderDescriptor> = Vec::new();
        raw_shaders.push(
            ShaderDescriptor {
                kind: ShaderKind::Vertex,
                from: ShaderFrom::FilePath(String::from_str("assets/shaders/triangle.vert")),
            },
        );
        raw_shaders.push(
            ShaderDescriptor {
                kind: ShaderKind::Fragment,
                from: ShaderFrom::FilePath(String::from_str("assets/shaders/triangle.frag")),
            },
        );
        assert(seen_descriptors(raw_shaders@) =~= Self::descriptors());
        let step = ShaderProgram::from_raw(gl, raw_shaders, "TriangleShader");
        assert(gl@ =~= old(gl)@ + Self::first_emits());
        Self::wrap(step)
    }

    fn wrap(step: Step<PendingRaw, Result<ShaderProgram, GlError>>) -> (wrapped: Step<
        PendingTriangleShader,
        Result<TriangleShader, GlError>,
    >)
        ensures
            wrapped.seen() == as_triangle_shader(step.seen()),
    {
        match step {
            Step::Ask(inner) => Step::Ask(PendingTriangleShader { inner }),
            Step::Done(Ok(shader)) => Step::Done(Ok(TriangleShader { shader })),
            Step::Done(Err(error)) => Step::Done(Err(error)),
        }
    }
}

impl PendingTriangleShader {
    /// Whether the making can go on with the answer `reply`.
    pub fn can_resume(&self, reply: &Reply) -> (accepted: bool)
        ensures
            accepted == self@.accepts(*reply),
    {
        self.inner.can_resume(reply)
    }

    /// Goes on with the making of the program after the answer `reply` to the request that it
    /// waited for.
    pub fn resume(self, gl: &mut Gl, reply: Reply) -> (step: Step<
        PendingTriangleShader,
        Result<TriangleShader, GlError>,
    >)
        requires
            self@.accepts(reply),
        ensures
            step.seen() == as_triangle_shader(self@.next(reply)),
            final(gl)@ == old(gl)@ + self@.emits(reply),
    {
        TriangleShader::wrap(self.inner.resume(gl, reply))
    }
}

/// The triangle in the graphics processor.
pub struct TriangleBuf {
    pub vao: VertexArray,
}

/// The triangle in the graphics processor as contracts speak of it.
pub struct TriangleBufView {
    pub vao: VertexArrayView,
}

impl View for TriangleBuf {
    type V = TriangleBufView;

    open spec fn view(&self) -> TriangleBufView {
        TriangleBufView { vao: self.vao@ }
    }
}

/// The triangle on its way into the graphics processor.
pub struct PendingTriangleBuf {
    pub inner: PendingShape,
}

impl View for PendingTriangleBuf {
    type V = PendingShapeView;

    open spec fn view(&self) -> PendingShapeView {
        self.inner@
    }
}

/// The step of the triangle that goes with a step of its shape.
pub open spec fn as_triangle_buf(
    step: Step<PendingShapeView, Result<VertexArrayView, GlErrorView>>,
) -> Step<PendingShapeView, Result<TriangleBufView, GlErrorView>> {
    match step {
        Step::Ask(inner) => Step::Ask(inner),
        Step::Done(Ok(vao)) => Step::Done(Ok(TriangleBufView { vao })),
        Step::Done(Err(error)) => Step::Done(Err(error)),
    }
}

impl TriangleBuf {
    /// The triangle as it waits at the start.
    pub open spec fn first() -> PendingShapeView {
        PendingShapeView::first(
            Triangle::default_contents(),
            seq![0, 1, 2],
            Triangle::default_attributes(),
            ("TriangleVerts"@, "TriangleEBO"@, "TriangleVao"@),
        )
    }

    /// Starts the making of the triangle: asks for the name of the buffer of its vertices.
    pub fn new(gl: &mut Gl) -> (pending: PendingTriangleBuf)
        ensures
            pending@ == Self::first(),
            final(gl)@ == old(gl)@.push(RequestView::GenBuffers),
    {
        let triangle_verts = Triangle::default();
        PendingTriangleBuf {
            inner: PendingShape::new(
                gl,
                &triangle_verts,
                ("TriangleVerts", "TriangleEBO", "TriangleVao"),
            ),
        }
    }
}

impl PendingTriangleBuf {
    /// Goes on with the making of the triangle after the answer `reply` to the request that it
    /// waited for.
    pub fn resume(self, gl: &mut Gl, reply: Reply) -> (step: Step<
        PendingTriangleBuf,
        Result<TriangleBuf, GlError>,
    >)
        ensures
            step.seen() == as_triangle_buf(self@.next(reply)),
            final(gl)@ == old(gl)@ + self@.emits(reply),
    {
        match self.inner.resume(gl, reply) {
            Step::Ask(inner) => Step::Ask(PendingTriangleBuf { inner }),
            Step::Done(Ok(vao)) => Step::Done(Ok(TriangleBuf { vao })),
            Step::Done(Err(error)) => Step::Done(Err(error)),
        }
    }
}

} // verus!
