use crate::context::{Gl, Reply, RequestView, Step};
use crate::glerror::{GlError, GlErrorView};
use crate::memory::stateful::{VertexArray, VertexArrayView};
use crate::resources::programs::shape::{PendingShape, PendingShapeView};
use crate::shaders::datatypes;
use vstd::prelude::*;

verus! {

/// The rectangle in the graphics processor.
pub struct Rectangle {
    pub vao: VertexArray,
}

/// The rectangle in the graphics processor as contracts speak of it.
pub struct RectangleView {
    pub vao: VertexArrayView,
}

impl View for Rectangle {
    type V = RectangleView;

    open spec fn view(&self) -> RectangleView {
        RectangleView { vao: self.vao@ }
    }
}

/// The rectangle on its way into the graphics processor.
pub struct PendingRectangle {
    pub inner: PendingShape,
}

impl View for PendingRectangle {
    type V = PendingShapeView;

    open spec fn view(&self) -> PendingShapeView {
        self.inner@
    }
}

/// The step of the rectangle that goes with a step of its shape.
pub open spec fn as_rectangle(
    step: Step<PendingShapeView, Result<VertexArrayView, GlErrorView>>,
) -> Step<PendingShapeView, Result<RectangleView, GlErrorView>> {
    match step {
        Step::Ask(inner) => Step::Ask(inner),
        Step::Done(Ok(vao)) => Step::Done(Ok(RectangleView { vao })),
        Step::Done(Err(error)) => Step::Done(Err(error)),
    }
}

impl Rectangle {
    /// The rectangle as it waits at the start.
    pub open spec fn first() -> PendingShapeView {
        PendingShapeView::first(
            datatypes::Rectangle::default_contents(),
            seq![0, 1, 2, 1, 2, 3],
            datatypes::Rectangle::default_attributes(),
            ("RectangleVertices"@, "RectangleEBO"@, "RectangleVAO"@),
        )
    }

    /// Starts the making of the rectangle: asks for the name of the buffer of its vertices.
    pub fn new(gl: &mut Gl) -> (pending: PendingRectangle)
        ensures
            pending@ == Self::first(),
            final(gl)@ == old(gl)@.push(RequestView::GenBuffers),
    {
        let rect_verts = datatypes::Rectangle::default();
        PendingRectangle {
            inner: PendingShape::new(
                gl,
                &rect_verts,
                ("RectangleVertices", "RectangleEBO", "RectangleVAO"),
            ),
        }
    }
}

impl PendingRectangle {
    /// Goes on with the making of the rectangle after the answer `reply` to the request that
    /// it waited for.
    pub fn resume(self, gl: &mut Gl, reply: Reply) -> (step: Step<
        PendingRectangle,
        Result<Rectangle, GlError>,
    >)
        ensures
            step.seen() == as_rectangle(self@.next(reply)),
            final(gl)@ == old(gl)@ + self@.emits(reply),
    {
        match self.inner.resume(gl, reply) {
            Step::Ask(inner) => Step::Ask(PendingRectangle { inner }),
            Step::Done(Ok(vao)) => Step::Done(Ok(Rectangle { vao })),
            Step::Done(Err(error)) => Step::Done(Err(error)),
        }
    }
}

} // verus!
