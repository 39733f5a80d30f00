//! How a shape gets into the graphics processor: a buffer for its vertices, a buffer for its
//! indices, and a vertex array over both.

use crate::cleanup::Cleanup;
use crate::context::{asks, gl, Gl, Reply, RequestView, Step};
use crate::glenums::{BufferTarget, BufferUsage};
use crate::glerror::{GlError, GlErrorView};
use crate::memory::stateful::{
    Buffer, BufferView, PendingBuffer, PendingBufferView, PendingVertexArray,
    PendingVertexArrayView, VertexArray, VertexArrayView,
};
use crate::memory::{GpuData, GpuDataIndices, GpuDataVerts, Layout};
use vstd::prelude::*;

verus! {

/// What is still to be copied once the buffer of the vertices is there.
pub struct Indexed {
    /// The indices, and their size in bytes.
    pub indices: Vec<u32>,
    pub size: usize,
    /// Where the vertices hold their attributes.
    pub layouts: Vec<Layout>,
    /// The labels of the buffer of the indices and of the vertex array.
    pub index_label: String,
    pub array_label: String,
}

/// The rest of a shape as contracts speak of it.
pub struct IndexedView {
    pub indices: Seq<u32>,
    pub size: usize,
    pub layouts: Seq<Layout>,
    pub index_label: Seq<char>,
    pub array_label: Seq<char>,
}

impl View for Indexed {
    type V = IndexedView;

    open spec fn view(&self) -> IndexedView {
        IndexedView {
            indices: self.indices@,
            size: self.size,
            layouts: self.layouts@,
            index_label: self.index_label@,
            array_label: self.array_label@,
        }
    }
}

/// A shape on its way into the graphics processor: what its making waits for.
#[allow(inconsistent_fields)]
pub enum PendingShape {
    /// The name of the buffer of the vertices, which are `vertices`, of `size` bytes.
    Vertices { pending: PendingBuffer, vertices: Vec<u32>, size: usize, rest: Indexed },
    /// The name of the buffer of the indices.
    Indices { vbo: Buffer, pending: PendingBuffer, rest: Indexed },
    /// The name of the vertex array.
    Array { pending: PendingVertexArray },
}

/// A pending shape as contracts speak of it.
#[allow(inconsistent_fields)]
pub enum PendingShapeView {
    Vertices { pending: PendingBufferView, vertices: Seq<u32>, size: usize, rest: IndexedView },
    Indices { vbo: BufferView, pending: PendingBufferView, rest: IndexedView },
    Array { pending: PendingVertexArrayView },
}

impl View for PendingShape {
    type V = PendingShapeView;

    open spec fn view(&self) -> PendingShapeView {
        match *self {
            PendingShape::Vertices { pending, vertices, size, rest } => PendingShapeView::Vertices {
                pending: pending@,
                vertices: vertices@,
                size,
                rest: rest@,
            },
            PendingShape::Indices { vbo, pending, rest } => PendingShapeView::Indices {
                vbo: vbo@,
                pending: pending@,
                rest: rest@,
            },
            PendingShape::Array { pending } => PendingShapeView::Array { pending: pending@ },
        }
    }
}

impl PendingShapeView {
    /// The shape as it waits at the start for `vertices` with the attributes `layouts`, drawn by
    /// `indices`; the labels are those of the two buffers and of the vertex array.
    pub open spec fn first(
        vertices: Seq<u32>,
        indices: Seq<u32>,
        layouts: Seq<Layout>,
        labels: (Seq<char>, Seq<char>, Seq<char>),
    ) -> PendingShapeView {
        PendingShapeView::Vertices {
            pending: PendingBufferView { target: gl::ARRAY_BUFFER, label: labels.0 },
            vertices,
            size: (4 * vertices.len()) as usize,
            rest: IndexedView {
                indices,
                size: (4 * indices.len()) as usize,
                layouts,
                index_label: labels.1,
                array_label: labels.2,
            },
        }
    }

    /// Where the making stands after the answer `reply`. A buffer without a name, or a vertex
    /// array without one, ends the making with the error.
    pub open spec fn next(self, reply: Reply) -> Step<
        PendingShapeView,
        Result<VertexArrayView, GlErrorView>,
    > {
        match self {
            PendingShapeView::Vertices { pending, vertices, size, rest } => match pending.made(
                reply,
            ) {
                Ok(vbo) => Step::Ask(
                    PendingShapeView::Indices {
                        vbo,
                        pending: PendingBufferView {
                            target: gl::ELEMENT_ARRAY_BUFFER,
                            label: rest.index_label,
                        },
                        rest,
                    },
                ),
                Err(error) => Step::Done(Err(error)),
            },
            PendingShapeView::Indices { vbo, pending, rest } => match pending.made(reply) {
                Ok(ebo) => Step::Ask(
                    PendingShapeView::Array {
                        pending: PendingVertexArrayView {
                            vbo: BufferView { target: gl::ARRAY_BUFFER, ..vbo },
                            ebo: Some(ebo),
                            layouts: rest.layouts,
                            label: rest.array_label,
                        },
                    },
                ),
                Err(error) => Step::Done(Err(error)),
            },
            PendingShapeView::Array { pending } => Step::Done(pending.made(reply)),
        }
    }

    /// How many answers the making waits for at most, this one not counted.
    pub open spec fn rank(self) -> nat {
        match self {
            PendingShapeView::Vertices { .. } => 2,
            PendingShapeView::Indices { .. } => 1,
            PendingShapeView::Array { .. } => 0,
        }
    }

    /// Each answer brings the making nearer to its end: it ends after three answers at most.
    pub proof fn lemma_progress(self, reply: Reply)
        ensures
            self.next(reply) matches Step::Ask(next) ==> next.rank() < self.rank(),
    {
    }

    /// Where the making asks, the last request that it recorded yields the value that it waits
    /// for.
    pub proof fn lemma_asks(self, reply: Reply)
        ensures
            self.next(reply) is Ask ==> asks(self.emits(reply)),
    {
    }

    /// What the making records on the answer `reply`: with the name of a buffer, the buffer is
    /// filled for drawing and the next name is asked for; a buffer without a name is logged,
    /// and where it is the second, the first is released.
    pub open spec fn emits(self, reply: Reply) -> Seq<RequestView> {
        match self {
            PendingShapeView::Vertices { pending, vertices, size, rest } => match pending.made(
                reply,
            ) {
                Ok(vbo) => vbo.filled(size, vertices, gl::STATIC_DRAW) + seq![
                    RequestView::GenBuffers,
                ],
                Err(error) => pending.emits(reply),
            },
            PendingShapeView::Indices { vbo, pending, rest } => match pending.made(reply) {
                Ok(ebo) => ebo.filled(rest.size, rest.indices, gl::STATIC_DRAW) + seq![
                    RequestView::BindBuffer { target: gl::ARRAY_BUFFER, buffer: vbo.id },
                    RequestView::GenVertexArrays,
                ],
                Err(error) => pending.emits(reply) + vbo.release(),
            },
            PendingShapeView::Array { pending } => pending.emits(reply),
        }
    }
}

impl PendingShape {
    /// Starts a shape of the vertices `shape`: asks for the name of the buffer of the
    /// vertices. `labels` are the labels of the buffer of the vertices, of the buffer of the
    /// indices and of the vertex array.
    pub fn new<V, I, const LN: usize>(
        gl: &mut Gl,
        shape: &V,
        labels: (&str, &str, &str),
    ) -> (pending: PendingShape) where V: GpuDataIndices<I, LN>, I: GpuData
        ensures
            final(gl)@ == old(gl)@.push(RequestView::GenBuffers),
            pending@ == PendingShapeView::first(
                shape.contents(),
                shape.index_contents(),
                shape.attributes(),
                (labels.0@, labels.1@, labels.2@),
            ),
    {
        let pending = Buffer::new(gl, BufferTarget::array(), labels.0);
        let indices = shape.indices();
        let layouts = shape.memory_layout();
        let mut copied: Vec<Layout> = Vec::new();
        let mut i: usize = 0;
        while i < LN
            invariant
                i <= LN,
                copied@ == layouts@.take(i as int),
            decreases LN - i,
        {
            copied.push(layouts[i]);
            i += 1;
            assert(copied@ =~= layouts@.take(i as int));
        }
        assert(copied@ =~= layouts@);
        PendingShape::Vertices {
            pending,
            vertices: shape.words(),
            size: shape.size_total(),
            rest: Indexed {
                indices: indices.words(),
                size: indices.size_total(),
                layouts: copied,
                index_label: String::from_str(labels.1),
                array_label: String::from_str(labels.2),
            },
        }
    }

    /// Goes on with the making of the shape after the answer `reply` to the request that it
    /// waited for.
    pub fn resume(self, gl: &mut Gl, reply: Reply) -> (step: Step<
        PendingShape,
        Result<VertexArray, GlError>,
    >)
        ensures
            step.seen() == self@.next(reply),
            final(gl)@ == old(gl)@ + self@.emits(reply),
    {
        match self {
            PendingShape::Vertices { pending, vertices, size, rest } => {
                match pending.resume(gl, reply) {
                    Ok(vbo) => {
                        vbo.fill(gl, size, vertices, BufferUsage::static_draw());
                        let pending = Buffer::new(
                            gl,
                            BufferTarget::element_array(),
                            rest.index_label.as_str(),
                        );
                        assert(gl@ =~= old(gl)@ + self@.emits(reply));
                        Step::Ask(PendingShape::Indices { vbo, pending, rest })
                    },
                    Err(error) => {
                        assert(gl@ =~= old(gl)@ + self@.emits(reply));
                        Step::Done(Err(error))
                    },
                }
            },
            PendingShape::Indices { vbo, pending, rest } => {
                match pending.resume(gl, reply) {
                    Ok(ebo) => {
                        ebo.fill(gl, rest.size, rest.indices, BufferUsage::static_draw());
                        let pending = VertexArray::new(
                            gl,
                            vbo,
                            Some(ebo),
                            rest.layouts.as_slice(),
                            rest.array_label.as_str(),
                        );
                        assert(gl@ =~= old(gl)@ + self@.emits(reply));
                        Step::Ask(PendingShape::Array { pending })
                    },
                    Err(error) => {
                        vbo.cleanup(gl);
                        assert(gl@ =~= old(gl)@ + self@.emits(reply));
                        Step::Done(Err(error))
                    },
                }
            },
            PendingShape::Array { pending } => Step::Done(pending.resume(gl, reply)),
        }
    }
}

} // verus!
