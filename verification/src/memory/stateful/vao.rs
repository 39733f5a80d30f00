use crate::cleanup::Cleanup;
use crate::context::request::error;
use crate::context::{gl, Gl, Reply, Request, RequestView};
use crate::glenums::BufferTarget;
use crate::glerror::{seen, GlError, GlErrorView};
use crate::label::Label;
use crate::memory::stateful::buffer::{BufferView, ClassicBuffer as Buffer};
use crate::memory::Layout;
use vstd::prelude::*;

verus! {

/// A vertex array: the object that keeps where the buffers of a shape hold its attributes. It
/// owns the buffer of the vertices and, where the shape is drawn by indices, that of the
/// indices. Its name is never 0.
pub struct VertexArray {
    id: u32,
    vbo: Buffer,
    ebo: Option<Buffer>,
    label: String,
}

/// A vertex array as contracts speak of it.
pub struct VertexArrayView {
    pub id: u32,
    pub vbo: BufferView,
    pub ebo: Option<BufferView>,
    pub label: Seq<char>,
}

/// The view of a buffer that may not be there.
pub open spec fn seen_buffer(buffer: Option<Buffer>) -> Option<BufferView> {
    match buffer {
        Some(buffer) => Some(buffer@),
        None => None,
    }
}

impl View for VertexArray {
    type V = VertexArrayView;

    closed spec fn view(&self) -> VertexArrayView {
        VertexArrayView {
            id: self.id,
            vbo: self.vbo@,
            ebo: seen_buffer(self.ebo),
            label: self.label@,
        }
    }
}

/// A vertex array that waits for its name: `GenVertexArrays` was recorded for it.
pub struct PendingVertexArray {
    pub vbo: Buffer,
    pub ebo: Option<Buffer>,
    pub layouts: Vec<Layout>,
    pub label: String,
}

/// A pending vertex array as contracts speak of it.
pub struct PendingVertexArrayView {
    pub vbo: BufferView,
    pub ebo: Option<BufferView>,
    pub layouts: Seq<Layout>,
    pub label: Seq<char>,
}

impl View for PendingVertexArray {
    type V = PendingVertexArrayView;

    open spec fn view(&self) -> PendingVertexArrayView {
        PendingVertexArrayView {
            vbo: self.vbo@,
            ebo: seen_buffer(self.ebo),
            layouts: self.layouts@,
            label: self.label@,
        }
    }
}

/// The requests that tell the bound vertex array where each attribute of `layouts` lies:
/// for each layout in turn, the attribute is enabled and then described.
pub open spec fn attribute_requests(layouts: Seq<Layout>) -> Seq<RequestView>
    decreases layouts.len(),
{
    if layouts.len() == 0 {
        Seq::empty()
    } else {
        let layout = layouts.last();
        attribute_requests(layouts.drop_last()) + seq![
            RequestView::EnableVertexAttribArray { index: layout.index as u32 },
            RequestView::VertexAttribPointer {
                index: layout.index as u32,
                size: layout.size as i32,
                kind: gl::FLOAT,
                normalized: false,
                stride: layout.stride as i32,
                offset: layout.start,
            },
        ]
    }
}

/// The request that binds the buffer of the indices, or unbinds it with the name 0, where there
/// is such a buffer.
pub open spec fn element_requests(ebo: Option<BufferView>, bound: bool) -> Seq<RequestView> {
    match ebo {
        Some(ebo) => seq![
            RequestView::BindBuffer {
                target: ebo.target,
                buffer: if bound {
                    ebo.id
                } else {
                    0
                },
            },
        ],
        None => Seq::empty(),
    }
}

/// The requests that release the buffer of the indices, where there is one.
pub open spec fn element_release(ebo: Option<BufferView>) -> Seq<RequestView> {
    match ebo {
        Some(ebo) => ebo.release(),
        None => Seq::empty(),
    }
}

impl VertexArrayView {
    /// The requests that release the vertex array: it is deleted first, then the buffers that
    /// it owns, that of the vertices before that of the indices.
    pub open spec fn release(self) -> Seq<RequestView> {
        seq![RequestView::DeleteVertexArrays { array: self.id }] + self.vbo.release()
            + element_release(self.ebo)
    }
}

impl PendingVertexArrayView {
    /// The requests that set the vertex array of the name `id` up: the array is bound, then the
    /// buffer of the indices, so that the array keeps it; the attributes are described; the
    /// array is unbound before the buffers are, so that it does not keep their unbinding.
    pub open spec fn setup(self, id: u32) -> Seq<RequestView> {
        seq![RequestView::BindVertexArray { array: id }] + element_requests(self.ebo, true)
            + attribute_requests(self.layouts) + seq![RequestView::BindVertexArray { array: 0 }]
            + element_requests(self.ebo, false) + seq![
            RequestView::BindBuffer { target: self.vbo.target, buffer: 0 },
        ]
    }

    /// The requests that give the making up where no name could be reserved: the name 0 is
    /// bound, which unbinds any vertex array, the error is logged, and the buffers are
    /// released, that of the indices first.
    pub open spec fn rollback(self) -> Seq<RequestView> {
        seq![
            RequestView::BindVertexArray { array: 0 },
            error("GenVertexArrays did not create a vertex array."@),
        ] + element_release(self.ebo) + self.vbo.release()
    }

    /// What the making of the vertex array ends with on the answer `reply`: the array of the
    /// name that the answer carries, or an error where that name is 0.
    pub open spec fn made(self, reply: Reply) -> Result<VertexArrayView, GlErrorView> {
        if reply.spec_name() == 0 {
            Err(GlErrorView::Buffer("GenVertexArrays returned a vertex array object id of 0."@))
        } else {
            Ok(
                VertexArrayView {
                    id: reply.spec_name(),
                    vbo: self.vbo,
                    ebo: self.ebo,
                    label: self.label,
                },
            )
        }
    }

    /// What the end of the making records on the answer `reply`.
    pub open spec fn emits(self, reply: Reply) -> Seq<RequestView> {
        if reply.spec_name() == 0 {
            self.rollback()
        } else {
            self.setup(reply.spec_name())
        }
    }
}

impl VertexArray {
    #[verifier::type_invariant]
    spec fn named(self) -> bool {
        self.id != 0
    }

    /// Starts a vertex array over the vertices of `vbo` and the indices of `ebo`, with the
    /// attributes that `layouts` describes: binds `vbo` as the buffer of vertex attributes and
    /// asks for a name.
    pub fn new(
        gl: &mut Gl,
        vbo: Buffer,
        ebo: Option<Buffer>,
        layouts: &[Layout],
        label: &str,
    ) -> (pending: PendingVertexArray)
        ensures
            final(gl)@ == old(gl)@ + seq![
                RequestView::BindBuffer { target: gl::ARRAY_BUFFER, buffer: vbo@.id },
                RequestView::GenVertexArrays,
            ],
            pending@ == (PendingVertexArrayView {
                vbo: BufferView { target: gl::ARRAY_BUFFER, ..vbo@ },
                ebo: seen_buffer(ebo),
                layouts: layouts@,
                label: label@,
            }),
    {
        let mut vbo = vbo;
        vbo.rebind(gl, BufferTarget::array());
        gl.record(Request::GenVertexArrays);
        let mut copied: Vec<Layout> = Vec::new();
        let mut i: usize = 0;
        while i < layouts.len()
            invariant
                i <= layouts.len(),
                copied@ == layouts@.take(i as int),
            decreases layouts.len() - i,
        {
            copied.push(layouts[i]);
            i += 1;
            assert(copied@ =~= layouts@.take(i as int));
        }
        assert(copied@ =~= layouts@);
        assert(gl@ =~= old(gl)@ + seq![
            RequestView::BindBuffer { target: gl::ARRAY_BUFFER, buffer: vbo@.id },
            RequestView::GenVertexArrays,
        ]);
        PendingVertexArray { vbo, ebo, layouts: copied, label: String::from_str(label) }
    }

    /// The buffer of the vertices.
    pub fn vertex_buffer(&self) -> (vbo: &Buffer)
        ensures
            vbo@ == self@.vbo,
    {
        &self.vbo
    }

    /// The buffer of the indices, where the shape is drawn by indices.
    pub fn element_buffer(&self) -> (ebo: Option<&Buffer>)
        ensures
            ebo is Some == self@.ebo is Some,
            ebo matches Some(buffer) ==> Some(buffer@) == self@.ebo,
    {
        self.ebo.as_ref()
    }

    /// Binds the vertex array. The buffers that it refers to need not be bound too.
    pub fn bind(&self, gl: &mut Gl)
        ensures
            final(gl)@ == old(gl)@.push(RequestView::BindVertexArray { array: self@.id }),
    {
        gl.record(Request::BindVertexArray { array: self.id });
    }

    /// Unbinds whatever vertex array is bound.
    pub fn unbind(gl: &mut Gl)
        ensures
            final(gl)@ == old(gl)@.push(RequestView::BindVertexArray { array: 0 }),
    {
        gl.record(Request::BindVertexArray { array: 0 });
    }
}

impl PendingVertexArray {
    /// Ends the making of the vertex array with what `GenVertexArrays` yielded: sets the array
    /// of that name up, or gives up with an error where the name is 0.
    pub fn resume(self, gl: &mut Gl, reply: Reply) -> (made: Result<VertexArray, GlError>)
        ensures
            seen(made) == self@.made(reply),
            final(gl)@ == old(gl)@ + self@.emits(reply),
    {
        let id = reply.name();
        gl.record(Request::BindVertexArray { array: id });
        if id == 0 {
            gl.error("GenVertexArrays did not create a vertex array.");
            match &self.ebo {
                Some(ebo) => ebo.cleanup(gl),
                None => {},
            }
            self.vbo.cleanup(gl);
            assert(gl@ =~= old(gl)@ + self@.rollback());
            return Err(
                GlError::Buffer(
                    String::from_str("GenVertexArrays returned a vertex array object id of 0."),
                ),
            );
        }
        match &self.ebo {
            Some(ebo) => ebo.bind(gl),
            None => {},
        }
        let ghost before = gl@;
        let mut i: usize = 0;
        while i < self.layouts.len()
            invariant
                i <= self.layouts.len(),
                gl@ == before + attribute_requests(self.layouts@.take(i as int)),
            decreases self.layouts.len() - i,
        {
            let layout = self.layouts[i];
            gl.record(Request::EnableVertexAttribArray { index: layout.index as u32 });
            gl.record(
                Request::VertexAttribPointer {
                    index: layout.index as u32,
                    size: layout.size as i32,
                    kind: gl::FLOAT,
                    normalized: false,
                    stride: layout.stride as i32,
                    offset: layout.start,
                },
            );
            i += 1;
            proof {
                let longer = self.layouts@.take(i as int);
                assert(longer.drop_last() == self.layouts@.take(i - 1));
                assert(longer.last() == layout);
                assert(gl@ =~= before + attribute_requests(longer));
            }
        }
        assert(self.layouts@.take(i as int) == self.layouts@);
        gl.record(Request::BindVertexArray { array: 0 });
        match &self.ebo {
            Some(ebo) => ebo.unbind(gl),
            None => {},
        }
        self.vbo.unbind(gl);
        assert(gl@ =~= old(gl)@ + self@.setup(id));
        Ok(VertexArray { id, vbo: self.vbo, ebo: self.ebo, label: self.label })
    }
}

impl Cleanup for VertexArray {
    open spec fn release(&self) -> Seq<RequestView> {
        self@.release()
    }

    fn cleanup(&self, gl: &mut Gl) {
        gl.record(Request::DeleteVertexArrays { array: self.id });
        self.vbo.cleanup(gl);
        match &self.ebo {
            Some(ebo) => ebo.cleanup(gl),
            None => {},
        }
        assert(gl@ =~= old(gl)@ + self.release());
    }
}

impl Label for VertexArray {
    open spec fn label_text(&self) -> Seq<char> {
        self@.label
    }

    fn label(&self) -> (label: String) {
        self.label.clone()
    }
}

} // verus!
