use crate::cleanup::Cleanup;
use crate::context::request::error;
use crate::context::{gl, Gl, Reply, Request, RequestView};
use crate::glenums::BufferTarget;
use crate::label::Label;
use crate::memory::classicbuf::ClassicBuffer;
use crate::memory::stateful::vao::attribute_requests;
use crate::memory::stateful::BufferView;
use crate::memory::Layout;
use vstd::prelude::*;

verus! {

/// A vertex array over one buffer of vertices, taken as it comes: its name may be 0 where the
/// context could reserve none. It is left bound when it is made.
pub struct ClassicVao {
    id: u32,
    vbo: ClassicBuffer,
    label: String,
}

/// A vertex array of this kind as contracts speak of it.
pub struct ClassicVaoView {
    pub id: u32,
    pub vbo: BufferView,
    pub label: Seq<char>,
}

impl View for ClassicVao {
    type V = ClassicVaoView;

    closed spec fn view(&self) -> ClassicVaoView {
        ClassicVaoView { id: self.id, vbo: self.vbo@, label: self.label@ }
    }
}

/// A vertex array that waits for its name: `GenVertexArrays` was recorded for it.
pub struct PendingClassicVao {
    pub vbo: ClassicBuffer,
    pub layouts: Vec<Layout>,
    pub label: String,
}

/// The requests that set a vertex array of the name `id` up over the attributes `layouts`: the
/// array is bound, the name 0 is logged as an error, and the attributes are described.
pub open spec fn classic_setup(id: u32, layouts: Seq<Layout>) -> Seq<RequestView> {
    seq![RequestView::BindVertexArray { array: id }] + (if id == 0 {
        seq![error("GenVertexArrays did not create a vertex array."@)]
    } else {
        Seq::empty()
    }) + attribute_requests(layouts)
}

impl ClassicVaoView {
    /// The requests that release the vertex array: it is deleted, then its buffer.
    pub open spec fn release(self) -> Seq<RequestView> {
        seq![RequestView::DeleteVertexArrays { array: self.id }] + self.vbo.release()
    }
}

impl ClassicVao {
    /// Starts a vertex array over the vertices of `vbo` with the attributes that `layouts`
    /// describes: binds `vbo` as the buffer of vertex attributes and asks for a name.
    pub fn new(gl: &mut Gl, vbo: ClassicBuffer, layouts: &[Layout], label: &str) -> (pending:
        PendingClassicVao)
        ensures
            final(gl)@ == old(gl)@ + seq![
                RequestView::BindBuffer { target: gl::ARRAY_BUFFER, buffer: vbo@.id },
                RequestView::GenVertexArrays,
            ],
            pending.vbo@ == (BufferView { target: gl::ARRAY_BUFFER, ..vbo@ }),
            pending.layouts@ == layouts@,
            pending.label@ == label@,
    {
        let mut vbo = vbo;
        vbo.rebind(gl, BufferTarget::array());
        gl.record(Request::GenVertexArrays);
        let mut copied: Vec<Layout> = Vec::new();
        let mut i: usize = 0;
        while i < layouts.len()
            invariant
                i <= layouts.len(),
                copied@ == layouts@.take(i as int),
            decreases layouts.len() - i,
        {
            copied.push(layouts[i]);
            i += 1;
            assert(copied@ =~= layouts@.take(i as int));
        }
        assert(copied@ =~= layouts@);
        assert(gl@ =~= old(gl)@ + seq![
            RequestView::BindBuffer { target: gl::ARRAY_BUFFER, buffer: vbo@.id },
            RequestView::GenVertexArrays,
        ]);
        PendingClassicVao { vbo, layouts: copied, label: String::from_str(label) }
    }

    /// Binds the vertex array.
    pub fn bind(&self, gl: &mut Gl)
        ensures
            final(gl)@ == old(gl)@.push(RequestView::BindVertexArray { array: self@.id }),
    {
        gl.record(Request::BindVertexArray { array: self.id });
    }

    /// Unbinds whatever vertex array is bound.
    pub fn unbind(gl: &mut Gl)
        ensures
            final(gl)@ == old(gl)@.push(RequestView::BindVertexArray { array: 0 }),
    {
        gl.record(Request::BindVertexArray { array: 0 });
    }
}

impl PendingClassicVao {
    /// Ends the making of the vertex array with what `GenVertexArrays` yielded: binds the array
    /// of that name, whatever the name is, and describes the attributes.
    pub fn resume(self, gl: &mut Gl, reply: Reply) -> (array: ClassicVao)
        ensures
            array@ == (ClassicVaoView {
                id: reply.spec_name(),
                vbo: self.vbo@,
                label: self.label@,
            }),
            final(gl)@ == old(gl)@ + classic_setup(reply.spec_name(), self.layouts@),
    {
        let id = reply.name();
        gl.record(Request::BindVertexArray { array: id });
        if id == 0 {
            gl.error("GenVertexArrays did not create a vertex array.");
        }
        let ghost before = gl@;
        let mut i: usize = 0;
        while i < self.layouts.len()
            invariant
                i <= self.layouts.len(),
                gl@ == before + attribute_requests(self.layouts@.take(i as int)),
            decreases self.layouts.len() - i,
        {
            let layout = self.layouts[i];
            gl.record(Request::EnableVertexAttribArray { index: layout.index as u32 });
            gl.record(
                Request::VertexAttribPointer {
                    index: layout.index as u32,
                    size: layout.size as i32,
                    kind: gl::FLOAT,
                    normalized: false,
                    stride: layout.stride as i32,
                    offset: layout.start,
                },
            );
            i += 1;
            proof {
                let longer = self.layouts@.take(i as int);
                assert(longer.drop_last() == self.layouts@.take(i - 1));
                assert(longer.last() == layout);
                assert(gl@ =~= before + attribute_requests(longer));
            }
        }
        assert(self.layouts@.take(i as int) == self.layouts@);
        assert(gl@ =~= old(gl)@ + classic_setup(id, self.layouts@));
        ClassicVao { id, vbo: self.vbo, label: self.label }
    }
}

impl Cleanup for ClassicVao {
    open spec fn release(&self) -> Seq<RequestView> {
        self@.release()
    }

    fn cleanup(&self, gl: &mut Gl) {
        gl.record(Request::DeleteVertexArrays { array: self.id });
        self.vbo.cleanup(gl);
        assert(gl@ =~= old(gl)@ + self.release());
    }
}

impl Label for ClassicVao {
    open spec fn label_text(&self) -> Seq<char> {
        self@.label
    }

    fn label(&self) -> (label: String) {
        self.label.clone()
    }
}

} // verus!
