use crate::cleanup::Cleanup;
use crate::context::request::error;
use crate::context::{Gl, Reply, Request, RequestView};
use crate::glenums::flags;
use crate::glenums::{BufferTarget, BufferUsage};
use crate::glerror::{seen, GlError, GlErrorView};
use crate::label::Label;
use crate::memory::GpuData;
use vstd::prelude::*;

verus! {

/// A buffer of the graphics processor: its name, which is never 0, the target that it is bound
/// to, and its label.
pub struct ClassicBuffer {
    id: u32,
    target: BufferTarget,
    label: String,
}

/// A buffer as contracts speak of it.
pub struct BufferView {
    pub id: u32,
    pub target: u32,
    pub label: Seq<char>,
}

impl View for ClassicBuffer {
    type V = BufferView;

    closed spec fn view(&self) -> BufferView {
        BufferView { id: self.id, target: self.target@, label: self.label@ }
    }
}

/// A buffer that waits for its name: `GenBuffers` was recorded for it.
pub struct PendingBuffer {
    pub target: BufferTarget,
    pub label: String,
}

/// A pending buffer as contracts speak of it.
pub struct PendingBufferView {
    pub target: u32,
    pub label: Seq<char>,
}

impl View for PendingBuffer {
    type V = PendingBufferView;

    open spec fn view(&self) -> PendingBufferView {
        PendingBufferView { target: self.target@, label: self.label@ }
    }
}

impl BufferView {
    /// The requests that fill the buffer with `data`: the buffer is bound to its target, then
    /// `size` bytes are allocated for what is bound there and `data` is copied into them.
    pub open spec fn filled(self, size: usize, data: Seq<u32>, usage: u32) -> Seq<RequestView> {
        seq![
            RequestView::BindBuffer { target: self.target, buffer: self.id },
            RequestView::BufferData { target: self.target, size, data, usage },
        ]
    }

    /// The requests that release the buffer.
    pub open spec fn release(self) -> Seq<RequestView> {
        seq![RequestView::DeleteBuffers { buffer: self.id }]
    }
}

impl PendingBufferView {
    /// What the making of the buffer ends with on the answer `reply`: the buffer of the name
    /// that the answer carries, or an error where that name is 0, which no buffer has.
    pub open spec fn made(self, reply: Reply) -> Result<BufferView, GlErrorView> {
        if reply.spec_name() == 0 {
            Err(GlErrorView::Buffer(no_buffer_name(self.target)))
        } else {
            Ok(BufferView { id: reply.spec_name(), target: self.target, label: self.label })
        }
    }

    /// What the end of the making records on the answer `reply`: an error for the log where
    /// the answer carries the name 0.
    pub open spec fn emits(self, reply: Reply) -> Seq<RequestView> {
        if reply.spec_name() == 0 {
            seq![error("GenBuffers did not reserve a buffer name. Possible context error?"@)]
        } else {
            Seq::empty()
        }
    }
}

/// The message of the error that a buffer for `target` gives when no name could be reserved.
pub open spec fn no_buffer_name(target: u32) -> Seq<char> {
    "GenBuffers failed to reserve a buffer name.\nObject id = 0 for "@ + flags::listing(
        target,
        BufferTarget::table(),
    )
}

impl ClassicBuffer {
    #[verifier::type_invariant]
    spec fn named(self) -> bool {
        self.id != 0
    }

    /// The target that `bind` binds the buffer to.
    pub closed spec fn spec_target(&self) -> BufferTarget {
        self.target
    }

    /// Starts a buffer for `target`: asks for a name. No memory is allocated yet.
    pub fn new(gl: &mut Gl, target: BufferTarget, label: &str) -> (pending: PendingBuffer)
        ensures
            final(gl)@ == old(gl)@.push(RequestView::GenBuffers),
            pending@ == (PendingBufferView { target: target@, label: label@ }),
    {
        gl.record(Request::GenBuffers);
        PendingBuffer { target, label: String::from_str(label) }
    }

    /// The target that `bind` binds the buffer to.
    #[verifier::when_used_as_spec(spec_target)]
    pub fn target(&self) -> (target: BufferTarget)
        ensures
            target == self.spec_target(),
            target@ == self@.target,
    {
        self.target
    }

    /// Binds the buffer to its target.
    pub fn bind(&self, gl: &mut Gl)
        ensures
            final(gl)@ == old(gl)@.push(
                RequestView::BindBuffer { target: self@.target, buffer: self@.id },
            ),
    {
        gl.record(Request::BindBuffer { target: self.target.bits(), buffer: self.id });
    }

    /// Makes `target` the target of the buffer and binds the buffer to it.
    pub fn rebind(&mut self, gl: &mut Gl, target: BufferTarget)
        ensures
            final(self)@ == (BufferView { target: target@, ..old(self)@ }),
            final(gl)@ == old(gl)@.push(
                RequestView::BindBuffer { target: target@, buffer: old(self)@.id },
            ),
    {
        proof {
            use_type_invariant(&*self);
        }
        self.target = target;
        self.bind(gl)
    }

    /// Unbinds whatever buffer is bound to the target of this one.
    pub fn unbind(&self, gl: &mut Gl)
        ensures
            final(gl)@ == old(gl)@.push(
                RequestView::BindBuffer { target: self@.target, buffer: 0 },
            ),
    {
        Self::unbind_any(gl, self.target)
    }

    /// Unbinds whatever buffer is bound to `target`.
    pub fn unbind_any(gl: &mut Gl, target: BufferTarget)
        ensures
            final(gl)@ == old(gl)@.push(RequestView::BindBuffer { target: target@, buffer: 0 }),
    {
        gl.record(Request::BindBuffer { target: target.bits(), buffer: 0 });
    }

    /// Copies `data` into the buffer: binds the buffer, then allocates memory of the size of
    /// the data for what is bound to the target and fills it.
    pub fn write<D>(&self, gl: &mut Gl, data: &D, usage: BufferUsage) where D: GpuData
        ensures
            final(gl)@ == old(gl)@ + self@.filled(
                (4 * data.contents().len()) as usize,
                data.contents(),
                usage@,
            ),
    {
        self.fill(gl, data.size_total(), data.words(), usage)
    }

    /// Copies the words `data` into the buffer, for which `size` bytes are allocated: binds the
    /// buffer, then allocates and fills the memory of what is bound to the target.
    pub fn fill(&self, gl: &mut Gl, size: usize, data: Vec<u32>, usage: BufferUsage)
        ensures
            final(gl)@ == old(gl)@ + self@.filled(size, data@, usage@),
    {
        self.bind(gl);
        gl.record(
            Request::BufferData { target: self.target.bits(), size, data, usage: usage.bits() },
        );
        assert(gl@ =~= old(gl)@ + self@.filled(size, data@, usage@));
    }
}

impl PendingBuffer {
    /// Ends the making of the buffer with what `GenBuffers` yielded: the buffer of that name,
    /// or an error where the name is 0, which no buffer has.
    pub fn resume(self, gl: &mut Gl, reply: Reply) -> (made: Result<ClassicBuffer, GlError>)
        ensures
            seen(made) == self@.made(reply),
            final(gl)@ == old(gl)@ + self@.emits(reply),
    {
        let id = reply.name();
        if id == 0 {
            gl.error("GenBuffers did not reserve a buffer name. Possible context error?");
            assert(gl@ =~= old(gl)@ + self@.emits(reply));
            let names = self.target.names();
            Err(
                GlError::Buffer(
                    String::from_str(
                        "GenBuffers failed to reserve a buffer name.\nObject id = 0 for ",
                    ).concat(names.as_str()),
                ),
            )
        } else {
            assert(gl@ =~= old(gl)@ + self@.emits(reply));
            Ok(ClassicBuffer { id, target: self.target, label: self.label })
        }
    }
}

impl Cleanup for ClassicBuffer {
    open spec fn release(&self) -> Seq<RequestView> {
        self@.release()
    }

    fn cleanup(&self, gl: &mut Gl) {
        gl.record(Request::DeleteBuffers { buffer: self.id });
        assert(gl@ =~= old(gl)@ + self.release());
    }
}

impl Label for ClassicBuffer {
    open spec fn label_text(&self) -> Seq<char> {
        self@.label
    }

    fn label(&self) -> (label: String) {
        self.label.clone()
    }
}

} // verus!
