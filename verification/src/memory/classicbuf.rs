use crate::cleanup::Cleanup;
use crate::context::request::error;
use crate::context::{Gl, Level, Reply, Request, RequestView};
use crate::glenums::{BufferTarget, BufferUsage};
use crate::label::Label;
use crate::memory::stateful::buffer::no_buffer_name;
use crate::memory::stateful::BufferView;
use crate::memory::GpuData;
use vstd::prelude::*;

verus! {

/// A buffer of the graphics processor that is taken as it comes: its name may be 0, which no
/// buffer has, where the context could reserve none.
pub struct ClassicBuffer {
    id: u32,
    target: BufferTarget,
    label: String,
}

impl View for ClassicBuffer {
    type V = BufferView;

    closed spec fn view(&self) -> BufferView {
        BufferView { id: self.id, target: self.target@, label: self.label@ }
    }
}

/// A buffer that waits for its name: `GenBuffers` was recorded for it.
pub struct PendingClassicBuffer {
    pub target: BufferTarget,
    pub label: String,
}

impl ClassicBuffer {
    /// The target that `bind` binds the buffer to.
    pub closed spec fn spec_target(&self) -> BufferTarget {
        self.target
    }

    /// Starts a buffer for `target`: asks for a name. No memory is allocated yet.
    pub fn new(gl: &mut Gl, target: BufferTarget, label: &str) -> (pending: PendingClassicBuffer)
        ensures
            final(gl)@ == old(gl)@.push(RequestView::GenBuffers),
            pending.target == target,
            pending.label@ == label@,
    {
        gl.record(Request::GenBuffers);
        PendingClassicBuffer { target, label: String::from_str(label) }
    }

    /// The target that `bind` binds the buffer to.
    #[verifier::when_used_as_spec(spec_target)]
    pub fn target(&self) -> (target: BufferTarget)
        ensures
            target == self.spec_target(),
            target@ == self@.target,
    {
        self.target
    }

    /// Binds the buffer to its target.
    pub fn bind(&self, gl: &mut Gl)
        ensures
            final(gl)@ == old(gl)@.push(
                RequestView::BindBuffer { target: self@.target, buffer: self@.id },
            ),
    {
        gl.record(Request::BindBuffer { target: self.target.bits(), buffer: self.id });
    }

    /// Makes `target` the target of the buffer and binds the buffer to it.
    pub fn rebind(&mut self, gl: &mut Gl, target: BufferTarget)
        ensures
            final(self)@ == (BufferView { target: target@, ..old(self)@ }),
            final(gl)@ == old(gl)@.push(
                RequestView::BindBuffer { target: target@, buffer: old(self)@.id },
            ),
    {
        self.target = target;
        self.bind(gl)
    }

    /// Unbinds whatever buffer is bound to the target of this one.
    pub fn unbind(&self, gl: &mut Gl)
        ensures
            final(gl)@ == old(gl)@.push(
                RequestView::BindBuffer { target: self@.target, buffer: 0 },
            ),
    {
        Self::unbind_any(gl, self.target)
    }

    /// Unbinds whatever buffer is bound to `target`.
    pub fn unbind_any(gl: &mut Gl, target: BufferTarget)
        ensures
            final(gl)@ == old(gl)@.push(RequestView::BindBuffer { target: target@, buffer: 0 }),
    {
        gl.record(Request::BindBuffer { target: target.bits(), buffer: 0 });
    }

    /// Copies `data` into the buffer: binds the buffer, then allocates memory of the size of
    /// the data for what is bound to the target and fills it.
    pub fn write<D>(&self, gl: &mut Gl, data: &D, usage: BufferUsage) where D: GpuData
        ensures
            final(gl)@ == old(gl)@ + self@.filled(
                (4 * data.contents().len()) as usize,
                data.contents(),
                usage@,
            ),
    {
        self.bind(gl);
        gl.record(
            Request::BufferData {
                target: self.target.bits(),
                size: data.size_total(),
                data: data.words(),
                usage: usage.bits(),
            },
        );
        assert(gl@ =~= old(gl)@ + self@.filled(
            (4 * data.contents().len()) as usize,
            data.contents(),
            usage@,
        ));
    }
}

/// What the end of the making of a buffer for `target` records on the name `id`: an error for
/// the log where the name is 0.
pub open spec fn unnamed_buffer(id: u32, target: u32) -> Seq<RequestView> {
    if id == 0 {
        seq![error(no_buffer_name(target))]
    } else {
        Seq::empty()
    }
}

impl PendingClassicBuffer {
    /// Ends the making of the buffer with what `GenBuffers` yielded: the buffer of that name,
    /// whatever the name is. The name 0 is logged as an error.
    pub fn resume(self, gl: &mut Gl, reply: Reply) -> (buffer: ClassicBuffer)
        ensures
            buffer@ == (BufferView {
                id: reply.spec_name(),
                target: self.target@,
                label: self.label@,
            }),
            final(gl)@ == old(gl)@ + unnamed_buffer(reply.spec_name(), self.target@),
    {
        let id = reply.name();
        if id == 0 {
            let names = self.target.names();
            gl.record(
                Request::Log {
                    level: Level::Error,
                    text: String::from_str(
                        "GenBuffers failed to reserve a buffer name.\nObject id = 0 for ",
                    ).concat(names.as_str()),
                },
            );
        }
        assert(gl@ =~= old(gl)@ + unnamed_buffer(reply.spec_name(), self.target@));
        ClassicBuffer { id, target: self.target, label: self.label }
    }
}

impl Cleanup for ClassicBuffer {
    open spec fn release(&self) -> Seq<RequestView> {
        self@.release()
    }

    fn cleanup(&self, gl: &mut Gl) {
        gl.record(Request::DeleteBuffers { buffer: self.id });
        assert(gl@ =~= old(gl)@ + self.release());
    }
}

impl Label for ClassicBuffer {
    open spec fn label_text(&self) -> Seq<char> {
        self@.label
    }

    fn label(&self) -> (label: String) {
        self.label.clone()
    }
}

} // verus!
