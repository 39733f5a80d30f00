//! The protocol between the library and its driver.
//!
//! The library performs no call of the graphics interface itself. It records each call as a
//! [`Request`], in the order in which the calls are to be made. A driver performs the requests
//! and, where the last one yields a value, hands that value back as a [`Reply`].

use crate::glerror::{GlError, GlErrorView};
use vstd::prelude::*;

verus! {

/// How grave a message is for the log.
#[derive(Debug, Clone, Copy, PartialEq, Eq, Structural)]
pub enum Level {
    Error,
    Warn,
    Info,
}

/// What the library asks of its driver: a call of the graphics interface, or a service of the
/// window, of the file system or of the log. A few requests yield a value, which the driver
/// hands back as a [`Reply`].
#[allow(inconsistent_fields)]
#[derive(Debug, Clone, PartialEq, Eq)]
pub enum Request {
    /// Sets the viewing area.
    Viewport { x: i32, y: i32, width: i32, height: i32 },
    /// Clears the buffers of `mask` to the values set for them.
    Clear { mask: u32 },
    /// Sets the colour that a clear writes; each component is the bit pattern of a single precision number.
    ClearColor { red: u32, green: u32, blue: u32, alpha: u32 },
    /// Sets the depth that a clear writes, as the bit pattern of a single precision number.
    ClearDepthf { depth: u32 },
    /// Sets the stencil index that a clear writes.
    ClearStencil { stencil: i32 },
    /// Draws `count` indexed vertices, the indices read at `offset` of the bound element buffer.
    DrawElements { mode: u32, count: i32, kind: u32, offset: usize },
    /// Draws `count` vertices from the one at `first`.
    DrawArrays { mode: u32, first: i32, count: i32 },
    /// Switches a capability on.
    Enable { cap: u32 },
    /// Installs the driver's handler of debug messages.
    DebugMessageCallback,
    /// Switches a class of debug messages on or off.
    DebugMessageControl { source: u32, kind: u32, severity: u32, enabled: bool },
    /// Asks for a string of the context. Yields text, or none where the interface has none.
    GetString { name: u32 },
    /// Asks for one of an indexed family of strings. Yields text, or none.
    GetStringi { name: u32, index: u32 },
    /// Asks for an integer of the context, read into a variable that starts at 0. Yields an integer.
    GetIntegerv { pname: u32 },
    /// Asks for a pair of integers of the context, read into variables that start at 0. Yields a pair.
    GetIntegerPair { pname: u32 },
    /// Reserves one buffer name, read into a variable that starts at 0. Yields a name.
    GenBuffers,
    /// Binds a buffer to a target; the name 0 unbinds.
    BindBuffer { target: u32, buffer: u32 },
    /// Allocates `size` bytes for the buffer bound to `target` and copies `data` into them.
    BufferData { target: u32, size: usize, data: Vec<u32>, usage: u32 },
    /// Deletes one buffer.
    DeleteBuffers { buffer: u32 },
    /// Reserves one vertex array name, read into a variable that starts at 0. Yields a name.
    GenVertexArrays,
    /// Binds a vertex array; the name 0 unbinds.
    BindVertexArray { array: u32 },
    /// Enables the attribute at a location.
    EnableVertexAttribArray { index: u32 },
    /// Describes where the bound array buffer holds the attribute at a location.
    VertexAttribPointer { index: u32, size: i32, kind: u32, normalized: bool, stride: i32, offset: usize },
    /// Deletes one vertex array.
    DeleteVertexArrays { array: u32 },
    /// Creates a shader object. Yields a name, 0 on failure.
    CreateShader { kind: u32 },
    /// Replaces the source of a shader by one text.
    ShaderSource { shader: u32, source: String },
    /// Compiles the source of a shader.
    CompileShader { shader: u32 },
    /// Asks for a parameter of a shader, read into a variable that starts at `initial`. Yields an integer.
    GetShaderiv { shader: u32, pname: u32, initial: i32 },
    /// Asks for at most `length` bytes of a shader's log, written over the start of `buffer`. Yields bytes.
    GetShaderInfoLog { shader: u32, length: i32, buffer: Vec<u8> },
    /// Marks a shader for deletion.
    DeleteShader { shader: u32 },
    /// Creates a program object. Yields a name, 0 on failure.
    CreateProgram,
    /// Attaches a shader to a program.
    AttachShader { program: u32, shader: u32 },
    /// Links a program.
    LinkProgram { program: u32 },
    /// Asks for a parameter of a program, read into a variable that starts at `initial`. Yields an integer.
    GetProgramiv { program: u32, pname: u32, initial: i32 },
    /// Asks for at most `length` bytes of a program's log, written over the start of `buffer`. Yields bytes.
    GetProgramInfoLog { program: u32, length: i32, buffer: Vec<u8> },
    /// Detaches a shader from a program.
    DetachShader { program: u32, shader: u32 },
    /// Makes a program the current one.
    UseProgram { program: u32 },
    /// Deletes a program.
    DeleteProgram { program: u32 },
    /// Asks for the text of a file. Yields a file.
    ReadFile { path: String },
    /// Shows what was drawn.
    SwapBuffers,
    /// Asks the window for a redraw event.
    RequestRedraw,
    /// Fits the context's surface to a new size of the window.
    ResizeContext { width: u32, height: u32 },
    /// Writes a message to the log.
    Log { level: Level, text: String },
}

/// A request as contracts speak of it: its vectors and texts as sequences.
#[allow(inconsistent_fields)]
pub enum RequestView {
    Viewport { x: i32, y: i32, width: i32, height: i32 },
    Clear { mask: u32 },
    ClearColor { red: u32, green: u32, blue: u32, alpha: u32 },
    ClearDepthf { depth: u32 },
    ClearStencil { stencil: i32 },
    DrawElements { mode: u32, count: i32, kind: u32, offset: usize },
    DrawArrays { mode: u32, first: i32, count: i32 },
    Enable { cap: u32 },
    DebugMessageCallback,
    DebugMessageControl { source: u32, kind: u32, severity: u32, enabled: bool },
    GetString { name: u32 },
    GetStringi { name: u32, index: u32 },
    GetIntegerv { pname: u32 },
    GetIntegerPair { pname: u32 },
    GenBuffers,
    BindBuffer { target: u32, buffer: u32 },
    BufferData { target: u32, size: usize, data: Seq<u32>, usage: u32 },
    DeleteBuffers { buffer: u32 },
    GenVertexArrays,
    BindVertexArray { array: u32 },
    EnableVertexAttribArray { index: u32 },
    VertexAttribPointer { index: u32, size: i32, kind: u32, normalized: bool, stride: i32, offset: usize },
    DeleteVertexArrays { array: u32 },
    CreateShader { kind: u32 },
    ShaderSource { shader: u32, source: Seq<char> },
    CompileShader { shader: u32 },
    GetShaderiv { shader: u32, pname: u32, initial: i32 },
    GetShaderInfoLog { shader: u32, length: i32, buffer: Seq<u8> },
    DeleteShader { shader: u32 },
    CreateProgram,
    AttachShader { program: u32, shader: u32 },
    LinkProgram { program: u32 },
    GetProgramiv { program: u32, pname: u32, initial: i32 },
    GetProgramInfoLog { program: u32, length: i32, buffer: Seq<u8> },
    DetachShader { program: u32, shader: u32 },
    UseProgram { program: u32 },
    DeleteProgram { program: u32 },
    ReadFile { path: Seq<char> },
    SwapBuffers,
    RequestRedraw,
    ResizeContext { width: u32, height: u32 },
    Log { level: Level, text: Seq<char> },
}

impl View for Request {
    type V = RequestView;

    open spec fn view(&self) -> RequestView {
        match *self {
            Request::Viewport { x, y, width, height } => RequestView::Viewport { x, y, width, height },
            Request::Clear { mask } => RequestView::Clear { mask },
            Request::ClearColor { red, green, blue, alpha } => RequestView::ClearColor { red, green, blue, alpha },
            Request::ClearDepthf { depth } => RequestView::ClearDepthf { depth },
            Request::ClearStencil { stencil } => RequestView::ClearStencil { stencil },
            Request::DrawElements { mode, count, kind, offset } => RequestView::DrawElements { mode, count, kind, offset },
            Request::DrawArrays { mode, first, count } => RequestView::DrawArrays { mode, first, count },
            Request::Enable { cap } => RequestView::Enable { cap },
            Request::DebugMessageCallback => RequestView::DebugMessageCallback,
            Request::DebugMessageControl { source, kind, severity, enabled } => RequestView::DebugMessageControl { source, kind, severity, enabled },
            Request::GetString { name } => RequestView::GetString { name },
            Request::GetStringi { name, index } => RequestView::GetStringi { name, index },
            Request::GetIntegerv { pname } => RequestView::GetIntegerv { pname },
            Request::GetIntegerPair { pname } => RequestView::GetIntegerPair { pname },
            Request::GenBuffers => RequestView::GenBuffers,
            Request::BindBuffer { target, buffer } => RequestView::BindBuffer { target, buffer },
            Request::BufferData { target, size, data, usage } => RequestView::BufferData { target, size, data: data@, usage },
            Request::DeleteBuffers { buffer } => RequestView::DeleteBuffers { buffer },
            Request::GenVertexArrays => RequestView::GenVertexArrays,
            Request::BindVertexArray { array } => RequestView::BindVertexArray { array },
            Request::EnableVertexAttribArray { index } => RequestView::EnableVertexAttribArray { index },
            Request::VertexAttribPointer { index, size, kind, normalized, stride, offset } => RequestView::VertexAttribPointer { index, size, kind, normalized, stride, offset },
            Request::DeleteVertexArrays { array } => RequestView::DeleteVertexArrays { array },
            Request::CreateShader { kind } => RequestView::CreateShader { kind },
            Request::ShaderSource { shader, source } => RequestView::ShaderSource { shader, source: source@ },
            Request::CompileShader { shader } => RequestView::CompileShader { shader },
            Request::GetShaderiv { shader, pname, initial } => RequestView::GetShaderiv { shader, pname, initial },
            Request::GetShaderInfoLog { shader, length, buffer } => RequestView::GetShaderInfoLog { shader, length, buffer: buffer@ },
            Request::DeleteShader { shader } => RequestView::DeleteShader { shader },
            Request::CreateProgram => RequestView::CreateProgram,
            Request::AttachShader { program, shader } => RequestView::AttachShader { program, shader },
            Request::LinkProgram { program } => RequestView::LinkProgram { program },
            Request::GetProgramiv { program, pname, initial } => RequestView::GetProgramiv { program, pname, initial },
            Request::GetProgramInfoLog { program, length, buffer } => RequestView::GetProgramInfoLog { program, length, buffer: buffer@ },
            Request::DetachShader { program, shader } => RequestView::DetachShader { program, shader },
            Request::UseProgram { program } => RequestView::UseProgram { program },
            Request::DeleteProgram { program } => RequestView::DeleteProgram { program },
            Request::ReadFile { path } => RequestView::ReadFile { path: path@ },
            Request::SwapBuffers => RequestView::SwapBuffers,
            Request::RequestRedraw => RequestView::RequestRedraw,
            Request::ResizeContext { width, height } => RequestView::ResizeContext { width, height },
            Request::Log { level, text } => RequestView::Log { level, text: text@ },
        }
    }
}
impl RequestView {
    /// Whether the request yields a value, which the library waits for.
    pub open spec fn yields(self) -> bool {
        match self {
            RequestView::GetString { .. }
            | RequestView::GetStringi { .. }
            | RequestView::GetIntegerv { .. }
            | RequestView::GetIntegerPair { .. }
            | RequestView::GenBuffers
            | RequestView::GenVertexArrays
            | RequestView::CreateShader { .. }
            | RequestView::GetShaderiv { .. }
            | RequestView::GetShaderInfoLog { .. }
            | RequestView::CreateProgram
            | RequestView::GetProgramiv { .. }
            | RequestView::GetProgramInfoLog { .. }
            | RequestView::ReadFile { .. } => true,
            _ => false,
        }
    }
}

/// The request that logs `text` as an error.
pub open spec fn error(text: Seq<char>) -> RequestView {
    RequestView::Log { level: Level::Error, text }
}

/// The request that logs `text` as information.
pub open spec fn info(text: Seq<char>) -> RequestView {
    RequestView::Log { level: Level::Info, text }
}

/// Whether the last of `requests` yields a value.
pub open spec fn asks(requests: Seq<RequestView>) -> bool {
    requests.len() > 0 && requests.last().yields()
}

/// Why a file could not be read, with the message of the system.
#[derive(Debug, Clone, PartialEq, Eq)]
pub enum FileError {
    /// The file could not be opened.
    Open(String),
    /// The file was opened and could not be read to its end.
    Read(String),
}

/// An error of a file as contracts speak of it.
pub enum FileErrorView {
    Open(Seq<char>),
    Read(Seq<char>),
}

impl View for FileError {
    type V = FileErrorView;

    open spec fn view(&self) -> FileErrorView {
        match *self {
            FileError::Open(message) => FileErrorView::Open(message@),
            FileError::Read(message) => FileErrorView::Read(message@),
        }
    }
}

/// What a request yielded.
#[derive(Debug, PartialEq, Eq)]
pub enum Reply {
    /// The request yields no value.
    Nothing,
    /// The name of an object.
    Name(u32),
    /// An integer.
    Integer(i32),
    /// Two integers.
    Pair(i32, i32),
    /// The bytes of a string, or none where the interface returned no string.
    Text(Option<Vec<u8>>),
    /// The buffer of the request as the call left it.
    Bytes(Vec<u8>),
    /// The text of a file, or why it could not be read.
    File(Result<String, FileError>),
}

impl Reply {
    /// The name that the reply carries. A reply without a name leaves the variable that the
    /// name is read into at 0.
    pub open spec fn spec_name(&self) -> u32 {
        match *self {
            Reply::Name(name) => name,
            _ => 0,
        }
    }

    /// The integer that the reply carries. A reply without an integer leaves the variable that
    /// it is read into at `initial`.
    pub open spec fn spec_integer(&self, initial: i32) -> i32 {
        match *self {
            Reply::Integer(value) => value,
            _ => initial,
        }
    }

    /// The pair that the reply carries. A reply without a pair leaves both variables at 0.
    pub open spec fn spec_pair(&self) -> (i32, i32) {
        match *self {
            Reply::Pair(first, second) => (first, second),
            _ => (0, 0),
        }
    }

    /// The bytes of the string that the reply carries, if it carries one.
    pub open spec fn spec_text(&self) -> Option<Seq<u8>> {
        match *self {
            Reply::Text(Some(bytes)) => Some(bytes@),
            _ => None,
        }
    }

    /// The buffer that the reply carries. A reply without a buffer leaves `buffer` as it was.
    pub open spec fn spec_bytes(&self, buffer: Seq<u8>) -> Seq<u8> {
        match *self {
            Reply::Bytes(bytes) => bytes@,
            _ => buffer,
        }
    }

    /// The file that the reply carries. A reply without a file stands for a file that could
    /// not be opened, for which the system gave no message.
    pub open spec fn spec_file(&self) -> Result<Seq<char>, FileErrorView> {
        match *self {
            Reply::File(Ok(text)) => Ok(text@),
            Reply::File(Err(error)) => Err(error@),
            _ => Err(FileErrorView::Open(Seq::empty())),
        }
    }

    #[verifier::when_used_as_spec(spec_name)]
    pub fn name(&self) -> (name: u32)
        ensures
            name == self.spec_name(),
    {
        match self {
            Reply::Name(name) => *name,
            _ => 0,
        }
    }

    #[verifier::when_used_as_spec(spec_integer)]
    pub fn integer(&self, initial: i32) -> (value: i32)
        ensures
            value == self.spec_integer(initial),
    {
        match self {
            Reply::Integer(value) => *value,
            _ => initial,
        }
    }

    #[verifier::when_used_as_spec(spec_pair)]
    pub fn pair(&self) -> (pair: (i32, i32))
        ensures
            pair == self.spec_pair(),
    {
        match self {
            Reply::Pair(first, second) => (*first, *second),
            _ => (0, 0),
        }
    }

    /// Takes the bytes of the string out of the reply.
    pub fn text(self) -> (text: Option<Vec<u8>>)
        ensures
            text is Some == self.spec_text() is Some,
            text matches Some(bytes) ==> Some(bytes@) == self.spec_text(),
    {
        match self {
            Reply::Text(text) => text,
            _ => None,
        }
    }

    /// Takes the file out of the reply.
    pub fn file(self) -> (file: Result<String, FileError>)
        ensures
            file matches Ok(text) ==> self.spec_file() == Ok::<Seq<char>, FileErrorView>(text@),
            file matches Err(error) ==> self.spec_file() == Err::<Seq<char>, FileErrorView>(
                error@,
            ),
    {
        match self {
            Reply::File(file) => file,
            _ => Err(FileError::Open(String::new())),
        }
    }

    /// Takes the buffer out of the reply, or hands `buffer` back.
    pub fn bytes(self, buffer: Vec<u8>) -> (bytes: Vec<u8>)
        ensures
            bytes@ == self.spec_bytes(buffer@),
    {
        match self {
            Reply::Bytes(bytes) => bytes,
            _ => buffer,
        }
    }
}

/// How far an operation has come that needs answers of the driver.
pub enum Step<S, T> {
    /// The operation has recorded a request that yields a value, as the last of the queue. It
    /// goes on from the state held here once the driver has performed the queue and handed
    /// back what that request yielded.
    Ask(S),
    /// The operation has ended with this result. What it recorded is still to be performed.
    Done(T),
}

impl<S: View, T: View> Step<S, T> {
    /// The step as contracts speak of it: state and value by their views.
    pub open spec fn shown(self) -> Step<S::V, T::V> {
        match self {
            Step::Ask(state) => Step::Ask(state@),
            Step::Done(value) => Step::Done(value@),
        }
    }
}

impl<S: View, T: View> Step<S, Result<T, GlError>> {
    /// The step as contracts speak of it: state, value and error by their views.
    pub open spec fn seen(self) -> Step<S::V, Result<T::V, GlErrorView>> {
        match self {
            Step::Ask(state) => Step::Ask(state@),
            Step::Done(Ok(value)) => Step::Done(Ok(value@)),
            Step::Done(Err(error)) => Step::Done(Err(error@)),
        }
    }
}

} // verus!
