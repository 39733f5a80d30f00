use crate::cleanup::Cleanup;
use crate::context::request::{error, info};
use crate::context::{
    asks, gl, whitespace, FileError, FileErrorView, Gl, Reply, Request, RequestView, Step,
};
use crate::glerror::{seen, GlError, GlErrorView};
use crate::text;
use vstd::prelude::*;

verus! {

/// The stage of the pipeline that a shader is for, or the binary format that it comes in. The
/// kinds are declared in the order of their enumerants, which is the order that their
/// comparisons go by.
#[derive(Clone, Copy, Debug, PartialEq, Eq, Structural, PartialOrd, Ord)]
pub enum ShaderKind {
    Fragment,
    Vertex,
    Geometry,
    Spirv,
}

impl ShaderKind {
    /// The enumerant of the kind.
    pub open spec fn spec_bits(self) -> u32 {
        match self {
            ShaderKind::Vertex => gl::VERTEX_SHADER,
            ShaderKind::Fragment => gl::FRAGMENT_SHADER,
            ShaderKind::Geometry => gl::GEOMETRY_SHADER,
            ShaderKind::Spirv => gl::SHADER_BINARY_FORMAT_SPIR_V,
        }
    }

    /// The title of the kind.
    pub open spec fn title(self) -> Seq<char> {
        match self {
            ShaderKind::Vertex => "Vertex"@,
            ShaderKind::Fragment => "Fragment"@,
            ShaderKind::Geometry => "Geometry"@,
            ShaderKind::Spirv => "SPIR-V"@,
        }
    }

    /// The enumerant of the kind.
    #[verifier::when_used_as_spec(spec_bits)]
    pub fn bits(self) -> (bits: u32)
        ensures
            bits == self.spec_bits(),
    {
        match self {
            ShaderKind::Vertex => gl::VERTEX_SHADER,
            ShaderKind::Fragment => gl::FRAGMENT_SHADER,
            ShaderKind::Geometry => gl::GEOMETRY_SHADER,
            ShaderKind::Spirv => gl::SHADER_BINARY_FORMAT_SPIR_V,
        }
    }

    /// The text that shows the kind: its title.
    pub fn to_string(&self) -> (text: String)
        ensures
            text@ == self.title(),
    {
        match self {
            ShaderKind::Vertex => String::from_str("Vertex"),
            ShaderKind::Fragment => String::from_str("Fragment"),
            ShaderKind::Geometry => String::from_str("Geometry"),
            ShaderKind::Spirv => String::from_str("SPIR-V"),
        }
    }
}

/// Where the source of a shader comes from.
#[derive(Debug, Clone, PartialEq, Eq, PartialOrd, Ord)]
pub enum ShaderFrom {
    /// The source itself.
    Source(String),
    /// The path of the file that holds the source.
    FilePath(String),
}

/// The origin of a source as contracts speak of it.
pub enum ShaderFromView {
    Source(Seq<char>),
    FilePath(Seq<char>),
}

impl View for ShaderFrom {
    type V = ShaderFromView;

    open spec fn view(&self) -> ShaderFromView {
        match *self {
            ShaderFrom::Source(source) => ShaderFromView::Source(source@),
            ShaderFrom::FilePath(path) => ShaderFromView::FilePath(path@),
        }
    }
}

/// What a shader is made of: its kind and its source.
#[derive(Debug, Clone, PartialEq, Eq, PartialOrd, Ord)]
pub struct ShaderDescriptor {
    pub kind: ShaderKind,
    pub from: ShaderFrom,
}

/// A descriptor as contracts speak of it.
pub struct ShaderDescriptorView {
    pub kind: ShaderKind,
    pub from: ShaderFromView,
}

impl View for ShaderDescriptor {
    type V = ShaderDescriptorView;

    open spec fn view(&self) -> ShaderDescriptorView {
        ShaderDescriptorView { kind: self.kind, from: self.from@ }
    }
}

/// A compiled shader: its name, which is never 0, and its kind.
#[derive(Debug)]
pub struct Shader {
    id: u32,
    kind: ShaderKind,
}

/// A shader as contracts speak of it: its name and its kind.
#[derive(Clone, Copy, Debug)]
pub struct ShaderView {
    pub id: u32,
    pub kind: ShaderKind,
}

impl View for Shader {
    type V = ShaderView;

    closed spec fn view(&self) -> ShaderView {
        ShaderView { id: self.id, kind: self.kind }
    }
}

/// A shader on its way: what its making waits for.
#[allow(inconsistent_fields)]
pub enum PendingShader {
    /// `ReadFile` was recorded for the source.
    File { kind: ShaderKind, path: String },
    /// `CreateShader` was recorded.
    Name { kind: ShaderKind, source: String },
    /// The source was handed over and compiled, and the compile status was asked for.
    Status { shader: Shader },
    /// The compilation failed, and the length of the log was asked for.
    LogLength { shader: u32 },
    /// The log was asked for.
    Log { shader: u32, length: i32 },
}

/// A pending shader as contracts speak of it.
#[allow(inconsistent_fields)]
pub enum PendingShaderView {
    File { kind: ShaderKind, path: Seq<char> },
    Name { kind: ShaderKind, source: Seq<char> },
    Status { shader: ShaderView },
    LogLength { shader: u32 },
    Log { shader: u32, length: i32 },
}

impl View for PendingShader {
    type V = PendingShaderView;

    open spec fn view(&self) -> PendingShaderView {
        match *self {
            PendingShader::File { kind, path } => PendingShaderView::File { kind, path: path@ },
            PendingShader::Name { kind, source } => PendingShaderView::Name {
                kind,
                source: source@,
            },
            PendingShader::Status { shader } => PendingShaderView::Status { shader: shader@ },
            PendingShader::LogLength { shader } => PendingShaderView::LogLength { shader },
            PendingShader::Log { shader, length } => PendingShaderView::Log { shader, length },
        }
    }
}

/// Whether a source holds a zero byte, which ends a text of the graphics interface: no such
/// source can be handed over.
pub open spec fn has_nul(source: Seq<char>) -> bool {
    vstd::utf8::encode_utf8(source).contains(0u8)
}

/// The message for a file at `path` that could not be read.
pub open spec fn file_message(error: FileErrorView, path: Seq<char>) -> Seq<char> {
    match error {
        FileErrorView::Open(message) => message + "\nPath: "@ + path,
        FileErrorView::Read(message) => message,
    }
}

/// What the making of a shader from the source `source` starts with: an error where the
/// source holds a zero byte, else the wait for a name.
pub open spec fn source_step(kind: ShaderKind, source: Seq<char>) -> Result<
    PendingShaderView,
    GlErrorView,
> {
    if has_nul(source) {
        Err(GlErrorView::Shader("Invalid CString from shader source"@))
    } else {
        Ok(PendingShaderView::Name { kind, source })
    }
}

/// What the making of a shader from the source `source` records first.
pub open spec fn source_emits(kind: ShaderKind, source: Seq<char>) -> Seq<RequestView> {
    if has_nul(source) {
        Seq::empty()
    } else {
        seq![RequestView::CreateShader { kind: kind.bits() }]
    }
}

impl ShaderDescriptorView {
    /// A shader that was started has recorded, as its last request, the one that yields the
    /// value that it waits for.
    pub proof fn lemma_first_asks(self)
        ensures
            self.first_step() is Ok ==> asks(self.first_emits()),
    {
    }

    /// A shader that was started waits for four answers at most after the first.
    pub proof fn lemma_first_rank(self)
        ensures
            self.first_step() matches Ok(pending) ==> pending.rank() <= 4,
    {
    }


    /// Where the making of the shader stands after its start: it waits for the file of the
    /// source, or, with the source at hand, for a name; a source with a zero byte is an error.
    pub open spec fn first_step(self) -> Result<PendingShaderView, GlErrorView> {
        match self.from {
            ShaderFromView::FilePath(path) => Ok(PendingShaderView::File { kind: self.kind, path }),
            ShaderFromView::Source(source) => source_step(self.kind, source),
        }
    }

    /// What the making of the shader records at its start. The reading of a file is logged.
    pub open spec fn first_emits(self) -> Seq<RequestView> {
        match self.from {
            ShaderFromView::FilePath(path) => seq![
                info("Loading shader from file: "@ + path),
                RequestView::ReadFile { path },
            ],
            ShaderFromView::Source(source) => source_emits(self.kind, source),
        }
    }
}

impl ShaderView {
    /// The requests that release the shader: it is marked for deletion, and deleted once no
    /// program has it attached.
    pub open spec fn release(self) -> Seq<RequestView> {
        seq![RequestView::DeleteShader { shader: self.id }]
    }
}

impl Shader {
    #[verifier::type_invariant]
    spec fn named(self) -> bool {
        self.id != 0
    }

    fn with_source(gl: &mut Gl, kind: ShaderKind, source: String) -> (step: Result<
        PendingShader,
        GlError,
    >)
        ensures
            seen(step) == source_step(kind, source@),
            final(gl)@ == old(gl)@ + source_emits(kind, source@),
    {
        let bytes = source.as_str().as_bytes();
        let mut i: usize = 0;
        while i < bytes.len()
            invariant
                i <= bytes.len(),
                bytes@ == vstd::utf8::encode_utf8(source@),
                forall|j: int| 0 <= j < i ==> bytes@[j] != 0,
            decreases bytes.len() - i,
        {
            if bytes[i] == 0 {
                assert(gl@ =~= old(gl)@ + source_emits(kind, source@));
                return Err(
                    GlError::Shader(String::from_str("Invalid CString from shader source")),
                );
            }
            i += 1;
        }
        gl.record(Request::CreateShader { kind: kind.bits() });
        assert(gl@ =~= old(gl)@ + source_emits(kind, source@));
        Ok(PendingShader::Name { kind, source })
    }

    /// Starts the making of a shader: asks for the source where it lies in a file; else checks
    /// the source and asks for a name.
    pub fn new(gl: &mut Gl, descriptor: ShaderDescriptor) -> (step: Result<PendingShader, GlError>)
        ensures
            seen(step) == descriptor@.first_step(),
            final(gl)@ == old(gl)@ + descriptor@.first_emits(),
    {
        match descriptor.from {
            ShaderFrom::FilePath(path) => {
                gl.info(String::from_str("Loading shader from file: ").concat(path.as_str()));
                gl.record(Request::ReadFile { path: path.clone() });
                assert(gl@ =~= old(gl)@ + descriptor@.first_emits());
                Ok(PendingShader::File { kind: descriptor.kind, path })
            },
            ShaderFrom::Source(source) => Self::with_source(gl, descriptor.kind, source),
        }
    }

    /// The name of the shader.
    pub fn id(&self) -> (id: u32)
        ensures
            id == self@.id,
            id != 0,
    {
        proof {
            use_type_invariant(self);
        }
        self.id
    }

    /// The kind of the shader.
    pub fn kind(&self) -> (kind: ShaderKind)
        ensures
            kind == self@.kind,
    {
        self.kind
    }
}

impl PendingShaderView {
    /// What the making can go on with: a log has a length that is not negative.
    pub open spec fn accepts(self, reply: Reply) -> bool {
        match self {
            PendingShaderView::LogLength { .. } => reply.spec_integer(0) >= 0,
            PendingShaderView::Log { length, .. } => length >= 0,
            _ => true,
        }
    }

    /// Where the making stands after the answer `reply`.
    pub open spec fn next(self, reply: Reply) -> Step<
        PendingShaderView,
        Result<ShaderView, GlErrorView>,
    > {
        match self {
            PendingShaderView::File { kind, path } => match reply.spec_file() {
                Ok(source) => match source_step(kind, source) {
                    Ok(pending) => Step::Ask(pending),
                    Err(error) => Step::Done(Err(error)),
                },
                Err(error) => Step::Done(Err(GlErrorView::Shader(file_message(error, path)))),
            },
            PendingShaderView::Name { kind, source } => if reply.spec_name() == 0 {
                Step::Done(Err(GlErrorView::Shader("CreateShader returned an object id of 0"@)))
            } else {
                Step::Ask(
                    PendingShaderView::Status { shader: ShaderView { id: reply.spec_name(), kind } },
                )
            },
            PendingShaderView::Status { shader } => if reply.spec_integer(gl::TRUE) != gl::FALSE {
                Step::Done(Ok(shader))
            } else {
                Step::Ask(PendingShaderView::LogLength { shader: shader.id })
            },
            PendingShaderView::LogLength { shader } => Step::Ask(
                PendingShaderView::Log { shader, length: reply.spec_integer(0) },
            ),
            PendingShaderView::Log { shader, length } => Step::Done(
                Err(
                    GlErrorView::Shader(
                        text::utf8_lossy(reply.spec_bytes(whitespace((length + 1) as nat))),
                    ),
                ),
            ),
        }
    }

    /// How many answers the making waits for at most, this one not counted.
    pub open spec fn rank(self) -> nat {
        match self {
            PendingShaderView::File { .. } => 4,
            PendingShaderView::Name { .. } => 3,
            PendingShaderView::Status { .. } => 2,
            PendingShaderView::LogLength { .. } => 1,
            PendingShaderView::Log { .. } => 0,
        }
    }

    /// Each answer brings the making nearer to its end: it ends after five answers at most.
    pub proof fn lemma_progress(self, reply: Reply)
        ensures
            self.next(reply) matches Step::Ask(next) ==> next.rank() < self.rank(),
    {
    }

    /// Where the making asks, the last request that it recorded yields the value that it waits
    /// for.
    pub proof fn lemma_asks(self, reply: Reply)
        ensures
            self.next(reply) is Ask ==> asks(self.emits(reply)),
    {
    }

    /// What the making records on the answer `reply`.
    pub open spec fn emits(self, reply: Reply) -> Seq<RequestView> {
        match self {
            PendingShaderView::File { kind, path } => match reply.spec_file() {
                Ok(source) => source_emits(kind, source),
                Err(error) => Seq::empty(),
            },
            PendingShaderView::Name { kind, source } => if reply.spec_name() == 0 {
                seq![error("CreateShader failed to generate an object id"@)]
            } else {
                seq![
                    RequestView::ShaderSource { shader: reply.spec_name(), source },
                    RequestView::CompileShader { shader: reply.spec_name() },
                    RequestView::GetShaderiv {
                        shader: reply.spec_name(),
                        pname: gl::COMPILE_STATUS,
                        initial: gl::TRUE,
                    },
                ]
            },
            PendingShaderView::Status { shader } => if reply.spec_integer(gl::TRUE) != gl::FALSE {
                Seq::empty()
            } else {
                seq![
                    RequestView::GetShaderiv {
                        shader: shader.id,
                        pname: gl::INFO_LOG_LENGTH,
                        initial: 0,
                    },
                ]
            },
            PendingShaderView::LogLength { shader } => seq![
                RequestView::GetShaderInfoLog {
                    shader,
                    length: reply.spec_integer(0),
                    buffer: whitespace((reply.spec_integer(0) + 1) as nat),
                },
            ],
            PendingShaderView::Log { .. } => Seq::empty(),
        }
    }
}

impl PendingShader {
    /// Whether the making can go on with the answer `reply`.
    pub fn can_resume(&self, reply: &Reply) -> (accepted: bool)
        ensures
            accepted == self@.accepts(*reply),
    {
        match self {
            PendingShader::LogLength { .. } => reply.integer(0) >= 0,
            PendingShader::Log { length, .. } => *length >= 0,
            _ => true,
        }
    }

    /// Goes on with the making of the shader after the answer `reply` to the request that it
    /// waited for.
    pub fn resume(self, gl: &mut Gl, reply: Reply) -> (step: Step<
        PendingShader,
        Result<Shader, GlError>,
    >)
        requires
            self@.accepts(reply),
        ensures
            step.seen() == self@.next(reply),
            final(gl)@ == old(gl)@ + self@.emits(reply),
    {
        match self {
            PendingShader::File { kind, path } => match reply.file() {
                Ok(source) => match Shader::with_source(gl, kind, source) {
                    Ok(pending) => Step::Ask(pending),
                    Err(error) => Step::Done(Err(error)),
                },
                Err(FileError::Open(message)) => {
                    assert(gl@ =~= old(gl)@ + self@.emits(reply));
                    let mut message = message;
                    message.append("\nPath: ");
                    message.append(path.as_str());
                    Step::Done(Err(GlError::Shader(message)))
                },
                Err(FileError::Read(message)) => {
                    assert(gl@ =~= old(gl)@ + self@.emits(reply));
                    Step::Done(Err(GlError::Shader(message)))
                },
            },
            PendingShader::Name { kind, source } => {
                let id = reply.name();
                if id == 0 {
                    gl.error("CreateShader failed to generate an object id");
                    assert(gl@ =~= old(gl)@ + self@.emits(reply));
                    Step::Done(
                        Err(
                            GlError::Shader(
                                String::from_str("CreateShader returned an object id of 0"),
                            ),
                        ),
                    )
                } else {
                    gl.record(Request::ShaderSource { shader: id, source });
                    gl.record(Request::CompileShader { shader: id });
                    gl.record(
                        Request::GetShaderiv {
                            shader: id,
                            pname: gl::COMPILE_STATUS,
                            initial: gl::TRUE,
                        },
                    );
                    assert(gl@ =~= old(gl)@ + self@.emits(reply));
                    Step::Ask(PendingShader::Status { shader: Shader { id, kind } })
                }
            },
            PendingShader::Status { shader } => {
                if reply.integer(gl::TRUE) != gl::FALSE {
                    assert(gl@ =~= old(gl)@ + self@.emits(reply));
                    Step::Done(Ok(shader))
                } else {
                    gl.record(
                        Request::GetShaderiv {
                            shader: shader.id,
                            pname: gl::INFO_LOG_LENGTH,
                            initial: 0,
                        },
                    );
                    assert(gl@ =~= old(gl)@ + self@.emits(reply));
                    Step::Ask(PendingShader::LogLength { shader: shader.id })
                }
            },
            PendingShader::LogLength { shader } => {
                let length = reply.integer(0);
                let buffer = Gl::create_whitespace_cstring(length as usize);
                gl.record(Request::GetShaderInfoLog { shader, length, buffer });
                assert(gl@ =~= old(gl)@ + self@.emits(reply));
                Step::Ask(PendingShader::Log { shader, length })
            },
            PendingShader::Log { shader, length } => {
                assert(gl@ =~= old(gl)@ + self@.emits(reply));
                let bytes = reply.bytes(Gl::create_whitespace_cstring(length as usize));
                Step::Done(Err(GlError::Shader(text::lossy(bytes.as_slice()))))
            },
        }
    }
}

impl Cleanup for Shader {
    open spec fn release(&self) -> Seq<RequestView> {
        self@.release()
    }

    fn cleanup(&self, gl: &mut Gl) {
        gl.record(Request::DeleteShader { shader: self.id });
        assert(gl@ =~= old(gl)@ + self.release());
    }
}

} // verus!
