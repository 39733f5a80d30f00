use crate::cleanup::Cleanup;
use crate::context::request::{error, info};
use crate::context::{asks, gl, whitespace, Gl, Reply, Request, RequestView, Step};
use crate::glerror::{GlError, GlErrorView};
use crate::label::Label;
use crate::shaders::shader::{
    PendingShader, PendingShaderView, Shader, ShaderDescriptor, ShaderDescriptorView, ShaderView,
};
use crate::text;
use vstd::prelude::*;

verus! {

/// A linked program: its name, which is never 0, and its label.
#[derive(Debug)]
pub struct ShaderProgram {
    id: u32,
    label: String,
}

/// A program as contracts speak of it.
pub struct ShaderProgramView {
    pub id: u32,
    pub label: Seq<char>,
}

impl View for ShaderProgram {
    type V = ShaderProgramView;

    closed spec fn view(&self) -> ShaderProgramView {
        ShaderProgramView { id: self.id, label: self.label@ }
    }
}

/// A program on its way from compiled shaders: what its making waits for.
#[allow(inconsistent_fields)]
pub enum PendingProgram {
    /// `CreateProgram` was recorded. `shaders` are the shaders of the program.
    Name { shaders: Vec<ShaderView>, label: String },
    /// The shaders were attached and the program linked, and the link status was asked for.
    Status { program: ShaderProgram, shaders: Vec<ShaderView> },
    /// The linking failed, and the length of the log was asked for.
    LogLength { program: u32 },
    /// The log was asked for.
    Log { program: u32, length: i32 },
}

/// A pending program as contracts speak of it.
#[allow(inconsistent_fields)]
pub enum PendingProgramView {
    Name { shaders: Seq<ShaderView>, label: Seq<char> },
    Status { program: ShaderProgramView, shaders: Seq<ShaderView> },
    LogLength { program: u32 },
    Log { program: u32, length: i32 },
}

impl View for PendingProgram {
    type V = PendingProgramView;

    open spec fn view(&self) -> PendingProgramView {
        match *self {
            PendingProgram::Name { shaders, label } => PendingProgramView::Name {
                shaders: shaders@,
                label: label@,
            },
            PendingProgram::Status { program, shaders } => PendingProgramView::Status {
                program: program@,
                shaders: shaders@,
            },
            PendingProgram::LogLength { program } => PendingProgramView::LogLength { program },
            PendingProgram::Log { program, length } => PendingProgramView::Log { program, length },
        }
    }
}

/// A program on its way from descriptors of shaders: what its making waits for.
pub enum PendingRaw {
    /// The shader `current` is on its way; those before it are `compiled`, those after it are
    /// still to be made of `rest`.
    Compiling {
        current: PendingShader,
        compiled: Vec<Shader>,
        rest: Vec<ShaderDescriptor>,
        label: String,
    },
    /// All the shaders are `compiled`, and the program is on its way.
    Linking { inner: PendingProgram, compiled: Vec<Shader> },
}

/// A program pending on its shaders as contracts speak of it.
pub enum PendingRawView {
    Compiling {
        current: PendingShaderView,
        compiled: Seq<ShaderView>,
        rest: Seq<ShaderDescriptorView>,
        label: Seq<char>,
    },
    Linking { inner: PendingProgramView, compiled: Seq<ShaderView> },
}

/// The views of `shaders`, in their order.
pub open spec fn seen_shaders(shaders: Seq<Shader>) -> Seq<ShaderView> {
    Seq::new(shaders.len(), |i: int| shaders[i]@)
}

/// The views of `descriptors`, in their order.
pub open spec fn seen_descriptors(descriptors: Seq<ShaderDescriptor>) -> Seq<ShaderDescriptorView> {
    Seq::new(descriptors.len(), |i: int| descriptors[i]@)
}

impl View for PendingRaw {
    type V = PendingRawView;

    open spec fn view(&self) -> PendingRawView {
        match *self {
            PendingRaw::Compiling { current, compiled, rest, label } => PendingRawView::Compiling {
                current: current@,
                compiled: seen_shaders(compiled@),
                rest: seen_descriptors(rest@),
                label: label@,
            },
            PendingRaw::Linking { inner, compiled } => PendingRawView::Linking {
                inner: inner@,
                compiled: seen_shaders(compiled@),
            },
        }
    }
}

/// The views of `programs`, in their order.
pub open spec fn seen_programs(programs: Seq<ShaderProgram>) -> Seq<ShaderProgramView> {
    Seq::new(programs.len(), |i: int| programs[i]@)
}

/// The requests that attach each of `shaders` to `program`, in their order; each attaching is
/// logged before.
pub open spec fn attach_requests(program: u32, shaders: Seq<ShaderView>) -> Seq<RequestView>
    decreases shaders.len(),
{
    if shaders.len() == 0 {
        Seq::empty()
    } else {
        let shader = shaders.last();
        attach_requests(program, shaders.drop_last()) + seq![
            info("Attaching "@ + shader.kind.title() + " shader"@),
            RequestView::AttachShader { program, shader: shader.id },
        ]
    }
}

/// The requests that detach each of `shaders` from `program`, in their order.
pub open spec fn detach_requests(program: u32, shaders: Seq<ShaderView>) -> Seq<RequestView> {
    Seq::new(shaders.len(), |i: int| RequestView::DetachShader { program, shader: shaders[i].id })
}

/// The requests that release each of `shaders`, in their order.
pub open spec fn release_requests(shaders: Seq<ShaderView>) -> Seq<RequestView> {
    Seq::new(shaders.len(), |i: int| RequestView::DeleteShader { shader: shaders[i].id })
}

impl ShaderProgramView {
    /// The requests that release the program.
    pub open spec fn release(self) -> Seq<RequestView> {
        seq![RequestView::DeleteProgram { program: self.id }]
    }
}

impl PendingProgramView {
    /// What the making of a program with the label `label` records at its start: the making
    /// is logged, and a name is asked for.
    pub open spec fn first_emits(label: Seq<char>) -> Seq<RequestView> {
        seq![info("Creating shader program '"@ + label + "'"@), RequestView::CreateProgram]
    }

    /// What the making can go on with: a log has a length that is not negative.
    pub open spec fn accepts(self, reply: Reply) -> bool {
        match self {
            PendingProgramView::LogLength { .. } => reply.spec_integer(0) >= 0,
            PendingProgramView::Log { length, .. } => length >= 0,
            _ => true,
        }
    }

    /// Where the making stands after the answer `reply`.
    pub open spec fn next(self, reply: Reply) -> Step<
        PendingProgramView,
        Result<ShaderProgramView, GlErrorView>,
    > {
        match self {
            PendingProgramView::Name { shaders, label } => if reply.spec_name() == 0 {
                Step::Done(
                    Err(GlErrorView::ShaderProgram("CreateProgram returned an object id of 0"@)),
                )
            } else {
                Step::Ask(
                    PendingProgramView::Status {
                        program: ShaderProgramView { id: reply.spec_name(), label },
                        shaders,
                    },
                )
            },
            PendingProgramView::Status { program, shaders } => if reply.spec_integer(gl::TRUE)
                == gl::FALSE {
                Step::Ask(PendingProgramView::LogLength { program: program.id })
            } else {
                Step::Done(Ok(program))
            },
            PendingProgramView::LogLength { program } => Step::Ask(
                PendingProgramView::Log { program, length: reply.spec_integer(0) },
            ),
            PendingProgramView::Log { program, length } => Step::Done(
                Err(
                    GlErrorView::ShaderProgram(
                        text::utf8_lossy(reply.spec_bytes(whitespace((length + 1) as nat))),
                    ),
                ),
            ),
        }
    }

    /// How many answers the making waits for at most, this one not counted.
    pub open spec fn rank(self) -> nat {
        match self {
            PendingProgramView::Name { .. } => 3,
            PendingProgramView::Status { .. } => 2,
            PendingProgramView::LogLength { .. } => 1,
            PendingProgramView::Log { .. } => 0,
        }
    }

    /// Each answer brings the making nearer to its end: it ends after four answers at most.
    pub proof fn lemma_progress(self, reply: Reply)
        ensures
            self.next(reply) matches Step::Ask(next) ==> next.rank() < self.rank(),
    {
    }

    /// Where the making asks, the last request that it recorded yields the value that it waits
    /// for.
    pub proof fn lemma_asks(self, reply: Reply)
        ensures
            self.next(reply) is Ask ==> asks(self.emits(reply)),
    {
    }

    /// What the making records on the answer `reply`.
    pub open spec fn emits(self, reply: Reply) -> Seq<RequestView> {
        match self {
            PendingProgramView::Name { shaders, label } => if reply.spec_name() == 0 {
                seq![error("CreateProgram failed to generate an object id"@)]
            } else {
                attach_requests(reply.spec_name(), shaders) + seq![
                    RequestView::LinkProgram { program: reply.spec_name() },
                    RequestView::GetProgramiv {
                        program: reply.spec_name(),
                        pname: gl::LINK_STATUS,
                        initial: gl::TRUE,
                    },
                ]
            },
            PendingProgramView::Status { program, shaders } => if reply.spec_integer(gl::TRUE)
                == gl::FALSE {
                seq![
                    RequestView::GetProgramiv {
                        program: program.id,
                        pname: gl::INFO_LOG_LENGTH,
                        initial: 0,
                    },
                ]
            } else {
                detach_requests(program.id, shaders)
            },
            PendingProgramView::LogLength { program } => seq![
                RequestView::GetProgramInfoLog {
                    program,
                    length: reply.spec_integer(0),
                    buffer: whitespace((reply.spec_integer(0) + 1) as nat),
                },
            ],
            PendingProgramView::Log { .. } => Seq::empty(),
        }
    }
}

impl PendingRawView {
    /// What the making can go on with.
    pub open spec fn accepts(self, reply: Reply) -> bool {
        match self {
            PendingRawView::Compiling { current, .. } => current.accepts(reply),
            PendingRawView::Linking { inner, .. } => inner.accepts(reply),
        }
    }

    /// Where the making stands once the shaders `compiled` are there and those of `rest` are
    /// still to be made: the first of `rest` is started, or, where none is left, the program.
    /// An error ends the making.
    pub open spec fn turn(
        compiled: Seq<ShaderView>,
        rest: Seq<ShaderDescriptorView>,
        label: Seq<char>,
    ) -> Step<PendingRawView, Result<ShaderProgramView, GlErrorView>> {
        if rest.len() == 0 {
            Step::Ask(
                PendingRawView::Linking {
                    inner: PendingProgramView::Name { shaders: compiled, label },
                    compiled,
                },
            )
        } else {
            match rest[0].first_step() {
                Ok(current) => Step::Ask(
                    PendingRawView::Compiling { current, compiled, rest: rest.drop_first(), label },
                ),
                Err(error) => Step::Done(Err(error)),
            }
        }
    }

    /// What a turn to the next shader, or to the program, records. Where the making ends, the
    /// compiled shaders are released.
    pub open spec fn turn_emits(
        compiled: Seq<ShaderView>,
        rest: Seq<ShaderDescriptorView>,
        label: Seq<char>,
    ) -> Seq<RequestView> {
        if rest.len() == 0 {
            PendingProgramView::first_emits(label)
        } else {
            match rest[0].first_step() {
                Ok(current) => rest[0].first_emits(),
                Err(error) => rest[0].first_emits() + release_requests(compiled),
            }
        }
    }

    /// How many answers the making waits for at most, this one not counted: five for each
    /// shader that is still to be made, and four for the program.
    pub open spec fn rank(self) -> nat {
        match self {
            PendingRawView::Compiling { current, rest, .. } => current.rank() + 5 * rest.len() + 5,
            PendingRawView::Linking { inner, .. } => inner.rank(),
        }
    }

    /// Each answer brings the making nearer to its end.
    pub proof fn lemma_progress(self, reply: Reply)
        ensures
            self.next(reply) matches Step::Ask(next) ==> next.rank() < self.rank(),
    {
        match self {
            PendingRawView::Compiling { current, compiled, rest, label } => {
                current.lemma_progress(reply);
                if rest.len() > 0 {
                    rest[0].lemma_first_rank();
                }
            },
            PendingRawView::Linking { inner, compiled } => {
                inner.lemma_progress(reply);
            },
        }
    }

    /// Where a turn asks, the last request that it recorded yields the value that it waits
    /// for.
    pub proof fn lemma_turn_asks(
        compiled: Seq<ShaderView>,
        rest: Seq<ShaderDescriptorView>,
        label: Seq<char>,
    )
        ensures
            Self::turn(compiled, rest, label) is Ask ==> asks(
                Self::turn_emits(compiled, rest, label),
            ),
    {
        if rest.len() > 0 {
            rest[0].lemma_first_asks();
        }
    }

    /// Where the making asks, the last request that it recorded yields the value that it waits
    /// for.
    pub proof fn lemma_asks(self, reply: Reply)
        ensures
            self.next(reply) is Ask ==> asks(self.emits(reply)),
    {
        match self {
            PendingRawView::Compiling { current, compiled, rest, label } => {
                current.lemma_asks(reply);
                match current.next(reply) {
                    Step::Done(Ok(shader)) => {
                        Self::lemma_turn_asks(compiled.push(shader), rest, label);
                    },
                    _ => {},
                }
            },
            PendingRawView::Linking { inner, compiled } => {
                inner.lemma_asks(reply);
            },
        }
    }

    /// Where the making stands after the answer `reply`.
    pub open spec fn next(self, reply: Reply) -> Step<
        PendingRawView,
        Result<ShaderProgramView, GlErrorView>,
    > {
        match self {
            PendingRawView::Compiling { current, compiled, rest, label } => match current.next(
                reply,
            ) {
                Step::Ask(current) => Step::Ask(
                    PendingRawView::Compiling { current, compiled, rest, label },
                ),
                Step::Done(Ok(shader)) => Self::turn(compiled.push(shader), rest, label),
                Step::Done(Err(error)) => Step::Done(Err(error)),
            },
            PendingRawView::Linking { inner, compiled } => match inner.next(reply) {
                Step::Ask(inner) => Step::Ask(PendingRawView::Linking { inner, compiled }),
                Step::Done(result) => Step::Done(result),
            },
        }
    }

    /// What the making records on the answer `reply`. Where the making ends, the compiled
    /// shaders are released behind all else.
    pub open spec fn emits(self, reply: Reply) -> Seq<RequestView> {
        match self {
            PendingRawView::Compiling { current, compiled, rest, label } => match current.next(
                reply,
            ) {
                Step::Ask(_) => current.emits(reply),
                Step::Done(Ok(shader)) => current.emits(reply) + Self::turn_emits(
                    compiled.push(shader),
                    rest,
                    label,
                ),
                Step::Done(Err(_)) => current.emits(reply) + release_requests(compiled),
            },
            PendingRawView::Linking { inner, compiled } => match inner.next(reply) {
                Step::Ask(_) => inner.emits(reply),
                Step::Done(_) => inner.emits(reply) + release_requests(compiled),
            },
        }
    }
}

fn release_all(gl: &mut Gl, shaders: &Vec<Shader>)
    ensures
        final(gl)@ == old(gl)@ + release_requests(seen_shaders(shaders@)),
{
    let mut i: usize = 0;
    while i < shaders.len()
        invariant
            i <= shaders.len(),
            gl@ == old(gl)@ + release_requests(seen_shaders(shaders@.take(i as int))),
        decreases shaders.len() - i,
    {
        shaders[i].cleanup(gl);
        i += 1;
        assert(gl@ =~= old(gl)@ + release_requests(seen_shaders(shaders@.take(i as int))));
    }
    assert(shaders@.take(i as int) == shaders@);
}

impl ShaderProgram {
    #[verifier::type_invariant]
    spec fn named(self) -> bool {
        self.id != 0
    }

    /// Starts the making of a program of the compiled shaders `shaders`: asks for a name.
    pub fn from_shaders(gl: &mut Gl, shaders: &[Shader], label: &str) -> (pending: PendingProgram)
        ensures
            final(gl)@ == old(gl)@ + PendingProgramView::first_emits(label@),
            pending@ == (PendingProgramView::Name {
                shaders: seen_shaders(shaders@),
                label: label@,
            }),
    {
        Self::new(gl, shaders, String::from_str(label))
    }

    fn new(gl: &mut Gl, shaders: &[Shader], label: String) -> (pending: PendingProgram)
        ensures
            final(gl)@ == old(gl)@ + PendingProgramView::first_emits(label@),
            pending@ == (PendingProgramView::Name {
                shaders: seen_shaders(shaders@),
                label: label@,
            }),
    {
        let mut text = String::from_str("Creating shader program '");
        text.append(label.as_str());
        text.append("'");
        gl.info(text);
        gl.record(Request::CreateProgram);
        assert(gl@ =~= old(gl)@ + PendingProgramView::first_emits(label@));
        let mut names: Vec<ShaderView> = Vec::new();
        let mut i: usize = 0;
        while i < shaders.len()
            invariant
                i <= shaders.len(),
                names@ == seen_shaders(shaders@.take(i as int)),
            decreases shaders.len() - i,
        {
            names.push(ShaderView { id: shaders[i].id(), kind: shaders[i].kind() });
            i += 1;
            assert(names@ =~= seen_shaders(shaders@.take(i as int)));
        }
        assert(shaders@.take(i as int) == shaders@);
        PendingProgram::Name { shaders: names, label }
    }

    /// Starts the making of a program of the shaders that `raw_shaders` describes: starts the
    /// first shader. The shaders are made one after the other, in the order of `raw_shaders`,
    /// then the program is linked of them, and at the end the shaders are released.
    pub fn from_raw(gl: &mut Gl, raw_shaders: Vec<ShaderDescriptor>, label: &str) -> (step: Step<
        PendingRaw,
        Result<ShaderProgram, GlError>,
    >)
        ensures
            step.seen() == PendingRawView::turn(
                Seq::empty(),
                seen_descriptors(raw_shaders@),
                label@,
            ),
            final(gl)@ == old(gl)@ + PendingRawView::turn_emits(
                Seq::empty(),
                seen_descriptors(raw_shaders@),
                label@,
            ),
    {
        let compiled: Vec<Shader> = Vec::new();
        assert(seen_shaders(compiled@) =~= Seq::empty());
        Self::turn(gl, compiled, raw_shaders, String::from_str(label))
    }

    fn turn(
        gl: &mut Gl,
        compiled: Vec<Shader>,
        rest: Vec<ShaderDescriptor>,
        label: String,
    ) -> (step: Step<PendingRaw, Result<ShaderProgram, GlError>>)
        ensures
            step.seen() == PendingRawView::turn(
                seen_shaders(compiled@),
                seen_descriptors(rest@),
                label@,
            ),
            final(gl)@ == old(gl)@ + PendingRawView::turn_emits(
                seen_shaders(compiled@),
                seen_descriptors(rest@),
                label@,
            ),
    {
        if rest.len() == 0 {
            let inner = Self::new(gl, compiled.as_slice(), label);
            assert(gl@ =~= old(gl)@ + PendingRawView::turn_emits(
                seen_shaders(compiled@),
                seen_descriptors(rest@),
                label@,
            ));
            Step::Ask(PendingRaw::Linking { inner, compiled })
        } else {
            let mut rest = rest;
            let ghost first = rest@[0]@;
            let ghost others = seen_descriptors(rest@).drop_first();
            assert(seen_descriptors(rest@)[0] == first);
            let descriptor = rest.remove(0);
            assert(seen_descriptors(rest@) =~= others);
            match Shader::new(gl, descriptor) {
                Ok(current) => Step::Ask(PendingRaw::Compiling { current, compiled, rest, label }),
                Err(error) => {
                    release_all(gl, &compiled);
                    assert(gl@ =~= old(gl)@ + (first.first_emits() + release_requests(
                        seen_shaders(compiled@),
                    )));
                    Step::Done(Err(error))
                },
            }
        }
    }

    /// Whether the program has the label `label`.
    pub fn has_label(&self, label: &String) -> (has: bool)
        ensures
            has == (self@.label == label@),
    {
        self.label == *label
    }

    /// The name of the program.
    pub fn name(&self) -> (id: u32)
        ensures
            id == self@.id,
            id != 0,
    {
        proof {
            use_type_invariant(self);
        }
        self.id
    }

    /// Makes the program the current one.
    pub fn set_used(&self, gl: &mut Gl)
        ensures
            final(gl)@ == old(gl)@.push(RequestView::UseProgram { program: self@.id }),
    {
        gl.record(Request::UseProgram { program: self.id });
    }
}

impl PendingProgram {
    /// Whether the making can go on with the answer `reply`.
    pub fn can_resume(&self, reply: &Reply) -> (accepted: bool)
        ensures
            accepted == self@.accepts(*reply),
    {
        match self {
            PendingProgram::LogLength { .. } => reply.integer(0) >= 0,
            PendingProgram::Log { length, .. } => *length >= 0,
            _ => true,
        }
    }

    /// Goes on with the making of the program after the answer `reply` to the request that it
    /// waited for.
    pub fn resume(self, gl: &mut Gl, reply: Reply) -> (step: Step<
        PendingProgram,
        Result<ShaderProgram, GlError>,
    >)
        requires
            self@.accepts(reply),
        ensures
            step.seen() == self@.next(reply),
            final(gl)@ == old(gl)@ + self@.emits(reply),
    {
        match self {
            PendingProgram::Name { shaders, label } => {
                let program = reply.name();
                if program == 0 {
                    gl.error("CreateProgram failed to generate an object id");
                    assert(gl@ =~= old(gl)@ + self@.emits(reply));
                    return Step::Done(
                        Err(
                            GlError::ShaderProgram(
                                String::from_str("CreateProgram returned an object id of 0"),
                            ),
                        ),
                    );
                }
                let mut i: usize = 0;
                while i < shaders.len()
                    invariant
                        i <= shaders.len(),
                        gl@ == old(gl)@ + attach_requests(program, shaders@.take(i as int)),
                    decreases shaders.len() - i,
                {
                    let shader = shaders[i];
                    let mut text = String::from_str("Attaching ");
                    text.append(shader.kind.to_string().as_str());
                    text.append(" shader");
                    gl.info(text);
                    gl.record(Request::AttachShader { program, shader: shader.id });
                    i += 1;
                    proof {
                        let longer = shaders@.take(i as int);
                        assert(longer.drop_last() == shaders@.take(i - 1));
                        assert(longer.last() == shader);
                        assert(gl@ =~= old(gl)@ + attach_requests(program, longer));
                    }
                }
                assert(shaders@.take(i as int) == shaders@);
                gl.record(Request::LinkProgram { program });
                gl.record(
                    Request::GetProgramiv { program, pname: gl::LINK_STATUS, initial: gl::TRUE },
                );
                assert(gl@ =~= old(gl)@ + self@.emits(reply));
                Step::Ask(
                    PendingProgram::Status { program: ShaderProgram { id: program, label }, shaders },
                )
            },
            PendingProgram::Status { program, shaders } => {
                if reply.integer(gl::TRUE) == gl::FALSE {
                    gl.record(
                        Request::GetProgramiv {
                            program: program.id,
                            pname: gl::INFO_LOG_LENGTH,
                            initial: 0,
                        },
                    );
                    assert(gl@ =~= old(gl)@ + self@.emits(reply));
                    Step::Ask(PendingProgram::LogLength { program: program.id })
                } else {
                    let mut i: usize = 0;
                    while i < shaders.len()
                        invariant
                            i <= shaders.len(),
                            gl@ == old(gl)@ + detach_requests(program.id, shaders@.take(i as int)),
                        decreases shaders.len() - i,
                    {
                        gl.record(
                            Request::DetachShader { program: program.id, shader: shaders[i].id },
                        );
                        i += 1;
                        assert(gl@ =~= old(gl)@ + detach_requests(
                            program.id,
                            shaders@.take(i as int),
                        ));
                    }
                    assert(shaders@.take(i as int) == shaders@);
                    Step::Done(Ok(program))
                }
            },
            PendingProgram::LogLength { program } => {
                let length = reply.integer(0);
                let buffer = Gl::create_whitespace_cstring(length as usize);
                gl.record(Request::GetProgramInfoLog { program, length, buffer });
                assert(gl@ =~= old(gl)@ + self@.emits(reply));
                Step::Ask(PendingProgram::Log { program, length })
            },
            PendingProgram::Log { program, length } => {
                assert(gl@ =~= old(gl)@ + self@.emits(reply));
                let bytes = reply.bytes(Gl::create_whitespace_cstring(length as usize));
                Step::Done(Err(GlError::ShaderProgram(text::lossy(bytes.as_slice()))))
            },
        }
    }
}

impl PendingRaw {
    /// Whether the making can go on with the answer `reply`.
    pub fn can_resume(&self, reply: &Reply) -> (accepted: bool)
        ensures
            accepted == self@.accepts(*reply),
    {
        match self {
            PendingRaw::Compiling { current, .. } => current.can_resume(reply),
            PendingRaw::Linking { inner, .. } => inner.can_resume(reply),
        }
    }

    /// Goes on with the making of the program after the answer `reply` to the request that it
    /// waited for.
    pub fn resume(self, gl: &mut Gl, reply: Reply) -> (step: Step<
        PendingRaw,
        Result<ShaderProgram, GlError>,
    >)
        requires
            self@.accepts(reply),
        ensures
            step.seen() == self@.next(reply),
            final(gl)@ == old(gl)@ + self@.emits(reply),
    {
        match self {
            PendingRaw::Compiling { current, compiled, rest, label } => {
                match current.resume(gl, reply) {
                    Step::Ask(current) => Step::Ask(
                        PendingRaw::Compiling { current, compiled, rest, label },
                    ),
                    Step::Done(Ok(shader)) => {
                        let ghost before = seen_shaders(compiled@);
                        let mut compiled = compiled;
                        compiled.push(shader);
                        assert(seen_shaders(compiled@) =~= before.push(shader@));
                        let step = ShaderProgram::turn(gl, compiled, rest, label);
                        assert(gl@ =~= old(gl)@ + self@.emits(reply));
                        step
                    },
                    Step::Done(Err(error)) => {
                        release_all(gl, &compiled);
                        assert(gl@ =~= old(gl)@ + self@.emits(reply));
                        Step::Done(Err(error))
                    },
                }
            },
            PendingRaw::Linking { inner, compiled } => {
                match inner.resume(gl, reply) {
                    Step::Ask(inner) => Step::Ask(PendingRaw::Linking { inner, compiled }),
                    Step::Done(result) => {
                        release_all(gl, &compiled);
                        assert(gl@ =~= old(gl)@ + self@.emits(reply));
                        Step::Done(result)
                    },
                }
            },
        }
    }
}

impl Cleanup for ShaderProgram {
    open spec fn release(&self) -> Seq<RequestView> {
        self@.release()
    }

    fn cleanup(&self, gl: &mut Gl) {
        gl.record(Request::DeleteProgram { program: self.id });
        assert(gl@ =~= old(gl)@ + self.release());
    }
}

impl Label for ShaderProgram {
    open spec fn label_text(&self) -> Seq<char> {
        self@.label
    }

    fn label(&self) -> (label: String) {
        self.label.clone()
    }
}

} // verus!
