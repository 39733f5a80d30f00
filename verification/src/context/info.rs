//! What a context tells of itself: its version, its maker, its extensions.

use crate::context::{asks, gl, Gl, Reply, Request, RequestView, Step};
use crate::glenums::{ContextFlags, ContextProfile, GetString};
use crate::text;
use vstd::prelude::*;

verus! {

/// The version of the graphics interface that a context implements.
#[derive(Debug, Clone, Copy, PartialEq, Eq, Structural)]
pub struct ApiVersion {
    pub major: u32,
    pub minor: u32,
}

impl View for ApiVersion {
    type V = ApiVersion;

    open spec fn view(&self) -> ApiVersion {
        *self
    }
}

/// A version on its way: what the asking waits for.
#[derive(Debug, Clone, Copy, PartialEq, Eq, Structural)]
pub enum PendingVersion {
    /// The major version was asked for.
    Major,
    /// The minor version was asked for.
    Minor { major: u32 },
}

impl View for PendingVersion {
    type V = PendingVersion;

    open spec fn view(&self) -> PendingVersion {
        *self
    }
}

impl ApiVersion {
    /// The text that shows the version.
    pub open spec fn text(self) -> Seq<char> {
        "OpenGL v"@ + text::decimal(self.major as nat) + "."@ + text::decimal(self.minor as nat)
    }

    /// Starts the asking for the version: asks for the major version.
    pub fn new(gl: &mut Gl) -> (pending: PendingVersion)
        ensures
            pending == PendingVersion::Major,
            final(gl)@ == old(gl)@.push(RequestView::GetIntegerv { pname: gl::MAJOR_VERSION }),
    {
        gl.record(Request::GetIntegerv { pname: gl::MAJOR_VERSION });
        PendingVersion::Major
    }

    /// The text that shows the version.
    pub fn to_string(&self) -> (text: String)
        ensures
            text@ == self.text(),
    {
        let mut text = String::from_str("OpenGL v");
        text.append(text::to_decimal(self.major).as_str());
        text.append(".");
        text.append(text::to_decimal(self.minor).as_str());
        text
    }
}

impl PendingVersion {
    /// Where the asking stands after the answer `reply`: a number of the version is the
    /// integer of the answer, taken as unsigned.
    pub open spec fn next(self, reply: Reply) -> Step<PendingVersion, ApiVersion> {
        match self {
            PendingVersion::Major => Step::Ask(
                PendingVersion::Minor { major: reply.spec_integer(0) as u32 },
            ),
            PendingVersion::Minor { major } => Step::Done(
                ApiVersion { major, minor: reply.spec_integer(0) as u32 },
            ),
        }
    }

    /// What the asking records on the answer `reply`.
    pub open spec fn emits(self, reply: Reply) -> Seq<RequestView> {
        match self {
            PendingVersion::Major => seq![RequestView::GetIntegerv { pname: gl::MINOR_VERSION }],
            PendingVersion::Minor { .. } => Seq::empty(),
        }
    }

    /// Goes on with the asking after the answer `reply` to the request that it waited for.
    pub fn resume(self, gl: &mut Gl, reply: Reply) -> (step: Step<PendingVersion, ApiVersion>)
        ensures
            step == self.next(reply),
            final(gl)@ == old(gl)@ + self.emits(reply),
    {
        match self {
            PendingVersion::Major => {
                gl.record(Request::GetIntegerv { pname: gl::MINOR_VERSION });
                assert(gl@ =~= old(gl)@ + self.emits(reply));
                Step::Ask(PendingVersion::Minor { major: reply.integer(0) as u32 })
            },
            PendingVersion::Minor { major } => {
                assert(gl@ =~= old(gl)@ + self.emits(reply));
                Step::Done(ApiVersion { major, minor: reply.integer(0) as u32 })
            },
        }
    }
}

/// What is known of a context.
#[derive(Debug, Clone)]
pub struct ContextInfo {
    pub version: ApiVersion,
    pub vendor: String,
    pub renderer: String,
    pub extensions: Vec<String>,
    pub profile: ContextProfile,
    pub flags: ContextFlags,
    pub glsl: String,
}

/// What is known of a context as contracts speak of it.
pub struct ContextInfoView {
    pub version: ApiVersion,
    pub vendor: Seq<char>,
    pub renderer: Seq<char>,
    pub extensions: Seq<Seq<char>>,
    pub profile: u32,
    pub flags: u32,
    pub glsl: Seq<char>,
}

/// The views of `texts`, in their order.
pub open spec fn seen_texts(texts: Seq<String>) -> Seq<Seq<char>> {
    Seq::new(texts.len(), |i: int| texts[i]@)
}

impl View for ContextInfo {
    type V = ContextInfoView;

    open spec fn view(&self) -> ContextInfoView {
        ContextInfoView {
            version: self.version,
            vendor: self.vendor@,
            renderer: self.renderer@,
            extensions: seen_texts(self.extensions@),
            profile: self.profile@,
            flags: self.flags@,
            glsl: self.glsl@,
        }
    }
}

/// The walk over the extensions of a context: `current` is the index of the extension that is
/// asked for next, `end` the number of extensions.
#[derive(Debug, Clone, Copy, PartialEq, Eq, Structural)]
pub struct ExtensionsIter {
    pub end: usize,
    pub current: usize,
}

impl ExtensionsIter {
    /// The walk from the first extension, with the number of extensions that the context
    /// yielded, taken as unsigned.
    pub fn iter(count: &Reply) -> (iter: Self)
        ensures
            iter == (ExtensionsIter { end: count.spec_integer(0) as usize, current: 0 }),
    {
        ExtensionsIter { end: count.integer(0) as usize, current: 0 }
    }

    /// Whether an extension is left to ask for.
    pub open spec fn more(self) -> bool {
        self.current < self.end
    }

    /// The walk after it has asked for an extension.
    pub open spec fn stepped(self) -> ExtensionsIter {
        if self.more() {
            ExtensionsIter { current: (self.current + 1) as usize, ..self }
        } else {
            self
        }
    }

    /// What the walk records for its next extension.
    pub open spec fn asks(self) -> Seq<RequestView> {
        if self.more() {
            seq![RequestView::GetStringi { name: gl::EXTENSIONS, index: self.current as u32 }]
        } else {
            Seq::empty()
        }
    }

    /// Asks for the next extension, if one is left, and says whether it did.
    pub fn next(&mut self, gl: &mut Gl) -> (asked: bool)
        ensures
            asked == old(self).more(),
            *final(self) == old(self).stepped(),
            final(gl)@ == old(gl)@ + old(self).asks(),
    {
        if self.current < self.end {
            gl.get_string(GetString::extensions(), Some(self.current));
            self.current += 1;
            assert(gl@ =~= old(gl)@ + old(self).asks());
            true
        } else {
            assert(gl@ =~= old(gl)@ + old(self).asks());
            false
        }
    }
}

/// What the asking for the details of a context waits for.
#[derive(Debug, Clone, Copy, PartialEq, Eq, Structural)]
pub enum InfoStage {
    Version(PendingVersion),
    Vendor,
    Renderer,
    Count,
    Extension(ExtensionsIter),
    Glsl,
    Profile,
    Flags,
}

/// The details of a context on their way: what the asking waits for, and what is known so far.
pub struct PendingInfo {
    pub stage: InfoStage,
    pub info: ContextInfo,
}

/// The pending details of a context as contracts speak of them.
pub struct PendingInfoView {
    pub stage: InfoStage,
    pub info: ContextInfoView,
}

impl View for PendingInfo {
    type V = PendingInfoView;

    open spec fn view(&self) -> PendingInfoView {
        PendingInfoView { stage: self.stage, info: self.info@ }
    }
}

/// The text of the string that the answer `reply` carries: the bytes read as UTF-8, or
/// nothing where the answer carries no string.
pub open spec fn text_of(reply: Reply) -> Seq<char> {
    match reply.spec_text() {
        Some(bytes) => text::utf8_lossy(bytes),
        None => Seq::empty(),
    }
}

fn read_text(reply: Reply) -> (text: String)
    ensures
        text@ == text_of(reply),
{
    match Gl::get_string_of(reply) {
        Some(text) => text,
        None => String::new(),
    }
}

impl ContextInfoView {
    /// What is known of a context before it was asked.
    pub open spec fn unknown() -> ContextInfoView {
        ContextInfoView {
            version: ApiVersion { major: 0, minor: 0 },
            vendor: Seq::empty(),
            renderer: Seq::empty(),
            extensions: Seq::empty(),
            profile: 0,
            flags: 0,
            glsl: Seq::empty(),
        }
    }
}

impl PendingInfoView {
    /// Where the asking stands once the walk `iter` over the extensions is to go on: at the
    /// next extension, or, after the last, at the version of the shading language.
    pub open spec fn walk(self, iter: ExtensionsIter) -> PendingInfoView {
        if iter.more() {
            PendingInfoView { stage: InfoStage::Extension(iter.stepped()), ..self }
        } else {
            PendingInfoView { stage: InfoStage::Glsl, ..self }
        }
    }

    /// What the walk `iter` records as it goes on.
    pub open spec fn walk_asks(iter: ExtensionsIter) -> Seq<RequestView> {
        if iter.more() {
            iter.asks()
        } else {
            seq![RequestView::GetString { name: gl::SHADING_LANGUAGE_VERSION }]
        }
    }

    /// Where the asking stands after the answer `reply`. The details are asked for in the
    /// order: version, vendor, renderer, number of extensions, each extension, version of the
    /// shading language, profile, flags. The walk over the extensions ends at the first
    /// extension for which the context has no string.
    pub open spec fn next(self, reply: Reply) -> Step<PendingInfoView, ContextInfoView> {
        match self.stage {
            InfoStage::Version(pending) => match pending.next(reply) {
                Step::Ask(pending) => Step::Ask(
                    PendingInfoView { stage: InfoStage::Version(pending), ..self },
                ),
                Step::Done(version) => Step::Ask(
                    PendingInfoView {
                        stage: InfoStage::Vendor,
                        info: ContextInfoView { version, ..self.info },
                    },
                ),
            },
            InfoStage::Vendor => Step::Ask(
                PendingInfoView {
                    stage: InfoStage::Renderer,
                    info: ContextInfoView { vendor: text_of(reply), ..self.info },
                },
            ),
            InfoStage::Renderer => Step::Ask(
                PendingInfoView {
                    stage: InfoStage::Count,
                    info: ContextInfoView { renderer: text_of(reply), ..self.info },
                },
            ),
            InfoStage::Count => Step::Ask(
                self.walk(ExtensionsIter { end: reply.spec_integer(0) as usize, current: 0 }),
            ),
            InfoStage::Extension(iter) => match reply.spec_text() {
                Some(bytes) => Step::Ask(
                    PendingInfoView {
                        info: ContextInfoView {
                            extensions: self.info.extensions.push(text::utf8_lossy(bytes)),
                            ..self.info
                        },
                        ..self
                    }.walk(iter),
                ),
                None => Step::Ask(PendingInfoView { stage: InfoStage::Glsl, ..self }),
            },
            InfoStage::Glsl => Step::Ask(
                PendingInfoView {
                    stage: InfoStage::Profile,
                    info: ContextInfoView { glsl: text_of(reply), ..self.info },
                },
            ),
            InfoStage::Profile => Step::Ask(
                PendingInfoView {
                    stage: InfoStage::Flags,
                    info: ContextInfoView {
                        profile: (reply.spec_integer(0) as u32) & ContextProfile::all_bits(),
                        ..self.info
                    },
                },
            ),
            InfoStage::Flags => Step::Done(
                ContextInfoView {
                    flags: (reply.spec_integer(0) as u32) & ContextFlags::all_bits(),
                    ..self.info
                },
            ),
        }
    }

    /// How many answers the asking waits for at most, this one not counted. Before the number
    /// of the extensions is known, every number that the context could yield is allowed for.
    pub open spec fn rank(self) -> nat {
        match self.stage {
            InfoStage::Version(PendingVersion::Major) => (usize::MAX + 8) as nat,
            InfoStage::Version(PendingVersion::Minor { .. }) => (usize::MAX + 7) as nat,
            InfoStage::Vendor => (usize::MAX + 6) as nat,
            InfoStage::Renderer => (usize::MAX + 5) as nat,
            InfoStage::Count => (usize::MAX + 4) as nat,
            InfoStage::Extension(iter) => if iter.more() {
                (iter.end - iter.current + 3) as nat
            } else {
                3
            },
            InfoStage::Glsl => 2,
            InfoStage::Profile => 1,
            InfoStage::Flags => 0,
        }
    }

    /// Each answer brings the asking nearer to its end: the walk over the extensions ends.
    pub proof fn lemma_progress(self, reply: Reply)
        ensures
            self.next(reply) matches Step::Ask(next) ==> next.rank() < self.rank(),
    {
    }

    /// Where the asking asks, the last request that it recorded yields the value that it waits
    /// for.
    pub proof fn lemma_asks(self, reply: Reply)
        ensures
            self.next(reply) is Ask ==> asks(self.emits(reply)),
    {
    }

    /// What the asking records on the answer `reply`.
    pub open spec fn emits(self, reply: Reply) -> Seq<RequestView> {
        match self.stage {
            InfoStage::Version(pending) => match pending.next(reply) {
                Step::Ask(_) => pending.emits(reply),
                Step::Done(_) => pending.emits(reply) + seq![
                    RequestView::GetString { name: gl::VENDOR },
                ],
            },
            InfoStage::Vendor => seq![RequestView::GetString { name: gl::RENDERER }],
            InfoStage::Renderer => seq![RequestView::GetIntegerv { pname: gl::NUM_EXTENSIONS }],
            InfoStage::Count => Self::walk_asks(
                ExtensionsIter { end: reply.spec_integer(0) as usize, current: 0 },
            ),
            InfoStage::Extension(iter) => match reply.spec_text() {
                Some(_) => Self::walk_asks(iter),
                None => seq![RequestView::GetString { name: gl::SHADING_LANGUAGE_VERSION }],
            },
            InfoStage::Glsl => seq![RequestView::GetIntegerv { pname: gl::CONTEXT_PROFILE_MASK }],
            InfoStage::Profile => seq![RequestView::GetIntegerv { pname: gl::CONTEXT_FLAGS }],
            InfoStage::Flags => Seq::empty(),
        }
    }
}

impl ContextInfo {
    /// The asking for the details of a context as it waits at its start.
    pub open spec fn first() -> PendingInfoView {
        PendingInfoView {
            stage: InfoStage::Version(PendingVersion::Major),
            info: ContextInfoView::unknown(),
        }
    }

    /// Starts the asking for the details of a context: asks for the major version.
    pub fn new(gl: &mut Gl) -> (pending: PendingInfo)
        ensures
            pending@ == Self::first(),
            final(gl)@ == old(gl)@.push(RequestView::GetIntegerv { pname: gl::MAJOR_VERSION }),
    {
        let version = ApiVersion::new(gl);
        let info = ContextInfo {
            version: ApiVersion { major: 0, minor: 0 },
            vendor: String::new(),
            renderer: String::new(),
            extensions: Vec::new(),
            profile: ContextProfile::empty(),
            flags: ContextFlags::empty(),
            glsl: String::new(),
        };
        assert(info@.extensions =~= Seq::empty());
        PendingInfo { stage: InfoStage::Version(version), info }
    }
}

impl PendingInfo {
    fn walk(self, gl: &mut Gl, iter: ExtensionsIter) -> (pending: PendingInfo)
        ensures
            pending@ == self@.walk(iter),
            final(gl)@ == old(gl)@ + PendingInfoView::walk_asks(iter),
    {
        let mut iter = iter;
        if iter.next(gl) {
            PendingInfo { stage: InfoStage::Extension(iter), info: self.info }
        } else {
            gl.get_string(GetString::glsl_version(), None);
            assert(gl@ =~= old(gl)@ + PendingInfoView::walk_asks(iter));
            PendingInfo { stage: InfoStage::Glsl, info: self.info }
        }
    }

    /// Goes on with the asking after the answer `reply` to the request that it waited for.
    pub fn resume(self, gl: &mut Gl, reply: Reply) -> (step: Step<PendingInfo, ContextInfo>)
        ensures
            step.shown() == self@.next(reply),
            final(gl)@ == old(gl)@ + self@.emits(reply),
    {
        let mut info = self.info;
        match self.stage {
            InfoStage::Version(pending) => match pending.resume(gl, reply) {
                Step::Ask(pending) => Step::Ask(
                    PendingInfo { stage: InfoStage::Version(pending), info },
                ),
                Step::Done(version) => {
                    gl.get_string(GetString::vendor(), None);
                    assert(gl@ =~= old(gl)@ + self@.emits(reply));
                    info.version = version;
                    Step::Ask(PendingInfo { stage: InfoStage::Vendor, info })
                },
            },
            InfoStage::Vendor => {
                gl.get_string(GetString::renderer(), None);
                assert(gl@ =~= old(gl)@ + self@.emits(reply));
                info.vendor = read_text(reply);
                Step::Ask(PendingInfo { stage: InfoStage::Renderer, info })
            },
            InfoStage::Renderer => {
                gl.record(Request::GetIntegerv { pname: gl::NUM_EXTENSIONS });
                assert(gl@ =~= old(gl)@ + self@.emits(reply));
                info.renderer = read_text(reply);
                Step::Ask(PendingInfo { stage: InfoStage::Count, info })
            },
            InfoStage::Count => {
                let iter = ExtensionsIter::iter(&reply);
                Step::Ask(PendingInfo { stage: self.stage, info }.walk(gl, iter))
            },
            InfoStage::Extension(iter) => match Gl::get_string_of(reply) {
                Some(extension) => {
                    let ghost before = seen_texts(info.extensions@);
                    info.extensions.push(extension);
                    assert(seen_texts(info.extensions@) =~= before.push(extension@));
                    Step::Ask(PendingInfo { stage: self.stage, info }.walk(gl, iter))
                },
                None => {
                    gl.get_string(GetString::glsl_version(), None);
                    assert(gl@ =~= old(gl)@ + self@.emits(reply));
                    Step::Ask(PendingInfo { stage: InfoStage::Glsl, info })
                },
            },
            InfoStage::Glsl => {
                gl.record(Request::GetIntegerv { pname: gl::CONTEXT_PROFILE_MASK });
                assert(gl@ =~= old(gl)@ + self@.emits(reply));
                info.glsl = read_text(reply);
                Step::Ask(PendingInfo { stage: InfoStage::Profile, info })
            },
            InfoStage::Profile => {
                gl.record(Request::GetIntegerv { pname: gl::CONTEXT_FLAGS });
                assert(gl@ =~= old(gl)@ + self@.emits(reply));
                info.profile = ContextProfile::from_bits_truncate(reply.integer(0) as u32);
                Step::Ask(PendingInfo { stage: InfoStage::Flags, info })
            },
            InfoStage::Flags => {
                assert(gl@ =~= old(gl)@ + self@.emits(reply));
                info.flags = ContextFlags::from_bits_truncate(reply.integer(0) as u32);
                Step::Done(info)
            },
        }
    }
}

} // verus!
