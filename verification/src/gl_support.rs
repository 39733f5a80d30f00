//! The context with a register of its programs, and the filters of the debug output as plain
//! enumerations. The sources and the kinds are declared in the order of their enumerants,
//! which is the order that their comparisons go by.

use crate::cleanup::Cleanup;
use crate::context;
use crate::context::{gl, Reply, Request, RequestView, Size, Step};
use crate::glenums::{BufferTarget, BufferUsage};
use crate::label::Label;
use crate::memory::classicvao::ClassicVaoView;
use crate::memory::stateful::BufferView;
use crate::memory::{
    classic_setup, unnamed_buffer, ClassicBuffer, ClassicVao, GpuDataVerts, PendingClassicBuffer,
    PendingClassicVao,
};
use crate::shaders::datatypes::vertex::{HALF, ONE, ZERO};
use crate::shaders::datatypes::Triangle;
use crate::shaders::shaderprogram::seen_programs;
use crate::shaders::{ShaderProgram, ShaderProgramView};
use crate::text;
use vstd::prelude::*;

verus! {

/// Importance of a debug message.
#[derive(Clone, Copy, Debug, PartialEq, Eq, Structural)]
pub enum DebugSeverity {
    /// Any severity.
    DontCare,
    /// Errors and undefined behaviour.
    High,
    /// Performance warnings and deprecated functionality.
    Medium,
    /// Redundant state changes and other small mistakes.
    Low,
    /// Everything else.
    Notification,
}

impl DebugSeverity {
    /// The enumerant of the value.
    pub open spec fn spec_bits(self) -> u32 {
        match self {
            DebugSeverity::DontCare => gl::DONT_CARE,
            DebugSeverity::High => gl::DEBUG_SEVERITY_HIGH,
            DebugSeverity::Medium => gl::DEBUG_SEVERITY_MEDIUM,
            DebugSeverity::Low => gl::DEBUG_SEVERITY_LOW,
            DebugSeverity::Notification => gl::DEBUG_SEVERITY_NOTIFICATION,
        }
    }

    /// The name of the value.
    pub open spec fn spec_name(self) -> Seq<char> {
        match self {
            DebugSeverity::DontCare => "DontCare"@,
            DebugSeverity::High => "High"@,
            DebugSeverity::Medium => "Medium"@,
            DebugSeverity::Low => "Low"@,
            DebugSeverity::Notification => "Notification"@,
        }
    }

    /// The value that the enumerant `bits` stands for; the wildcard where it stands for none.
    pub open spec fn of(bits: u32) -> DebugSeverity {
        if bits == gl::DEBUG_SEVERITY_HIGH {
            DebugSeverity::High
        } else if bits == gl::DEBUG_SEVERITY_MEDIUM {
            DebugSeverity::Medium
        } else if bits == gl::DEBUG_SEVERITY_LOW {
            DebugSeverity::Low
        } else if bits == gl::DEBUG_SEVERITY_NOTIFICATION {
            DebugSeverity::Notification
        } else {
            DebugSeverity::DontCare
        }
    }

    /// The enumerants of `all` in one.
    pub open spec fn all_bits() -> u32 {
        gl::DEBUG_SEVERITY_HIGH | gl::DEBUG_SEVERITY_MEDIUM | gl::DEBUG_SEVERITY_LOW | gl::DEBUG_SEVERITY_NOTIFICATION
    }

    /// The enumerant of the value.
    #[verifier::when_used_as_spec(spec_bits)]
    pub fn bits(self) -> (bits: u32)
        ensures
            bits == self.spec_bits(),
    {
        match self {
            DebugSeverity::DontCare => gl::DONT_CARE,
            DebugSeverity::High => gl::DEBUG_SEVERITY_HIGH,
            DebugSeverity::Medium => gl::DEBUG_SEVERITY_MEDIUM,
            DebugSeverity::Low => gl::DEBUG_SEVERITY_LOW,
            DebugSeverity::Notification => gl::DEBUG_SEVERITY_NOTIFICATION,
        }
    }

    /// The name of the value.
    pub fn name(self) -> (name: &'static str)
        ensures
            name@ == self.spec_name(),
    {
        match self {
            DebugSeverity::DontCare => "DontCare",
            DebugSeverity::High => "High",
            DebugSeverity::Medium => "Medium",
            DebugSeverity::Low => "Low",
            DebugSeverity::Notification => "Notification",
        }
    }

    /// The bitwise or of the enumerants of every value that names something.
    pub fn all() -> (bits: u32)
        ensures
            bits == Self::all_bits(),
    {
        DebugSeverity::High
            | DebugSeverity::Medium
            | DebugSeverity::Low
            | DebugSeverity::Notification
    }
}

impl Default for DebugSeverity {
    /// The wildcard.
    fn default() -> (value: Self)
        ensures
            value == DebugSeverity::DontCare,
    {
        DebugSeverity::DontCare
    }
}

impl From<u32> for DebugSeverity {
    fn from(other: u32) -> (value: Self) {
        if other == gl::DEBUG_SEVERITY_HIGH {
            DebugSeverity::High
        } else if other == gl::DEBUG_SEVERITY_MEDIUM {
            DebugSeverity::Medium
        } else if other == gl::DEBUG_SEVERITY_LOW {
            DebugSeverity::Low
        } else if other == gl::DEBUG_SEVERITY_NOTIFICATION {
            DebugSeverity::Notification
        } else {
            DebugSeverity::DontCare
        }
    }
}

impl vstd::std_specs::convert::FromSpecImpl<u32> for DebugSeverity {
    open spec fn obeys_from_spec() -> bool {
        true
    }

    open spec fn from_spec(other: u32) -> Self {
        Self::of(other)
    }
}

impl core::ops::BitOr<DebugSeverity> for DebugSeverity {
    type Output = u32;

    fn bitor(self, rhs: Self) -> (bits: u32) {
        self.bits() | rhs.bits()
    }
}

impl vstd::std_specs::ops::BitOrSpecImpl<DebugSeverity> for DebugSeverity {
    open spec fn obeys_bitor_spec() -> bool {
        true
    }

    open spec fn bitor_req(self, rhs: DebugSeverity) -> bool {
        true
    }

    open spec fn bitor_spec(self, rhs: DebugSeverity) -> u32 {
        self.spec_bits() | rhs.spec_bits()
    }
}

impl core::ops::BitOr<DebugSeverity> for u32 {
    type Output = u32;

    fn bitor(self, rhs: DebugSeverity) -> (bits: u32) {
        self | rhs.bits()
    }
}

impl vstd::std_specs::ops::BitOrSpecImpl<DebugSeverity> for u32 {
    open spec fn obeys_bitor_spec() -> bool {
        true
    }

    open spec fn bitor_req(self, rhs: DebugSeverity) -> bool {
        true
    }

    open spec fn bitor_spec(self, rhs: DebugSeverity) -> u32 {
        self | rhs.spec_bits()
    }
}

/// Origin of a debug message.
#[derive(Clone, Copy, Debug, PartialEq, Eq, Structural, PartialOrd, Ord)]
pub enum DebugSource {
    /// Any source.
    DontCare,
    /// Calls of the graphics interface.
    Api,
    /// Calls of a windowing interface.
    WindowSystem,
    /// The shader compiler.
    ShaderCompiler,
    /// An application associated with the graphics interface.
    ThirdParty,
    /// Messages of the user.
    Application,
    /// Anything else.
    Other,
}

impl DebugSource {
    /// The enumerant of the value.
    pub open spec fn spec_bits(self) -> u32 {
        match self {
            DebugSource::DontCare => gl::DONT_CARE,
            DebugSource::Api => gl::DEBUG_SOURCE_API,
            DebugSource::WindowSystem => gl::DEBUG_SOURCE_WINDOW_SYSTEM,
            DebugSource::ShaderCompiler => gl::DEBUG_SOURCE_SHADER_COMPILER,
            DebugSource::ThirdParty => gl::DEBUG_SOURCE_THIRD_PARTY,
            DebugSource::Application => gl::DEBUG_SOURCE_APPLICATION,
            DebugSource::Other => gl::DEBUG_SOURCE_OTHER,
        }
    }

    /// The name of the value.
    pub open spec fn spec_name(self) -> Seq<char> {
        match self {
            DebugSource::DontCare => "DontCare"@,
            DebugSource::Api => "Api"@,
            DebugSource::WindowSystem => "WindowSystem"@,
            DebugSource::ShaderCompiler => "ShaderCompiler"@,
            DebugSource::ThirdParty => "ThirdParty"@,
            DebugSource::Application => "Application"@,
            DebugSource::Other => "Other"@,
        }
    }

    /// The value that the enumerant `bits` stands for; the wildcard where it stands for none.
    pub open spec fn of(bits: u32) -> DebugSource {
        if bits == gl::DEBUG_SOURCE_API {
            DebugSource::Api
        } else if bits == gl::DEBUG_SOURCE_SHADER_COMPILER {
            DebugSource::WindowSystem
        } else if bits == gl::DEBUG_SOURCE_THIRD_PARTY {
            DebugSource::ThirdParty
        } else if bits == gl::DEBUG_SOURCE_APPLICATION {
            DebugSource::Application
        } else if bits == gl::DEBUG_SOURCE_OTHER {
            DebugSource::Other
        } else {
            DebugSource::DontCare
        }
    }

    /// The enumerants of `all` in one.
    pub open spec fn all_bits() -> u32 {
        gl::DEBUG_SOURCE_API | gl::DEBUG_SOURCE_WINDOW_SYSTEM | gl::DEBUG_SOURCE_SHADER_COMPILER | gl::DEBUG_SOURCE_APPLICATION | gl::DEBUG_SOURCE_OTHER
    }

    /// The enumerant of the value.
    #[verifier::when_used_as_spec(spec_bits)]
    pub fn bits(self) -> (bits: u32)
        ensures
            bits == self.spec_bits(),
    {
        match self {
            DebugSource::DontCare => gl::DONT_CARE,
            DebugSource::Api => gl::DEBUG_SOURCE_API,
            DebugSource::WindowSystem => gl::DEBUG_SOURCE_WINDOW_SYSTEM,
            DebugSource::ShaderCompiler => gl::DEBUG_SOURCE_SHADER_COMPILER,
            DebugSource::ThirdParty => gl::DEBUG_SOURCE_THIRD_PARTY,
            DebugSource::Application => gl::DEBUG_SOURCE_APPLICATION,
            DebugSource::Other => gl::DEBUG_SOURCE_OTHER,
        }
    }

    /// The name of the value.
    pub fn name(self) -> (name: &'static str)
        ensures
            name@ == self.spec_name(),
    {
        match self {
            DebugSource::DontCare => "DontCare",
            DebugSource::Api => "Api",
            DebugSource::WindowSystem => "WindowSystem",
            DebugSource::ShaderCompiler => "ShaderCompiler",
            DebugSource::ThirdParty => "ThirdParty",
            DebugSource::Application => "Application",
            DebugSource::Other => "Other",
        }
    }

    /// The bitwise or of the enumerants of every value that names something.
    pub fn all() -> (bits: u32)
        ensures
            bits == Self::all_bits(),
    {
        DebugSource::Api
            | DebugSource::WindowSystem
            | DebugSource::ShaderCompiler
            | DebugSource::Application
            | DebugSource::Other
    }
}

impl Default for DebugSource {
    /// The wildcard.
    fn default() -> (value: Self)
        ensures
            value == DebugSource::DontCare,
    {
        DebugSource::DontCare
    }
}

impl From<u32> for DebugSource {
    fn from(other: u32) -> (value: Self) {
        if other == gl::DEBUG_SOURCE_API {
            DebugSource::Api
        } else if other == gl::DEBUG_SOURCE_SHADER_COMPILER {
            DebugSource::WindowSystem
        } else if other == gl::DEBUG_SOURCE_THIRD_PARTY {
            DebugSource::ThirdParty
        } else if other == gl::DEBUG_SOURCE_APPLICATION {
            DebugSource::Application
        } else if other == gl::DEBUG_SOURCE_OTHER {
            DebugSource::Other
        } else {
            DebugSource::DontCare
        }
    }
}

impl vstd::std_specs::convert::FromSpecImpl<u32> for DebugSource {
    open spec fn obeys_from_spec() -> bool {
        true
    }

    open spec fn from_spec(other: u32) -> Self {
        Self::of(other)
    }
}

impl core::ops::BitOr<DebugSource> for DebugSource {
    type Output = u32;

    fn bitor(self, rhs: Self) -> (bits: u32) {
        self.bits() | rhs.bits()
    }
}

impl vstd::std_specs::ops::BitOrSpecImpl<DebugSource> for DebugSource {
    open spec fn obeys_bitor_spec() -> bool {
        true
    }

    open spec fn bitor_req(self, rhs: DebugSource) -> bool {
        true
    }

    open spec fn bitor_spec(self, rhs: DebugSource) -> u32 {
        self.spec_bits() | rhs.spec_bits()
    }
}

impl core::ops::BitOr<DebugSource> for u32 {
    type Output = u32;

    fn bitor(self, rhs: DebugSource) -> (bits: u32) {
        self | rhs.bits()
    }
}

impl vstd::std_specs::ops::BitOrSpecImpl<DebugSource> for u32 {
    open spec fn obeys_bitor_spec() -> bool {
        true
    }

    open spec fn bitor_req(self, rhs: DebugSource) -> bool {
        true
    }

    open spec fn bitor_spec(self, rhs: DebugSource) -> u32 {
        self | rhs.spec_bits()
    }
}

/// Kind of a debug message.
#[derive(Clone, Copy, Debug, PartialEq, Eq, Structural, PartialOrd, Ord)]
pub enum DebugType {
    /// Any kind.
    DontCare,
    /// An error of the interface.
    Error,
    /// A deprecated call.
    Deprecated,
    /// Undefined behaviour.
    Undefined,
    /// An operation that may not be portable.
    Portability,
    /// Code that may perform badly.
    Performance,
    /// Everything else.
    Other,
    /// An event meant for debuggers and other tools.
    Marker,
    /// The start of a group.
    Push,
    /// The end of a group.
    Pop,
}

impl DebugType {
    /// The enumerant of the value.
    pub open spec fn spec_bits(self) -> u32 {
        match self {
            DebugType::DontCare => gl::DONT_CARE,
            DebugType::Error => gl::DEBUG_TYPE_ERROR,
            DebugType::Deprecated => gl::DEBUG_TYPE_DEPRECATED_BEHAVIOR,
            DebugType::Undefined => gl::DEBUG_TYPE_UNDEFINED_BEHAVIOR,
            DebugType::Portability => gl::DEBUG_TYPE_PORTABILITY,
            DebugType::Performance => gl::DEBUG_TYPE_PERFORMANCE,
            DebugType::Other => gl::DEBUG_TYPE_OTHER,
            DebugType::Marker => gl::DEBUG_TYPE_MARKER,
            DebugType::Push => gl::DEBUG_TYPE_PUSH_GROUP,
            DebugType::Pop => gl::DEBUG_TYPE_POP_GROUP,
        }
    }

    /// The name of the value.
    pub open spec fn spec_name(self) -> Seq<char> {
        match self {
            DebugType::DontCare => "DontCare"@,
            DebugType::Error => "Error"@,
            DebugType::Deprecated => "Deprecated"@,
            DebugType::Undefined => "Undefined"@,
            DebugType::Portability => "Portability"@,
            DebugType::Performance => "Performance"@,
            DebugType::Other => "Other"@,
            DebugType::Marker => "Marker"@,
            DebugType::Push => "Push"@,
            DebugType::Pop => "Pop"@,
        }
    }

    /// The value that the enumerant `bits` stands for; the wildcard where it stands for none.
    pub open spec fn of(bits: u32) -> DebugType {
        if bits == gl::DEBUG_TYPE_ERROR {
            DebugType::Error
        } else if bits == gl::DEBUG_TYPE_DEPRECATED_BEHAVIOR {
            DebugType::Deprecated
        } else if bits == gl::DEBUG_TYPE_UNDEFINED_BEHAVIOR {
            DebugType::Undefined
        } else if bits == gl::DEBUG_TYPE_PORTABILITY {
            DebugType::Portability
        } else if bits == gl::DEBUG_TYPE_PERFORMANCE {
            DebugType::Performance
        } else if bits == gl::DEBUG_TYPE_MARKER {
            DebugType::Marker
        } else if bits == gl::DEBUG_TYPE_PUSH_GROUP {
            DebugType::Push
        } else if bits == gl::DEBUG_TYPE_POP_GROUP {
            DebugType::Pop
        } else if bits == gl::DEBUG_TYPE_OTHER {
            DebugType::Other
        } else {
            DebugType::DontCare
        }
    }

    /// The enumerants of `all` in one.
    pub open spec fn all_bits() -> u32 {
        gl::DEBUG_TYPE_ERROR | gl::DEBUG_TYPE_DEPRECATED_BEHAVIOR | gl::DEBUG_TYPE_UNDEFINED_BEHAVIOR | gl::DEBUG_TYPE_PORTABILITY | gl::DEBUG_TYPE_PERFORMANCE | gl::DEBUG_TYPE_MARKER | gl::DEBUG_TYPE_PUSH_GROUP | gl::DEBUG_TYPE_POP_GROUP | gl::DEBUG_TYPE_OTHER
    }

    /// The enumerant of the value.
    #[verifier::when_used_as_spec(spec_bits)]
    pub fn bits(self) -> (bits: u32)
        ensures
            bits == self.spec_bits(),
    {
        match self {
            DebugType::DontCare => gl::DONT_CARE,
            DebugType::Error => gl::DEBUG_TYPE_ERROR,
            DebugType::Deprecated => gl::DEBUG_TYPE_DEPRECATED_BEHAVIOR,
            DebugType::Undefined => gl::DEBUG_TYPE_UNDEFINED_BEHAVIOR,
            DebugType::Portability => gl::DEBUG_TYPE_PORTABILITY,
            DebugType::Performance => gl::DEBUG_TYPE_PERFORMANCE,
            DebugType::Other => gl::DEBUG_TYPE_OTHER,
            DebugType::Marker => gl::DEBUG_TYPE_MARKER,
            DebugType::Push => gl::DEBUG_TYPE_PUSH_GROUP,
            DebugType::Pop => gl::DEBUG_TYPE_POP_GROUP,
        }
    }

    /// The name of the value.
    pub fn name(self) -> (name: &'static str)
        ensures
            name@ == self.spec_name(),
    {
        match self {
            DebugType::DontCare => "DontCare",
            DebugType::Error => "Error",
            DebugType::Deprecated => "Deprecated",
            DebugType::Undefined => "Undefined",
            DebugType::Portability => "Portability",
            DebugType::Performance => "Performance",
            DebugType::Other => "Other",
            DebugType::Marker => "Marker",
            DebugType::Push => "Push",
            DebugType::Pop => "Pop",
        }
    }

    /// The bitwise or of the enumerants of every value that names something.
    pub fn all() -> (bits: u32)
        ensures
            bits == Self::all_bits(),
    {
        DebugType::Error
            | DebugType::Deprecated
            | DebugType::Undefined
            | DebugType::Portability
            | DebugType::Performance
            | DebugType::Marker
            | DebugType::Push
            | DebugType::Pop
            | DebugType::Other
    }
}

impl Default for DebugType {
    /// The wildcard.
    fn default() -> (value: Self)
        ensures
            value == DebugType::DontCare,
    {
        DebugType::DontCare
    }
}

impl From<u32> for DebugType {
    fn from(other: u32) -> (value: Self) {
        if other == gl::DEBUG_TYPE_ERROR {
            DebugType::Error
        } else if other == gl::DEBUG_TYPE_DEPRECATED_BEHAVIOR {
            DebugType::Deprecated
        } else if other == gl::DEBUG_TYPE_UNDEFINED_BEHAVIOR {
            DebugType::Undefined
        } else if other == gl::DEBUG_TYPE_PORTABILITY {
            DebugType::Portability
        } else if other == gl::DEBUG_TYPE_PERFORMANCE {
            DebugType::Performance
        } else if other == gl::DEBUG_TYPE_MARKER {
            DebugType::Marker
        } else if other == gl::DEBUG_TYPE_PUSH_GROUP {
            DebugType::Push
        } else if other == gl::DEBUG_TYPE_POP_GROUP {
            DebugType::Pop
        } else if other == gl::DEBUG_TYPE_OTHER {
            DebugType::Other
        } else {
            DebugType::DontCare
        }
    }
}

impl vstd::std_specs::convert::FromSpecImpl<u32> for DebugType {
    open spec fn obeys_from_spec() -> bool {
        true
    }

    open spec fn from_spec(other: u32) -> Self {
        Self::of(other)
    }
}

impl core::ops::BitOr<DebugType> for DebugType {
    type Output = u32;

    fn bitor(self, rhs: Self) -> (bits: u32) {
        self.bits() | rhs.bits()
    }
}

impl vstd::std_specs::ops::BitOrSpecImpl<DebugType> for DebugType {
    open spec fn obeys_bitor_spec() -> bool {
        true
    }

    open spec fn bitor_req(self, rhs: DebugType) -> bool {
        true
    }

    open spec fn bitor_spec(self, rhs: DebugType) -> u32 {
        self.spec_bits() | rhs.spec_bits()
    }
}

impl core::ops::BitOr<DebugType> for u32 {
    type Output = u32;

    fn bitor(self, rhs: DebugType) -> (bits: u32) {
        self | rhs.bits()
    }
}

impl vstd::std_specs::ops::BitOrSpecImpl<DebugType> for u32 {
    open spec fn obeys_bitor_spec() -> bool {
        true
    }

    open spec fn bitor_req(self, rhs: DebugType) -> bool {
        true
    }

    open spec fn bitor_spec(self, rhs: DebugType) -> u32 {
        self | rhs.spec_bits()
    }
}

/// The context with its programs: the requests that the driver has not taken yet, and the
/// programs that were handed to the context, each to be found by its label. No two of the
/// programs have the same label.
pub struct Gl {
    pub inner: context::Gl,
    shaders: Programs,
}

/// Programs that are found by their labels: no two of them have the same label.
pub struct Programs {
    list: Vec<ShaderProgram>,
}

impl View for Programs {
    type V = Seq<ShaderProgramView>;

    closed spec fn view(&self) -> Seq<ShaderProgramView> {
        seen_programs(self.list@)
    }
}

/// The context with its programs as contracts speak of it.
pub struct GlView {
    pub requests: Seq<RequestView>,
    pub shaders: Seq<ShaderProgramView>,
}

impl View for Gl {
    type V = GlView;

    closed spec fn view(&self) -> GlView {
        GlView { requests: self.inner@, shaders: self.shaders@ }
    }
}

/// Whether no two of `programs` have the same label.
pub open spec fn distinct(programs: Seq<ShaderProgramView>) -> bool {
    forall|i: int, j: int|
        0 <= i < j < programs.len() ==> programs[i].label != programs[j].label
}

/// The place of the first of `programs` with the label `label`.
pub open spec fn place_of(programs: Seq<ShaderProgramView>, label: Seq<char>) -> Option<int>
    decreases programs.len(),
{
    if programs.len() == 0 {
        None
    } else if programs[0].label == label {
        Some(0int)
    } else {
        match place_of(programs.drop_first(), label) {
            Some(place) => Some(place + 1),
            None => None,
        }
    }
}

/// The program that is found by the label `label`: the first of `programs` with this label.
pub open spec fn found(programs: Seq<ShaderProgramView>, label: Seq<char>) -> Option<
    ShaderProgramView,
> {
    match place_of(programs, label) {
        Some(place) => Some(programs[place]),
        None => None,
    }
}

/// The programs once `program` is handed in: it takes the place of the program that was found
/// by its label, or the last place where none was.
pub open spec fn inserted(programs: Seq<ShaderProgramView>, program: ShaderProgramView) -> Seq<
    ShaderProgramView,
> {
    match place_of(programs, program.label) {
        Some(place) => programs.update(place, program),
        None => programs.push(program),
    }
}

/// The requests that release the program that gives way to one of the label `label`.
pub open spec fn replaced(programs: Seq<ShaderProgramView>, label: Seq<char>) -> Seq<RequestView> {
    match found(programs, label) {
        Some(program) => program.release(),
        None => Seq::empty(),
    }
}

/// The requests that release each of `programs`, in their order.
pub open spec fn released(programs: Seq<ShaderProgramView>) -> Seq<RequestView> {
    Seq::new(programs.len(), |i: int| RequestView::DeleteProgram { program: programs[i].id })
}

/// The place of a label is a place of the programs, the program there has the label, and no
/// program before it has.
pub proof fn lemma_place(programs: Seq<ShaderProgramView>, label: Seq<char>)
    ensures
        place_of(programs, label) matches Some(place) ==> 0 <= place < programs.len()
            && programs[place].label == label && forall|i: int|
            0 <= i < place ==> programs[i].label != label,
        place_of(programs, label) is None ==> forall|i: int|
            0 <= i < programs.len() ==> programs[i].label != label,
    decreases programs.len(),
{
    if programs.len() > 0 && programs[0].label != label {
        let rest = programs.drop_first();
        lemma_place(rest, label);
        match place_of(rest, label) {
            Some(place) => {
                assert forall|i: int| 0 <= i < place + 1 implies programs[i].label != label by {
                    if i > 0 {
                        assert(rest[i - 1] == programs[i]);
                    }
                }
            },
            None => {
                assert forall|i: int| 0 <= i < programs.len() implies programs[i].label
                    != label by {
                    if i > 0 {
                        assert(rest[i - 1] == programs[i]);
                    }
                }
            },
        }
    }
}

/// The first program with a label is at the place of the label.
pub proof fn lemma_first_place(programs: Seq<ShaderProgramView>, label: Seq<char>, place: int)
    requires
        0 <= place < programs.len(),
        programs[place].label == label,
        forall|i: int| 0 <= i < place ==> programs[i].label != label,
    ensures
        place_of(programs, label) == Some(place),
    decreases programs.len(),
{
    if place > 0 {
        let rest = programs.drop_first();
        assert forall|i: int| 0 <= i < place - 1 implies rest[i].label != label by {
            assert(rest[i] == programs[i + 1]);
        }
        lemma_first_place(rest, label, place - 1);
    }
}

/// A program that was handed in is found by its label, and every other label finds what it
/// found before.
pub proof fn lemma_inserted(
    programs: Seq<ShaderProgramView>,
    program: ShaderProgramView,
    label: Seq<char>,
)
    ensures
        found(inserted(programs, program), label) == if label == program.label {
            Some(program)
        } else {
            found(programs, label)
        },
{
    let after = inserted(programs, program);
    lemma_place(programs, program.label);
    lemma_place(programs, label);
    let place = match place_of(programs, program.label) {
        Some(place) => place,
        None => programs.len() as int,
    };
    assert(after.len() > place && after[place] == program);
    assert(forall|i: int| 0 <= i < after.len() && i != place ==> after[i] == programs[i]);
    if label == program.label {
        lemma_first_place(after, label, place);
    } else {
        match place_of(programs, label) {
            Some(other) => {
                lemma_first_place(after, label, other);
            },
            None => {
                lemma_place(after, label);
            },
        }
    }
}

/// Programs with labels of their own keep them when a program is handed in.
pub proof fn lemma_inserted_distinct(programs: Seq<ShaderProgramView>, program: ShaderProgramView)
    requires
        distinct(programs),
    ensures
        distinct(inserted(programs, program)),
{
    lemma_place(programs, program.label);
}

impl Programs {
    #[verifier::type_invariant]
    spec fn distinct_labels(self) -> bool {
        distinct(seen_programs(self.list@))
    }

    /// No program.
    pub fn new() -> (programs: Programs)
        ensures
            programs@ == Seq::<ShaderProgramView>::empty(),
    {
        let programs = Programs { list: Vec::new() };
        assert(seen_programs(programs.list@) =~= Seq::empty());
        programs
    }

    fn place(&self, label: &String) -> (place: Option<usize>)
        ensures
            place_of(self@, label@) == match place {
                Some(place) => Some(place as int),
                None => None,
            },
            place matches Some(p) ==> p < self.list@.len(),
    {
        let mut i: usize = 0;
        while i < self.list.len()
            invariant
                i <= self.list.len(),
                forall|j: int| 0 <= j < i ==> self@[j].label != label@,
            decreases self.list.len() - i,
        {
            if self.list[i].has_label(label) {
                proof {
                    lemma_first_place(self@, label@, i as int);
                }
                return Some(i);
            }
            i += 1;
        }
        proof {
            lemma_place(self@, label@);
        }
        None
    }

    /// Takes `program` in, in the place of the program that was found by its label, which is
    /// released, or in the last place where none was. Returns the programs and the place.
    pub fn insert(self, gl: &mut context::Gl, program: ShaderProgram) -> (kept: (Programs, usize))
        ensures
            distinct(self@),
            distinct(kept.0@),
            kept.0@ == inserted(self@, program@),
            kept.1 < kept.0@.len(),
            kept.0@[kept.1 as int] == program@,
            final(gl)@ == old(gl)@ + replaced(self@, program@.label),
    {
        let label = program.label();
        let ghost before = self@;
        proof {
            use_type_invariant(&self);
            lemma_place(before, label@);
            lemma_inserted_distinct(before, program@);
        }
        let found = self.place(&label);
        let mut list = self.list;
        let place = match found {
            Some(place) => {
                list[place].cleanup(gl);
                list.set(place, program);
                place
            },
            None => {
                list.push(program);
                assert(gl@ =~= old(gl)@ + replaced(before, label@));
                list.len() - 1
            },
        };
        assert(seen_programs(list@) =~= inserted(before, program@));
        (Programs { list }, place)
    }

    /// The program that is found by the label `name`.
    pub fn get(&self, name: &str) -> (program: Option<&ShaderProgram>)
        ensures
            distinct(self@),
            program is Some == found(self@, name@) is Some,
            program matches Some(p) ==> Some(p@) == found(self@, name@),
    {
        let label = String::from_str(name);
        proof {
            use_type_invariant(self);
            lemma_place(self@, label@);
        }
        match self.place(&label) {
            Some(place) => Some(&self.list[place]),
            None => None,
        }
    }

    /// The program at the place `place`.
    pub fn at(&self, place: usize) -> (program: &ShaderProgram)
        requires
            place < self@.len(),
        ensures
            program@ == self@[place as int],
    {
        &self.list[place]
    }
}

impl Cleanup for Programs {
    /// The programs are released, in the order of their places.
    open spec fn release(&self) -> Seq<RequestView> {
        released(self@)
    }

    fn cleanup(&self, gl: &mut context::Gl) {
        let mut i: usize = 0;
        while i < self.list.len()
            invariant
                i <= self.list.len(),
                gl@ == old(gl)@ + released(self@.take(i as int)),
            decreases self.list.len() - i,
        {
            self.list[i].cleanup(gl);
            i += 1;
            assert(gl@ =~= old(gl)@ + released(self@.take(i as int)));
        }
        assert(self@.take(i as int) == self@);
    }
}

impl Gl {
    /// A context with nothing recorded and no program.
    pub fn new() -> (gl: Gl)
        ensures
            gl@ == (GlView { requests: Seq::empty(), shaders: Seq::empty() }),
    {
        Gl { inner: context::Gl::new(), shaders: Programs::new() }
    }

    /// Hands a linked program to the context, which finds it by its label from now on. A
    /// program that was found by this label gives way and is released.
    pub fn insert_shader(&mut self, program: ShaderProgram) -> (kept: &ShaderProgram)
        ensures
            kept@ == program@,
            distinct(old(self)@.shaders),
            distinct(final(self)@.shaders),
            final(self)@.shaders == inserted(old(self)@.shaders, program@),
            final(self)@.requests == old(self)@.requests + replaced(
                old(self)@.shaders,
                program@.label,
            ),
    {
        let mut programs = Programs::new();
        core::mem::swap(&mut self.shaders, &mut programs);
        let (programs, place) = programs.insert(&mut self.inner, program);
        self.shaders = programs;
        self.shaders.at(place)
    }

    /// The program that is found by the label `name`.
    pub fn get_shader(&self, name: &str) -> (program: Option<&ShaderProgram>)
        ensures
            distinct(self@.shaders),
            program is Some == found(self@.shaders, name@) is Some,
            program matches Some(p) ==> Some(p@) == found(self@.shaders, name@),
    {
        self.shaders.get(name)
    }

    /// The requests of `viewport`: the viewing area is set to `size`, and the window is
    /// cleared to violet.
    pub open spec fn viewport_requests(size: Size) -> Seq<RequestView> {
        seq![
            RequestView::Viewport {
                x: 0,
                y: 0,
                width: size.width as i32,
                height: size.height as i32,
            },
            RequestView::ClearColor { red: HALF, green: ZERO, blue: ONE, alpha: ONE },
            RequestView::Clear { mask: gl::COLOR_BUFFER_BIT },
        ]
    }

    /// Sets the viewing area to a window of the size `size` and clears the window.
    pub fn viewport(&mut self, size: Size)
        ensures
            final(self)@.shaders == old(self)@.shaders,
            final(self)@.requests == old(self)@.requests + Self::viewport_requests(size),
    {
        self.inner.record(
            Request::Viewport {
                x: 0,
                y: 0,
                width: size.width as i32,
                height: size.height as i32,
            },
        );
        self.inner.record(Request::ClearColor { red: HALF, green: ZERO, blue: ONE, alpha: ONE });
        self.inner.record(Request::Clear { mask: gl::COLOR_BUFFER_BIT });
        assert(self.inner@ =~= old(self)@.requests + Self::viewport_requests(size));
    }

    /// Draws the three vertices of the bound vertex array as a triangle.
    pub fn draw(&mut self)
        ensures
            final(self)@.shaders == old(self)@.shaders,
            final(self)@.requests == old(self)@.requests + seq![
                RequestView::ClearColor { red: HALF, green: ZERO, blue: ONE, alpha: ONE },
                RequestView::DrawArrays { mode: gl::TRIANGLES, first: 0, count: 3 },
            ],
    {
        self.inner.record(Request::ClearColor { red: HALF, green: ZERO, blue: ONE, alpha: ONE });
        self.inner.record(Request::DrawArrays { mode: gl::TRIANGLES, first: 0, count: 3 });
        assert(self.inner@ =~= old(self)@.requests + seq![
            RequestView::ClearColor { red: HALF, green: ZERO, blue: ONE, alpha: ONE },
            RequestView::DrawArrays { mode: gl::TRIANGLES, first: 0, count: 3 },
        ]);
    }

    /// Starts the making of the triangle as a vertex array over one buffer: asks for the name
    /// of the buffer.
    pub fn triangle_vao(&mut self) -> (pending: PendingTriangleVao)
        ensures
            pending matches PendingTriangleVao::Vertices { pending: buffer } && buffer.target@
                == gl::ARRAY_BUFFER && buffer.label@ == "TriangleVerts"@,
            final(self)@.shaders == old(self)@.shaders,
            final(self)@.requests == old(self)@.requests.push(RequestView::GenBuffers),
    {
        let pending = ClassicBuffer::new(&mut self.inner, BufferTarget::array(), "TriangleVerts");
        PendingTriangleVao::Vertices { pending }
    }

    /// Switches the debug output on, synchronous with the calls that cause the messages, and
    /// installs the handler of the messages.
    pub fn register_debug_callback(&mut self)
        ensures
            final(self)@.shaders == old(self)@.shaders,
            final(self)@.requests == old(self)@.requests + seq![
                RequestView::Enable { cap: gl::DEBUG_OUTPUT | gl::DEBUG_OUTPUT_SYNCHRONOUS },
                RequestView::DebugMessageCallback,
            ],
    {
        self.inner.record(Request::Enable { cap: gl::DEBUG_OUTPUT | gl::DEBUG_OUTPUT_SYNCHRONOUS });
        self.inner.record(Request::DebugMessageCallback);
        assert(self.inner@ =~= old(self)@.requests + seq![
            RequestView::Enable { cap: gl::DEBUG_OUTPUT | gl::DEBUG_OUTPUT_SYNCHRONOUS },
            RequestView::DebugMessageCallback,
        ]);
    }

    /// Switches the messages of one class on.
    pub fn debug_message_control(
        &mut self,
        debug_source: DebugSource,
        debug_type: DebugType,
        debug_severity: DebugSeverity,
    )
        ensures
            final(self)@.shaders == old(self)@.shaders,
            final(self)@.requests == old(self)@.requests.push(
                RequestView::DebugMessageControl {
                    source: debug_source.bits(),
                    kind: debug_type.bits(),
                    severity: debug_severity.bits(),
                    enabled: true,
                },
            ),
    {
        self.inner.record(
            Request::DebugMessageControl {
                source: debug_source.bits(),
                kind: debug_type.bits(),
                severity: debug_severity.bits(),
                enabled: true,
            },
        );
    }

    /// The text of a debug message for the log: its number and its severity, its source and
    /// its kind by their names, and the message itself.
    pub open spec fn report_text(
        source: u32,
        type_e: u32,
        id: u32,
        severity: u32,
        message: Seq<char>,
    ) -> Seq<char> {
        "["@ + text::decimal(id as nat) + ": "@ + DebugSeverity::of(severity).spec_name() + "]["@
            + DebugSource::of(source).spec_name() + ": "@ + DebugType::of(type_e).spec_name()
            + "] - "@ + message
    }

    /// Makes a debug message of the graphics interface ready for the log: reads the bytes of
    /// the message as UTF-8 and reports the message.
    pub fn gl_debug_callback(source: u32, type_e: u32, id: u32, severity: u32, message: &[u8]) -> (text:
        String)
        ensures
            text@ == Self::report_text(source, type_e, id, severity, text::utf8_lossy(message@)),
    {
        let message = text::lossy(message);
        Self::report(source, type_e, id, severity, message.as_str())
    }

    /// Reports a debug message with the text `message`.
    pub fn report(source: u32, type_e: u32, id: u32, severity: u32, message: &str) -> (text: String)
        ensures
            text@ == Self::report_text(source, type_e, id, severity, message@),
    {
        let source: DebugSource = DebugSource::from(source);
        let type_e: DebugType = DebugType::from(type_e);
        let severity: DebugSeverity = DebugSeverity::from(severity);
        let mut text = String::from_str("[");
        text.append(text::to_decimal(id).as_str());
        text.append(": ");
        text.append(severity.name());
        text.append("][");
        text.append(source.name());
        text.append(": ");
        text.append(type_e.name());
        text.append("] - ");
        text.append(message);
        text
    }
}

/// The triangle on its way into a vertex array over one buffer: what its making waits for.
#[allow(inconsistent_fields)]
pub enum PendingTriangleVao {
    /// The name of the buffer.
    Vertices { pending: PendingClassicBuffer },
    /// The name of the vertex array.
    Array { pending: PendingClassicVao },
}

impl PendingTriangleVao {
    /// What the making records on the answer `reply`: with the name of the buffer, the buffer
    /// is filled with the triangle, bound as the buffer of vertex attributes, and the name of
    /// the vertex array is asked for; with that name, the vertex array is bound and the
    /// attributes of the triangle are described.
    pub open spec fn emits(self, reply: Reply) -> Seq<RequestView> {
        match self {
            PendingTriangleVao::Vertices { pending } => unnamed_buffer(
                reply.spec_name(),
                pending.target@,
            ) + (BufferView {
                id: reply.spec_name(),
                target: pending.target@,
                label: pending.label@,
            }).filled(72, Triangle::default_contents(), gl::STATIC_DRAW) + seq![
                RequestView::BindBuffer { target: gl::ARRAY_BUFFER, buffer: reply.spec_name() },
                RequestView::GenVertexArrays,
            ],
            PendingTriangleVao::Array { pending } => classic_setup(
                reply.spec_name(),
                pending.layouts@,
            ),
        }
    }

    /// Goes on with the making of the triangle after the answer `reply` to the request that it
    /// waited for.
    pub fn resume(self, gl: &mut Gl, reply: Reply) -> (step: Step<PendingTriangleVao, ClassicVao>)
        ensures
            final(gl)@.shaders == old(gl)@.shaders,
            final(gl)@.requests == old(gl)@.requests + self.emits(reply),
            self matches PendingTriangleVao::Vertices { pending } ==> (step matches Step::Ask(
                PendingTriangleVao::Array { pending: next },
            ) && next.vbo@ == (BufferView {
                id: reply.spec_name(),
                target: gl::ARRAY_BUFFER,
                label: pending.label@,
            }) && next.layouts@ == Triangle::default_attributes() && next.label@ == "Triangle"@),
            self matches PendingTriangleVao::Array { pending } ==> (step matches Step::Done(array)
                && array@ == (ClassicVaoView {
                id: reply.spec_name(),
                vbo: pending.vbo@,
                label: pending.label@,
            })),
    {
        match self {
            PendingTriangleVao::Vertices { pending } => {
                let triangle = Triangle::default();
                let vbo = pending.resume(&mut gl.inner, reply);
                vbo.write(&mut gl.inner, &triangle, BufferUsage::static_draw());
                let layouts = triangle.memory_layout();
                let pending = ClassicVao::new(&mut gl.inner, vbo, layouts.as_slice(), "Triangle");
                assert(gl.inner@ =~= old(gl)@.requests + self.emits(reply));
                Step::Ask(PendingTriangleVao::Array { pending })
            },
            PendingTriangleVao::Array { pending } => {
                let array = pending.resume(&mut gl.inner, reply);
                assert(gl.inner@ =~= old(gl)@.requests + self.emits(reply));
                Step::Done(array)
            },
        }
    }
}

impl Cleanup for Gl {
    /// The programs of the context are released, in the order of their places.
    open spec fn release(&self) -> Seq<RequestView> {
        released(self@.shaders)
    }

    fn cleanup(&self, gl: &mut context::Gl) {
        self.shaders.cleanup(gl);
    }
}

} // verus!
