//! Filters of the debug output: severity, source and kind of a message.

use crate::context::gl;
use crate::glenums::flags;
use vstd::prelude::*;

verus! {

/// Importance of a debug message.
#[derive(Clone, Copy, Debug, PartialEq, Eq, Structural, PartialOrd, Ord, Hash)]
pub struct DebugSeverity {
    bits: u32,
}

impl View for DebugSeverity {
    type V = u32;

    closed spec fn view(&self) -> u32 {
        self.bits
    }
}

impl DebugSeverity {
    #[verifier::type_invariant]
    spec fn within_all(self) -> bool {
        self.bits & !Self::all_bits() == 0
    }

    /// The bits of all the flags.
    pub open spec fn all_bits() -> u32 {
        gl::DONT_CARE | gl::DEBUG_SEVERITY_HIGH | gl::DEBUG_SEVERITY_MEDIUM | gl::DEBUG_SEVERITY_LOW | gl::DEBUG_SEVERITY_NOTIFICATION
    }

    /// The flags with their names, in the order of their declaration.
    pub open spec fn table() -> Seq<(u32, &'static str)> {
        seq![
            (gl::DONT_CARE, "DontCare"),
            (gl::DEBUG_SEVERITY_HIGH, "High"),
            (gl::DEBUG_SEVERITY_MEDIUM, "Medium"),
            (gl::DEBUG_SEVERITY_LOW, "Low"),
            (gl::DEBUG_SEVERITY_NOTIFICATION, "Notification"),
        ]
    }

    /// The flags with the titles that a message shows them by.
    pub open spec fn titles() -> Seq<(u32, &'static str)> {
        seq![
            (gl::DONT_CARE, "Any"),
            (gl::DEBUG_SEVERITY_HIGH, "High"),
            (gl::DEBUG_SEVERITY_MEDIUM, "Medium"),
            (gl::DEBUG_SEVERITY_LOW, "Low"),
            (gl::DEBUG_SEVERITY_NOTIFICATION, "Notification"),
        ]
    }

    proof fn lemma_flags_fit()
        by (bit_vector)
        ensures
            gl::DONT_CARE & !Self::all_bits() == 0,
            gl::DEBUG_SEVERITY_HIGH & !Self::all_bits() == 0,
            gl::DEBUG_SEVERITY_MEDIUM & !Self::all_bits() == 0,
            gl::DEBUG_SEVERITY_LOW & !Self::all_bits() == 0,
            gl::DEBUG_SEVERITY_NOTIFICATION & !Self::all_bits() == 0,
            Self::all_bits() & !Self::all_bits() == 0,
            0u32 & !Self::all_bits() == 0,
    {
    }

    /// Any severity.
    pub fn dont_care() -> (flag: Self)
        ensures
            flag@ == gl::DONT_CARE,
    {
        proof {
            Self::lemma_flags_fit();
        }
        DebugSeverity { bits: gl::DONT_CARE }
    }

    /// Errors and undefined behaviour.
    pub fn high() -> (flag: Self)
        ensures
            flag@ == gl::DEBUG_SEVERITY_HIGH,
    {
        proof {
            Self::lemma_flags_fit();
        }
        DebugSeverity { bits: gl::DEBUG_SEVERITY_HIGH }
    }

    /// Performance warnings and deprecated functionality.
    pub fn medium() -> (flag: Self)
        ensures
            flag@ == gl::DEBUG_SEVERITY_MEDIUM,
    {
        proof {
            Self::lemma_flags_fit();
        }
        DebugSeverity { bits: gl::DEBUG_SEVERITY_MEDIUM }
    }

    /// Redundant state changes and other small mistakes.
    pub fn low() -> (flag: Self)
        ensures
            flag@ == gl::DEBUG_SEVERITY_LOW,
    {
        proof {
            Self::lemma_flags_fit();
        }
        DebugSeverity { bits: gl::DEBUG_SEVERITY_LOW }
    }

    /// Everything else.
    pub fn notification() -> (flag: Self)
        ensures
            flag@ == gl::DEBUG_SEVERITY_NOTIFICATION,
    {
        proof {
            Self::lemma_flags_fit();
        }
        DebugSeverity { bits: gl::DEBUG_SEVERITY_NOTIFICATION }
    }

    /// The set without a flag.
    pub fn empty() -> (set: Self)
        ensures
            set@ == 0,
    {
        proof {
            Self::lemma_flags_fit();
        }
        DebugSeverity { bits: 0 }
    }

    /// The set of all the flags.
    pub fn all() -> (set: Self)
        ensures
            set@ == Self::all_bits(),
    {
        proof {
            Self::lemma_flags_fit();
        }
        DebugSeverity { bits: gl::DONT_CARE | gl::DEBUG_SEVERITY_HIGH | gl::DEBUG_SEVERITY_MEDIUM | gl::DEBUG_SEVERITY_LOW | gl::DEBUG_SEVERITY_NOTIFICATION }
    }

    /// The bits of the set. None of them is outside the flags.
    pub fn bits(&self) -> (bits: u32)
        ensures
            bits == self@,
            bits & !Self::all_bits() == 0,
    {
        proof {
            use_type_invariant(self);
        }
        self.bits
    }

    /// The set with the bits `bits`, unless one of them is in no flag.
    pub fn from_bits(bits: u32) -> (set: Option<Self>)
        ensures
            set is Some <==> bits & !Self::all_bits() == 0,
            set matches Some(s) ==> s@ == bits,
    {
        if bits & !Self::all().bits == 0 {
            Some(DebugSeverity { bits })
        } else {
            None
        }
    }

    /// The set with those of the bits `bits` that are in a flag.
    pub fn from_bits_truncate(bits: u32) -> (set: Self)
        ensures
            set@ == bits & Self::all_bits(),
    {
        proof {
            flags::lemma_masked_fits(bits, Self::all_bits());
        }
        DebugSeverity { bits: bits & Self::all().bits }
    }

    /// Whether the set holds every flag of `other`.
    pub fn contains(&self, other: Self) -> (held: bool)
        ensures
            held == (self@ & other@ == other@),
    {
        self.bits & other.bits == other.bits
    }

    /// The flags of both sets.
    pub fn union(self, other: Self) -> (set: Self)
        ensures
            set@ == self@ | other@,
    {
        proof {
            use_type_invariant(&self);
            use_type_invariant(&other);
            flags::lemma_union_fits(self.bits, other.bits, Self::all_bits());
        }
        DebugSeverity { bits: self.bits | other.bits }
    }

    /// The names of the flags that the set holds, joined by `" | "`, or `"(empty)"`.
    pub fn names(&self) -> (text: String)
        ensures
            text@ == flags::listing(self@, Self::table()),
    {
        let table = [
            (gl::DONT_CARE, "DontCare"),
            (gl::DEBUG_SEVERITY_HIGH, "High"),
            (gl::DEBUG_SEVERITY_MEDIUM, "Medium"),
            (gl::DEBUG_SEVERITY_LOW, "Low"),
            (gl::DEBUG_SEVERITY_NOTIFICATION, "Notification"),
        ];
        assert(table@ =~= Self::table());
        flags::list(self.bits, &table)
    }

    /// Whether the set is one of the declared flags, which alone have a title.
    pub open spec fn is_titled(&self) -> bool {
        flags::title_of(self@, Self::titles()) is Some
    }

    /// The title of the set, where it is one of the declared flags.
    pub fn title(&self) -> (title: Option<&'static str>)
        ensures
            title is Some == self.is_titled(),
            title matches Some(t) ==> Some(t@) == flags::title_of(self@, Self::titles()),
    {
        let table = [
            (gl::DONT_CARE, "Any"),
            (gl::DEBUG_SEVERITY_HIGH, "High"),
            (gl::DEBUG_SEVERITY_MEDIUM, "Medium"),
            (gl::DEBUG_SEVERITY_LOW, "Low"),
            (gl::DEBUG_SEVERITY_NOTIFICATION, "Notification"),
        ];
        assert(table@ =~= Self::titles());
        flags::find_title(self.bits, &table)
    }

    /// The text that a message shows the set by: its title.
    pub fn to_string(&self) -> (text: String)
        requires
            self.is_titled(),
        ensures
            Some(text@) == flags::title_of(self@, Self::titles()),
    {
        match self.title() {
            Some(title) => String::from_str(title),
            None => String::new(),
        }
    }

}

impl Default for DebugSeverity {
    /// The wildcard: its value is not zero.
    fn default() -> (set: Self)
        ensures
            set@ == gl::DONT_CARE,
    {
        Self::dont_care()
    }
}

/// Origin of a debug message.
#[derive(Clone, Copy, Debug, PartialEq, Eq, Structural, PartialOrd, Ord, Hash)]
pub struct DebugSource {
    bits: u32,
}

impl View for DebugSource {
    type V = u32;

    closed spec fn view(&self) -> u32 {
        self.bits
    }
}

impl DebugSource {
    #[verifier::type_invariant]
    spec fn within_all(self) -> bool {
        self.bits & !Self::all_bits() == 0
    }

    /// The bits of all the flags.
    pub open spec fn all_bits() -> u32 {
        gl::DONT_CARE | gl::DEBUG_SOURCE_API | gl::DEBUG_SOURCE_WINDOW_SYSTEM | gl::DEBUG_SOURCE_SHADER_COMPILER | gl::DEBUG_SOURCE_THIRD_PARTY | gl::DEBUG_SOURCE_APPLICATION | gl::DEBUG_SOURCE_OTHER
    }

    /// The flags with their names, in the order of their declaration.
    pub open spec fn table() -> Seq<(u32, &'static str)> {
        seq![
            (gl::DONT_CARE, "DontCare"),
            (gl::DEBUG_SOURCE_API, "Api"),
            (gl::DEBUG_SOURCE_WINDOW_SYSTEM, "WindowSystem"),
            (gl::DEBUG_SOURCE_SHADER_COMPILER, "ShaderCompiler"),
            (gl::DEBUG_SOURCE_THIRD_PARTY, "ThirdParty"),
            (gl::DEBUG_SOURCE_APPLICATION, "Application"),
            (gl::DEBUG_SOURCE_OTHER, "Other"),
        ]
    }

    /// The flags with the titles that a message shows them by.
    pub open spec fn titles() -> Seq<(u32, &'static str)> {
        seq![
            (gl::DONT_CARE, "Any"),
            (gl::DEBUG_SOURCE_API, "API"),
            (gl::DEBUG_SOURCE_WINDOW_SYSTEM, "Window system"),
            (gl::DEBUG_SOURCE_SHADER_COMPILER, "Shader compiler"),
            (gl::DEBUG_SOURCE_THIRD_PARTY, "Third party"),
            (gl::DEBUG_SOURCE_APPLICATION, "User"),
            (gl::DEBUG_SOURCE_OTHER, "Other"),
        ]
    }

    proof fn lemma_flags_fit()
        by (bit_vector)
        ensures
            gl::DONT_CARE & !Self::all_bits() == 0,
            gl::DEBUG_SOURCE_API & !Self::all_bits() == 0,
            gl::DEBUG_SOURCE_WINDOW_SYSTEM & !Self::all_bits() == 0,
            gl::DEBUG_SOURCE_SHADER_COMPILER & !Self::all_bits() == 0,
            gl::DEBUG_SOURCE_THIRD_PARTY & !Self::all_bits() == 0,
            gl::DEBUG_SOURCE_APPLICATION & !Self::all_bits() == 0,
            gl::DEBUG_SOURCE_OTHER & !Self::all_bits() == 0,
            Self::all_bits() & !Self::all_bits() == 0,
            0u32 & !Self::all_bits() == 0,
    {
    }

    /// Any source.
    pub fn dont_care() -> (flag: Self)
        ensures
            flag@ == gl::DONT_CARE,
    {
        proof {
            Self::lemma_flags_fit();
        }
        DebugSource { bits: gl::DONT_CARE }
    }

    /// Calls of the graphics interface.
    pub fn api() -> (flag: Self)
        ensures
            flag@ == gl::DEBUG_SOURCE_API,
    {
        proof {
            Self::lemma_flags_fit();
        }
        DebugSource { bits: gl::DEBUG_SOURCE_API }
    }

    /// Calls of a windowing interface.
    pub fn window_system() -> (flag: Self)
        ensures
            flag@ == gl::DEBUG_SOURCE_WINDOW_SYSTEM,
    {
        proof {
            Self::lemma_flags_fit();
        }
        DebugSource { bits: gl::DEBUG_SOURCE_WINDOW_SYSTEM }
    }

    /// The shader compiler.
    pub fn shader_compiler() -> (flag: Self)
        ensures
            flag@ == gl::DEBUG_SOURCE_SHADER_COMPILER,
    {
        proof {
            Self::lemma_flags_fit();
        }
        DebugSource { bits: gl::DEBUG_SOURCE_SHADER_COMPILER }
    }

    /// An application associated with the graphics interface.
    pub fn third_party() -> (flag: Self)
        ensures
            flag@ == gl::DEBUG_SOURCE_THIRD_PARTY,
    {
        proof {
            Self::lemma_flags_fit();
        }
        DebugSource { bits: gl::DEBUG_SOURCE_THIRD_PARTY }
    }

    /// Messages of the user.
    pub fn application() -> (flag: Self)
        ensures
            flag@ == gl::DEBUG_SOURCE_APPLICATION,
    {
        proof {
            Self::lemma_flags_fit();
        }
        DebugSource { bits: gl::DEBUG_SOURCE_APPLICATION }
    }

    /// Anything else.
    pub fn other() -> (flag: Self)
        ensures
            flag@ == gl::DEBUG_SOURCE_OTHER,
    {
        proof {
            Self::lemma_flags_fit();
        }
        DebugSource { bits: gl::DEBUG_SOURCE_OTHER }
    }

    /// The set without a flag.
    pub fn empty() -> (set: Self)
        ensures
            set@ == 0,
    {
        proof {
            Self::lemma_flags_fit();
        }
        DebugSource { bits: 0 }
    }

    /// The set of all the flags.
    pub fn all() -> (set: Self)
        ensures
            set@ == Self::all_bits(),
    {
        proof {
            Self::lemma_flags_fit();
        }
        DebugSource { bits: gl::DONT_CARE | gl::DEBUG_SOURCE_API | gl::DEBUG_SOURCE_WINDOW_SYSTEM | gl::DEBUG_SOURCE_SHADER_COMPILER | gl::DEBUG_SOURCE_THIRD_PARTY | gl::DEBUG_SOURCE_APPLICATION | gl::DEBUG_SOURCE_OTHER }
    }

    /// The bits of the set. None of them is outside the flags.
    pub fn bits(&self) -> (bits: u32)
        ensures
            bits == self@,
            bits & !Self::all_bits() == 0,
    {
        proof {
            use_type_invariant(self);
        }
        self.bits
    }

    /// The set with the bits `bits`, unless one of them is in no flag.
    pub fn from_bits(bits: u32) -> (set: Option<Self>)
        ensures
            set is Some <==> bits & !Self::all_bits() == 0,
            set matches Some(s) ==> s@ == bits,
    {
        if bits & !Self::all().bits == 0 {
            Some(DebugSource { bits })
        } else {
            None
        }
    }

    /// The set with those of the bits `bits` that are in a flag.
    pub fn from_bits_truncate(bits: u32) -> (set: Self)
        ensures
            set@ == bits & Self::all_bits(),
    {
        proof {
            flags::lemma_masked_fits(bits, Self::all_bits());
        }
        DebugSource { bits: bits & Self::all().bits }
    }

    /// Whether the set holds every flag of `other`.
    pub fn contains(&self, other: Self) -> (held: bool)
        ensures
            held == (self@ & other@ == other@),
    {
        self.bits & other.bits == other.bits
    }

    /// The flags of both sets.
    pub fn union(self, other: Self) -> (set: Self)
        ensures
            set@ == self@ | other@,
    {
        proof {
            use_type_invariant(&self);
            use_type_invariant(&other);
            flags::lemma_union_fits(self.bits, other.bits, Self::all_bits());
        }
        DebugSource { bits: self.bits | other.bits }
    }

    /// The names of the flags that the set holds, joined by `" | "`, or `"(empty)"`.
    pub fn names(&self) -> (text: String)
        ensures
            text@ == flags::listing(self@, Self::table()),
    {
        let table = [
            (gl::DONT_CARE, "DontCare"),
            (gl::DEBUG_SOURCE_API, "Api"),
            (gl::DEBUG_SOURCE_WINDOW_SYSTEM, "WindowSystem"),
            (gl::DEBUG_SOURCE_SHADER_COMPILER, "ShaderCompiler"),
            (gl::DEBUG_SOURCE_THIRD_PARTY, "ThirdParty"),
            (gl::DEBUG_SOURCE_APPLICATION, "Application"),
            (gl::DEBUG_SOURCE_OTHER, "Other"),
        ];
        assert(table@ =~= Self::table());
        flags::list(self.bits, &table)
    }

    /// Whether the set is one of the declared flags, which alone have a title.
    pub open spec fn is_titled(&self) -> bool {
        flags::title_of(self@, Self::titles()) is Some
    }

    /// The title of the set, where it is one of the declared flags.
    pub fn title(&self) -> (title: Option<&'static str>)
        ensures
            title is Some == self.is_titled(),
            title matches Some(t) ==> Some(t@) == flags::title_of(self@, Self::titles()),
    {
        let table = [
            (gl::DONT_CARE, "Any"),
            (gl::DEBUG_SOURCE_API, "API"),
            (gl::DEBUG_SOURCE_WINDOW_SYSTEM, "Window system"),
            (gl::DEBUG_SOURCE_SHADER_COMPILER, "Shader compiler"),
            (gl::DEBUG_SOURCE_THIRD_PARTY, "Third party"),
            (gl::DEBUG_SOURCE_APPLICATION, "User"),
            (gl::DEBUG_SOURCE_OTHER, "Other"),
        ];
        assert(table@ =~= Self::titles());
        flags::find_title(self.bits, &table)
    }

    /// The text that a message shows the set by: its title.
    pub fn to_string(&self) -> (text: String)
        requires
            self.is_titled(),
        ensures
            Some(text@) == flags::title_of(self@, Self::titles()),
    {
        match self.title() {
            Some(title) => String::from_str(title),
            None => String::new(),
        }
    }

}

impl Default for DebugSource {
    /// The wildcard: its value is not zero.
    fn default() -> (set: Self)
        ensures
            set@ == gl::DONT_CARE,
    {
        Self::dont_care()
    }
}

/// Kind of a debug message.
#[derive(Clone, Copy, Debug, PartialEq, Eq, Structural, PartialOrd, Ord, Hash)]
pub struct DebugType {
    bits: u32,
}

impl View for DebugType {
    type V = u32;

    closed spec fn view(&self) -> u32 {
        self.bits
    }
}

impl DebugType {
    #[verifier::type_invariant]
    spec fn within_all(self) -> bool {
        self.bits & !Self::all_bits() == 0
    }

    /// The bits of all the flags.
    pub open spec fn all_bits() -> u32 {
        gl::DONT_CARE | gl::DEBUG_TYPE_ERROR | gl::DEBUG_TYPE_DEPRECATED_BEHAVIOR | gl::DEBUG_TYPE_UNDEFINED_BEHAVIOR | gl::DEBUG_TYPE_PORTABILITY | gl::DEBUG_TYPE_PERFORMANCE | gl::DEBUG_TYPE_MARKER | gl::DEBUG_TYPE_PUSH_GROUP | gl::DEBUG_TYPE_POP_GROUP | gl::DEBUG_TYPE_OTHER
    }

    /// The flags with their names, in the order of their declaration.
    pub open spec fn table() -> Seq<(u32, &'static str)> {
        seq![
            (gl::DONT_CARE, "DontCare"),
            (gl::DEBUG_TYPE_ERROR, "Error"),
            (gl::DEBUG_TYPE_DEPRECATED_BEHAVIOR, "Deprecated"),
            (gl::DEBUG_TYPE_UNDEFINED_BEHAVIOR, "Undefined"),
            (gl::DEBUG_TYPE_PORTABILITY, "Portability"),
            (gl::DEBUG_TYPE_PERFORMANCE, "Performance"),
            (gl::DEBUG_TYPE_MARKER, "Marker"),
            (gl::DEBUG_TYPE_PUSH_GROUP, "Push"),
            (gl::DEBUG_TYPE_POP_GROUP, "Pop"),
            (gl::DEBUG_TYPE_OTHER, "Other"),
        ]
    }

    /// The flags with the titles that a message shows them by.
    pub open spec fn titles() -> Seq<(u32, &'static str)> {
        seq![
            (gl::DONT_CARE, "Any"),
            (gl::DEBUG_TYPE_ERROR, "Error"),
            (gl::DEBUG_TYPE_DEPRECATED_BEHAVIOR, "Deprecated"),
            (gl::DEBUG_TYPE_UNDEFINED_BEHAVIOR, "Undefined behavior"),
            (gl::DEBUG_TYPE_PORTABILITY, "Portability"),
            (gl::DEBUG_TYPE_PERFORMANCE, "Performance"),
            (gl::DEBUG_TYPE_MARKER, "Marker"),
            (gl::DEBUG_TYPE_PUSH_GROUP, "Push group"),
            (gl::DEBUG_TYPE_POP_GROUP, "Pop group"),
            (gl::DEBUG_TYPE_OTHER, "Other"),
        ]
    }

    proof fn lemma_flags_fit()
        by (bit_vector)
        ensures
            gl::DONT_CARE & !Self::all_bits() == 0,
            gl::DEBUG_TYPE_ERROR & !Self::all_bits() == 0,
            gl::DEBUG_TYPE_DEPRECATED_BEHAVIOR & !Self::all_bits() == 0,
            gl::DEBUG_TYPE_UNDEFINED_BEHAVIOR & !Self::all_bits() == 0,
            gl::DEBUG_TYPE_PORTABILITY & !Self::all_bits() == 0,
            gl::DEBUG_TYPE_PERFORMANCE & !Self::all_bits() == 0,
            gl::DEBUG_TYPE_MARKER & !Self::all_bits() == 0,
            gl::DEBUG_TYPE_PUSH_GROUP & !Self::all_bits() == 0,
            gl::DEBUG_TYPE_POP_GROUP & !Self::all_bits() == 0,
            gl::DEBUG_TYPE_OTHER & !Self::all_bits() == 0,
            Self::all_bits() & !Self::all_bits() == 0,
            0u32 & !Self::all_bits() == 0,
    {
    }

    /// Any kind.
    pub fn dont_care() -> (flag: Self)
        ensures
            flag@ == gl::DONT_CARE,
    {
        proof {
            Self::lemma_flags_fit();
        }
        DebugType { bits: gl::DONT_CARE }
    }

    /// An error of the interface.
    pub fn error() -> (flag: Self)
        ensures
            flag@ == gl::DEBUG_TYPE_ERROR,
    {
        proof {
            Self::lemma_flags_fit();
        }
        DebugType { bits: gl::DEBUG_TYPE_ERROR }
    }

    /// A deprecated call.
    pub fn deprecated() -> (flag: Self)
        ensures
            flag@ == gl::DEBUG_TYPE_DEPRECATED_BEHAVIOR,
    {
        proof {
            Self::lemma_flags_fit();
        }
        DebugType { bits: gl::DEBUG_TYPE_DEPRECATED_BEHAVIOR }
    }

    /// Undefined behaviour: what works now may fail later or elsewhere.
    pub fn undefined() -> (flag: Self)
        ensures
            flag@ == gl::DEBUG_TYPE_UNDEFINED_BEHAVIOR,
    {
        proof {
            Self::lemma_flags_fit();
        }
        DebugType { bits: gl::DEBUG_TYPE_UNDEFINED_BEHAVIOR }
    }

    /// An operation that may not be portable.
    pub fn portability() -> (flag: Self)
        ensures
            flag@ == gl::DEBUG_TYPE_PORTABILITY,
    {
        proof {
            Self::lemma_flags_fit();
        }
        DebugType { bits: gl::DEBUG_TYPE_PORTABILITY }
    }

    /// Code that may perform badly.
    pub fn performance() -> (flag: Self)
        ensures
            flag@ == gl::DEBUG_TYPE_PERFORMANCE,
    {
        proof {
            Self::lemma_flags_fit();
        }
        DebugType { bits: gl::DEBUG_TYPE_PERFORMANCE }
    }

    /// An event meant for debuggers and other tools.
    pub fn marker() -> (flag: Self)
        ensures
            flag@ == gl::DEBUG_TYPE_MARKER,
    {
        proof {
            Self::lemma_flags_fit();
        }
        DebugType { bits: gl::DEBUG_TYPE_MARKER }
    }

    /// The start of a group.
    pub fn push() -> (flag: Self)
        ensures
            flag@ == gl::DEBUG_TYPE_PUSH_GROUP,
    {
        proof {
            Self::lemma_flags_fit();
        }
        DebugType { bits: gl::DEBUG_TYPE_PUSH_GROUP }
    }

    /// The end of a group.
    pub fn pop() -> (flag: Self)
        ensures
            flag@ == gl::DEBUG_TYPE_POP_GROUP,
    {
        proof {
            Self::lemma_flags_fit();
        }
        DebugType { bits: gl::DEBUG_TYPE_POP_GROUP }
    }

    /// Everything else.
    pub fn other() -> (flag: Self)
        ensures
            flag@ == gl::DEBUG_TYPE_OTHER,
    {
        proof {
            Self::lemma_flags_fit();
        }
        DebugType { bits: gl::DEBUG_TYPE_OTHER }
    }

    /// The set without a flag.
    pub fn empty() -> (set: Self)
        ensures
            set@ == 0,
    {
        proof {
            Self::lemma_flags_fit();
        }
        DebugType { bits: 0 }
    }

    /// The set of all the flags.
    pub fn all() -> (set: Self)
        ensures
            set@ == Self::all_bits(),
    {
        proof {
            Self::lemma_flags_fit();
        }
        DebugType { bits: gl::DONT_CARE | gl::DEBUG_TYPE_ERROR | gl::DEBUG_TYPE_DEPRECATED_BEHAVIOR | gl::DEBUG_TYPE_UNDEFINED_BEHAVIOR | gl::DEBUG_TYPE_PORTABILITY | gl::DEBUG_TYPE_PERFORMANCE | gl::DEBUG_TYPE_MARKER | gl::DEBUG_TYPE_PUSH_GROUP | gl::DEBUG_TYPE_POP_GROUP | gl::DEBUG_TYPE_OTHER }
    }

    /// The bits of the set. None of them is outside the flags.
    pub fn bits(&self) -> (bits: u32)
        ensures
            bits == self@,
            bits & !Self::all_bits() == 0,
    {
        proof {
            use_type_invariant(self);
        }
        self.bits
    }

    /// The set with the bits `bits`, unless one of them is in no flag.
    pub fn from_bits(bits: u32) -> (set: Option<Self>)
        ensures
            set is Some <==> bits & !Self::all_bits() == 0,
            set matches Some(s) ==> s@ == bits,
    {
        if bits & !Self::all().bits == 0 {
            Some(DebugType { bits })
        } else {
            None
        }
    }

    /// The set with those of the bits `bits` that are in a flag.
    pub fn from_bits_truncate(bits: u32) -> (set: Self)
        ensures
            set@ == bits & Self::all_bits(),
    {
        proof {
            flags::lemma_masked_fits(bits, Self::all_bits());
        }
        DebugType { bits: bits & Self::all().bits }
    }

    /// Whether the set holds every flag of `other`.
    pub fn contains(&self, other: Self) -> (held: bool)
        ensures
            held == (self@ & other@ == other@),
    {
        self.bits & other.bits == other.bits
    }

    /// The flags of both sets.
    pub fn union(self, other: Self) -> (set: Self)
        ensures
            set@ == self@ | other@,
    {
        proof {
            use_type_invariant(&self);
            use_type_invariant(&other);
            flags::lemma_union_fits(self.bits, other.bits, Self::all_bits());
        }
        DebugType { bits: self.bits | other.bits }
    }

    /// The names of the flags that the set holds, joined by `" | "`, or `"(empty)"`.
    pub fn names(&self) -> (text: String)
        ensures
            text@ == flags::listing(self@, Self::table()),
    {
        let table = [
            (gl::DONT_CARE, "DontCare"),
            (gl::DEBUG_TYPE_ERROR, "Error"),
            (gl::DEBUG_TYPE_DEPRECATED_BEHAVIOR, "Deprecated"),
            (gl::DEBUG_TYPE_UNDEFINED_BEHAVIOR, "Undefined"),
            (gl::DEBUG_TYPE_PORTABILITY, "Portability"),
            (gl::DEBUG_TYPE_PERFORMANCE, "Performance"),
            (gl::DEBUG_TYPE_MARKER, "Marker"),
            (gl::DEBUG_TYPE_PUSH_GROUP, "Push"),
            (gl::DEBUG_TYPE_POP_GROUP, "Pop"),
            (gl::DEBUG_TYPE_OTHER, "Other"),
        ];
        assert(table@ =~= Self::table());
        flags::list(self.bits, &table)
    }

    /// Whether the set is one of the declared flags, which alone have a title.
    pub open spec fn is_titled(&self) -> bool {
        flags::title_of(self@, Self::titles()) is Some
    }

    /// The title of the set, where it is one of the declared flags.
    pub fn title(&self) -> (title: Option<&'static str>)
        ensures
            title is Some == self.is_titled(),
            title matches Some(t) ==> Some(t@) == flags::title_of(self@, Self::titles()),
    {
        let table = [
            (gl::DONT_CARE, "Any"),
            (gl::DEBUG_TYPE_ERROR, "Error"),
            (gl::DEBUG_TYPE_DEPRECATED_BEHAVIOR, "Deprecated"),
            (gl::DEBUG_TYPE_UNDEFINED_BEHAVIOR, "Undefined behavior"),
            (gl::DEBUG_TYPE_PORTABILITY, "Portability"),
            (gl::DEBUG_TYPE_PERFORMANCE, "Performance"),
            (gl::DEBUG_TYPE_MARKER, "Marker"),
            (gl::DEBUG_TYPE_PUSH_GROUP, "Push group"),
            (gl::DEBUG_TYPE_POP_GROUP, "Pop group"),
            (gl::DEBUG_TYPE_OTHER, "Other"),
        ];
        assert(table@ =~= Self::titles());
        flags::find_title(self.bits, &table)
    }

    /// The text that a message shows the set by: its title.
    pub fn to_string(&self) -> (text: String)
        requires
            self.is_titled(),
        ensures
            Some(text@) == flags::title_of(self@, Self::titles()),
    {
        match self.title() {
            Some(title) => String::from_str(title),
            None => String::new(),
        }
    }

}

impl Default for DebugType {
    /// The wildcard: its value is not zero.
    fn default() -> (set: Self)
        ensures
            set@ == gl::DONT_CARE,
    {
        Self::dont_care()
    }
}

} // verus!
