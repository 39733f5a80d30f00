//! Error codes of the graphics interface.

use crate::context::gl;
use crate::glenums::flags;
use vstd::prelude::*;

verus! {

/// Error codes of the graphics interface.
#[derive(Clone, Copy, Debug, PartialEq, Eq, Structural, PartialOrd, Ord, Hash)]
pub struct GetError {
    bits: u32,
}

impl View for GetError {
    type V = u32;

    closed spec fn view(&self) -> u32 {
        self.bits
    }
}

impl GetError {
    #[verifier::type_invariant]
    spec fn within_all(self) -> bool {
        self.bits & !Self::all_bits() == 0
    }

    /// The bits of all the flags.
    pub open spec fn all_bits() -> u32 {
        gl::NO_ERROR | gl::INVALID_ENUM | gl::INVALID_VALUE | gl::INVALID_OPERATION | gl::INVALID_FRAMEBUFFER_OPERATION | gl::OUT_OF_MEMORY | gl::STACK_UNDERFLOW | gl::STACK_OVERFLOW
    }

    /// The flags with their names, in the order of their declaration.
    pub open spec fn table() -> Seq<(u32, &'static str)> {
        seq![
            (gl::NO_ERROR, "NoError"),
            (gl::INVALID_ENUM, "InvalidEnum"),
            (gl::INVALID_VALUE, "InvalidValue"),
            (gl::INVALID_OPERATION, "InvalidOperation"),
            (gl::INVALID_FRAMEBUFFER_OPERATION, "InvalidFramebufferOperation"),
            (gl::OUT_OF_MEMORY, "OutOfMemory"),
            (gl::STACK_UNDERFLOW, "StackUnderflow"),
            (gl::STACK_OVERFLOW, "StackOverflow"),
        ]
    }

    proof fn lemma_flags_fit()
        by (bit_vector)
        ensures
            gl::NO_ERROR & !Self::all_bits() == 0,
            gl::INVALID_ENUM & !Self::all_bits() == 0,
            gl::INVALID_VALUE & !Self::all_bits() == 0,
            gl::INVALID_OPERATION & !Self::all_bits() == 0,
            gl::INVALID_FRAMEBUFFER_OPERATION & !Self::all_bits() == 0,
            gl::OUT_OF_MEMORY & !Self::all_bits() == 0,
            gl::STACK_UNDERFLOW & !Self::all_bits() == 0,
            gl::STACK_OVERFLOW & !Self::all_bits() == 0,
            Self::all_bits() & !Self::all_bits() == 0,
            0u32 & !Self::all_bits() == 0,
    {
    }

    /// The flag `NoError`.
    pub fn no_error() -> (flag: Self)
        ensures
            flag@ == gl::NO_ERROR,
    {
        proof {
            Self::lemma_flags_fit();
        }
        GetError { bits: gl::NO_ERROR }
    }

    /// The flag `InvalidEnum`.
    pub fn invalid_enum() -> (flag: Self)
        ensures
            flag@ == gl::INVALID_ENUM,
    {
        proof {
            Self::lemma_flags_fit();
        }
        GetError { bits: gl::INVALID_ENUM }
    }

    /// The flag `InvalidValue`.
    pub fn invalid_value() -> (flag: Self)
        ensures
            flag@ == gl::INVALID_VALUE,
    {
        proof {
            Self::lemma_flags_fit();
        }
        GetError { bits: gl::INVALID_VALUE }
    }

    /// The flag `InvalidOperation`.
    pub fn invalid_operation() -> (flag: Self)
        ensures
            flag@ == gl::INVALID_OPERATION,
    {
        proof {
            Self::lemma_flags_fit();
        }
        GetError { bits: gl::INVALID_OPERATION }
    }

    /// The flag `InvalidFramebufferOperation`.
    pub fn invalid_framebuffer_operation() -> (flag: Self)
        ensures
            flag@ == gl::INVALID_FRAMEBUFFER_OPERATION,
    {
        proof {
            Self::lemma_flags_fit();
        }
        GetError { bits: gl::INVALID_FRAMEBUFFER_OPERATION }
    }

    /// The flag `OutOfMemory`.
    pub fn out_of_memory() -> (flag: Self)
        ensures
            flag@ == gl::OUT_OF_MEMORY,
    {
        proof {
            Self::lemma_flags_fit();
        }
        GetError { bits: gl::OUT_OF_MEMORY }
    }

    /// The flag `StackUnderflow`.
    pub fn stack_underflow() -> (flag: Self)
        ensures
            flag@ == gl::STACK_UNDERFLOW,
    {
        proof {
            Self::lemma_flags_fit();
        }
        GetError { bits: gl::STACK_UNDERFLOW }
    }

    /// The flag `StackOverflow`.
    pub fn stack_overflow() -> (flag: Self)
        ensures
            flag@ == gl::STACK_OVERFLOW,
    {
        proof {
            Self::lemma_flags_fit();
        }
        GetError { bits: gl::STACK_OVERFLOW }
    }

    /// The set without a flag.
    pub fn empty() -> (set: Self)
        ensures
            set@ == 0,
    {
        proof {
            Self::lemma_flags_fit();
        }
        GetError { bits: 0 }
    }

    /// The set of all the flags.
    pub fn all() -> (set: Self)
        ensures
            set@ == Self::all_bits(),
    {
        proof {
            Self::lemma_flags_fit();
        }
        GetError { bits: gl::NO_ERROR | gl::INVALID_ENUM | gl::INVALID_VALUE | gl::INVALID_OPERATION | gl::INVALID_FRAMEBUFFER_OPERATION | gl::OUT_OF_MEMORY | gl::STACK_UNDERFLOW | gl::STACK_OVERFLOW }
    }

    /// The bits of the set. None of them is outside the flags.
    pub fn bits(&self) -> (bits: u32)
        ensures
            bits == self@,
            bits & !Self::all_bits() == 0,
    {
        proof {
            use_type_invariant(self);
        }
        self.bits
    }

    /// The set with the bits `bits`, unless one of them is in no flag.
    pub fn from_bits(bits: u32) -> (set: Option<Self>)
        ensures
            set is Some <==> bits & !Self::all_bits() == 0,
            set matches Some(s) ==> s@ == bits,
    {
        if bits & !Self::all().bits == 0 {
            Some(GetError { bits })
        } else {
            None
        }
    }

    /// The set with those of the bits `bits` that are in a flag.
    pub fn from_bits_truncate(bits: u32) -> (set: Self)
        ensures
            set@ == bits & Self::all_bits(),
    {
        proof {
            flags::lemma_masked_fits(bits, Self::all_bits());
        }
        GetError { bits: bits & Self::all().bits }
    }

    /// Whether the set holds every flag of `other`.
    pub fn contains(&self, other: Self) -> (held: bool)
        ensures
            held == (self@ & other@ == other@),
    {
        self.bits & other.bits == other.bits
    }

    /// The flags of both sets.
    pub fn union(self, other: Self) -> (set: Self)
        ensures
            set@ == self@ | other@,
    {
        proof {
            use_type_invariant(&self);
            use_type_invariant(&other);
            flags::lemma_union_fits(self.bits, other.bits, Self::all_bits());
        }
        GetError { bits: self.bits | other.bits }
    }

    /// The names of the flags that the set holds, joined by `" | "`, or `"(empty)"`.
    pub fn names(&self) -> (text: String)
        ensures
            text@ == flags::listing(self@, Self::table()),
    {
        let table = [
            (gl::NO_ERROR, "NoError"),
            (gl::INVALID_ENUM, "InvalidEnum"),
            (gl::INVALID_VALUE, "InvalidValue"),
            (gl::INVALID_OPERATION, "InvalidOperation"),
            (gl::INVALID_FRAMEBUFFER_OPERATION, "InvalidFramebufferOperation"),
            (gl::OUT_OF_MEMORY, "OutOfMemory"),
            (gl::STACK_UNDERFLOW, "StackUnderflow"),
            (gl::STACK_OVERFLOW, "StackOverflow"),
        ];
        assert(table@ =~= Self::table());
        flags::list(self.bits, &table)
    }

}

impl Default for GetError {
    /// The set without a flag.
    fn default() -> (set: Self)
        ensures
            set@ == 0,
    {
        Self::empty()
    }
}

} // verus!
