//! Profiles of a context.

use crate::context::gl;
use crate::glenums::flags;
use vstd::prelude::*;

verus! {

/// Profiles that a context implements.
#[derive(Clone, Copy, Debug, PartialEq, Eq, Structural, PartialOrd, Ord, Hash)]
pub struct ContextProfile {
    bits: u32,
}

impl View for ContextProfile {
    type V = u32;

    closed spec fn view(&self) -> u32 {
        self.bits
    }
}

impl ContextProfile {
    #[verifier::type_invariant]
    spec fn within_all(self) -> bool {
        self.bits & !Self::all_bits() == 0
    }

    /// The bits of all the flags.
    pub open spec fn all_bits() -> u32 {
        gl::CONTEXT_CORE_PROFILE_BIT | gl::CONTEXT_COMPATIBILITY_PROFILE_BIT
    }

    /// The flags with their names, in the order of their declaration.
    pub open spec fn table() -> Seq<(u32, &'static str)> {
        seq![
            (gl::CONTEXT_CORE_PROFILE_BIT, "Core"),
            (gl::CONTEXT_COMPATIBILITY_PROFILE_BIT, "Compatibility"),
        ]
    }

    proof fn lemma_flags_fit()
        by (bit_vector)
        ensures
            gl::CONTEXT_CORE_PROFILE_BIT & !Self::all_bits() == 0,
            gl::CONTEXT_COMPATIBILITY_PROFILE_BIT & !Self::all_bits() == 0,
            Self::all_bits() & !Self::all_bits() == 0,
            0u32 & !Self::all_bits() == 0,
    {
    }

    /// The flag `Core`.
    pub fn core_profile() -> (flag: Self)
        ensures
            flag@ == gl::CONTEXT_CORE_PROFILE_BIT,
    {
        proof {
            Self::lemma_flags_fit();
        }
        ContextProfile { bits: gl::CONTEXT_CORE_PROFILE_BIT }
    }

    /// The flag `Compatibility`.
    pub fn compatibility_profile() -> (flag: Self)
        ensures
            flag@ == gl::CONTEXT_COMPATIBILITY_PROFILE_BIT,
    {
        proof {
            Self::lemma_flags_fit();
        }
        ContextProfile { bits: gl::CONTEXT_COMPATIBILITY_PROFILE_BIT }
    }

    /// The set without a flag.
    pub fn empty() -> (set: Self)
        ensures
            set@ == 0,
    {
        proof {
            Self::lemma_flags_fit();
        }
        ContextProfile { bits: 0 }
    }

    /// The set of all the flags.
    pub fn all() -> (set: Self)
        ensures
            set@ == Self::all_bits(),
    {
        proof {
            Self::lemma_flags_fit();
        }
        ContextProfile { bits: gl::CONTEXT_CORE_PROFILE_BIT | gl::CONTEXT_COMPATIBILITY_PROFILE_BIT }
    }

    /// The bits of the set. None of them is outside the flags.
    pub fn bits(&self) -> (bits: u32)
        ensures
            bits == self@,
            bits & !Self::all_bits() == 0,
    {
        proof {
            use_type_invariant(self);
        }
        self.bits
    }

    /// The set with the bits `bits`, unless one of them is in no flag.
    pub fn from_bits(bits: u32) -> (set: Option<Self>)
        ensures
            set is Some <==> bits & !Self::all_bits() == 0,
            set matches Some(s) ==> s@ == bits,
    {
        if bits & !Self::all().bits == 0 {
            Some(ContextProfile { bits })
        } else {
            None
        }
    }

    /// The set with those of the bits `bits` that are in a flag.
    pub fn from_bits_truncate(bits: u32) -> (set: Self)
        ensures
            set@ == bits & Self::all_bits(),
    {
        proof {
            flags::lemma_masked_fits(bits, Self::all_bits());
        }
        ContextProfile { bits: bits & Self::all().bits }
    }

    /// Whether the set holds every flag of `other`.
    pub fn contains(&self, other: Self) -> (held: bool)
        ensures
            held == (self@ & other@ == other@),
    {
        self.bits & other.bits == other.bits
    }

    /// The flags of both sets.
    pub fn union(self, other: Self) -> (set: Self)
        ensures
            set@ == self@ | other@,
    {
        proof {
            use_type_invariant(&self);
            use_type_invariant(&other);
            flags::lemma_union_fits(self.bits, other.bits, Self::all_bits());
        }
        ContextProfile { bits: self.bits | other.bits }
    }

    /// The names of the flags that the set holds, joined by `" | "`, or `"(empty)"`.
    pub fn names(&self) -> (text: String)
        ensures
            text@ == flags::listing(self@, Self::table()),
    {
        let table = [
            (gl::CONTEXT_CORE_PROFILE_BIT, "Core"),
            (gl::CONTEXT_COMPATIBILITY_PROFILE_BIT, "Compatibility"),
        ];
        assert(table@ =~= Self::table());
        flags::list(self.bits, &table)
    }

}

} // verus!
