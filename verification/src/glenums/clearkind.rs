//! What a clear reaches.

use crate::context::gl;
use crate::glenums::flags;
use vstd::prelude::*;

verus! {

/// Buffers of the framebuffer that a clear reaches.
#[derive(Clone, Copy, Debug, PartialEq, Eq, Structural, PartialOrd, Ord, Hash)]
pub struct ClearKind {
    bits: u32,
}

impl View for ClearKind {
    type V = u32;

    closed spec fn view(&self) -> u32 {
        self.bits
    }
}

impl ClearKind {
    #[verifier::type_invariant]
    spec fn within_all(self) -> bool {
        self.bits & !Self::all_bits() == 0
    }

    /// The bits of all the flags.
    pub open spec fn all_bits() -> u32 {
        gl::COLOR_BUFFER_BIT | gl::DEPTH_BUFFER_BIT | gl::STENCIL_BUFFER_BIT
    }

    /// The flags with their names, in the order of their declaration.
    pub open spec fn table() -> Seq<(u32, &'static str)> {
        seq![
            (gl::COLOR_BUFFER_BIT, "ColorBuffer"),
            (gl::DEPTH_BUFFER_BIT, "DepthBuffer"),
            (gl::STENCIL_BUFFER_BIT, "StencilBuffer"),
        ]
    }

    proof fn lemma_flags_fit()
        by (bit_vector)
        ensures
            gl::COLOR_BUFFER_BIT & !Self::all_bits() == 0,
            gl::DEPTH_BUFFER_BIT & !Self::all_bits() == 0,
            gl::STENCIL_BUFFER_BIT & !Self::all_bits() == 0,
            Self::all_bits() & !Self::all_bits() == 0,
            0u32 & !Self::all_bits() == 0,
    {
    }

    /// The flag `ColorBuffer`.
    pub fn color_buffer() -> (flag: Self)
        ensures
            flag@ == gl::COLOR_BUFFER_BIT,
    {
        proof {
            Self::lemma_flags_fit();
        }
        ClearKind { bits: gl::COLOR_BUFFER_BIT }
    }

    /// The flag `DepthBuffer`.
    pub fn depth_buffer() -> (flag: Self)
        ensures
            flag@ == gl::DEPTH_BUFFER_BIT,
    {
        proof {
            Self::lemma_flags_fit();
        }
        ClearKind { bits: gl::DEPTH_BUFFER_BIT }
    }

    /// The flag `StencilBuffer`.
    pub fn stencil_buffer() -> (flag: Self)
        ensures
            flag@ == gl::STENCIL_BUFFER_BIT,
    {
        proof {
            Self::lemma_flags_fit();
        }
        ClearKind { bits: gl::STENCIL_BUFFER_BIT }
    }

    /// The set without a flag.
    pub fn empty() -> (set: Self)
        ensures
            set@ == 0,
    {
        proof {
            Self::lemma_flags_fit();
        }
        ClearKind { bits: 0 }
    }

    /// The set of all the flags.
    pub fn all() -> (set: Self)
        ensures
            set@ == Self::all_bits(),
    {
        proof {
            Self::lemma_flags_fit();
        }
        ClearKind { bits: gl::COLOR_BUFFER_BIT | gl::DEPTH_BUFFER_BIT | gl::STENCIL_BUFFER_BIT }
    }

    /// The bits of the set. None of them is outside the flags.
    pub fn bits(&self) -> (bits: u32)
        ensures
            bits == self@,
            bits & !Self::all_bits() == 0,
    {
        proof {
            use_type_invariant(self);
        }
        self.bits
    }

    /// The set with the bits `bits`, unless one of them is in no flag.
    pub fn from_bits(bits: u32) -> (set: Option<Self>)
        ensures
            set is Some <==> bits & !Self::all_bits() == 0,
            set matches Some(s) ==> s@ == bits,
    {
        if bits & !Self::all().bits == 0 {
            Some(ClearKind { bits })
        } else {
            None
        }
    }

    /// The set with those of the bits `bits` that are in a flag.
    pub fn from_bits_truncate(bits: u32) -> (set: Self)
        ensures
            set@ == bits & Self::all_bits(),
    {
        proof {
            flags::lemma_masked_fits(bits, Self::all_bits());
        }
        ClearKind { bits: bits & Self::all().bits }
    }

    /// Whether the set holds every flag of `other`.
    pub fn contains(&self, other: Self) -> (held: bool)
        ensures
            held == (self@ & other@ == other@),
    {
        self.bits & other.bits == other.bits
    }

    /// The flags of both sets.
    pub fn union(self, other: Self) -> (set: Self)
        ensures
            set@ == self@ | other@,
    {
        proof {
            use_type_invariant(&self);
            use_type_invariant(&other);
            flags::lemma_union_fits(self.bits, other.bits, Self::all_bits());
        }
        ClearKind { bits: self.bits | other.bits }
    }

    /// The names of the flags that the set holds, joined by `" | "`, or `"(empty)"`.
    pub fn names(&self) -> (text: String)
        ensures
            text@ == flags::listing(self@, Self::table()),
    {
        let table = [
            (gl::COLOR_BUFFER_BIT, "ColorBuffer"),
            (gl::DEPTH_BUFFER_BIT, "DepthBuffer"),
            (gl::STENCIL_BUFFER_BIT, "StencilBuffer"),
        ];
        assert(table@ =~= Self::table());
        flags::list(self.bits, &table)
    }

}

} // verus!
