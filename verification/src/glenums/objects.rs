//! Kinds of objects that can carry a label.

use crate::context::gl;
use crate::glenums::flags;
use vstd::prelude::*;

verus! {

/// Kinds of objects that can carry a label.
#[derive(Clone, Copy, Debug, PartialEq, Eq, Structural, PartialOrd, Ord, Hash)]
pub struct ObjectName {
    bits: u32,
}

impl View for ObjectName {
    type V = u32;

    closed spec fn view(&self) -> u32 {
        self.bits
    }
}

impl ObjectName {
    #[verifier::type_invariant]
    spec fn within_all(self) -> bool {
        self.bits & !Self::all_bits() == 0
    }

    /// The bits of all the flags.
    pub open spec fn all_bits() -> u32 {
        gl::BUFFER | gl::SHADER | gl::PROGRAM | gl::VERTEX_ARRAY | gl::QUERY | gl::PROGRAM_PIPELINE | gl::TRANSFORM_FEEDBACK | gl::SAMPLER | gl::TEXTURE | gl::RENDERBUFFER | gl::FRAMEBUFFER
    }

    /// The flags with their names, in the order of their declaration.
    pub open spec fn table() -> Seq<(u32, &'static str)> {
        seq![
            (gl::BUFFER, "Buffer"),
            (gl::SHADER, "Shader"),
            (gl::PROGRAM, "Program"),
            (gl::VERTEX_ARRAY, "VertexArray"),
            (gl::QUERY, "Query"),
            (gl::PROGRAM_PIPELINE, "ProgramPipeline"),
            (gl::TRANSFORM_FEEDBACK, "TransformFeedback"),
            (gl::SAMPLER, "Sampler"),
            (gl::TEXTURE, "Texture"),
            (gl::RENDERBUFFER, "Renderbuffer"),
            (gl::FRAMEBUFFER, "Framebuffer"),
        ]
    }

    proof fn lemma_flags_fit()
        by (bit_vector)
        ensures
            gl::BUFFER & !Self::all_bits() == 0,
            gl::SHADER & !Self::all_bits() == 0,
            gl::PROGRAM & !Self::all_bits() == 0,
            gl::VERTEX_ARRAY & !Self::all_bits() == 0,
            gl::QUERY & !Self::all_bits() == 0,
            gl::PROGRAM_PIPELINE & !Self::all_bits() == 0,
            gl::TRANSFORM_FEEDBACK & !Self::all_bits() == 0,
            gl::SAMPLER & !Self::all_bits() == 0,
            gl::TEXTURE & !Self::all_bits() == 0,
            gl::RENDERBUFFER & !Self::all_bits() == 0,
            gl::FRAMEBUFFER & !Self::all_bits() == 0,
            Self::all_bits() & !Self::all_bits() == 0,
            0u32 & !Self::all_bits() == 0,
    {
    }

    /// The flag `Buffer`.
    pub fn buffer() -> (flag: Self)
        ensures
            flag@ == gl::BUFFER,
    {
        proof {
            Self::lemma_flags_fit();
        }
        ObjectName { bits: gl::BUFFER }
    }

    /// The flag `Shader`.
    pub fn shader() -> (flag: Self)
        ensures
            flag@ == gl::SHADER,
    {
        proof {
            Self::lemma_flags_fit();
        }
        ObjectName { bits: gl::SHADER }
    }

    /// The flag `Program`.
    pub fn program() -> (flag: Self)
        ensures
            flag@ == gl::PROGRAM,
    {
        proof {
            Self::lemma_flags_fit();
        }
        ObjectName { bits: gl::PROGRAM }
    }

    /// The flag `VertexArray`.
    pub fn vertex_array() -> (flag: Self)
        ensures
            flag@ == gl::VERTEX_ARRAY,
    {
        proof {
            Self::lemma_flags_fit();
        }
        ObjectName { bits: gl::VERTEX_ARRAY }
    }

    /// The flag `Query`.
    pub fn query() -> (flag: Self)
        ensures
            flag@ == gl::QUERY,
    {
        proof {
            Self::lemma_flags_fit();
        }
        ObjectName { bits: gl::QUERY }
    }

    /// The flag `ProgramPipeline`.
    pub fn program_pipeline() -> (flag: Self)
        ensures
            flag@ == gl::PROGRAM_PIPELINE,
    {
        proof {
            Self::lemma_flags_fit();
        }
        ObjectName { bits: gl::PROGRAM_PIPELINE }
    }

    /// The flag `TransformFeedback`.
    pub fn transform_feedback() -> (flag: Self)
        ensures
            flag@ == gl::TRANSFORM_FEEDBACK,
    {
        proof {
            Self::lemma_flags_fit();
        }
        ObjectName { bits: gl::TRANSFORM_FEEDBACK }
    }

    /// The flag `Sampler`.
    pub fn sampler() -> (flag: Self)
        ensures
            flag@ == gl::SAMPLER,
    {
        proof {
            Self::lemma_flags_fit();
        }
        ObjectName { bits: gl::SAMPLER }
    }

    /// The flag `Texture`.
    pub fn texture() -> (flag: Self)
        ensures
            flag@ == gl::TEXTURE,
    {
        proof {
            Self::lemma_flags_fit();
        }
        ObjectName { bits: gl::TEXTURE }
    }

    /// The flag `Renderbuffer`.
    pub fn renderbuffer() -> (flag: Self)
        ensures
            flag@ == gl::RENDERBUFFER,
    {
        proof {
            Self::lemma_flags_fit();
        }
        ObjectName { bits: gl::RENDERBUFFER }
    }

    /// The flag `Framebuffer`.
    pub fn framebuffer() -> (flag: Self)
        ensures
            flag@ == gl::FRAMEBUFFER,
    {
        proof {
            Self::lemma_flags_fit();
        }
        ObjectName { bits: gl::FRAMEBUFFER }
    }

    /// The set without a flag.
    pub fn empty() -> (set: Self)
        ensures
            set@ == 0,
    {
        proof {
            Self::lemma_flags_fit();
        }
        ObjectName { bits: 0 }
    }

    /// The set of all the flags.
    pub fn all() -> (set: Self)
        ensures
            set@ == Self::all_bits(),
    {
        proof {
            Self::lemma_flags_fit();
        }
        ObjectName { bits: gl::BUFFER | gl::SHADER | gl::PROGRAM | gl::VERTEX_ARRAY | gl::QUERY | gl::PROGRAM_PIPELINE | gl::TRANSFORM_FEEDBACK | gl::SAMPLER | gl::TEXTURE | gl::RENDERBUFFER | gl::FRAMEBUFFER }
    }

    /// The bits of the set. None of them is outside the flags.
    pub fn bits(&self) -> (bits: u32)
        ensures
            bits == self@,
            bits & !Self::all_bits() == 0,
    {
        proof {
            use_type_invariant(self);
        }
        self.bits
    }

    /// The set with the bits `bits`, unless one of them is in no flag.
    pub fn from_bits(bits: u32) -> (set: Option<Self>)
        ensures
            set is Some <==> bits & !Self::all_bits() == 0,
            set matches Some(s) ==> s@ == bits,
    {
        if bits & !Self::all().bits == 0 {
            Some(ObjectName { bits })
        } else {
            None
        }
    }

    /// The set with those of the bits `bits` that are in a flag.
    pub fn from_bits_truncate(bits: u32) -> (set: Self)
        ensures
            set@ == bits & Self::all_bits(),
    {
        proof {
            flags::lemma_masked_fits(bits, Self::all_bits());
        }
        ObjectName { bits: bits & Self::all().bits }
    }

    /// Whether the set holds every flag of `other`.
    pub fn contains(&self, other: Self) -> (held: bool)
        ensures
            held == (self@ & other@ == other@),
    {
        self.bits & other.bits == other.bits
    }

    /// The flags of both sets.
    pub fn union(self, other: Self) -> (set: Self)
        ensures
            set@ == self@ | other@,
    {
        proof {
            use_type_invariant(&self);
            use_type_invariant(&other);
            flags::lemma_union_fits(self.bits, other.bits, Self::all_bits());
        }
        ObjectName { bits: self.bits | other.bits }
    }

    /// The names of the flags that the set holds, joined by `" | "`, or `"(empty)"`.
    pub fn names(&self) -> (text: String)
        ensures
            text@ == flags::listing(self@, Self::table()),
    {
        let table = [
            (gl::BUFFER, "Buffer"),
            (gl::SHADER, "Shader"),
            (gl::PROGRAM, "Program"),
            (gl::VERTEX_ARRAY, "VertexArray"),
            (gl::QUERY, "Query"),
            (gl::PROGRAM_PIPELINE, "ProgramPipeline"),
            (gl::TRANSFORM_FEEDBACK, "TransformFeedback"),
            (gl::SAMPLER, "Sampler"),
            (gl::TEXTURE, "Texture"),
            (gl::RENDERBUFFER, "Renderbuffer"),
            (gl::FRAMEBUFFER, "Framebuffer"),
        ];
        assert(table@ =~= Self::table());
        flags::list(self.bits, &table)
    }

}

} // verus!
