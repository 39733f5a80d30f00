//! Primitive modes of the draw calls.

use crate::context::gl;
use crate::glenums::flags;
use vstd::prelude::*;

verus! {

/// Primitives that a draw call assembles from the vertices.
#[derive(Clone, Copy, Debug, PartialEq, Eq, Structural, PartialOrd, Ord, Hash)]
pub struct DrawMode {
    bits: u32,
}

impl View for DrawMode {
    type V = u32;

    closed spec fn view(&self) -> u32 {
        self.bits
    }
}

impl DrawMode {
    #[verifier::type_invariant]
    spec fn within_all(self) -> bool {
        self.bits & !Self::all_bits() == 0
    }

    /// The bits of all the flags.
    pub open spec fn all_bits() -> u32 {
        gl::POINTS | gl::LINE_STRIP | gl::LINE_LOOP | gl::LINES | gl::LINE_STRIP_ADJACENCY | gl::TRIANGLE_STRIP | gl::TRIANGLE_FAN | gl::TRIANGLES | gl::TRIANGLE_STRIP_ADJACENCY | gl::TRIANGLES_ADJACENCY | gl::PATCHES
    }

    /// The flags with their names, in the order of their declaration.
    pub open spec fn table() -> Seq<(u32, &'static str)> {
        seq![
            (gl::POINTS, "Points"),
            (gl::LINE_STRIP, "LineStrip"),
            (gl::LINE_LOOP, "LineLoop"),
            (gl::LINES, "Lines"),
            (gl::LINE_STRIP_ADJACENCY, "LineStripAdjacency"),
            (gl::TRIANGLE_STRIP, "TriangleStrip"),
            (gl::TRIANGLE_FAN, "TriangleFan"),
            (gl::TRIANGLES, "Triangles"),
            (gl::TRIANGLE_STRIP_ADJACENCY, "TriangleStripAdjacency"),
            (gl::TRIANGLES_ADJACENCY, "TrianglesAdjacency"),
            (gl::PATCHES, "Patches"),
        ]
    }

    proof fn lemma_flags_fit()
        by (bit_vector)
        ensures
            gl::POINTS & !Self::all_bits() == 0,
            gl::LINE_STRIP & !Self::all_bits() == 0,
            gl::LINE_LOOP & !Self::all_bits() == 0,
            gl::LINES & !Self::all_bits() == 0,
            gl::LINE_STRIP_ADJACENCY & !Self::all_bits() == 0,
            gl::TRIANGLE_STRIP & !Self::all_bits() == 0,
            gl::TRIANGLE_FAN & !Self::all_bits() == 0,
            gl::TRIANGLES & !Self::all_bits() == 0,
            gl::TRIANGLE_STRIP_ADJACENCY & !Self::all_bits() == 0,
            gl::TRIANGLES_ADJACENCY & !Self::all_bits() == 0,
            gl::PATCHES & !Self::all_bits() == 0,
            Self::all_bits() & !Self::all_bits() == 0,
            0u32 & !Self::all_bits() == 0,
    {
    }

    /// The flag `Points`.
    pub fn points() -> (flag: Self)
        ensures
            flag@ == gl::POINTS,
    {
        proof {
            Self::lemma_flags_fit();
        }
        DrawMode { bits: gl::POINTS }
    }

    /// The flag `LineStrip`.
    pub fn line_strip() -> (flag: Self)
        ensures
            flag@ == gl::LINE_STRIP,
    {
        proof {
            Self::lemma_flags_fit();
        }
        DrawMode { bits: gl::LINE_STRIP }
    }

    /// The flag `LineLoop`.
    pub fn line_loop() -> (flag: Self)
        ensures
            flag@ == gl::LINE_LOOP,
    {
        proof {
            Self::lemma_flags_fit();
        }
        DrawMode { bits: gl::LINE_LOOP }
    }

    /// The flag `Lines`.
    pub fn lines() -> (flag: Self)
        ensures
            flag@ == gl::LINES,
    {
        proof {
            Self::lemma_flags_fit();
        }
        DrawMode { bits: gl::LINES }
    }

    /// The flag `LineStripAdjacency`.
    pub fn line_strip_adjacency() -> (flag: Self)
        ensures
            flag@ == gl::LINE_STRIP_ADJACENCY,
    {
        proof {
            Self::lemma_flags_fit();
        }
        DrawMode { bits: gl::LINE_STRIP_ADJACENCY }
    }

    /// The flag `TriangleStrip`.
    pub fn triangle_strip() -> (flag: Self)
        ensures
            flag@ == gl::TRIANGLE_STRIP,
    {
        proof {
            Self::lemma_flags_fit();
        }
        DrawMode { bits: gl::TRIANGLE_STRIP }
    }

    /// The flag `TriangleFan`.
    pub fn triangle_fan() -> (flag: Self)
        ensures
            flag@ == gl::TRIANGLE_FAN,
    {
        proof {
            Self::lemma_flags_fit();
        }
        DrawMode { bits: gl::TRIANGLE_FAN }
    }

    /// The flag `Triangles`.
    pub fn triangles() -> (flag: Self)
        ensures
            flag@ == gl::TRIANGLES,
    {
        proof {
            Self::lemma_flags_fit();
        }
        DrawMode { bits: gl::TRIANGLES }
    }

    /// The flag `TriangleStripAdjacency`.
    pub fn triangle_strip_adjacency() -> (flag: Self)
        ensures
            flag@ == gl::TRIANGLE_STRIP_ADJACENCY,
    {
        proof {
            Self::lemma_flags_fit();
        }
        DrawMode { bits: gl::TRIANGLE_STRIP_ADJACENCY }
    }

    /// The flag `TrianglesAdjacency`.
    pub fn triangles_adjacency() -> (flag: Self)
        ensures
            flag@ == gl::TRIANGLES_ADJACENCY,
    {
        proof {
            Self::lemma_flags_fit();
        }
        DrawMode { bits: gl::TRIANGLES_ADJACENCY }
    }

    /// The flag `Patches`.
    pub fn patches() -> (flag: Self)
        ensures
            flag@ == gl::PATCHES,
    {
        proof {
            Self::lemma_flags_fit();
        }
        DrawMode { bits: gl::PATCHES }
    }

    /// The set without a flag.
    pub fn empty() -> (set: Self)
        ensures
            set@ == 0,
    {
        proof {
            Self::lemma_flags_fit();
        }
        DrawMode { bits: 0 }
    }

    /// The set of all the flags.
    pub fn all() -> (set: Self)
        ensures
            set@ == Self::all_bits(),
    {
        proof {
            Self::lemma_flags_fit();
        }
        DrawMode { bits: gl::POINTS | gl::LINE_STRIP | gl::LINE_LOOP | gl::LINES | gl::LINE_STRIP_ADJACENCY | gl::TRIANGLE_STRIP | gl::TRIANGLE_FAN | gl::TRIANGLES | gl::TRIANGLE_STRIP_ADJACENCY | gl::TRIANGLES_ADJACENCY | gl::PATCHES }
    }

    /// The bits of the set. None of them is outside the flags.
    pub fn bits(&self) -> (bits: u32)
        ensures
            bits == self@,
            bits & !Self::all_bits() == 0,
    {
        proof {
            use_type_invariant(self);
        }
        self.bits
    }

    /// The set with the bits `bits`, unless one of them is in no flag.
    pub fn from_bits(bits: u32) -> (set: Option<Self>)
        ensures
            set is Some <==> bits & !Self::all_bits() == 0,
            set matches Some(s) ==> s@ == bits,
    {
        if bits & !Self::all().bits == 0 {
            Some(DrawMode { bits })
        } else {
            None
        }
    }

    /// The set with those of the bits `bits` that are in a flag.
    pub fn from_bits_truncate(bits: u32) -> (set: Self)
        ensures
            set@ == bits & Self::all_bits(),
    {
        proof {
            flags::lemma_masked_fits(bits, Self::all_bits());
        }
        DrawMode { bits: bits & Self::all().bits }
    }

    /// Whether the set holds every flag of `other`.
    pub fn contains(&self, other: Self) -> (held: bool)
        ensures
            held == (self@ & other@ == other@),
    {
        self.bits & other.bits == other.bits
    }

    /// The flags of both sets.
    pub fn union(self, other: Self) -> (set: Self)
        ensures
            set@ == self@ | other@,
    {
        proof {
            use_type_invariant(&self);
            use_type_invariant(&other);
            flags::lemma_union_fits(self.bits, other.bits, Self::all_bits());
        }
        DrawMode { bits: self.bits | other.bits }
    }

    /// The names of the flags that the set holds, joined by `" | "`, or `"(empty)"`.
    pub fn names(&self) -> (text: String)
        ensures
            text@ == flags::listing(self@, Self::table()),
    {
        let table = [
            (gl::POINTS, "Points"),
            (gl::LINE_STRIP, "LineStrip"),
            (gl::LINE_LOOP, "LineLoop"),
            (gl::LINES, "Lines"),
            (gl::LINE_STRIP_ADJACENCY, "LineStripAdjacency"),
            (gl::TRIANGLE_STRIP, "TriangleStrip"),
            (gl::TRIANGLE_FAN, "TriangleFan"),
            (gl::TRIANGLES, "Triangles"),
            (gl::TRIANGLE_STRIP_ADJACENCY, "TriangleStripAdjacency"),
            (gl::TRIANGLES_ADJACENCY, "TrianglesAdjacency"),
            (gl::PATCHES, "Patches"),
        ];
        assert(table@ =~= Self::table());
        flags::list(self.bits, &table)
    }

}

} // verus!
