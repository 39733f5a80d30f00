//! Targets and usage hints of buffers.

use crate::context::gl;
use crate::glenums::flags;
use vstd::prelude::*;

verus! {

/// Binding targets of a buffer.
#[derive(Clone, Copy, Debug, PartialEq, Eq, Structural, PartialOrd, Ord, Hash)]
pub struct BufferTarget {
    bits: u32,
}

impl View for BufferTarget {
    type V = u32;

    closed spec fn view(&self) -> u32 {
        self.bits
    }
}

impl BufferTarget {
    #[verifier::type_invariant]
    spec fn within_all(self) -> bool {
        self.bits & !Self::all_bits() == 0
    }

    /// The bits of all the flags.
    pub open spec fn all_bits() -> u32 {
        gl::ARRAY_BUFFER | gl::ATOMIC_COUNTER_BUFFER | gl::COPY_READ_BUFFER | gl::COPY_WRITE_BUFFER | gl::DISPATCH_INDIRECT_BUFFER | gl::DRAW_INDIRECT_BUFFER | gl::ELEMENT_ARRAY_BUFFER | gl::PIXEL_PACK_BUFFER | gl::PIXEL_UNPACK_BUFFER | gl::QUERY_BUFFER | gl::SHADER_STORAGE_BUFFER | gl::TEXTURE_BUFFER | gl::TRANSFORM_FEEDBACK_BUFFER | gl::UNIFORM_BUFFER
    }

    /// The flags with their names, in the order of their declaration.
    pub open spec fn table() -> Seq<(u32, &'static str)> {
        seq![
            (gl::ARRAY_BUFFER, "Array"),
            (gl::ATOMIC_COUNTER_BUFFER, "AtomicCounter"),
            (gl::COPY_READ_BUFFER, "CopyRead"),
            (gl::COPY_WRITE_BUFFER, "CopyWrite"),
            (gl::DISPATCH_INDIRECT_BUFFER, "DispatchIndirect"),
            (gl::DRAW_INDIRECT_BUFFER, "DrawIndirect"),
            (gl::ELEMENT_ARRAY_BUFFER, "ElementArray"),
            (gl::PIXEL_PACK_BUFFER, "PixelPack"),
            (gl::PIXEL_UNPACK_BUFFER, "PixelUnpack"),
            (gl::QUERY_BUFFER, "Query"),
            (gl::SHADER_STORAGE_BUFFER, "ShaderStorage"),
            (gl::TEXTURE_BUFFER, "TextureBuffer"),
            (gl::TRANSFORM_FEEDBACK_BUFFER, "TransformFeedback"),
            (gl::UNIFORM_BUFFER, "Uniform"),
        ]
    }

    proof fn lemma_flags_fit()
        by (bit_vector)
        ensures
            gl::ARRAY_BUFFER & !Self::all_bits() == 0,
            gl::ATOMIC_COUNTER_BUFFER & !Self::all_bits() == 0,
            gl::COPY_READ_BUFFER & !Self::all_bits() == 0,
            gl::COPY_WRITE_BUFFER & !Self::all_bits() == 0,
            gl::DISPATCH_INDIRECT_BUFFER & !Self::all_bits() == 0,
            gl::DRAW_INDIRECT_BUFFER & !Self::all_bits() == 0,
            gl::ELEMENT_ARRAY_BUFFER & !Self::all_bits() == 0,
            gl::PIXEL_PACK_BUFFER & !Self::all_bits() == 0,
            gl::PIXEL_UNPACK_BUFFER & !Self::all_bits() == 0,
            gl::QUERY_BUFFER & !Self::all_bits() == 0,
            gl::SHADER_STORAGE_BUFFER & !Self::all_bits() == 0,
            gl::TEXTURE_BUFFER & !Self::all_bits() == 0,
            gl::TRANSFORM_FEEDBACK_BUFFER & !Self::all_bits() == 0,
            gl::UNIFORM_BUFFER & !Self::all_bits() == 0,
            Self::all_bits() & !Self::all_bits() == 0,
            0u32 & !Self::all_bits() == 0,
    {
    }

    /// Vertex attributes.
    pub fn array() -> (flag: Self)
        ensures
            flag@ == gl::ARRAY_BUFFER,
    {
        proof {
            Self::lemma_flags_fit();
        }
        BufferTarget { bits: gl::ARRAY_BUFFER }
    }

    /// Storage of atomic counters.
    pub fn atomic_counter() -> (flag: Self)
        ensures
            flag@ == gl::ATOMIC_COUNTER_BUFFER,
    {
        proof {
            Self::lemma_flags_fit();
        }
        BufferTarget { bits: gl::ATOMIC_COUNTER_BUFFER }
    }

    /// Source of a copy between buffers.
    pub fn copy_read() -> (flag: Self)
        ensures
            flag@ == gl::COPY_READ_BUFFER,
    {
        proof {
            Self::lemma_flags_fit();
        }
        BufferTarget { bits: gl::COPY_READ_BUFFER }
    }

    /// Destination of a copy between buffers.
    pub fn copy_write() -> (flag: Self)
        ensures
            flag@ == gl::COPY_WRITE_BUFFER,
    {
        proof {
            Self::lemma_flags_fit();
        }
        BufferTarget { bits: gl::COPY_WRITE_BUFFER }
    }

    /// Commands of an indirect compute dispatch.
    pub fn dispatch_indirect() -> (flag: Self)
        ensures
            flag@ == gl::DISPATCH_INDIRECT_BUFFER,
    {
        proof {
            Self::lemma_flags_fit();
        }
        BufferTarget { bits: gl::DISPATCH_INDIRECT_BUFFER }
    }

    /// Arguments of an indirect draw.
    pub fn draw_indirect() -> (flag: Self)
        ensures
            flag@ == gl::DRAW_INDIRECT_BUFFER,
    {
        proof {
            Self::lemma_flags_fit();
        }
        BufferTarget { bits: gl::DRAW_INDIRECT_BUFFER }
    }

    /// Indices into the vertex arrays.
    pub fn element_array() -> (flag: Self)
        ensures
            flag@ == gl::ELEMENT_ARRAY_BUFFER,
    {
        proof {
            Self::lemma_flags_fit();
        }
        BufferTarget { bits: gl::ELEMENT_ARRAY_BUFFER }
    }

    /// Target of a pixel read.
    pub fn pixel_pack() -> (flag: Self)
        ensures
            flag@ == gl::PIXEL_PACK_BUFFER,
    {
        proof {
            Self::lemma_flags_fit();
        }
        BufferTarget { bits: gl::PIXEL_PACK_BUFFER }
    }

    /// Source of texture data.
    pub fn pixel_unpack() -> (flag: Self)
        ensures
            flag@ == gl::PIXEL_UNPACK_BUFFER,
    {
        proof {
            Self::lemma_flags_fit();
        }
        BufferTarget { bits: gl::PIXEL_UNPACK_BUFFER }
    }

    /// Results of queries.
    pub fn query() -> (flag: Self)
        ensures
            flag@ == gl::QUERY_BUFFER,
    {
        proof {
            Self::lemma_flags_fit();
        }
        BufferTarget { bits: gl::QUERY_BUFFER }
    }

    /// Storage that shaders read and write.
    pub fn shader_storage() -> (flag: Self)
        ensures
            flag@ == gl::SHADER_STORAGE_BUFFER,
    {
        proof {
            Self::lemma_flags_fit();
        }
        BufferTarget { bits: gl::SHADER_STORAGE_BUFFER }
    }

    /// Data of a buffer texture.
    pub fn texture_buffer() -> (flag: Self)
        ensures
            flag@ == gl::TEXTURE_BUFFER,
    {
        proof {
            Self::lemma_flags_fit();
        }
        BufferTarget { bits: gl::TEXTURE_BUFFER }
    }

    /// Output of transform feedback.
    pub fn transform_feedback() -> (flag: Self)
        ensures
            flag@ == gl::TRANSFORM_FEEDBACK_BUFFER,
    {
        proof {
            Self::lemma_flags_fit();
        }
        BufferTarget { bits: gl::TRANSFORM_FEEDBACK_BUFFER }
    }

    /// Storage of uniform blocks.
    pub fn uniform() -> (flag: Self)
        ensures
            flag@ == gl::UNIFORM_BUFFER,
    {
        proof {
            Self::lemma_flags_fit();
        }
        BufferTarget { bits: gl::UNIFORM_BUFFER }
    }

    /// The set without a flag.
    pub fn empty() -> (set: Self)
        ensures
            set@ == 0,
    {
        proof {
            Self::lemma_flags_fit();
        }
        BufferTarget { bits: 0 }
    }

    /// The set of all the flags.
    pub fn all() -> (set: Self)
        ensures
            set@ == Self::all_bits(),
    {
        proof {
            Self::lemma_flags_fit();
        }
        BufferTarget { bits: gl::ARRAY_BUFFER | gl::ATOMIC_COUNTER_BUFFER | gl::COPY_READ_BUFFER | gl::COPY_WRITE_BUFFER | gl::DISPATCH_INDIRECT_BUFFER | gl::DRAW_INDIRECT_BUFFER | gl::ELEMENT_ARRAY_BUFFER | gl::PIXEL_PACK_BUFFER | gl::PIXEL_UNPACK_BUFFER | gl::QUERY_BUFFER | gl::SHADER_STORAGE_BUFFER | gl::TEXTURE_BUFFER | gl::TRANSFORM_FEEDBACK_BUFFER | gl::UNIFORM_BUFFER }
    }

    /// The bits of the set. None of them is outside the flags.
    pub fn bits(&self) -> (bits: u32)
        ensures
            bits == self@,
            bits & !Self::all_bits() == 0,
    {
        proof {
            use_type_invariant(self);
        }
        self.bits
    }

    /// The set with the bits `bits`, unless one of them is in no flag.
    pub fn from_bits(bits: u32) -> (set: Option<Self>)
        ensures
            set is Some <==> bits & !Self::all_bits() == 0,
            set matches Some(s) ==> s@ == bits,
    {
        if bits & !Self::all().bits == 0 {
            Some(BufferTarget { bits })
        } else {
            None
        }
    }

    /// The set with those of the bits `bits` that are in a flag.
    pub fn from_bits_truncate(bits: u32) -> (set: Self)
        ensures
            set@ == bits & Self::all_bits(),
    {
        proof {
            flags::lemma_masked_fits(bits, Self::all_bits());
        }
        BufferTarget { bits: bits & Self::all().bits }
    }

    /// Whether the set holds every flag of `other`.
    pub fn contains(&self, other: Self) -> (held: bool)
        ensures
            held == (self@ & other@ == other@),
    {
        self.bits & other.bits == other.bits
    }

    /// The flags of both sets.
    pub fn union(self, other: Self) -> (set: Self)
        ensures
            set@ == self@ | other@,
    {
        proof {
            use_type_invariant(&self);
            use_type_invariant(&other);
            flags::lemma_union_fits(self.bits, other.bits, Self::all_bits());
        }
        BufferTarget { bits: self.bits | other.bits }
    }

    /// The names of the flags that the set holds, joined by `" | "`, or `"(empty)"`.
    pub fn names(&self) -> (text: String)
        ensures
            text@ == flags::listing(self@, Self::table()),
    {
        let table = [
            (gl::ARRAY_BUFFER, "Array"),
            (gl::ATOMIC_COUNTER_BUFFER, "AtomicCounter"),
            (gl::COPY_READ_BUFFER, "CopyRead"),
            (gl::COPY_WRITE_BUFFER, "CopyWrite"),
            (gl::DISPATCH_INDIRECT_BUFFER, "DispatchIndirect"),
            (gl::DRAW_INDIRECT_BUFFER, "DrawIndirect"),
            (gl::ELEMENT_ARRAY_BUFFER, "ElementArray"),
            (gl::PIXEL_PACK_BUFFER, "PixelPack"),
            (gl::PIXEL_UNPACK_BUFFER, "PixelUnpack"),
            (gl::QUERY_BUFFER, "Query"),
            (gl::SHADER_STORAGE_BUFFER, "ShaderStorage"),
            (gl::TEXTURE_BUFFER, "TextureBuffer"),
            (gl::TRANSFORM_FEEDBACK_BUFFER, "TransformFeedback"),
            (gl::UNIFORM_BUFFER, "Uniform"),
        ];
        assert(table@ =~= Self::table());
        flags::list(self.bits, &table)
    }

}

/// Hints on how a buffer's data will be accessed: how often it is set and used (stream, static,
/// dynamic) and by whom (draw, read, copy).
#[derive(Clone, Copy, Debug, PartialEq, Eq, Structural, PartialOrd, Ord, Hash)]
pub struct BufferUsage {
    bits: u32,
}

impl View for BufferUsage {
    type V = u32;

    closed spec fn view(&self) -> u32 {
        self.bits
    }
}

impl BufferUsage {
    #[verifier::type_invariant]
    spec fn within_all(self) -> bool {
        self.bits & !Self::all_bits() == 0
    }

    /// The bits of all the flags.
    pub open spec fn all_bits() -> u32 {
        gl::STREAM_DRAW | gl::STREAM_READ | gl::STREAM_COPY | gl::STATIC_DRAW | gl::STATIC_READ | gl::STATIC_COPY | gl::DYNAMIC_DRAW | gl::DYNAMIC_READ | gl::DYNAMIC_COPY
    }

    /// The flags with their names, in the order of their declaration.
    pub open spec fn table() -> Seq<(u32, &'static str)> {
        seq![
            (gl::STREAM_DRAW, "StreamDraw"),
            (gl::STREAM_READ, "StreamRead"),
            (gl::STREAM_COPY, "StreamCopy"),
            (gl::STATIC_DRAW, "StaticDraw"),
            (gl::STATIC_READ, "StaticRead"),
            (gl::STATIC_COPY, "StaticCopy"),
            (gl::DYNAMIC_DRAW, "DynamicDraw"),
            (gl::DYNAMIC_READ, "DynamicRead"),
            (gl::DYNAMIC_COPY, "DynamicCopy"),
        ]
    }

    proof fn lemma_flags_fit()
        by (bit_vector)
        ensures
            gl::STREAM_DRAW & !Self::all_bits() == 0,
            gl::STREAM_READ & !Self::all_bits() == 0,
            gl::STREAM_COPY & !Self::all_bits() == 0,
            gl::STATIC_DRAW & !Self::all_bits() == 0,
            gl::STATIC_READ & !Self::all_bits() == 0,
            gl::STATIC_COPY & !Self::all_bits() == 0,
            gl::DYNAMIC_DRAW & !Self::all_bits() == 0,
            gl::DYNAMIC_READ & !Self::all_bits() == 0,
            gl::DYNAMIC_COPY & !Self::all_bits() == 0,
            Self::all_bits() & !Self::all_bits() == 0,
            0u32 & !Self::all_bits() == 0,
    {
    }

    /// The flag `StreamDraw`.
    pub fn stream_draw() -> (flag: Self)
        ensures
            flag@ == gl::STREAM_DRAW,
    {
        proof {
            Self::lemma_flags_fit();
        }
        BufferUsage { bits: gl::STREAM_DRAW }
    }

    /// The flag `StreamRead`.
    pub fn stream_read() -> (flag: Self)
        ensures
            flag@ == gl::STREAM_READ,
    {
        proof {
            Self::lemma_flags_fit();
        }
        BufferUsage { bits: gl::STREAM_READ }
    }

    /// The flag `StreamCopy`.
    pub fn stream_copy() -> (flag: Self)
        ensures
            flag@ == gl::STREAM_COPY,
    {
        proof {
            Self::lemma_flags_fit();
        }
        BufferUsage { bits: gl::STREAM_COPY }
    }

    /// The flag `StaticDraw`.
    pub fn static_draw() -> (flag: Self)
        ensures
            flag@ == gl::STATIC_DRAW,
    {
        proof {
            Self::lemma_flags_fit();
        }
        BufferUsage { bits: gl::STATIC_DRAW }
    }

    /// The flag `StaticRead`.
    pub fn static_read() -> (flag: Self)
        ensures
            flag@ == gl::STATIC_READ,
    {
        proof {
            Self::lemma_flags_fit();
        }
        BufferUsage { bits: gl::STATIC_READ }
    }

    /// The flag `StaticCopy`.
    pub fn static_copy() -> (flag: Self)
        ensures
            flag@ == gl::STATIC_COPY,
    {
        proof {
            Self::lemma_flags_fit();
        }
        BufferUsage { bits: gl::STATIC_COPY }
    }

    /// The flag `DynamicDraw`.
    pub fn dynamic_draw() -> (flag: Self)
        ensures
            flag@ == gl::DYNAMIC_DRAW,
    {
        proof {
            Self::lemma_flags_fit();
        }
        BufferUsage { bits: gl::DYNAMIC_DRAW }
    }

    /// The flag `DynamicRead`.
    pub fn dynamic_read() -> (flag: Self)
        ensures
            flag@ == gl::DYNAMIC_READ,
    {
        proof {
            Self::lemma_flags_fit();
        }
        BufferUsage { bits: gl::DYNAMIC_READ }
    }

    /// The flag `DynamicCopy`.
    pub fn dynamic_copy() -> (flag: Self)
        ensures
            flag@ == gl::DYNAMIC_COPY,
    {
        proof {
            Self::lemma_flags_fit();
        }
        BufferUsage { bits: gl::DYNAMIC_COPY }
    }

    /// The set without a flag.
    pub fn empty() -> (set: Self)
        ensures
            set@ == 0,
    {
        proof {
            Self::lemma_flags_fit();
        }
        BufferUsage { bits: 0 }
    }

    /// The set of all the flags.
    pub fn all() -> (set: Self)
        ensures
            set@ == Self::all_bits(),
    {
        proof {
            Self::lemma_flags_fit();
        }
        BufferUsage { bits: gl::STREAM_DRAW | gl::STREAM_READ | gl::STREAM_COPY | gl::STATIC_DRAW | gl::STATIC_READ | gl::STATIC_COPY | gl::DYNAMIC_DRAW | gl::DYNAMIC_READ | gl::DYNAMIC_COPY }
    }

    /// The bits of the set. None of them is outside the flags.
    pub fn bits(&self) -> (bits: u32)
        ensures
            bits == self@,
            bits & !Self::all_bits() == 0,
    {
        proof {
            use_type_invariant(self);
        }
        self.bits
    }

    /// The set with the bits `bits`, unless one of them is in no flag.
    pub fn from_bits(bits: u32) -> (set: Option<Self>)
        ensures
            set is Some <==> bits & !Self::all_bits() == 0,
            set matches Some(s) ==> s@ == bits,
    {
        if bits & !Self::all().bits == 0 {
            Some(BufferUsage { bits })
        } else {
            None
        }
    }

    /// The set with those of the bits `bits` that are in a flag.
    pub fn from_bits_truncate(bits: u32) -> (set: Self)
        ensures
            set@ == bits & Self::all_bits(),
    {
        proof {
            flags::lemma_masked_fits(bits, Self::all_bits());
        }
        BufferUsage { bits: bits & Self::all().bits }
    }

    /// Whether the set holds every flag of `other`.
    pub fn contains(&self, other: Self) -> (held: bool)
        ensures
            held == (self@ & other@ == other@),
    {
        self.bits & other.bits == other.bits
    }

    /// The flags of both sets.
    pub fn union(self, other: Self) -> (set: Self)
        ensures
            set@ == self@ | other@,
    {
        proof {
            use_type_invariant(&self);
            use_type_invariant(&other);
            flags::lemma_union_fits(self.bits, other.bits, Self::all_bits());
        }
        BufferUsage { bits: self.bits | other.bits }
    }

    /// The names of the flags that the set holds, joined by `" | "`, or `"(empty)"`.
    pub fn names(&self) -> (text: String)
        ensures
            text@ == flags::listing(self@, Self::table()),
    {
        let table = [
            (gl::STREAM_DRAW, "StreamDraw"),
            (gl::STREAM_READ, "StreamRead"),
            (gl::STREAM_COPY, "StreamCopy"),
            (gl::STATIC_DRAW, "StaticDraw"),
            (gl::STATIC_READ, "StaticRead"),
            (gl::STATIC_COPY, "StaticCopy"),
            (gl::DYNAMIC_DRAW, "DynamicDraw"),
            (gl::DYNAMIC_READ, "DynamicRead"),
            (gl::DYNAMIC_COPY, "DynamicCopy"),
        ];
        assert(table@ =~= Self::table());
        flags::list(self.bits, &table)
    }

}

} // verus!
