//! Sizing arithmetic for the one-time geometry upload: slicing the scene's
//! interleaved byte buffer into its vertex and index regions, counting the
//! elements each region holds, and rounding the staging arena up to the
//! transfer alignment.

use vstd::prelude::*;
use vstd::arithmetic::div_mod::{
    lemma_fundamental_div_mod, lemma_mod_bound, lemma_mod_multiples_basic,
};

verus! {

/// Bytes one vertex occupies: a three-component position of four-byte
/// floating-point numbers.
pub const VERTEX_BYTE_STRIDE: usize = 12;

/// Bytes one index occupies: one 16-bit unsigned integer.
pub const INDEX_BYTE_STRIDE: usize = 2;

/// Alignment the staging arena is padded to.
pub const STAGING_ALIGNMENT: usize = 256;

/// `number` rounded up to the next multiple of `alignment`: the one
/// multiple inside `[number, number + alignment)`.
pub fn align_usize(number: usize, alignment: usize) -> (r: usize)
    requires
        0 < alignment,
        number + alignment - 1 <= usize::MAX,
    ensures
        r % alignment == 0,
        number <= r,
        r < number + alignment,
{
    let padded = number + (alignment - 1);
    let quotient = padded / alignment;
    proof {
        let p = padded as int;
        let a = alignment as int;
        lemma_fundamental_div_mod(p, a);
        lemma_mod_bound(p, a);
        assert(quotient as int == p / a);
        assert(a * (p / a) == p - p % a);
        assert(quotient as int * a == p - p % a) by {
            assert(quotient as int * a == a * (p / a));
        }
        lemma_mod_multiples_basic(quotient as int, a);
    }
    quotient * alignment
}

/// A contiguous region of the scene's single binary buffer, as the scene
/// file declares it.
#[derive(Clone, Copy, PartialEq, Eq, Structural, Debug)]
pub struct BufferRegion {
    pub offset: usize,
    pub length: usize,
}

impl BufferRegion {
    /// The region lies inside a buffer of `buffer_len` bytes.
    pub open spec fn spec_fits(self, buffer_len: usize) -> bool {
        self.offset + self.length <= buffer_len
    }

    /// One-past-the-end position of the region.
    pub open spec fn spec_end(self) -> int {
        self.offset + self.length
    }
}

/// The byte ranges of the two geometry regions, each as half-open start and
/// end positions into the scene buffer.
#[derive(Clone, Copy, PartialEq, Eq, Structural, Debug)]
pub struct GeometryRanges {
    pub vertex_start: usize,
    pub vertex_end: usize,
    pub index_start: usize,
    pub index_end: usize,
}

/// Resolves the vertex region (declared first in the scene) and the index
/// region (declared second) against the buffer, checking both stay in
/// bounds. `None` exactly when either region overruns the buffer.
pub fn geometry_byte_ranges(
    buffer_len: usize,
    vertex_region: BufferRegion,
    index_region: BufferRegion,
) -> (r: Option<GeometryRanges>)
    ensures
        r is Some <==> vertex_region.spec_fits(buffer_len) && index_region.spec_fits(buffer_len),
        r matches Option::Some(g) ==> {
            &&& g.vertex_start == vertex_region.offset
            &&& g.vertex_end == vertex_region.spec_end()
            &&& g.index_start == index_region.offset
            &&& g.index_end == index_region.spec_end()
            &&& g.vertex_end <= buffer_len
            &&& g.index_end <= buffer_len
        },
{
    if vertex_region.length > buffer_len || vertex_region.offset > buffer_len - vertex_region.length
    {
        return Option::None;
    }
    if index_region.length > buffer_len || index_region.offset > buffer_len - index_region.length {
        return Option::None;
    }
    Option::Some(
        GeometryRanges {
            vertex_start: vertex_region.offset,
            vertex_end: vertex_region.offset + vertex_region.length,
            index_start: index_region.offset,
            index_end: index_region.offset + index_region.length,
        },
    )
}

/// How many whole elements of `stride` bytes a region of `byte_length`
/// bytes holds; `None` exactly when the region is not a whole number of
/// elements.
pub fn element_count(byte_length: usize, stride: usize) -> (r: Option<usize>)
    requires
        0 < stride,
    ensures
        r is Some <==> byte_length % stride == 0,
        r matches Option::Some(n) ==> n == byte_length / stride,
{
    if byte_length % stride == 0 {
        Option::Some(byte_length / stride)
    } else {
        Option::None
    }
}

/// Size of the staging arena for the one-time upload: the vertex and index
/// payloads back to back, padded to the transfer alignment.
pub fn staging_arena_size(vertex_bytes: usize, index_bytes: usize) -> (r: usize)
    requires
        vertex_bytes + index_bytes + STAGING_ALIGNMENT - 1 <= usize::MAX,
    ensures
        r % STAGING_ALIGNMENT == 0,
        vertex_bytes + index_bytes <= r,
        r < vertex_bytes + index_bytes + STAGING_ALIGNMENT,
{
    align_usize(vertex_bytes + index_bytes, STAGING_ALIGNMENT)
}

} // verus!
