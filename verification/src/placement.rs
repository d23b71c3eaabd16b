//! Sequential first-fit placement of buffers and images into a shared memory
//! region: a running byte cursor is rounded up to each resource's alignment,
//! the offset recorded, and the cursor advanced by the resource's size.

use vstd::prelude::*;

verus! {

use crate::align::{align_up, lemma_align_up_properties, spec_align_up};
use crate::resources::{BufferContent, BufferKind, MemoryRequirements};

/// Where one requested buffer region ended up: its byte offset in the
/// combined buffer and its size.
#[derive(Debug, Clone, Copy, PartialEq, Eq, Structural)]
pub struct BufferPlacement {
    pub offset: u64,
    pub bytesize: u64,
}

/// The offset a descriptor of the given kind is placed at when the cursor
/// stands at `cursor`: Constant-kind regions are aligned first, the others
/// are packed as-is.
pub open spec fn buffer_offset_from(cursor: int, kind: BufferKind, a: int) -> int {
    if kind is Constant {
        spec_align_up(cursor, a)
    } else {
        cursor
    }
}

/// The byte cursor after placing every descriptor in `descs`, walking them
/// in order from cursor zero. This is also the combined buffer's size.
pub open spec fn buffer_cursor(descs: Seq<BufferContent>, a: int) -> int
    decreases descs.len(),
{
    if descs.len() == 0 {
        0
    } else {
        buffer_offset_from(buffer_cursor(descs.drop_last(), a), descs.last().kind, a)
            + descs.last().bytesize
    }
}

/// The byte offset the `i`-th descriptor is placed at.
pub open spec fn buffer_offset(descs: Seq<BufferContent>, a: int, i: int) -> int
    recommends
        1 <= a,
        0 <= i < descs.len(),
{
    buffer_offset_from(buffer_cursor(descs.take(i), a), descs[i].kind, a)
}

/// The cursor never goes negative.
pub proof fn lemma_buffer_cursor_nonneg(descs: Seq<BufferContent>, a: int)
    requires
        1 <= a,
    ensures
        0 <= buffer_cursor(descs, a),
    decreases descs.len(),
{
    if descs.len() > 0 {
        lemma_buffer_cursor_nonneg(descs.drop_last(), a);
        lemma_align_up_properties(buffer_cursor(descs.drop_last(), a), a);
    }
}

/// Placing one more descriptor advances the cursor from its offset by its
/// size.
pub proof fn lemma_buffer_cursor_step(descs: Seq<BufferContent>, a: int, i: int)
    requires
        1 <= a,
        0 <= i < descs.len(),
    ensures
        buffer_cursor(descs.take(i + 1), a) == buffer_offset(descs, a, i) + descs[i].bytesize,
{
    assert(descs.take(i + 1).drop_last() =~= descs.take(i));
    assert(descs.take(i + 1).last() == descs[i]);
}

/// The cursor is monotone along the walk.
pub proof fn lemma_buffer_cursor_prefix_monotone(descs: Seq<BufferContent>, a: int, i: int, j: int)
    requires
        1 <= a,
        0 <= i <= j <= descs.len(),
    ensures
        buffer_cursor(descs.take(i), a) <= buffer_cursor(descs.take(j), a),
    decreases j - i,
{
    if i < j {
        lemma_buffer_cursor_prefix_monotone(descs, a, i, j - 1);
        lemma_buffer_cursor_step(descs, a, j - 1);
        lemma_buffer_cursor_nonneg(descs.take(j - 1), a);
        lemma_align_up_properties(buffer_cursor(descs.take(j - 1), a), a);
    }
}

/// Every offset sits at or above the cursor it was placed from, and the
/// region it starts never reaches past the cursor after it.
pub proof fn lemma_buffer_offset_bounds(descs: Seq<BufferContent>, a: int, i: int)
    requires
        1 <= a,
        0 <= i < descs.len(),
    ensures
        buffer_cursor(descs.take(i), a) <= buffer_offset(descs, a, i),
        buffer_offset(descs, a, i) + descs[i].bytesize == buffer_cursor(descs.take(i + 1), a),
        0 <= buffer_offset(descs, a, i),
{
    lemma_buffer_cursor_nonneg(descs.take(i), a);
    lemma_align_up_properties(buffer_cursor(descs.take(i), a), a);
    lemma_buffer_cursor_step(descs, a, i);
}

/// Soundness of the packing rule, for any descriptor list: a Constant-kind
/// region always starts on a multiple of the configured alignment, and the
/// placed byte ranges are pairwise disjoint and in descriptor order.
pub proof fn lemma_buffer_placement_sound(descs: Seq<BufferContent>, a: int)
    requires
        1 <= a,
    ensures
        forall|i: int|
            0 <= i < descs.len() && descs[i].kind is Constant ==> #[trigger] buffer_offset(
                descs,
                a,
                i,
            ) % a == 0,
        forall|i: int, j: int|
            #![trigger buffer_offset(descs, a, i), buffer_offset(descs, a, j)]
            0 <= i < j < descs.len() ==> buffer_offset(descs, a, i) + descs[i].bytesize
                <= buffer_offset(descs, a, j),
{
    assert forall|i: int|
        0 <= i < descs.len() && descs[i].kind is Constant implies #[trigger] buffer_offset(
        descs,
        a,
        i,
    ) % a == 0 by {
        lemma_buffer_cursor_nonneg(descs.take(i), a);
        lemma_align_up_properties(buffer_cursor(descs.take(i), a), a);
    }
    assert forall|i: int, j: int|
        #![trigger buffer_offset(descs, a, i), buffer_offset(descs, a, j)]
        0 <= i < j < descs.len() implies buffer_offset(descs, a, i) + descs[i].bytesize
        <= buffer_offset(descs, a, j) by {
        lemma_buffer_offset_bounds(descs, a, i);
        lemma_buffer_cursor_prefix_monotone(descs, a, i + 1, j);
        lemma_buffer_offset_bounds(descs, a, j);
    }
}

/// Walks the descriptors in order and records each one's offset, aligning
/// the cursor for Constant-kind regions. Returns the placements and the
/// final cursor, which is the combined buffer's size.
pub fn plan_buffer_placements(descs: &Vec<BufferContent>, const_align: u64) -> (r: (
    Vec<BufferPlacement>,
    u64,
))
    requires
        1 <= const_align,
        buffer_cursor(descs@, const_align as int) <= u64::MAX,
    ensures
        r.0@.len() == descs@.len(),
        forall|i: int|
            0 <= i < descs@.len() ==> #[trigger] r.0@[i].offset == buffer_offset(
                descs@,
                const_align as int,
                i,
            ) && r.0@[i].bytesize == descs@[i].bytesize,
        r.1 == buffer_cursor(descs@, const_align as int),
{
    let ghost a: int = const_align as int;
    let mut out: Vec<BufferPlacement> = Vec::new();
    let mut cursor: u64 = 0;
    let mut j: usize = 0;
    while j < descs.len()
        invariant
            1 <= const_align,
            buffer_cursor(descs@, a) <= u64::MAX,
            a == const_align as int,
            0 <= j <= descs@.len(),
            out@.len() == j,
            cursor == buffer_cursor(descs@.take(j as int), a),
            forall|i: int|
                0 <= i < j ==> #[trigger] out@[i].offset == buffer_offset(descs@, a, i)
                    && out@[i].bytesize == descs@[i].bytesize,
        decreases descs@.len() - j,
    {
        let d = descs[j];
        proof {
            lemma_buffer_cursor_step(descs@, a, j as int);
            lemma_buffer_cursor_prefix_monotone(descs@, a, j as int + 1, descs@.len() as int);
            assert(descs@.take(descs@.len() as int) =~= descs@);
            lemma_buffer_offset_bounds(descs@, a, j as int);
        }
        let offset = match d.kind {
            BufferKind::Constant => align_up(cursor, const_align),
            _ => cursor,
        };
        proof {
            assert(offset == buffer_offset(descs@, a, j as int));
        }
        let ghost pre = out@;
        out.push(BufferPlacement { offset, bytesize: d.bytesize });
        cursor = offset + d.bytesize;
        proof {
            assert forall|i: int| 0 <= i < j + 1 implies #[trigger] out@[i].offset
                == buffer_offset(descs@, a, i) && out@[i].bytesize == descs@[i].bytesize by {
                if i < j {
                    assert(out@[i] == pre[i]);
                } else {
                    assert(out@[i] == (BufferPlacement { offset, bytesize: d.bytesize }));
                }
            }
        }
        j = j + 1;
    }
    proof {
        assert(descs@.take(descs@.len() as int) =~= descs@);
    }
    (out, cursor)
}

/// Whether every reported alignment is usable (at least one byte).
pub open spec fn valid_requirements(reqs: Seq<MemoryRequirements>) -> bool {
    forall|i: int| 0 <= i < reqs.len() ==> 1 <= #[trigger] reqs[i].alignment
}

/// The byte cursor after placing every image in order: each one's offset is
/// the cursor rounded up to that image's reported alignment, and the cursor
/// then advances by its reported size.
pub open spec fn image_cursor(reqs: Seq<MemoryRequirements>) -> int
    decreases reqs.len(),
{
    if reqs.len() == 0 {
        0
    } else {
        spec_align_up(image_cursor(reqs.drop_last()), reqs.last().alignment as int)
            + reqs.last().size
    }
}

/// The byte offset the `i`-th image is placed at.
pub open spec fn image_offset(reqs: Seq<MemoryRequirements>, i: int) -> int
    recommends
        0 <= i < reqs.len(),
{
    spec_align_up(image_cursor(reqs.take(i)), reqs[i].alignment as int)
}

pub proof fn lemma_image_cursor_nonneg(reqs: Seq<MemoryRequirements>)
    requires
        valid_requirements(reqs),
    ensures
        0 <= image_cursor(reqs),
    decreases reqs.len(),
{
    if reqs.len() > 0 {
        assert(valid_requirements(reqs.drop_last()));
        lemma_image_cursor_nonneg(reqs.drop_last());
        lemma_align_up_properties(image_cursor(reqs.drop_last()), reqs.last().alignment as int);
    }
}

pub proof fn lemma_image_cursor_step(reqs: Seq<MemoryRequirements>, i: int)
    requires
        valid_requirements(reqs),
        0 <= i < reqs.len(),
    ensures
        image_cursor(reqs.take(i + 1)) == image_offset(reqs, i) + reqs[i].size,
{
    assert(reqs.take(i + 1).drop_last() =~= reqs.take(i));
    assert(reqs.take(i + 1).last() == reqs[i]);
}

pub proof fn lemma_image_cursor_prefix_monotone(reqs: Seq<MemoryRequirements>, i: int, j: int)
    requires
        valid_requirements(reqs),
        0 <= i <= j <= reqs.len(),
    ensures
        image_cursor(reqs.take(i)) <= image_cursor(reqs.take(j)),
    decreases j - i,
{
    if i < j {
        lemma_image_cursor_prefix_monotone(reqs, i, j - 1);
        lemma_image_cursor_step(reqs, j - 1);
        assert(valid_requirements(reqs.take(j - 1)));
        lemma_image_cursor_nonneg(reqs.take(j - 1));
        lemma_align_up_properties(image_cursor(reqs.take(j - 1)), reqs[j - 1].alignment as int);
    }
}

pub proof fn lemma_image_offset_bounds(reqs: Seq<MemoryRequirements>, i: int)
    requires
        valid_requirements(reqs),
        0 <= i < reqs.len(),
    ensures
        image_cursor(reqs.take(i)) <= image_offset(reqs, i),
        image_offset(reqs, i) + reqs[i].size == image_cursor(reqs.take(i + 1)),
        0 <= image_offset(reqs, i),
{
    assert(valid_requirements(reqs.take(i)));
    lemma_image_cursor_nonneg(reqs.take(i));
    lemma_align_up_properties(image_cursor(reqs.take(i)), reqs[i].alignment as int);
    lemma_image_cursor_step(reqs, i);
}

/// Soundness of image placement, for any requirement list: each image's
/// offset is a multiple of that image's reported alignment, and the placed
/// byte ranges are pairwise disjoint and in order.
pub proof fn lemma_image_placement_sound(reqs: Seq<MemoryRequirements>)
    requires
        valid_requirements(reqs),
    ensures
        forall|i: int|
            0 <= i < reqs.len() ==> #[trigger] image_offset(reqs, i) % (reqs[i].alignment as int)
                == 0,
        forall|i: int, j: int|
            #![trigger image_offset(reqs, i), image_offset(reqs, j)]
            0 <= i < j < reqs.len() ==> image_offset(reqs, i) + reqs[i].size <= image_offset(
                reqs,
                j,
            ),
{
    assert forall|i: int| 0 <= i < reqs.len() implies #[trigger] image_offset(reqs, i) % (
    reqs[i].alignment as int) == 0 by {
        assert(valid_requirements(reqs.take(i)));
        lemma_image_cursor_nonneg(reqs.take(i));
        lemma_align_up_properties(image_cursor(reqs.take(i)), reqs[i].alignment as int);
    }
    assert forall|i: int, j: int|
        #![trigger image_offset(reqs, i), image_offset(reqs, j)]
        0 <= i < j < reqs.len() implies image_offset(reqs, i) + reqs[i].size <= image_offset(
        reqs,
        j,
    ) by {
        lemma_image_offset_bounds(reqs, i);
        lemma_image_cursor_prefix_monotone(reqs, i + 1, j);
        lemma_image_offset_bounds(reqs, j);
    }
}

/// Walks the reported requirements in order, aligning the cursor to each
/// image's own alignment. Returns every image's offset and the final cursor,
/// the total image bytes of the region.
pub fn plan_image_placements(reqs: &Vec<MemoryRequirements>) -> (r: (Vec<u64>, u64))
    requires
        valid_requirements(reqs@),
        image_cursor(reqs@) <= u64::MAX,
    ensures
        r.0@.len() == reqs@.len(),
        forall|i: int| 0 <= i < reqs@.len() ==> #[trigger] r.0@[i] == image_offset(reqs@, i),
        r.1 == image_cursor(reqs@),
{
    let mut out: Vec<u64> = Vec::new();
    let mut cursor: u64 = 0;
    let mut j: usize = 0;
    while j < reqs.len()
        invariant
            valid_requirements(reqs@),
            image_cursor(reqs@) <= u64::MAX,
            0 <= j <= reqs@.len(),
            out@.len() == j,
            cursor == image_cursor(reqs@.take(j as int)),
            forall|i: int| 0 <= i < j ==> #[trigger] out@[i] == image_offset(reqs@, i),
        decreases reqs@.len() - j,
    {
        let rq = reqs[j];
        proof {
            lemma_image_cursor_step(reqs@, j as int);
            lemma_image_cursor_prefix_monotone(reqs@, j as int + 1, reqs@.len() as int);
            assert(reqs@.take(reqs@.len() as int) =~= reqs@);
            lemma_image_offset_bounds(reqs@, j as int);
        }
        let offset = align_up(cursor, rq.alignment);
        out.push(offset);
        cursor = offset + rq.size;
        j = j + 1;
    }
    proof {
        assert(reqs@.take(reqs@.len() as int) =~= reqs@);
    }
    (out, cursor)
}

/// The combined buffer's base — the image bytes rounded up to the buffer's
/// own alignment — lies at or past the end of every image's range, so the
/// buffer overlaps no image in the shared region.
pub proof fn lemma_buffer_behind_images(reqs: Seq<MemoryRequirements>, buffer_align: int)
    requires
        valid_requirements(reqs),
        1 <= buffer_align,
    ensures
        forall|i: int|
            0 <= i < reqs.len() ==> #[trigger] image_offset(reqs, i) + reqs[i].size
                <= spec_align_up(image_cursor(reqs), buffer_align),
{
    lemma_image_cursor_nonneg(reqs);
    lemma_align_up_properties(image_cursor(reqs), buffer_align);
    assert forall|i: int| 0 <= i < reqs.len() implies #[trigger] image_offset(reqs, i)
        + reqs[i].size <= spec_align_up(image_cursor(reqs), buffer_align) by {
        lemma_image_offset_bounds(reqs, i);
        lemma_image_cursor_prefix_monotone(reqs, i + 1, reqs.len() as int);
        assert(reqs.take(reqs.len() as int) =~= reqs);
    }
}

/// Base offset of the combined buffer inside a region that begins with
/// `image_total` bytes of images, and the region's total size: the buffer
/// starts at the image bytes rounded up to the buffer's own reported
/// alignment.
pub fn region_total_size(image_total: u64, buffer_align: u64, buffer_size: u64) -> (r: (u64, u64))
    requires
        1 <= buffer_align,
        spec_align_up(image_total as int, buffer_align as int) + buffer_size <= u64::MAX,
    ensures
        r.0 == spec_align_up(image_total as int, buffer_align as int),
        r.1 == r.0 + buffer_size,
{
    let base = align_up(image_total, buffer_align);
    (base, base + buffer_size)
}

} // verus!
