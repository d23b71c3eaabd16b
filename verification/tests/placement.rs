use dc2017::align::align_up;
use dc2017::placement::{plan_buffer_placements, plan_image_placements, region_total_size};
use dc2017::resources::{combined_buffer_usage, BufferContent, BufferKind, MemoryRequirements};

fn buf(kind: BufferKind, bytesize: u64) -> BufferContent {
    BufferContent { kind, bytesize }
}

#[test]
fn align_up_identity_on_multiples() {
    assert_eq!(align_up(0, 256), 0);
    assert_eq!(align_up(256, 256), 256);
    assert_eq!(align_up(512, 1), 512);
}

#[test]
fn align_up_rounds_to_next_multiple() {
    assert_eq!(align_up(1, 256), 256);
    assert_eq!(align_up(255, 256), 256);
    assert_eq!(align_up(257, 256), 512);
    assert_eq!(align_up(300, 64), 320);
}

#[test]
fn vertex_then_constant_offsets() {
    // A vertex region of 256 bytes then a constant region of 40 bytes, with
    // a constant alignment of 256, land at 0 and 256; the combined buffer is
    // 296 bytes.
    let descs = vec![buf(BufferKind::Vertex, 256), buf(BufferKind::Constant, 40)];
    let (placements, total) = plan_buffer_placements(&descs, 256);
    assert_eq!(placements.len(), 2);
    assert_eq!(placements[0].offset, 0);
    assert_eq!(placements[0].bytesize, 256);
    assert_eq!(placements[1].offset, 256);
    assert_eq!(placements[1].bytesize, 40);
    assert_eq!(total, 296);
}

#[test]
fn constant_at_start_is_already_aligned() {
    let descs = vec![buf(BufferKind::Constant, 40)];
    let (placements, total) = plan_buffer_placements(&descs, 256);
    assert_eq!(placements[0].offset, 0);
    assert_eq!(total, 40);
}

#[test]
fn constant_alignment_not_applied_retroactively() {
    // The unaligned index region after the constant one starts right where
    // the constant region ends; the constant region's alignment only pushed
    // the cursor going into it.
    let descs = vec![
        buf(BufferKind::Vertex, 100),
        buf(BufferKind::Constant, 50),
        buf(BufferKind::Index, 20),
    ];
    let (placements, total) = plan_buffer_placements(&descs, 64);
    assert_eq!(placements[0].offset, 0);
    assert_eq!(placements[1].offset, 128);
    assert_eq!(placements[2].offset, 178);
    assert_eq!(total, 198);
}

#[test]
fn no_buffers_no_placement() {
    let descs: Vec<BufferContent> = Vec::new();
    let (placements, total) = plan_buffer_placements(&descs, 256);
    assert!(placements.is_empty());
    assert_eq!(total, 0);
}

#[test]
fn buffer_ranges_do_not_overlap() {
    let descs = vec![
        buf(BufferKind::Constant, 17),
        buf(BufferKind::Vertex, 3),
        buf(BufferKind::Constant, 1),
        buf(BufferKind::Index, 9),
    ];
    let (placements, _) = plan_buffer_placements(&descs, 32);
    for i in 0..placements.len() {
        if descs[i].kind == BufferKind::Constant {
            assert_eq!(placements[i].offset % 32, 0);
        }
        for j in (i + 1)..placements.len() {
            assert!(placements[i].offset + placements[i].bytesize <= placements[j].offset);
        }
    }
}

#[test]
fn usage_union_covers_all_kinds() {
    let descs = vec![buf(BufferKind::Vertex, 8), buf(BufferKind::Constant, 8)];
    let usage = combined_buffer_usage(&descs);
    assert!(usage.vertex);
    assert!(!usage.index);
    assert!(usage.uniform);

    let none = combined_buffer_usage(&Vec::new());
    assert!(!none.vertex && !none.index && !none.uniform);
}

#[test]
fn image_offsets_respect_reported_alignment() {
    let reqs = vec![
        MemoryRequirements { size: 100, alignment: 64 },
        MemoryRequirements { size: 50, alignment: 128 },
        MemoryRequirements { size: 10, alignment: 1 },
    ];
    let (offsets, total) = plan_image_placements(&reqs);
    assert_eq!(offsets, vec![0, 128, 178]);
    assert_eq!(total, 188);
    for (o, r) in offsets.iter().zip(reqs.iter()) {
        assert_eq!(o % r.alignment, 0);
    }
}

#[test]
fn empty_image_list_takes_no_space() {
    let (offsets, total) = plan_image_placements(&Vec::new());
    assert!(offsets.is_empty());
    assert_eq!(total, 0);
}

#[test]
fn region_places_buffer_after_images() {
    let (base, total) = region_total_size(178, 16, 296);
    assert_eq!(base, 192);
    assert_eq!(total, 488);
    // No buffer: the reported alignment defaults to one and nothing is
    // appended.
    let (base, total) = region_total_size(178, 1, 0);
    assert_eq!(base, 178);
    assert_eq!(total, 178);
}
