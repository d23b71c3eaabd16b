use dc2017::builtin::{get_builtin_vertex_array, BuiltinResourceKey};
use dc2017::recorder::{
    get_primary_render_target, new_render_command_buffer, new_render_subcommand_buffer,
    CommandRecorder, IndexBufferSlice, IndexFormat, RenderCommand, RenderTarget, VertexArray,
    VertexBufferSlice,
};

fn open_passes(cmds: &[RenderCommand]) -> i64 {
    let mut open = 0i64;
    for c in cmds {
        match c {
            RenderCommand::BeginPass { .. } => {
                assert_eq!(open, 0, "a pass was opened while one was open");
                open += 1;
            }
            RenderCommand::EndPass => {
                assert_eq!(open, 1, "a pass was closed while none was open");
                open -= 1;
            }
            _ => {}
        }
    }
    open
}

#[test]
fn fresh_recording_is_empty() {
    let pool = new_render_command_buffer(3);
    assert_eq!(pool.count, 3);
    assert!(!pool.secondary);
    let rec = pool.begin_recording(0);
    assert!(!rec.in_render_pass);
    assert!(rec.commands.is_empty());
}

#[test]
fn subcommand_pool_is_secondary() {
    let pool = new_render_subcommand_buffer(2);
    assert!(pool.secondary);
}

#[test]
fn set_target_opens_one_pass_and_scope_end_closes_it() {
    let mut rec = CommandRecorder::begin_recording();
    let target = get_primary_render_target(0);
    rec.set_render_target(&target);
    assert!(rec.in_render_pass);
    let cmds = rec.finish();
    assert_eq!(
        cmds,
        vec![
            RenderCommand::BeginPass { target: RenderTarget::PrimaryRT(0), cleared: true },
            RenderCommand::EndPass,
        ]
    );
    assert_eq!(open_passes(&cmds), 0);
}

#[test]
fn switching_targets_closes_the_previous_pass() {
    let mut rec = CommandRecorder::begin_recording();
    rec.set_render_target(&get_primary_render_target(0));
    rec.set_render_target(&RenderTarget::Owned { handle: 4, has_clear: false });
    let cmds = rec.finish();
    assert_eq!(
        cmds,
        vec![
            RenderCommand::BeginPass { target: RenderTarget::PrimaryRT(0), cleared: true },
            RenderCommand::EndPass,
            RenderCommand::BeginPass {
                target: RenderTarget::Owned { handle: 4, has_clear: false },
                cleared: false,
            },
            RenderCommand::EndPass,
        ]
    );
    assert_eq!(open_passes(&cmds), 0);
}

#[test]
fn subcommand_passes_are_self_contained() {
    let mut rec = CommandRecorder::begin_recording();
    let target = get_primary_render_target(1);
    rec.execute_subcommands_into(&target, 2);
    assert!(!rec.in_render_pass);
    let cmds = rec.finish();
    assert_eq!(
        cmds,
        vec![
            RenderCommand::BeginPass { target: RenderTarget::PrimaryRT(1), cleared: true },
            RenderCommand::ExecuteCommands { count: 2 },
            RenderCommand::EndPass,
        ]
    );
    assert_eq!(open_passes(&cmds), 0);
}

#[test]
fn every_ordering_of_pass_operations_ends_closed() {
    let t0 = get_primary_render_target(0);
    let t1 = RenderTarget::Owned { handle: 9, has_clear: true };
    // All orderings of two pass-managing calls.
    for first_sets in [true, false] {
        for second_sets in [true, false] {
            let mut rec = CommandRecorder::begin_recording();
            if first_sets {
                rec.set_render_target(&t0);
            } else {
                rec.execute_subcommands_into(&t0, 1);
            }
            if second_sets {
                rec.set_render_target(&t1);
            } else {
                rec.execute_subcommands_into(&t1, 1);
            }
            let cmds = rec.finish();
            assert_eq!(open_passes(&cmds), 0);
            assert!(!matches!(cmds.last(), Some(RenderCommand::BeginPass { .. })));
        }
    }
}

#[test]
fn prepare_records_one_barrier_per_target() {
    let mut rec = CommandRecorder::begin_recording();
    let targets = vec![get_primary_render_target(0), get_primary_render_target(1)];
    rec.prepare_render_targets(&targets);
    assert!(!rec.in_render_pass);
    let cmds = rec.finish();
    assert_eq!(
        cmds,
        vec![
            RenderCommand::BarrierPresentToAttachment { target: RenderTarget::PrimaryRT(0) },
            RenderCommand::BarrierPresentToAttachment { target: RenderTarget::PrimaryRT(1) },
        ]
    );
}

#[test]
fn indexed_draw_binds_both_slices() {
    let mut rec = CommandRecorder::begin_recording();
    let va = VertexArray {
        vb_desc: VertexBufferSlice { buffer: 0, offset: 0, count: 4 },
        ib_desc: Some(IndexBufferSlice { buffer: 0, offset: 128, format: IndexFormat::U16, count: 6 }),
    };
    rec.draw(&va, 1);
    let cmds = rec.finish();
    assert_eq!(
        cmds,
        vec![
            RenderCommand::BindVertexBuffer { buffer: 0, offset: 0 },
            RenderCommand::BindIndexBuffer { buffer: 0, offset: 128, format: IndexFormat::U16 },
            RenderCommand::DrawIndexed { index_count: 6, instance_count: 1 },
        ]
    );
}

#[test]
fn plain_draw_uses_the_vertex_count() {
    let mut rec = CommandRecorder::begin_recording();
    let va = VertexArray {
        vb_desc: VertexBufferSlice { buffer: 2, offset: 64, count: 3 },
        ib_desc: None,
    };
    rec.draw(&va, 5);
    let cmds = rec.finish();
    assert_eq!(
        cmds,
        vec![
            RenderCommand::BindVertexBuffer { buffer: 2, offset: 64 },
            RenderCommand::Draw { vertex_count: 3, instance_count: 5 },
        ]
    );
}

#[test]
fn builtin_unit_rect_layout() {
    let va = get_builtin_vertex_array(BuiltinResourceKey::UnitRect, 7);
    assert_eq!(va.vb_desc.buffer, 7);
    assert_eq!(va.vb_desc.offset, 0);
    assert_eq!(va.vb_desc.count, 4);
    let ib = va.ib_desc.expect("the unit rectangle is indexed");
    assert_eq!(ib.buffer, 7);
    assert_eq!(ib.offset, 128);
    assert_eq!(ib.format, IndexFormat::U16);
    assert_eq!(ib.count, 6);
}
