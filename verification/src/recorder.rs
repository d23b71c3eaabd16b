//! Recording one frame's command sequence. The recorder tracks whether a
//! render pass is open, closes the old pass before opening a new target,
//! and closes whatever is still open when the recording scope ends — a
//! recording never leaves a dangling open pass behind.

use vstd::prelude::*;

verus! {

/// Width of the indices a draw reads.
#[derive(Debug, Clone, Copy, PartialEq, Eq, Structural)]
pub enum IndexFormat {
    U16,
    U32,
}

/// A run of vertices inside a buffer object.
#[derive(Debug, Clone, Copy, PartialEq, Eq, Structural)]
pub struct VertexBufferSlice {
    pub buffer: usize,
    pub offset: usize,
    pub count: usize,
}

/// A run of indices inside a buffer object.
#[derive(Debug, Clone, Copy, PartialEq, Eq, Structural)]
pub struct IndexBufferSlice {
    pub buffer: usize,
    pub offset: usize,
    pub format: IndexFormat,
    pub count: usize,
}

/// What a draw call consumes: a vertex slice, and an index slice when the
/// draw is indexed.
#[derive(Debug, Clone, Copy, PartialEq, Eq, Structural)]
pub struct VertexArray {
    pub vb_desc: VertexBufferSlice,
    pub ib_desc: Option<IndexBufferSlice>,
}

/// Where a pass renders to: one of the swap chain's primary targets — which
/// always clear to the configured background — or a caller-owned target that
/// chooses whether it is cleared.
#[derive(Debug, Clone, Copy, PartialEq, Eq, Structural)]
pub enum RenderTarget {
    PrimaryRT(usize),
    Owned { handle: usize, has_clear: bool },
}

/// Whether opening a pass on this target clears it first.
pub open spec fn spec_opt_clear(t: RenderTarget) -> bool {
    match t {
        RenderTarget::PrimaryRT(_) => true,
        RenderTarget::Owned { has_clear, .. } => has_clear,
    }
}

impl RenderTarget {
    /// Whether this target has a configured clear.
    pub fn opt_clear(&self) -> (r: bool)
        ensures
            r == spec_opt_clear(*self),
    {
        match self {
            RenderTarget::PrimaryRT(_) => true,
            RenderTarget::Owned { has_clear, .. } => *has_clear,
        }
    }
}

/// One recorded command.
#[derive(Debug, Clone, Copy, PartialEq, Eq, Structural)]
pub enum RenderCommand {
    /// Layout transition of a target's image from presentable to
    /// colour-attachment-writable; runs once per frame before the target's
    /// first use.
    BarrierPresentToAttachment { target: RenderTarget },
    BeginPass { target: RenderTarget, cleared: bool },
    EndPass,
    /// Injection of pre-recorded secondary command sequences.
    ExecuteCommands { count: usize },
    BindVertexBuffer { buffer: usize, offset: usize },
    BindIndexBuffer { buffer: usize, offset: usize, format: IndexFormat },
    Draw { vertex_count: usize, instance_count: usize },
    DrawIndexed { index_count: usize, instance_count: usize },
}

/// Whether a render pass is open after this command sequence: the most
/// recent pass-begin or pass-end decides.
pub open spec fn pass_open_after(cmds: Seq<RenderCommand>) -> bool
    decreases cmds.len(),
{
    if cmds.len() == 0 {
        false
    } else {
        match cmds.last() {
            RenderCommand::BeginPass { .. } => true,
            RenderCommand::EndPass => false,
            _ => pass_open_after(cmds.drop_last()),
        }
    }
}

/// Pass begins and ends alternate properly: a pass opens only when none is
/// open and closes only when one is.
pub open spec fn passes_well_nested(cmds: Seq<RenderCommand>) -> bool
    decreases cmds.len(),
{
    if cmds.len() == 0 {
        true
    } else {
        passes_well_nested(cmds.drop_last()) && match cmds.last() {
            RenderCommand::BeginPass { .. } => !pass_open_after(cmds.drop_last()),
            RenderCommand::EndPass => pass_open_after(cmds.drop_last()),
            _ => true,
        }
    }
}

/// The commands that close the open pass, if one is open.
pub open spec fn close_seq(open: bool) -> Seq<RenderCommand> {
    if open {
        seq![RenderCommand::EndPass]
    } else {
        Seq::empty()
    }
}

/// The barriers `prepare_render_targets` records, one per target in order.
pub open spec fn prepare_barriers(targets: Seq<RenderTarget>) -> Seq<RenderCommand> {
    Seq::new(
        targets.len(),
        |i: int| RenderCommand::BarrierPresentToAttachment { target: targets[i] },
    )
}

/// One recording session on a pooled command buffer: the commands recorded
/// so far and whether a render pass is currently open.
#[derive(Debug, PartialEq, Eq)]
pub struct CommandRecorder {
    pub in_render_pass: bool,
    pub commands: Vec<RenderCommand>,
}

/// The recorder's invariant: its flag mirrors the recorded sequence, and the
/// recorded passes are properly nested. Every recording operation preserves
/// it.
pub open spec fn recorder_wf(r: CommandRecorder) -> bool {
    &&& r.in_render_pass == pass_open_after(r.commands@)
    &&& passes_well_nested(r.commands@)
}

/// How recording one more command moves the pass state: a begin opens, an
/// end closes, everything else leaves it alone — and well-nestedness asks
/// exactly that begins find the pass closed and ends find it open.
pub proof fn lemma_push_pass_state(s: Seq<RenderCommand>, c: RenderCommand)
    ensures
        s.push(c).drop_last() == s,
        s.push(c).last() == c,
        pass_open_after(s.push(c)) == (match c {
            RenderCommand::BeginPass { .. } => true,
            RenderCommand::EndPass => false,
            _ => pass_open_after(s),
        }),
        passes_well_nested(s.push(c)) == (passes_well_nested(s) && match c {
            RenderCommand::BeginPass { .. } => !pass_open_after(s),
            RenderCommand::EndPass => pass_open_after(s),
            _ => true,
        }),
{
    assert(s.push(c).drop_last() =~= s);
}

/// However a recording went, closing the still-open pass — what the end of
/// the recording scope does — leaves no pass open.
pub proof fn lemma_finish_closes_pass(cmds: Seq<RenderCommand>)
    ensures
        !pass_open_after(cmds + close_seq(pass_open_after(cmds))),
{
    if pass_open_after(cmds) {
        let closed = cmds + close_seq(true);
        assert(closed.last() == RenderCommand::EndPass);
    } else {
        assert(cmds + close_seq(false) =~= cmds);
    }
}

impl CommandRecorder {
    /// Opens a recording session: nothing recorded, no pass open.
    pub fn begin_recording() -> (r: Self)
        ensures
            r.commands@ == Seq::<RenderCommand>::empty(),
            !r.in_render_pass,
            recorder_wf(r),
    {
        CommandRecorder { in_render_pass: false, commands: Vec::new() }
    }

    /// Records the batch of layout transitions that make each target's image
    /// writable as a colour attachment, one barrier per target in order.
    /// The pass state does not change.
    pub fn prepare_render_targets(&mut self, targets: &Vec<RenderTarget>)
        requires
            recorder_wf(*old(self)),
        ensures
            recorder_wf(*final(self)),
            final(self).in_render_pass == old(self).in_render_pass,
            final(self).commands@ == old(self).commands@ + prepare_barriers(targets@),
    {
        let ghost base = self.commands@;
        let mut j: usize = 0;
        while j < targets.len()
            invariant
                0 <= j <= targets@.len(),
                self.commands@ =~= base + prepare_barriers(targets@.take(j as int)),
                self.in_render_pass == old(self).in_render_pass,
                base == old(self).commands@,
                pass_open_after(self.commands@) == pass_open_after(base),
                passes_well_nested(base) ==> passes_well_nested(self.commands@),
            decreases targets@.len() - j,
        {
            proof {
                lemma_push_pass_state(
                    self.commands@,
                    RenderCommand::BarrierPresentToAttachment { target: targets@[j as int] },
                );
            }
            self.commands.push(RenderCommand::BarrierPresentToAttachment { target: targets[j] });
            proof {
                assert(self.commands@ =~= base + prepare_barriers(targets@.take(j as int + 1)));
            }
            j = j + 1;
        }
        proof {
            assert(targets@.take(targets@.len() as int) =~= targets@);
        }
    }

    /// Closes the pass that is open, if any, and opens a new pass against
    /// `target`, clearing it when the target has a configured clear colour.
    pub fn set_render_target(&mut self, target: &RenderTarget)
        requires
            recorder_wf(*old(self)),
        ensures
            recorder_wf(*final(self)),
            final(self).in_render_pass,
            final(self).commands@ == old(self).commands@ + close_seq(old(self).in_render_pass)
                + seq![
                RenderCommand::BeginPass { target: *target, cleared: spec_opt_clear(*target) },
            ],
    {
        if self.in_render_pass {
            proof {
                lemma_push_pass_state(self.commands@, RenderCommand::EndPass);
            }
            self.commands.push(RenderCommand::EndPass);
            self.in_render_pass = false;
        }
        let cleared = target.opt_clear();
        proof {
            lemma_push_pass_state(
                self.commands@,
                RenderCommand::BeginPass { target: *target, cleared: spec_opt_clear(*target) },
            );
        }
        self.commands.push(RenderCommand::BeginPass { target: *target, cleared });
        proof {
            assert(self.commands@ =~= old(self).commands@ + close_seq(old(self).in_render_pass)
                + seq![
                    RenderCommand::BeginPass { target: *target, cleared: spec_opt_clear(*target) },
                ]);
        }
        self.in_render_pass = true;
    }

    /// Closes the pass that is open, if any; opens a self-contained pass
    /// against `target`, injects the pre-recorded secondary sequences, and
    /// closes the pass again at once.
    pub fn execute_subcommands_into(&mut self, target: &RenderTarget, subcommand_count: usize)
        requires
            recorder_wf(*old(self)),
        ensures
            recorder_wf(*final(self)),
            !final(self).in_render_pass,
            final(self).commands@ == old(self).commands@ + close_seq(old(self).in_render_pass)
                + seq![
                RenderCommand::BeginPass { target: *target, cleared: spec_opt_clear(*target) },
                RenderCommand::ExecuteCommands { count: subcommand_count },
                RenderCommand::EndPass,
            ],
    {
        if self.in_render_pass {
            proof {
                lemma_push_pass_state(self.commands@, RenderCommand::EndPass);
            }
            self.commands.push(RenderCommand::EndPass);
            self.in_render_pass = false;
        }
        let cleared = target.opt_clear();
        proof {
            lemma_push_pass_state(
                self.commands@,
                RenderCommand::BeginPass { target: *target, cleared: spec_opt_clear(*target) },
            );
            lemma_push_pass_state(
                self.commands@.push(
                    RenderCommand::BeginPass { target: *target, cleared: spec_opt_clear(*target) },
                ),
                RenderCommand::ExecuteCommands { count: subcommand_count },
            );
            lemma_push_pass_state(
                self.commands@.push(
                    RenderCommand::BeginPass { target: *target, cleared: spec_opt_clear(*target) },
                ).push(RenderCommand::ExecuteCommands { count: subcommand_count }),
                RenderCommand::EndPass,
            );
        }
        self.commands.push(RenderCommand::BeginPass { target: *target, cleared });
        self.commands.push(RenderCommand::ExecuteCommands { count: subcommand_count });
        self.commands.push(RenderCommand::EndPass);
        proof {
            assert(self.commands@ =~= old(self).commands@ + close_seq(old(self).in_render_pass)
                + seq![
                    RenderCommand::BeginPass { target: *target, cleared: spec_opt_clear(*target) },
                    RenderCommand::ExecuteCommands { count: subcommand_count },
                    RenderCommand::EndPass,
                ]);
        }
    }

    /// Binds the vertex — and, when present, index — buffer slice of the
    /// array and records the draw sized to the slice's element count. The
    /// pass state does not change.
    pub fn draw(&mut self, vertices: &VertexArray, instance_count: usize)
        requires
            recorder_wf(*old(self)),
        ensures
            recorder_wf(*final(self)),
            final(self).in_render_pass == old(self).in_render_pass,
            final(self).commands@ == old(self).commands@ + draw_commands(
                *vertices,
                instance_count,
            ),
    {
        let ghost pre1 = self.commands@;
        proof {
            lemma_push_pass_state(
                self.commands@,
                RenderCommand::BindVertexBuffer {
                    buffer: vertices.vb_desc.buffer,
                    offset: vertices.vb_desc.offset,
                },
            );
        }
        self.commands.push(
            RenderCommand::BindVertexBuffer {
                buffer: vertices.vb_desc.buffer,
                offset: vertices.vb_desc.offset,
            },
        );
        match &vertices.ib_desc {
            Some(ib) => {
                proof {
                    lemma_push_pass_state(
                        self.commands@,
                        RenderCommand::BindIndexBuffer {
                            buffer: ib.buffer,
                            offset: ib.offset,
                            format: ib.format,
                        },
                    );
                    lemma_push_pass_state(
                        self.commands@.push(
                            RenderCommand::BindIndexBuffer {
                                buffer: ib.buffer,
                                offset: ib.offset,
                                format: ib.format,
                            },
                        ),
                        RenderCommand::DrawIndexed { index_count: ib.count, instance_count },
                    );
                }
                self.commands.push(
                    RenderCommand::BindIndexBuffer {
                        buffer: ib.buffer,
                        offset: ib.offset,
                        format: ib.format,
                    },
                );
                self.commands.push(
                    RenderCommand::DrawIndexed { index_count: ib.count, instance_count },
                );
                proof {
                    assert(self.commands@ =~= pre1 + draw_commands(*vertices, instance_count));
                }
            },
            None => {
                proof {
                    lemma_push_pass_state(
                        self.commands@,
                        RenderCommand::Draw {
                            vertex_count: vertices.vb_desc.count,
                            instance_count,
                        },
                    );
                }
                self.commands.push(
                    RenderCommand::Draw { vertex_count: vertices.vb_desc.count, instance_count },
                );
                proof {
                    assert(self.commands@ =~= pre1 + draw_commands(*vertices, instance_count));
                }
            },
        }
    }

    /// Ends the recording scope: whatever pass is still open is closed, and
    /// the finalized command sequence — its passes well nested, none left
    /// open — is handed back for submission.
    pub fn finish(self) -> (r: Vec<RenderCommand>)
        requires
            recorder_wf(self),
        ensures
            r@ == self.commands@ + close_seq(self.in_render_pass),
            !pass_open_after(r@),
            passes_well_nested(r@),
    {
        let CommandRecorder { in_render_pass, commands } = self;
        let mut commands = commands;
        if in_render_pass {
            proof {
                lemma_push_pass_state(commands@, RenderCommand::EndPass);
            }
            commands.push(RenderCommand::EndPass);
        } else {
            proof {
                assert(commands@ + close_seq(false) =~= commands@);
            }
        }
        commands
    }
}

/// The commands one draw call records: bind the vertex slice, then either
/// bind the index slice and draw indexed, or draw directly.
pub open spec fn draw_commands(vertices: VertexArray, instance_count: usize) -> Seq<
    RenderCommand,
> {
    match vertices.ib_desc {
        Some(ib) => seq![
            RenderCommand::BindVertexBuffer {
                buffer: vertices.vb_desc.buffer,
                offset: vertices.vb_desc.offset,
            },
            RenderCommand::BindIndexBuffer { buffer: ib.buffer, offset: ib.offset, format: ib.format },
            RenderCommand::DrawIndexed { index_count: ib.count, instance_count },
        ],
        None => seq![
            RenderCommand::BindVertexBuffer {
                buffer: vertices.vb_desc.buffer,
                offset: vertices.vb_desc.offset,
            },
            RenderCommand::Draw { vertex_count: vertices.vb_desc.count, instance_count },
        ],
    }
}

/// A pool of command buffers recorded once and submitted every frame;
/// `secondary` pools hold the pre-recorded sequences injected into
/// self-contained passes.
#[derive(Debug, Clone, Copy, PartialEq, Eq, Structural)]
pub struct RenderCommands {
    pub count: usize,
    pub secondary: bool,
}

/// A pool of primary per-frame command buffers, one per swap-chain image.
pub fn new_render_command_buffer(count: usize) -> (r: RenderCommands)
    ensures
        r.count == count,
        !r.secondary,
{
    RenderCommands { count, secondary: false }
}

/// A pool of secondary command buffers for pre-recorded subsequences.
pub fn new_render_subcommand_buffer(count: usize) -> (r: RenderCommands)
    ensures
        r.count == count,
        r.secondary,
{
    RenderCommands { count, secondary: true }
}

impl RenderCommands {
    /// Opens a recording session on the pooled buffer at `index`.
    pub fn begin_recording(&self, index: usize) -> (r: CommandRecorder)
        requires
            index < self.count,
        ensures
            r.commands@ == Seq::<RenderCommand>::empty(),
            !r.in_render_pass,
            recorder_wf(r),
    {
        CommandRecorder::begin_recording()
    }
}

/// The opaque handle the render loop passes around for swap-chain image
/// `index`.
pub fn get_primary_render_target(index: usize) -> (r: RenderTarget)
    ensures
        r == RenderTarget::PrimaryRT(index),
{
    RenderTarget::PrimaryRT(index)
}

} // verus!
