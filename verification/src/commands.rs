//! The recorded command stream and its layout semantics.
//!
//! Host-side work only records commands; the device executes them later.
//! A [`CommandRecorder`] accumulates the per-frame barrier/copy/dispatch
//! sequence as plain values, so that contracts can state exactly which
//! commands a call records and in what order. The layout-fold functions
//! give the stream its meaning for image layouts: folding a recorded
//! sequence over a [`LayoutTracker`] yields the layout the image is left
//! in, and `layouts_ok` says every transition named the layout the image
//! actually had.

use vstd::prelude::*;
use crate::barrier::BufferBarrier;
use crate::barrier::ImageBarrier;
use crate::barrier::LayoutTracker;

verus! {

/// One recorded device command.
#[derive(Clone, Copy, PartialEq, Eq, Structural, Debug)]
pub enum Command {
    /// A memory barrier on a buffer range.
    BufferBarrier(BufferBarrier),
    /// A memory barrier and layout transition on an image.
    ImageBarrier(ImageBarrier),
    /// A device-side copy between two buffers.
    CopyBuffer { src: u64, dst: u64, src_offset: u64, dst_offset: u64, size: u64 },
    /// Binds a compute pipeline.
    BindComputePipeline { pipeline: u64 },
    /// Binds a descriptor set to a pipeline layout.
    BindDescriptorSets { pipeline_layout: u64, descriptor_set: u64 },
    /// Issues a compute dispatch over a grid of thread groups.
    Dispatch { x: u32, y: u32, z: u32 },
}

/// Accumulates the commands of one recording context in order.
#[derive(Debug)]
pub struct CommandRecorder {
    /// The recorded commands, oldest first.
    pub commands: Vec<Command>,
}

impl CommandRecorder {
    /// An empty recording context.
    pub fn new() -> (r: CommandRecorder)
        ensures
            r.commands@ == Seq::<Command>::empty(),
    {
        CommandRecorder { commands: Vec::new() }
    }

    /// Appends one command.
    pub fn record(&mut self, c: Command)
        ensures
            final(self).commands@ == old(self).commands@.push(c),
    {
        self.commands.push(c);
    }

    /// Number of recorded commands.
    pub fn len(&self) -> (n: usize)
        ensures
            n == self.commands@.len(),
    {
        self.commands.len()
    }
}

/// The tracker after one command: only an image barrier can change a layout.
pub open spec fn apply_command_layout(t: LayoutTracker, c: Command) -> LayoutTracker {
    match c {
        Command::ImageBarrier(b) => t.apply_spec(b),
        _ => t,
    }
}

/// One command is layout-consistent: an image barrier on the tracked image
/// must transition away from the layout the tracker holds.
pub open spec fn command_layout_ok(t: LayoutTracker, c: Command) -> bool {
    match c {
        Command::ImageBarrier(b) => t.barrier_matches_spec(b),
        _ => true,
    }
}

/// The tracker after a whole command sequence, applied in order.
pub open spec fn layout_after(t: LayoutTracker, cs: Seq<Command>) -> LayoutTracker
    decreases cs.len(),
{
    if cs.len() == 0 {
        t
    } else {
        layout_after(apply_command_layout(t, cs[0]), cs.drop_first())
    }
}

/// Every command of the sequence is layout-consistent with the tracker
/// state it meets.
pub open spec fn layouts_ok(t: LayoutTracker, cs: Seq<Command>) -> bool
    decreases cs.len(),
{
    if cs.len() == 0 {
        true
    } else {
        command_layout_ok(t, cs[0]) && layouts_ok(apply_command_layout(t, cs[0]), cs.drop_first())
    }
}

/// Folding a concatenation folds the parts in order.
pub proof fn lemma_layout_after_concat(t: LayoutTracker, a: Seq<Command>, b: Seq<Command>)
    ensures
        layout_after(t, a + b) == layout_after(layout_after(t, a), b),
    decreases a.len(),
{
    if a.len() == 0 {
        assert(a + b =~= b);
    } else {
        assert((a + b)[0] == a[0]);
        assert((a + b).drop_first() =~= a.drop_first() + b);
        lemma_layout_after_concat(apply_command_layout(t, a[0]), a.drop_first(), b);
    }
}

/// Layout consistency of a concatenation splits at the junction.
pub proof fn lemma_layouts_ok_concat(t: LayoutTracker, a: Seq<Command>, b: Seq<Command>)
    ensures
        layouts_ok(t, a + b) == (layouts_ok(t, a) && layouts_ok(layout_after(t, a), b)),
    decreases a.len(),
{
    if a.len() == 0 {
        assert(a + b =~= b);
    } else {
        assert((a + b)[0] == a[0]);
        assert((a + b).drop_first() =~= a.drop_first() + b);
        lemma_layouts_ok_concat(apply_command_layout(t, a[0]), a.drop_first(), b);
    }
}

/// Folding a single command applies just that command.
pub proof fn lemma_layout_after_one(t: LayoutTracker, c: Command)
    ensures
        layout_after(t, seq![c]) == apply_command_layout(t, c),
        layouts_ok(t, seq![c]) == command_layout_ok(t, c),
{
    let s = seq![c];
    assert(s[0] == c);
    assert(s.drop_first() =~= Seq::<Command>::empty());
    assert(layout_after(apply_command_layout(t, c), s.drop_first())
        == apply_command_layout(t, c));
    assert(layouts_ok(apply_command_layout(t, c), s.drop_first()));
}

/// Replays a recorded sequence against a layout tracker: the simulated
/// execution of the stream's layout transitions. Returns whether every
/// image barrier named the layout the tracked image was actually in.
pub fn replay_layouts(t: &mut LayoutTracker, rec: &CommandRecorder) -> (ok: bool)
    ensures
        *final(t) == layout_after(*old(t), rec.commands@),
        ok == layouts_ok(*old(t), rec.commands@),
{
    let ghost cs = rec.commands@;
    let mut ok: bool = true;
    let n: usize = rec.commands.len();
    let mut i: usize = 0;
    while i < n
        invariant
            n == cs.len(),
            0 <= i <= n,
            cs == rec.commands@,
            *t == layout_after(*old(t), cs.take(i as int)),
            ok == layouts_ok(*old(t), cs.take(i as int)),
        decreases n - i,
    {
        let c = rec.commands[i];
        let ghost t_before = *t;
        match c {
            Command::ImageBarrier(b) => {
                if !t.barrier_matches(&b) {
                    ok = false;
                }
                t.apply(&b);
            },
            _ => {},
        }
        proof {
            assert(cs.take(i + 1) =~= cs.take(i as int) + seq![c]);
            lemma_layout_after_concat(*old(t), cs.take(i as int), seq![c]);
            lemma_layouts_ok_concat(*old(t), cs.take(i as int), seq![c]);
            lemma_layout_after_one(t_before, c);
        }
        i = i + 1;
    }
    proof {
        assert(cs.take(n as int) =~= cs);
    }
    ok
}

} // verus!
