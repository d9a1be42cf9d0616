use vstd::prelude::*;

use crate::command::{Command, Op, Resource};
use crate::image::Stage;

verus! {

/// Where a command buffer is in its life.
#[derive(Clone, Copy, Debug, PartialEq, Eq, Structural)]
pub enum RecordState {
    Initial,
    Recording,
    Recorded,
    Submitted,
    /// The fence of the last submission was observed signalled: the GPU has
    /// finished with the commands.
    Completed,
}

/// What is handed to the queue for one submission.
#[derive(Clone, Debug)]
pub struct Submission {
    pub command_buffers: Vec<u64>,
    pub wait_semaphores: Vec<u64>,
    pub wait_dst_stage_masks: Vec<Stage>,
    pub signal_semaphores: Vec<u64>,
    pub fence: Option<u64>,
    /// Whether the queue is drained before this submission starts, so that it
    /// cannot race a submission still running.
    pub wait_idle: bool,
}

/// A recorded sequence of commands, and the resources that must outlive
/// them: staging buffers that are freed only once the commands have run.
pub struct CommandBuffer {
    command_buffer: u64,
    state: RecordState,
    commands: Vec<Command>,
    cleanup_list: Vec<Resource>,
}

/// The semaphores of the wait pairs, in order.
pub open spec fn wait_handles(waits: Seq<(u64, Stage)>) -> Seq<u64> {
    waits.map_values(|w: (u64, Stage)| w.0)
}

/// The stages of the wait pairs, in order.
pub open spec fn wait_stages(waits: Seq<(u64, Stage)>) -> Seq<Stage> {
    waits.map_values(|w: (u64, Stage)| w.1)
}

/// A copy of a list of native handles.
fn copy_handles(s: &[u64]) -> (r: Vec<u64>)
    ensures
        r@ == s@,
{
    let mut r: Vec<u64> = Vec::new();
    let mut i: usize = 0;
    while i < s.len()
        invariant
            i <= s@.len(),
            r@ == s@.take(i as int),
        decreases s@.len() - i,
    {
        r.push(s[i]);
        i += 1;
        assert(r@ =~= s@.take(i as int));
    }
    assert(s@.take(i as int) =~= s@);
    r
}

impl CommandBuffer {
    /// The native command buffer handle.
    pub closed spec fn handle(&self) -> u64 {
        self.command_buffer
    }

    pub closed spec fn state(&self) -> RecordState {
        self.state
    }

    /// The commands recorded since recording last began.
    pub closed spec fn recorded(&self) -> Seq<Op> {
        self.commands@.map_values(|c: Command| c@)
    }

    /// The resources waiting to be freed once the commands have run.
    pub closed spec fn pending(&self) -> Seq<Resource> {
        self.cleanup_list@
    }

    pub open spec fn is_recording(&self) -> bool {
        self.state() == RecordState::Recording
    }

    /// A command buffer over a native handle allocated from a pool.
    pub fn new(command_buffer: u64) -> (r: CommandBuffer)
        ensures
            r.handle() == command_buffer,
            r.state() == RecordState::Initial,
            r.recorded().len() == 0,
            r.pending().len() == 0,
    {
        let r = CommandBuffer {
            command_buffer,
            state: RecordState::Initial,
            commands: Vec::new(),
            cleanup_list: Vec::new(),
        };
        assert(r.recorded() =~= Seq::<Op>::empty());
        r
    }

    pub fn get_command_buffer(&self) -> (r: u64)
        ensures
            r == self.handle(),
    {
        self.command_buffer
    }

    /// The commands recorded since recording last began.
    pub fn commands(&self) -> (r: &[Command])
        ensures
            r@.map_values(|c: Command| c@) == self.recorded(),
    {
        self.commands.as_slice()
    }

    /// The resources waiting to be freed once the commands have run.
    pub fn cleanup_list(&self) -> (r: &[Resource])
        ensures
            r@ == self.pending(),
    {
        self.cleanup_list.as_slice()
    }

    pub fn get_state(&self) -> (r: RecordState)
        ensures
            r == self.state(),
    {
        self.state
    }

    /// Whether the GPU may still be running the commands or has yet to.
    pub open spec fn in_use(&self) -> bool {
        self.state() == RecordState::Recording || self.state() == RecordState::Submitted
    }

    /// Starts recording anew. The command buffer may be reused only once the
    /// GPU has finished with it and what its last recording left to free has
    /// been freed.
    pub fn begin(&mut self)
        requires
            !old(self).in_use(),
            old(self).pending().len() == 0,
        ensures
            final(self).handle() == old(self).handle(),
            final(self).is_recording(),
            final(self).recorded().len() == 0,
            final(self).pending().len() == 0,
    {
        self.commands = Vec::new();
        self.state = RecordState::Recording;
        assert(self.recorded() =~= Seq::<Op>::empty());
    }

    /// Ends recording.
    pub fn end(&mut self)
        requires
            old(self).is_recording(),
        ensures
            final(self).handle() == old(self).handle(),
            final(self).state() == RecordState::Recorded,
            final(self).recorded() == old(self).recorded(),
            final(self).pending() == old(self).pending(),
    {
        self.state = RecordState::Recorded;
    }

    /// Appends one command.
    pub fn record(&mut self, command: Command)
        requires
            old(self).is_recording(),
        ensures
            final(self).handle() == old(self).handle(),
            final(self).is_recording(),
            final(self).recorded() == old(self).recorded().push(command@),
            final(self).pending() == old(self).pending(),
    {
        self.commands.push(command);
        assert(self.recorded() =~= old(self).recorded().push(command@));
    }

    /// Leaves a resource to be freed once the recorded commands have run.
    pub fn add_to_cleanup_list(&mut self, resource: Resource)
        requires
            old(self).is_recording(),
        ensures
            final(self).handle() == old(self).handle(),
            final(self).is_recording(),
            final(self).recorded() == old(self).recorded(),
            final(self).pending() == old(self).pending().push(resource),
    {
        self.cleanup_list.push(resource);
        assert(self.recorded() =~= old(self).recorded());
    }

    /// The fence of the last submission was observed signalled.
    pub fn complete(&mut self)
        requires
            old(self).state() == RecordState::Submitted,
        ensures
            final(self).state() == RecordState::Completed,
            final(self).handle() == old(self).handle(),
            final(self).recorded() == old(self).recorded(),
            final(self).pending() == old(self).pending(),
    {
        self.state = RecordState::Completed;
    }

    /// Empties the cleanup list and hands back what it held, in the order it
    /// was added, for the caller to free. Only once the GPU is done with the
    /// commands, or never received them, may they be freed.
    pub fn cleanup(&mut self) -> (r: Vec<Resource>)
        requires
            !old(self).in_use(),
        ensures
            r@ == old(self).pending(),
            final(self).pending().len() == 0,
            final(self).handle() == old(self).handle(),
            final(self).state() == old(self).state(),
            final(self).recorded() == old(self).recorded(),
    {
        let mut r: Vec<Resource> = Vec::new();
        std::mem::swap(&mut r, &mut self.cleanup_list);
        assert(self.recorded() =~= old(self).recorded());
        r
    }

    /// Hands the recorded commands to the queue, after the queue has drained,
    /// waiting on each semaphore of `wait_semaphores` at its stage, and
    /// signalling `signal_semaphores` and `fence` once they have run.
    pub fn submit(
        &mut self,
        wait_semaphores: &[(u64, Stage)],
        signal_semaphores: &[u64],
        fence: Option<u64>,
    ) -> (r: Submission)
        requires
            old(self).state() == RecordState::Recorded,
        ensures
            r.command_buffers@ == seq![old(self).handle()],
            r.wait_semaphores@ == wait_handles(wait_semaphores@),
            r.wait_dst_stage_masks@ == wait_stages(wait_semaphores@),
            r.signal_semaphores@ == signal_semaphores@,
            r.fence == fence,
            r.wait_idle,
            final(self).state() == RecordState::Submitted,
            final(self).handle() == old(self).handle(),
            final(self).recorded() == old(self).recorded(),
            final(self).pending() == old(self).pending(),
    {
        let mut handles: Vec<u64> = Vec::new();
        let mut stages: Vec<Stage> = Vec::new();
        let mut i: usize = 0;
        while i < wait_semaphores.len()
            invariant
                i <= wait_semaphores@.len(),
                handles@ == wait_handles(wait_semaphores@.take(i as int)),
                stages@ == wait_stages(wait_semaphores@.take(i as int)),
            decreases wait_semaphores@.len() - i,
        {
            let (semaphore, stage) = wait_semaphores[i];
            handles.push(semaphore);
            stages.push(stage);
            i += 1;
            assert(wait_semaphores@.take(i as int) =~= wait_semaphores@.take(i - 1).push(
                wait_semaphores@[i - 1],
            ));
            assert(handles@ =~= wait_handles(wait_semaphores@.take(i as int)));
            assert(stages@ =~= wait_stages(wait_semaphores@.take(i as int)));
        }
        assert(wait_semaphores@.take(i as int) =~= wait_semaphores@);
        self.state = RecordState::Submitted;
        let mut command_buffers: Vec<u64> = Vec::new();
        command_buffers.push(self.command_buffer);
        assert(command_buffers@ =~= seq![old(self).handle()]);
        assert(self.recorded() =~= old(self).recorded());
        Submission {
            command_buffers,
            wait_semaphores: handles,
            wait_dst_stage_masks: stages,
            signal_semaphores: copy_handles(signal_semaphores),
            fence,
            wait_idle: true,
        }
    }
}

} // verus!
