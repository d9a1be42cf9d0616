use vstd::prelude::*;

use crate::buffer::{upload_ops, Buffer, BufferType};
use crate::command::Resource;
use crate::command_buffer::CommandBuffer;

verus! {

/// What the caller does before a new transfer may be recorded.
#[derive(Clone, Copy, Debug, PartialEq, Eq, Structural)]
pub enum CleanupStep {
    /// A background cleanup task is still outstanding: wait for it to finish
    /// and report that with `joined`.
    JoinPrevious,
    /// Nothing is outstanding: record the transfer.
    Proceed,
}

/// The per-frame upload of data that changes every frame, such as instance
/// data, into one storage buffer with a persistent staging buffer.
///
/// The buffer is made anew only when the data changes length; otherwise its
/// staging buffer is rewritten in place. After each submission one
/// background task waits for the transfer and runs the cleanup; at most one
/// such task is outstanding at any time.
pub struct TransferPipeline {
    instance_buffer: Option<Buffer>,
    previous_len: usize,
    cleanup_task_outstanding: bool,
}

impl TransferPipeline {
    pub closed spec fn instance(&self) -> Option<Buffer> {
        self.instance_buffer
    }

    /// The length of the data the last transfer uploaded; zero before the first.
    pub closed spec fn previous_len(&self) -> nat {
        self.previous_len as nat
    }

    pub closed spec fn outstanding(&self) -> bool {
        self.cleanup_task_outstanding
    }

    /// A buffer is held exactly once data has been uploaded, and it is a live
    /// persistent storage buffer as long as that data.
    pub open spec fn wf(&self) -> bool {
        match self.instance() {
            Some(b) => {
                &&& b.wf()
                &&& b.size() == self.previous_len()
                &&& b.size() > 0
                &&& b.persistent()
                &&& b.kind() == BufferType::Storage
            },
            None => self.previous_len() == 0,
        }
    }

    /// Whether a transfer of `len` bytes needs a new buffer, and with it a
    /// freshly created buffer and staging buffer from the caller.
    pub open spec fn needs_new_buffer_spec(&self, len: nat) -> bool {
        len != self.previous_len()
    }

    pub fn new() -> (r: TransferPipeline)
        ensures
            r.wf(),
            r.instance() is None,
            r.previous_len() == 0,
            !r.outstanding(),
    {
        TransferPipeline { instance_buffer: None, previous_len: 0, cleanup_task_outstanding: false }
    }

    pub fn needs_new_buffer(&self, len: usize) -> (r: bool)
        ensures
            r == self.needs_new_buffer_spec(len as nat),
    {
        len != self.previous_len
    }

    /// Whether a new transfer may be recorded now.
    pub fn transfer_step(&self) -> (r: CleanupStep)
        ensures
            r == CleanupStep::JoinPrevious <==> self.outstanding(),
            r == CleanupStep::Proceed <==> !self.outstanding(),
    {
        if self.cleanup_task_outstanding {
            CleanupStep::JoinPrevious
        } else {
            CleanupStep::Proceed
        }
    }

    /// The outstanding background task has finished.
    pub fn joined(&mut self)
        ensures
            !final(self).outstanding(),
            final(self).instance() == old(self).instance(),
            final(self).previous_len() == old(self).previous_len(),
    {
        self.cleanup_task_outstanding = false;
    }

    /// A background task was started after a submission; only one may be
    /// outstanding, so the one before must have been joined.
    pub fn spawned(&mut self)
        requires
            !old(self).outstanding(),
        ensures
            final(self).outstanding(),
            final(self).instance() == old(self).instance(),
            final(self).previous_len() == old(self).previous_len(),
    {
        self.cleanup_task_outstanding = true;
    }

    /// The native handle of the instance buffer, once there is one.
    pub fn get_instance_buffer(&self) -> (r: Option<u64>)
        ensures
            r is Some <==> self.instance() is Some,
            r is Some ==> r->Some_0 == self.instance()->Some_0.resource().handle,
    {
        match &self.instance_buffer {
            Some(b) => Some(b.get_buffer()),
            None => None,
        }
    }

    /// Records this frame's upload of `data` into `command_buffer`.
    ///
    /// Where `data` has changed length, `fresh` holds a freshly created buffer
    /// and staging buffer of that length: the old buffer is destroyed and its
    /// resources are handed back to be freed, and a new one is made over
    /// `fresh`. Otherwise `fresh` is `None` and the existing buffer is updated
    /// in place through its kept staging buffer.
    pub fn handle_transfer(
        &mut self,
        command_buffer: &mut CommandBuffer,
        data: &[u8],
        fresh: Option<(Resource, Resource)>,
    ) -> (r: Vec<Resource>)
        requires
            old(self).wf(),
            !old(self).outstanding(),
            old(command_buffer).is_recording(),
            data@.len() > 0,
            fresh is Some <==> old(self).needs_new_buffer_spec(data@.len()),
            fresh is Some ==> fresh->Some_0.0.handle != fresh->Some_0.1.handle,
        ensures
            final(self).wf(),
            !final(self).outstanding(),
            final(self).previous_len() == data@.len(),
            final(command_buffer).is_recording(),
            final(command_buffer).handle() == old(command_buffer).handle(),
            final(command_buffer).pending() == old(command_buffer).pending(),
            fresh is Some ==> {
                &&& final(self).instance()->Some_0.resource() == fresh->Some_0.0
                &&& final(self).instance()->Some_0.staging() == Some(fresh->Some_0.1)
                &&& r@ == match old(self).instance() {
                    Some(b) => b.owned(),
                    None => Seq::empty(),
                }
                &&& final(command_buffer).recorded() == old(command_buffer).recorded()
                    + upload_ops(fresh->Some_0.1.handle, fresh->Some_0.0.handle, data@)
            },
            fresh is None ==> {
                &&& final(self).instance() == old(self).instance()
                &&& r@.len() == 0
                &&& final(command_buffer).recorded() == old(command_buffer).recorded() + upload_ops(
                    old(self).instance()->Some_0.staging()->Some_0.handle,
                    old(self).instance()->Some_0.resource().handle,
                    data@,
                )
            },
    {
        match fresh {
            Some((buffer, staging)) => {
                let freed = match &mut self.instance_buffer {
                    Some(old_buffer) => old_buffer.destroy(),
                    None => Vec::new(),
                };
                self.instance_buffer = Some(
                    Buffer::new(command_buffer, buffer, staging, data, BufferType::Storage, true),
                );
                self.previous_len = data.len();
                freed
            },
            None => {
                match &mut self.instance_buffer {
                    Some(b) => {
                        let _ = b.update(command_buffer, None, data);
                    },
                    None => {},
                }
                Vec::new()
            },
        }
    }

    /// Hands back what the instance buffer owns, for the caller to free.
    pub fn destroy(&mut self) -> (r: Vec<Resource>)
        requires
            old(self).wf(),
        ensures
            final(self).wf(),
            final(self).instance() is None,
            r@ == match old(self).instance() {
                Some(b) => b.owned(),
                None => Seq::empty(),
            },
    {
        let r = match &mut self.instance_buffer {
            Some(b) => b.destroy(),
            None => Vec::new(),
        };
        self.instance_buffer = None;
        self.previous_len = 0;
        r
    }
}

} // verus!
