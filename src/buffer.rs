use vstd::prelude::*;

use crate::command::{bytes_of, copy_bytes, lemma_run_concat, run, Command, Memory, Op, Resource};
use crate::command_buffer::CommandBuffer;

verus! {

/// What a buffer is bound as.
#[derive(Clone, Copy, Debug, PartialEq, Eq, Structural)]
pub enum BufferType {
    Vertex,
    Index,
    Uniform,
    Storage,
}

/// Why an update was refused.
#[derive(Clone, Copy, Debug, PartialEq, Eq, Structural)]
pub enum BufferError {
    /// The data is not as long as the buffer.
    SizeMismatch { expected: u64, found: u64 },
    /// The buffer was destroyed.
    Destroyed,
}

/// The commands that upload `data` through `staging` into `dst`: the host
/// write into the staging buffer, then the copy into `dst`.
pub open spec fn upload_ops(staging: u64, dst: u64, data: Seq<u8>) -> Seq<Op> {
    seq![Op::Write { dst: staging, bytes: data }, Op::CopyBuffer { src: staging, dst, size: data.len() as u64 }]
}

/// A linear region of device-local memory, filled through a host-visible
/// staging buffer.
///
/// With a persistent staging buffer the same staging buffer serves every
/// update; otherwise each upload takes a fresh one and leaves it to the
/// command buffer's cleanup list.
pub struct Buffer {
    buffer: Resource,
    size: u64,
    buffer_type: BufferType,
    persistent_staging_buffer: bool,
    staging_buffer: Option<Resource>,
}

impl Buffer {
    /// The device-local buffer and its allocation.
    pub closed spec fn resource(&self) -> Resource {
        self.buffer
    }

    /// The size in bytes; zero once destroyed.
    pub closed spec fn size(&self) -> nat {
        self.size as nat
    }

    pub closed spec fn kind(&self) -> BufferType {
        self.buffer_type
    }

    pub closed spec fn persistent(&self) -> bool {
        self.persistent_staging_buffer
    }

    /// The staging buffer kept for updates, if one is kept.
    pub closed spec fn staging(&self) -> Option<Resource> {
        self.staging_buffer
    }

    /// A live buffer keeps a staging buffer exactly when it was made with a
    /// persistent one, and it is distinct from the buffer; a destroyed one
    /// keeps none.
    pub open spec fn wf(&self) -> bool {
        &&& self.size() > 0 ==> (self.persistent() <==> self.staging() is Some)
        &&& self.size() == 0 ==> self.staging() is None
        &&& self.staging() is Some ==> self.staging()->Some_0.handle != self.resource().handle
    }

    /// The resources the buffer owns: the staging buffer, if kept, and the
    /// buffer itself; nothing once destroyed.
    pub open spec fn owned(&self) -> Seq<Resource> {
        if self.size() == 0 {
            Seq::empty()
        } else if self.staging() is Some {
            seq![self.staging()->Some_0, self.resource()]
        } else {
            seq![self.resource()]
        }
    }

    /// A buffer of `data.len()` bytes over the freshly created `buffer`,
    /// filled with `data` through the freshly created `staging`.
    pub fn new(
        command_buffer: &mut CommandBuffer,
        buffer: Resource,
        staging: Resource,
        data: &[u8],
        buffer_type: BufferType,
        persistent_staging_buffer: bool,
    ) -> (r: Buffer)
        requires
            old(command_buffer).is_recording(),
            data@.len() > 0,
            buffer.handle != staging.handle,
        ensures
            r.wf(),
            r.resource() == buffer,
            r.size() == data@.len(),
            r.kind() == buffer_type,
            r.persistent() == persistent_staging_buffer,
            persistent_staging_buffer ==> r.staging() == Some(staging)
                && final(command_buffer).pending() == old(command_buffer).pending(),
            !persistent_staging_buffer ==> r.staging() is None
                && final(command_buffer).pending() == old(command_buffer).pending().push(staging),
            final(command_buffer).recorded() == old(command_buffer).recorded()
                + upload_ops(staging.handle, buffer.handle, data@),
            final(command_buffer).is_recording(),
            final(command_buffer).handle() == old(command_buffer).handle(),
    {
        let kept = Buffer::upload_data_to_buffer(
            command_buffer,
            buffer,
            staging,
            data,
            persistent_staging_buffer,
        );
        Buffer {
            buffer,
            size: data.len() as u64,
            buffer_type,
            persistent_staging_buffer,
            staging_buffer: kept,
        }
    }

    /// Records the upload of `data` through `staging` into `buffer`, and hands
    /// `staging` back where it is kept, or leaves it to the cleanup list.
    fn upload_data_to_buffer(
        command_buffer: &mut CommandBuffer,
        buffer: Resource,
        staging: Resource,
        data: &[u8],
        persistent_staging_buffer: bool,
    ) -> (r: Option<Resource>)
        requires
            old(command_buffer).is_recording(),
        ensures
            persistent_staging_buffer ==> r == Some(staging)
                && final(command_buffer).pending() == old(command_buffer).pending(),
            !persistent_staging_buffer ==> r is None
                && final(command_buffer).pending() == old(command_buffer).pending().push(staging),
            final(command_buffer).recorded() == old(command_buffer).recorded()
                + upload_ops(staging.handle, buffer.handle, data@),
            final(command_buffer).is_recording(),
            final(command_buffer).handle() == old(command_buffer).handle(),
    {
        let ghost start = command_buffer.recorded();
        command_buffer.record(Command::Write { dst: staging.handle, bytes: copy_bytes(data) });
        command_buffer.record(
            Command::CopyBuffer { src: staging.handle, dst: buffer.handle, size: data.len() as u64 },
        );
        assert(command_buffer.recorded() =~= start + upload_ops(staging.handle, buffer.handle, data@));
        if !persistent_staging_buffer {
            command_buffer.add_to_cleanup_list(staging);
            return None;
        }
        Some(staging)
    }

    /// Whether updates reuse the kept staging buffer; where not, each update
    /// needs a fresh staging buffer.
    pub fn is_persistent(&self) -> (r: bool)
        ensures
            r == self.persistent(),
    {
        self.persistent_staging_buffer
    }

    /// Records the upload of `data` over the buffer's contents.
    ///
    /// With a persistent staging buffer `fresh_staging` is `None` and the kept
    /// staging buffer is rewritten; otherwise it is a freshly created staging
    /// buffer that is left to the cleanup list. A refused update changes
    /// nothing, and `fresh_staging` stays with the caller.
    pub fn update(
        &mut self,
        command_buffer: &mut CommandBuffer,
        fresh_staging: Option<Resource>,
        data: &[u8],
    ) -> (r: Result<(), BufferError>)
        requires
            old(self).wf(),
            old(command_buffer).is_recording(),
            old(self).size() > 0 ==> (fresh_staging is Some <==> !old(self).persistent()),
            fresh_staging is Some ==> fresh_staging->Some_0.handle != old(self).resource().handle,
        ensures
            final(self).wf(),
            *final(self) == *old(self),
            final(command_buffer).is_recording(),
            final(command_buffer).handle() == old(command_buffer).handle(),
            old(self).size() == 0 ==> r == Err::<(), BufferError>(BufferError::Destroyed),
            old(self).size() > 0 && data@.len() != old(self).size() ==> r == Err::<(), BufferError>(
                BufferError::SizeMismatch { expected: old(self).size() as u64, found: data@.len() as u64 },
            ),
            r is Ok <==> old(self).size() > 0 && data@.len() == old(self).size(),
            r is Err ==> final(command_buffer).recorded() == old(command_buffer).recorded()
                && final(command_buffer).pending() == old(command_buffer).pending(),
            r is Ok && old(self).persistent() ==> final(command_buffer).recorded()
                == old(command_buffer).recorded() + upload_ops(
                old(self).staging()->Some_0.handle,
                old(self).resource().handle,
                data@,
            ) && final(command_buffer).pending() == old(command_buffer).pending(),
            r is Ok && !old(self).persistent() ==> final(command_buffer).recorded()
                == old(command_buffer).recorded() + upload_ops(
                fresh_staging->Some_0.handle,
                old(self).resource().handle,
                data@,
            ) && final(command_buffer).pending() == old(command_buffer).pending().push(
                fresh_staging->Some_0,
            ),
    {
        if self.size == 0 {
            return Err(BufferError::Destroyed);
        }
        if data.len() as u64 != self.size {
            return Err(BufferError::SizeMismatch { expected: self.size, found: data.len() as u64 });
        }
        let staging = if self.persistent_staging_buffer {
            self.staging_buffer.unwrap()
        } else {
            fresh_staging.unwrap()
        };
        let _ = Buffer::upload_data_to_buffer(
            command_buffer,
            self.buffer,
            staging,
            data,
            self.persistent_staging_buffer,
        );
        Ok(())
    }

    pub fn get_buffer(&self) -> (r: u64)
        ensures
            r == self.resource().handle,
    {
        self.buffer.handle
    }

    pub fn get_size(&self) -> (r: u64)
        ensures
            r as nat == self.size(),
    {
        self.size
    }

    /// Hands back what the buffer owns, for the caller to free, and leaves it
    /// at size zero; a destroyed buffer hands back nothing, so nothing is
    /// ever freed twice.
    pub fn destroy(&mut self) -> (r: Vec<Resource>)
        requires
            old(self).wf(),
        ensures
            final(self).wf(),
            r@ == old(self).owned(),
            final(self).size() == 0,
            final(self).owned().len() == 0,
            final(self).resource() == old(self).resource(),
            final(self).kind() == old(self).kind(),
            final(self).persistent() == old(self).persistent(),
    {
        let mut r: Vec<Resource> = Vec::new();
        if self.size == 0 {
            return r;
        }
        match self.staging_buffer {
            Some(staging) => r.push(staging),
            None => {},
        }
        r.push(self.buffer);
        self.staging_buffer = None;
        self.size = 0;
        assert(r@ =~= old(self).owned());
        r
    }
}

/// Round trip: after the upload that creating or updating a buffer records,
/// the destination holds exactly the uploaded bytes, and a readback copy out
/// of it into a buffer of the same size yields them again.
pub proof fn lemma_upload_round_trip(
    m: Memory,
    before: Seq<Op>,
    staging: u64,
    dst: u64,
    readback: u64,
    data: Seq<u8>,
)
    requires
        staging != dst,
        readback != dst,
        data.len() <= u64::MAX,
        bytes_of(run(m, before), dst).len() == data.len(),
        bytes_of(run(m, before + upload_ops(staging, dst, data)), readback).len() == data.len(),
    ensures
        bytes_of(run(m, before + upload_ops(staging, dst, data)), dst) == data,
        bytes_of(
            run(
                m,
                before + upload_ops(staging, dst, data) + seq![
                    Op::CopyBuffer { src: dst, dst: readback, size: data.len() as u64 },
                ],
            ),
            readback,
        ) == data,
{
    lemma_upload_lands(m, before, staging, dst, data);
    let after = before + upload_ops(staging, dst, data);
    crate::command::lemma_submission_order(m, after, Seq::empty(), dst, readback, data.len() as u64);
}

/// The upload's effect on the destination.
proof fn lemma_upload_lands(m: Memory, before: Seq<Op>, staging: u64, dst: u64, data: Seq<u8>)
    requires
        staging != dst,
        data.len() <= u64::MAX,
        bytes_of(run(m, before), dst).len() == data.len(),
    ensures
        bytes_of(run(m, before + upload_ops(staging, dst, data)), dst) == data,
{
    let ops = upload_ops(staging, dst, data);
    lemma_run_concat(m, before, ops);
    let m0 = run(m, before);
    assert(ops.drop_last() =~= seq![ops[0]]);
    assert(seq![ops[0]].drop_last() =~= Seq::<Op>::empty());
    let m1 = run(m0, seq![ops[0]]);
    assert(run(m0, Seq::<Op>::empty()) == m0);
    assert(seq![ops[0]].last() == ops[0]);
    assert(m1 == crate::command::apply(m0, ops[0]));
    assert(run(m0, ops) == crate::command::apply(m1, ops[1]));
    assert(bytes_of(m1, dst) == bytes_of(m0, dst));
    let st = bytes_of(m1, staging);
    assert(st.len() >= data.len());
    assert(st.subrange(0, data.len() as int) =~= data);
    assert(crate::command::first_bytes(st, data.len() as nat) =~= data);
}

/// Idempotence: uploading the same bytes a second time leaves the
/// destination as the first upload left it.
pub proof fn lemma_update_idempotent(m: Memory, before: Seq<Op>, staging: u64, dst: u64, data: Seq<u8>)
    requires
        staging != dst,
        data.len() <= u64::MAX,
        bytes_of(run(m, before), dst).len() == data.len(),
    ensures
        bytes_of(run(m, before + upload_ops(staging, dst, data) + upload_ops(staging, dst, data)), dst)
            == bytes_of(run(m, before + upload_ops(staging, dst, data)), dst),
{
    lemma_upload_lands(m, before, staging, dst, data);
    let once = before + upload_ops(staging, dst, data);
    lemma_upload_lands(m, once, staging, dst, data);
}

} // verus!
