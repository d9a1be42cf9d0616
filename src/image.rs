use vstd::prelude::*;

use crate::command::{copy_bytes, Command, Op, Resource};
use crate::command_buffer::CommandBuffer;

verus! {

/// The layout an image's memory is arranged in.
#[derive(Clone, Copy, Debug, PartialEq, Eq, Structural)]
pub enum Layout {
    Undefined,
    TransferDstOptimal,
    ShaderReadOnlyOptimal,
    DepthStencilAttachmentOptimal,
    ColorAttachmentOptimal,
}

/// The memory accesses that a barrier orders.
#[derive(Clone, Copy, Debug, PartialEq, Eq, Structural)]
pub enum Access {
    NoAccess,
    TransferWrite,
    DepthStencilAttachmentWrite,
    ColorAttachmentWrite,
}

/// A pipeline stage that a barrier or a semaphore wait is placed at.
#[derive(Clone, Copy, Debug, PartialEq, Eq, Structural)]
pub enum Stage {
    TopOfPipe,
    Transfer,
    VertexInput,
    FragmentShader,
    EarlyFragmentTests,
    ColorAttachmentOutput,
}

/// Which aspect of an image a barrier applies to.
#[derive(Clone, Copy, Debug, PartialEq, Eq, Structural)]
pub enum Aspect {
    Color,
    Depth,
}

/// The barrier that moves an image from one layout to another.
#[derive(Clone, Copy, Debug, PartialEq, Eq, Structural)]
pub struct TransitionInfo {
    pub old_layout: Layout,
    pub new_layout: Layout,
    pub src_access: Access,
    pub dst_access: Access,
    pub aspect_mask: Aspect,
    pub src_stage: Stage,
    pub dst_stage: Stage,
}

/// What an image is for.
#[derive(Clone, Copy, Debug, PartialEq, Eq, Structural)]
pub enum Type {
    SAMPLED,
    DEPTH,
    COLOR,
}

/// Why an image operation was refused.
#[derive(Clone, Copy, Debug, PartialEq, Eq, Structural)]
pub enum ImageError {
    /// No barrier leads from the image's layout to the one asked for.
    InvalidTransition { from: Layout, to: Layout },
    /// The image was destroyed.
    Destroyed,
}

/// The barrier for each transition that images go through, and `None` for
/// every other pair of layouts.
pub open spec fn transition_spec(from: Layout, to: Layout) -> Option<TransitionInfo> {
    match (from, to) {
        (Layout::Undefined, Layout::TransferDstOptimal) => Some(
            TransitionInfo {
                old_layout: from,
                new_layout: to,
                src_access: Access::NoAccess,
                dst_access: Access::TransferWrite,
                aspect_mask: Aspect::Color,
                src_stage: Stage::TopOfPipe,
                dst_stage: Stage::Transfer,
            },
        ),
        (Layout::TransferDstOptimal, Layout::ShaderReadOnlyOptimal) => Some(
            TransitionInfo {
                old_layout: from,
                new_layout: to,
                src_access: Access::TransferWrite,
                dst_access: Access::NoAccess,
                aspect_mask: Aspect::Color,
                src_stage: Stage::Transfer,
                dst_stage: Stage::FragmentShader,
            },
        ),
        (Layout::Undefined, Layout::DepthStencilAttachmentOptimal) => Some(
            TransitionInfo {
                old_layout: from,
                new_layout: to,
                src_access: Access::NoAccess,
                dst_access: Access::DepthStencilAttachmentWrite,
                aspect_mask: Aspect::Depth,
                src_stage: Stage::TopOfPipe,
                dst_stage: Stage::EarlyFragmentTests,
            },
        ),
        (Layout::Undefined, Layout::ColorAttachmentOptimal) => Some(
            TransitionInfo {
                old_layout: from,
                new_layout: to,
                src_access: Access::NoAccess,
                dst_access: Access::ColorAttachmentWrite,
                aspect_mask: Aspect::Color,
                src_stage: Stage::TopOfPipe,
                dst_stage: Stage::ColorAttachmentOutput,
            },
        ),
        _ => None,
    }
}

/// The barrier that takes an image from `from` to `to`, if images go that way.
pub fn transition(from: Layout, to: Layout) -> (r: Option<TransitionInfo>)
    ensures
        r == transition_spec(from, to),
{
    match (from, to) {
        (Layout::Undefined, Layout::TransferDstOptimal) => Some(
            TransitionInfo {
                old_layout: from,
                new_layout: to,
                src_access: Access::NoAccess,
                dst_access: Access::TransferWrite,
                aspect_mask: Aspect::Color,
                src_stage: Stage::TopOfPipe,
                dst_stage: Stage::Transfer,
            },
        ),
        (Layout::TransferDstOptimal, Layout::ShaderReadOnlyOptimal) => Some(
            TransitionInfo {
                old_layout: from,
                new_layout: to,
                src_access: Access::TransferWrite,
                dst_access: Access::NoAccess,
                aspect_mask: Aspect::Color,
                src_stage: Stage::Transfer,
                dst_stage: Stage::FragmentShader,
            },
        ),
        (Layout::Undefined, Layout::DepthStencilAttachmentOptimal) => Some(
            TransitionInfo {
                old_layout: from,
                new_layout: to,
                src_access: Access::NoAccess,
                dst_access: Access::DepthStencilAttachmentWrite,
                aspect_mask: Aspect::Depth,
                src_stage: Stage::TopOfPipe,
                dst_stage: Stage::EarlyFragmentTests,
            },
        ),
        (Layout::Undefined, Layout::ColorAttachmentOptimal) => Some(
            TransitionInfo {
                old_layout: from,
                new_layout: to,
                src_access: Access::NoAccess,
                dst_access: Access::ColorAttachmentWrite,
                aspect_mask: Aspect::Color,
                src_stage: Stage::TopOfPipe,
                dst_stage: Stage::ColorAttachmentOutput,
            },
        ),
        _ => None,
    }
}

/// The commands that upload `data` from `staging` into `image`: the host
/// write, the barrier into the transfer layout, the copy, and the barrier
/// into the layout that shaders read.
pub open spec fn image_upload_ops(staging: u64, image: u64, data: Seq<u8>, width: u32, height: u32) -> Seq<Op> {
    seq![
        Op::Write { dst: staging, bytes: data },
        Op::Barrier { image, info: transition_spec(Layout::Undefined, Layout::TransferDstOptimal)->Some_0 },
        Op::CopyBufferToImage { src: staging, image, width, height },
        Op::Barrier { image, info: transition_spec(Layout::TransferDstOptimal, Layout::ShaderReadOnlyOptimal)->Some_0 },
    ]
}

/// A two-dimensional image in device-local memory.
pub struct Image {
    image: Resource,
    image_type: Type,
    layout: Layout,
    destroyed: bool,
}

impl Image {
    /// The native handle and allocation of the image.
    pub closed spec fn resource(&self) -> Resource {
        self.image
    }

    /// The layout the image is in once the recorded commands have run.
    pub closed spec fn layout_spec(&self) -> Layout {
        self.layout
    }

    pub closed spec fn kind(&self) -> Type {
        self.image_type
    }

    pub closed spec fn is_destroyed(&self) -> bool {
        self.destroyed
    }

    /// An image in undefined layout over a freshly created native image.
    pub fn new_empty(image: Resource, image_type: Type) -> (r: Image)
        ensures
            r.resource() == image,
            r.kind() == image_type,
            r.layout_spec() == Layout::Undefined,
            !r.is_destroyed(),
    {
        Image { image, image_type, layout: Layout::Undefined, destroyed: false }
    }

    /// An image filled with `data` through `staging`, ready for shaders to
    /// read; `staging` is left to the command buffer's cleanup list.
    pub fn new(
        command_buffer: &mut CommandBuffer,
        image: Resource,
        staging: Resource,
        width: u32,
        height: u32,
        image_type: Type,
        data: &[u8],
    ) -> (r: Image)
        requires
            old(command_buffer).is_recording(),
        ensures
            r.resource() == image,
            r.kind() == image_type,
            r.layout_spec() == Layout::ShaderReadOnlyOptimal,
            !r.is_destroyed(),
            final(command_buffer).is_recording(),
            final(command_buffer).handle() == old(command_buffer).handle(),
            final(command_buffer).recorded() == old(command_buffer).recorded()
                + image_upload_ops(staging.handle, image.handle, data@, width, height),
            final(command_buffer).pending() == old(command_buffer).pending().push(staging),
    {
        let mut r = Image::new_empty(image, image_type);
        r.copy_data_to_image(command_buffer, staging, data, width, height);
        r
    }

    /// Records the upload of `data` into this image, leaving it in the layout
    /// that shaders read.
    fn copy_data_to_image(
        &mut self,
        command_buffer: &mut CommandBuffer,
        staging: Resource,
        data: &[u8],
        width: u32,
        height: u32,
    )
        requires
            old(command_buffer).is_recording(),
            old(self).layout_spec() == Layout::Undefined,
            !old(self).is_destroyed(),
        ensures
            final(self).resource() == old(self).resource(),
            final(self).kind() == old(self).kind(),
            final(self).layout_spec() == Layout::ShaderReadOnlyOptimal,
            !final(self).is_destroyed(),
            final(command_buffer).is_recording(),
            final(command_buffer).handle() == old(command_buffer).handle(),
            final(command_buffer).recorded() == old(command_buffer).recorded()
                + image_upload_ops(staging.handle, old(self).resource().handle, data@, width, height),
            final(command_buffer).pending() == old(command_buffer).pending().push(staging),
    {
        let ghost start = command_buffer.recorded();
        command_buffer.record(Command::Write { dst: staging.handle, bytes: copy_bytes(data) });
        let first = self.transition_layout(command_buffer, Layout::TransferDstOptimal);
        command_buffer.record(
            Command::CopyBufferToImage { src: staging.handle, image: self.image.handle, width, height },
        );
        let second = self.transition_layout(command_buffer, Layout::ShaderReadOnlyOptimal);
        command_buffer.add_to_cleanup_list(staging);
        assert(command_buffer.recorded() =~= start + image_upload_ops(
            staging.handle,
            self.image.handle,
            data@,
            width,
            height,
        ));
    }

    /// Records the barrier that moves the image into `new_layout`.
    pub fn transition_layout(&mut self, command_buffer: &mut CommandBuffer, new_layout: Layout) -> (r: Result<(), ImageError>)
        requires
            old(command_buffer).is_recording(),
        ensures
            final(self).resource() == old(self).resource(),
            final(self).kind() == old(self).kind(),
            final(self).is_destroyed() == old(self).is_destroyed(),
            final(command_buffer).is_recording(),
            final(command_buffer).handle() == old(command_buffer).handle(),
            final(command_buffer).pending() == old(command_buffer).pending(),
            old(self).is_destroyed() ==> r == Err::<(), ImageError>(ImageError::Destroyed),
            !old(self).is_destroyed() && transition_spec(old(self).layout_spec(), new_layout) is None
                ==> r == Err::<(), ImageError>(
                ImageError::InvalidTransition { from: old(self).layout_spec(), to: new_layout },
            ),
            r is Ok <==> !old(self).is_destroyed() && transition_spec(old(self).layout_spec(), new_layout) is Some,
            r is Ok ==> final(self).layout_spec() == new_layout && final(command_buffer).recorded()
                == old(command_buffer).recorded().push(
                Op::Barrier {
                    image: old(self).resource().handle,
                    info: transition_spec(old(self).layout_spec(), new_layout)->Some_0,
                },
            ),
            r is Err ==> *final(self) == *old(self) && final(command_buffer).recorded()
                == old(command_buffer).recorded(),
    {
        if self.destroyed {
            return Err(ImageError::Destroyed);
        }
        match transition(self.layout, new_layout) {
            Some(info) => {
                command_buffer.record(Command::Barrier { image: self.image.handle, info });
                self.layout = new_layout;
                Ok(())
            },
            None => Err(ImageError::InvalidTransition { from: self.layout, to: new_layout }),
        }
    }

    pub fn get_image(&self) -> (r: u64)
        ensures
            r == self.resource().handle,
    {
        self.image.handle
    }

    pub fn get_layout(&self) -> (r: Layout)
        ensures
            r == self.layout_spec(),
    {
        self.layout
    }

    /// Hands back the image's native handle and allocation to free, the first
    /// time only; a second call hands back nothing.
    pub fn destroy(&mut self) -> (r: Option<Resource>)
        ensures
            final(self).is_destroyed(),
            final(self).resource() == old(self).resource(),
            final(self).kind() == old(self).kind(),
            old(self).is_destroyed() ==> r is None,
            !old(self).is_destroyed() ==> r == Some(old(self).resource()),
    {
        if self.destroyed {
            None
        } else {
            self.destroyed = true;
            Some(self.image)
        }
    }
}

} // verus!
