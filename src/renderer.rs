use vstd::prelude::*;

verus! {

/// The graphics API a renderer is built on.
#[allow(non_camel_case_types)]
#[derive(Clone, Copy, Debug, PartialEq, Eq, Structural)]
pub enum Graphics_API {
    OPENGL,
    VULKAN,
}

} // verus!
