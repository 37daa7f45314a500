pub mod vulkan;

use vstd::prelude::*;

verus! {

/// A graphics backend that the renderer can drive.
pub trait IBackend {
    fn init();
}

} // verus!
