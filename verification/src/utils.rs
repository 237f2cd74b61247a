use vstd::prelude::*;

verus! {

/// A plain copyable value meant to be passed to the GPU byte for byte.
#[derive(Debug, Copy, Clone)]
pub struct PodWrapper<T: Copy + 'static>(pub T);

} // verus!
