use vstd::prelude::*;

verus! {

/// Makes any value usable as a world resource of the entity component system.
pub struct ResourceWrapper<T> {
    pub data: T,
}

impl<T> ResourceWrapper<T> {
    pub fn new(data: T) -> (r: Self)
        ensures
            r.data == data,
    {
        Self { data }
    }
}

} // verus!
