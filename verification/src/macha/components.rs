use vstd::prelude::*;

verus! {

/// The editor's own data about an entity: the name it is listed under.
pub struct MachaEntityOptions {
    pub name: String,
}

} // verus!
