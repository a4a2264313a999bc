use vstd::prelude::*;

verus! {

/// The clientbound packet that announces an entity's attributes; it carries
/// no fields yet.
#[derive(Clone, Copy, Debug, PartialEq, Eq, Structural)]
pub struct CUpdateAttributes {}

impl CUpdateAttributes {
    pub fn new() -> (r: Self)
        ensures
            r == (CUpdateAttributes {}),
    {
        CUpdateAttributes {}
    }
}

} // verus!
