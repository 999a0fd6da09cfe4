//! The growth stage of a palm tree, stored in the database as the `growth`
//! enumeration with the values "Adult", "New" and "Young".
use vstd::prelude::*;

verus! {

#[derive(Clone, Copy, Debug, PartialEq, Eq, Structural)]
pub enum Growth {
    Adult,
    New,
    Young,
}

impl Default for Growth {
    /// A palm is adult unless said otherwise.
    fn default() -> (growth: Self)
        ensures
            growth == Growth::Adult,
    {
        Growth::Adult
    }
}

} // verus!
