use vstd::prelude::*;

verus! {

/// Something that decides, from a time, whether it should refresh.
pub trait Updatable {
    fn can_update(&self, time: u32) -> bool;
}

} // verus!
