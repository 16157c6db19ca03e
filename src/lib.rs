use vstd::prelude::*;

pub mod frame;
pub mod layout;
pub mod pump;
pub mod shm;

verus! {

} // verus!
