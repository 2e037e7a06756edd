use vstd::prelude::*;

verus! {

/// The joypad's eight buttons, multiplexed by the hardware as two columns of
/// four.  The joypad is not wired into the core yet; this type only names
/// the layout a future reader of the two columns will see.
pub struct Input<'a> {
    pub memory: &'a [[u8; 4]; 2],
}

} // verus!
