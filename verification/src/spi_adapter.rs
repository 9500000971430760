use vstd::prelude::*;
use crate::led::Led;

verus! {

/// A sink that flushes a finished pixel buffer to hardware.  Implementations
/// live with the hardware glue; the engine only hands them frames.
pub trait SpiWriter {
    fn write_rgb(&mut self, rgb_vec: Vec<Led>) -> Result<(), String>;

    fn clear(&mut self, num_to_clear: usize);
}

} // verus!
