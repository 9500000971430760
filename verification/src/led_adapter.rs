use vstd::prelude::*;

verus! {

/// A strip writer taking bare RGB triples, the older adapter surface.
pub trait LedAdapter {
    fn write_rgb(&mut self, rgb_vec: Vec<(u8, u8, u8)>) -> Result<(), String>;

    fn clear(&mut self) -> Result<(), String>;
}

/// An adapter that drops every frame, for running the board with no strip
/// attached.
pub struct EmptyImplLedAdapter {}

impl EmptyImplLedAdapter {
    pub fn new() -> (res: Self) {
        EmptyImplLedAdapter {  }
    }
}

impl LedAdapter for EmptyImplLedAdapter {
    fn write_rgb(&mut self, rgb_vec: Vec<(u8, u8, u8)>) -> (res: Result<(), String>) {
        let _ = rgb_vec;
        Ok(())
    }

    fn clear(&mut self) -> (res: Result<(), String>) {
        Ok(())
    }
}

} // verus!
