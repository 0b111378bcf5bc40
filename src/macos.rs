//! Bridge to the platform's screensaver host. It holds no state yet: the
//! simulation runs in a window of its own.
use vstd::prelude::*;

verus! {

/// Link between the simulation and the platform's screensaver view.
#[derive(Debug)]
pub struct ScreenSaverBridge {}

impl ScreenSaverBridge {
    /// A bridge with nothing attached.
    pub fn new() -> (b: ScreenSaverBridge)
        ensures
            b == (ScreenSaverBridge {}),
    {
        ScreenSaverBridge {}
    }
}

impl Default for ScreenSaverBridge {
    fn default() -> (b: ScreenSaverBridge)
        ensures
            b == (ScreenSaverBridge {}),
    {
        ScreenSaverBridge::new()
    }
}

} // verus!
