//! Server settings read from the configuration file.

use vstd::prelude::*;

verus! {

/// Input devices the server listens to on Linux, each given by the path of
/// its device file; an absent device is not listened to.
#[derive(Clone, Debug)]
pub struct LinuxConfig {
    pub keyboard_device: Option<String>,
    pub mouse_device: Option<String>,
    pub touchpad_device: Option<String>,
}

} // verus!
