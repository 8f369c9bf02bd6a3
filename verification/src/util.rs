//! Small facts that several parts need.

use vstd::prelude::*;

verus! {

/// The flag with which Windows starts a program without a console window.
pub const CREATE_NO_WINDOW: u32 = 0x0800_0000;

} // verus!
