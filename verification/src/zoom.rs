//! Making the whole window bigger or smaller: Ctrl+Plus, Ctrl+Minus and
//! Ctrl+0 (`keys`), as in any Windows browser, kept from launch to launch.
//! The sizes themselves are WebView2's, in floating point, and are the
//! program's to keep; which way a key moves them is here.

use vstd::prelude::*;

verus! {

/// Which way a key moves the window's size: a level bigger, a level
/// smaller, or back to its own.
#[derive(Clone, Copy, Debug, PartialEq, Eq, Structural)]
pub enum Step {
    In,
    Out,
    Reset,
}

} // verus!
