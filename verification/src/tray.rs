//! The system tray where none is available (Linux): there is no menu, so no
//! menu event ever arrives.

use vstd::prelude::*;

verus! {

/// The next tray menu event: never one, without a tray.
pub fn poll_event() -> (r: Option<()>)
    ensures
        r is None,
{
    None
}

} // verus!
