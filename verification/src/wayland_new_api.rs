//! Stub backend for Wayland compositors this library cannot query: every
//! query reports no data.

use vstd::prelude::*;

use crate::api::{empty_entity_view, init_entity};
use crate::x_win_struct::window_info::WindowInfo;

verus! {

/// Reports the empty window record: nothing can be asked here.
pub fn get_active_window() -> (r: WindowInfo)
    ensures
        r@ == empty_entity_view(),
{
    init_entity()
}

/// Reports no windows: nothing can be asked here.
pub fn get_open_windows() -> (r: Vec<WindowInfo>)
    ensures
        r@.len() == 0,
{
    Vec::new()
}

} // verus!
