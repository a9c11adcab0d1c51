//! Full description of one window, as every backend reports it.

use vstd::prelude::*;

use crate::x_win_struct::process_info::{ProcessInfo, ProcessInfoView};
use crate::x_win_struct::usage_info::UsageInfo;
use crate::x_win_struct::window_position::WindowPosition;

verus! {

/// Mathematical value of a [`WindowInfo`].
pub ghost struct WindowInfoView {
    pub id: u32,
    pub os: Seq<char>,
    pub title: Seq<char>,
    pub position: WindowPosition,
    pub info: ProcessInfoView,
    pub usage: UsageInfo,
}

/// Everything this library reports about one window.
#[derive(Debug, Clone, PartialEq, Eq)]
pub struct WindowInfo {
    pub id: u32,
    pub os: String,
    pub title: String,
    pub position: WindowPosition,
    pub info: ProcessInfo,
    pub usage: UsageInfo,
}

impl View for WindowInfo {
    type V = WindowInfoView;

    open spec fn view(&self) -> WindowInfoView {
        WindowInfoView {
            id: self.id,
            os: self.os@,
            title: self.title@,
            position: self.position,
            info: self.info@,
            usage: self.usage,
        }
    }
}

impl WindowInfo {
    /// Builds a window record from its raw parts.
    pub fn new(
        id: u32,
        os: String,
        title: String,
        position: WindowPosition,
        info: ProcessInfo,
        usage: UsageInfo,
    ) -> (r: WindowInfo)
        ensures
            r@ == (WindowInfoView {
                id,
                os: os@,
                title: title@,
                position,
                info: info@,
                usage,
            }),
    {
        WindowInfo { id, os, title, position, info, usage }
    }
}

} // verus!
