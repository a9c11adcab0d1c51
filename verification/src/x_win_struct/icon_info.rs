//! Icon of a window's application, as a PNG data URI.

use vstd::prelude::*;

verus! {

/// Mathematical value of an [`IconInfo`].
pub ghost struct IconInfoView {
    pub data: Seq<char>,
    pub height: u32,
    pub width: u32,
}

/// Application icon: a `data:image/png;base64,` URI and its pixel size.
/// All fields are zero/empty when no icon could be recovered.
#[derive(Debug, Clone, PartialEq, Eq)]
pub struct IconInfo {
    pub data: String,
    pub height: u32,
    pub width: u32,
}

impl View for IconInfo {
    type V = IconInfoView;

    open spec fn view(&self) -> IconInfoView {
        IconInfoView { data: self.data@, height: self.height, width: self.width }
    }
}

impl IconInfo {
    /// Builds an icon record from its raw parts.
    pub fn new(data: String, height: u32, width: u32) -> (r: IconInfo)
        ensures
            r@ == (IconInfoView { data: data@, height, width }),
    {
        IconInfo { data, height, width }
    }
}

} // verus!
