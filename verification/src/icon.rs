//! Icons: small bitmaps that an action can carry.

use vstd::prelude::*;

verus! {

/// A bitmap as handed over by whoever decoded it: a width and a height in
/// pixels, and the pixels row by row from the top, each a colour packed as
/// `0xAARRGGBB`.
///
/// An action only keeps an icon and hands it back. Nothing here reads the
/// pixels, so any bitmap can be kept, whatever its size says of its data.
pub struct Icon {
    width: u32,
    height: u32,
    data: Vec<u32>,
}

/// What an icon is made of, as contracts see it.
pub struct IconView {
    pub width: u32,
    pub height: u32,
    pub data: Seq<u32>,
}

impl View for Icon {
    type V = IconView;

    closed spec fn view(&self) -> IconView {
        IconView { width: self.width, height: self.height, data: self.data@ }
    }
}

impl Icon {
    /// An icon of the given size with the given pixels.
    pub fn new(width: u32, height: u32, data: Vec<u32>) -> (icon: Icon)
        ensures
            icon@ == (IconView { width, height, data: data@ }),
    {
        Icon { width, height, data }
    }

    /// The width in pixels.
    pub fn width(&self) -> (width: u32)
        ensures
            width == self@.width,
    {
        self.width
    }

    /// The height in pixels.
    pub fn height(&self) -> (height: u32)
        ensures
            height == self@.height,
    {
        self.height
    }

    /// The pixels, row by row.
    pub fn data(&self) -> (data: &Vec<u32>)
        ensures
            data@ == self@.data,
    {
        &self.data
    }
}

} // verus!
