//! The window: the owner of the placed widgets.

use vstd::prelude::*;
use crate::menu::Menu;

verus! {

/// The widgets of one window, in the order in which they were placed. The
/// window owns them; whoever placed one keeps its index as a handle.
pub struct Window {
    pub widgets: Vec<Menu>,
}

impl Window {
    /// A window without widgets.
    pub fn new() -> (window: Window)
        ensures
            window.widgets@ == Seq::<Menu>::empty(),
    {
        Window { widgets: Vec::new() }
    }
}

impl Menu {
    /// Hands the menu over to `window`, behind the widgets that are there,
    /// and returns the handle under which the window keeps it.
    pub fn place(self, window: &mut Window) -> (handle: usize)
        ensures
            final(window).widgets@ == old(window).widgets@.push(self),
            handle == old(window).widgets@.len(),
    {
        let handle = window.widgets.len();
        window.widgets.push(self);
        handle
    }
}

} // verus!
