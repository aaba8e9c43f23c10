//! A drop-down menu widget: a clickable header that shows or hides a stack of
//! entries, with its layout rules and its pointer-event state machines proved.

pub mod action;
pub mod entry;
pub mod event;
pub mod geometry;
pub mod icon;
pub mod layout;
pub mod menu;
pub mod paint;
pub mod separator;
pub mod window;

pub use action::{Action, ActionView};
pub use entry::{Entry, EntryView, MenuEntry};
pub use event::{Click, ClickTarget, Event, Response};
pub use geometry::{Color, Point, Rect};
pub use icon::{Icon, IconView};
pub use menu::{Menu, MenuResponse, MenuView};
pub use paint::{DisplayList, DrawCommand};
pub use separator::{Separator, SeparatorView};
pub use window::Window;
