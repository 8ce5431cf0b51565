//! Data shared between a terminal multiplexer and its plugins: keys and their
//! labels, input modes and their names, keybindings, palettes and client
//! colors, and the events delivered to plugins.

use vstd::prelude::*;

pub mod color;
pub mod event;
pub mod input;
pub mod mode;
pub mod text;

pub use color::{
    client_id_to_colors, single_client_color, ClientId, Palette, PaletteColor, PaletteSource,
    Style, ThemeHue,
};
pub use event::{
    CopyDestination, Event, EventType, PluginIds, PluginTag, TabInfo, UnknownEventType,
};
pub use input::{CharOrArrow, Direction, Key, Mouse};
pub use mode::{
    Action, InputMode, KeybindsVec, ModeInfo, PluginCapabilities, UnknownInputMode,
};

verus! {

} // verus!
