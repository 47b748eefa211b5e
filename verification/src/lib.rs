//! Verified core of a GPUI component kit: overlay paint priorities, the
//! keyboard-modality switch behind focus rings, icons, radio-group keyboard
//! navigation, the select and suggest-input state machines, sidebar menus,
//! dialog footers and the slider scale.

pub mod layer;
pub mod text;
pub mod size;
pub mod radio;
pub mod search;
pub mod icon;
pub mod searchable;
pub mod select;
pub mod suggest_input;
pub mod sidebar;
pub mod focus_visible;
pub mod dialog;
pub mod slider;
pub mod crate_path;
