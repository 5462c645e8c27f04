//! The decision layer of a macOS settings window.
//!
//! Everything a settings window has to work out before it can talk to AppKit is
//! here: where rows, cards, panels and bubbles go, which control writes which
//! configuration value, how the confirmation cards, pop-up selects, tooltips and
//! shortcut recorder move from state to state, and what restoring defaults keeps.
//! The functions take and return plain values, so the code that owns views only
//! carries the results out.
//!
//! Lengths are whole thousandths of a point; views are identified by `usize`
//! numbers in which zero means that there is no view.
pub mod button_map;
pub mod collapse;
pub mod config;
pub mod controls;
pub mod dispatch;
pub mod document;
pub mod export;
pub mod geometry;
pub mod glass_preview;
pub mod layout;
pub mod mapping;
pub mod mapping_panel;
pub mod numeric;
pub mod page_contents;
pub mod page_rows;
pub mod pages;
pub mod palette;
pub mod profiles;
pub mod recording;
pub mod restore;
pub mod rows;
pub mod select;
pub mod select_layout;
pub mod shown;
pub mod sidebar;
pub mod text;
pub mod tooltip;
pub mod widgets;
