//! Glyph decoding, text metrics and text fitting for a small fixed-font
//! display, together with the page and input state machines built on them.

pub mod glyph;
pub mod font;
pub mod session;
pub mod geometry;
pub mod pin;
pub mod flow;
pub mod fuel_gauge;
pub mod pager;
pub mod page;
pub mod flow_pages;
pub mod address_details;
pub mod subpaged_address_details;
pub mod menu;
pub mod set_brightness;
pub mod theme;
