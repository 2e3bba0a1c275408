use vstd::prelude::*;

pub mod ai;
pub mod glyphs;
pub mod keys;
pub mod lists;
pub mod mouse;
pub mod nav;
pub mod overlays;
pub mod palette;
pub mod pane_events;
pub mod pickers;
pub mod pr;
pub mod prompt;
pub mod rows;
pub mod preview;
pub mod startup;
pub mod streaming;
pub mod tabbar;
pub mod search;
pub mod sidebar;
pub mod selection;
pub mod sorting;
pub mod spans;
pub mod chat;
pub mod colors;
pub mod fontlist;
pub mod fonts;
pub mod termkeys;
pub mod text;
pub mod update;
pub mod view;

verus! {
}
