//! Verified core of the terminal UI kit: editing, layout, navigation and
//! configuration rules behind the panels and popups.
use vstd::prelude::*;

pub mod ask_user;
pub mod browse;
pub mod config;
pub mod config_panel;
pub mod keys;
pub mod labels;
pub mod line_edit;
pub mod list_nav;
pub mod marketplace;
pub mod memory;
pub mod login;
pub mod plugin;
pub mod plugin_panel;
pub mod popups;
pub mod profiles;
pub mod render_cache;
pub mod rewind;
pub mod slash;
pub mod snapshot;
pub mod status;
pub mod steer;
pub mod subagents;
pub mod textarea;
pub mod width;
pub mod wizard;
pub mod workflow;
pub mod wrap;
pub mod text;

verus! {

} // verus!
