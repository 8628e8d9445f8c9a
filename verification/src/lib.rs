use vstd::prelude::*;

pub mod error;
pub mod bits;
pub mod bitstream;
pub mod packets;
pub mod colours;
pub mod profile;
pub mod profiles_r1;
pub mod r1_addresses;
pub mod r1_layout;
pub mod selection;
pub mod players;
pub mod text;
pub mod animation;
pub mod sync;
pub mod snapshots;
pub mod cache;
pub mod markers;
pub mod memory;
pub mod r1_reads;
pub mod native_layouts;
pub mod r1_pools;
pub mod r1_sync;
pub mod commands;
pub mod r1_textdraw_edits;
pub mod r1_ui;
pub mod guard;
pub mod label_reads;
pub mod local_reads;
pub mod r1_local;
pub mod player_calls;
pub mod r1_player_calls;
pub mod native_pools;
pub mod native_textdraws;
pub mod native_ui;
pub mod native_remote;
pub mod native_connection;
pub mod r1_pool_flags;
pub mod r1_dialog;
pub mod r1_creation;
pub mod r1_force_sync;
pub mod native_steps;
pub mod r1_steps;
pub mod r1_actions;
pub mod native_actions;
pub mod remote_steps;
pub mod native_force_sync;
pub mod local_steps;
pub mod remote_info_steps;

verus! {

} // verus!
