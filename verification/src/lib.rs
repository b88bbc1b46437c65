use vstd::prelude::*;

pub mod app_actions;
pub mod app_data;
pub mod app_keys;
pub mod app_state;
pub mod bytes;
pub mod chunks;
pub mod cli;
pub mod clipboard;
pub mod config;
pub mod content;
pub mod content_nav;
pub mod content_result;
pub mod content_select;
pub mod content_ops;
pub mod content_filter;
pub mod content_keys;
pub mod data;
pub mod display;
pub mod dup;
pub mod error;
pub mod laws;
pub mod list_view;
pub mod memory;
pub mod modal_view;
pub mod models;
pub mod navigation;
pub mod overlays;
pub mod requests;
pub mod result_view;
pub mod services;
pub mod session;
pub mod state_screens;
pub mod strings;
pub mod rows;
pub mod row_laws;
pub mod text;
pub mod ui;
pub mod validate;
pub mod validation;
pub mod wrap;

verus! {

} // verus!
