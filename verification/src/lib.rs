//! Verified editing core of a frame-by-frame movie (TAS) editor.
#![allow(unused_imports)]

pub mod text;
pub mod input;
pub mod identity;
pub mod coleco_input;
pub mod input_columns;
pub mod limits;
pub mod live;
pub mod ranges;
pub mod pattern;
pub mod replay;
pub mod fds_events;
pub mod project;
pub mod session;
pub mod timeline_edit;
pub mod selection;
pub mod marked_ranges;
pub mod special_input;
pub mod digital_masks;
pub mod editor;
pub mod metadata;
pub mod editor_input;
pub mod range_edits;
pub mod editor_marked;
pub mod editor_edits;
pub mod clipboard;
pub mod editor_clipboard;
pub mod editor_events;
pub mod editor_reduce;
pub mod editor_special;
pub mod editor_live;
pub mod navigator;
pub mod summaries;
pub mod panel_settings;
pub mod branch_diff;
