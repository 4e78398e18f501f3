//! Interactive state core of a terminal file manager: directory lists with a
//! cursor and persistent selection flags, a selection engine driven by
//! patterns or name sets, viewport math for rendering, and the validation
//! pipeline that turns captured shell output into a directory change or a
//! selection.

pub mod error;
pub mod text;
pub mod matcher;
pub mod entry;
pub mod dirlist;
pub mod state;
pub mod select;
pub mod stdout;
pub mod theme;
pub mod widget;
