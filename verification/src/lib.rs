//! Verified core of a terminal viewer for the working-tree changes of a git
//! repository: the file list model, diff assembly, syntax-highlight layout,
//! the scroll viewport and the key-driven state of the viewer.

pub mod app;
pub mod file_list;
pub mod git;
pub mod highlight;
pub mod patch;
pub mod text;
pub mod ui;
pub mod viewport;
