//! Converts Markdown documents to HTML pages, optionally through a template,
//! and decides what a directory watcher does with each change notification.

pub mod markdown;
pub mod template;
pub mod path;
pub mod watch;
pub mod convert;
