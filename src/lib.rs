//! Organises photo and video collections: recognises camera file names,
//! derives canonical `YYYY-MM-DD HH.MM.SS.ext` names, and plans where a
//! canonically named file goes and which modification time it gets.
pub mod paths;
pub mod pattern;
pub mod media;
pub mod calendar;
pub mod organize;
pub mod naming;
pub mod arguments;
