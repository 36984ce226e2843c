//! A declarative symlink manager: manifest lines map source paths to
//! destination directories, and a reconciliation engine decides, entry by
//! entry, which filesystem actions bring the destination in line.

pub mod text;
pub mod manifest;
pub mod paths;
pub mod reconcile;
pub mod session;
