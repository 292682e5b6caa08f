//! Session logic of a single-document text editor: line counting, the
//! file-name component of a path, and the transitions of a document session
//! between its untitled and bound states.

pub mod lines;
pub mod path;
pub mod session;
pub mod text;

pub use crate::lines::count_lines;
pub use crate::path::file_name;
pub use crate::session::{decode_read, DocumentSession, PathDecision, ReadFailure, SessionView};
