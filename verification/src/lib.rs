//! Tooling for better human readable errors.
//!
//! Two small, stateless conveniences: I/O failures tagged with the file
//! path they occurred on, and a top-level error wrapper whose rendering
//! walks the whole chain of causes, one line per cause.

mod fat_io;
mod main_error;

pub use fat_io::FatIOError;
pub use fat_io::IoError;
pub use fat_io::fat_display;
pub use fat_io::fat_io_wrap_std;
pub use fat_io::tag_io_result;
pub use main_error::MainError;
pub use main_error::chain_render;
pub use main_error::lemma_chain_render_single;
pub use main_error::lemma_render_idempotent;
pub use main_error::lemma_render_keeps_outermost;
