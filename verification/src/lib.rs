//! Add a highlight annotation to one page of a PDF document.
//!
//! The crate does two things, both with verified contracts: it flips a
//! rectangle given in the screen convention (origin top-left, y downward)
//! into the document format's native convention (origin bottom-left, y
//! upward) and places it inside the page's own rectangle; and it appends
//! the new annotation's identifier to the page's annotation list inside the
//! document's object graph, creating the list when absent and going through
//! either of its two storage representations (inline array, or indirect
//! reference to an array). The object graph itself belongs to lopdf, which
//! stands behind the trusted boundary in `doc`.

pub mod annot;
pub mod bbox;
pub mod cli;
pub mod doc;
pub mod error;

pub use annot::add_highlight;
pub use annot::attach_annotation;
pub use annot::build_highlight_annotation;
pub use annot::decode_media;
pub use annot::mediabox;
pub use bbox::BBox;
pub use bbox::Coordinate;
pub use cli::Cli;
pub use doc::AnnotsSlot;
pub use error::HighlightError;
