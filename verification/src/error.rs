//! The crate's error taxonomy. Every failure of the highlight operation is
//! one of these; none is retried, all abort the operation.

use vstd::prelude::*;

verus! {

/// Why the highlight operation failed.
#[derive(Debug)]
pub enum HighlightError {
    /// The requested page number is not present in the document.
    PageNotFound,
    /// Both members of a mutually-exclusive argument pair were supplied.
    ArgConflict,
    /// Neither member of a required argument pair was supplied.
    ArgMissing,
    /// The page bounding box is present neither on the page-tree root nor on
    /// the page itself.
    MediaBoxMissing,
    /// The page bounding box attribute does not decode as exactly four
    /// numeric values.
    MediaBoxMalformed,
    /// The page's annotation key holds neither an inline array nor an
    /// indirect reference: an unrecoverable document-integrity violation.
    AnnotsMalformed,
    /// A coordinate computation would leave the machine integer range.
    CoordinateOverflow,
    /// The document's object-identifier space is exhausted, so no new
    /// annotation object can be allocated.
    IdSpaceExhausted,
    /// An error surfaced as-is from the document library.
    Doc(lopdf::Error),
}

} // verus!
