//! Shared declarations for network-document parsing.

use vstd::prelude::*;

verus! {

/// Indicates whether a list of objects to parse may carry annotations:
/// items with keywords beginning with `@` that precede the items that
/// are actually part of the document.
#[derive(Copy, Clone, Debug, PartialEq, Eq, Structural)]
pub enum AllowAnnotations {
    /// Parsing a document where items might be annotated.
    AnnotationsAllowed,
    /// Parsing a document where annotations are not allowed.
    AnnotationsNotAllowed,
}

} // verus!
