//! The failures the catalog reports.

use vstd::prelude::*;

verus! {

/// A field of the metadata document that the acquisition tool emits.
#[derive(Debug, Clone, Copy, PartialEq, Eq, Structural)]
pub enum MetadataField {
    Id,
    Title,
    Uploader,
    Description,
    Duration,
    Thumbnail,
    WebpageUrl,
}

/// Why the output of a successful tool run could not be read as metadata.
#[derive(Debug, Clone, Copy, PartialEq, Eq, Structural)]
pub enum MalformedReason {
    /// The output is not valid UTF-8.
    InvalidUtf8,
    /// The output is not a JSON document.
    InvalidJson,
    /// A required field is absent or null.
    MissingField(MetadataField),
    /// A field is present with a value of another type than the field has.
    WrongType(MetadataField),
    /// A required field is an empty string.
    EmptyField(MetadataField),
}

/// What can go wrong in an operation of the catalog.
///
/// `ToolFailed` means that the source rejected the request and carries the
/// tool's diagnostic text as the tool wrote it; `MalformedResponse` means that
/// the tool succeeded and its output could not be understood here.
/// `ConstraintViolation` is an internal error: stored rows that break the
/// catalog's own rules.
#[derive(Debug, Clone, PartialEq, Eq)]
pub enum CatalogError {
    InvalidInput,
    ToolUnavailable(String),
    ToolFailed(String),
    MalformedResponse(MalformedReason),
    DownloadFailed(String),
    StorageUnavailable(String),
    NotFound,
    ConstraintViolation,
}

/// The value of a [`CatalogError`], with every string as a sequence of characters.
pub enum ErrorView {
    InvalidInput,
    ToolUnavailable(Seq<char>),
    ToolFailed(Seq<char>),
    MalformedResponse(MalformedReason),
    DownloadFailed(Seq<char>),
    StorageUnavailable(Seq<char>),
    NotFound,
    ConstraintViolation,
}

impl View for CatalogError {
    type V = ErrorView;

    open spec fn view(&self) -> ErrorView {
        match self {
            CatalogError::InvalidInput => ErrorView::InvalidInput,
            CatalogError::ToolUnavailable(reason) => ErrorView::ToolUnavailable(reason@),
            CatalogError::ToolFailed(diagnostic) => ErrorView::ToolFailed(diagnostic@),
            CatalogError::MalformedResponse(reason) => ErrorView::MalformedResponse(*reason),
            CatalogError::DownloadFailed(diagnostic) => ErrorView::DownloadFailed(diagnostic@),
            CatalogError::StorageUnavailable(reason) => ErrorView::StorageUnavailable(reason@),
            CatalogError::NotFound => ErrorView::NotFound,
            CatalogError::ConstraintViolation => ErrorView::ConstraintViolation,
        }
    }
}

} // verus!
