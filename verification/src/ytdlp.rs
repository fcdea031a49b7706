//! The acquisition tool: what it is asked, and what its answers mean.
//!
//! The tool is run elsewhere. This module builds the command lines it is run
//! with, and turns what a run left behind, a [`ToolOutcome`], into metadata,
//! a file path, or the error that names what went wrong.

use crate::error::{CatalogError, ErrorView, MalformedReason, MetadataField};
use crate::json::{json_document, json_field, parse_document, read_field, Field, FieldView};
use crate::models::{MetadataView, VideoMetadata};
use crate::naming::{expected_file_path, file_path_for, sanitize_title, sanitized};
use crate::text::{lossy_text, utf8_text, utf8_text_lossy};
use vstd::prelude::*;
use vstd::string::*;
use vstd::utf8::{decode_utf8, valid_utf8};

verus! {

/// The program that is run.
pub const TOOL_PROGRAM: &'static str = "yt-dlp";

/// How a run of the tool ended.
#[derive(Debug, Clone, PartialEq, Eq)]
pub enum ToolOutcome {
    /// The tool could not be started; `reason` says why.
    NotStarted { reason: String },
    /// The tool did not finish in the time it was given, and was stopped.
    TimedOut,
    /// The tool ran and exited: whether it reported success, and what it
    /// wrote to its standard output and to its standard error.
    Exited { success: bool, stdout: Vec<u8>, stderr: Vec<u8> },
}

/// The value of a [`ToolOutcome`].
pub enum OutcomeView {
    NotStarted { reason: Seq<char> },
    TimedOut,
    Exited { success: bool, stdout: Seq<u8>, stderr: Seq<u8> },
}

impl View for ToolOutcome {
    type V = OutcomeView;

    open spec fn view(&self) -> OutcomeView {
        match self {
            ToolOutcome::NotStarted { reason } => OutcomeView::NotStarted { reason: reason@ },
            ToolOutcome::TimedOut => OutcomeView::TimedOut,
            ToolOutcome::Exited { success, stdout, stderr } => OutcomeView::Exited {
                success: *success,
                stdout: stdout@,
                stderr: stderr@,
            },
        }
    }
}

/// The fields of a metadata document that the catalog reads.
#[derive(Debug, Clone, PartialEq, Eq)]
pub struct MetadataFields {
    pub id: Field,
    pub title: Field,
    pub uploader: Field,
    pub description: Field,
    pub duration: Field,
    pub thumbnail: Field,
    pub webpage_url: Field,
}

/// The value of a [`MetadataFields`].
pub struct MetadataFieldsView {
    pub id: FieldView,
    pub title: FieldView,
    pub uploader: FieldView,
    pub description: FieldView,
    pub duration: FieldView,
    pub thumbnail: FieldView,
    pub webpage_url: FieldView,
}

impl View for MetadataFields {
    type V = MetadataFieldsView;

    open spec fn view(&self) -> MetadataFieldsView {
        MetadataFieldsView {
            id: self.id@,
            title: self.title@,
            uploader: self.uploader@,
            description: self.description@,
            duration: self.duration@,
            thumbnail: self.thumbnail@,
            webpage_url: self.webpage_url@,
        }
    }
}

/// The value of the result of a fetch.
pub open spec fn fetch_view(result: Result<VideoMetadata, CatalogError>) -> Result<
    MetadataView,
    ErrorView,
> {
    match result {
        Ok(meta) => Ok(meta@),
        Err(error) => Err(error@),
    }
}

/// The value of the result of a download.
pub open spec fn download_view(result: Result<String, CatalogError>) -> Result<
    Seq<char>,
    ErrorView,
> {
    match result {
        Ok(path) => Ok(path@),
        Err(error) => Err(error@),
    }
}

/// A field that must be there: a string that is not empty.
pub open spec fn required_text(field: FieldView, which: MetadataField) -> Result<
    Seq<char>,
    MalformedReason,
> {
    match field {
        FieldView::Text(text) => if text.len() == 0 {
            Err(MalformedReason::EmptyField(which))
        } else {
            Ok(text)
        },
        FieldView::Absent => Err(MalformedReason::MissingField(which)),
        FieldView::Null => Err(MalformedReason::MissingField(which)),
        _ => Err(MalformedReason::WrongType(which)),
    }
}

/// A field that may be missing: a string, kept as it is, or nothing.
pub open spec fn optional_text(field: FieldView, which: MetadataField) -> Result<
    Option<Seq<char>>,
    MalformedReason,
> {
    match field {
        FieldView::Text(text) => Ok(Some(text)),
        FieldView::Absent => Ok(None),
        FieldView::Null => Ok(None),
        _ => Err(MalformedReason::WrongType(which)),
    }
}

/// A field that may be missing: an integer that is not negative, or nothing.
pub open spec fn optional_count(field: FieldView, which: MetadataField) -> Result<
    Option<u64>,
    MalformedReason,
> {
    match field {
        FieldView::Number(Some(count)) => Ok(Some(count)),
        FieldView::Absent => Ok(None),
        FieldView::Null => Ok(None),
        _ => Err(MalformedReason::WrongType(which)),
    }
}

/// The metadata that a document's fields make, or the first thing that is
/// wrong with them, going through the fields in the order `id`, `title`,
/// `uploader`, `description`, `duration`, `thumbnail`, `webpage_url`.
pub open spec fn metadata_of_fields(fields: MetadataFieldsView) -> Result<
    MetadataView,
    MalformedReason,
> {
    let id = required_text(fields.id, MetadataField::Id);
    let title = required_text(fields.title, MetadataField::Title);
    let uploader = optional_text(fields.uploader, MetadataField::Uploader);
    let description = optional_text(fields.description, MetadataField::Description);
    let duration = optional_count(fields.duration, MetadataField::Duration);
    let thumbnail = optional_text(fields.thumbnail, MetadataField::Thumbnail);
    let webpage_url = optional_text(fields.webpage_url, MetadataField::WebpageUrl);
    if id is Err {
        Err(id->Err_0)
    } else if title is Err {
        Err(title->Err_0)
    } else if uploader is Err {
        Err(uploader->Err_0)
    } else if description is Err {
        Err(description->Err_0)
    } else if duration is Err {
        Err(duration->Err_0)
    } else if thumbnail is Err {
        Err(thumbnail->Err_0)
    } else if webpage_url is Err {
        Err(webpage_url->Err_0)
    } else {
        Ok(
            MetadataView {
                id: id->Ok_0,
                title: title->Ok_0,
                uploader: uploader->Ok_0,
                description: description->Ok_0,
                duration: duration->Ok_0,
                thumbnail: thumbnail->Ok_0,
                webpage_url: webpage_url->Ok_0,
            },
        )
    }
}

/// The fields of a parsed document that the catalog reads, each under the
/// key that the tool writes it with.
pub open spec fn fields_of_document(document: serde_json::Value) -> MetadataFieldsView {
    MetadataFieldsView {
        id: json_field(document, "id"@),
        title: json_field(document, "title"@),
        uploader: json_field(document, "uploader"@),
        description: json_field(document, "description"@),
        duration: json_field(document, "duration"@),
        thumbnail: json_field(document, "thumbnail"@),
        webpage_url: json_field(document, "webpage_url"@),
    }
}

/// What a metadata document means: the record it describes, or
/// `MalformedResponse` with the reason why it describes none.
pub open spec fn decoded(text: Seq<char>) -> Result<MetadataView, ErrorView> {
    match json_document(text) {
        None => Err(ErrorView::MalformedResponse(MalformedReason::InvalidJson)),
        Some(document) => match metadata_of_fields(fields_of_document(document)) {
            Ok(meta) => Ok(meta),
            Err(reason) => Err(ErrorView::MalformedResponse(reason)),
        },
    }
}

/// The diagnostic of a run that was stopped for taking too long.
pub open spec fn timed_out_text() -> Seq<char> {
    "timed out"@
}

/// What a metadata run of the tool for `url` means, for each way it can end.
pub open spec fn fetched(url: Seq<char>, outcome: OutcomeView) -> Result<MetadataView, ErrorView> {
    if url.len() == 0 {
        Err(ErrorView::InvalidInput)
    } else {
        match outcome {
            OutcomeView::NotStarted { reason } => Err(ErrorView::ToolUnavailable(reason)),
            OutcomeView::TimedOut => Err(ErrorView::ToolFailed(timed_out_text())),
            OutcomeView::Exited { success, stdout, stderr } => if !success {
                Err(ErrorView::ToolFailed(lossy_text(stderr)))
            } else if !valid_utf8(stdout) {
                Err(ErrorView::MalformedResponse(MalformedReason::InvalidUtf8))
            } else {
                decoded(decode_utf8(stdout))
            },
        }
    }
}

/// The output template of a download: the file of a track with this title
/// under `output_dir`, with the extension left to the tool.
pub open spec fn output_template(output_dir: Seq<char>, title: Seq<char>) -> Seq<char> {
    output_dir + "/"@ + sanitized(title) + ".%(ext)s"@
}

/// What a download run of the tool means, for each way it can end.
pub open spec fn downloaded(
    url: Seq<char>,
    output_dir: Seq<char>,
    title: Seq<char>,
    outcome: OutcomeView,
) -> Result<Seq<char>, ErrorView> {
    if url.len() == 0 || title.len() == 0 {
        Err(ErrorView::InvalidInput)
    } else {
        match outcome {
            OutcomeView::NotStarted { reason } => Err(ErrorView::ToolUnavailable(reason)),
            OutcomeView::TimedOut => Err(ErrorView::DownloadFailed(timed_out_text())),
            OutcomeView::Exited { success, stdout, stderr } => if success {
                Ok(file_path_for(output_dir, title))
            } else {
                Err(ErrorView::DownloadFailed(lossy_text(stderr)))
            },
        }
    }
}

/// The arguments of a metadata run for `url`.
pub open spec fn metadata_command(url: Seq<char>) -> Seq<Seq<char>> {
    seq!["--dump-json"@, "--no-playlist"@, url]
}

/// The arguments of a download run for `url`, into `output_dir`, of the
/// track with this title.
pub open spec fn download_command(
    url: Seq<char>,
    output_dir: Seq<char>,
    title: Seq<char>,
) -> Seq<Seq<char>> {
    seq![
        "-x"@,
        "--audio-format"@,
        "mp3"@,
        "--audio-quality"@,
        "0"@,
        "--embed-metadata"@,
        "--embed-thumbnail"@,
        "-o"@,
        output_template(output_dir, title),
        url,
    ]
}

fn take_required_text(field: Field, which: MetadataField) -> (result: Result<
    String,
    MalformedReason,
>)
    ensures
        match result {
            Ok(text) => required_text(field@, which) == Ok::<Seq<char>, MalformedReason>(text@),
            Err(reason) => required_text(field@, which) == Err::<Seq<char>, MalformedReason>(
                reason,
            ),
        },
{
    match field {
        Field::Text(text) => {
            if text.as_str().is_empty() {
                Err(MalformedReason::EmptyField(which))
            } else {
                Ok(text)
            }
        },
        Field::Absent => Err(MalformedReason::MissingField(which)),
        Field::Null => Err(MalformedReason::MissingField(which)),
        Field::Number(_) => Err(MalformedReason::WrongType(which)),
        Field::Other => Err(MalformedReason::WrongType(which)),
    }
}

fn take_optional_text(field: Field, which: MetadataField) -> (result: Result<
    Option<String>,
    MalformedReason,
>)
    ensures
        match result {
            Ok(text) => optional_text(field@, which) == Ok::<Option<Seq<char>>, MalformedReason>(
                text.deep_view(),
            ),
            Err(reason) => optional_text(field@, which) == Err::<
                Option<Seq<char>>,
                MalformedReason,
            >(reason),
        },
{
    match field {
        Field::Text(text) => Ok(Some(text)),
        Field::Absent => Ok(None),
        Field::Null => Ok(None),
        Field::Number(_) => Err(MalformedReason::WrongType(which)),
        Field::Other => Err(MalformedReason::WrongType(which)),
    }
}

fn take_optional_count(field: Field, which: MetadataField) -> (result: Result<
    Option<u64>,
    MalformedReason,
>)
    ensures
        result == optional_count(field@, which),
{
    match field {
        Field::Number(Some(count)) => Ok(Some(count)),
        Field::Absent => Ok(None),
        Field::Null => Ok(None),
        Field::Number(None) => Err(MalformedReason::WrongType(which)),
        Field::Text(_) => Err(MalformedReason::WrongType(which)),
        Field::Other => Err(MalformedReason::WrongType(which)),
    }
}

/// Makes a metadata record of the fields of a document.
///
/// `id` and `title` must be strings that are not empty. `uploader`,
/// `description`, `thumbnail` and `webpage_url` may be missing or `null`, and
/// are otherwise strings, kept as they are; `duration` may be missing or
/// `null`, and is otherwise an integer that is not negative. The first field
/// that is not so, in the order given here, decides the error.
pub fn metadata_from_fields(fields: MetadataFields) -> (result: Result<
    VideoMetadata,
    MalformedReason,
>)
    ensures
        match result {
            Ok(meta) => metadata_of_fields(fields@) == Ok::<MetadataView, MalformedReason>(meta@),
            Err(reason) => metadata_of_fields(fields@) == Err::<MetadataView, MalformedReason>(
                reason,
            ),
        },
{
    let id = match take_required_text(fields.id, MetadataField::Id) {
        Ok(text) => text,
        Err(reason) => {
            return Err(reason);
        },
    };
    let title = match take_required_text(fields.title, MetadataField::Title) {
        Ok(text) => text,
        Err(reason) => {
            return Err(reason);
        },
    };
    let uploader = match take_optional_text(fields.uploader, MetadataField::Uploader) {
        Ok(text) => text,
        Err(reason) => {
            return Err(reason);
        },
    };
    let description = match take_optional_text(fields.description, MetadataField::Description) {
        Ok(text) => text,
        Err(reason) => {
            return Err(reason);
        },
    };
    let duration = match take_optional_count(fields.duration, MetadataField::Duration) {
        Ok(count) => count,
        Err(reason) => {
            return Err(reason);
        },
    };
    let thumbnail = match take_optional_text(fields.thumbnail, MetadataField::Thumbnail) {
        Ok(text) => text,
        Err(reason) => {
            return Err(reason);
        },
    };
    let webpage_url = match take_optional_text(fields.webpage_url, MetadataField::WebpageUrl) {
        Ok(text) => text,
        Err(reason) => {
            return Err(reason);
        },
    };
    Ok(VideoMetadata { id, title, uploader, description, duration, thumbnail, webpage_url })
}

/// Reads a metadata document: parses the text and makes a record of its
/// fields.
pub fn decode_metadata(text: &str) -> (result: Result<VideoMetadata, CatalogError>)
    ensures
        fetch_view(result) == decoded(text@),
{
    let document = match parse_document(text) {
        Ok(document) => document,
        Err(_) => {
            return Err(CatalogError::MalformedResponse(MalformedReason::InvalidJson));
        },
    };
    let fields = MetadataFields {
        id: read_field(&document, "id"),
        title: read_field(&document, "title"),
        uploader: read_field(&document, "uploader"),
        description: read_field(&document, "description"),
        duration: read_field(&document, "duration"),
        thumbnail: read_field(&document, "thumbnail"),
        webpage_url: read_field(&document, "webpage_url"),
    };
    assert(fields@ == fields_of_document(document));
    match metadata_from_fields(fields) {
        Ok(meta) => Ok(meta),
        Err(reason) => Err(CatalogError::MalformedResponse(reason)),
    }
}

/// The arguments with which the tool is run to report the metadata of `url`.
pub fn metadata_arguments(url: &str) -> (arguments: Vec<String>)
    ensures
        arguments.deep_view() == metadata_command(url@),
{
    let mut arguments: Vec<String> = Vec::new();
    arguments.push("--dump-json".to_owned());
    arguments.push("--no-playlist".to_owned());
    arguments.push(url.to_owned());
    assert(arguments.deep_view() =~= metadata_command(url@));
    arguments
}

/// What a metadata run of the tool for `url` has brought: the metadata that
/// the tool reported, or the error that says why there is none.
///
/// An empty `url` is `InvalidInput`. A tool that could not be started is
/// `ToolUnavailable`. A tool that reported failure, or was stopped, is
/// `ToolFailed`, with what it wrote to its standard error as the diagnostic.
/// Output of a successful run that is not a metadata document is
/// `MalformedResponse`.
pub fn fetch_metadata(url: &str, outcome: &ToolOutcome) -> (result: Result<
    VideoMetadata,
    CatalogError,
>)
    ensures
        fetch_view(result) == fetched(url@, outcome@),
{
    if url.is_empty() {
        return Err(CatalogError::InvalidInput);
    }
    match outcome {
        ToolOutcome::NotStarted { reason } => Err(CatalogError::ToolUnavailable(reason.clone())),
        ToolOutcome::TimedOut => Err(CatalogError::ToolFailed("timed out".to_owned())),
        ToolOutcome::Exited { success, stdout, stderr } => {
            if !*success {
                return Err(CatalogError::ToolFailed(utf8_text_lossy(stderr.as_slice())));
            }
            match utf8_text(stdout.as_slice()) {
                None => Err(CatalogError::MalformedResponse(MalformedReason::InvalidUtf8)),
                Some(text) => decode_metadata(text.as_str()),
            }
        },
    }
}

/// The output template of a download.
fn output_template_for(output_dir: &str, title: &str) -> (template: String)
    ensures
        template@ == output_template(output_dir@, title@),
{
    let mut template = output_dir.to_owned();
    template.append("/");
    template.append(sanitize_title(title).as_str());
    template.append(".%(ext)s");
    template
}

/// The arguments with which the tool is run to download `url` as an MP3 file
/// into `output_dir`, named after `title`.
pub fn download_arguments(url: &str, output_dir: &str, title: &str) -> (arguments: Vec<String>)
    ensures
        arguments.deep_view() == download_command(url@, output_dir@, title@),
{
    let mut arguments: Vec<String> = Vec::new();
    arguments.push("-x".to_owned());
    arguments.push("--audio-format".to_owned());
    arguments.push("mp3".to_owned());
    arguments.push("--audio-quality".to_owned());
    arguments.push("0".to_owned());
    arguments.push("--embed-metadata".to_owned());
    arguments.push("--embed-thumbnail".to_owned());
    arguments.push("-o".to_owned());
    arguments.push(output_template_for(output_dir, title));
    arguments.push(url.to_owned());
    assert(arguments.deep_view() =~= download_command(url@, output_dir@, title@));
    arguments
}

/// What a download run of the tool has brought: the path of the audio file,
/// or the error that says why there is none.
///
/// An empty `url` or `title` is `InvalidInput`. A tool that could not be
/// started is `ToolUnavailable`. A tool that reported failure, or was
/// stopped, is `DownloadFailed`, with what it wrote to its standard error as
/// the diagnostic; whatever it left on disk is then no file of the catalog.
pub fn download_mp3(url: &str, output_dir: &str, title: &str, outcome: &ToolOutcome) -> (result:
    Result<String, CatalogError>)
    ensures
        download_view(result) == downloaded(url@, output_dir@, title@, outcome@),
{
    if url.is_empty() || title.is_empty() {
        return Err(CatalogError::InvalidInput);
    }
    match outcome {
        ToolOutcome::NotStarted { reason } => Err(CatalogError::ToolUnavailable(reason.clone())),
        ToolOutcome::TimedOut => Err(CatalogError::DownloadFailed("timed out".to_owned())),
        ToolOutcome::Exited { success, stdout, stderr } => {
            if *success {
                Ok(expected_file_path(output_dir, title))
            } else {
                Err(CatalogError::DownloadFailed(utf8_text_lossy(stderr.as_slice())))
            }
        },
    }
}

} // verus!
