//! Ingestion: from a URL to a track in the catalog.
//!
//! An ingestion goes through three stages, each waiting for work that is done
//! elsewhere: the metadata run of the tool, its download run, and the durable
//! write of the new row. [`next_action`] says what work the current stage
//! waits for, and [`advance`] takes the event that reports how it ended. The
//! metadata is fetched before anything is downloaded, the file is downloaded
//! before anything is stored, and the catalog changes only when an ingestion
//! is done.

use crate::db::{
    acceptable, holds_id, index_of_id, insert_track, inserted, lemma_insert_keeps_valid,
    listing, plan_insert, planned_row, row_of, valid_catalog, valid_track, TrackStore,
};
use crate::error::{CatalogError, ErrorView};
use crate::models::{copy_track, MetadataView, Track, TrackView, VideoMetadata};
use crate::ytdlp::{
    download_arguments, download_command, download_mp3, downloaded, fetch_metadata, fetched,
    metadata_arguments, metadata_command, OutcomeView, ToolOutcome,
};
use vstd::prelude::*;

verus! {

/// Where an ingestion stands.
#[derive(Debug, Clone, PartialEq, Eq)]
pub enum Stage {
    /// Waiting for the metadata of the URL.
    Fetching,
    /// The metadata is there; waiting for the audio file.
    Downloading { meta: VideoMetadata },
    /// The audio file is there; waiting for the durable write of `row`.
    Persisting { meta: VideoMetadata, row: Track },
    /// The track is in the catalog.
    Done { track: Track },
    /// The metadata could not be had. Nothing was downloaded or stored.
    FetchFailed { error: CatalogError },
    /// The audio file could not be had. Nothing was stored.
    DownloadFailed { error: CatalogError },
    /// The row could not be stored. The audio file is left on disk, outside
    /// the catalog.
    PersistFailed { error: CatalogError },
}

/// The value of a [`Stage`].
pub enum StageView {
    Fetching,
    Downloading { meta: MetadataView },
    Persisting { meta: MetadataView, row: TrackView },
    Done { track: TrackView },
    FetchFailed { error: ErrorView },
    DownloadFailed { error: ErrorView },
    PersistFailed { error: ErrorView },
}

impl View for Stage {
    type V = StageView;

    open spec fn view(&self) -> StageView {
        match self {
            Stage::Fetching => StageView::Fetching,
            Stage::Downloading { meta } => StageView::Downloading { meta: meta@ },
            Stage::Persisting { meta, row } => StageView::Persisting { meta: meta@, row: row@ },
            Stage::Done { track } => StageView::Done { track: track@ },
            Stage::FetchFailed { error } => StageView::FetchFailed { error: error@ },
            Stage::DownloadFailed { error } => StageView::DownloadFailed { error: error@ },
            Stage::PersistFailed { error } => StageView::PersistFailed { error: error@ },
        }
    }
}

/// One ingestion: the URL it is for, the directory the audio file goes to,
/// and the stage it has reached.
#[derive(Debug, Clone, PartialEq, Eq)]
pub struct Ingestion {
    pub url: String,
    pub output_dir: String,
    pub stage: Stage,
}

/// The value of an [`Ingestion`].
pub struct IngestionView {
    pub url: Seq<char>,
    pub output_dir: Seq<char>,
    pub stage: StageView,
}

impl View for Ingestion {
    type V = IngestionView;

    open spec fn view(&self) -> IngestionView {
        IngestionView { url: self.url@, output_dir: self.output_dir@, stage: self.stage@ }
    }
}

/// How the work that a stage waited for has ended.
#[derive(Debug, Clone, PartialEq, Eq)]
pub enum Event {
    /// The metadata run of the tool has ended.
    FetchFinished(ToolOutcome),
    /// The download run of the tool has ended.
    DownloadFinished(ToolOutcome),
    /// The row has been written to the durable catalog.
    Stored,
    /// The row could not be written to the durable catalog.
    StoreFailed { reason: String },
}

/// The value of an [`Event`].
pub enum EventView {
    FetchFinished(OutcomeView),
    DownloadFinished(OutcomeView),
    Stored,
    StoreFailed { reason: Seq<char> },
}

impl View for Event {
    type V = EventView;

    open spec fn view(&self) -> EventView {
        match self {
            Event::FetchFinished(outcome) => EventView::FetchFinished(outcome@),
            Event::DownloadFinished(outcome) => EventView::DownloadFinished(outcome@),
            Event::Stored => EventView::Stored,
            Event::StoreFailed { reason } => EventView::StoreFailed { reason: reason@ },
        }
    }
}

/// The work that an ingestion waits for.
#[derive(Debug, Clone, PartialEq, Eq)]
pub enum Action {
    /// Run the tool with these arguments and report `Event::FetchFinished`.
    Fetch { arguments: Vec<String> },
    /// Run the tool with these arguments and report `Event::DownloadFinished`.
    Download { arguments: Vec<String> },
    /// Write this row to the durable catalog, unless a row with its id is
    /// there, and report `Event::Stored` or `Event::StoreFailed`.
    Persist { row: Track },
    /// Nothing: the ingestion has ended.
    Stop,
}

/// The value of an [`Action`].
pub enum ActionView {
    Fetch { arguments: Seq<Seq<char>> },
    Download { arguments: Seq<Seq<char>> },
    Persist { row: TrackView },
    Stop,
}

impl View for Action {
    type V = ActionView;

    open spec fn view(&self) -> ActionView {
        match self {
            Action::Fetch { arguments } => ActionView::Fetch { arguments: arguments.deep_view() },
            Action::Download { arguments } => ActionView::Download {
                arguments: arguments.deep_view(),
            },
            Action::Persist { row } => ActionView::Persist { row: row@ },
            Action::Stop => ActionView::Stop,
        }
    }
}

/// Whether an ingestion has ended, well or badly.
pub open spec fn ended(stage: StageView) -> bool {
    stage is Done || stage is FetchFailed || stage is DownloadFailed || stage is PersistFailed
}

/// The work that an ingestion in this state waits for.
pub open spec fn action_of(state: IngestionView) -> ActionView {
    match state.stage {
        StageView::Fetching => ActionView::Fetch { arguments: metadata_command(state.url) },
        StageView::Downloading { meta } => ActionView::Download {
            arguments: download_command(state.url, state.output_dir, meta.title),
        },
        StageView::Persisting { meta, row } => ActionView::Persist { row },
        _ => ActionView::Stop,
    }
}

/// The stage that follows `Fetching`, for each way the metadata run can end.
pub open spec fn after_fetch(url: Seq<char>, outcome: OutcomeView) -> StageView {
    match fetched(url, outcome) {
        Ok(meta) => StageView::Downloading { meta },
        Err(error) => StageView::FetchFailed { error },
    }
}

/// The stage that follows `Downloading`, for each way the download run can
/// end: on success the row that the catalog will hold for the track is
/// planned, from the catalog as it is and the clock's time.
pub open spec fn after_download(
    state: IngestionView,
    meta: MetadataView,
    catalog: Seq<TrackView>,
    outcome: OutcomeView,
    now: u64,
) -> StageView {
    match downloaded(state.url, state.output_dir, meta.title, outcome) {
        Ok(file_path) => if acceptable(meta, file_path) {
            StageView::Persisting { meta, row: planned_row(catalog, meta, file_path, now) }
        } else {
            StageView::PersistFailed { error: ErrorView::InvalidInput }
        },
        Err(error) => StageView::DownloadFailed { error },
    }
}

/// The stage that follows `Persisting` once the row is written.
pub open spec fn after_stored(
    meta: MetadataView,
    row: TrackView,
    catalog: Seq<TrackView>,
) -> StageView {
    if acceptable(meta, row.file_path) {
        StageView::Done { track: planned_row(catalog, meta, row.file_path, row.added_at) }
    } else {
        StageView::PersistFailed { error: ErrorView::InvalidInput }
    }
}

/// One step of an ingestion: the state and the catalog after `event`.
///
/// An event that the stage does not wait for changes nothing; in particular
/// nothing follows an ingestion that has ended.
pub open spec fn advanced(
    state: IngestionView,
    catalog: Seq<TrackView>,
    event: EventView,
    now: u64,
) -> (IngestionView, Seq<TrackView>) {
    match (state.stage, event) {
        (StageView::Fetching, EventView::FetchFinished(outcome)) => (
            IngestionView { stage: after_fetch(state.url, outcome), ..state },
            catalog,
        ),
        (StageView::Downloading { meta }, EventView::DownloadFinished(outcome)) => (
            IngestionView { stage: after_download(state, meta, catalog, outcome, now), ..state },
            catalog,
        ),
        (StageView::Persisting { meta, row }, EventView::Stored) => (
            IngestionView { stage: after_stored(meta, row, catalog), ..state },
            inserted(catalog, meta, row.file_path, row.added_at),
        ),
        (StageView::Persisting { meta, row }, EventView::StoreFailed { reason }) => (
            IngestionView {
                stage: StageView::PersistFailed { error: ErrorView::StorageUnavailable(reason) },
                ..state
            },
            catalog,
        ),
        _ => (state, catalog),
    }
}

/// Begins the ingestion of `url` into `output_dir`. An empty URL is refused
/// with `InvalidInput`.
pub fn start(url: &str, output_dir: &str) -> (result: Result<Ingestion, CatalogError>)
    ensures
        url@.len() == 0 ==> result == Err::<Ingestion, CatalogError>(CatalogError::InvalidInput),
        url@.len() > 0 ==> {
            &&& result matches Ok(state)
            &&& state@ == (IngestionView {
                url: url@,
                output_dir: output_dir@,
                stage: StageView::Fetching,
            })
        },
{
    if url.is_empty() {
        return Err(CatalogError::InvalidInput);
    }
    Ok(Ingestion { url: url.to_owned(), output_dir: output_dir.to_owned(), stage: Stage::Fetching })
}

/// The work that the ingestion waits for.
pub fn next_action(state: &Ingestion) -> (action: Action)
    ensures
        action@ == action_of(state@),
{
    match &state.stage {
        Stage::Fetching => Action::Fetch { arguments: metadata_arguments(state.url.as_str()) },
        Stage::Downloading { meta } => Action::Download {
            arguments: download_arguments(
                state.url.as_str(),
                state.output_dir.as_str(),
                meta.title.as_str(),
            ),
        },
        Stage::Persisting { meta, row } => Action::Persist { row: copy_track(row) },
        Stage::Done { track } => Action::Stop,
        Stage::FetchFailed { error } => Action::Stop,
        Stage::DownloadFailed { error } => Action::Stop,
        Stage::PersistFailed { error } => Action::Stop,
    }
}

/// Takes the event that reports how the awaited work has ended, and moves the
/// ingestion on. `now` is the clock's time, in seconds since the Unix epoch.
///
/// The catalog is touched in one step only: when the row has been written,
/// the track is inserted and the ingestion is done.
pub fn advance(state: Ingestion, store: &mut TrackStore, event: Event, now: u64) -> (next:
    Ingestion)
    ensures
        (next@, final(store)@) == advanced(state@, old(store)@, event@, now),
{
    let Ingestion { url, output_dir, stage } = state;
    match stage {
        Stage::Fetching => match event {
            Event::FetchFinished(outcome) => {
                let stage = match fetch_metadata(url.as_str(), &outcome) {
                    Ok(meta) => Stage::Downloading { meta },
                    Err(error) => Stage::FetchFailed { error },
                };
                Ingestion { url, output_dir, stage }
            },
            _ => Ingestion { url, output_dir, stage: Stage::Fetching },
        },
        Stage::Downloading { meta } => match event {
            Event::DownloadFinished(outcome) => {
                let stage = match download_mp3(
                    url.as_str(),
                    output_dir.as_str(),
                    meta.title.as_str(),
                    &outcome,
                ) {
                    Ok(file_path) => match plan_insert(store, &meta, file_path.as_str(), now) {
                        Ok(row) => Stage::Persisting { meta, row },
                        Err(error) => Stage::PersistFailed { error },
                    },
                    Err(error) => Stage::DownloadFailed { error },
                };
                Ingestion { url, output_dir, stage }
            },
            _ => Ingestion { url, output_dir, stage: Stage::Downloading { meta } },
        },
        Stage::Persisting { meta, row } => match event {
            Event::Stored => {
                let stage = match insert_track(store, &meta, row.file_path.as_str(), row.added_at) {
                    Ok(track) => Stage::Done { track },
                    Err(error) => Stage::PersistFailed { error },
                };
                Ingestion { url, output_dir, stage }
            },
            Event::StoreFailed { reason } => Ingestion {
                url,
                output_dir,
                stage: Stage::PersistFailed { error: CatalogError::StorageUnavailable(reason) },
            },
            _ => Ingestion { url, output_dir, stage: Stage::Persisting { meta, row } },
        },
        Stage::Done { track } => Ingestion { url, output_dir, stage: Stage::Done { track } },
        Stage::FetchFailed { error } => Ingestion {
            url,
            output_dir,
            stage: Stage::FetchFailed { error },
        },
        Stage::DownloadFailed { error } => Ingestion {
            url,
            output_dir,
            stage: Stage::DownloadFailed { error },
        },
        Stage::PersistFailed { error } => Ingestion {
            url,
            output_dir,
            stage: Stage::PersistFailed { error },
        },
    }
}

/// A whole course of an ingestion: the state and the catalog after the
/// events, each with the clock's time at which it is taken, one after the
/// other.
pub open spec fn run(
    state: IngestionView,
    catalog: Seq<TrackView>,
    events: Seq<(EventView, u64)>,
) -> (IngestionView, Seq<TrackView>)
    decreases events.len(),
{
    if events.len() == 0 {
        (state, catalog)
    } else {
        let next = advanced(state, catalog, events[0].0, events[0].1);
        run(next.0, next.1, events.drop_first())
    }
}

/// An ingestion that begins for `url` and `output_dir`.
pub open spec fn started(url: Seq<char>, output_dir: Seq<char>) -> IngestionView {
    IngestionView { url, output_dir, stage: StageView::Fetching }
}

/// Nothing follows an ingestion that has ended: whatever events come, the
/// state and the catalog stay as they are. A failure is never retried.
pub proof fn lemma_ended_stays(
    state: IngestionView,
    catalog: Seq<TrackView>,
    events: Seq<(EventView, u64)>,
)
    requires
        ended(state.stage),
    ensures
        run(state, catalog, events) == (state, catalog),
    decreases events.len(),
{
    if events.len() > 0 {
        lemma_ended_stays(state, catalog, events.drop_first());
    }
}

/// What a course of events makes of an ingestion that has not ended and of a
/// valid catalog. Unless the ingestion is done, the catalog is as it was.
/// Once it is done, the catalog holds its track; it is as it was where it
/// held the track's id before, and has the track as its newest row where it
/// did not.
pub proof fn lemma_run(
    state: IngestionView,
    catalog: Seq<TrackView>,
    events: Seq<(EventView, u64)>,
)
    requires
        valid_catalog(catalog),
        !ended(state.stage),
    ensures
        ({
            let (end, after) = run(state, catalog, events);
            &&& valid_catalog(after)
            &&& !(end.stage is Done) ==> after == catalog
            &&& end.stage matches StageView::Done { track } ==> {
                &&& valid_track(track)
                &&& holds_id(after, track.id)
                &&& row_of(after, track.id) == track
                &&& holds_id(catalog, track.id) ==> after == catalog
                &&& !holds_id(catalog, track.id) ==> after == catalog.push(track)
            }
        }),
    decreases events.len(),
{
    if events.len() > 0 {
        let event = events[0].0;
        let now = events[0].1;
        let next = advanced(state, catalog, event, now);
        let rest = events.drop_first();
        if ended(next.0.stage) {
            lemma_ended_stays(next.0, next.1, rest);
            match (state.stage, event) {
                (StageView::Persisting { meta, row }, EventView::Stored) => {
                    lemma_insert_keeps_valid(catalog, meta, row.file_path, row.added_at);
                    if acceptable(meta, row.file_path) {
                        let track = planned_row(catalog, meta, row.file_path, row.added_at);
                        assert(track.id == meta.id);
                        assert(valid_track(track));
                    }
                },
                _ => {},
            }
        } else {
            assert(next.1 == catalog);
            lemma_run(next.0, next.1, rest);
        }
    }
}

/// No orphaned rows. Whatever happens to an ingestion, as long as it is not
/// done the catalog is as it was before the ingestion began: a failed fetch,
/// a failed download or a failed write leaves no row behind. So a listing
/// shows no row for an id that the catalog did not hold before.
pub proof fn lemma_no_orphaned_rows(
    url: Seq<char>,
    output_dir: Seq<char>,
    catalog: Seq<TrackView>,
    events: Seq<(EventView, u64)>,
    id: Seq<char>,
)
    requires
        valid_catalog(catalog),
    ensures
        ({
            let (end, after) = run(started(url, output_dir), catalog, events);
            &&& !(end.stage is Done) ==> after == catalog
            &&& !(end.stage is Done) && !holds_id(catalog, id) ==> !holds_id(listing(after), id)
        }),
{
    lemma_run(started(url, output_dir), catalog, events);
    let (end, after) = run(started(url, output_dir), catalog, events);
    if !(end.stage is Done) && !holds_id(catalog, id) {
        let shown = listing(after);
        assert forall|i: int| 0 <= i < shown.len() implies (#[trigger] shown[i]).id != id by {
            assert(shown[i] == catalog[catalog.len() - 1 - i]);
        }
    }
}

/// Idempotent ingestion. Where one ingestion after another comes to its end
/// with a track of the same id, the second changes nothing: the catalog is
/// the one the first left, the track it ends with is the first's, field for
/// field, and a listing shows the id exactly once.
pub proof fn lemma_ingest_twice(
    catalog: Seq<TrackView>,
    first_url: Seq<char>,
    first_dir: Seq<char>,
    first_events: Seq<(EventView, u64)>,
    second_url: Seq<char>,
    second_dir: Seq<char>,
    second_events: Seq<(EventView, u64)>,
)
    requires
        valid_catalog(catalog),
        run(started(first_url, first_dir), catalog, first_events).0.stage is Done,
        run(
            started(second_url, second_dir),
            run(started(first_url, first_dir), catalog, first_events).1,
            second_events,
        ).0.stage is Done,
        run(
            started(second_url, second_dir),
            run(started(first_url, first_dir), catalog, first_events).1,
            second_events,
        ).0.stage->Done_track.id == run(
            started(first_url, first_dir),
            catalog,
            first_events,
        ).0.stage->Done_track.id,
    ensures
        ({
            let (first, once) = run(started(first_url, first_dir), catalog, first_events);
            let (second, twice) = run(started(second_url, second_dir), once, second_events);
            let id = first.stage->Done_track.id;
            let shown = listing(twice);
            &&& twice == once
            &&& second.stage->Done_track == first.stage->Done_track
            &&& holds_id(shown, id)
            &&& forall|i: int, j: int|
                0 <= i < shown.len() && 0 <= j < shown.len() && (#[trigger] shown[i]).id == id && (
                #[trigger] shown[j]).id == id ==> i == j
        }),
{
    let (first, once) = run(started(first_url, first_dir), catalog, first_events);
    lemma_run(started(first_url, first_dir), catalog, first_events);
    let (second, twice) = run(started(second_url, second_dir), once, second_events);
    lemma_run(started(second_url, second_dir), once, second_events);
    let id = first.stage->Done_track.id;
    let shown = listing(once);
    let at = index_of_id(once, id);
    assert(shown[once.len() - 1 - at] == once[at]);
    assert forall|i: int, j: int|
        0 <= i < shown.len() && 0 <= j < shown.len() && (#[trigger] shown[i]).id == id && (
        #[trigger] shown[j]).id == id implies i == j by {
        let a = once.len() - 1 - i;
        let b = once.len() - 1 - j;
        assert(shown[i] == once[a] && shown[j] == once[b]);
        if a < b {
            assert(once[a].id != once[b].id);
        } else if b < a {
            assert(once[b].id != once[a].id);
        }
    }
}

} // verus!
