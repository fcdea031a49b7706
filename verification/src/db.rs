//! The track store: the catalog's rows, deduplicated by id and kept in the
//! order in which they were added.

use crate::error::CatalogError;
use crate::models::{copy_track, copy_text, MetadataView, Track, TrackView, VideoMetadata};
use vstd::prelude::*;

verus! {

/// The views of a sequence of tracks, in the same order.
pub open spec fn rows_view(rows: Seq<Track>) -> Seq<TrackView> {
    Seq::new(rows.len(), |i: int| rows[i]@)
}

/// A row that the catalog may hold: id, title and file path are not empty.
pub open spec fn valid_track(t: TrackView) -> bool {
    t.id.len() > 0 && t.title.len() > 0 && t.file_path.len() > 0
}

/// The rules of a catalog, over its rows from the oldest to the newest:
/// every row is valid, no id occurs twice, and `added_at` never decreases.
pub open spec fn valid_catalog(s: Seq<TrackView>) -> bool {
    &&& forall|i: int| 0 <= i < s.len() ==> valid_track(#[trigger] s[i])
    &&& forall|i: int, j: int|
        0 <= i < j < s.len() ==> (#[trigger] s[i]).id != (#[trigger] s[j]).id
    &&& forall|i: int, j: int|
        0 <= i <= j < s.len() ==> (#[trigger] s[i]).added_at <= (#[trigger] s[j]).added_at
}

/// Whether some row has this id.
pub open spec fn holds_id(s: Seq<TrackView>, id: Seq<char>) -> bool {
    exists|i: int| 0 <= i < s.len() && (#[trigger] s[i]).id == id
}

/// The position of a row with this id, where there is one.
pub open spec fn index_of_id(s: Seq<TrackView>, id: Seq<char>) -> int {
    choose|i: int| 0 <= i < s.len() && (#[trigger] s[i]).id == id
}

/// The row with this id, where there is one.
pub open spec fn row_of(s: Seq<TrackView>, id: Seq<char>) -> TrackView {
    s[index_of_id(s, id)]
}

/// The time a row gets that is added at `now`: the clock's time, or the newest
/// row's time where the clock lies behind it.
pub open spec fn stamp_for(s: Seq<TrackView>, now: u64) -> u64 {
    if s.len() > 0 && s.last().added_at > now {
        s.last().added_at
    } else {
        now
    }
}

/// The row made from a metadata record, a file path and a time.
pub open spec fn new_row(meta: MetadataView, file_path: Seq<char>, added_at: u64) -> TrackView {
    TrackView {
        id: meta.id,
        title: meta.title,
        uploader: meta.uploader,
        description: meta.description,
        duration: meta.duration,
        thumbnail: meta.thumbnail,
        file_path,
        added_at,
    }
}

/// What an insert accepts: a record with an id and a title, and a file path.
pub open spec fn acceptable(meta: MetadataView, file_path: Seq<char>) -> bool {
    meta.id.len() > 0 && meta.title.len() > 0 && file_path.len() > 0
}

/// The catalog after an insert: unchanged where the insert is refused or the
/// id is present, else with the new row as its newest.
pub open spec fn inserted(
    s: Seq<TrackView>,
    meta: MetadataView,
    file_path: Seq<char>,
    now: u64,
) -> Seq<TrackView> {
    if !acceptable(meta, file_path) || holds_id(s, meta.id) {
        s
    } else {
        s.push(new_row(meta, file_path, stamp_for(s, now)))
    }
}

/// The catalog after a delete: without the row of this id, the others in place.
pub open spec fn removed(s: Seq<TrackView>, id: Seq<char>) -> Seq<TrackView> {
    if holds_id(s, id) {
        s.remove(index_of_id(s, id))
    } else {
        s
    }
}

/// The row that the catalog holds for the id of `meta` after an insert: the
/// row that was there, or the new one.
pub open spec fn planned_row(
    s: Seq<TrackView>,
    meta: MetadataView,
    file_path: Seq<char>,
    now: u64,
) -> TrackView {
    row_of(inserted(s, meta, file_path, now), meta.id)
}

/// The rows as a listing gives them: the newest first.
pub open spec fn listing(s: Seq<TrackView>) -> Seq<TrackView> {
    s.reverse()
}

/// The catalog of tracks. Its view is the sequence of its rows from the
/// oldest to the newest, and always a valid catalog.
pub struct TrackStore {
    tracks: Vec<Track>,
}

impl View for TrackStore {
    type V = Seq<TrackView>;

    closed spec fn view(&self) -> Seq<TrackView> {
        rows_view(self.tracks@)
    }
}

impl TrackStore {
    #[verifier::type_invariant]
    spec fn well_formed(self) -> bool {
        valid_catalog(rows_view(self.tracks@))
    }
}

/// The first position in `rows` whose id is `id`.
fn find_row(rows: &Vec<Track>, id: &String) -> (found: Option<usize>)
    ensures
        match found {
            Some(i) => i < rows.len() && rows[i as int].id@ == id@,
            None => forall|k: int| 0 <= k < rows.len() ==> (#[trigger] rows[k]).id@ != id@,
        },
{
    let mut i: usize = 0;
    while i < rows.len()
        invariant
            i <= rows.len(),
            forall|k: int| 0 <= k < i ==> (#[trigger] rows[k]).id@ != id@,
        decreases rows.len() - i,
    {
        if rows[i].id == *id {
            return Some(i);
        }
        i += 1;
    }
    None
}

/// An empty catalog.
pub fn empty_store() -> (store: TrackStore)
    ensures
        store@ == Seq::<TrackView>::empty(),
{
    let store = TrackStore { tracks: Vec::new() };
    assert(store@ =~= Seq::<TrackView>::empty());
    store
}

/// Adds the track described by `meta`, stored at `file_path`, unless a track
/// with that id is there already; returns the row the catalog holds for the id.
///
/// A present row is left as it is, whatever `meta` and `file_path` say. A new
/// row gets the time `now`, the clock's seconds since the Unix epoch, or the
/// newest row's time where the clock lies behind it. A record without id or
/// title, or an empty file path, is refused with `InvalidInput`.
pub fn insert_track(
    store: &mut TrackStore,
    meta: &VideoMetadata,
    file_path: &str,
    now: u64,
) -> (result: Result<Track, CatalogError>)
    ensures
        valid_catalog(final(store)@),
        final(store)@ == inserted(old(store)@, meta@, file_path@, now),
        acceptable(meta@, file_path@) ==> {
            &&& result matches Ok(row)
            &&& holds_id(final(store)@, meta@.id)
            &&& row@ == planned_row(old(store)@, meta@, file_path@, now)
        },
        !acceptable(meta@, file_path@) ==> result == Err::<Track, CatalogError>(
            CatalogError::InvalidInput,
        ),
{
    proof {
        use_type_invariant(&*store);
    }
    if meta.id.as_str().is_empty() || meta.title.as_str().is_empty() || file_path.is_empty() {
        return Err(CatalogError::InvalidInput);
    }
    let ghost before = store@;
    match find_row(&store.tracks, &meta.id) {
        Some(i) => {
            assert(before[i as int].id == meta@.id);
            let row = copy_track(&store.tracks[i]);
            proof {
                lemma_row_of(before, i as int);
            }
            Ok(row)
        },
        None => {
            assert(!holds_id(before, meta@.id)) by {
                assert forall|k: int| 0 <= k < before.len() implies (#[trigger] before[k]).id
                    != meta@.id by {
                    assert(store.tracks[k].id@ != meta.id@);
                }
            }
            let n = store.tracks.len();
            let added_at = if n > 0 && store.tracks[n - 1].added_at > now {
                store.tracks[n - 1].added_at
            } else {
                now
            };
            assert(added_at == stamp_for(before, now));
            let row = Track {
                id: meta.id.clone(),
                title: meta.title.clone(),
                uploader: copy_text(&meta.uploader),
                description: copy_text(&meta.description),
                duration: meta.duration,
                thumbnail: copy_text(&meta.thumbnail),
                file_path: file_path.to_owned(),
                added_at,
            };
            let copy = copy_track(&row);
            assert(row@ == new_row(meta@, file_path@, added_at));
            let mut rows = Vec::new();
            std::mem::swap(&mut rows, &mut store.tracks);
            rows.push(row);
            proof {
                let after = rows_view(rows@);
                assert(after =~= before.push(copy@));
                assert(valid_catalog(after)) by {
                    lemma_push_keeps_valid(before, copy@);
                }
                lemma_row_of(after, n as int);
            }
            store.tracks = rows;
            Ok(copy)
        },
    }
}

/// The row that an insert would leave for the id of `meta`, without making
/// the insert: the row that is there, or the one that would be added.
///
/// A record without id or title, or an empty file path, is refused with
/// `InvalidInput`, as by the insert.
pub fn plan_insert(store: &TrackStore, meta: &VideoMetadata, file_path: &str, now: u64) -> (result:
    Result<Track, CatalogError>)
    ensures
        acceptable(meta@, file_path@) ==> {
            &&& result matches Ok(row)
            &&& row@ == planned_row(store@, meta@, file_path@, now)
        },
        !acceptable(meta@, file_path@) ==> result == Err::<Track, CatalogError>(
            CatalogError::InvalidInput,
        ),
{
    proof {
        use_type_invariant(store);
        lemma_insert_keeps_valid(store@, meta@, file_path@, now);
    }
    if meta.id.as_str().is_empty() || meta.title.as_str().is_empty() || file_path.is_empty() {
        return Err(CatalogError::InvalidInput);
    }
    match find_row(&store.tracks, &meta.id) {
        Some(i) => {
            proof {
                lemma_row_of(store@, i as int);
            }
            Ok(copy_track(&store.tracks[i]))
        },
        None => {
            assert(!holds_id(store@, meta@.id)) by {
                assert forall|k: int| 0 <= k < store@.len() implies (#[trigger] store@[k]).id
                    != meta@.id by {
                    assert(store.tracks[k].id@ != meta.id@);
                }
            }
            let n = store.tracks.len();
            let added_at = if n > 0 && store.tracks[n - 1].added_at > now {
                store.tracks[n - 1].added_at
            } else {
                now
            };
            Ok(
                Track {
                    id: meta.id.clone(),
                    title: meta.title.clone(),
                    uploader: copy_text(&meta.uploader),
                    description: copy_text(&meta.description),
                    duration: meta.duration,
                    thumbnail: copy_text(&meta.thumbnail),
                    file_path: file_path.to_owned(),
                    added_at,
                },
            )
        },
    }
}

/// In a valid catalog, the row of an id is the row at any position that holds it.
pub proof fn lemma_row_of(s: Seq<TrackView>, i: int)
    requires
        valid_catalog(s),
        0 <= i < s.len(),
    ensures
        holds_id(s, s[i].id),
        index_of_id(s, s[i].id) == i,
        row_of(s, s[i].id) == s[i],
{
    let id = s[i].id;
    assert(holds_id(s, id));
    let j = index_of_id(s, id);
    assert(0 <= j < s.len() && s[j].id == id);
    if j < i {
        assert(s[j].id != s[i].id);
    } else if i < j {
        assert(s[i].id != s[j].id);
    }
}

/// A valid row with a new id, and a time not before the newest row's, may be
/// added to a valid catalog as its newest row.
pub proof fn lemma_push_keeps_valid(s: Seq<TrackView>, t: TrackView)
    requires
        valid_catalog(s),
        valid_track(t),
        !holds_id(s, t.id),
        s.len() > 0 ==> s.last().added_at <= t.added_at,
    ensures
        valid_catalog(s.push(t)),
{
    let r = s.push(t);
    assert forall|i: int| 0 <= i < r.len() implies valid_track(#[trigger] r[i]) by {
        if i < s.len() {
            assert(r[i] == s[i]);
        }
    }
    assert forall|i: int, j: int| 0 <= i < j < r.len() implies (#[trigger] r[i]).id != (
    #[trigger] r[j]).id by {
        if j < s.len() {
            assert(r[i] == s[i] && r[j] == s[j]);
        } else {
            assert(r[i] == s[i]);
            assert(s[i].id != t.id);
        }
    }
    assert forall|i: int, j: int| 0 <= i <= j < r.len() implies (#[trigger] r[i]).added_at <= (
    #[trigger] r[j]).added_at by {
        if j < s.len() {
            assert(r[i] == s[i] && r[j] == s[j]);
        } else if i < s.len() {
            assert(r[i] == s[i]);
            assert(s[i].added_at <= s[s.len() - 1].added_at);
        }
    }
}

/// The catalog that holds `rows`, given as a listing gives them: the newest first.
///
/// Rows that break the catalog's rules (an empty id, title or file path, an id
/// that occurs twice, a row older than one listed after it) are refused as a
/// whole with `ConstraintViolation`.
pub fn init_db(rows: Vec<Track>) -> (result: Result<TrackStore, CatalogError>)
    ensures
        valid_catalog(listing(rows_view(rows@))) ==> {
            &&& result matches Ok(store)
            &&& store@ == listing(rows_view(rows@))
        },
        !valid_catalog(listing(rows_view(rows@))) ==> result == Err::<TrackStore, CatalogError>(
            CatalogError::ConstraintViolation,
        ),
{
    let ghost target = listing(rows_view(rows@));
    let n = rows.len();
    let mut pending = rows;
    let mut tracks: Vec<Track> = Vec::new();
    while pending.len() > 0
        invariant
            target == listing(rows_view(rows@)),
            target.len() == n,
            pending.len() + tracks.len() == n,
            rows_view(tracks@) =~= target.subrange(0, tracks.len() as int),
            forall|k: int|
                0 <= k < pending.len() ==> (#[trigger] pending[k])@ == target[n - 1 - k],
            valid_catalog(rows_view(tracks@)),
        decreases pending.len(),
    {
        let ghost at = tracks.len() as int;
        let ghost built = rows_view(tracks@);
        assert(pending[pending.len() - 1]@ == target[at]);
        let row = pending.pop().unwrap();
        assert(row@ == target[at]);
        if row.id.as_str().is_empty() || row.title.as_str().is_empty()
            || row.file_path.as_str().is_empty() {
            assert(!valid_track(target[at]));
            return Err(CatalogError::ConstraintViolation);
        }
        let m = tracks.len();
        if m > 0 && tracks[m - 1].added_at > row.added_at {
            assert(built[at - 1] == target[at - 1]);
            assert(target[at - 1].added_at > target[at].added_at);
            return Err(CatalogError::ConstraintViolation);
        }
        match find_row(&tracks, &row.id) {
            Some(i) => {
                assert(built[i as int] == target[i as int]);
                assert(target[i as int].id == target[at].id);
                return Err(CatalogError::ConstraintViolation);
            },
            None => {
                assert(!holds_id(built, row@.id)) by {
                    assert forall|k: int| 0 <= k < built.len() implies (#[trigger] built[k]).id
                        != row@.id by {
                        assert(tracks[k].id@ != row.id@);
                    }
                }
            },
        }
        proof {
            if m > 0 {
                assert(built.last() == built[at - 1]);
            }
            lemma_push_keeps_valid(built, row@);
        }
        let ghost pushed = row@;
        tracks.push(row);
        assert(rows_view(tracks@) =~= built.push(pushed));
    }
    assert(rows_view(tracks@) =~= target);
    Ok(TrackStore { tracks })
}

/// How many tracks the catalog holds.
pub fn track_count(store: &TrackStore) -> (count: usize)
    ensures
        count == store@.len(),
{
    store.tracks.len()
}

/// All tracks, the newest first. An empty catalog gives an empty listing.
pub fn get_all_tracks(store: &TrackStore) -> (tracks: Vec<Track>)
    ensures
        rows_view(tracks@) == listing(store@),
        tracks.len() == store@.len(),
        forall|i: int|
            0 <= i < tracks.len() ==> (#[trigger] tracks[i])@ == store@[store@.len() - 1 - i],
{
    let n = store.tracks.len();
    let mut tracks: Vec<Track> = Vec::new();
    let mut i: usize = n;
    while i > 0
        invariant
            n == store.tracks.len(),
            i <= n,
            tracks.len() == n - i,
            forall|k: int|
                0 <= k < tracks.len() ==> (#[trigger] tracks[k])@ == store.tracks[n - 1 - k]@,
        decreases i,
    {
        i -= 1;
        tracks.push(copy_track(&store.tracks[i]));
    }
    assert(rows_view(tracks@) =~= listing(store@));
    tracks
}

/// The track with this id.
///
/// An empty id is refused with `InvalidInput`; an id that no row has gives
/// `NotFound`.
pub fn get_track(store: &TrackStore, id: &str) -> (result: Result<Track, CatalogError>)
    ensures
        id@.len() == 0 ==> result == Err::<Track, CatalogError>(CatalogError::InvalidInput),
        id@.len() > 0 && !holds_id(store@, id@) ==> result == Err::<Track, CatalogError>(
            CatalogError::NotFound,
        ),
        id@.len() > 0 && holds_id(store@, id@) ==> {
            &&& result matches Ok(row)
            &&& row@ == row_of(store@, id@)
        },
{
    proof {
        use_type_invariant(store);
    }
    if id.is_empty() {
        return Err(CatalogError::InvalidInput);
    }
    let key = id.to_owned();
    match find_row(&store.tracks, &key) {
        Some(i) => {
            proof {
                lemma_row_of(store@, i as int);
            }
            Ok(copy_track(&store.tracks[i]))
        },
        None => {
            assert(!holds_id(store@, id@)) by {
                assert forall|k: int| 0 <= k < store@.len() implies (#[trigger] store@[k]).id
                    != id@ by {
                    assert(store.tracks[k].id@ != key@);
                }
            }
            Err(CatalogError::NotFound)
        },
    }
}

/// Removes the track with this id and returns it, so that its audio file can
/// be cleaned up. The other rows keep their order.
///
/// An empty id is refused with `InvalidInput`; an id that no row has gives
/// `NotFound`. Either way the catalog stays as it is.
pub fn delete_track(store: &mut TrackStore, id: &str) -> (result: Result<Track, CatalogError>)
    ensures
        valid_catalog(final(store)@),
        id@.len() == 0 ==> {
            &&& final(store)@ == old(store)@
            &&& result == Err::<Track, CatalogError>(CatalogError::InvalidInput)
        },
        id@.len() > 0 && !holds_id(old(store)@, id@) ==> {
            &&& final(store)@ == old(store)@
            &&& result == Err::<Track, CatalogError>(CatalogError::NotFound)
        },
        id@.len() > 0 && holds_id(old(store)@, id@) ==> {
            &&& final(store)@ == removed(old(store)@, id@)
            &&& final(store)@.len() == old(store)@.len() - 1
            &&& result matches Ok(row)
            &&& row@ == row_of(old(store)@, id@)
        },
        id@.len() > 0 ==> !holds_id(final(store)@, id@),
{
    proof {
        use_type_invariant(&*store);
    }
    if id.is_empty() {
        return Err(CatalogError::InvalidInput);
    }
    let ghost before = store@;
    let key = id.to_owned();
    match find_row(&store.tracks, &key) {
        Some(i) => {
            proof {
                lemma_row_of(before, i as int);
                lemma_remove_keeps_valid(before, i as int);
                lemma_delete_then_get(before, id@);
            }
            let mut rows = Vec::new();
            std::mem::swap(&mut rows, &mut store.tracks);
            let row = rows.remove(i);
            assert(rows_view(rows@) =~= before.remove(i as int));
            store.tracks = rows;
            Ok(row)
        },
        None => {
            assert(!holds_id(before, id@)) by {
                assert forall|k: int| 0 <= k < before.len() implies (#[trigger] before[k]).id
                    != id@ by {
                    assert(store.tracks[k].id@ != key@);
                }
            }
            Err(CatalogError::NotFound)
        },
    }
}

/// Removes every track and returns the removed rows, the newest first, so
/// that their audio files can be cleaned up. The length of what is returned
/// is the number of rows removed.
pub fn clear_tracks(store: &mut TrackStore) -> (cleared: Vec<Track>)
    ensures
        final(store)@ == Seq::<TrackView>::empty(),
        listing(final(store)@) == Seq::<TrackView>::empty(),
        rows_view(cleared@) == listing(old(store)@),
        cleared.len() == old(store)@.len(),
        forall|i: int|
            0 <= i < cleared.len() ==> (#[trigger] cleared[i])@ == old(store)@[old(store)@.len()
                - 1 - i],
{
    let ghost before = store@;
    let mut rows = Vec::new();
    std::mem::swap(&mut rows, &mut store.tracks);
    assert(store@ =~= Seq::<TrackView>::empty());
    let mut cleared: Vec<Track> = Vec::new();
    while rows.len() > 0
        invariant
            rows.len() + cleared.len() == before.len(),
            forall|k: int| 0 <= k < rows.len() ==> (#[trigger] rows[k])@ == before[k],
            forall|k: int|
                0 <= k < cleared.len() ==> (#[trigger] cleared[k])@ == before[before.len() - 1
                    - k],
        decreases rows.len(),
    {
        let row = rows.pop().unwrap();
        cleared.push(row);
    }
    assert(rows_view(cleared@) =~= listing(before));
    assert(listing(store@) =~= Seq::<TrackView>::empty());
    cleared
}

/// Taking a row out of a valid catalog leaves a valid catalog.
pub proof fn lemma_remove_keeps_valid(s: Seq<TrackView>, i: int)
    requires
        valid_catalog(s),
        0 <= i < s.len(),
    ensures
        valid_catalog(s.remove(i)),
{
    let r = s.remove(i);
    assert forall|k: int| 0 <= k < r.len() implies valid_track(#[trigger] r[k]) by {
        if k < i {
            assert(r[k] == s[k]);
        } else {
            assert(r[k] == s[k + 1]);
        }
    }
    assert forall|a: int, b: int| 0 <= a < b < r.len() implies (#[trigger] r[a]).id != (
    #[trigger] r[b]).id by {
        let a0 = if a < i { a } else { a + 1 };
        let b0 = if b < i { b } else { b + 1 };
        assert(r[a] == s[a0] && r[b] == s[b0]);
    }
    assert forall|a: int, b: int| 0 <= a <= b < r.len() implies (#[trigger] r[a]).added_at <= (
    #[trigger] r[b]).added_at by {
        let a0 = if a < i { a } else { a + 1 };
        let b0 = if b < i { b } else { b + 1 };
        assert(r[a] == s[a0] && r[b] == s[b0]);
    }
}

/// An insert into a valid catalog leaves a valid catalog, and afterwards the
/// catalog holds the id wherever the insert was not refused.
pub proof fn lemma_insert_keeps_valid(
    s: Seq<TrackView>,
    meta: MetadataView,
    file_path: Seq<char>,
    now: u64,
)
    requires
        valid_catalog(s),
    ensures
        valid_catalog(inserted(s, meta, file_path, now)),
        acceptable(meta, file_path) ==> holds_id(inserted(s, meta, file_path, now), meta.id),
        acceptable(meta, file_path) && !holds_id(s, meta.id) ==> row_of(
            inserted(s, meta, file_path, now),
            meta.id,
        ) == new_row(meta, file_path, stamp_for(s, now)),
        holds_id(s, meta.id) ==> row_of(inserted(s, meta, file_path, now), meta.id) == row_of(
            s,
            meta.id,
        ),
{
    if acceptable(meta, file_path) && !holds_id(s, meta.id) {
        let row = new_row(meta, file_path, stamp_for(s, now));
        lemma_push_keeps_valid(s, row);
        let r = s.push(row);
        assert(r[s.len() as int] == row);
        lemma_row_of(r, s.len() as int);
    }
}

/// Ingesting is idempotent. Once an id has been inserted, a second insert of
/// that id, whatever else it carries, changes nothing: the catalog is the one
/// the first insert left, its row for the id has the fields the first insert
/// left there, and a listing shows the id exactly once.
pub proof fn lemma_insert_twice(
    s: Seq<TrackView>,
    first: MetadataView,
    first_path: Seq<char>,
    first_now: u64,
    second: MetadataView,
    second_path: Seq<char>,
    second_now: u64,
)
    requires
        valid_catalog(s),
        acceptable(first, first_path),
        second.id == first.id,
    ensures
        ({
            let once = inserted(s, first, first_path, first_now);
            let twice = inserted(once, second, second_path, second_now);
            let shown = listing(twice);
            &&& twice == once
            &&& row_of(twice, first.id) == row_of(once, first.id)
            &&& holds_id(shown, first.id)
            &&& forall|i: int, j: int|
                0 <= i < shown.len() && 0 <= j < shown.len() && (#[trigger] shown[i]).id
                    == first.id && (#[trigger] shown[j]).id == first.id ==> i == j
        }),
{
    let once = inserted(s, first, first_path, first_now);
    lemma_insert_keeps_valid(s, first, first_path, first_now);
    let shown = listing(once);
    let at = index_of_id(once, first.id);
    assert(shown[once.len() - 1 - at] == once[at]);
    assert forall|i: int, j: int|
        0 <= i < shown.len() && 0 <= j < shown.len() && (#[trigger] shown[i]).id == first.id && (
        #[trigger] shown[j]).id == first.id implies i == j by {
        let a = once.len() - 1 - i;
        let b = once.len() - 1 - j;
        assert(shown[i] == once[a] && shown[j] == once[b]);
        if a < b {
            assert(once[a].id != once[b].id);
        } else if b < a {
            assert(once[b].id != once[a].id);
        }
    }
}

/// After a delete of an id, a lookup of that id finds nothing. A delete of an
/// id that the catalog does not hold leaves every row, and so the row count,
/// as it was; a delete of one that it holds takes out exactly one row.
pub proof fn lemma_delete_then_get(s: Seq<TrackView>, id: Seq<char>)
    requires
        valid_catalog(s),
    ensures
        valid_catalog(removed(s, id)),
        !holds_id(removed(s, id), id),
        !holds_id(s, id) ==> removed(s, id) == s,
        holds_id(s, id) ==> removed(s, id).len() == s.len() - 1,
{
    let r = removed(s, id);
    if holds_id(s, id) {
        let at = index_of_id(s, id);
        lemma_remove_keeps_valid(s, at);
        assert forall|k: int| 0 <= k < r.len() implies (#[trigger] r[k]).id != id by {
            let k0 = if k < at { k } else { k + 1 };
            assert(r[k] == s[k0]);
            if k0 < at {
                assert(s[k0].id != s[at].id);
            } else {
                assert(s[at].id != s[k0].id);
            }
        }
    }
}

/// A delete of one id leaves the rows of every other id as they were.
pub proof fn lemma_delete_keeps_others(s: Seq<TrackView>, id: Seq<char>, other: Seq<char>)
    requires
        valid_catalog(s),
        other != id,
    ensures
        holds_id(removed(s, id), other) <==> holds_id(s, other),
        holds_id(s, other) ==> row_of(removed(s, id), other) == row_of(s, other),
{
    let r = removed(s, id);
    if holds_id(s, id) {
        let at = index_of_id(s, id);
        lemma_remove_keeps_valid(s, at);
        if holds_id(r, other) {
            let k = index_of_id(r, other);
            let k0 = if k < at { k } else { k + 1 };
            assert(r[k] == s[k0]);
            assert(s[k0].id == other);
        }
        if holds_id(s, other) {
            let k0 = index_of_id(s, other);
            let k = if k0 < at { k0 } else { k0 - 1 };
            assert(r[k] == s[k0]);
            assert(r[k].id == other);
            lemma_row_of(r, k);
        }
    }
}

/// A listing is ordered by `added_at`, the newest first, and a track that has
/// just been added with a new id is listed first.
pub proof fn lemma_listing_newest_first(
    s: Seq<TrackView>,
    meta: MetadataView,
    file_path: Seq<char>,
    now: u64,
)
    requires
        valid_catalog(s),
        acceptable(meta, file_path),
        !holds_id(s, meta.id),
    ensures
        forall|i: int, j: int|
            0 <= i <= j < s.len() ==> (#[trigger] listing(s)[i]).added_at >= (#[trigger] listing(
                s,
            )[j]).added_at,
        listing(inserted(s, meta, file_path, now)) == seq![
            new_row(meta, file_path, stamp_for(s, now)),
        ] + listing(s),
{
    let shown = listing(s);
    assert forall|i: int, j: int| 0 <= i <= j < s.len() implies (#[trigger] shown[i]).added_at >= (
    #[trigger] shown[j]).added_at by {
        assert(shown[i] == s[s.len() - 1 - i] && shown[j] == s[s.len() - 1 - j]);
    }
    assert(listing(inserted(s, meta, file_path, now)) =~= seq![
        new_row(meta, file_path, stamp_for(s, now)),
    ] + listing(s));
}

/// Tracks added one after the other are listed in the opposite order: after
/// inserts of three new ids `a`, `b`, `c`, in that order, the listing starts
/// with the rows of `c`, `b`, `a`, followed by what was listed before.
pub proof fn lemma_listing_order(
    s: Seq<TrackView>,
    a: MetadataView,
    a_path: Seq<char>,
    a_now: u64,
    b: MetadataView,
    b_path: Seq<char>,
    b_now: u64,
    c: MetadataView,
    c_path: Seq<char>,
    c_now: u64,
)
    requires
        valid_catalog(s),
        acceptable(a, a_path),
        acceptable(b, b_path),
        acceptable(c, c_path),
        !holds_id(s, a.id),
        !holds_id(s, b.id),
        !holds_id(s, c.id),
        a.id != b.id,
        a.id != c.id,
        b.id != c.id,
    ensures
        ({
            let s1 = inserted(s, a, a_path, a_now);
            let s2 = inserted(s1, b, b_path, b_now);
            let s3 = inserted(s2, c, c_path, c_now);
            &&& valid_catalog(s3)
            &&& listing(s3) == seq![row_of(s3, c.id), row_of(s3, b.id), row_of(s3, a.id)]
                + listing(s)
            &&& row_of(s3, a.id) == new_row(a, a_path, stamp_for(s, a_now))
            &&& row_of(s3, b.id) == new_row(b, b_path, stamp_for(s1, b_now))
            &&& row_of(s3, c.id) == new_row(c, c_path, stamp_for(s2, c_now))
        }),
{
    let s1 = inserted(s, a, a_path, a_now);
    let s2 = inserted(s1, b, b_path, b_now);
    let s3 = inserted(s2, c, c_path, c_now);
    let ra = new_row(a, a_path, stamp_for(s, a_now));
    let rb = new_row(b, b_path, stamp_for(s1, b_now));
    let rc = new_row(c, c_path, stamp_for(s2, c_now));
    lemma_insert_keeps_valid(s, a, a_path, a_now);
    assert(!holds_id(s1, b.id)) by {
        assert forall|k: int| 0 <= k < s1.len() implies (#[trigger] s1[k]).id != b.id by {
            if k < s.len() {
                assert(s1[k] == s[k]);
            }
        }
    }
    lemma_insert_keeps_valid(s1, b, b_path, b_now);
    assert(!holds_id(s2, c.id)) by {
        assert forall|k: int| 0 <= k < s2.len() implies (#[trigger] s2[k]).id != c.id by {
            if k < s.len() {
                assert(s2[k] == s[k]);
            }
        }
    }
    lemma_insert_keeps_valid(s2, c, c_path, c_now);
    assert(s3 =~= s.push(ra).push(rb).push(rc));
    let n = s.len() as int;
    assert(s3[n] == ra && s3[n + 1] == rb && s3[n + 2] == rc);
    lemma_row_of(s3, n);
    lemma_row_of(s3, n + 1);
    lemma_row_of(s3, n + 2);
    assert(listing(s3) =~= seq![rc, rb, ra] + listing(s));
}

} // verus!
