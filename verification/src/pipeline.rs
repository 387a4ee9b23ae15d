//! The path classifier and the dispatch pipeline: a classified path leads
//! to exactly one engine call, whose outcome becomes either a populated
//! query result or an error; the result is then handed out structured or as
//! its canonical JSON text.

use vstd::prelude::*;

use crate::json::{dir_json, media_json, serialize_dir, serialize_media};
use crate::meta::{DirMeta, DirMetaView, MediaMeta, MediaMetaView, RawMediaMeta};
use crate::normalize::{normalize_media, normalized_media};

verus! {

/// What a path turned out to be. A path that does not exist is `NotFound`;
/// an existing directory is `Directory`; every other existing entry is
/// `Media` — no filtering by extension or content happens here, unsupported
/// files are rejected by the engine downstream.
#[derive(Debug, Clone, Copy, PartialEq, Eq)]
pub enum Classification {
    Directory,
    Media,
    NotFound,
}

/// Classifies a path from the two facts the filesystem reports about it:
/// whether it exists, and whether it is a directory.
pub fn classify(exists: bool, is_dir: bool) -> (c: Classification)
    ensures
        !exists ==> c is NotFound,
        exists && is_dir ==> c is Directory,
        exists && !is_dir ==> c is Media,
{
    if !exists {
        Classification::NotFound
    } else if is_dir {
        Classification::Directory
    } else {
        Classification::Media
    }
}

/// A successful query's result: exactly one metadata kind, as a tagged
/// variant so that "exactly one of the two populated" holds by shape.
#[derive(Debug, Clone, PartialEq, Eq)]
pub enum QueryResult {
    Directory(DirMeta),
    Media(MediaMeta),
}

/// Mathematical model of a [`QueryResult`].
pub ghost enum QueryResultView {
    Directory(DirMetaView),
    Media(MediaMetaView),
}

impl View for QueryResult {
    type V = QueryResultView;

    open spec fn view(&self) -> QueryResultView {
        match self {
            QueryResult::Directory(d) => QueryResultView::Directory(d@),
            QueryResult::Media(m) => QueryResultView::Media(m@),
        }
    }
}

/// Why a query failed. `NotFound` is a distinct, recognizable kind so that
/// callers can branch on it; `EngineFailure` carries the engine's message
/// text unchanged. Nothing is retried or recovered internally.
#[derive(Debug, Clone, PartialEq, Eq)]
pub enum QueryError {
    NotFound,
    EngineFailure(String),
}

/// Finishes a directory query from the engine call's outcome: a produced
/// record is the populated `Directory` result, an engine error message is
/// carried unchanged into an `EngineFailure`.
pub fn finish_directory_query(outcome: Result<DirMeta, String>) -> (r: Result<
    QueryResult,
    QueryError,
>)
    ensures
        outcome matches Result::Ok(d) ==> (r matches Result::Ok(q) && q@
            == QueryResultView::Directory(d@)),
        outcome matches Result::Err(message) ==> (r matches Result::Err(e) && e matches
            QueryError::EngineFailure(carried) && carried@ == message@),
{
    match outcome {
        Result::Ok(d) => Result::Ok(QueryResult::Directory(d)),
        Result::Err(message) => Result::Err(QueryError::EngineFailure(message)),
    }
}

/// Finishes a media query from the engine call's outcome: a produced raw
/// record is normalized and becomes the populated `Media` result, an engine
/// error message is carried unchanged into an `EngineFailure`.
pub fn finish_media_query(outcome: Result<RawMediaMeta, String>) -> (r: Result<
    QueryResult,
    QueryError,
>)
    ensures
        outcome matches Result::Ok(raw) ==> (r matches Result::Ok(q) && q@
            == QueryResultView::Media(normalized_media(raw@))),
        outcome matches Result::Err(message) ==> (r matches Result::Err(e) && e matches
            QueryError::EngineFailure(carried) && carried@ == message@),
{
    match outcome {
        Result::Ok(raw) => Result::Ok(QueryResult::Media(normalize_media(raw))),
        Result::Err(message) => Result::Err(QueryError::EngineFailure(message)),
    }
}

/// The directory slot of the structured pair a result is handed out as.
pub open spec fn dir_slot(r: QueryResultView) -> Option<DirMetaView> {
    match r {
        QueryResultView::Directory(d) => Option::Some(d),
        QueryResultView::Media(_) => Option::None,
    }
}

/// The media slot of the structured pair a result is handed out as.
pub open spec fn media_slot(r: QueryResultView) -> Option<MediaMetaView> {
    match r {
        QueryResultView::Directory(_) => Option::None,
        QueryResultView::Media(m) => Option::Some(m),
    }
}

/// Hands a query result out as the pair of optionals the host surface
/// presents: the one populated slot holds the record, the other is absent.
pub fn structured_result(r: QueryResult) -> (pair: (Option<DirMeta>, Option<MediaMeta>))
    ensures
        pair.0.deep_view() == dir_slot(r@),
        pair.1.deep_view() == media_slot(r@),
{
    match r {
        QueryResult::Directory(d) => (Option::Some(d), Option::None),
        QueryResult::Media(m) => (Option::None, Option::Some(m)),
    }
}

/// The canonical JSON document of a query result: the one document of the
/// one populated metadata kind.
pub open spec fn canonical_text(r: QueryResultView) -> Seq<char> {
    match r {
        QueryResultView::Directory(d) => dir_json(d),
        QueryResultView::Media(m) => media_json(m),
    }
}

/// Serializes a query result into its canonical JSON document.
pub fn serialize(r: &QueryResult) -> (s: String)
    ensures
        s@ == canonical_text(r@),
{
    match r {
        QueryResult::Directory(d) => serialize_dir(d),
        QueryResult::Media(m) => serialize_media(m),
    }
}

/// Law: a directory result is handed out as a populated directory slot and
/// an absent media slot, carrying the record unchanged.
pub proof fn lemma_directory_pair_shape(d: DirMetaView)
    ensures
        dir_slot(QueryResultView::Directory(d)) == Option::Some(d),
        media_slot(QueryResultView::Directory(d)) is None,
{
}

/// Law: a media result is handed out as a populated media slot and an
/// absent directory slot, carrying the record unchanged.
pub proof fn lemma_media_pair_shape(m: MediaMetaView)
    ensures
        media_slot(QueryResultView::Media(m)) == Option::Some(m),
        dir_slot(QueryResultView::Media(m)) is None,
{
}

/// Law: the structured pair never holds both kinds and never neither —
/// exactly one of the directory slot and the media slot is populated, for
/// every query result.
pub proof fn lemma_exactly_one_populated(r: QueryResultView)
    ensures
        (dir_slot(r) is Some) <==> !(media_slot(r) is Some),
{
}

/// Law: serialization is deterministic. Any two canonical documents of the
/// same query result are equal, byte for byte.
pub proof fn lemma_canonical_deterministic(r: QueryResultView, first: Seq<char>, second: Seq<char>)
    requires
        first == canonical_text(r),
        second == canonical_text(r),
    ensures
        first == second,
{
}

} // verus!
