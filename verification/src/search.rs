//! One search, from the query to the list of enriched results.
//!
//! A `SearchSession` decides what happens next; the caller does it and
//! reports back. The session asks, in this order, to wait out the rate
//! limit, to take the engine lock, to run the query, to probe each returned
//! file, and to pause once before the results are handed over.

use crate::budget::{HighlightBudget, MAX_FILES_WITH_HIGHLIGHTS, MAX_TOTAL_HIGHLIGHT_SEARCHES};
use crate::file_info::{
    get_file_info, get_file_info_all_meta, identity_text, probe_locked, wants_xmp,
    EnrichmentLevel, FileIdentity, FileInfo, LockProbe, XmpCore,
};
use crate::filetime::{filetime_to_datetime, subsec_nanos, unix_seconds, utc_rfc3339};
use crate::highlights::{
    get_file_highlights, is_extraction_of, page_dictionary, pages_highlights, views,
    ExtractionError, Highlight, HighlightView,
};
use crate::paths::{display_file_name, display_title, lowercase, path_file_name, path_file_stem};
use crate::pdf_model::{contents_of, PdfContents};
use crate::rate_limiter::{throttle_wait, RateLimiter};
use crate::text::{has_suffix, is_blank, is_blank_seq, or_empty, text_view};
use vstd::prelude::*;

verus! {

/// Number of results asked of the engine where the caller names none.
pub const DEFAULT_RESULTS_COUNT: u32 = 20;

/// Longest wait for the engine lock, in milliseconds.
pub const LOCK_TIMEOUT_MILLIS: u64 = 5_000;

/// The pause before results are handed over, in milliseconds.
pub const PACING_MILLIS: u64 = 10;

/// What the caller asks for.
#[derive(Clone, Debug, PartialEq, Eq)]
pub struct SearchParams {
    pub query: String,
    pub path: Option<String>,
    pub count: Option<u32>,
    pub include_highlights: Option<bool>,
}

/// One matched file.
#[derive(Clone, Debug, PartialEq, Eq)]
pub struct FileResult {
    pub file_name: String,
    pub full_path: String,
    pub title: String,
    pub size: Option<u64>,
    pub created_date: String,
    pub modified_date: String,
    pub extension: Option<String>,
    pub is_locked: bool,
    pub id: Option<String>,
    pub pdf_title: Option<String>,
    pub pdf_author: Option<String>,
    pub pdf_creator: Option<String>,
    /// `None`: extraction was not tried. `Some` of an empty list: it was
    /// tried and found nothing, or failed.
    pub highlights: Option<Vec<Highlight>>,
}

/// The fields that the engine is asked to report for each row.
#[derive(Clone, Copy, Debug, PartialEq, Eq)]
pub struct RequestFields {
    pub full_path_and_file_name: bool,
    pub date_created: bool,
    pub date_modified: bool,
    pub size: bool,
    pub extension: bool,
    pub file_list_file_name: bool,
}

/// The order in which the engine is asked to report rows.
#[derive(Clone, Copy, Debug, PartialEq, Eq)]
pub enum SortOrder {
    DateModifiedDescending,
}

/// How the engine is set up for one query.
#[derive(Clone, Debug, PartialEq, Eq)]
pub struct EngineRequest {
    pub query: String,
    pub fields: RequestFields,
    pub sort: SortOrder,
    pub max_results: u32,
}

/// One row as the engine reports it. A field that the engine could not
/// give is absent; times are Windows file times.
#[derive(Clone, Debug, PartialEq, Eq)]
pub struct EngineRow {
    pub full_path: Option<String>,
    pub size: Option<u64>,
    pub created: Option<u64>,
    pub modified: Option<u64>,
    pub extension: Option<String>,
}

/// What is to be found out about one file.
#[derive(Clone, Debug, PartialEq, Eq)]
pub struct ProbeRequest {
    pub path: String,
    /// Whether to read the XMP packet of the file.
    pub read_xmp: bool,
    /// Whether to read the file's bytes, for highlight extraction.
    pub read_contents: bool,
}

/// What was found out about one file.
#[derive(Clone, Debug, PartialEq, Eq)]
pub struct ProbeReport {
    pub lock: LockProbe,
    pub identity: Option<FileIdentity>,
    /// The XMP core, where it was asked for and could be read.
    pub xmp: Option<XmpCore>,
    /// The file's bytes, where they were asked for and could be read.
    pub contents: Option<Vec<u8>>,
}

/// How a search ends.
#[derive(Clone, Debug, PartialEq, Eq)]
pub enum SearchOutcome {
    /// The matched files, in the engine's order. May be empty.
    Results(Vec<FileResult>),
    /// The engine could not be engaged or the query failed. No results.
    Unavailable,
}

/// What the caller is to do next.
#[derive(Clone, Debug, PartialEq, Eq)]
pub enum SearchAction {
    /// Stay suspended for `nanos` nanoseconds, then report `Waited`.
    Wait { nanos: u64 },
    /// Take the engine lock, waiting at most `timeout_millis`; then call
    /// `lock_acquired` with the current time, or report `LockTimedOut`.
    AcquireLock { timeout_millis: u64 },
    /// Run the query; report `QueryDone` with the rows, or `QueryFailed`.
    Query(EngineRequest),
    /// Probe one file; report `Probed`.
    Probe(ProbeRequest),
    /// Stay suspended for `millis` milliseconds, then report `Paced`.
    Pace { millis: u64 },
    /// Release the lock if it is held and hand the outcome to the caller.
    Finish(SearchOutcome),
}

/// What the caller reports back.
#[derive(Clone, Debug, PartialEq, Eq)]
pub enum SearchEvent {
    Waited,
    LockTimedOut,
    QueryFailed,
    QueryDone(Vec<EngineRow>),
    Probed(ProbeReport),
    Paced,
}

/// Where a search stands.
#[derive(Clone, Copy, Debug, PartialEq, Eq)]
pub enum SearchPhase {
    /// Waiting out the rate limit.
    Throttling,
    /// Waiting for the engine lock.
    Locking,
    /// Waiting for the engine's rows.
    Querying,
    /// Waiting for the probe of the row under the cursor.
    Enriching,
    /// Waiting out the final pause.
    Pacing,
    /// Over: the outcome was handed out.
    Done,
}

/// The state of one search.
pub struct SearchSession {
    phase: SearchPhase,
    level: EnrichmentLevel,
    query: String,
    max_results: u32,
    rows: Vec<EngineRow>,
    cursor: usize,
    budget: HighlightBudget,
    results: Vec<FileResult>,
}

/// Every field, in modification-time order, newest first.
pub open spec fn all_fields() -> RequestFields {
    RequestFields {
        full_path_and_file_name: true,
        date_created: true,
        date_modified: true,
        size: true,
        extension: true,
        file_list_file_name: true,
    }
}

/// Whether highlights are wanted: always at the full level, else on demand.
pub open spec fn wants_highlights(params: SearchParams, level: EnrichmentLevel) -> bool {
    level == EnrichmentLevel::Full || params.include_highlights == Some(true)
}

/// The cap on the number of rows.
pub open spec fn result_cap(params: SearchParams) -> u32 {
    match params.count {
        Some(n) => n,
        None => DEFAULT_RESULTS_COUNT,
    }
}

/// The text shown for a file time: its ISO-8601 form, empty where the
/// engine gave no time or the time cannot be written.
pub open spec fn date_text(filetime: Option<u64>) -> Seq<char> {
    match filetime {
        Some(t) => or_empty(utc_rfc3339(unix_seconds(t), subsec_nanos(t))),
        None => Seq::empty(),
    }
}

/// Whether every page of the document has a dictionary.
pub open spec fn all_pages_readable(contents: PdfContents) -> bool {
    forall|i: int|
        0 <= i < contents.pages.len() ==> (#[trigger] page_dictionary(
            contents.objects,
            contents.pages[i],
        )) is Some
}

/// Whether `found` are the highlights of a document with these contents,
/// every page of which has a dictionary.
pub open spec fn is_document_highlights(contents: PdfContents, found: Seq<HighlightView>) -> bool {
    all_pages_readable(contents) && found == pages_highlights(
        contents,
        contents.pages.len() as int,
    )
}

/// Whether `found` can be what is reported for a file once extraction was
/// tried: nothing, or, where the file's bytes could be read, the highlights
/// of a document that was loaded. Nothing is reported where the bytes could
/// not be read, did not load, or loaded to a document that lists a page
/// without a dictionary.
pub open spec fn are_file_highlights(contents: Option<Vec<u8>>, found: Seq<HighlightView>) -> bool {
    found.len() == 0 || (contents is Some && exists|doc: lopdf::Document|
        is_document_highlights(#[trigger] contents_of(doc), found))
}

/// Whether `highlights` is what a result carries, given whether extraction
/// was due and the list it gave: no list where it was not due, else the
/// list, or an empty one where none was handed in.
pub open spec fn owed_highlights(
    tried: bool,
    found: Option<Vec<Highlight>>,
    highlights: Option<Vec<Highlight>>,
) -> bool {
    if !tried {
        highlights is None
    } else {
        match found {
            Some(list) => highlights == Some(list),
            None => highlights matches Some(list) && list@.len() == 0,
        }
    }
}

/// Whether `result` shows, in every field but the highlights, the engine
/// row `row` probed with `report` at `level`. The row has a path.
pub open spec fn is_row_of(
    result: FileResult,
    row: EngineRow,
    report: ProbeReport,
    level: EnrichmentLevel,
) -> bool {
    let path = row.full_path->0@;
    let with_xmp = level == EnrichmentLevel::Full && has_suffix(lowercase(path), ".pdf"@)
        && report.xmp is Some;
    &&& result.full_path@ == path
    &&& result.file_name@ == or_empty(path_file_name(path))
    &&& result.title@ == or_empty(path_file_stem(path))
    &&& result.size == row.size
    &&& result.created_date@ == date_text(row.created)
    &&& result.modified_date@ == date_text(row.modified)
    &&& text_view(result.extension) == text_view(row.extension)
    &&& result.is_locked == probe_locked(report.lock)
    &&& text_view(result.id) == identity_text(report.identity)
    &&& text_view(result.pdf_title) == if with_xmp {
        text_view(report.xmp->0.title)
    } else {
        None
    }
    &&& text_view(result.pdf_author) == if with_xmp {
        text_view(report.xmp->0.author)
    } else {
        None
    }
    &&& text_view(result.pdf_creator) == if with_xmp {
        text_view(report.xmp->0.creator_tool)
    } else {
        None
    }
}

/// Whether the highlights of `result` are those owed for a file probed with
/// `report`: no list where extraction was not tried, else a list that can be
/// reported for the file.
pub open spec fn has_highlights_of(result: FileResult, report: ProbeReport, tried: bool) -> bool {
    if tried {
        result.highlights matches Some(found) && are_file_highlights(
            report.contents,
            views(found@),
        )
    } else {
        result.highlights is None
    }
}

/// Whether extraction found anything for this result.
pub open spec fn has_highlights(result: FileResult) -> bool {
    result.highlights matches Some(found) && found@.len() > 0
}

/// Number of results for which extraction found something.
pub open spec fn count_with_highlights(results: Seq<FileResult>) -> nat
    decreases results.len(),
{
    if results.len() == 0 {
        0
    } else {
        count_with_highlights(results.drop_last()) + if has_highlights(results.last()) {
            1nat
        } else {
            0nat
        }
    }
}

/// The shape that the highlight budget gives a list of results, where
/// extraction was tried for the first `tried` of them:
/// - extraction was tried for a leading run of results and for no other;
/// - that run is at most eleven results long;
/// - at most seven results have highlights, and fewer than seven of those
///   before the last one tried: extraction went on only while it was so;
/// - where highlights were wanted and the run ends before the list does,
///   it ends because one of the two limits was reached.
pub open spec fn follows_highlight_policy(
    results: Seq<FileResult>,
    wanted: bool,
    tried: nat,
) -> bool {
    &&& tried <= results.len()
    &&& tried <= MAX_TOTAL_HIGHLIGHT_SEARCHES
    &&& forall|j: int|
        0 <= j < results.len() ==> ((#[trigger] results[j]).highlights is Some <==> j < tried)
    &&& count_with_highlights(results) <= MAX_FILES_WITH_HIGHLIGHTS
    &&& tried > 0 ==> count_with_highlights(results.take(tried - 1)) < MAX_FILES_WITH_HIGHLIGHTS
    &&& !wanted ==> tried == 0
    &&& wanted && tried < results.len() ==> tried == MAX_TOTAL_HIGHLIGHT_SEARCHES
        || count_with_highlights(results) == MAX_FILES_WITH_HIGHLIGHTS
}

/// The first index at or after `from` whose row has a path; the number of
/// rows where there is none.
pub open spec fn next_with_path(rows: Seq<EngineRow>, from: int) -> int
    decreases rows.len() - from,
{
    if from >= rows.len() {
        rows.len() as int
    } else if from >= 0 && rows[from].full_path is Some {
        from
    } else {
        next_with_path(rows, from + 1)
    }
}

/// The paths of the first `n` rows, in order, rows without a path left out.
pub open spec fn paths_of(rows: Seq<EngineRow>, n: int) -> Seq<Seq<char>>
    decreases n,
{
    if n <= 0 {
        Seq::empty()
    } else {
        paths_of(rows, n - 1) + match rows[n - 1].full_path {
            Some(path) => seq![path@],
            None => Seq::empty(),
        }
    }
}

/// The paths of a list of results, in order.
pub open spec fn result_paths(results: Seq<FileResult>) -> Seq<Seq<char>> {
    results.map_values(|result: FileResult| result.full_path@)
}

/// No row between `from` and the next row with a path has a path.
pub proof fn lemma_paths_up_to_next(rows: Seq<EngineRow>, from: int)
    requires
        0 <= from <= rows.len(),
    ensures
        from <= next_with_path(rows, from) <= rows.len(),
        paths_of(rows, next_with_path(rows, from)) == paths_of(rows, from),
    decreases rows.len() - from,
{
    if from < rows.len() && rows[from].full_path is None {
        lemma_paths_up_to_next(rows, from + 1);
        assert(paths_of(rows, from + 1) =~= paths_of(rows, from));
    }
}

/// Whether `request` is the probe due for a file at `path`.
pub open spec fn is_probe_for(
    request: ProbeRequest,
    path: Seq<char>,
    level: EnrichmentLevel,
    budget_open: bool,
) -> bool {
    &&& request.path@ == path
    &&& request.read_xmp == (level == EnrichmentLevel::Full && has_suffix(
        lowercase(path),
        ".pdf"@,
    ))
    &&& request.read_contents == budget_open
}

/// Appending a result adds one to the count exactly when it has highlights.
pub proof fn lemma_count_push(results: Seq<FileResult>, result: FileResult)
    ensures
        count_with_highlights(results.push(result)) == count_with_highlights(results)
            + if has_highlights(result) {
            1nat
        } else {
            0nat
        },
{
    assert(results.push(result).drop_last() =~= results);
}

/// The engine set-up for a query.
pub fn engine_request(query: &str, max_results: u32) -> (request: EngineRequest)
    ensures
        request.query@ == query@,
        request.max_results == max_results,
        request.fields == all_fields(),
        request.sort == SortOrder::DateModifiedDescending,
{
    EngineRequest {
        query: query.to_owned(),
        fields: RequestFields {
            full_path_and_file_name: true,
            date_created: true,
            date_modified: true,
            size: true,
            extension: true,
            file_list_file_name: true,
        },
        sort: SortOrder::DateModifiedDescending,
        max_results,
    }
}

/// The text shown for a file time.
pub fn file_date(filetime: Option<u64>) -> (res: String)
    ensures
        res@ == date_text(filetime),
{
    match filetime {
        Some(t) => filetime_to_datetime(t),
        None => String::new(),
    }
}

/// A copy of a text that may be absent.
fn copy_text(text: &Option<String>) -> (res: Option<String>)
    ensures
        res == *text,
{
    match text {
        Some(t) => Some(t.clone()),
        None => None,
    }
}

/// The list reported for a file after extraction: the records where
/// extraction succeeded, an empty list where it failed.
pub fn highlights_or_empty(extraction: Result<Vec<Highlight>, ExtractionError>) -> (found: Vec<
    Highlight,
>)
    ensures
        match extraction {
            Ok(list) => found == list,
            Err(_) => found@.len() == 0,
        },
{
    match extraction {
        Ok(list) => list,
        Err(_) => Vec::new(),
    }
}

/// Tries extraction on what was read of a file.
fn extract_for(contents: &Option<Vec<u8>>) -> (found: Vec<Highlight>)
    ensures
        are_file_highlights(*contents, views(found@)),
{
    match contents {
        Some(bytes) => {
            let extraction = get_file_highlights(bytes.as_slice());
            proof {
                if extraction is Ok {
                    let doc = choose|doc: lopdf::Document| #[trigger]
                        is_extraction_of(contents_of(doc), extraction);
                    assert(is_document_highlights(contents_of(doc), views(extraction->Ok_0@)));
                }
            }
            highlights_or_empty(extraction)
        },
        None => Vec::new(),
    }
}

/// Puts together the result for one engine row: `None` for a row without a
/// path, which is left out of the results.
pub fn assemble_result(
    row: &EngineRow,
    report: ProbeReport,
    level: EnrichmentLevel,
    highlights: Option<Vec<Highlight>>,
) -> (res: Option<FileResult>)
    ensures
        res is Some <==> row.full_path is Some,
        res matches Some(result) ==> result.highlights == highlights && is_row_of(
            result,
            *row,
            report,
            level,
        ),
{
    match &row.full_path {
        Some(path) => {
            let info: FileInfo = match level {
                EnrichmentLevel::Full => get_file_info_all_meta(
                    path.as_str(),
                    report.lock,
                    report.identity,
                    report.xmp,
                ),
                EnrichmentLevel::Fast => get_file_info(report.lock, report.identity),
            };
            Some(
                FileResult {
                    file_name: display_file_name(path.as_str()),
                    full_path: path.clone(),
                    title: display_title(path.as_str()),
                    size: row.size,
                    created_date: file_date(row.created),
                    modified_date: file_date(row.modified),
                    extension: copy_text(&row.extension),
                    is_locked: info.is_locked,
                    id: info.file_id,
                    pdf_title: info.pdf_title,
                    pdf_author: info.pdf_author,
                    pdf_creator: info.pdf_creator,
                    highlights,
                },
            )
        },
        None => None,
    }
}

impl SearchSession {
    pub closed spec fn phase(&self) -> SearchPhase {
        self.phase
    }

    pub closed spec fn level(&self) -> EnrichmentLevel {
        self.level
    }

    pub closed spec fn query(&self) -> Seq<char> {
        self.query@
    }

    pub closed spec fn max_results(&self) -> u32 {
        self.max_results
    }

    /// The rows that the engine returned; empty before it did.
    pub closed spec fn rows(&self) -> Seq<EngineRow> {
        self.rows@
    }

    /// The index of the row being probed; the number of rows once all are done.
    pub closed spec fn cursor(&self) -> int {
        self.cursor as int
    }

    pub closed spec fn budget(&self) -> HighlightBudget {
        self.budget
    }

    /// The results put together so far.
    pub closed spec fn results(&self) -> Seq<FileResult> {
        self.results@
    }

    /// Whether the search is past the query and not over yet.
    pub open spec fn in_progress(&self) -> bool {
        self.phase() == SearchPhase::Enriching || self.phase() == SearchPhase::Pacing
    }

    /// The state is coherent: the cursor is on a row with a path while a
    /// probe is pending, and the results have the shape that the budget
    /// gives them.
    pub closed spec fn wf(&self) -> bool {
        &&& self.budget.wf()
        &&& self.cursor <= self.rows@.len()
        &&& self.phase == SearchPhase::Enriching ==> self.cursor < self.rows@.len()
            && self.rows@[self.cursor as int].full_path is Some
        &&& self.phase == SearchPhase::Pacing ==> self.cursor == self.rows@.len()
        &&& self.in_progress() ==> {
            &&& follows_highlight_policy(
                self.results@,
                self.budget.requested(),
                self.budget.attempted(),
            )
            &&& count_with_highlights(self.results@) == self.budget.with_highlights()
            &&& self.budget.is_open() ==> self.budget.attempted() == self.results@.len()
            &&& result_paths(self.results@) == paths_of(self.rows@, self.cursor as int)
        }
        &&& !self.in_progress() ==> {
            &&& self.results@.len() == 0
            &&& self.rows@.len() == 0
            &&& self.budget.attempted() == 0
            &&& self.budget.with_highlights() == 0
        }
    }

    /// Whether the settings of `self` are those of `other`.
    pub open spec fn same_settings(&self, other: SearchSession) -> bool {
        &&& self.level() == other.level()
        &&& self.query() == other.query()
        &&& self.max_results() == other.max_results()
        &&& self.budget().requested() == other.budget().requested()
    }

    /// Whether `action` is the one that goes with the state: the probe of
    /// the row under the cursor, or the final pause once no row is left.
    pub open spec fn announces(&self, action: SearchAction) -> bool {
        if self.cursor() < self.rows().len() {
            &&& self.phase() == SearchPhase::Enriching
            &&& action matches SearchAction::Probe(request)
            &&& is_probe_for(
                request,
                self.rows()[self.cursor()].full_path->0@,
                self.level(),
                self.budget().is_open(),
            )
        } else {
            &&& self.phase() == SearchPhase::Pacing
            &&& action == SearchAction::Pace { millis: PACING_MILLIS }
        }
    }

    /// Whether `request` sets the engine up for this search.
    pub open spec fn is_request(&self, request: EngineRequest) -> bool {
        &&& request.query@ == self.query()
        &&& request.max_results == self.max_results()
        &&& request.fields == all_fields()
        &&& request.sort == SortOrder::DateModifiedDescending
    }

    /// Whether the search went from `pre` to `self` by adding the result for
    /// the row under the cursor, probed with `report`, and answered with
    /// `action`. The highlights of the new result are left open here.
    pub open spec fn is_enriched_from(
        &self,
        pre: SearchSession,
        report: ProbeReport,
        action: SearchAction,
    ) -> bool {
        let tried = pre.budget().is_open();
        &&& self.rows() == pre.rows()
        &&& self.cursor() == next_with_path(pre.rows(), pre.cursor() + 1)
        &&& self.results().len() == pre.results().len() + 1
        &&& self.results().drop_last() == pre.results()
        &&& is_row_of(self.results().last(), pre.rows()[pre.cursor()], report, pre.level())
        &&& self.budget().attempted() == pre.budget().attempted() + if tried {
            1nat
        } else {
            0nat
        }
        &&& self.budget().with_highlights() == count_with_highlights(self.results())
        &&& self.announces(action)
    }

    /// Whether the search went from `pre` to `self` on `event`, answering
    /// with `action`.
    ///
    /// - `Waited` while throttling: ask for the lock, with the timeout.
    /// - `LockTimedOut` while locking: over, unavailable.
    /// - `QueryFailed` while querying: over, unavailable.
    /// - `QueryDone` while querying: take the rows, ask for the probe of the
    ///   first row that has a path, or for the pause if there is none.
    /// - `Probed` while enriching: add the result for the row under the
    ///   cursor, with highlights if the budget was open, count the
    ///   extraction, and go on to the next row that has a path.
    /// - `Paced` while pacing: over, hand out the results.
    /// - Any other event: over, unavailable.
    pub open spec fn is_step_from(
        &self,
        pre: SearchSession,
        event: SearchEvent,
        action: SearchAction,
    ) -> bool {
        &&& self.same_settings(pre)
        &&& match (pre.phase(), event) {
            (SearchPhase::Throttling, SearchEvent::Waited) => {
                &&& self.phase() == SearchPhase::Locking
                &&& action == SearchAction::AcquireLock { timeout_millis: LOCK_TIMEOUT_MILLIS }
            },
            (SearchPhase::Locking, SearchEvent::LockTimedOut) => {
                &&& self.phase() == SearchPhase::Done
                &&& action == SearchAction::Finish(SearchOutcome::Unavailable)
            },
            (SearchPhase::Querying, SearchEvent::QueryFailed) => {
                &&& self.phase() == SearchPhase::Done
                &&& action == SearchAction::Finish(SearchOutcome::Unavailable)
            },
            (SearchPhase::Querying, SearchEvent::QueryDone(rows)) => {
                &&& self.rows() == rows@
                &&& self.cursor() == next_with_path(rows@, 0)
                &&& self.results().len() == 0
                &&& self.budget() == pre.budget()
                &&& self.announces(action)
            },
            (SearchPhase::Enriching, SearchEvent::Probed(report)) => {
                &&& self.is_enriched_from(pre, report, action)
                &&& has_highlights_of(self.results().last(), report, pre.budget().is_open())
            },
            (SearchPhase::Pacing, SearchEvent::Paced) => {
                &&& self.phase() == SearchPhase::Done
                &&& action matches SearchAction::Finish(SearchOutcome::Results(list))
                &&& list@ == pre.results()
            },
            _ => {
                &&& self.phase() == SearchPhase::Done
                &&& action == SearchAction::Finish(SearchOutcome::Unavailable)
            },
        }
    }

    /// Begins a search.
    ///
    /// A query that is empty or all whitespace ends the search at once with
    /// an empty list: nothing is waited for, and neither the lock nor the
    /// engine is asked for. Otherwise the first action is the wait that the
    /// limiter asks for at `now` or, where it asks for none, the lock.
    pub fn start(
        params: &SearchParams,
        level: EnrichmentLevel,
        limiter: &RateLimiter,
        now: u64,
    ) -> (started: (SearchSession, SearchAction))
        ensures
            started.0.wf(),
            started.0.level() == level,
            started.0.query() == params.query@,
            started.0.max_results() == result_cap(*params),
            started.0.budget().requested() == wants_highlights(*params, level),
            is_blank_seq(params.query@) ==> {
                &&& started.0.phase() == SearchPhase::Done
                &&& started.1 matches SearchAction::Finish(SearchOutcome::Results(list))
                &&& list@.len() == 0
            },
            !is_blank_seq(params.query@) ==> match throttle_wait(limiter.last_invocation, now) {
                Some(nanos) => {
                    &&& started.0.phase() == SearchPhase::Throttling
                    &&& started.1 == SearchAction::Wait { nanos }
                },
                None => {
                    &&& started.0.phase() == SearchPhase::Locking
                    &&& started.1 == SearchAction::AcquireLock {
                        timeout_millis: LOCK_TIMEOUT_MILLIS,
                    }
                },
            },
    {
        let include_highlights = match level {
            EnrichmentLevel::Full => true,
            EnrichmentLevel::Fast => match params.include_highlights {
                Some(wanted) => wanted,
                None => false,
            },
        };
        let max_results = match params.count {
            Some(n) => n,
            None => DEFAULT_RESULTS_COUNT,
        };
        let mut session = SearchSession {
            phase: SearchPhase::Done,
            level,
            query: params.query.clone(),
            max_results,
            rows: Vec::new(),
            cursor: 0,
            budget: HighlightBudget::new(include_highlights),
            results: Vec::new(),
        };
        if is_blank(params.query.as_str()) {
            return (session, SearchAction::Finish(SearchOutcome::Results(Vec::new())));
        }
        match limiter.throttle(now) {
            Some(nanos) => {
                session.phase = SearchPhase::Throttling;
                (session, SearchAction::Wait { nanos })
            },
            None => {
                session.phase = SearchPhase::Locking;
                (session, SearchAction::AcquireLock { timeout_millis: LOCK_TIMEOUT_MILLIS })
            },
        }
    }

    /// Ends the search without results.
    fn give_up(&mut self) -> (action: SearchAction)
        requires
            old(self).wf(),
        ensures
            final(self).wf(),
            final(self).same_settings(*old(self)),
            final(self).phase() == SearchPhase::Done,
            action == SearchAction::Finish(SearchOutcome::Unavailable),
    {
        self.phase = SearchPhase::Done;
        self.rows = Vec::new();
        self.cursor = 0;
        self.results = Vec::new();
        self.budget = HighlightBudget::new(self.budget.should_request());
        SearchAction::Finish(SearchOutcome::Unavailable)
    }

    /// Moves the cursor to the first row at or after `from` that has a
    /// path and asks for its probe, or for the pause if there is none.
    fn announce(&mut self, from: usize) -> (action: SearchAction)
        requires
            from <= old(self).rows@.len(),
        ensures
            final(self).rows == old(self).rows,
            final(self).results == old(self).results,
            final(self).budget == old(self).budget,
            final(self).level == old(self).level,
            final(self).query == old(self).query,
            final(self).max_results == old(self).max_results,
            final(self).cursor() == next_with_path(old(self).rows@, from as int),
            final(self).cursor <= final(self).rows@.len(),
            final(self).phase == SearchPhase::Enriching ==> final(self).cursor < final(self).rows@.len() && final(self).rows@[final(self).cursor as int].full_path is Some,
            final(self).phase == SearchPhase::Pacing ==> final(self).cursor == final(self).rows@.len(),
            final(self).in_progress(),
            final(self).announces(action),
    {
        let mut i: usize = from;
        while i < self.rows.len() && self.rows[i].full_path.is_none()
            invariant
                from <= i <= self.rows@.len(),
                *self == *old(self),
                next_with_path(self.rows@, from as int) == next_with_path(self.rows@, i as int),
            decreases self.rows@.len() - i,
        {
            i += 1;
        }
        self.cursor = i;
        let path: Option<String> = if i < self.rows.len() {
            copy_text(&self.rows[i].full_path)
        } else {
            None
        };
        match path {
            Some(path) => {
                self.phase = SearchPhase::Enriching;
                let read_xmp = wants_xmp(self.level, path.as_str());
                SearchAction::Probe(
                    ProbeRequest { path, read_xmp, read_contents: self.budget.should_search() },
                )
            },
            None => {
                self.phase = SearchPhase::Pacing;
                SearchAction::Pace { millis: PACING_MILLIS }
            },
        }
    }

    /// Adds the result for the row under the cursor and counts the extraction.
    fn take_report(&mut self, report: ProbeReport, found: Option<Vec<Highlight>>)
        requires
            old(self).wf(),
            old(self).phase == SearchPhase::Enriching,
        ensures
            final(self).phase == old(self).phase,
            final(self).rows == old(self).rows,
            final(self).cursor == old(self).cursor,
            final(self).level == old(self).level,
            final(self).query == old(self).query,
            final(self).max_results == old(self).max_results,
            final(self).budget.wf(),
            final(self).budget.requested() == old(self).budget.requested(),
            final(self).results@.len() == old(self).results@.len() + 1,
            final(self).results@.drop_last() == old(self).results@,
            is_row_of(
                final(self).results@.last(),
                old(self).rows@[old(self).cursor as int],
                report,
                old(self).level,
            ),
            owed_highlights(
                old(self).budget.is_open(),
                found,
                final(self).results@.last().highlights,
            ),
            final(self).budget.attempted() == old(self).budget.attempted() + if old(self).budget.is_open() {
                1nat
            } else {
                0nat
            },
            follows_highlight_policy(
                final(self).results@,
                final(self).budget.requested(),
                final(self).budget.attempted(),
            ),
            count_with_highlights(final(self).results@) == final(self).budget.with_highlights(),
            final(self).budget.is_open() ==> final(self).budget.attempted() == final(self).results@.len(),
            result_paths(final(self).results@) == paths_of(
                old(self).rows@,
                old(self).cursor as int + 1,
            ),
    {
        let highlights: Option<Vec<Highlight>> = if self.budget.should_search() {
            let list: Vec<Highlight> = match found {
                Some(list) => list,
                None => Vec::new(),
            };
            self.budget.record_attempt(list.len() > 0);
            Some(list)
        } else {
            None
        };
        let ghost tried = old(self).budget.is_open();
        let ghost before = self.results@;
        match assemble_result(&self.rows[self.cursor], report, self.level, highlights) {
            Some(result) => {
                proof {
                    lemma_count_push(self.results@, result);
                    assert(self.results@.push(result).drop_last() =~= self.results@);
                    assert(has_highlights(result) == (tried && highlights->0@.len() > 0));
                    assert(result_paths(self.results@.push(result)) =~= result_paths(
                        self.results@,
                    ) + seq![result.full_path@]);
                    let after = before.push(result);
                    let run = self.budget.attempted() as int;
                    if tried {
                        assert(after.take(run - 1) =~= before);
                    } else if run > 0 {
                        assert(after.take(run - 1) =~= before.take(run - 1));
                    }
                }
                self.results.push(result);
            },
            None => {},
        }
    }

    /// Takes note that the engine lock was taken at `now`.
    ///
    /// Where the search was waiting for the lock, the limiter is told that
    /// an invocation starts at `now`, and the query is asked for: the time
    /// is noted under the lock and right before the query goes out. In any
    /// other phase the search ends as unavailable and the limiter stays as
    /// it was.
    pub fn lock_acquired(&mut self, limiter: &mut RateLimiter, now: u64) -> (action: SearchAction)
        requires
            old(self).wf(),
        ensures
            final(self).wf(),
            final(self).same_settings(*old(self)),
            old(self).phase() == SearchPhase::Locking ==> {
                &&& final(self).phase() == SearchPhase::Querying
                &&& final(limiter).last_invocation == Some(now)
                &&& action matches SearchAction::Query(request)
                &&& old(self).is_request(request)
            },
            old(self).phase() != SearchPhase::Locking ==> {
                &&& final(self).phase() == SearchPhase::Done
                &&& *final(limiter) == *old(limiter)
                &&& action == SearchAction::Finish(SearchOutcome::Unavailable)
            },
    {
        match self.phase {
            SearchPhase::Locking => {
                limiter.record_invocation(now);
                self.phase = SearchPhase::Querying;
                SearchAction::Query(engine_request(self.query.as_str(), self.max_results))
            },
            _ => self.give_up(),
        }
    }

    /// Takes the probe of the row under the cursor together with the list
    /// that extraction gave for the file, if extraction was tried.
    ///
    /// While a probe is pending, the result for the row is added and the
    /// next row with a path is gone on to. The result carries `found` where
    /// the budget was open, an empty list where it was open and no list was
    /// handed in, and no list where it was closed. In any other phase the
    /// search ends as unavailable.
    pub fn probed_with(&mut self, report: ProbeReport, found: Option<Vec<Highlight>>) -> (action:
        SearchAction)
        requires
            old(self).wf(),
        ensures
            final(self).wf(),
            final(self).same_settings(*old(self)),
            old(self).phase() == SearchPhase::Enriching ==> {
                &&& final(self).is_enriched_from(*old(self), report, action)
                &&& owed_highlights(
                    old(self).budget().is_open(),
                    found,
                    final(self).results().last().highlights,
                )
            },
            old(self).phase() != SearchPhase::Enriching ==> {
                &&& final(self).phase() == SearchPhase::Done
                &&& action == SearchAction::Finish(SearchOutcome::Unavailable)
            },
    {
        match self.phase {
            SearchPhase::Enriching => {
                let next = if self.cursor < self.rows.len() {
                    self.cursor + 1
                } else {
                    self.cursor
                };
                self.take_report(report, found);
                proof {
                    lemma_paths_up_to_next(self.rows@, next as int);
                }
                self.announce(next)
            },
            _ => self.give_up(),
        }
    }

    /// Takes the caller's report on the last action and says what to do next.
    ///
    /// On `Probed` while the budget is open, extraction is tried on the
    /// bytes of the report and the rest is `probed_with`.
    pub fn step(&mut self, event: SearchEvent) -> (action: SearchAction)
        requires
            old(self).wf(),
        ensures
            final(self).wf(),
            final(self).is_step_from(*old(self), event, action),
            action matches SearchAction::Finish(SearchOutcome::Results(list)) ==> {
                &&& result_paths(list@) == paths_of(
                    old(self).rows(),
                    old(self).rows().len() as int,
                )
                &&& follows_highlight_policy(
                    list@,
                    old(self).budget().requested(),
                    old(self).budget().attempted(),
                )
            },
    {
        match self.phase {
            SearchPhase::Throttling => match event {
                SearchEvent::Waited => {
                    self.phase = SearchPhase::Locking;
                    SearchAction::AcquireLock { timeout_millis: LOCK_TIMEOUT_MILLIS }
                },
                _ => self.give_up(),
            },
            SearchPhase::Locking => self.give_up(),
            SearchPhase::Querying => match event {
                SearchEvent::QueryDone(rows) => {
                    self.rows = rows;
                    proof {
                        lemma_paths_up_to_next(self.rows@, 0);
                        assert(result_paths(self.results@) =~= paths_of(self.rows@, 0));
                    }
                    self.announce(0)
                },
                _ => self.give_up(),
            },
            SearchPhase::Enriching => match event {
                SearchEvent::Probed(report) => {
                    let found: Option<Vec<Highlight>> = if self.budget.should_search() {
                        Some(extract_for(&report.contents))
                    } else {
                        None
                    };
                    self.probed_with(report, found)
                },
                _ => self.give_up(),
            },
            SearchPhase::Pacing => match event {
                SearchEvent::Paced => {
                    let mut list: Vec<FileResult> = Vec::new();
                    std::mem::swap(&mut list, &mut self.results);
                    self.phase = SearchPhase::Done;
                    self.rows = Vec::new();
                    self.cursor = 0;
                    self.budget = HighlightBudget::new(self.budget.should_request());
                    SearchAction::Finish(SearchOutcome::Results(list))
                },
                _ => self.give_up(),
            },
            SearchPhase::Done => self.give_up(),
        }
    }
}

/// The message shown when a search was unavailable.
pub fn unavailable_message() -> (res: String)
    ensures
        res@ == "Ошибка выполнения поиска"@,
{
    "Ошибка выполнения поиска".to_owned()
}

/// What the caller of a search is handed: the list, or the message of a
/// search that was unavailable.
pub fn outcome_result(outcome: SearchOutcome) -> (res: Result<Vec<FileResult>, String>)
    ensures
        match outcome {
            SearchOutcome::Results(list) => res == Ok::<Vec<FileResult>, String>(list),
            SearchOutcome::Unavailable => res matches Err(message) && message@
                == "Ошибка выполнения поиска"@,
        },
{
    match outcome {
        SearchOutcome::Results(list) => Ok(list),
        SearchOutcome::Unavailable => Err(unavailable_message()),
    }
}

/// While a search is in progress its results have the shape that the
/// highlight budget gives them: extraction was tried for a leading run of
/// at most eleven results and for none after it, and at most seven results
/// have highlights.
pub proof fn lemma_results_follow_policy(session: SearchSession)
    requires
        session.wf(),
        session.in_progress(),
    ensures
        follows_highlight_policy(
            session.results(),
            session.budget().requested(),
            session.budget().attempted(),
        ),
{
}

/// While a search is in progress there is one result for every row with a
/// path that the cursor has passed, in the order of the rows: results come
/// in the engine's order, and only rows without a path are left out.
pub proof fn lemma_results_in_engine_order(session: SearchSession)
    requires
        session.wf(),
        session.in_progress(),
    ensures
        result_paths(session.results()) == paths_of(session.rows(), session.cursor()),
{
}

/// In a list that follows the policy, a result without highlights is
/// followed by results without highlights only, and no more than eleven
/// results carry a list of highlights at all.
pub proof fn lemma_policy_cutoff(results: Seq<FileResult>, wanted: bool, tried: nat)
    requires
        follows_highlight_policy(results, wanted, tried),
    ensures
        forall|i: int, j: int|
            0 <= i <= j < results.len() && (#[trigger] results[i]).highlights is None ==> (
            #[trigger] results[j]).highlights is None,
        forall|j: int|
            0 <= j < results.len() && (#[trigger] results[j]).highlights is Some ==> j
                < MAX_TOTAL_HIGHLIGHT_SEARCHES,
        count_with_highlights(results) <= MAX_FILES_WITH_HIGHLIGHTS,
{
}

/// Begins a search at the fast level: lock state and identity for each result.
pub fn get_everything(params: &SearchParams, limiter: &RateLimiter, now: u64) -> (started: (
    SearchSession,
    SearchAction,
))
    ensures
        started.0.wf(),
        started.0.level() == EnrichmentLevel::Fast,
        started.0.query() == params.query@,
        started.0.max_results() == result_cap(*params),
        started.0.budget().requested() == (params.include_highlights == Some(true)),
        is_blank_seq(params.query@) ==> {
            &&& started.0.phase() == SearchPhase::Done
            &&& started.1 matches SearchAction::Finish(SearchOutcome::Results(list))
            &&& list@.len() == 0
        },
        !is_blank_seq(params.query@) ==> match throttle_wait(limiter.last_invocation, now) {
            Some(nanos) => {
                &&& started.0.phase() == SearchPhase::Throttling
                &&& started.1 == SearchAction::Wait { nanos }
            },
            None => {
                &&& started.0.phase() == SearchPhase::Locking
                &&& started.1 == SearchAction::AcquireLock { timeout_millis: LOCK_TIMEOUT_MILLIS }
            },
        },
{
    SearchSession::start(params, EnrichmentLevel::Fast, limiter, now)
}

/// Begins a search at the full level: XMP metadata for PDF files, and
/// highlights whether asked for or not.
pub fn get_everything_with_meta(params: &SearchParams, limiter: &RateLimiter, now: u64) -> (started:
    (SearchSession, SearchAction))
    ensures
        started.0.wf(),
        started.0.level() == EnrichmentLevel::Full,
        started.0.query() == params.query@,
        started.0.max_results() == result_cap(*params),
        started.0.budget().requested(),
        is_blank_seq(params.query@) ==> {
            &&& started.0.phase() == SearchPhase::Done
            &&& started.1 matches SearchAction::Finish(SearchOutcome::Results(list))
            &&& list@.len() == 0
        },
        !is_blank_seq(params.query@) ==> match throttle_wait(limiter.last_invocation, now) {
            Some(nanos) => {
                &&& started.0.phase() == SearchPhase::Throttling
                &&& started.1 == SearchAction::Wait { nanos }
            },
            None => {
                &&& started.0.phase() == SearchPhase::Locking
                &&& started.1 == SearchAction::AcquireLock { timeout_millis: LOCK_TIMEOUT_MILLIS }
            },
        },
{
    SearchSession::start(params, EnrichmentLevel::Full, limiter, now)
}

} // verus!
