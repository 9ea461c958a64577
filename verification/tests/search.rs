use file_search::file_info::{EnrichmentLevel, FileIdentity, LockProbe, XmpCore};
use file_search::highlights::Highlight;
use file_search::rate_limiter::RateLimiter;
use file_search::highlights::{get_file_highlights, ExtractionError};
use file_search::search::{
    assemble_result, engine_request, file_date, get_everything, get_everything_with_meta,
    highlights_or_empty, EngineRequest, EngineRow, FileResult, ProbeReport, ProbeRequest,
    RequestFields, SearchAction, SearchEvent, SearchOutcome, SearchParams, SearchSession,
    SortOrder,
};
use lopdf::{Dictionary, Document, Object};

fn params(query: &str, count: Option<u32>, include_highlights: Option<bool>) -> SearchParams {
    SearchParams { query: query.to_string(), path: None, count, include_highlights }
}

fn row(path: &str) -> EngineRow {
    EngineRow {
        full_path: Some(path.to_string()),
        size: Some(1024),
        created: Some(132_223_104_000_000_000),
        modified: Some(132_223_104_005_000_000),
        extension: Some("pdf".to_string()),
    }
}

fn pathless() -> EngineRow {
    EngineRow { full_path: None, size: Some(1), created: None, modified: None, extension: None }
}

fn pdf_name(text: &str) -> Object {
    Object::Name(text.as_bytes().to_vec())
}

/// The bytes of a one-page PDF with `notes` text annotations.
fn pdf_with_notes(notes: usize) -> Vec<u8> {
    let mut doc = Document::with_version("1.5");
    let pages_id = doc.new_object_id();
    let mut annots: Vec<Object> = Vec::new();
    for i in 0..notes {
        let mut note = Dictionary::new();
        note.set("Subtype", pdf_name("Text"));
        note.set("Contents", Object::string_literal(format!("note {}", i)));
        annots.push(Object::Dictionary(note));
    }
    let mut page = Dictionary::new();
    page.set("Type", pdf_name("Page"));
    page.set("Parent", Object::Reference(pages_id));
    page.set("Annots", Object::Array(annots));
    let page_id = doc.add_object(Object::Dictionary(page));
    let mut pages = Dictionary::new();
    pages.set("Type", pdf_name("Pages"));
    pages.set("Count", Object::Integer(1));
    pages.set("Kids", Object::Array(vec![Object::Reference(page_id)]));
    doc.objects.insert(pages_id, Object::Dictionary(pages));
    let mut catalog = Dictionary::new();
    catalog.set("Type", pdf_name("Catalog"));
    catalog.set("Pages", Object::Reference(pages_id));
    let catalog_id = doc.add_object(Object::Dictionary(catalog));
    doc.trailer.set("Root", Object::Reference(catalog_id));
    let mut bytes: Vec<u8> = Vec::new();
    doc.save_to(&mut bytes).unwrap();
    bytes
}

fn report(contents: Option<Vec<u8>>) -> ProbeReport {
    ProbeReport { lock: LockProbe::LockGranted, identity: None, xmp: None, contents }
}

fn note(page: u32, text: &str) -> Highlight {
    Highlight {
        page,
        highlighted_text: String::new(),
        annotation_text: Some(text.to_string()),
        date: None,
        highlight_type: "annotation".to_string(),
        color: None,
    }
}

/// Runs a search up to the engine's answer and returns the action that follows it.
fn after_query(
    search: &SearchParams,
    level: EnrichmentLevel,
    rows: Vec<EngineRow>,
) -> (SearchSession, SearchAction) {
    let mut limiter = RateLimiter::new();
    let (mut session, action) = SearchSession::start(search, level, &limiter, 0);
    assert_eq!(action, SearchAction::AcquireLock { timeout_millis: 5000 });
    let action = session.lock_acquired(&mut limiter, 10);
    assert!(matches!(action, SearchAction::Query(_)));
    let action = session.step(SearchEvent::QueryDone(rows));
    (session, action)
}

/// Answers every probe with the bytes chosen by `contents_of` and returns the outcome.
fn run_probes(
    mut session: SearchSession,
    mut action: SearchAction,
    contents_of: &dyn Fn(&str) -> Option<Vec<u8>>,
) -> (SearchOutcome, Vec<ProbeRequest>) {
    let mut probes: Vec<ProbeRequest> = Vec::new();
    loop {
        match action {
            SearchAction::Probe(request) => {
                let contents = if request.read_contents { contents_of(&request.path) } else { None };
                probes.push(request);
                action = session.step(SearchEvent::Probed(report(contents)));
            }
            SearchAction::Pace { millis } => {
                assert_eq!(millis, 10);
                action = session.step(SearchEvent::Paced);
            }
            SearchAction::Finish(outcome) => return (outcome, probes),
            other => panic!("unexpected action {:?}", other),
        }
    }
}

fn results_of(outcome: SearchOutcome) -> Vec<FileResult> {
    match outcome {
        SearchOutcome::Results(list) => list,
        SearchOutcome::Unavailable => panic!("search was unavailable"),
    }
}

#[test]
fn blank_query_ends_at_once_with_an_empty_list() {
    let mut limiter = RateLimiter::new();
    limiter.record_invocation(1_000);
    for query in ["", " ", "\t \n", "\u{3000}\u{00A0}"] {
        let (_session, action) = get_everything(&params(query, None, Some(true)), &limiter, 1_001);
        assert_eq!(action, SearchAction::Finish(SearchOutcome::Results(vec![])));
        let (_session, action) = get_everything_with_meta(&params(query, Some(5), None), &limiter, 1_001);
        assert_eq!(action, SearchAction::Finish(SearchOutcome::Results(vec![])));
    }
    assert_eq!(limiter.last_invocation, Some(1_000));
}

#[test]
fn search_waits_out_the_rest_of_the_interval() {
    let mut limiter = RateLimiter::new();
    limiter.record_invocation(1_000_000_000);
    let (mut session, action) = get_everything(&params("report", None, None), &limiter, 1_040_000_000);
    assert_eq!(action, SearchAction::Wait { nanos: 60_000_000 });
    assert_eq!(session.step(SearchEvent::Waited), SearchAction::AcquireLock { timeout_millis: 5000 });
    let (_session, action) = get_everything(&params("report", None, None), &limiter, 1_100_000_000);
    assert_eq!(action, SearchAction::AcquireLock { timeout_millis: 5000 });
}

#[test]
fn lock_timeout_makes_the_search_unavailable() {
    let limiter = RateLimiter::new();
    let (mut session, action) = get_everything_with_meta(&params("report", None, None), &limiter, 0);
    assert_eq!(action, SearchAction::AcquireLock { timeout_millis: 5000 });
    assert_eq!(session.step(SearchEvent::LockTimedOut), SearchAction::Finish(SearchOutcome::Unavailable));
    assert_eq!(session.step(SearchEvent::Paced), SearchAction::Finish(SearchOutcome::Unavailable));
    assert_eq!(limiter.last_invocation, None);
}

#[test]
fn taking_the_lock_notes_the_time_and_asks_for_the_query() {
    let mut limiter = RateLimiter::new();
    let (mut session, _) = get_everything(&params("annual report", Some(7), None), &limiter, 5);
    let action = session.lock_acquired(&mut limiter, 123_456);
    assert_eq!(limiter.last_invocation, Some(123_456));
    assert_eq!(
        action,
        SearchAction::Query(EngineRequest {
            query: "annual report".to_string(),
            fields: RequestFields {
                full_path_and_file_name: true,
                date_created: true,
                date_modified: true,
                size: true,
                extension: true,
                file_list_file_name: true,
            },
            sort: SortOrder::DateModifiedDescending,
            max_results: 7,
        })
    );
    assert_eq!(engine_request("q", 20).max_results, 20);
    let (mut session, _) = get_everything(&params("x", None, None), &limiter, 5_000_000_000);
    match session.lock_acquired(&mut limiter, 6_000_000_000) {
        SearchAction::Query(request) => assert_eq!(request.max_results, 20),
        other => panic!("unexpected action {:?}", other),
    }
}

#[test]
fn lock_reported_out_of_turn_ends_the_search() {
    let mut limiter = RateLimiter::new();
    limiter.record_invocation(1_000_000_000);
    let (mut session, action) = get_everything(&params("x", None, None), &limiter, 1_000_000_001);
    assert!(matches!(action, SearchAction::Wait { .. }));
    assert_eq!(session.lock_acquired(&mut limiter, 2_000_000_000), SearchAction::Finish(SearchOutcome::Unavailable));
    assert_eq!(limiter.last_invocation, Some(1_000_000_000));
}

#[test]
fn failed_query_makes_the_search_unavailable() {
    let mut limiter = RateLimiter::new();
    let (mut session, _) = get_everything(&params("x", None, None), &limiter, 0);
    session.lock_acquired(&mut limiter, 1);
    assert_eq!(session.step(SearchEvent::QueryFailed), SearchAction::Finish(SearchOutcome::Unavailable));
}

#[test]
fn event_that_answers_no_action_ends_the_search() {
    let mut limiter = RateLimiter::new();
    let (mut session, _) = get_everything(&params("x", None, None), &limiter, 0);
    assert_eq!(session.step(SearchEvent::QueryDone(vec![row("/a.pdf")])), SearchAction::Finish(SearchOutcome::Unavailable));
    let (mut session, action) = after_query(&params("x", None, None), EnrichmentLevel::Fast, vec![row("/a.pdf")]);
    assert!(matches!(action, SearchAction::Probe(_)));
    assert_eq!(session.step(SearchEvent::Paced), SearchAction::Finish(SearchOutcome::Unavailable));
    assert_eq!(session.step(SearchEvent::Probed(report(None))), SearchAction::Finish(SearchOutcome::Unavailable));
}

#[test]
fn no_rows_give_an_empty_list_after_the_pause() {
    let (mut session, action) = after_query(&params("x", None, Some(true)), EnrichmentLevel::Full, vec![]);
    assert_eq!(action, SearchAction::Pace { millis: 10 });
    assert_eq!(session.step(SearchEvent::Paced), SearchAction::Finish(SearchOutcome::Results(vec![])));
}

#[test]
fn rows_without_a_path_are_left_out() {
    let rows = vec![pathless(), row("/docs/a.pdf"), pathless(), pathless(), row("/docs/b.txt"), pathless()];
    let (session, action) = after_query(&params("x", None, None), EnrichmentLevel::Fast, rows);
    let (outcome, probes) = run_probes(session, action, &|_| None);
    let list = results_of(outcome);
    assert_eq!(list.len(), 2);
    assert_eq!(list[0].full_path, "/docs/a.pdf");
    assert_eq!(list[1].full_path, "/docs/b.txt");
    assert_eq!(probes.len(), 2);
    let (session, action) = after_query(&params("x", None, None), EnrichmentLevel::Fast, vec![pathless(), pathless()]);
    assert_eq!(action, SearchAction::Pace { millis: 10 });
    assert_eq!(results_of(run_probes(session, action, &|_| None).0), vec![]);
}

#[test]
fn result_row_for_a_pdf_with_two_annotations() {
    let mut doc_bytes_source = Document::with_version("1.5");
    let pages_id = doc_bytes_source.new_object_id();
    let mut highlight = Dictionary::new();
    highlight.set("Subtype", pdf_name("Highlight"));
    let mut free_text = Dictionary::new();
    free_text.set("Subtype", pdf_name("FreeText"));
    free_text.set("Contents", Object::string_literal("check this"));
    let mut page = Dictionary::new();
    page.set("Type", pdf_name("Page"));
    page.set("Parent", Object::Reference(pages_id));
    page.set("Annots", Object::Array(vec![Object::Dictionary(highlight), Object::Dictionary(free_text)]));
    let page_id = doc_bytes_source.add_object(Object::Dictionary(page));
    let mut pages = Dictionary::new();
    pages.set("Type", pdf_name("Pages"));
    pages.set("Count", Object::Integer(1));
    pages.set("Kids", Object::Array(vec![Object::Reference(page_id)]));
    doc_bytes_source.objects.insert(pages_id, Object::Dictionary(pages));
    let mut catalog = Dictionary::new();
    catalog.set("Type", pdf_name("Catalog"));
    catalog.set("Pages", Object::Reference(pages_id));
    let catalog_id = doc_bytes_source.add_object(Object::Dictionary(catalog));
    doc_bytes_source.trailer.set("Root", Object::Reference(catalog_id));
    let mut bytes: Vec<u8> = Vec::new();
    doc_bytes_source.save_to(&mut bytes).unwrap();

    let (mut session, action) = after_query(
        &params("report", None, None),
        EnrichmentLevel::Full,
        vec![row("/docs/report (final).pdf")],
    );
    assert_eq!(
        action,
        SearchAction::Probe(ProbeRequest {
            path: "/docs/report (final).pdf".to_string(),
            read_xmp: true,
            read_contents: true,
        })
    );
    let action = session.step(SearchEvent::Probed(ProbeReport {
        lock: LockProbe::LockRefused,
        identity: Some(FileIdentity::LowRes { volume_serial_number: 9, file_index: 281_474_976_710_999 }),
        xmp: Some(XmpCore {
            title: Some("Report".to_string()),
            author: Some("A. Author".to_string()),
            creator_tool: Some("id_AAAABBBBCCCC".to_string()),
        }),
        contents: Some(bytes),
    }));
    assert_eq!(action, SearchAction::Pace { millis: 10 });
    let list = results_of(match session.step(SearchEvent::Paced) {
        SearchAction::Finish(outcome) => outcome,
        other => panic!("unexpected action {:?}", other),
    });
    assert_eq!(
        list,
        vec![FileResult {
            file_name: "report (final).pdf".to_string(),
            full_path: "/docs/report (final).pdf".to_string(),
            title: "report (final)".to_string(),
            size: Some(1024),
            created_date: "2020-01-01T00:00:00+00:00".to_string(),
            modified_date: "2020-01-01T00:00:00.500+00:00".to_string(),
            extension: Some("pdf".to_string()),
            is_locked: true,
            id: Some("281474976710999".to_string()),
            pdf_title: Some("Report".to_string()),
            pdf_author: Some("A. Author".to_string()),
            pdf_creator: Some("id_AAAABBBBCCCC".to_string()),
            highlights: Some(vec![
                Highlight {
                    page: 1,
                    highlighted_text: String::new(),
                    annotation_text: None,
                    date: None,
                    highlight_type: "highlight".to_string(),
                    color: None,
                },
                note(1, "check this"),
            ]),
        }]
    );
}

#[test]
fn twenty_pdfs_with_highlights_stop_after_seven() {
    let rows: Vec<EngineRow> = (0..20).map(|i| row(&format!("/docs/{}.pdf", i))).collect();
    let (session, action) = after_query(&params("x", None, None), EnrichmentLevel::Full, rows);
    let bytes = pdf_with_notes(1);
    let (outcome, probes) = run_probes(session, action, &|_| Some(bytes.clone()));
    let list = results_of(outcome);
    assert_eq!(list.len(), 20);
    for (i, result) in list.iter().enumerate() {
        if i < 7 {
            assert_eq!(result.highlights, Some(vec![note(1, "note 0")]), "row {}", i);
        } else {
            assert_eq!(result.highlights, None, "row {}", i);
        }
        assert_eq!(probes[i].read_contents, i < 7);
    }
}

#[test]
fn twenty_pdfs_without_highlights_stop_after_eleven() {
    let rows: Vec<EngineRow> = (0..20).map(|i| row(&format!("/docs/{}.pdf", i))).collect();
    let (session, action) = after_query(&params("x", None, Some(true)), EnrichmentLevel::Fast, rows);
    let bytes = pdf_with_notes(0);
    let (outcome, probes) = run_probes(session, action, &|_| Some(bytes.clone()));
    let list = results_of(outcome);
    assert_eq!(list.len(), 20);
    for (i, result) in list.iter().enumerate() {
        if i < 11 {
            assert_eq!(result.highlights, Some(vec![]), "row {}", i);
        } else {
            assert_eq!(result.highlights, None, "row {}", i);
        }
        assert_eq!(probes[i].read_contents, i < 11);
        assert!(!probes[i].read_xmp);
    }
}

#[test]
fn failed_extractions_count_as_attempts() {
    let rows: Vec<EngineRow> = (0..15).map(|i| row(&format!("/docs/{}.txt", i))).collect();
    let (session, action) = after_query(&params("x", None, Some(true)), EnrichmentLevel::Fast, rows);
    let (outcome, _) = run_probes(session, action, &|path| {
        if path.ends_with("3.txt") { None } else { Some(b"not a pdf".to_vec()) }
    });
    let list = results_of(outcome);
    let tried: Vec<bool> = list.iter().map(|r| r.highlights.is_some()).collect();
    assert_eq!(tried.iter().filter(|t| **t).count(), 11);
    assert!(tried[..11].iter().all(|t| *t));
    assert!(tried[11..].iter().all(|t| !*t));
    assert!(list[..11].iter().all(|r| r.highlights == Some(vec![])));
}

#[test]
fn mixed_files_stop_at_whichever_limit_comes_first() {
    let rows: Vec<EngineRow> = (0..20).map(|i| row(&format!("/docs/{}.pdf", i))).collect();
    let (session, action) = after_query(&params("x", None, None), EnrichmentLevel::Full, rows);
    let with = pdf_with_notes(2);
    let without = pdf_with_notes(0);
    let (outcome, _) = run_probes(session, action, &|path| {
        let index: usize = path.trim_start_matches("/docs/").trim_end_matches(".pdf").parse().unwrap();
        if index % 2 == 0 { Some(with.clone()) } else { Some(without.clone()) }
    });
    let list = results_of(outcome);
    let tried = list.iter().filter(|r| r.highlights.is_some()).count();
    let found = list.iter().filter(|r| matches!(&r.highlights, Some(h) if !h.is_empty())).count();
    assert_eq!(tried, 11);
    assert_eq!(found, 6);
    assert!(list[11..].iter().all(|r| r.highlights.is_none()));
    assert_eq!(list[0].highlights, Some(vec![note(1, "note 0"), note(1, "note 1")]));
    assert_eq!(list[1].highlights, Some(vec![]));
}

#[test]
fn highlights_are_not_tried_unless_wanted() {
    let rows: Vec<EngineRow> = (0..3).map(|i| row(&format!("/docs/{}.pdf", i))).collect();
    for wanted in [None, Some(false)] {
        let (session, action) = after_query(&params("x", None, wanted), EnrichmentLevel::Fast, rows.clone());
        let (outcome, probes) = run_probes(session, action, &|_| panic!("contents were not asked for"));
        let list = results_of(outcome);
        assert_eq!(list.len(), 3);
        assert!(list.iter().all(|r| r.highlights.is_none()));
        assert!(probes.iter().all(|p| !p.read_contents && !p.read_xmp));
    }
}

#[test]
fn xmp_is_asked_for_pdf_files_at_the_full_level_only() {
    let rows = vec![row("/docs/a.PDF"), row("/docs/b.txt")];
    let (session, action) = after_query(&params("x", None, None), EnrichmentLevel::Full, rows.clone());
    let (_, probes) = run_probes(session, action, &|_| None);
    assert_eq!(probes.iter().map(|p| p.read_xmp).collect::<Vec<bool>>(), vec![true, false]);
    let (session, action) = after_query(&params("x", None, None), EnrichmentLevel::Fast, rows);
    let (_, probes) = run_probes(session, action, &|_| None);
    assert_eq!(probes.iter().map(|p| p.read_xmp).collect::<Vec<bool>>(), vec![false, false]);
}

#[test]
fn assembling_one_row() {
    let engine_row = EngineRow {
        full_path: Some("/docs/notes.txt".to_string()),
        size: None,
        created: None,
        modified: Some(0),
        extension: None,
    };
    let probe = ProbeReport {
        lock: LockProbe::OpenFailed,
        identity: Some(FileIdentity::Inode { device_id: 1, inode_number: 2 }),
        xmp: Some(XmpCore { title: Some("ignored".to_string()), author: None, creator_tool: None }),
        contents: None,
    };
    assert_eq!(
        assemble_result(&engine_row, probe.clone(), EnrichmentLevel::Full, Some(vec![])),
        Some(FileResult {
            file_name: "notes.txt".to_string(),
            full_path: "/docs/notes.txt".to_string(),
            title: "notes".to_string(),
            size: None,
            created_date: String::new(),
            modified_date: "1601-01-01T00:00:00+00:00".to_string(),
            extension: None,
            is_locked: true,
            id: None,
            pdf_title: None,
            pdf_author: None,
            pdf_creator: None,
            highlights: Some(vec![]),
        })
    );
    assert_eq!(assemble_result(&pathless(), probe, EnrichmentLevel::Fast, None), None);
    assert_eq!(file_date(None), "");
    assert_eq!(file_date(Some(116_444_736_000_000_000)), "1970-01-01T00:00:00+00:00");
}

#[test]
fn failed_extraction_gives_an_empty_list() {
    assert_eq!(highlights_or_empty(Err(ExtractionError::Unreadable)), vec![]);
    assert_eq!(highlights_or_empty(Err(ExtractionError::MissingPage { number: 3 })), vec![]);
    assert_eq!(highlights_or_empty(Ok(vec![])), vec![]);
    assert_eq!(
        highlights_or_empty(Ok(vec![note(2, "a"), note(1, "b")])),
        vec![note(2, "a"), note(1, "b")]
    );
    assert_eq!(highlights_or_empty(get_file_highlights(b"not a pdf")), vec![]);
    assert_eq!(
        highlights_or_empty(get_file_highlights(&pdf_with_notes(2))),
        vec![note(1, "note 0"), note(1, "note 1")]
    );
}

#[test]
fn probe_with_a_given_list_of_highlights() {
    let rows = vec![row("/docs/a.pdf"), row("/docs/b.pdf"), row("/docs/c.pdf")];
    let (mut session, action) = after_query(&params("x", None, Some(true)), EnrichmentLevel::Fast, rows);
    assert!(matches!(action, SearchAction::Probe(_)));
    let action = session.probed_with(report(None), Some(vec![note(4, "given")]));
    assert!(matches!(action, SearchAction::Probe(_)));
    let action = session.probed_with(report(Some(pdf_with_notes(1))), None);
    assert!(matches!(action, SearchAction::Probe(_)));
    let action = session.probed_with(report(None), Some(vec![]));
    assert_eq!(action, SearchAction::Pace { millis: 10 });
    let list = results_of(match session.step(SearchEvent::Paced) {
        SearchAction::Finish(outcome) => outcome,
        other => panic!("unexpected action {:?}", other),
    });
    assert_eq!(list[0].highlights, Some(vec![note(4, "given")]));
    assert_eq!(list[1].highlights, Some(vec![]));
    assert_eq!(list[2].highlights, Some(vec![]));
}

#[test]
fn probe_with_a_list_while_the_budget_is_closed() {
    let rows = vec![row("/docs/a.pdf")];
    let (mut session, _) = after_query(&params("x", None, None), EnrichmentLevel::Fast, rows);
    let action = session.probed_with(report(None), Some(vec![note(1, "not asked for")]));
    assert_eq!(action, SearchAction::Pace { millis: 10 });
    let list = results_of(match session.step(SearchEvent::Paced) {
        SearchAction::Finish(outcome) => outcome,
        other => panic!("unexpected action {:?}", other),
    });
    assert_eq!(list[0].highlights, None);
}

#[test]
fn probe_out_of_turn_ends_the_search() {
    let limiter = RateLimiter::new();
    let (mut session, _) = get_everything(&params("x", None, None), &limiter, 0);
    assert_eq!(
        session.probed_with(report(None), None),
        SearchAction::Finish(SearchOutcome::Unavailable)
    );
}

#[test]
fn seventh_file_with_highlights_is_the_last_one_tried() {
    let rows: Vec<EngineRow> = (0..12).map(|i| row(&format!("/docs/{}.pdf", i))).collect();
    let (session, action) = after_query(&params("x", None, Some(true)), EnrichmentLevel::Fast, rows);
    let with = pdf_with_notes(1);
    let without = pdf_with_notes(0);
    let (outcome, _) = run_probes(session, action, &|path| {
        if path.ends_with("/0.pdf") || path.ends_with("/1.pdf") {
            Some(without.clone())
        } else {
            Some(with.clone())
        }
    });
    let list = results_of(outcome);
    let tried = list.iter().filter(|r| r.highlights.is_some()).count();
    assert_eq!(tried, 9);
    let found_before_last =
        list[..tried - 1].iter().filter(|r| matches!(&r.highlights, Some(h) if !h.is_empty())).count();
    assert_eq!(found_before_last, 6);
    assert_eq!(list[tried - 1].highlights, Some(vec![note(1, "note 0")]));
    assert!(list[tried..].iter().all(|r| r.highlights.is_none()));
}

#[test]
fn unavailable_search_becomes_a_message() {
    assert_eq!(
        file_search::search::outcome_result(SearchOutcome::Unavailable),
        Err("Ошибка выполнения поиска".to_string())
    );
    assert_eq!(file_search::search::outcome_result(SearchOutcome::Results(vec![])), Ok(vec![]));
    assert_eq!(file_search::search::unavailable_message(), "Ошибка выполнения поиска");
}
