use ficflow::ingest::{
    begin_ingest, classify_fetch_error, ingest_scripted, is_usable, on_fetch_result, AttemptFailure, FetchFailure,
    IngestError, IngestState, IngestStep, TransportFailure, MAX_ATTEMPTS,
};
use ficflow::model::{ArchiveWarnings, CivilDate, Fanfiction, Rating, ReadingStatus};

fn candidate(title: &str, published: u32, total: Option<u32>) -> Fanfiction {
    Fanfiction {
        id: 42,
        title: title.to_string(),
        authors: vec!["Someone".to_string()],
        categories: None,
        chapters_total: total,
        chapters_published: published,
        characters: None,
        complete: total == Some(published) && published > 0,
        fandoms: vec!["Some Fandom".to_string()],
        hits: 10,
        kudos: 2,
        language: "English".to_string(),
        rating: Rating::General,
        relationships: None,
        restricted: false,
        summary: "s".to_string(),
        tags: None,
        warnings: vec![ArchiveWarnings::NoArchiveWarningsApply],
        words: 500,
        date_published: CivilDate { year: 2024, month: 1, day: 1 },
        date_updated: CivilDate { year: 2024, month: 1, day: 1 },
        last_chapter_read: None,
        reading_status: ReadingStatus::PlanToRead,
        read_count: 0,
        user_rating: None,
        personal_note: None,
        last_checked_date: 0,
    }
}

fn transient() -> Result<Fanfiction, FetchFailure> {
    Err(FetchFailure::Transport(TransportFailure::Timeout))
}

#[test]
fn always_transient_exhausts_retries() {
    let run = ingest_scripted(vec![
        Err(FetchFailure::Transport(TransportFailure::OtherTransport)),
        Err(FetchFailure::Transport(TransportFailure::TlsFailure)),
        transient(),
        transient(),
    ]);
    assert_eq!(run.fetch_calls, MAX_ATTEMPTS);
    assert_eq!(run.fetch_calls, 3);
    assert_eq!(run.waits, vec![2, 4]);
    match run.result {
        Err(IngestError::ExhaustedRetries { attempts, last }) => {
            assert_eq!(attempts, 3);
            assert_eq!(last, AttemptFailure::Transient(TransportFailure::Timeout));
        },
        other => panic!("unexpected result {:?}", other),
    }
}

#[test]
fn not_found_short_circuits() {
    let run = ingest_scripted(vec![Err(FetchFailure::NotFound), transient(), transient()]);
    assert_eq!(run.fetch_calls, 1);
    assert!(run.waits.is_empty());
    assert!(matches!(run.result, Err(IngestError::NotFound)));
}

#[test]
fn unusable_then_usable_candidate() {
    let run = ingest_scripted(vec![
        Ok(candidate("Unknown Title", 1, Some(1))),
        Ok(candidate("Featherlight", 1, Some(1))),
        transient(),
    ]);
    assert_eq!(run.fetch_calls, 2);
    assert_eq!(run.waits, vec![2]);
    let fic = run.result.expect("a usable record");
    assert_eq!(fic.title, "Featherlight");
    assert_eq!(fic.chapters_published, 1);
    assert_eq!(fic.chapters_total, Some(1));
}

#[test]
fn unusable_every_time_is_invalid_content() {
    let run = ingest_scripted(vec![
        Ok(candidate("Unknown Title (Error Loading)", 1, Some(1))),
        transient(),
        Ok(candidate("Unknown Title", 1, Some(1))),
    ]);
    assert_eq!(run.fetch_calls, 3);
    assert_eq!(run.waits, vec![2, 4]);
    assert!(matches!(
        run.result,
        Err(IngestError::ExhaustedRetries { attempts: 3, last: AttemptFailure::InvalidContent })
    ));
}

#[test]
fn state_machine_steps() {
    let s = begin_ingest();
    assert_eq!(s, IngestState { attempt: 1 });
    let (s2, step) = on_fetch_result(s, transient());
    assert_eq!(s2.attempt, 2);
    assert!(matches!(step, IngestStep::Retry { wait_secs: 2 }));
    let (s3, step) = on_fetch_result(s2, transient());
    assert_eq!(s3.attempt, 3);
    assert!(matches!(step, IngestStep::Retry { wait_secs: 4 }));
    let (_, step) = on_fetch_result(s3, Ok(candidate("Fine", 2, None)));
    assert!(matches!(step, IngestStep::Done(Ok(_))));
}

#[test]
fn usability_rules() {
    assert!(is_usable(&candidate("Featherlight", 1, Some(1))));
    assert!(!is_usable(&candidate("Unknown Title", 1, Some(1))));
    assert!(!is_usable(&candidate("Unknown Title (Error Loading)", 1, Some(1))));
    let mut empty = candidate("Has Title", 1, None);
    empty.words = 0;
    empty.authors.clear();
    empty.fandoms.clear();
    assert!(!is_usable(&empty));
    empty.words = 1;
    assert!(is_usable(&empty));
}

#[test]
fn fetch_errors_are_classified() {
    assert_eq!(classify_fetch_error(false, Some(404), "HTTP status client error"), FetchFailure::NotFound);
    assert_eq!(classify_fetch_error(false, None, "error: 404 Not Found"), FetchFailure::NotFound);
    assert_eq!(
        classify_fetch_error(false, None, "SSL handshake failed"),
        FetchFailure::Transport(TransportFailure::TlsFailure)
    );
    assert_eq!(classify_fetch_error(true, None, "deadline"), FetchFailure::Transport(TransportFailure::Timeout));
    assert_eq!(
        classify_fetch_error(false, None, "operation timed out"),
        FetchFailure::Transport(TransportFailure::Timeout)
    );
    assert_eq!(
        classify_fetch_error(false, Some(500), "connection reset"),
        FetchFailure::Transport(TransportFailure::OtherTransport)
    );
}
