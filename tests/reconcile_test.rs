use ficflow::model::{ArchiveWarnings, CivilDate, Fanfiction, Rating, ReadingStatus, UserRating};
use ficflow::reconcile::reconcile;

fn work(chapters_published: u32, kudos: u32, hits: u32, rating: Rating) -> Fanfiction {
    Fanfiction {
        id: 135,
        title: "Radio Days".to_string(),
        authors: vec!["Writer".to_string()],
        categories: None,
        chapters_total: Some(40),
        chapters_published,
        characters: Some(vec!["Alastor".to_string()]),
        complete: false,
        fandoms: vec!["Hazbin Hotel (Cartoon)".to_string()],
        hits,
        kudos,
        language: "English".to_string(),
        rating,
        relationships: None,
        restricted: false,
        summary: "A story.".to_string(),
        tags: None,
        warnings: vec![ArchiveWarnings::ChooseNotToUse],
        words: 90_000,
        date_published: CivilDate { year: 2023, month: 5, day: 1 },
        date_updated: CivilDate { year: 2024, month: 6, day: 2 },
        last_chapter_read: None,
        reading_status: ReadingStatus::PlanToRead,
        read_count: 0,
        user_rating: None,
        personal_note: None,
        last_checked_date: 100,
    }
}

#[test]
fn test_check_fic_updates() {
    let mut outdated_fic = work(18, 1200, 40000, Rating::Mature);
    assert_eq!(outdated_fic.chapters_published, 18, "Outdated fic should have 18 chapters");
    outdated_fic.personal_note = Some("This is my favorite Alastor fic!".to_string());
    outdated_fic.user_rating = Some(UserRating::Five);
    outdated_fic.last_chapter_read = Some(15);
    outdated_fic.reading_status = ReadingStatus::InProgress;
    outdated_fic.read_count = 3;

    let fetched = work(32, 4305, 135291, Rating::Explicit);
    let (has_new_chapters, stored_fic) = reconcile(outdated_fic, fetched, 200);

    assert!(has_new_chapters, "Should detect new chapters");
    assert_eq!(stored_fic.chapters_published, 32, "Updated fic should have 32 chapters");
    assert_eq!(stored_fic.kudos, 4305, "Kudos should be updated");
    assert_eq!(stored_fic.hits, 135291, "Hits should be updated");
    assert_eq!(stored_fic.rating, Rating::Explicit, "Rating should be updated to Explicit");
    assert_eq!(
        stored_fic.personal_note,
        Some("This is my favorite Alastor fic!".to_string()),
        "Personal note should be preserved"
    );
    assert_eq!(stored_fic.user_rating, Some(UserRating::Five), "User rating should be preserved");
    assert_eq!(stored_fic.last_chapter_read, Some(15), "Last chapter read should be preserved");
    assert_eq!(stored_fic.reading_status, ReadingStatus::InProgress, "Reading status should be preserved");
    assert_eq!(stored_fic.read_count, 3, "Read count should be preserved");
    assert_eq!(stored_fic.last_checked_date, 200);

    let again = work(32, 4305, 135291, Rating::Explicit);
    let (has_newer_chapters, _) = reconcile(stored_fic, again, 300);
    assert!(!has_newer_chapters, "Second update should report no new chapters");
}

#[test]
fn resync_against_itself_changes_only_check_time() {
    let mut stored = work(10, 5, 50, Rating::General);
    stored.personal_note = Some("note".to_string());
    let fetched = stored.clone();
    let (news, merged) = reconcile(stored.clone(), fetched, 999);
    assert!(!news);
    assert_eq!(merged.last_checked_date, 999);
    assert_eq!(merged.title, stored.title);
    assert_eq!(merged.chapters_published, stored.chapters_published);
    assert_eq!(merged.kudos, stored.kudos);
    assert_eq!(merged.personal_note, stored.personal_note);
    assert_eq!(merged.date_updated, stored.date_updated);
}

#[test]
fn fewer_chapters_is_no_new_content() {
    let stored = work(10, 5, 50, Rating::General);
    let fetched = work(9, 5, 50, Rating::General);
    let (news, merged) = reconcile(stored, fetched, 1);
    assert!(!news);
    assert_eq!(merged.chapters_published, 9);
}

#[test]
fn merged_keeps_stored_identity() {
    let stored = work(1, 0, 0, Rating::General);
    let mut fetched = work(2, 0, 0, Rating::General);
    fetched.id = 999;
    fetched.title = "Renamed".to_string();
    let (_, merged) = reconcile(stored, fetched, 1);
    assert_eq!(merged.id, 135);
    assert_eq!(merged.title, "Renamed");
}
