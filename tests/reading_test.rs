use ficflow::model::{ArchiveWarnings, Categories, CivilDate, Fanfiction, Rating, ReadingStatus, UserRating};
use ficflow::reading::{
    parse_status_input, parse_user_rating_input, set_last_chapter_read, status_of_lower_word,
    user_rating_of_lower_word, set_personal_note, set_read_count,
    set_reading_status, set_user_rating, ReadingError,
};

fn sample_fanfiction(id: u64, title: &str) -> Fanfiction {
    Fanfiction {
        id,
        title: title.to_string(),
        authors: vec!["Test Author".to_string()],
        categories: Some(vec![Categories::FM]),
        chapters_total: Some(2),
        chapters_published: 1,
        characters: Some(vec!["Character A".to_string(), "Character B".to_string()]),
        complete: false,
        fandoms: vec!["Test Fandom".to_string()],
        hits: 100,
        kudos: 50,
        language: "English".to_string(),
        rating: Rating::General,
        relationships: Some(vec!["A/B".to_string()]),
        restricted: false,
        summary: "A test fanfiction.".to_string(),
        tags: Some(vec!["Tag 1".to_string(), "Tag 2".to_string()]),
        warnings: vec![ArchiveWarnings::NoArchiveWarningsApply],
        words: 1000,
        date_published: CivilDate { year: 2025, month: 1, day: 1 },
        date_updated: CivilDate { year: 2025, month: 1, day: 1 },
        last_chapter_read: None,
        reading_status: ReadingStatus::PlanToRead,
        read_count: 0,
        user_rating: None,
        personal_note: None,
        last_checked_date: 1_735_732_800,
    }
}

fn chapter_fic(id: u64, status: ReadingStatus, chapters_total: Option<u32>, read_count: u32) -> Fanfiction {
    let mut fic = sample_fanfiction(id, format!("Test Fanfiction {}", id).as_str());
    fic.reading_status = status;
    fic.chapters_total = chapters_total;
    fic.read_count = read_count;
    fic
}

#[test]
fn test_update_to_in_progress_from_plan_to_read() {
    let mut fic = chapter_fic(1001, ReadingStatus::PlanToRead, Some(10), 0);
    fic.last_chapter_read = None;
    set_last_chapter_read(&mut fic, 5);
    assert_eq!(fic.last_chapter_read, Some(5));
    assert_eq!(fic.reading_status, ReadingStatus::InProgress);
    assert_eq!(fic.read_count, 0);
}

#[test]
fn test_update_to_in_progress_from_paused() {
    let mut fic = chapter_fic(1002, ReadingStatus::Paused, Some(10), 0);
    fic.last_chapter_read = Some(3);
    set_last_chapter_read(&mut fic, 5);
    assert_eq!(fic.last_chapter_read, Some(5));
    assert_eq!(fic.reading_status, ReadingStatus::InProgress);
    assert_eq!(fic.read_count, 0);
}

#[test]
fn test_update_from_in_progress_stays_in_progress() {
    let mut fic = chapter_fic(1003, ReadingStatus::InProgress, Some(10), 0);
    fic.last_chapter_read = Some(3);
    set_last_chapter_read(&mut fic, 5);
    assert_eq!(fic.last_chapter_read, Some(5));
    assert_eq!(fic.reading_status, ReadingStatus::InProgress);
    assert_eq!(fic.read_count, 0);
}

#[test]
fn test_update_to_final_chapter_from_in_progress() {
    let mut fic = chapter_fic(1004, ReadingStatus::InProgress, Some(10), 0);
    fic.last_chapter_read = Some(8);
    set_last_chapter_read(&mut fic, 10);
    assert_eq!(fic.last_chapter_read, Some(10));
    assert_eq!(fic.reading_status, ReadingStatus::Read);
    assert_eq!(fic.read_count, 1);
}

#[test]
fn test_update_with_already_read_status() {
    let mut fic = chapter_fic(1005, ReadingStatus::Read, Some(10), 1);
    fic.last_chapter_read = Some(10);
    set_last_chapter_read(&mut fic, 10);
    assert_eq!(fic.last_chapter_read, Some(10));
    assert_eq!(fic.reading_status, ReadingStatus::Read);
    assert_eq!(fic.read_count, 2);
}

#[test]
fn test_prevent_exceeding_chapter_count() {
    let mut fic = chapter_fic(1006, ReadingStatus::InProgress, Some(10), 0);
    fic.last_chapter_read = Some(5);
    set_last_chapter_read(&mut fic, 15);
    assert_eq!(fic.last_chapter_read, Some(10));
    assert_eq!(fic.reading_status, ReadingStatus::Read);
    assert_eq!(fic.read_count, 1);
}

#[test]
fn test_unknown_total_chapters() {
    let mut fic = chapter_fic(1007, ReadingStatus::PlanToRead, None, 0);
    fic.last_chapter_read = None;
    set_last_chapter_read(&mut fic, 5);
    assert_eq!(fic.last_chapter_read, Some(5));
    assert_eq!(fic.reading_status, ReadingStatus::InProgress);
    assert_eq!(fic.read_count, 0);
    set_last_chapter_read(&mut fic, 100);
    assert_eq!(fic.last_chapter_read, Some(100));
    assert_eq!(fic.reading_status, ReadingStatus::InProgress);
}

#[test]
fn test_abandoned_status_preserved() {
    let mut fic = chapter_fic(1008, ReadingStatus::Abandoned, Some(10), 0);
    fic.last_chapter_read = Some(3);
    set_last_chapter_read(&mut fic, 5);
    assert_eq!(fic.last_chapter_read, Some(5));
    assert_eq!(fic.reading_status, ReadingStatus::Abandoned);
    assert_eq!(fic.read_count, 0);
    set_last_chapter_read(&mut fic, 10);
    assert_eq!(fic.last_chapter_read, Some(10));
    assert_eq!(fic.reading_status, ReadingStatus::Read);
    assert_eq!(fic.read_count, 1);
}

#[test]
fn chapter_update_leaves_site_fields_alone() {
    let mut fic = chapter_fic(1009, ReadingStatus::PlanToRead, Some(10), 0);
    set_last_chapter_read(&mut fic, 4);
    assert_eq!(fic.chapters_total, Some(10));
    assert_eq!(fic.chapters_published, 1);
    assert_eq!(fic.title, "Test Fanfiction 1009");
}

fn read_count_fic(id: u64, read_count: u32) -> Fanfiction {
    let mut fic = sample_fanfiction(id, format!("Test Fanfiction {}", id).as_str());
    fic.read_count = read_count;
    fic
}

#[test]
fn test_update_read_count_from_zero() {
    let fic = read_count_fic(3001, 0);
    let mut updated = fic.clone();
    set_read_count(&mut updated, 5);
    assert_eq!(updated.read_count, 5);
    assert_eq!(updated.reading_status, fic.reading_status);
}

#[test]
fn test_update_read_count_decrease() {
    let fic = read_count_fic(3002, 10);
    let mut updated = fic.clone();
    set_read_count(&mut updated, 3);
    assert_eq!(updated.read_count, 3);
    assert_eq!(updated.reading_status, fic.reading_status);
    assert_eq!(updated.last_chapter_read, fic.last_chapter_read);
}

#[test]
fn test_update_read_count_to_zero() {
    let mut fic = read_count_fic(3003, 7);
    set_read_count(&mut fic, 0);
    assert_eq!(fic.read_count, 0);
}

#[test]
fn test_update_read_count_to_zero_changes_status() {
    let mut fic = read_count_fic(3004, 5);
    fic.reading_status = ReadingStatus::Read;
    set_read_count(&mut fic, 0);
    assert_eq!(fic.read_count, 0);
    assert_eq!(fic.reading_status, ReadingStatus::PlanToRead);
}

fn rating_fic(id: u64, user_rating: Option<UserRating>) -> Fanfiction {
    let mut fic = sample_fanfiction(id, format!("Test Fanfiction {}", id).as_str());
    fic.user_rating = user_rating;
    fic
}

#[test]
fn test_update_rating_from_none_to_rating() {
    let mut fic = rating_fic(4001, None);
    set_user_rating(&mut fic, "4").unwrap();
    assert_eq!(fic.user_rating, Some(UserRating::Four));
}

#[test]
fn test_update_rating_with_words() {
    let mut fic = rating_fic(4002, None);
    set_user_rating(&mut fic, "five").unwrap();
    assert_eq!(fic.user_rating, Some(UserRating::Five));
}

#[test]
fn test_update_rating_change_existing() {
    let mut fic = rating_fic(4003, Some(UserRating::Two));
    set_user_rating(&mut fic, "three").unwrap();
    assert_eq!(fic.user_rating, Some(UserRating::Three));
}

#[test]
fn test_update_rating_clear_rating() {
    let mut fic = rating_fic(4004, Some(UserRating::Five));
    set_user_rating(&mut fic, "none").unwrap();
    assert_eq!(fic.user_rating, None);
}

#[test]
fn test_update_rating_invalid_rating() {
    let mut fic = rating_fic(4005, None);
    let result = set_user_rating(&mut fic, "ten");
    assert!(result.is_err());
    let error = result.unwrap_err();
    assert!(error.message().contains("Invalid rating"));
    assert_eq!(fic.user_rating, None);
}

#[test]
fn rating_words_ignore_case() {
    assert_eq!(parse_user_rating_input("TWO"), Ok(Some(UserRating::Two)));
    assert_eq!(parse_user_rating_input("Clear"), Ok(None));
    assert_eq!(parse_user_rating_input("0"), Ok(None));
    assert_eq!(parse_user_rating_input("6"), Err(ReadingError::InvalidRating));
}

fn status_fic(id: u64, status: ReadingStatus) -> Fanfiction {
    let mut fic = sample_fanfiction(id, format!("Test Fanfiction {}", id).as_str());
    fic.reading_status = status;
    fic
}

#[test]
fn test_update_status_from_plan_to_read_to_in_progress() {
    let mut fic = status_fic(2001, ReadingStatus::PlanToRead);
    set_reading_status(&mut fic, "inprogress").unwrap();
    assert_eq!(fic.reading_status, ReadingStatus::InProgress);
}

#[test]
fn test_update_status_to_read() {
    let mut fic = status_fic(2002, ReadingStatus::InProgress);
    set_reading_status(&mut fic, "read").unwrap();
    assert_eq!(fic.reading_status, ReadingStatus::Read);
}

#[test]
fn test_update_status_with_different_formats() {
    let mut fic = status_fic(2003, ReadingStatus::InProgress);
    set_reading_status(&mut fic, "plan-to-read").unwrap();
    assert_eq!(fic.reading_status, ReadingStatus::PlanToRead);
    set_reading_status(&mut fic, "plantoread").unwrap();
    assert_eq!(fic.reading_status, ReadingStatus::PlanToRead);
    set_reading_status(&mut fic, "plan").unwrap();
    assert_eq!(fic.reading_status, ReadingStatus::PlanToRead);
    set_reading_status(&mut fic, "in-progress").unwrap();
    assert_eq!(fic.reading_status, ReadingStatus::InProgress);
}

#[test]
fn test_update_status_invalid_status() {
    let mut fic = status_fic(2004, ReadingStatus::InProgress);
    let result = set_reading_status(&mut fic, "invalid_status");
    assert!(result.is_err());
    let error = result.unwrap_err();
    assert!(error.message().contains("Invalid reading status"));
    assert_eq!(fic.reading_status, ReadingStatus::InProgress);
}

#[test]
fn status_words_ignore_case() {
    assert_eq!(parse_status_input("Paused"), Some(ReadingStatus::Paused));
    assert_eq!(parse_status_input("ABANDONED"), Some(ReadingStatus::Abandoned));
    assert_eq!(parse_status_input("TBR"), Some(ReadingStatus::PlanToRead));
    assert_eq!(parse_status_input("finished"), Some(ReadingStatus::Read));
    assert_eq!(parse_status_input("later"), None);
}

#[test]
fn test_update_personal_note() {
    let mut fic = sample_fanfiction(4001, "Test Fanfiction 4001");
    assert!(fic.personal_note.is_none());
    let note = "This is my favorite story!";
    set_personal_note(&mut fic, Some(note.to_string()));
    assert!(fic.personal_note.is_some());
    assert_eq!(fic.personal_note.clone().unwrap(), note);
    let updated_note = "Actually I changed my mind. It's good but not my favorite.";
    set_personal_note(&mut fic, Some(updated_note.to_string()));
    assert!(fic.personal_note.is_some());
    assert_eq!(fic.personal_note.clone().unwrap(), updated_note);
    set_personal_note(&mut fic, None);
    assert!(fic.personal_note.is_none());
}

#[test]
fn lower_case_words_map_exactly() {
    assert_eq!(status_of_lower_word("in_progress"), Some(ReadingStatus::InProgress));
    assert_eq!(status_of_lower_word("ptr"), Some(ReadingStatus::PlanToRead));
    assert_eq!(status_of_lower_word("Paused"), None);
    assert_eq!(user_rating_of_lower_word("four"), Ok(Some(UserRating::Four)));
    assert_eq!(user_rating_of_lower_word("remove"), Ok(None));
    assert_eq!(user_rating_of_lower_word("Five"), Err(ReadingError::InvalidRating));
}
