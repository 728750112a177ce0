use ficflow::config::{
    get_ao3_base_url, reset_ao3_base_url, set_ao3_base_url, switch_to_alt_ao3_url, switch_to_proxy_ao3_url,
    SourceConfig,
};
use ficflow::format::format_word_count;
use ficflow::model::{ArchiveWarnings, Categories, Rating, ReadingStatus, UserRating};
use ficflow::store::{add_outcome, AddOutcome, StoreError};
use ficflow::vocab::{
    map_category, map_rating, map_warning, parse_rating, parse_reading_status, parse_user_rating,
};

#[test]
fn archive_tags_map_to_enums() {
    assert_eq!(map_category("F/M"), Some(Categories::FM));
    assert_eq!(map_category("Gen"), Some(Categories::Gen));
    assert_eq!(map_category("Romance"), None);
    assert_eq!(map_warning("Rape/Non-Con"), Some(ArchiveWarnings::RapeNonCon));
    assert_eq!(
        map_warning("Creator Chose Not To Use Archive Warnings"),
        Some(ArchiveWarnings::ChooseNotToUse)
    );
    assert_eq!(map_warning("Choose Not To Use"), None);
    assert_eq!(map_warning("nope"), None);
    assert_eq!(map_rating("Explicit"), Rating::Explicit);
    assert_eq!(map_rating("General Audiences"), Rating::General);
    assert_eq!(map_rating("Teen And Up Audiences"), Rating::TeenAndUp);
    assert_eq!(map_rating("Not Rated"), Rating::NotRated);
    assert_eq!(map_rating("General Audience"), Rating::NotRated);
    assert_eq!(map_rating("Weird"), Rating::NotRated);
}

#[test]
fn stored_names_round_trip() {
    for r in [Rating::NotRated, Rating::General, Rating::TeenAndUp, Rating::Mature, Rating::Explicit] {
        assert_eq!(parse_rating(r.name()), r);
    }
    for s in [
        ReadingStatus::InProgress,
        ReadingStatus::Read,
        ReadingStatus::PlanToRead,
        ReadingStatus::Paused,
        ReadingStatus::Abandoned,
    ] {
        assert_eq!(parse_reading_status(s.name()), s);
    }
    for u in [UserRating::One, UserRating::Two, UserRating::Three, UserRating::Four, UserRating::Five] {
        assert_eq!(parse_user_rating(Some(u.value() as i32)), Some(u));
    }
    assert_eq!(parse_rating("Bogus"), Rating::NotRated);
    assert_eq!(parse_reading_status("Bogus"), ReadingStatus::PlanToRead);
    assert_eq!(parse_user_rating(Some(7)), None);
    assert_eq!(parse_user_rating(None), None);
    assert_eq!(UserRating::Three.name(), "Three");
}

#[test]
fn word_counts_get_separators() {
    assert_eq!(format_word_count(0), "0");
    assert_eq!(format_word_count(999), "999");
    assert_eq!(format_word_count(1000), "1,000");
    assert_eq!(format_word_count(1021), "1,021");
    assert_eq!(format_word_count(1234567), "1,234,567");
    assert_eq!(format_word_count(u32::MAX), "4,294,967,295");
}

#[test]
fn base_address_can_be_switched() {
    let mut config = SourceConfig::new();
    assert_eq!(get_ao3_base_url(&config), "https://archiveofourown.org");
    switch_to_alt_ao3_url(&mut config);
    assert_eq!(get_ao3_base_url(&config), "https://archiveofourown.gay");
    switch_to_proxy_ao3_url(&mut config);
    assert_eq!(get_ao3_base_url(&config), "https://xn--iao3-lw4b.ws");
    set_ao3_base_url(&mut config, "http://127.0.0.1:8080");
    assert_eq!(get_ao3_base_url(&config), "http://127.0.0.1:8080");
    reset_ao3_base_url(&mut config);
    assert_eq!(get_ao3_base_url(&config), "https://archiveofourown.org");
}

#[test]
fn duplicate_insert_is_no_error() {
    assert_eq!(add_outcome(Ok(())).unwrap(), AddOutcome::Added);
    assert_eq!(add_outcome(Err(StoreError::AlreadyExists)).unwrap(), AddOutcome::AlreadyInLibrary);
    assert!(matches!(add_outcome(Err(StoreError::NotFound)), Err(StoreError::NotFound)));
    assert!(matches!(add_outcome(Err(StoreError::Backend("disk full".to_string()))), Err(StoreError::Backend(_))));
}
