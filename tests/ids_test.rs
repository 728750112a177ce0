use ficflow::ids::extract_ao3_id;

#[test]
fn test_extract_numeric_id() {
    assert_eq!(extract_ao3_id("62072974").unwrap(), 62072974);
}

#[test]
fn test_extract_from_full_url() {
    assert_eq!(extract_ao3_id("https://archiveofourown.org/works/62072974").unwrap(), 62072974);
}

#[test]
fn test_extract_from_headless_url() {
    assert_eq!(extract_ao3_id("archiveofourown.org/works/62072974").unwrap(), 62072974);
}

#[test]
fn test_extract_from_chapter_url() {
    assert_eq!(extract_ao3_id("https://archiveofourown.org/works/62072974/chapters/12345").unwrap(), 62072974);
}

#[test]
fn test_extract_from_comment_url() {
    assert_eq!(
        extract_ao3_id("https://archiveofourown.org/works/62072974/comments/915048250").unwrap(),
        62072974
    );
}

#[test]
fn test_invalid_input() {
    assert!(extract_ao3_id("not-a-valid-input").is_err());
    assert!(extract_ao3_id("https://example.com").is_err());
}

#[test]
fn id_from_other_host_with_works_path() {
    assert_eq!(extract_ao3_id("https://archiveofourown.gay//works/77/chapters/1").unwrap(), 77);
}

#[test]
fn id_address_needs_digits_up_to_a_slash_or_the_end() {
    assert!(extract_ao3_id("archiveofourown.org/works/123abc").is_err());
    assert!(extract_ao3_id("archiveofourown.org/works/").is_err());
}

#[test]
fn id_too_large_for_sixty_four_bits() {
    assert!(extract_ao3_id("archiveofourown.org/works/99999999999999999999").is_err());
    assert!(extract_ao3_id("99999999999999999999").is_err());
    assert_eq!(extract_ao3_id("18446744073709551615").unwrap(), u64::MAX);
}
