//! The fixed vocabularies that map archive tag text, stored names and reader
//! input onto the record's enumerations.

use vstd::prelude::*;
use crate::model::{ArchiveWarnings, Categories, Rating, ReadingStatus, UserRating};
use crate::text::text_eq;

verus! {

/// The category that an archive category tag names.
pub open spec fn category_of(t: Seq<char>) -> Option<Categories> {
    if t == "F/F"@ {
        Some(Categories::FF)
    } else if t == "F/M"@ {
        Some(Categories::FM)
    } else if t == "M/M"@ {
        Some(Categories::MM)
    } else if t == "Gen"@ {
        Some(Categories::Gen)
    } else if t == "Multi"@ {
        Some(Categories::Multi)
    } else if t == "Other"@ {
        Some(Categories::Other)
    } else {
        None
    }
}

/// Maps an archive category tag to its category; other text maps to nothing.
pub fn map_category(category_text: &str) -> (r: Option<Categories>)
    ensures
        r == category_of(category_text@),
{
    if text_eq(category_text, "F/F") {
        Some(Categories::FF)
    } else if text_eq(category_text, "F/M") {
        Some(Categories::FM)
    } else if text_eq(category_text, "M/M") {
        Some(Categories::MM)
    } else if text_eq(category_text, "Gen") {
        Some(Categories::Gen)
    } else if text_eq(category_text, "Multi") {
        Some(Categories::Multi)
    } else if text_eq(category_text, "Other") {
        Some(Categories::Other)
    } else {
        None
    }
}

/// The warning that an archive warning tag names.
pub open spec fn warning_of(t: Seq<char>) -> Option<ArchiveWarnings> {
    if t == "Creator Chose Not To Use Archive Warnings"@ {
        Some(ArchiveWarnings::ChooseNotToUse)
    } else if t == "Graphic Depictions Of Violence"@ {
        Some(ArchiveWarnings::GraphicDepictionsOfViolence)
    } else if t == "Major Character Death"@ {
        Some(ArchiveWarnings::MajorCharacterDeath)
    } else if t == "No Archive Warnings Apply"@ {
        Some(ArchiveWarnings::NoArchiveWarningsApply)
    } else if t == "Rape/Non-Con"@ {
        Some(ArchiveWarnings::RapeNonCon)
    } else if t == "Underage"@ {
        Some(ArchiveWarnings::Underage)
    } else {
        None
    }
}

/// Maps an archive warning tag to its warning; other text maps to nothing.
pub fn map_warning(warning_text: &str) -> (r: Option<ArchiveWarnings>)
    ensures
        r == warning_of(warning_text@),
{
    if text_eq(warning_text, "Creator Chose Not To Use Archive Warnings") {
        Some(ArchiveWarnings::ChooseNotToUse)
    } else if text_eq(warning_text, "Graphic Depictions Of Violence") {
        Some(ArchiveWarnings::GraphicDepictionsOfViolence)
    } else if text_eq(warning_text, "Major Character Death") {
        Some(ArchiveWarnings::MajorCharacterDeath)
    } else if text_eq(warning_text, "No Archive Warnings Apply") {
        Some(ArchiveWarnings::NoArchiveWarningsApply)
    } else if text_eq(warning_text, "Rape/Non-Con") {
        Some(ArchiveWarnings::RapeNonCon)
    } else if text_eq(warning_text, "Underage") {
        Some(ArchiveWarnings::Underage)
    } else {
        None
    }
}

/// The rating that an archive rating tag names; unknown text is unrated.
pub open spec fn rating_label_of(t: Seq<char>) -> Rating {
    if t == "General Audiences"@ {
        Rating::General
    } else if t == "Teen And Up Audiences"@ {
        Rating::TeenAndUp
    } else if t == "Mature"@ {
        Rating::Mature
    } else if t == "Explicit"@ {
        Rating::Explicit
    } else {
        Rating::NotRated
    }
}

/// Maps an archive rating tag to its rating; "Not Rated" and unrecognised
/// text both give `NotRated`.
pub fn map_rating(rating: &str) -> (r: Rating)
    ensures
        r == rating_label_of(rating@),
{
    if text_eq(rating, "General Audiences") {
        Rating::General
    } else if text_eq(rating, "Teen And Up Audiences") {
        Rating::TeenAndUp
    } else if text_eq(rating, "Mature") {
        Rating::Mature
    } else if text_eq(rating, "Explicit") {
        Rating::Explicit
    } else {
        Rating::NotRated
    }
}

/// The stored name of a rating: its variant name.
pub open spec fn rating_name(r: Rating) -> Seq<char> {
    match r {
        Rating::NotRated => "NotRated"@,
        Rating::General => "General"@,
        Rating::TeenAndUp => "TeenAndUp"@,
        Rating::Mature => "Mature"@,
        Rating::Explicit => "Explicit"@,
    }
}

/// The rating that a stored name stands for; an unknown name is unrated.
pub open spec fn rating_of_name(t: Seq<char>) -> Rating {
    if t == "General"@ {
        Rating::General
    } else if t == "TeenAndUp"@ {
        Rating::TeenAndUp
    } else if t == "Mature"@ {
        Rating::Mature
    } else if t == "Explicit"@ {
        Rating::Explicit
    } else {
        Rating::NotRated
    }
}

impl Rating {
    /// The variant name under which a rating is stored and shown.
    pub fn name(&self) -> (r: &'static str)
        ensures
            r@ == rating_name(*self),
    {
        match self {
            Rating::NotRated => "NotRated",
            Rating::General => "General",
            Rating::TeenAndUp => "TeenAndUp",
            Rating::Mature => "Mature",
            Rating::Explicit => "Explicit",
        }
    }
}

/// Reads a stored rating name back; unknown names give `NotRated`.
pub fn parse_rating(rating_str: &str) -> (r: Rating)
    ensures
        r == rating_of_name(rating_str@),
{
    if text_eq(rating_str, "General") {
        Rating::General
    } else if text_eq(rating_str, "TeenAndUp") {
        Rating::TeenAndUp
    } else if text_eq(rating_str, "Mature") {
        Rating::Mature
    } else if text_eq(rating_str, "Explicit") {
        Rating::Explicit
    } else {
        Rating::NotRated
    }
}

/// The stored name of a reading status: its variant name.
pub open spec fn status_name(s: ReadingStatus) -> Seq<char> {
    match s {
        ReadingStatus::InProgress => "InProgress"@,
        ReadingStatus::Read => "Read"@,
        ReadingStatus::PlanToRead => "PlanToRead"@,
        ReadingStatus::Paused => "Paused"@,
        ReadingStatus::Abandoned => "Abandoned"@,
    }
}

/// The reading status that a stored name stands for; an unknown name is
/// plan-to-read.
pub open spec fn status_of_name(t: Seq<char>) -> ReadingStatus {
    if t == "InProgress"@ {
        ReadingStatus::InProgress
    } else if t == "Read"@ {
        ReadingStatus::Read
    } else if t == "Paused"@ {
        ReadingStatus::Paused
    } else if t == "Abandoned"@ {
        ReadingStatus::Abandoned
    } else {
        ReadingStatus::PlanToRead
    }
}

impl ReadingStatus {
    /// The variant name under which a reading status is stored and shown.
    pub fn name(&self) -> (r: &'static str)
        ensures
            r@ == status_name(*self),
    {
        match self {
            ReadingStatus::InProgress => "InProgress",
            ReadingStatus::Read => "Read",
            ReadingStatus::PlanToRead => "PlanToRead",
            ReadingStatus::Paused => "Paused",
            ReadingStatus::Abandoned => "Abandoned",
        }
    }
}

/// Reads a stored reading-status name back; unknown names give `PlanToRead`.
pub fn parse_reading_status(status_str: &str) -> (r: ReadingStatus)
    ensures
        r == status_of_name(status_str@),
{
    if text_eq(status_str, "InProgress") {
        ReadingStatus::InProgress
    } else if text_eq(status_str, "Read") {
        ReadingStatus::Read
    } else if text_eq(status_str, "Paused") {
        ReadingStatus::Paused
    } else if text_eq(status_str, "Abandoned") {
        ReadingStatus::Abandoned
    } else {
        ReadingStatus::PlanToRead
    }
}

/// The score a user rating stands for, 1 to 5.
pub open spec fn user_rating_value(r: UserRating) -> int {
    match r {
        UserRating::One => 1,
        UserRating::Two => 2,
        UserRating::Three => 3,
        UserRating::Four => 4,
        UserRating::Five => 5,
    }
}

/// The user rating whose score is `n`, if `n` is one.
pub open spec fn user_rating_of_value(n: int) -> Option<UserRating> {
    if n == 1 {
        Some(UserRating::One)
    } else if n == 2 {
        Some(UserRating::Two)
    } else if n == 3 {
        Some(UserRating::Three)
    } else if n == 4 {
        Some(UserRating::Four)
    } else if n == 5 {
        Some(UserRating::Five)
    } else {
        None
    }
}

impl UserRating {
    /// The score this rating stands for, 1 to 5.
    pub fn value(&self) -> (r: u32)
        ensures
            r == user_rating_value(*self),
    {
        match self {
            UserRating::One => 1,
            UserRating::Two => 2,
            UserRating::Three => 3,
            UserRating::Four => 4,
            UserRating::Five => 5,
        }
    }

    /// The variant name under which a user rating is shown.
    pub fn name(&self) -> (r: &'static str)
        ensures
            r@ == match *self {
                UserRating::One => "One"@,
                UserRating::Two => "Two"@,
                UserRating::Three => "Three"@,
                UserRating::Four => "Four"@,
                UserRating::Five => "Five"@,
            },
    {
        match self {
            UserRating::One => "One",
            UserRating::Two => "Two",
            UserRating::Three => "Three",
            UserRating::Four => "Four",
            UserRating::Five => "Five",
        }
    }
}

/// Reads a stored score back: 1 to 5 give a rating, anything else none.
pub fn parse_user_rating(rating_opt: Option<i32>) -> (r: Option<UserRating>)
    ensures
        r == match rating_opt {
            Some(n) => user_rating_of_value(n as int),
            None => None,
        },
{
    match rating_opt {
        Some(n) => {
            if n == 1 {
                Some(UserRating::One)
            } else if n == 2 {
                Some(UserRating::Two)
            } else if n == 3 {
                Some(UserRating::Three)
            } else if n == 4 {
                Some(UserRating::Four)
            } else if n == 5 {
                Some(UserRating::Five)
            } else {
                None
            }
        },
        None => None,
    }
}

/// A stored rating name reads back as the rating it was written from.
pub proof fn lemma_rating_name_round_trip(r: Rating)
    ensures
        rating_of_name(rating_name(r)) == r,
{
    reveal_strlit("NotRated");
    reveal_strlit("General");
    reveal_strlit("TeenAndUp");
    reveal_strlit("Mature");
    reveal_strlit("Explicit");
    assert("NotRated"@.len() == 8 && "General"@.len() == 7 && "TeenAndUp"@.len() == 9);
    assert("Mature"@.len() == 6 && "Explicit"@.len() == 8);
    assert("NotRated"@[0] != "Explicit"@[0]);
}

/// A stored reading-status name reads back as the status it was written from.
pub proof fn lemma_status_name_round_trip(s: ReadingStatus)
    ensures
        status_of_name(status_name(s)) == s,
{
    reveal_strlit("InProgress");
    reveal_strlit("Read");
    reveal_strlit("PlanToRead");
    reveal_strlit("Paused");
    reveal_strlit("Abandoned");
    assert("InProgress"@.len() == 10 && "Read"@.len() == 4 && "PlanToRead"@.len() == 10);
    assert("Paused"@.len() == 6 && "Abandoned"@.len() == 9);
    assert("InProgress"@[0] != "PlanToRead"@[0]);
}

/// A stored score reads back as the user rating it was written from.
pub proof fn lemma_user_rating_round_trip(r: UserRating)
    ensures
        user_rating_of_value(user_rating_value(r)) == Some(r),
{
}

} // verus!
