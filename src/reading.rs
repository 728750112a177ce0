//! The reader's own operations on a record: each changes the reader-owned
//! fields it is about and nothing the archive supplies.

use vstd::prelude::*;
use crate::model::{Fanfiction, ReadingStatus, UserRating};
use crate::text::{lower_of, lowercase, text_eq};

verus! {

/// Why a reader's input was refused.
#[derive(Clone, Copy, Debug, PartialEq, Eq, Structural)]
pub enum ReadingError {
    InvalidStatus,
    InvalidRating,
}

impl ReadingError {
    /// A message for the reader that names what was refused.
    pub fn message(&self) -> (r: &'static str)
        ensures
            r@ == match *self {
                ReadingError::InvalidStatus => "Invalid reading status. Valid options are: inprogress, read, plantoread, paused, abandoned"@,
                ReadingError::InvalidRating => "Invalid rating. Valid options are numbers 1-5 or words one through five, or none to remove the rating"@,
            },
    {
        match self {
            ReadingError::InvalidStatus => "Invalid reading status. Valid options are: inprogress, read, plantoread, paused, abandoned",
            ReadingError::InvalidRating => "Invalid rating. Valid options are numbers 1-5 or words one through five, or none to remove the rating",
        }
    }
}

/// The chapter recorded as last read: the requested one, capped at the
/// declared total.
pub open spec fn capped_chapter(total: Option<u32>, requested: u32) -> u32 {
    match total {
        Some(t) => if requested > t {
            t
        } else {
            requested
        },
        None => requested,
    }
}

/// Whether reading up to `requested` finishes a work with this total.
pub open spec fn finishes(total: Option<u32>, requested: u32) -> bool {
    match total {
        Some(t) => capped_chapter(total, requested) >= t,
        None => false,
    }
}

/// The record after the reader marks chapter `requested` as read: finishing
/// the work counts one more read and marks it read; otherwise a planned or
/// paused work becomes in progress.
pub open spec fn after_chapter_read(f: Fanfiction, requested: u32) -> Fanfiction {
    let chapter = capped_chapter(f.chapters_total, requested);
    if finishes(f.chapters_total, requested) {
        Fanfiction {
            last_chapter_read: Some(chapter),
            read_count: (f.read_count + 1) as u32,
            reading_status: ReadingStatus::Read,
            ..f
        }
    } else {
        Fanfiction {
            last_chapter_read: Some(chapter),
            reading_status: match f.reading_status {
                ReadingStatus::PlanToRead => ReadingStatus::InProgress,
                ReadingStatus::Paused => ReadingStatus::InProgress,
                s => s,
            },
            ..f
        }
    }
}

/// Records the last chapter read: see `after_chapter_read`.
pub fn set_last_chapter_read(fic: &mut Fanfiction, new_chapter_count: u32)
    requires
        finishes(old(fic).chapters_total, new_chapter_count) ==> old(fic).read_count < u32::MAX,
    ensures
        *final(fic) == after_chapter_read(*old(fic), new_chapter_count),
{
    let adjusted = match fic.chapters_total {
        Some(total) => if new_chapter_count > total {
            total
        } else {
            new_chapter_count
        },
        None => new_chapter_count,
    };
    fic.last_chapter_read = Some(adjusted);
    let is_final = match fic.chapters_total {
        Some(total) => adjusted >= total,
        None => false,
    };
    if is_final {
        fic.read_count = fic.read_count + 1;
        fic.reading_status = ReadingStatus::Read;
    } else {
        match fic.reading_status {
            ReadingStatus::PlanToRead => fic.reading_status = ReadingStatus::InProgress,
            ReadingStatus::Paused => fic.reading_status = ReadingStatus::InProgress,
            _ => {},
        }
    }
}

/// The record after the reader sets the read count: a count of 0 turns a
/// read work back into a planned one.
pub open spec fn after_read_count(f: Fanfiction, count: u32) -> Fanfiction {
    if count == 0 && f.reading_status == ReadingStatus::Read {
        Fanfiction { read_count: count, reading_status: ReadingStatus::PlanToRead, ..f }
    } else {
        Fanfiction { read_count: count, ..f }
    }
}

/// Sets the read count: see `after_read_count`.
pub fn set_read_count(fic: &mut Fanfiction, new_read_count: u32)
    ensures
        *final(fic) == after_read_count(*old(fic), new_read_count),
{
    fic.read_count = new_read_count;
    if new_read_count == 0 && fic.reading_status == ReadingStatus::Read {
        fic.reading_status = ReadingStatus::PlanToRead;
    }
}

/// The reading status that a lower-case word of the reader's names.
pub open spec fn status_of_word(w: Seq<char>) -> Option<ReadingStatus> {
    if w == "inprogress"@ || w == "in-progress"@ || w == "in_progress"@ || w == "reading"@ {
        Some(ReadingStatus::InProgress)
    } else if w == "read"@ || w == "finished"@ || w == "completed"@ {
        Some(ReadingStatus::Read)
    } else if w == "plantoread"@ || w == "plan-to-read"@ || w == "plan_to_read"@ || w == "plan"@
        || w == "ptr"@ || w == "tbr"@ {
        Some(ReadingStatus::PlanToRead)
    } else if w == "paused"@ {
        Some(ReadingStatus::Paused)
    } else if w == "abandoned"@ {
        Some(ReadingStatus::Abandoned)
    } else {
        None
    }
}

/// Reads a lower-case reading-status word: see `status_of_word`.
pub fn status_of_lower_word(w: &str) -> (r: Option<ReadingStatus>)
    ensures
        r == status_of_word(w@),
{
    if text_eq(w, "inprogress") || text_eq(w, "in-progress") || text_eq(w, "in_progress") || text_eq(w, "reading") {
        Some(ReadingStatus::InProgress)
    } else if text_eq(w, "read") || text_eq(w, "finished") || text_eq(w, "completed") {
        Some(ReadingStatus::Read)
    } else if text_eq(w, "plantoread") || text_eq(w, "plan-to-read") || text_eq(w, "plan_to_read")
        || text_eq(w, "plan") || text_eq(w, "ptr") || text_eq(w, "tbr") {
        Some(ReadingStatus::PlanToRead)
    } else if text_eq(w, "paused") {
        Some(ReadingStatus::Paused)
    } else if text_eq(w, "abandoned") {
        Some(ReadingStatus::Abandoned)
    } else {
        None
    }
}

/// Reads a reading status as the reader types it, in any case.
pub fn parse_status_input(input: &str) -> (r: Option<ReadingStatus>)
    ensures
        r == status_of_word(lower_of(input@)),
{
    let lower = lowercase(input);
    status_of_lower_word(lower.as_str())
}

/// Sets the reading status from the reader's word; an unknown word is refused
/// and changes nothing.
pub fn set_reading_status(fic: &mut Fanfiction, new_status: &str) -> (r: Result<(), ReadingError>)
    ensures
        r is Err <==> status_of_word(lower_of(new_status@)) is None,
        r is Err ==> r->Err_0 == ReadingError::InvalidStatus && *final(fic) == *old(fic),
        r is Ok ==> *final(fic) == (Fanfiction {
            reading_status: status_of_word(lower_of(new_status@))->0,
            ..*old(fic)
        }),
{
    match parse_status_input(new_status) {
        Some(s) => {
            fic.reading_status = s;
            Ok(())
        },
        None => Err(ReadingError::InvalidStatus),
    }
}

/// What a lower-case word of the reader's sets the user rating to: a rating,
/// no rating (to clear it), or nothing when the word is not understood.
pub open spec fn user_rating_of_word(w: Seq<char>) -> Option<Option<UserRating>> {
    if w == "1"@ || w == "one"@ {
        Some(Some(UserRating::One))
    } else if w == "2"@ || w == "two"@ {
        Some(Some(UserRating::Two))
    } else if w == "3"@ || w == "three"@ {
        Some(Some(UserRating::Three))
    } else if w == "4"@ || w == "four"@ {
        Some(Some(UserRating::Four))
    } else if w == "5"@ || w == "five"@ {
        Some(Some(UserRating::Five))
    } else if w == "0"@ || w == "none"@ || w == "clear"@ || w == "remove"@ {
        Some(None)
    } else {
        None
    }
}

/// Reads a lower-case user-rating word: see `user_rating_of_word`.
pub fn user_rating_of_lower_word(w: &str) -> (r: Result<Option<UserRating>, ReadingError>)
    ensures
        r is Err <==> user_rating_of_word(w@) is None,
        r is Err ==> r->Err_0 == ReadingError::InvalidRating,
        r is Ok ==> r->Ok_0 == user_rating_of_word(w@)->0,
{
    if text_eq(w, "1") || text_eq(w, "one") {
        Ok(Some(UserRating::One))
    } else if text_eq(w, "2") || text_eq(w, "two") {
        Ok(Some(UserRating::Two))
    } else if text_eq(w, "3") || text_eq(w, "three") {
        Ok(Some(UserRating::Three))
    } else if text_eq(w, "4") || text_eq(w, "four") {
        Ok(Some(UserRating::Four))
    } else if text_eq(w, "5") || text_eq(w, "five") {
        Ok(Some(UserRating::Five))
    } else if text_eq(w, "0") || text_eq(w, "none") || text_eq(w, "clear") || text_eq(w, "remove") {
        Ok(None)
    } else {
        Err(ReadingError::InvalidRating)
    }
}

/// Reads a user rating as the reader types it, in any case: 1 to 5 as digits
/// or words, or a word that clears the rating.
pub fn parse_user_rating_input(input: &str) -> (r: Result<Option<UserRating>, ReadingError>)
    ensures
        r is Err <==> user_rating_of_word(lower_of(input@)) is None,
        r is Err ==> r->Err_0 == ReadingError::InvalidRating,
        r is Ok ==> r->Ok_0 == user_rating_of_word(lower_of(input@))->0,
{
    let lower = lowercase(input);
    user_rating_of_lower_word(lower.as_str())
}

/// Sets the user rating from the reader's word; an unknown word is refused
/// and changes nothing.
pub fn set_user_rating(fic: &mut Fanfiction, rating_str: &str) -> (r: Result<(), ReadingError>)
    ensures
        r is Err <==> user_rating_of_word(lower_of(rating_str@)) is None,
        r is Err ==> r->Err_0 == ReadingError::InvalidRating && *final(fic) == *old(fic),
        r is Ok ==> *final(fic) == (Fanfiction {
            user_rating: user_rating_of_word(lower_of(rating_str@))->0,
            ..*old(fic)
        }),
{
    match parse_user_rating_input(rating_str) {
        Ok(rating) => {
            fic.user_rating = rating;
            Ok(())
        },
        Err(e) => Err(e),
    }
}

/// Sets or clears the personal note.
pub fn set_personal_note(fic: &mut Fanfiction, note: Option<String>)
    ensures
        *final(fic) == (Fanfiction { personal_note: note, ..*old(fic) }),
{
    fic.personal_note = note;
}

} // verus!
