//! The work record and the vocabularies its fields are drawn from.

use vstd::prelude::*;

verus! {

/// The reader's own score for a work.
#[derive(Clone, Copy, Debug, PartialEq, Eq, Structural)]
pub enum UserRating {
    One,
    Two,
    Three,
    Four,
    Five,
}

/// Where the reader stands with a work.
#[derive(Clone, Copy, Debug, PartialEq, Eq, Structural)]
pub enum ReadingStatus {
    InProgress,
    Read,
    PlanToRead,
    Paused,
    Abandoned,
}

/// The maturity rating the archive gives a work.
#[derive(Clone, Copy, Debug, PartialEq, Eq, Structural)]
pub enum Rating {
    NotRated,
    General,
    TeenAndUp,
    Mature,
    Explicit,
}

/// The content warnings the archive declares for a work.
#[derive(Clone, Copy, Debug, PartialEq, Eq, Structural)]
pub enum ArchiveWarnings {
    ChooseNotToUse,
    GraphicDepictionsOfViolence,
    MajorCharacterDeath,
    NoArchiveWarningsApply,
    RapeNonCon,
    Underage,
}

/// The relationship categories the archive assigns to a work.
#[derive(Clone, Copy, Debug, PartialEq, Eq, Structural)]
pub enum Categories {
    FF,
    FM,
    MM,
    Gen,
    Other,
    Multi,
}

/// A calendar day; a record's publication dates stand for midnight UTC of it.
#[derive(Clone, Copy, Debug, PartialEq, Eq, Structural)]
pub struct CivilDate {
    pub year: i32,
    pub month: u32,
    pub day: u32,
}

impl CivilDate {
    /// 1970-01-01, the day a date falls back to when none can be read.
    pub fn epoch() -> (r: CivilDate)
        ensures
            r == (CivilDate { year: 1970, month: 1, day: 1 }),
    {
        CivilDate { year: 1970, month: 1, day: 1 }
    }
}

/// A tracked work: what the archive publishes about it, and what the reader
/// keeps about it.
///
/// `last_checked_date` is in seconds since the Unix epoch.
#[derive(Clone, Debug)]
pub struct Fanfiction {
    pub id: u64,
    pub title: String,
    pub authors: Vec<String>,
    pub categories: Option<Vec<Categories>>,
    pub chapters_total: Option<u32>,
    pub chapters_published: u32,
    pub characters: Option<Vec<String>>,
    pub complete: bool,
    pub fandoms: Vec<String>,
    pub hits: u32,
    pub kudos: u32,
    pub language: String,
    pub rating: Rating,
    pub relationships: Option<Vec<String>>,
    pub restricted: bool,
    pub summary: String,
    pub tags: Option<Vec<String>>,
    pub warnings: Vec<ArchiveWarnings>,
    pub words: u32,
    pub date_published: CivilDate,
    pub date_updated: CivilDate,
    pub last_chapter_read: Option<u32>,
    pub reading_status: ReadingStatus,
    pub read_count: u32,
    pub user_rating: Option<UserRating>,
    pub personal_note: Option<String>,
    pub last_checked_date: i64,
}

/// A work is complete when a total is declared, at least one chapter is out,
/// and as many chapters are out as the total declares.
pub open spec fn completion_of(published: u32, total: Option<u32>) -> bool {
    match total {
        Some(t) => published > 0 && published == t,
        None => false,
    }
}

impl Fanfiction {
    /// The record's invariants: no more chapters are out than a declared
    /// total, its completion flag follows from its chapter counts, and its
    /// warning list is never empty.
    pub open spec fn wf(&self) -> bool {
        &&& (self.chapters_total matches Some(t) ==> self.chapters_published <= t)
        &&& self.complete == completion_of(self.chapters_published, self.chapters_total)
        &&& self.warnings@.len() > 0
    }
}

/// Computes whether a work with these chapter counts is complete.
pub fn is_complete(published: u32, total: Option<u32>) -> (r: bool)
    ensures
        r == completion_of(published, total),
{
    match total {
        Some(t) => published > 0 && published == t,
        None => false,
    }
}

} // verus!
