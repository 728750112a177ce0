//! Reconciliation: merging a freshly fetched record into a stored one without
//! touching what the reader owns.

use vstd::prelude::*;
use crate::model::Fanfiction;

verus! {

/// Whether two records agree on every field that the archive supplies.
pub open spec fn same_site_fields(a: Fanfiction, b: Fanfiction) -> bool {
    &&& a.title == b.title
    &&& a.authors == b.authors
    &&& a.categories == b.categories
    &&& a.chapters_total == b.chapters_total
    &&& a.chapters_published == b.chapters_published
    &&& a.characters == b.characters
    &&& a.complete == b.complete
    &&& a.fandoms == b.fandoms
    &&& a.hits == b.hits
    &&& a.kudos == b.kudos
    &&& a.language == b.language
    &&& a.rating == b.rating
    &&& a.relationships == b.relationships
    &&& a.restricted == b.restricted
    &&& a.summary == b.summary
    &&& a.tags == b.tags
    &&& a.warnings == b.warnings
    &&& a.words == b.words
    &&& a.date_published == b.date_published
    &&& a.date_updated == b.date_updated
}

/// Whether two records agree on every field that the reader owns.
pub open spec fn same_user_fields(a: Fanfiction, b: Fanfiction) -> bool {
    &&& a.last_chapter_read == b.last_chapter_read
    &&& a.reading_status == b.reading_status
    &&& a.read_count == b.read_count
    &&& a.user_rating == b.user_rating
    &&& a.personal_note == b.personal_note
}

/// The record to keep after a sync checked at `checked_at`: the stored
/// record's identity and reader fields, the fetched record's archive fields.
pub open spec fn merged(stored: Fanfiction, fetched: Fanfiction, checked_at: i64) -> Fanfiction {
    Fanfiction {
        id: stored.id,
        title: fetched.title,
        authors: fetched.authors,
        categories: fetched.categories,
        chapters_total: fetched.chapters_total,
        chapters_published: fetched.chapters_published,
        characters: fetched.characters,
        complete: fetched.complete,
        fandoms: fetched.fandoms,
        hits: fetched.hits,
        kudos: fetched.kudos,
        language: fetched.language,
        rating: fetched.rating,
        relationships: fetched.relationships,
        restricted: fetched.restricted,
        summary: fetched.summary,
        tags: fetched.tags,
        warnings: fetched.warnings,
        words: fetched.words,
        date_published: fetched.date_published,
        date_updated: fetched.date_updated,
        last_chapter_read: stored.last_chapter_read,
        reading_status: stored.reading_status,
        read_count: stored.read_count,
        user_rating: stored.user_rating,
        personal_note: stored.personal_note,
        last_checked_date: checked_at,
    }
}

/// Whether a fetch brings chapters that the stored record does not have.
pub open spec fn has_new_content(stored: Fanfiction, fetched: Fanfiction) -> bool {
    fetched.chapters_published > stored.chapters_published
}

/// Merges a fetched record into the stored one (see `merged`) and says whether
/// it brought new chapters. Never fails.
pub fn reconcile(stored: Fanfiction, fetched: Fanfiction, checked_at: i64) -> (r: (bool, Fanfiction))
    ensures
        r.0 == has_new_content(stored, fetched),
        r.1 == merged(stored, fetched, checked_at),
        fetched.wf() ==> r.1.wf(),
{
    let has_new_chapters = fetched.chapters_published > stored.chapters_published;
    let mut current = stored;
    current.title = fetched.title;
    current.authors = fetched.authors;
    current.categories = fetched.categories;
    current.chapters_total = fetched.chapters_total;
    current.chapters_published = fetched.chapters_published;
    current.characters = fetched.characters;
    current.complete = fetched.complete;
    current.fandoms = fetched.fandoms;
    current.hits = fetched.hits;
    current.kudos = fetched.kudos;
    current.language = fetched.language;
    current.rating = fetched.rating;
    current.relationships = fetched.relationships;
    current.restricted = fetched.restricted;
    current.summary = fetched.summary;
    current.tags = fetched.tags;
    current.warnings = fetched.warnings;
    current.words = fetched.words;
    current.date_published = fetched.date_published;
    current.date_updated = fetched.date_updated;
    current.last_checked_date = checked_at;
    (has_new_chapters, current)
}

/// Re-syncing a record against a fetch whose archive fields equal the stored
/// ones reports no new content and changes nothing but the check time.
pub proof fn lemma_resync_idempotent(stored: Fanfiction, fetched: Fanfiction, checked_at: i64)
    requires
        same_site_fields(stored, fetched),
    ensures
        !has_new_content(stored, fetched),
        merged(stored, fetched, checked_at) == (Fanfiction { last_checked_date: checked_at, ..stored }),
{
}

/// Reconciliation leaves every field that the reader owns as it was stored,
/// whatever was fetched.
pub proof fn lemma_user_fields_preserved(stored: Fanfiction, fetched: Fanfiction, checked_at: i64)
    ensures
        same_user_fields(merged(stored, fetched, checked_at), stored),
        merged(stored, fetched, checked_at).id == stored.id,
{
}

} // verus!
