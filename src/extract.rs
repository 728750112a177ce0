//! Field extraction: from the element texts of a work page to the fields of a
//! candidate record. Every field degrades to a stated default rather than
//! failing the record.

use vstd::prelude::*;
use crate::model::{completion_of, is_complete, ArchiveWarnings, Categories, CivilDate, Fanfiction, Rating, ReadingStatus};
use crate::dates::{date_in, parse_date};
use crate::page::{element_markup_texts, element_texts, select_markup_texts, select_texts, views};
use crate::text::{
    contains, find, first_index, lower_of, lowercase, occurs_at, parse_u32, parse_unsigned, remove_char,
    replace, replace_all, seq_contains, slice, starts_with, trim, trimmed, without_char,
};
use crate::vocab::{category_of, map_category, map_rating, map_warning, rating_label_of, warning_of};

verus! {

/// Whether a title carries a marker of an error page served in place of the
/// work.
pub open spec fn has_error_marker(t: Seq<char>) -> bool {
    occurs_at(t, "archiveofourown.org"@, 0) || seq_contains(t, "SSL handshake failed"@)
        || seq_contains(t, "404"@) || seq_contains(t, "Not Found"@) || seq_contains(t, "Error"@)
}

/// `t` with the common HTML character entities written out.
pub open spec fn unescaped(t: Seq<char>) -> Seq<char> {
    let a = replace_all(t, "&nbsp;"@, " "@);
    let b = replace_all(a, "&amp;"@, "&"@);
    let c = replace_all(b, "&lt;"@, "<"@);
    let d = replace_all(c, "&gt;"@, ">"@);
    let e = replace_all(d, "&#39;"@, "'"@);
    replace_all(e, "&quot;"@, "\""@)
}

/// Whether lower-case text names the archive.
pub open spec fn names_site(lower: Seq<char>) -> bool {
    seq_contains(lower, "archive"@) || seq_contains(lower, "our own"@)
}

/// Whether the text after a `|` names the archive, in any case.
pub open spec fn is_site_suffix(suffix: Seq<char>) -> bool {
    names_site(lower_of(suffix))
}

/// Whether lower-case text names the archive: see `names_site`.
pub fn lower_names_site(lower: &str) -> (r: bool)
    ensures
        r == names_site(lower@),
{
    contains(lower, "archive") || contains(lower, "our own")
}

/// The sentinel for a page on which no title was found.
pub open spec fn unknown_title() -> Seq<char> {
    "Unknown Title"@
}

/// The sentinel for a page whose title marks it as an error page.
pub open spec fn error_title() -> Seq<char> {
    "Unknown Title (Error Loading)"@
}

/// A candidate title, trimmed; the error sentinel if it carries an error
/// marker; otherwise with entities written out and a site suffix after `|`
/// removed.
pub open spec fn cleaned_title(title: Seq<char>) -> Seq<char> {
    let t = trimmed(title);
    if has_error_marker(t) {
        error_title()
    } else {
        let u = unescaped(t);
        match first_index(u, "|"@) {
            Some(i) => if is_site_suffix(u.subrange(i, u.len() as int)) {
                trimmed(u.subrange(0, i))
            } else {
                u
            },
            None => u,
        }
    }
}

/// Cleans a candidate title: see `cleaned_title`.
pub fn clean_title(title: &str) -> (r: String)
    ensures
        r@ == cleaned_title(title@),
{
    let t = trim(title);
    let ts = t.as_str();
    if starts_with(ts, "archiveofourown.org") || contains(ts, "SSL handshake failed") || contains(
        ts,
        "404",
    ) || contains(ts, "Not Found") || contains(ts, "Error") {
        return String::from_str("Unknown Title (Error Loading)");
    }
    let a = replace(ts, "&nbsp;", " ");
    let b = replace(a.as_str(), "&amp;", "&");
    let c = replace(b.as_str(), "&lt;", "<");
    let d = replace(c.as_str(), "&gt;", ">");
    let e = replace(d.as_str(), "&#39;", "'");
    let u = replace(e.as_str(), "&quot;", "\"");
    let us = u.as_str();
    match find(us, "|") {
        Some(i) => {
            let n = us.unicode_len();
            let suffix = slice(us, i, n);
            let lower = lowercase(suffix.as_str());
            if lower_names_site(lower.as_str()) {
                let head = slice(us, 0, i);
                trim(head.as_str())
            } else {
                u
            }
        },
        None => u,
    }
}

/// The title that a page title such as "Title - Author - Fandom [Archive of
/// Our Own]" gives: the cleaned text before the first " - ", or the cleaned
/// whole when it has none; nothing when the page title is empty.
pub open spec fn head_title(full: Seq<char>) -> Option<Seq<char>> {
    match first_index(full, " - "@) {
        Some(p) => Some(cleaned_title(trimmed(full.subrange(0, p)))),
        None => if full.len() > 0 {
            Some(cleaned_title(full))
        } else {
            None
        },
    }
}

/// The title, from the texts of the primary title heading, the page title
/// and the preface title, in that order of preference.
pub open spec fn title_of(primary: Seq<Seq<char>>, head: Seq<Seq<char>>, preface: Seq<Seq<char>>) -> Seq<char> {
    if primary.len() > 0 && trimmed(primary[0]).len() > 0 {
        cleaned_title(trimmed(primary[0]))
    } else if head.len() > 0 && head_title(trimmed(head[0])) is Some {
        head_title(trimmed(head[0]))->0
    } else if preface.len() > 0 && trimmed(preface[0]).len() > 0 {
        cleaned_title(trimmed(preface[0]))
    } else {
        unknown_title()
    }
}

/// Picks the title from the texts of the three places a title may stand.
pub fn title_from_texts(primary: &Vec<String>, head: &Vec<String>, preface: &Vec<String>) -> (r: String)
    ensures
        r@ == title_of(views(primary@), views(head@), views(preface@)),
{
    if primary.len() > 0 {
        let t = trim(primary[0].as_str());
        if t.unicode_len() > 0 {
            return clean_title(t.as_str());
        }
    }
    if head.len() > 0 {
        let full = trim(head[0].as_str());
        let fs = full.as_str();
        match find(fs, " - ") {
            Some(p) => {
                let before = slice(fs, 0, p);
                let tb = trim(before.as_str());
                return clean_title(tb.as_str());
            },
            None => {
                if fs.unicode_len() > 0 {
                    return clean_title(fs);
                }
            },
        }
    }
    if preface.len() > 0 {
        let t = trim(preface[0].as_str());
        if t.unicode_len() > 0 {
            return clean_title(t.as_str());
        }
    }
    String::from_str("Unknown Title")
}

/// Each text with its surrounding white space removed.
pub open spec fn trimmed_all(ts: Seq<Seq<char>>) -> Seq<Seq<char>> {
    ts.map_values(|t: Seq<char>| trimmed(t))
}

/// Trims each of the texts, keeping their order; an empty list stays empty.
pub fn trim_all(texts: &Vec<String>) -> (r: Vec<String>)
    ensures
        views(r@) == trimmed_all(views(texts@)),
{
    let mut r: Vec<String> = Vec::new();
    let mut i: usize = 0;
    while i < texts.len()
        invariant
            i <= texts@.len(),
            r@.len() == i,
            forall|k: int| 0 <= k < i ==> #[trigger] r@[k]@ == trimmed(texts@[k]@),
        decreases texts@.len() - i,
    {
        r.push(trim(texts[i].as_str()));
        i = i + 1;
    }
    assert(views(r@) =~= trimmed_all(views(texts@)));
    r
}

/// A list of tags that may be absent: the trimmed texts, or nothing when no
/// element matched.
pub fn tag_list_from_texts(texts: &Vec<String>) -> (r: Option<Vec<String>>)
    ensures
        (r is None) == (texts@.len() == 0),
        r is Some ==> views(r->0@) == trimmed_all(views(texts@)),
{
    if texts.len() == 0 {
        None
    } else {
        Some(trim_all(texts))
    }
}

/// The summary, from the tag-free texts of the summary block and of its
/// alternative location; a fixed text when neither has any.
pub open spec fn summary_of(primary: Seq<Seq<char>>, alt: Seq<Seq<char>>) -> Seq<char> {
    if primary.len() > 0 && trimmed(primary[0]).len() > 0 {
        trimmed(primary[0])
    } else if alt.len() > 0 && trimmed(alt[0]).len() > 0 {
        trimmed(alt[0])
    } else {
        "No summary available"@
    }
}

/// Picks the summary: see `summary_of`.
pub fn summary_from_texts(primary: &Vec<String>, alt: &Vec<String>) -> (r: String)
    ensures
        r@ == summary_of(views(primary@), views(alt@)),
{
    if primary.len() > 0 {
        let t = trim(primary[0].as_str());
        if t.unicode_len() > 0 {
            return t;
        }
    }
    if alt.len() > 0 {
        let t = trim(alt[0].as_str());
        if t.unicode_len() > 0 {
            return t;
        }
    }
    String::from_str("No summary available")
}

/// The categories that the trimmed texts name, in order; unknown texts are
/// dropped.
pub open spec fn categories_in(ts: Seq<Seq<char>>) -> Seq<Categories>
    decreases ts.len(),
{
    if ts.len() == 0 {
        Seq::empty()
    } else {
        match category_of(trimmed(ts.last())) {
            Some(c) => categories_in(ts.drop_last()).push(c),
            None => categories_in(ts.drop_last()),
        }
    }
}

/// The categories of the category tags; nothing when none is recognised.
pub fn categories_from_texts(texts: &Vec<String>) -> (r: Option<Vec<Categories>>)
    ensures
        (r is None) == (categories_in(views(texts@)).len() == 0),
        r is Some ==> r->0@ == categories_in(views(texts@)),
{
    let ghost ts = views(texts@);
    let mut out: Vec<Categories> = Vec::new();
    let mut i: usize = 0;
    while i < texts.len()
        invariant
            ts == views(texts@),
            i <= texts@.len(),
            out@ == categories_in(ts.subrange(0, i as int)),
        decreases texts@.len() - i,
    {
        assert(ts.subrange(0, i + 1).drop_last() =~= ts.subrange(0, i as int));
        let t = trim(texts[i].as_str());
        match map_category(t.as_str()) {
            Some(c) => out.push(c),
            None => {},
        }
        i = i + 1;
    }
    assert(ts.subrange(0, texts@.len() as int) =~= ts);
    if out.len() == 0 {
        None
    } else {
        Some(out)
    }
}

/// The warnings that the trimmed texts name, in order; unknown texts are
/// dropped.
pub open spec fn warnings_in(ts: Seq<Seq<char>>) -> Seq<ArchiveWarnings>
    decreases ts.len(),
{
    if ts.len() == 0 {
        Seq::empty()
    } else {
        match warning_of(trimmed(ts.last())) {
            Some(w) => warnings_in(ts.drop_last()).push(w),
            None => warnings_in(ts.drop_last()),
        }
    }
}

/// The declared warnings, or the single "no warnings apply" sentinel when
/// none is recognised.
pub open spec fn warnings_of(ts: Seq<Seq<char>>) -> Seq<ArchiveWarnings> {
    if warnings_in(ts).len() == 0 {
        seq![ArchiveWarnings::NoArchiveWarningsApply]
    } else {
        warnings_in(ts)
    }
}

/// The warnings of the warning tags: see `warnings_of`. Never empty.
pub fn warnings_from_texts(texts: &Vec<String>) -> (r: Vec<ArchiveWarnings>)
    ensures
        r@ == warnings_of(views(texts@)),
        r@.len() > 0,
{
    let ghost ts = views(texts@);
    let mut out: Vec<ArchiveWarnings> = Vec::new();
    let mut i: usize = 0;
    while i < texts.len()
        invariant
            ts == views(texts@),
            i <= texts@.len(),
            out@ == warnings_in(ts.subrange(0, i as int)),
        decreases texts@.len() - i,
    {
        assert(ts.subrange(0, i + 1).drop_last() =~= ts.subrange(0, i as int));
        let t = trim(texts[i].as_str());
        match map_warning(t.as_str()) {
            Some(w) => out.push(w),
            None => {},
        }
        i = i + 1;
    }
    assert(ts.subrange(0, texts@.len() as int) =~= ts);
    if out.len() == 0 {
        let mut d: Vec<ArchiveWarnings> = Vec::new();
        d.push(ArchiveWarnings::NoArchiveWarningsApply);
        assert(d@ =~= seq![ArchiveWarnings::NoArchiveWarningsApply]);
        d
    } else {
        out
    }
}

/// The count that `s` writes in decimal, or 0 when it writes none that fits.
pub open spec fn count_or_zero(s: Seq<char>) -> u32 {
    match parse_unsigned(s, u32::MAX as nat) {
        Some(v) => v as u32,
        None => 0,
    }
}

/// Reads a count, giving 0 where the text is no count.
pub fn parse_count(s: &str) -> (r: u32)
    ensures
        r == count_or_zero(s@),
{
    match parse_u32(s) {
        Some(v) => v,
        None => 0,
    }
}

/// A statistic as the page writes it, with thousands separators: its value,
/// or 0 when it cannot be read.
pub open spec fn stat_value(t: Seq<char>) -> u32 {
    count_or_zero(without_char(t, ','))
}

/// Reads a statistic such as "2,295": the separators are dropped before the
/// digits are read, and unreadable text gives 0.
pub fn parse_stat(text: &str) -> (r: u32)
    ensures
        r == stat_value(text@),
{
    let cleaned = remove_char(text, ',');
    parse_count(cleaned.as_str())
}

/// A statistic from the texts of its element: the first one, trimmed, or 0
/// when no element matched.
pub open spec fn stat_of(ts: Seq<Seq<char>>) -> u32 {
    if ts.len() > 0 {
        stat_value(trimmed(ts[0]))
    } else {
        0
    }
}

/// Reads a statistic from the texts of its element: see `stat_of`.
pub fn stat_from_texts(texts: &Vec<String>) -> (r: u32)
    ensures
        r == stat_of(views(texts@)),
{
    if texts.len() > 0 {
        let t = trim(texts[0].as_str());
        parse_stat(t.as_str())
    } else {
        0
    }
}

/// The chapter counts that a "published/total" text gives: the published
/// count (0 when unreadable), the declared total (absent when missing,
/// unreadable or 0, as for "?", and when it is below the published count),
/// and whether the work is complete.
pub open spec fn chapters_in(t: Seq<char>) -> (u32, Option<u32>, bool) {
    match first_index(t, "/"@) {
        None => (count_or_zero(t), None, false),
        Some(i) => {
            let rest = t.subrange(i + 1, t.len() as int);
            let second = match first_index(rest, "/"@) {
                Some(j) => rest.subrange(0, j),
                None => rest,
            };
            let published = count_or_zero(t.subrange(0, i));
            let total = count_or_zero(second);
            let declared = if total == 0 || total < published {
                None
            } else {
                Some(total)
            };
            (published, declared, completion_of(published, declared))
        },
    }
}

/// Reads chapter counts from a "published/total" text: see `chapters_in`.
pub fn parse_chapters(text: &str) -> (r: (u32, Option<u32>, bool))
    ensures
        r == chapters_in(text@),
{
    let n = text.unicode_len();
    match find(text, "/") {
        None => (parse_count(text), None, false),
        Some(i) => {
            proof {
                reveal_strlit("/");
            }
            let first = slice(text, 0, i);
            let rest = slice(text, i + 1, n);
            let rs = rest.as_str();
            let published = parse_count(first.as_str());
            let total = match find(rs, "/") {
                Some(j) => {
                    let second = slice(rs, 0, j);
                    parse_count(second.as_str())
                },
                None => parse_count(rs),
            };
            let declared = if total == 0 || total < published {
                None
            } else {
                Some(total)
            };
            (published, declared, is_complete(published, declared))
        },
    }
}

/// The chapter counts from the texts of the chapters element: its first text,
/// trimmed, or "0/0" when none matched.
pub open spec fn chapters_of(ts: Seq<Seq<char>>) -> (u32, Option<u32>, bool) {
    if ts.len() > 0 {
        chapters_in(trimmed(ts[0]))
    } else {
        chapters_in("0/0"@)
    }
}

/// Reads chapter counts from the texts of the chapters element.
pub fn chapters_from_texts(texts: &Vec<String>) -> (r: (u32, Option<u32>, bool))
    ensures
        r == chapters_of(views(texts@)),
        r.2 == completion_of(r.0, r.1),
        r.1 matches Some(t) ==> r.0 <= t,
{
    if texts.len() > 0 {
        let t = trim(texts[0].as_str());
        parse_chapters(t.as_str())
    } else {
        parse_chapters("0/0")
    }
}

/// The first text trimmed, or `default` when no element matched.
pub open spec fn first_or(ts: Seq<Seq<char>>, default: Seq<char>) -> Seq<char> {
    if ts.len() > 0 {
        trimmed(ts[0])
    } else {
        default
    }
}

/// The language, or "English" when the page gives none.
pub fn language_from_texts(texts: &Vec<String>) -> (r: String)
    ensures
        r@ == first_or(views(texts@), "English"@),
{
    if texts.len() > 0 {
        trim(texts[0].as_str())
    } else {
        String::from_str("English")
    }
}

/// The rating that the rating tag names; unrated when there is none or it is
/// not recognised.
pub open spec fn rating_of_texts(ts: Seq<Seq<char>>) -> Rating {
    if ts.len() > 0 {
        rating_label_of(trimmed(ts[0]))
    } else {
        Rating::NotRated
    }
}

/// Reads the rating from the texts of the rating tag: see `rating_of_texts`.
pub fn rating_from_texts(texts: &Vec<String>) -> (r: Rating)
    ensures
        r == rating_of_texts(views(texts@)),
{
    if texts.len() > 0 {
        let t = trim(texts[0].as_str());
        map_rating(t.as_str())
    } else {
        Rating::NotRated
    }
}

/// Whether a lower-case notice says that the work is shown to registered
/// users only.
pub open spec fn lower_notice_restricts(lower: Seq<char>) -> bool {
    seq_contains(lower, "only available to registered users"@) || seq_contains(
        lower,
        "restricted to archive users"@,
    )
}

/// Whether a notice, in any case, says that the work is shown to registered
/// users only.
pub open spec fn notice_restricts(t: Seq<char>) -> bool {
    lower_notice_restricts(lower_of(t))
}

/// Whether a lower-case notice marks the work as restricted: see
/// `lower_notice_restricts`.
pub fn lower_notice_marks_restricted(lower: &str) -> (r: bool)
    ensures
        r == lower_notice_restricts(lower@),
{
    contains(lower, "only available to registered users") || contains(lower, "restricted to archive users")
}

/// Whether any of the notices says that the work is restricted.
pub open spec fn restricted_of(ts: Seq<Seq<char>>) -> bool {
    exists|i: int| 0 <= i < ts.len() && notice_restricts(#[trigger] ts[i])
}

/// Whether any of the notice texts marks the work as restricted to
/// registered users.
pub fn restricted_from_texts(texts: &Vec<String>) -> (r: bool)
    ensures
        r == restricted_of(views(texts@)),
{
    let ghost ts = views(texts@);
    let mut i: usize = 0;
    while i < texts.len()
        invariant
            ts == views(texts@),
            i <= texts@.len(),
            forall|k: int| 0 <= k < i ==> !notice_restricts(#[trigger] ts[k]),
        decreases texts@.len() - i,
    {
        let lower = lowercase(texts[i].as_str());
        if lower_notice_marks_restricted(lower.as_str()) {
            assert(notice_restricts(ts[i as int]));
            return true;
        }
        i = i + 1;
    }
    false
}

/// The publication and update dates from the texts of their elements: an
/// unreadable publication date falls back to the Unix epoch, an unreadable
/// update date to the publication date.
pub open spec fn dates_of(published: Seq<Seq<char>>, updated: Seq<Seq<char>>) -> (CivilDate, CivilDate) {
    let p = if published.len() > 0 && date_in(trimmed(published[0])) is Some {
        date_in(trimmed(published[0]))->0
    } else {
        CivilDate { year: 1970, month: 1, day: 1 }
    };
    let u = if updated.len() > 0 && date_in(trimmed(updated[0])) is Some {
        date_in(trimmed(updated[0]))->0
    } else {
        p
    };
    (p, u)
}

/// Reads the publication and update dates: see `dates_of`.
pub fn dates_from_texts(published: &Vec<String>, updated: &Vec<String>) -> (r: (CivilDate, CivilDate))
    ensures
        r == dates_of(views(published@), views(updated@)),
{
    let mut p = CivilDate::epoch();
    if published.len() > 0 {
        let t = trim(published[0].as_str());
        match parse_date(t.as_str()) {
            Some(d) => {
                p = d;
            },
            None => {},
        }
    }
    let mut u = p;
    if updated.len() > 0 {
        let t = trim(updated[0].as_str());
        match parse_date(t.as_str()) {
            Some(d) => {
                u = d;
            },
            None => {},
        }
    }
    (p, u)
}

/// Reads the fields of a work from the markup of its page on the archive.
pub struct Ao3Parser;

impl Ao3Parser {
    /// The title: see `title_of`.
    pub fn extract_title(&self, page: &str) -> (r: String)
        ensures
            r@ == title_of(
                element_texts(page@, "h2.title.heading"@),
                element_texts(page@, "head > title"@),
                element_texts(page@, ".preface .title"@),
            ),
    {
        let primary = select_texts(page, "h2.title.heading");
        let head = select_texts(page, "head > title");
        let preface = select_texts(page, ".preface .title");
        title_from_texts(&primary, &head, &preface)
    }

    /// The author names of the byline, trimmed; possibly none.
    pub fn extract_authors(&self, page: &str) -> (r: Vec<String>)
        ensures
            views(r@) == trimmed_all(element_texts(page@, "h3.byline.heading a[rel=\"author\"]"@)),
    {
        let texts = select_texts(page, "h3.byline.heading a[rel=\"author\"]");
        trim_all(&texts)
    }

    /// The summary, without its inner markup: see `summary_of`.
    pub fn extract_summary(&self, page: &str) -> (r: String)
        ensures
            r@ == summary_of(
                element_markup_texts(page@, "div.summary.module blockquote.userstuff"@),
                element_markup_texts(page@, ".preface .summary"@),
            ),
    {
        let primary = select_markup_texts(page, "div.summary.module blockquote.userstuff");
        let alt = select_markup_texts(page, ".preface .summary");
        summary_from_texts(&primary, &alt)
    }

    /// The recognised categories; nothing when there is none.
    pub fn extract_categories(&self, page: &str) -> (r: Option<Vec<Categories>>)
        ensures
            (r is None) == (categories_in(element_texts(page@, "dd.category.tags a.tag"@)).len() == 0),
            r is Some ==> r->0@ == categories_in(element_texts(page@, "dd.category.tags a.tag"@)),
    {
        let texts = select_texts(page, "dd.category.tags a.tag");
        categories_from_texts(&texts)
    }

    /// The chapter counts and the completion flag: see `chapters_of`.
    pub fn extract_chapters(&self, page: &str) -> (r: (u32, Option<u32>, bool))
        ensures
            r == chapters_of(element_texts(page@, "dd.chapters"@)),
            r.2 == completion_of(r.0, r.1),
            r.1 matches Some(t) ==> r.0 <= t,
    {
        let texts = select_texts(page, "dd.chapters");
        chapters_from_texts(&texts)
    }

    /// The fandom tags, trimmed; possibly none.
    pub fn extract_fandoms(&self, page: &str) -> (r: Vec<String>)
        ensures
            views(r@) == trimmed_all(element_texts(page@, "dd.fandom.tags a.tag"@)),
    {
        let texts = select_texts(page, "dd.fandom.tags a.tag");
        trim_all(&texts)
    }

    /// Hits, kudos and words: see `stat_of`.
    pub fn extract_stats(&self, page: &str) -> (r: (u32, u32, u32))
        ensures
            r.0 == stat_of(element_texts(page@, "dd.hits"@)),
            r.1 == stat_of(element_texts(page@, "dd.kudos"@)),
            r.2 == stat_of(element_texts(page@, "dd.words"@)),
    {
        let hits = select_texts(page, "dd.hits");
        let kudos = select_texts(page, "dd.kudos");
        let words = select_texts(page, "dd.words");
        (stat_from_texts(&hits), stat_from_texts(&kudos), stat_from_texts(&words))
    }

    /// The language, "English" when the page gives none.
    pub fn extract_language(&self, page: &str) -> (r: String)
        ensures
            r@ == first_or(element_texts(page@, "dd.language"@), "English"@),
    {
        let texts = select_texts(page, "dd.language");
        language_from_texts(&texts)
    }

    /// The rating: see `rating_of_texts`.
    pub fn extract_rating(&self, page: &str) -> (r: Rating)
        ensures
            r == rating_of_texts(element_texts(page@, "dd.rating.tags a.tag"@)),
    {
        let texts = select_texts(page, "dd.rating.tags a.tag");
        rating_from_texts(&texts)
    }

    /// The warnings: see `warnings_of`. Never empty.
    pub fn extract_warnings(&self, page: &str) -> (r: Vec<ArchiveWarnings>)
        ensures
            r@ == warnings_of(element_texts(page@, "dd.warning.tags a.tag"@)),
            r@.len() > 0,
    {
        let texts = select_texts(page, "dd.warning.tags a.tag");
        warnings_from_texts(&texts)
    }

    /// The relationship tags, trimmed; nothing when there is none.
    pub fn extract_relationships(&self, page: &str) -> (r: Option<Vec<String>>)
        ensures
            (r is None) == (element_texts(page@, "dd.relationship.tags a.tag"@).len() == 0),
            r is Some ==> views(r->0@) == trimmed_all(element_texts(page@, "dd.relationship.tags a.tag"@)),
    {
        let texts = select_texts(page, "dd.relationship.tags a.tag");
        tag_list_from_texts(&texts)
    }

    /// The character tags, trimmed; nothing when there is none.
    pub fn extract_characters(&self, page: &str) -> (r: Option<Vec<String>>)
        ensures
            (r is None) == (element_texts(page@, "dd.character.tags a.tag"@).len() == 0),
            r is Some ==> views(r->0@) == trimmed_all(element_texts(page@, "dd.character.tags a.tag"@)),
    {
        let texts = select_texts(page, "dd.character.tags a.tag");
        tag_list_from_texts(&texts)
    }

    /// The freeform tags, trimmed; nothing when there is none.
    pub fn extract_tags(&self, page: &str) -> (r: Option<Vec<String>>)
        ensures
            (r is None) == (element_texts(page@, "dd.freeform.tags a.tag"@).len() == 0),
            r is Some ==> views(r->0@) == trimmed_all(element_texts(page@, "dd.freeform.tags a.tag"@)),
    {
        let texts = select_texts(page, "dd.freeform.tags a.tag");
        tag_list_from_texts(&texts)
    }

    /// The publication and update dates: see `dates_of`.
    pub fn extract_dates(&self, page: &str) -> (r: (CivilDate, CivilDate))
        ensures
            r == dates_of(element_texts(page@, "dd.published"@), element_texts(page@, "dd.status"@)),
    {
        let published = select_texts(page, "dd.published");
        let updated = select_texts(page, "dd.status");
        dates_from_texts(&published, &updated)
    }

    /// Whether a notice marks the work as shown to registered users only.
    pub fn extract_restricted(&self, page: &str) -> (r: bool)
        ensures
            r == restricted_of(element_texts(page@, "p.notice"@)),
    {
        let texts = select_texts(page, "p.notice");
        restricted_from_texts(&texts)
    }

    /// The candidate record for work `fic_id` from the markup of its page,
    /// checked at `checked_at` (seconds since the Unix epoch). Each field is
    /// what its own extraction gives; the reader's fields hold their defaults.
    pub fn extract_fanfiction(&self, fic_id: u64, page: &str, checked_at: i64) -> (r: Fanfiction)
        ensures
            r.wf(),
            r.id == fic_id,
            r.title@ == title_of(
                element_texts(page@, "h2.title.heading"@),
                element_texts(page@, "head > title"@),
                element_texts(page@, ".preface .title"@),
            ),
            views(r.authors@) == trimmed_all(element_texts(page@, "h3.byline.heading a[rel=\"author\"]"@)),
            r.summary@ == summary_of(
                element_markup_texts(page@, "div.summary.module blockquote.userstuff"@),
                element_markup_texts(page@, ".preface .summary"@),
            ),
            (r.categories is None) == (categories_in(element_texts(page@, "dd.category.tags a.tag"@)).len() == 0),
            r.categories is Some ==> r.categories->0@ == categories_in(element_texts(page@, "dd.category.tags a.tag"@)),
            (r.chapters_published, r.chapters_total, r.complete) == chapters_of(element_texts(page@, "dd.chapters"@)),
            views(r.fandoms@) == trimmed_all(element_texts(page@, "dd.fandom.tags a.tag"@)),
            r.hits == stat_of(element_texts(page@, "dd.hits"@)),
            r.kudos == stat_of(element_texts(page@, "dd.kudos"@)),
            r.words == stat_of(element_texts(page@, "dd.words"@)),
            r.language@ == first_or(element_texts(page@, "dd.language"@), "English"@),
            r.rating == rating_of_texts(element_texts(page@, "dd.rating.tags a.tag"@)),
            r.warnings@ == warnings_of(element_texts(page@, "dd.warning.tags a.tag"@)),
            (r.relationships is None) == (element_texts(page@, "dd.relationship.tags a.tag"@).len() == 0),
            r.relationships is Some ==> views(r.relationships->0@) == trimmed_all(element_texts(page@, "dd.relationship.tags a.tag"@)),
            (r.characters is None) == (element_texts(page@, "dd.character.tags a.tag"@).len() == 0),
            r.characters is Some ==> views(r.characters->0@) == trimmed_all(element_texts(page@, "dd.character.tags a.tag"@)),
            (r.tags is None) == (element_texts(page@, "dd.freeform.tags a.tag"@).len() == 0),
            r.tags is Some ==> views(r.tags->0@) == trimmed_all(element_texts(page@, "dd.freeform.tags a.tag"@)),
            (r.date_published, r.date_updated) == dates_of(element_texts(page@, "dd.published"@), element_texts(page@, "dd.status"@)),
            r.restricted == restricted_of(element_texts(page@, "p.notice"@)),
            r.last_chapter_read is None,
            r.reading_status == ReadingStatus::PlanToRead,
            r.read_count == 0,
            r.user_rating is None,
            r.personal_note is None,
            r.last_checked_date == checked_at,
    {
        let restricted = self.extract_restricted(page);
        let title = self.extract_title(page);
        let authors = self.extract_authors(page);
        let summary = self.extract_summary(page);
        let categories = self.extract_categories(page);
        let (chapters_published, chapters_total, complete) = self.extract_chapters(page);
        let fandoms = self.extract_fandoms(page);
        let (hits, kudos, words) = self.extract_stats(page);
        let language = self.extract_language(page);
        let rating = self.extract_rating(page);
        let warnings = self.extract_warnings(page);
        let relationships = self.extract_relationships(page);
        let characters = self.extract_characters(page);
        let tags = self.extract_tags(page);
        let (date_published, date_updated) = self.extract_dates(page);
        Fanfiction {
            id: fic_id,
            title,
            authors,
            categories,
            chapters_total,
            chapters_published,
            characters,
            complete,
            fandoms,
            hits,
            kudos,
            language,
            rating,
            relationships,
            restricted,
            summary,
            tags,
            warnings,
            words,
            date_published,
            date_updated,
            last_chapter_read: None,
            reading_status: ReadingStatus::PlanToRead,
            read_count: 0,
            user_rating: None,
            personal_note: None,
            last_checked_date: checked_at,
        }
    }
}

} // verus!
