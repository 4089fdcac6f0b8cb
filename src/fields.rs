//! The derived fields of a content record: title, slug, date, tags and the menu flag,
//! each read from the header with its fallback.
use vstd::prelude::*;
use chrono::{Datelike, Timelike};
use frontmatter_gen::Frontmatter;
use crate::meta::{front_entries, header_get, MetaValue};
use crate::text::{
    first_line, drop_front, segments, split_trimmed, trim_char, trimmed, trimmed_of, heading_text,
};

verus! {

/// A calendar date and time of day, ordered field by field.
#[derive(PartialEq, Eq, Structural, Clone, Copy, Debug)]
pub struct Stamp {
    pub year: i32,
    pub month: u32,
    pub day: u32,
    pub hour: u32,
    pub minute: u32,
    pub second: u32,
    pub nanosecond: u32,
}

/// The strict order of stamps: earlier first.
pub open spec fn stamp_before(a: Stamp, b: Stamp) -> bool {
    if a.year != b.year {
        a.year < b.year
    } else if a.month != b.month {
        a.month < b.month
    } else if a.day != b.day {
        a.day < b.day
    } else if a.hour != b.hour {
        a.hour < b.hour
    } else if a.minute != b.minute {
        a.minute < b.minute
    } else if a.second != b.second {
        a.second < b.second
    } else {
        a.nanosecond < b.nanosecond
    }
}

/// Whether `a` is strictly earlier than `b`.
pub fn is_earlier(a: &Stamp, b: &Stamp) -> (r: bool)
    ensures
        r == stamp_before(*a, *b),
{
    if a.year != b.year {
        a.year < b.year
    } else if a.month != b.month {
        a.month < b.month
    } else if a.day != b.day {
        a.day < b.day
    } else if a.hour != b.hour {
        a.hour < b.hour
    } else if a.minute != b.minute {
        a.minute < b.minute
    } else if a.second != b.second {
        a.second < b.second
    } else {
        a.nanosecond < b.nanosecond
    }
}

/// What `NaiveDateTime::parse_from_str(s, fmt)` yields, field by field.
pub uninterp spec fn datetime_parsed(s: Seq<char>, fmt: Seq<char>) -> Option<Stamp>;

/// What `NaiveDate::parse_from_str(s, fmt)` yields, as year, month and day.
pub uninterp spec fn day_parsed(s: Seq<char>, fmt: Seq<char>) -> Option<(i32, u32, u32)>;

/// Relies on `chrono::NaiveDateTime::parse_from_str`: the date and time that `s`
/// spells in the format `fmt`, or `None`.
#[verifier::external_body]
fn parse_datetime(s: &str, fmt: &str) -> (r: Option<Stamp>)
    ensures
        r == datetime_parsed(s@, fmt@),
{
    match chrono::NaiveDateTime::parse_from_str(s, fmt) {
        Ok(d) => Some(Stamp {
            year: d.year(),
            month: d.month(),
            day: d.day(),
            hour: d.hour(),
            minute: d.minute(),
            second: d.second(),
            nanosecond: d.nanosecond(),
        }),
        Err(_) => None,
    }
}

/// Relies on `chrono::NaiveDate::parse_from_str`: the date that `s` spells in the
/// format `fmt`, or `None`.
#[verifier::external_body]
fn parse_day(s: &str, fmt: &str) -> (r: Option<(i32, u32, u32)>)
    ensures
        r == day_parsed(s@, fmt@),
{
    match chrono::NaiveDate::parse_from_str(s, fmt) {
        Ok(d) => Some((d.year(), d.month(), d.day())),
        Err(_) => None,
    }
}

/// The first of the three readings that succeeds; a bare date is taken at midnight.
pub open spec fn first_reading(
    full: Option<Stamp>,
    short: Option<Stamp>,
    day: Option<(i32, u32, u32)>,
) -> Option<Stamp> {
    if full is Some {
        full
    } else if short is Some {
        short
    } else {
        match day {
            Some(d) => Some(
                Stamp {
                    year: d.0,
                    month: d.1,
                    day: d.2,
                    hour: 0,
                    minute: 0,
                    second: 0,
                    nanosecond: 0,
                },
            ),
            None => None,
        }
    }
}

/// A date's text read as `%Y-%m-%d %H:%M:%S`, else `%Y-%m-%d %H:%M`, else `%Y-%m-%d`.
pub open spec fn date_reading(s: Seq<char>) -> Option<Stamp> {
    first_reading(
        datetime_parsed(s, "%Y-%m-%d %H:%M:%S"@),
        datetime_parsed(s, "%Y-%m-%d %H:%M"@),
        day_parsed(s, "%Y-%m-%d"@),
    )
}

/// Picks the first of the three readings of a date's text that succeeded.
pub fn pick_date(full: Option<Stamp>, short: Option<Stamp>, day: Option<(i32, u32, u32)>) -> (r:
    Option<Stamp>)
    ensures
        r == first_reading(full, short, day),
{
    if full.is_some() {
        full
    } else if short.is_some() {
        short
    } else {
        match day {
            Some(d) => Some(
                Stamp { year: d.0, month: d.1, day: d.2, hour: 0, minute: 0, second: 0, nanosecond: 0 },
            ),
            None => None,
        }
    }
}

/// Reads a date's text in the three accepted formats, in order.
pub fn parse_date(s: &str) -> (r: Option<Stamp>)
    ensures
        r == date_reading(s@),
{
    let full = parse_datetime(s, "%Y-%m-%d %H:%M:%S");
    if full.is_some() {
        return pick_date(full, None, None);
    }
    let short = parse_datetime(s, "%Y-%m-%d %H:%M");
    if short.is_some() {
        return pick_date(full, short, None);
    }
    let day = parse_day(s, "%Y-%m-%d");
    pick_date(full, short, day)
}

/// Why a source file yields no record.
pub enum SiteError {
    /// The header could not be parsed.
    Frontmatter,
    /// No slug is given and the path has no file name to take one from.
    NoFileStem,
    /// The `date` value is not a string.
    DateNotText,
    /// The `date` string is in none of the accepted formats; it holds that string.
    InvalidDate(String),
    /// The `show_in_menu` value is not a boolean.
    MenuNotBool,
}

/// The title: a string `title` value, else the first line of the markdown body
/// with its leading `#` marks and surrounding white space removed.
pub open spec fn title_of(v: Option<MetaValue>, markdown: Seq<char>) -> Seq<char> {
    match v {
        Some(MetaValue::Text(t)) => t@,
        _ => trimmed(drop_front(first_line(markdown), Some('#'))),
    }
}

/// The slug: a string `slug` value, else the file stem.
pub open spec fn slug_of(v: Option<MetaValue>, stem: Option<Seq<char>>) -> Option<Seq<char>> {
    match v {
        Some(MetaValue::Text(s)) => Some(s@),
        _ => stem,
    }
}

/// The date: none without a `date` value, else its reading, which must succeed.
pub open spec fn date_of(v: Option<MetaValue>) -> Result<Option<Stamp>, SiteError> {
    match v {
        None => Ok(None),
        Some(MetaValue::Text(s)) => match date_reading(s@) {
            Some(t) => Ok(Some(t)),
            None => Err(SiteError::InvalidDate(s)),
        },
        Some(_) => Err(SiteError::DateNotText),
    }
}

/// The tags: each item of a sequence with its double quotes removed, or each
/// trimmed piece of a comma-separated string; none otherwise.
pub open spec fn tags_of(v: Option<MetaValue>) -> Seq<Seq<char>> {
    match v {
        Some(MetaValue::List(items)) => items@.map_values(|x: String| trimmed_of(x@, '"')),
        Some(MetaValue::Text(s)) => segments(s@).map_values(|g: Seq<char>| trimmed(g)),
        _ => Seq::empty(),
    }
}

/// The menu flag: false without a `show_in_menu` value, else that value, which
/// must be a boolean.
pub open spec fn menu_of(v: Option<MetaValue>) -> Result<bool, SiteError> {
    match v {
        None => Ok(false),
        Some(MetaValue::Flag(b)) => Ok(b),
        Some(_) => Err(SiteError::MenuNotBool),
    }
}

/// The views of a list of strings.
pub open spec fn texts(v: Vec<String>) -> Seq<Seq<char>> {
    v@.map_values(|x: String| x@)
}

/// The view of an optional string.
pub open spec fn opt_text(v: Option<String>) -> Option<Seq<char>> {
    match v {
        Some(s) => Some(s@),
        None => None,
    }
}

pub fn title_from(v: &Option<MetaValue>, markdown: &str) -> (r: String)
    ensures
        r@ == title_of(*v, markdown@),
{
    match v {
        Some(MetaValue::Text(t)) => t.clone(),
        _ => heading_text(markdown),
    }
}

pub fn slug_from(v: &Option<MetaValue>, stem: Option<String>) -> (r: Option<String>)
    ensures
        opt_text(r) == slug_of(*v, opt_text(stem)),
{
    match v {
        Some(MetaValue::Text(s)) => Some(s.clone()),
        _ => stem,
    }
}

pub fn date_from(v: &Option<MetaValue>) -> (r: Result<Option<Stamp>, SiteError>)
    ensures
        r == date_of(*v),
{
    match v {
        None => Ok(None),
        Some(MetaValue::Text(s)) => match parse_date(s.as_str()) {
            Some(t) => Ok(Some(t)),
            None => Err(SiteError::InvalidDate(s.clone())),
        },
        Some(_) => Err(SiteError::DateNotText),
    }
}

pub fn tags_from(v: &Option<MetaValue>) -> (r: Vec<String>)
    ensures
        texts(r) == tags_of(*v),
{
    match v {
        Some(MetaValue::List(items)) => {
            let mut r: Vec<String> = Vec::new();
            let mut i: usize = 0;
            while i < items.len()
                invariant
                    i <= items@.len(),
                    r@.len() == i,
                    forall|k: int| 0 <= k < i ==> #[trigger] r@[k]@ == trimmed_of(items@[k]@, '"'),
                decreases items@.len() - i,
            {
                r.push(trim_char(items[i].as_str(), '"'));
                i = i + 1;
            }
            assert(texts(r) =~= items@.map_values(|x: String| trimmed_of(x@, '"')));
            r
        },
        Some(MetaValue::Text(s)) => split_trimmed(s.as_str()),
        _ => {
            let r: Vec<String> = Vec::new();
            assert(texts(r) =~= Seq::empty());
            r
        },
    }
}

pub fn menu_from(v: &Option<MetaValue>) -> (r: Result<bool, SiteError>)
    ensures
        r == menu_of(*v),
{
    match v {
        None => Ok(false),
        Some(MetaValue::Flag(b)) => Ok(*b),
        Some(_) => Err(SiteError::MenuNotBool),
    }
}

/// What `Path::file_stem` yields for a path, as text.
pub uninterp spec fn stem_of(path: Seq<char>) -> Option<Seq<char>>;

/// Relies on `std::path::Path::file_stem`: the file name without its extension.
#[verifier::external_body]
fn file_stem(path: &str) -> (r: Option<String>)
    ensures
        opt_text(r) == stem_of(path@),
{
    std::path::Path::new(path).file_stem().and_then(|s| s.to_str()).map(|s| s.to_string())
}

pub fn get_title(f: &Frontmatter, markdown: &str) -> (r: String)
    ensures
        r@ == title_of(front_entries(*f).get("title"@), markdown@),
{
    title_from(&header_get(f, "title"), markdown)
}

pub fn get_slug(f: &Frontmatter, path: &str) -> (r: Option<String>)
    ensures
        opt_text(r) == slug_of(front_entries(*f).get("slug"@), stem_of(path@)),
{
    slug_from(&header_get(f, "slug"), file_stem(path))
}

pub fn get_date(f: &Frontmatter) -> (r: Result<Option<Stamp>, SiteError>)
    ensures
        r == date_of(front_entries(*f).get("date"@)),
{
    date_from(&header_get(f, "date"))
}

pub fn get_tags(f: &Frontmatter) -> (r: Vec<String>)
    ensures
        texts(r) == tags_of(front_entries(*f).get("tags"@)),
{
    tags_from(&header_get(f, "tags"))
}

pub fn get_show_in_menu(f: &Frontmatter) -> (r: Result<bool, SiteError>)
    ensures
        r == menu_of(front_entries(*f).get("show_in_menu"@)),
{
    menu_from(&header_get(f, "show_in_menu"))
}

} // verus!
