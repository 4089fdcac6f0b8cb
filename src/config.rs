//! The site configuration, with a default for every field.
use vstd::prelude::*;

verus! {

pub fn default_name() -> (r: &'static str)
    ensures
        r@ == "Marmite Site"@,
{
    "Marmite Site"
}

pub fn default_tagline() -> (r: &'static str)
    ensures
        r@ == "A website generated with Marmite"@,
{
    "A website generated with Marmite"
}

pub fn default_url() -> (r: &'static str)
    ensures
        r@ == "https://example.com"@,
{
    "https://example.com"
}

pub fn default_footer() -> (r: &'static str)
    ensures
        r@ == "<a href=\"https://creativecommons.org/licenses/by-nc-sa/4.0/\">CC-BY_NC-SA</a> | Site generated with <a href=\"https://github.com/rochacbruno/marmite\">Marmite</a>"@,
{
    "<a href=\"https://creativecommons.org/licenses/by-nc-sa/4.0/\">CC-BY_NC-SA</a> | Site generated with <a href=\"https://github.com/rochacbruno/marmite\">Marmite</a>"
}

pub fn default_pagination() -> (r: u32)
    ensures
        r == 10,
{
    10
}

pub fn default_list_title() -> (r: &'static str)
    ensures
        r@ == "Posts"@,
{
    "Posts"
}

pub fn default_tags_title() -> (r: &'static str)
    ensures
        r@ == "Tags"@,
{
    "Tags"
}

pub fn default_site_path() -> (r: &'static str)
    ensures
        r@ == "site"@,
{
    "site"
}

pub fn default_content_path() -> (r: &'static str)
    ensures
        r@ == "content"@,
{
    "content"
}

pub fn default_templates_path() -> (r: &'static str)
    ensures
        r@ == "templates"@,
{
    "templates"
}

pub fn default_static_path() -> (r: &'static str)
    ensures
        r@ == "static"@,
{
    "static"
}

pub fn default_media_path() -> (r: &'static str)
    ensures
        r@ == "content/media"@,
{
    "content/media"
}

/// The site configuration as the rest of the library reads it.
pub struct Site {
    pub name: String,
    pub tagline: String,
    pub url: String,
    pub footer: String,
    pub pagination: u32,
    pub list_title: String,
    pub tags_title: String,
    pub content_path: String,
    pub templates_path: String,
    pub static_path: String,
    pub media_path: String,
    pub site_path: String,
}

/// The keys that a configuration file sets; `None` where it leaves one out.
pub struct SiteOverrides {
    pub name: Option<String>,
    pub tagline: Option<String>,
    pub url: Option<String>,
    pub footer: Option<String>,
    pub pagination: Option<u32>,
    pub list_title: Option<String>,
    pub tags_title: Option<String>,
    pub content_path: Option<String>,
    pub templates_path: Option<String>,
    pub static_path: Option<String>,
    pub media_path: Option<String>,
    pub site_path: Option<String>,
}

/// The text of a key that may be absent, with its default.
pub open spec fn or_default(v: Option<String>, d: Seq<char>) -> Seq<char> {
    match v {
        Some(s) => s@,
        None => d,
    }
}

fn given_or(v: Option<String>, d: &str) -> (r: String)
    ensures
        r@ == or_default(v, d@),
{
    match v {
        Some(s) => s,
        None => d.to_owned(),
    }
}

impl SiteOverrides {
    /// A configuration that sets no key.
    pub fn none() -> (r: SiteOverrides)
        ensures
            r.name is None && r.tagline is None && r.url is None && r.footer is None,
            r.pagination is None && r.list_title is None && r.tags_title is None,
            r.content_path is None && r.templates_path is None && r.static_path is None,
            r.media_path is None && r.site_path is None,
    {
        SiteOverrides {
            name: None,
            tagline: None,
            url: None,
            footer: None,
            pagination: None,
            list_title: None,
            tags_title: None,
            content_path: None,
            templates_path: None,
            static_path: None,
            media_path: None,
            site_path: None,
        }
    }
}

impl Site {
    /// Each key the configuration sets, and the default of each key it leaves out.
    pub fn from_overrides(o: SiteOverrides) -> (r: Site)
        ensures
            r.name@ == or_default(o.name, "Marmite Site"@),
            r.tagline@ == or_default(o.tagline, "A website generated with Marmite"@),
            r.url@ == or_default(o.url, "https://example.com"@),
            r.footer@ == or_default(o.footer, "<a href=\"https://creativecommons.org/licenses/by-nc-sa/4.0/\">CC-BY_NC-SA</a> | Site generated with <a href=\"https://github.com/rochacbruno/marmite\">Marmite</a>"@),
            r.pagination == (match o.pagination {
                Some(p) => p,
                None => 10,
            }),
            r.list_title@ == or_default(o.list_title, "Posts"@),
            r.tags_title@ == or_default(o.tags_title, "Tags"@),
            r.content_path@ == or_default(o.content_path, "content"@),
            r.templates_path@ == or_default(o.templates_path, "templates"@),
            r.static_path@ == or_default(o.static_path, "static"@),
            r.media_path@ == or_default(o.media_path, "content/media"@),
            r.site_path@ == or_default(o.site_path, "site"@),
    {
        Site {
            name: given_or(o.name, default_name()),
            tagline: given_or(o.tagline, default_tagline()),
            url: given_or(o.url, default_url()),
            footer: given_or(o.footer, default_footer()),
            pagination: match o.pagination {
                Some(p) => p,
                None => default_pagination(),
            },
            list_title: given_or(o.list_title, default_list_title()),
            tags_title: given_or(o.tags_title, default_tags_title()),
            content_path: given_or(o.content_path, default_content_path()),
            templates_path: given_or(o.templates_path, default_templates_path()),
            static_path: given_or(o.static_path, default_static_path()),
            media_path: given_or(o.media_path, default_media_path()),
            site_path: given_or(o.site_path, default_site_path()),
        }
    }
}

} // verus!
