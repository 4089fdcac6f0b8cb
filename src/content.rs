//! Content records, built one per source file, and the site's two ordered
//! collections of them: posts, newest first, and pages, by descending title.
use vstd::prelude::*;
use frontmatter_gen::Frontmatter;
use crate::config::Site;
use crate::fields::{
    date_of, get_date, get_show_in_menu, get_slug, get_tags, get_title, is_earlier, menu_of,
    slug_of, stamp_before, stem_of, tags_of, texts, title_of, SiteError, Stamp,
};
use crate::meta::{fenced, front_entries, no_entries, parse_front_matter, MetaValue};
use crate::text::{comes_before, lemma_text_before_asymmetric, lemma_text_order_total, text_before};

verus! {

/// What the markdown renderer makes of a markdown text.
pub uninterp spec fn html_of(markdown: Seq<char>) -> Seq<char>;

/// Relies on `comrak::markdown_to_html` with the default options: the HTML of a
/// CommonMark text.
#[verifier::external_body]
fn markdown_html(markdown: &str) -> (r: String)
    ensures
        r@ == html_of(markdown@),
{
    comrak::markdown_to_html(markdown, &comrak::Options::default())
}

/// One source file's record. A record with a date is a post, one without is a page.
#[derive(Clone, Debug)]
pub struct Content {
    pub title: String,
    pub slug: String,
    pub html: String,
    pub tags: Vec<String>,
    pub date: Option<Stamp>,
    pub show_in_menu: bool,
}

pub struct ContentView {
    pub title: Seq<char>,
    pub slug: Seq<char>,
    pub html: Seq<char>,
    pub tags: Seq<Seq<char>>,
    pub date: Option<Stamp>,
    pub show_in_menu: bool,
}

impl View for Content {
    type V = ContentView;

    open spec fn view(&self) -> ContentView {
        ContentView {
            title: self.title@,
            slug: self.slug@,
            html: self.html@,
            tags: texts(self.tags),
            date: self.date,
            show_in_menu: self.show_in_menu,
        }
    }
}

/// The view of a record's outcome.
pub open spec fn outcome(r: Result<Content, SiteError>) -> Result<ContentView, SiteError> {
    match r {
        Ok(c) => Ok(c@),
        Err(e) => Err(e),
    }
}

/// The record of a file with header entries `m`, markdown body `body` and path
/// `path`; where it has none, the first failure of slug, date and menu flag.
pub open spec fn record_of(m: Map<Seq<char>, MetaValue>, body: Seq<char>, path: Seq<char>) -> Result<
    ContentView,
    SiteError,
> {
    match slug_of(m.get("slug"@), stem_of(path)) {
        None => Err(SiteError::NoFileStem),
        Some(slug) => match date_of(m.get("date"@)) {
            Err(e) => Err(e),
            Ok(date) => match menu_of(m.get("show_in_menu"@)) {
                Err(e) => Err(e),
                Ok(menu) => Ok(
                    ContentView {
                        title: title_of(m.get("title"@), body),
                        slug,
                        html: html_of(body),
                        tags: tags_of(m.get("tags"@)),
                        date,
                        show_in_menu: menu,
                    },
                ),
            },
        },
    }
}

/// Builds the record of a file from its parsed header, its body and its path.
pub fn content_from(f: &Frontmatter, body: &str, path: &str) -> (r: Result<Content, SiteError>)
    ensures
        outcome(r) == record_of(front_entries(*f), body@, path@),
{
    let html = markdown_html(body);
    let title = get_title(f, body);
    let tags = get_tags(f);
    let slug = match get_slug(f, path) {
        Some(s) => s,
        None => return Err(SiteError::NoFileStem),
    };
    let date = match get_date(f) {
        Ok(d) => d,
        Err(e) => return Err(e),
    };
    let show_in_menu = match get_show_in_menu(f) {
        Ok(b) => b,
        Err(e) => return Err(e),
    };
    Ok(Content { title, slug, html, tags, date, show_in_menu })
}

/// Whether `b` is a trailing part of `s`.
pub open spec fn is_tail(b: Seq<char>, s: Seq<char>) -> bool {
    b.len() <= s.len() && b == s.subrange(s.len() - b.len(), s.len() as int)
}

/// Builds the record of the file at `path` whose text is `source`. A text without
/// a header is all body; one with a header either fails to parse, or gives entries
/// and a body that is a trailing part of the text.
pub fn build_content(path: &str, source: &str) -> (r: Result<Content, SiteError>)
    ensures
        !fenced(source@) ==> outcome(r) == record_of(no_entries(), source@, path@),
        fenced(source@) ==> (r matches Err(SiteError::Frontmatter) || exists|
            m: Map<Seq<char>, MetaValue>,
            b: Seq<char>,
        | is_tail(b, source@) && outcome(r) == record_of(m, b, path@)),
{
    match parse_front_matter(source) {
        None => Err(SiteError::Frontmatter),
        Some((f, body)) => {
            let r = content_from(&f, body.as_str(), path);
            assert(is_tail(body@, source@));
            r
        },
    }
}

/// Posts have a date each and come newest first: no post is older than the next.
pub open spec fn posts_ordered(s: Seq<Content>) -> bool {
    &&& forall|k: int| 0 <= k < s.len() ==> (#[trigger] s[k]).date is Some
    &&& forall|k: int|
        0 <= k < s.len() - 1 ==> !stamp_before((#[trigger] s[k]).date->0, s[k + 1].date->0)
}

/// Pages have no date and come by descending title: no title is below the next.
pub open spec fn pages_ordered(s: Seq<Content>) -> bool {
    &&& forall|k: int| 0 <= k < s.len() ==> (#[trigger] s[k]).date is None
    &&& forall|k: int| 0 <= k < s.len() - 1 ==> !text_before((#[trigger] s[k]).title@, s[k + 1].title@)
}

/// Where a new post goes: after every post that is not older, before the first one
/// that is. Among equal dates the earlier arrival comes first.
pub open spec fn post_slot(s: Seq<Content>, c: Content, i: int) -> bool {
    &&& 0 <= i <= s.len()
    &&& forall|j: int| 0 <= j < i ==> !stamp_before((#[trigger] s[j]).date->0, c.date->0)
    &&& i < s.len() ==> stamp_before(s[i].date->0, c.date->0)
}

/// Where a new page goes: after every page whose title is not below its own, before
/// the first one whose title is.
pub open spec fn page_slot(s: Seq<Content>, c: Content, i: int) -> bool {
    &&& 0 <= i <= s.len()
    &&& forall|j: int| 0 <= j < i ==> !text_before((#[trigger] s[j]).title@, c.title@)
    &&& i < s.len() ==> text_before(s[i].title@, c.title@)
}

/// The site configuration and its records, posts and pages apart.
pub struct SiteData {
    pub site: Site,
    pub posts: Vec<Content>,
    pub pages: Vec<Content>,
}

/// `new` is `old` with `c` added: a record with a date among the posts, one
/// without among the pages, each at its place in the order.
pub open spec fn placed(old: SiteData, new: SiteData, c: Content) -> bool {
    &&& new.site == old.site
    &&& c.date is Some ==> new.pages@ == old.pages@ && exists|i: int|
        post_slot(old.posts@, c, i) && new.posts@ == old.posts@.insert(i, c)
    &&& c.date is None ==> new.posts@ == old.posts@ && exists|i: int|
        page_slot(old.pages@, c, i) && new.pages@ == old.pages@.insert(i, c)
}

impl SiteData {
    pub open spec fn wf(&self) -> bool {
        posts_ordered(self.posts@) && pages_ordered(self.pages@)
    }

    pub fn new(site: Site) -> (r: SiteData)
        ensures
            r.wf(),
            r.site == site,
            r.posts@.len() == 0,
            r.pages@.len() == 0,
    {
        SiteData { site, posts: Vec::new(), pages: Vec::new() }
    }

    /// Builds the record of the file at `path` whose text is `source` and adds it.
    /// On a failure nothing is added.
    pub fn process_source(&mut self, path: &str, source: &str) -> (r: Result<(), SiteError>)
        requires
            old(self).wf(),
        ensures
            final(self).wf(),
            r is Err ==> *final(self) == *old(self),
            r is Ok ==> exists|c: Content|
                placed(*old(self), *final(self), c) && (if fenced(source@) {
                    exists|m: Map<Seq<char>, MetaValue>, b: Seq<char>|
                        is_tail(b, source@) && (#[trigger] record_of(m, b, path@) matches Ok(v)
                            && v == c@)
                } else {
                    record_of(no_entries(), source@, path@) matches Ok(v) && v == c@
                }),
            !fenced(source@) ==> match record_of(no_entries(), source@, path@) {
                Ok(_) => r is Ok,
                Err(e) => r == Err::<(), SiteError>(e),
            },
    {
        match build_content(path, source) {
            Ok(c) => {
                self.add(c);
                Ok(())
            },
            Err(e) => Err(e),
        }
    }

    /// Adds a record: a post when it has a date, a page when it has none, each
    /// kept in its order.
    pub fn add(&mut self, c: Content)
        requires
            old(self).wf(),
        ensures
            final(self).wf(),
            placed(*old(self), *final(self), c),
    {
        if c.date.is_some() {
            insert_post(&mut self.posts, c);
        } else {
            insert_page(&mut self.pages, c);
        }
    }
}

proof fn lemma_post_insert(s: Seq<Content>, c: Content, i: int)
    requires
        posts_ordered(s),
        post_slot(s, c, i),
        c.date is Some,
    ensures
        posts_ordered(s.insert(i, c)),
{
    let v = s.insert(i, c);
    assert forall|k: int| 0 <= k < v.len() implies (#[trigger] v[k]).date is Some by {
        if k < i {
            assert(v[k] == s[k]);
        } else if k > i {
            assert(v[k] == s[k - 1]);
        }
    }
    assert forall|k: int| 0 <= k < v.len() - 1 implies !stamp_before(
        (#[trigger] v[k]).date->0,
        v[k + 1].date->0,
    ) by {
        if k + 1 < i {
            assert(v[k] == s[k] && v[k + 1] == s[k + 1]);
        } else if k + 1 == i {
            assert(v[k] == s[k]);
        } else if k > i {
            assert(v[k] == s[k - 1] && v[k + 1] == s[k]);
        }
    }
}

proof fn lemma_page_insert(s: Seq<Content>, c: Content, i: int)
    requires
        pages_ordered(s),
        page_slot(s, c, i),
        c.date is None,
    ensures
        pages_ordered(s.insert(i, c)),
{
    let v = s.insert(i, c);
    assert forall|k: int| 0 <= k < v.len() implies (#[trigger] v[k]).date is None by {
        if k < i {
            assert(v[k] == s[k]);
        } else if k > i {
            assert(v[k] == s[k - 1]);
        }
    }
    assert forall|k: int| 0 <= k < v.len() - 1 implies !text_before(
        (#[trigger] v[k]).title@,
        v[k + 1].title@,
    ) by {
        if k + 1 < i {
            assert(v[k] == s[k] && v[k + 1] == s[k + 1]);
        } else if k + 1 == i {
            assert(v[k] == s[k]);
        } else if k == i {
            lemma_text_before_asymmetric(s[k].title@, c.title@);
        } else {
            assert(v[k] == s[k - 1] && v[k + 1] == s[k]);
        }
    }
}

fn insert_post(v: &mut Vec<Content>, c: Content)
    requires
        posts_ordered(old(v)@),
        c.date is Some,
    ensures
        posts_ordered(final(v)@),
        exists|i: int| post_slot(old(v)@, c, i) && final(v)@ == old(v)@.insert(i, c),
{
    let d = match c.date {
        Some(d) => d,
        None => return,
    };
    let mut i: usize = 0;
    let n = v.len();
    let mut found = false;
    while i < n && !found
        invariant
            n == v@.len(),
            i <= n,
            posts_ordered(v@),
            forall|j: int| 0 <= j < i ==> !stamp_before((#[trigger] v@[j]).date->0, d),
            found ==> i < n && stamp_before(v@[i as int].date->0, d),
        decreases n - i + (if found { 0int } else { 1int }),
    {
        let older = match &v[i].date {
            Some(e) => is_earlier(e, &d),
            None => false,
        };
        if older {
            found = true;
        } else {
            i = i + 1;
        }
    }
    let ghost s = v@;
    v.insert(i, c);
    proof {
        lemma_post_insert(s, c, i as int);
    }
}

fn insert_page(v: &mut Vec<Content>, c: Content)
    requires
        pages_ordered(old(v)@),
        c.date is None,
    ensures
        pages_ordered(final(v)@),
        exists|i: int| page_slot(old(v)@, c, i) && final(v)@ == old(v)@.insert(i, c),
{
    let mut i: usize = 0;
    let n = v.len();
    let mut found = false;
    while i < n && !found
        invariant
            n == v@.len(),
            i <= n,
            pages_ordered(v@),
            forall|j: int| 0 <= j < i ==> !text_before((#[trigger] v@[j]).title@, c.title@),
            found ==> i < n && text_before(v@[i as int].title@, c.title@),
        decreases n - i + (if found { 0int } else { 1int }),
    {
        if comes_before(v[i].title.as_str(), c.title.as_str()) {
            found = true;
        } else {
            i = i + 1;
        }
    }
    let ghost s = v@;
    v.insert(i, c);
    proof {
        lemma_page_insert(s, c, i as int);
    }
}

/// A file whose header has no `date` key becomes a page, and one whose header has a
/// `date` that reads becomes a post: adding its record puts it among the pages, or
/// among the posts, and leaves the other collection as it was.
pub proof fn law_classification(
    old: SiteData,
    new: SiteData,
    m: Map<Seq<char>, MetaValue>,
    body: Seq<char>,
    path: Seq<char>,
    c: Content,
)
    requires
        record_of(m, body, path) matches Ok(v) && v == c@,
        placed(old, new, c),
    ensures
        !m.dom().contains("date"@) ==> c.date is None && new.pages@.contains(c) && new.posts@
            == old.posts@,
        m.dom().contains("date"@) ==> c.date is Some && new.posts@.contains(c) && new.pages@
            == old.pages@,
{
    if c.date is Some {
        let i = choose|i: int| post_slot(old.posts@, c, i) && new.posts@ == old.posts@.insert(i, c);
        assert(new.posts@[i] == c);
    } else {
        let i = choose|i: int| page_slot(old.pages@, c, i) && new.pages@ == old.pages@.insert(i, c);
        assert(new.pages@[i] == c);
    }
}

/// In a well-formed site the posts come newest first: of two adjacent posts the
/// first is as recent as the second or more.
pub proof fn law_posts_newest_first(d: SiteData, k: int)
    requires
        d.wf(),
        0 <= k < d.posts@.len() - 1,
    ensures
        d.posts@[k].date is Some && d.posts@[k + 1].date is Some,
        stamp_before(d.posts@[k + 1].date->0, d.posts@[k].date->0) || d.posts@[k + 1].date
            == d.posts@[k].date,
{
    assert(d.posts@[k].date is Some);
    assert(d.posts@[k + 1].date is Some);
}

/// In a well-formed site the pages come by descending title: of two adjacent
/// pages the first title is the same as the second or after it.
pub proof fn law_pages_by_descending_title(d: SiteData, k: int)
    requires
        d.wf(),
        0 <= k < d.pages@.len() - 1,
    ensures
        text_before(d.pages@[k + 1].title@, d.pages@[k].title@) || d.pages@[k + 1].title@
            == d.pages@[k].title@,
{
    lemma_text_order_total(d.pages@[k].title@, d.pages@[k + 1].title@);
}

} // verus!
