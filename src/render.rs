//! What is rendered, from which template, into which file: one list page and one
//! page per post and per page.
use vstd::prelude::*;
use vstd::string::StringExecFns;
use crate::content::{record_of, SiteData};
use crate::fields::stem_of;
use crate::meta::MetaValue;

verus! {

/// The records a rendered file shows.
#[derive(PartialEq, Eq, Structural, Clone, Copy, Debug)]
pub enum Target {
    /// The list page: the site, all pages and all posts.
    Index,
    /// The post at this position: the site, all pages and that post.
    Post(usize),
    /// The page at this position: the site, all pages and that page.
    Page(usize),
}

/// One file to render.
pub struct RenderJob {
    pub template: String,
    pub file_name: String,
    pub title: String,
    pub target: Target,
}

/// The name of the file a record with slug `slug` is written to.
pub open spec fn file_of(slug: Seq<char>) -> Seq<char> {
    slug + ".html"@
}

/// The file name of a record: its slug with `.html` after it.
pub fn output_name(slug: &str) -> (r: String)
    ensures
        r@ == file_of(slug@),
{
    slug.to_owned().concat(".html")
}

/// Whether `j` renders the record `target` of `d` as the file `file` with `template` and `title`.
pub open spec fn job_is(
    j: RenderJob,
    template: Seq<char>,
    file: Seq<char>,
    title: Seq<char>,
    target: Target,
) -> bool {
    j.template@ == template && j.file_name@ == file && j.title@ == title && j.target == target
}

/// The files of a site: first `index.html` from the `list.html` template with the
/// title `Blog Posts`, then each post and then each page, in their order, from
/// the `content.html` template with the record's own title.
pub fn render_plan(d: &SiteData) -> (r: Vec<RenderJob>)
    ensures
        r@.len() == 1 + d.posts@.len() + d.pages@.len(),
        job_is(r@[0], "list.html"@, "index.html"@, "Blog Posts"@, Target::Index),
        forall|i: int|
            0 <= i < d.posts@.len() ==> job_is(
                #[trigger] r@[1 + i],
                "content.html"@,
                file_of(d.posts@[i].slug@),
                d.posts@[i].title@,
                Target::Post(i as usize),
            ),
        forall|i: int|
            0 <= i < d.pages@.len() ==> job_is(
                #[trigger] r@[1 + d.posts@.len() + i],
                "content.html"@,
                file_of(d.pages@[i].slug@),
                d.pages@[i].title@,
                Target::Page(i as usize),
            ),
{
    let mut r: Vec<RenderJob> = Vec::new();
    r.push(
        RenderJob {
            template: "list.html".to_owned(),
            file_name: "index.html".to_owned(),
            title: "Blog Posts".to_owned(),
            target: Target::Index,
        },
    );
    let mut i: usize = 0;
    while i < d.posts.len()
        invariant
            i <= d.posts@.len(),
            r@.len() == 1 + i,
            job_is(r@[0], "list.html"@, "index.html"@, "Blog Posts"@, Target::Index),
            forall|k: int|
                0 <= k < i ==> job_is(
                    #[trigger] r@[1 + k],
                    "content.html"@,
                    file_of(d.posts@[k].slug@),
                    d.posts@[k].title@,
                    Target::Post(k as usize),
                ),
        decreases d.posts@.len() - i,
    {
        let c = &d.posts[i];
        r.push(
            RenderJob {
                template: "content.html".to_owned(),
                file_name: output_name(c.slug.as_str()),
                title: c.title.clone(),
                target: Target::Post(i),
            },
        );
        i = i + 1;
    }
    let p = d.posts.len();
    let mut i: usize = 0;
    while i < d.pages.len()
        invariant
            p == d.posts@.len(),
            i <= d.pages@.len(),
            r@.len() == 1 + p + i,
            job_is(r@[0], "list.html"@, "index.html"@, "Blog Posts"@, Target::Index),
            forall|k: int|
                0 <= k < p ==> job_is(
                    #[trigger] r@[1 + k],
                    "content.html"@,
                    file_of(d.posts@[k].slug@),
                    d.posts@[k].title@,
                    Target::Post(k as usize),
                ),
            forall|k: int|
                0 <= k < i ==> job_is(
                    #[trigger] r@[1 + p + k],
                    "content.html"@,
                    file_of(d.pages@[k].slug@),
                    d.pages@[k].title@,
                    Target::Page(k as usize),
                ),
        decreases d.pages@.len() - i,
    {
        let c = &d.pages[i];
        r.push(
            RenderJob {
                template: "content.html".to_owned(),
                file_name: output_name(c.slug.as_str()),
                title: c.title.clone(),
                target: Target::Page(i),
            },
        );
        i = i + 1;
    }
    r
}

/// A file whose header gives the slug `s` is written to `s.html`; a file whose
/// header gives no slug is written to its file stem followed by `.html`.
pub proof fn law_output_file(m: Map<Seq<char>, MetaValue>, body: Seq<char>, path: Seq<char>)
    requires
        record_of(m, body, path) is Ok,
    ensures
        m.get("slug"@) matches Some(MetaValue::Text(s)) ==> file_of(
            record_of(m, body, path)->Ok_0.slug,
        ) == s@ + ".html"@,
        !m.dom().contains("slug"@) ==> stem_of(path) is Some && file_of(
            record_of(m, body, path)->Ok_0.slug,
        ) == stem_of(path)->0 + ".html"@,
{
}

} // verus!
