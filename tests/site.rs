use frontmatter_gen::{Frontmatter, Value};
use marmite::config::{default_media_path, default_name, default_pagination, Site, SiteOverrides};
use marmite::content::{build_content, Content, SiteData};
use marmite::fields::{
    date_from, get_show_in_menu, get_slug, get_tags, get_title, is_earlier, menu_from, parse_date,
    pick_date, slug_from, tags_from, title_from, SiteError, Stamp,
};
use marmite::meta::{parse_front_matter, MetaValue};
use marmite::render::{output_name, render_plan, Target};
use marmite::text::{comes_before, heading_text, split_trimmed, trim, trim_char};

fn stamp(year: i32, month: u32, day: u32, hour: u32, minute: u32, second: u32) -> Stamp {
    Stamp { year, month, day, hour, minute, second, nanosecond: 0 }
}

fn empty_site() -> SiteData {
    SiteData::new(Site::from_overrides(SiteOverrides::none()))
}

fn record(title: &str, slug: &str, date: Option<Stamp>) -> Content {
    Content {
        title: title.to_string(),
        slug: slug.to_string(),
        html: String::new(),
        tags: Vec::new(),
        date,
        show_in_menu: false,
    }
}

fn header(entries: Vec<(&str, Value)>) -> Frontmatter {
    let mut f = Frontmatter::new();
    for (k, v) in entries {
        f.insert(k.to_string(), v);
    }
    f
}

#[test]
fn date_formats_parse() {
    assert_eq!(parse_date("2024-01-05 10:30:00"), Some(stamp(2024, 1, 5, 10, 30, 0)));
    assert_eq!(parse_date("2024-01-05 10:30"), Some(stamp(2024, 1, 5, 10, 30, 0)));
    assert_eq!(parse_date("2024-01-05"), Some(stamp(2024, 1, 5, 0, 0, 0)));
    assert_eq!(parse_date("Jan 5 2024"), None);
}

#[test]
fn unreadable_date_is_an_error() {
    let r = date_from(&Some(MetaValue::Text("Jan 5 2024".to_string())));
    assert!(matches!(r, Err(SiteError::InvalidDate(ref s)) if s == "Jan 5 2024"));
    let r = date_from(&Some(MetaValue::Flag(true)));
    assert!(matches!(r, Err(SiteError::DateNotText)));
    assert_eq!(date_from(&None).ok(), Some(None));
}

#[test]
fn pick_date_takes_first_success() {
    let a = stamp(2024, 1, 5, 10, 30, 0);
    let b = stamp(2023, 2, 6, 11, 0, 0);
    assert_eq!(pick_date(Some(a), Some(b), Some((2020, 1, 1))), Some(a));
    assert_eq!(pick_date(None, Some(b), Some((2020, 1, 1))), Some(b));
    assert_eq!(pick_date(None, None, Some((2020, 3, 4))), Some(stamp(2020, 3, 4, 0, 0, 0)));
    assert_eq!(pick_date(None, None, None), None);
}

#[test]
fn tags_from_list_and_text() {
    let f = header(vec![("tags", Value::Array(vec![Value::String("a".into()), Value::String("b".into())]))]);
    assert_eq!(get_tags(&f), vec!["a".to_string(), "b".to_string()]);
    let f = header(vec![("tags", Value::String("a, b".into()))]);
    assert_eq!(get_tags(&f), vec!["a".to_string(), "b".to_string()]);
    assert_eq!(get_tags(&Frontmatter::new()), Vec::<String>::new());
    let l = Some(MetaValue::List(vec!["\"x\"".to_string(), "3".to_string()]));
    assert_eq!(tags_from(&l), vec!["x".to_string(), "3".to_string()]);
}

#[test]
fn tags_from_header_text() {
    let (f, body) = parse_front_matter("---\ntags: [\"a\", \"b\"]\n---\nbody\n").unwrap();
    assert_eq!(get_tags(&f), vec!["a".to_string(), "b".to_string()]);
    assert_eq!(body, "body\n");
    let (f, _) = parse_front_matter("---\ntags: \"a, b\"\n---\nbody\n").unwrap();
    assert_eq!(get_tags(&f), vec!["a".to_string(), "b".to_string()]);
}

#[test]
fn title_falls_back_to_heading() {
    assert_eq!(get_title(&Frontmatter::new(), "# Hello\n\nSome text"), "Hello");
    assert_eq!(title_from(&None, ""), "");
    assert_eq!(title_from(&None, "## Two  \r\nrest"), "Two");
    let f = header(vec![("title", Value::String("Given".into()))]);
    assert_eq!(get_title(&f, "# Hello"), "Given");
}

#[test]
fn slug_from_header_or_stem() {
    let f = header(vec![("slug", Value::String("about".into()))]);
    assert_eq!(get_slug(&f, "content/x.md"), Some("about".to_string()));
    assert_eq!(get_slug(&Frontmatter::new(), "content/notes.md"), Some("notes".to_string()));
    assert_eq!(slug_from(&Some(MetaValue::Flag(true)), Some("n".to_string())), Some("n".to_string()));
    assert_eq!(get_slug(&Frontmatter::new(), ".."), None);
}

#[test]
fn output_file_names() {
    let c = build_content("content/x.md", "---\nslug: \"about\"\n---\nText\n").ok().unwrap();
    assert_eq!(output_name(&c.slug), "about.html");
    let c = build_content("content/notes.md", "Just text\n").ok().unwrap();
    assert_eq!(output_name(&c.slug), "notes.html");
}

#[test]
fn menu_flag() {
    assert_eq!(get_show_in_menu(&Frontmatter::new()).ok(), Some(false));
    let f = header(vec![("show_in_menu", Value::Boolean(true))]);
    assert_eq!(get_show_in_menu(&f).ok(), Some(true));
    assert!(matches!(menu_from(&Some(MetaValue::Text("yes".into()))), Err(SiteError::MenuNotBool)));
}

#[test]
fn record_errors() {
    assert!(matches!(build_content("content/x.md", "---\ndate: Jan 5 2024\n---\nx"), Err(SiteError::InvalidDate(_))));
    assert!(matches!(build_content("..", "plain"), Err(SiteError::NoFileStem)));
    assert!(matches!(build_content("content/x.md", "---\nno closing fence"), Err(SiteError::Frontmatter)));
}

#[test]
fn record_html_is_rendered() {
    let c = build_content("content/a.md", "# First\n").ok().unwrap();
    assert_eq!(c.html, "<h1>First</h1>\n");
    assert_eq!(c.title, "First");
    assert_eq!(c.date, None);
}

#[test]
fn undated_is_page_dated_is_post() {
    let mut d = empty_site();
    d.process_source("content/page.md", "# A page\n").ok().unwrap();
    d.process_source("content/post.md", "---\ndate: \"2024-01-01\"\n---\n# A post\n").ok().unwrap();
    assert_eq!(d.pages.len(), 1);
    assert_eq!(d.posts.len(), 1);
    assert_eq!(d.pages[0].slug, "page");
    assert_eq!(d.posts[0].slug, "post");
    assert_eq!(d.posts[0].date, Some(stamp(2024, 1, 1, 0, 0, 0)));
}

#[test]
fn posts_newest_first() {
    let mut d = empty_site();
    d.add(record("b", "b", Some(stamp(2023, 5, 1, 0, 0, 0))));
    d.add(record("a", "a", Some(stamp(2024, 1, 1, 0, 0, 0))));
    d.add(record("c", "c", Some(stamp(2023, 5, 1, 0, 0, 0))));
    d.add(record("d", "d", Some(stamp(2022, 1, 1, 0, 0, 0))));
    let slugs: Vec<&str> = d.posts.iter().map(|c| c.slug.as_str()).collect();
    assert_eq!(slugs, vec!["a", "b", "c", "d"]);
    for w in d.posts.windows(2) {
        assert!(!is_earlier(w[0].date.as_ref().unwrap(), w[1].date.as_ref().unwrap()));
    }
}

#[test]
fn pages_by_descending_title() {
    let mut d = empty_site();
    for t in ["Beta", "alpha", "Gamma", "Alpha", "Beta"] {
        d.add(record(t, t, None));
    }
    let titles: Vec<&str> = d.pages.iter().map(|c| c.title.as_str()).collect();
    assert_eq!(titles, vec!["alpha", "Gamma", "Beta", "Beta", "Alpha"]);
}

#[test]
fn end_to_end_plan() {
    let mut d = empty_site();
    d.process_source("content/post1.md", "---\ndate: 2024-01-01\n---\n# First\n").ok().unwrap();
    d.process_source("content/page1.md", "# Page one\n").ok().unwrap();
    let plan = render_plan(&d);
    assert_eq!(plan.len(), 3);
    assert_eq!(plan[0].file_name, "index.html");
    assert_eq!(plan[0].template, "list.html");
    assert_eq!(plan[0].title, "Blog Posts");
    assert_eq!(plan[0].target, Target::Index);
    assert_eq!(plan[1].file_name, "post1.html");
    assert_eq!(plan[1].template, "content.html");
    assert_eq!(plan[1].title, "First");
    assert_eq!(plan[1].target, Target::Post(0));
    assert_eq!(plan[2].file_name, "page1.html");
    assert_eq!(plan[2].target, Target::Page(0));
    assert_eq!(d.posts[0].slug, "post1");
    assert_eq!(d.pages[0].slug, "page1");
}

#[test]
fn site_defaults() {
    let s = Site::from_overrides(SiteOverrides::none());
    assert_eq!(s.name, "Marmite Site");
    assert_eq!(s.tagline, "A website generated with Marmite");
    assert_eq!(s.url, "https://example.com");
    assert_eq!(s.pagination, 10);
    assert_eq!(s.list_title, "Posts");
    assert_eq!(s.tags_title, "Tags");
    assert_eq!(s.content_path, "content");
    assert_eq!(s.templates_path, "templates");
    assert_eq!(s.static_path, "static");
    assert_eq!(s.media_path, "content/media");
    assert_eq!(s.site_path, "site");
    assert!(s.footer.contains("CC-BY_NC-SA"));
    let mut o = SiteOverrides::none();
    o.name = Some("Mine".to_string());
    o.pagination = Some(3);
    let s = Site::from_overrides(o);
    assert_eq!(s.name, "Mine");
    assert_eq!(s.pagination, 3);
    assert_eq!(default_name(), "Marmite Site");
    assert_eq!(default_media_path(), "content/media");
    assert_eq!(default_pagination(), 10);
}

#[test]
fn text_helpers() {
    assert_eq!(trim("  a b \t\n"), "a b");
    assert_eq!(trim("\u{3000}x\u{a0}"), "x");
    assert_eq!(trim_char("\"\"q\"", '"'), "q");
    assert_eq!(split_trimmed(""), vec!["".to_string()]);
    assert_eq!(split_trimmed(" a ,b,, c"), vec!["a".to_string(), "b".to_string(), "".to_string(), "c".to_string()]);
    assert_eq!(heading_text("### x ###\nmore"), "x ###");
    assert_eq!(heading_text("\n# later"), "");
    assert!(comes_before("Beta", "alpha"));
    assert!(comes_before("ab", "abc"));
    assert!(!comes_before("abc", "abc"));
    assert!(comes_before("z", "é"));
}
