//! The metadata header of a source file, as the frontmatter parser hands it over.
use vstd::prelude::*;
use vstd::string::StrSliceExecFns;
use frontmatter_gen::Frontmatter;

verus! {

#[verifier::external_type_specification]
#[verifier::external_body]
pub struct ExFrontmatter(frontmatter_gen::Frontmatter);

#[verifier::external_type_specification]
#[verifier::external_body]
pub struct ExFrontmatterError(frontmatter_gen::Error);

/// A metadata value, in the forms the field rules read.
pub enum MetaValue {
    /// A string.
    Text(String),
    /// A boolean.
    Flag(bool),
    /// A sequence, each item in its printed form (a string keeps its quotes).
    List(Vec<String>),
    /// Anything else, in its printed form.
    Other(String),
}

/// The entries of a parsed header, keyed by name.
pub uninterp spec fn front_entries(f: Frontmatter) -> Map<Seq<char>, MetaValue>;

/// The entries of a header that holds none.
pub open spec fn no_entries() -> Map<Seq<char>, MetaValue> {
    Map::empty()
}

/// Relies on `Frontmatter::new`: a header with no entries.
#[verifier::external_body]
pub(crate) fn empty_header() -> (header: Frontmatter)
    ensures
        front_entries(header) == no_entries(),
{
    Frontmatter::new()
}

/// Relies on `Frontmatter::get` (a `HashMap` lookup): the value under `key`, if any,
/// with `Value::to_string` giving the printed forms.
#[verifier::external_body]
pub(crate) fn header_get(f: &Frontmatter, key: &str) -> (r: Option<MetaValue>)
    ensures
        r == front_entries(*f).get(key@),
{
    match f.get(key) {
        None => None,
        Some(frontmatter_gen::Value::String(s)) => Some(MetaValue::Text(s.clone())),
        Some(frontmatter_gen::Value::Boolean(b)) => Some(MetaValue::Flag(*b)),
        Some(frontmatter_gen::Value::Array(a)) => Some(
            MetaValue::List(a.iter().map(|v| v.to_string()).collect()),
        ),
        Some(v) => Some(MetaValue::Other(v.to_string())),
    }
}

/// Relies on `frontmatter_gen::extract`: splits off the header and parses it; the
/// body it hands back is a trailing part of `content`. Its size limits come from
/// the environment, so nothing is stated of when it fails.
#[verifier::external_body]
fn extract_header(content: &str) -> (r: Result<(Frontmatter, String), frontmatter_gen::Error>)
    ensures
        r matches Ok(p) ==> p.1@.len() <= content@.len() && p.1@ == content@.subrange(
            content@.len() - p.1@.len(),
            content@.len() as int,
        ),
{
    match frontmatter_gen::extract(content) {
        Ok((f, body)) => Ok((f, body.to_string())),
        Err(e) => Err(e),
    }
}

/// Whether `s` starts with the header fence `---`.
pub open spec fn fenced(s: Seq<char>) -> bool {
    s.len() >= 3 && s[0] == '-' && s[1] == '-' && s[2] == '-'
}

/// Splits a source file into its header and its markdown body. A file that does
/// not start with the fence has no header and is all body; one that does has its
/// header parsed, and fails with `None` where that parse fails.
pub fn parse_front_matter(content: &str) -> (r: Option<(Frontmatter, String)>)
    ensures
        !fenced(content@) ==> (r matches Some(p) && front_entries(p.0) == no_entries() && p.1@ == content@),
        r matches Some(p) ==> p.1@.len() <= content@.len() && p.1@ == content@.subrange(
            content@.len() - p.1@.len(),
            content@.len() as int,
        ),
{
    let n = content.unicode_len();
    let starts = n >= 3 && content.get_char(0) == '-' && content.get_char(1) == '-'
        && content.get_char(2) == '-';
    if starts {
        match extract_header(content) {
            Ok(p) => Some(p),
            Err(_) => None,
        }
    } else {
        let body = content.to_owned();
        assert(content@.subrange(0, content@.len() as int) =~= content@);
        Some((empty_header(), body))
    }
}

} // verus!
