//! Character-level operations on strings: trimming, the first line, comma
//! segments and the lexicographic order of `String`.
use vstd::prelude::*;
use vstd::string::StrSliceExecFns;

verus! {

/// The characters with the Unicode `White_Space` property, as `char::is_whitespace` has them.
pub open spec fn is_space(c: char) -> bool {
    let n = c as u32;
    (0x09 <= n && n <= 0x0D) || n == 0x20 || n == 0x85 || n == 0xA0 || n == 0x1680
        || (0x2000 <= n && n <= 0x200A) || n == 0x2028 || n == 0x2029 || n == 0x202F
        || n == 0x205F || n == 0x3000
}

/// The characters dropped from a string's ends: white space, or one given character.
pub open spec fn in_class(c: char, mark: Option<char>) -> bool {
    match mark {
        None => is_space(c),
        Some(m) => c == m,
    }
}

/// `s` without its leading characters of the class.
pub open spec fn drop_front(s: Seq<char>, mark: Option<char>) -> Seq<char>
    decreases s.len(),
{
    if s.len() > 0 && in_class(s[0], mark) {
        drop_front(s.drop_first(), mark)
    } else {
        s
    }
}

/// `s` without its trailing characters of the class.
pub open spec fn drop_back(s: Seq<char>, mark: Option<char>) -> Seq<char>
    decreases s.len(),
{
    if s.len() > 0 && in_class(s.last(), mark) {
        drop_back(s.drop_last(), mark)
    } else {
        s
    }
}

/// `str::trim`: white space removed from both ends.
pub open spec fn trimmed(s: Seq<char>) -> Seq<char> {
    drop_back(drop_front(s, None), None)
}

/// `str::trim_matches(m)` for one character `m`.
pub open spec fn trimmed_of(s: Seq<char>, m: char) -> Seq<char> {
    drop_back(drop_front(s, Some(m)), Some(m))
}

/// Index of the first `'\n'` in `s`, or its length when there is none.
pub open spec fn line_end(s: Seq<char>) -> int
    decreases s.len(),
{
    if s.len() == 0 {
        0
    } else if s[0] == '\n' {
        0
    } else {
        1 + line_end(s.drop_first())
    }
}

/// The first item of `str::lines`, or the empty string when there is none:
/// the text before the first `'\n'`, without a `'\r'` right before that `'\n'`.
pub open spec fn first_line(s: Seq<char>) -> Seq<char> {
    let e = line_end(s);
    if e < s.len() && e > 0 && s[e - 1] == '\r' {
        s.subrange(0, e - 1)
    } else {
        s.subrange(0, e)
    }
}

/// The pieces of `s` between commas, as `str::split(",")` yields them.
pub open spec fn segments(s: Seq<char>) -> Seq<Seq<char>>
    decreases s.len(),
{
    if s.len() == 0 {
        seq![Seq::empty()]
    } else if s.last() == ',' {
        segments(s.drop_last()).push(Seq::empty())
    } else {
        let p = segments(s.drop_last());
        p.update(p.len() - 1, p.last().push(s.last()))
    }
}

/// The strict lexicographic order of `String`: by code point, a proper prefix first.
pub open spec fn text_before(a: Seq<char>, b: Seq<char>) -> bool
    decreases a.len(),
{
    if a.len() == 0 {
        b.len() > 0
    } else if b.len() == 0 {
        false
    } else if a[0] != b[0] {
        a[0] < b[0]
    } else {
        text_before(a.drop_first(), b.drop_first())
    }
}

/// The order of strings is asymmetric.
pub proof fn lemma_text_before_asymmetric(a: Seq<char>, b: Seq<char>)
    ensures
        text_before(a, b) ==> !text_before(b, a),
    decreases a.len(),
{
    if a.len() > 0 && b.len() > 0 && a[0] == b[0] {
        lemma_text_before_asymmetric(a.drop_first(), b.drop_first());
    }
}

/// Of two different strings one comes before the other.
pub proof fn lemma_text_order_total(a: Seq<char>, b: Seq<char>)
    ensures
        !text_before(a, b) ==> text_before(b, a) || a == b,
    decreases a.len(),
{
    if a.len() > 0 && b.len() > 0 && a[0] == b[0] {
        lemma_text_order_total(a.drop_first(), b.drop_first());
        if a.drop_first() == b.drop_first() {
            assert(a =~= seq![a[0]] + a.drop_first());
            assert(b =~= seq![b[0]] + b.drop_first());
        }
    } else if a.len() == 0 && b.len() == 0 {
        assert(a =~= b);
    } else if a.len() > 0 && b.len() > 0 {
        assert(a[0] != b[0]);
    }
}

fn in_class_exec(c: char, mark: Option<char>) -> (r: bool)
    ensures
        r == in_class(c, mark),
{
    match mark {
        None => {
            let n = c as u32;
            (0x09 <= n && n <= 0x0D) || n == 0x20 || n == 0x85 || n == 0xA0 || n == 0x1680 || (
            0x2000 <= n && n <= 0x200A) || n == 0x2028 || n == 0x2029 || n == 0x202F || n
                == 0x205F || n == 0x3000
        },
        Some(m) => c == m,
    }
}

/// Index where the characters of the class at the front of `s[lo..hi]` end.
fn span_front(s: &str, lo: usize, hi: usize, mark: Option<char>) -> (i: usize)
    requires
        lo <= hi <= s@.len(),
    ensures
        lo <= i <= hi,
        drop_front(s@.subrange(lo as int, hi as int), mark) == s@.subrange(i as int, hi as int),
{
    let mut i: usize = lo;
    let mut done = false;
    while i < hi && !done
        invariant
            lo <= i <= hi,
            hi <= s@.len(),
            drop_front(s@.subrange(lo as int, hi as int), mark) == drop_front(
                s@.subrange(i as int, hi as int),
                mark,
            ),
            done ==> drop_front(s@.subrange(i as int, hi as int), mark) == s@.subrange(
                i as int,
                hi as int,
            ),
        decreases hi - i + (if done { 0int } else { 1int }),
    {
        let c = s.get_char(i);
        if !in_class_exec(c, mark) {
            assert(s@.subrange(i as int, hi as int)[0] == c);
            done = true;
            continue;
        }
        assert(s@.subrange(i as int, hi as int).drop_first() =~= s@.subrange(
            i + 1,
            hi as int,
        ));
        i = i + 1;
    }
    i
}

/// Index where the characters of the class at the back of `s[lo..hi]` begin.
fn span_back(s: &str, lo: usize, hi: usize, mark: Option<char>) -> (j: usize)
    requires
        lo <= hi <= s@.len(),
    ensures
        lo <= j <= hi,
        drop_back(s@.subrange(lo as int, hi as int), mark) == s@.subrange(lo as int, j as int),
{
    let mut j: usize = hi;
    let mut done = false;
    while j > lo && !done
        invariant
            lo <= j <= hi,
            hi <= s@.len(),
            drop_back(s@.subrange(lo as int, hi as int), mark) == drop_back(
                s@.subrange(lo as int, j as int),
                mark,
            ),
            done ==> drop_back(s@.subrange(lo as int, j as int), mark) == s@.subrange(
                lo as int,
                j as int,
            ),
        decreases j - lo + (if done { 0int } else { 1int }),
    {
        let c = s.get_char(j - 1);
        if !in_class_exec(c, mark) {
            assert(s@.subrange(lo as int, j as int).last() == c);
            done = true;
            continue;
        }
        assert(s@.subrange(lo as int, j as int).drop_last() =~= s@.subrange(
            lo as int,
            j - 1,
        ));
        j = j - 1;
    }
    j
}

/// The characters of `s[lo..hi]` with those of the class removed from both ends,
/// or from the front only.
fn strip_span(s: &str, lo: usize, hi: usize, mark: Option<char>, both: bool) -> (r: String)
    requires
        lo <= hi <= s@.len(),
    ensures
        both ==> r@ == drop_back(drop_front(s@.subrange(lo as int, hi as int), mark), mark),
        !both ==> r@ == drop_front(s@.subrange(lo as int, hi as int), mark),
{
    let i = span_front(s, lo, hi, mark);
    let j = if both {
        span_back(s, i, hi, mark)
    } else {
        hi
    };
    let r = s.substring_char(i, j).to_owned();
    r
}

/// `str::trim`.
pub fn trim(s: &str) -> (r: String)
    ensures
        r@ == trimmed(s@),
{
    let n = s.unicode_len();
    assert(s@.subrange(0, n as int) =~= s@);
    strip_span(s, 0, n, None, true)
}

/// `str::trim_matches` for one character.
pub fn trim_char(s: &str, m: char) -> (r: String)
    ensures
        r@ == trimmed_of(s@, m),
{
    let n = s.unicode_len();
    assert(s@.subrange(0, n as int) =~= s@);
    strip_span(s, 0, n, Some(m), true)
}

fn scan_line_end(s: &str) -> (e: usize)
    ensures
        e == line_end(s@),
        e <= s@.len(),
{
    let n = s.unicode_len();
    let mut i: usize = 0;
    assert(s@.subrange(0, n as int) =~= s@);
    while i < n
        invariant
            i <= n,
            n == s@.len(),
            line_end(s@) == i + line_end(s@.subrange(i as int, n as int)),
        decreases n - i,
    {
        assert(s@.subrange(i as int, n as int).drop_first() =~= s@.subrange(i + 1, n as int));
        if s.get_char(i) == '\n' {
            return i;
        }
        i = i + 1;
    }
    i
}

/// The first line of `s`, with the `'#'` at its front and the white space at both
/// of its ends removed: a heading's text.
pub fn heading_text(s: &str) -> (r: String)
    ensures
        r@ == trimmed(drop_front(first_line(s@), Some('#'))),
{
    let e = scan_line_end(s);
    let n = s.unicode_len();
    let stop = if e < n && e > 0 && s.get_char(e - 1) == '\r' {
        e - 1
    } else {
        e
    };
    let line = s.substring_char(0, stop);
    let k = line.unicode_len();
    assert(line@.subrange(0, k as int) =~= line@);
    let bare = strip_span(line, 0, k, Some('#'), false);
    trim(bare.as_str())
}

/// The comma-separated pieces of `s`, each trimmed: `s.split(",").map(str::trim)`.
pub fn split_trimmed(s: &str) -> (r: Vec<String>)
    ensures
        r@.map_values(|x: String| x@) == segments(s@).map_values(|g: Seq<char>| trimmed(g)),
{
    let n = s.unicode_len();
    let mut r: Vec<String> = Vec::new();
    let mut start: usize = 0;
    let mut i: usize = 0;
    proof {
        assert(s@.subrange(0, 0) =~= Seq::<char>::empty());
    }
    while i < n
        invariant
            start <= i <= n,
            n == s@.len(),
            segments(s@.subrange(0, i as int)).len() == r@.len() + 1,
            segments(s@.subrange(0, i as int)).last() == s@.subrange(start as int, i as int),
            forall|k: int|
                0 <= k < r@.len() ==> r@[k]@ == trimmed(
                    #[trigger] segments(s@.subrange(0, i as int))[k],
                ),
        decreases n - i,
    {
        let ghost pre = s@.subrange(0, i as int);
        let ghost next = s@.subrange(0, i + 1);
        assert(next.drop_last() =~= pre);
        let c = s.get_char(i);
        if c == ',' {
            let piece = s.substring_char(start, i);
            let t = trim(piece);
            r.push(t);
            assert(s@.subrange(i + 1, i + 1) =~= Seq::<char>::empty());
            start = i + 1;
        } else {
            assert(s@.subrange(start as int, i + 1) =~= s@.subrange(start as int, i as int).push(
                c,
            ));
        }
        i = i + 1;
    }
    assert(s@.subrange(0, n as int) =~= s@);
    let piece = s.substring_char(start, n);
    let t = trim(piece);
    r.push(t);
    assert(r@.map_values(|x: String| x@) =~= segments(s@).map_values(|g: Seq<char>| trimmed(g)));
    r
}

/// Whether `a` comes strictly before `b` in the order of `String`.
pub fn comes_before(a: &str, b: &str) -> (r: bool)
    ensures
        r == text_before(a@, b@),
{
    let n = a.unicode_len();
    let m = b.unicode_len();
    let mut i: usize = 0;
    assert(a@.subrange(0, n as int) =~= a@);
    assert(b@.subrange(0, m as int) =~= b@);
    while i < n && i < m
        invariant
            i <= n,
            i <= m,
            n == a@.len(),
            m == b@.len(),
            text_before(a@, b@) == text_before(
                a@.subrange(i as int, n as int),
                b@.subrange(i as int, m as int),
            ),
        decreases n - i,
    {
        let x = a.get_char(i);
        let y = b.get_char(i);
        if x != y {
            return x < y;
        }
        assert(a@.subrange(i as int, n as int).drop_first() =~= a@.subrange(i + 1, n as int));
        assert(b@.subrange(i as int, m as int).drop_first() =~= b@.subrange(i + 1, m as int));
        i = i + 1;
    }
    i == n && i < m
}

} // verus!
