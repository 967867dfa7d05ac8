//! Recognising HTTP method names.
//!
//! A method name is matched after trimming surrounding whitespace (the
//! Unicode `White_Space` code points, the same set `str::trim` removes) and
//! folding ASCII case, so `"  get  "` names the same method as `"GET"`.

use vstd::prelude::*;

verus! {

/// An HTTP method the dispatcher recognises.
#[derive(Clone, Copy, Debug, PartialEq, Eq)]
pub enum Method {
    Get,
    Head,
    Options,
    Delete,
    Post,
    Put,
    Patch,
}

/// Whitespace, as trimmed from around a method name: the Unicode
/// `White_Space` code points, the same set `str::trim` removes.
pub open spec fn is_white_space(c: char) -> bool {
    let u = c as u32;
    ||| u == 0x9
    ||| u == 0xa
    ||| u == 0xb
    ||| u == 0xc
    ||| u == 0xd
    ||| u == 0x20
    ||| u == 0x85
    ||| u == 0xa0
    ||| u == 0x1680
    ||| (0x2000 <= u && u <= 0x200a)
    ||| u == 0x2028
    ||| u == 0x2029
    ||| u == 0x202f
    ||| u == 0x205f
    ||| u == 0x3000
}

/// The sequence with its leading whitespace removed.
pub open spec fn trim_start(s: Seq<char>) -> Seq<char>
    decreases s.len(),
{
    if s.len() > 0 && is_white_space(s[0]) {
        trim_start(s.subrange(1, s.len() as int))
    } else {
        s
    }
}

/// The sequence with its trailing whitespace removed.
pub open spec fn trim_end(s: Seq<char>) -> Seq<char>
    decreases s.len(),
{
    if s.len() > 0 && is_white_space(s[s.len() - 1]) {
        trim_end(s.subrange(0, s.len() - 1))
    } else {
        s
    }
}

/// The sequence with surrounding whitespace removed, as `str::trim` would
/// leave it.
pub open spec fn trimmed(s: Seq<char>) -> Seq<char> {
    trim_end(trim_start(s))
}

/// The code point used when comparing characters: ASCII lower-case letters
/// fold to their upper-case counterpart, everything else is itself.
pub open spec fn fold_code(c: char) -> u32 {
    if 97 <= c as u32 && c as u32 <= 122 {
        (c as u32 - 32) as u32
    } else {
        c as u32
    }
}

/// Equality of character sequences up to ASCII case.
pub open spec fn eq_ci(a: Seq<char>, b: Seq<char>) -> bool {
    a.len() == b.len() && forall|i: int| 0 <= i < a.len() ==> fold_code(a[i]) == fold_code(b[i])
}

/// The method named by `s`: the trimmed input, compared case-insensitively
/// against the recognised method names; `None` for everything else.
pub open spec fn spec_parse_method(s: Seq<char>) -> Option<Method> {
    let t = trimmed(s);
    if eq_ci(t, "GET"@) {
        Some(Method::Get)
    } else if eq_ci(t, "DELETE"@) {
        Some(Method::Delete)
    } else if eq_ci(t, "HEAD"@) {
        Some(Method::Head)
    } else if eq_ci(t, "OPTIONS"@) {
        Some(Method::Options)
    } else if eq_ci(t, "POST"@) {
        Some(Method::Post)
    } else if eq_ci(t, "PUT"@) {
        Some(Method::Put)
    } else if eq_ci(t, "PATCH"@) {
        Some(Method::Patch)
    } else {
        None
    }
}

/// Whether the method carries a request body.
pub open spec fn spec_requires_body(m: Method) -> bool {
    m is Post || m is Put || m is Patch
}

/// The canonical (upper-case) name of a method.
pub open spec fn spec_method_name(m: Method) -> Seq<char> {
    match m {
        Method::Get => "GET"@,
        Method::Head => "HEAD"@,
        Method::Options => "OPTIONS"@,
        Method::Delete => "DELETE"@,
        Method::Post => "POST"@,
        Method::Put => "PUT"@,
        Method::Patch => "PATCH"@,
    }
}

fn is_space(c: char) -> (r: bool)
    ensures
        r == is_white_space(c),
{
    let u = c as u32;
    u == 0x9 || u == 0xa || u == 0xb || u == 0xc || u == 0xd || u == 0x20 || u == 0x85
        || u == 0xa0 || u == 0x1680 || (0x2000 <= u && u <= 0x200a) || u == 0x2028
        || u == 0x2029 || u == 0x202f || u == 0x205f || u == 0x3000
}

fn fold_char(c: char) -> (r: u32)
    ensures
        r == fold_code(c),
{
    let v = c as u32;
    if 97 <= v && v <= 122 {
        v - 32
    } else {
        v
    }
}

/// Compares two strings for equality up to ASCII case.
pub fn eq_ignore_ascii_case(a: &str, b: &str) -> (r: bool)
    ensures
        r == eq_ci(a@, b@),
{
    let alen = a.unicode_len();
    let blen = b.unicode_len();
    if alen != blen {
        return false;
    }
    let mut i: usize = 0;
    while i < alen
        invariant
            alen == a@.len(),
            blen == b@.len(),
            alen == blen,
            i <= alen,
            forall|j: int| 0 <= j < i ==> fold_code(a@[j]) == fold_code(b@[j]),
        decreases alen - i,
    {
        let ca = a.get_char(i);
        let cb = b.get_char(i);
        if fold_char(ca) != fold_char(cb) {
            return false;
        }
        i += 1;
    }
    true
}

proof fn lemma_trim_start_at(s: Seq<char>, k: int)
    requires
        0 <= k <= s.len(),
        forall|i: int| 0 <= i < k ==> is_white_space(s[i]),
        k < s.len() ==> !is_white_space(s[k]),
    ensures
        trim_start(s) == s.subrange(k, s.len() as int),
    decreases k,
{
    if k == 0 {
        assert(s.subrange(0, s.len() as int) =~= s);
    } else {
        let s1 = s.subrange(1, s.len() as int);
        lemma_trim_start_at(s1, k - 1);
        assert(s1.subrange(k - 1, s1.len() as int) =~= s.subrange(k, s.len() as int));
    }
}

proof fn lemma_trim_end_at(s: Seq<char>, h: int)
    requires
        0 <= h <= s.len(),
        forall|i: int| h <= i < s.len() ==> is_white_space(s[i]),
        h > 0 ==> !is_white_space(s[h - 1]),
    ensures
        trim_end(s) == s.subrange(0, h),
    decreases s.len() - h,
{
    if h == s.len() {
        assert(s.subrange(0, s.len() as int) =~= s);
    } else {
        let s1 = s.subrange(0, s.len() - 1);
        lemma_trim_end_at(s1, h);
        assert(s1.subrange(0, h) =~= s.subrange(0, h));
    }
}

/// Recognises the method named by `method`, trimming surrounding whitespace
/// and ignoring ASCII case.
pub fn parse_method(method: &str) -> (r: Option<Method>)
    ensures
        r == spec_parse_method(method@),
{
    let n = method.unicode_len();
    let mut lo: usize = 0;
    while lo < n && is_space(method.get_char(lo))
        invariant
            n == method@.len(),
            lo <= n,
            forall|j: int| 0 <= j < lo ==> is_white_space(method@[j]),
        decreases n - lo,
    {
        lo += 1;
    }
    let mut hi: usize = n;
    while hi > lo && is_space(method.get_char(hi - 1))
        invariant
            n == method@.len(),
            lo <= hi <= n,
            forall|j: int| hi <= j < n ==> is_white_space(method@[j]),
        decreases hi,
    {
        hi -= 1;
    }
    proof {
        lemma_trim_start_at(method@, lo as int);
        let s1 = method@.subrange(lo as int, n as int);
        lemma_trim_end_at(s1, hi - lo);
        assert(s1.subrange(0, hi - lo) =~= method@.subrange(lo as int, hi as int));
    }
    let t = method.substring_char(lo, hi);
    if eq_ignore_ascii_case(t, "GET") {
        Some(Method::Get)
    } else if eq_ignore_ascii_case(t, "DELETE") {
        Some(Method::Delete)
    } else if eq_ignore_ascii_case(t, "HEAD") {
        Some(Method::Head)
    } else if eq_ignore_ascii_case(t, "OPTIONS") {
        Some(Method::Options)
    } else if eq_ignore_ascii_case(t, "POST") {
        Some(Method::Post)
    } else if eq_ignore_ascii_case(t, "PUT") {
        Some(Method::Put)
    } else if eq_ignore_ascii_case(t, "PATCH") {
        Some(Method::Patch)
    } else {
        None
    }
}

/// Whether the method carries a request body.
pub fn requires_body(m: Method) -> (r: bool)
    ensures
        r == spec_requires_body(m),
{
    match m {
        Method::Post | Method::Put | Method::Patch => true,
        _ => false,
    }
}

/// The canonical (upper-case) name of a method.
pub fn method_name(m: Method) -> (r: &'static str)
    ensures
        r@ == spec_method_name(m),
{
    match m {
        Method::Get => "GET",
        Method::Head => "HEAD",
        Method::Options => "OPTIONS",
        Method::Delete => "DELETE",
        Method::Post => "POST",
        Method::Put => "PUT",
        Method::Patch => "PATCH",
    }
}

proof fn lemma_eq_ci_common(a: Seq<char>, b: Seq<char>, c: Seq<char>)
    requires
        eq_ci(a, b),
    ensures
        eq_ci(a, c) == eq_ci(b, c),
{
    if eq_ci(a, c) {
        assert forall|i: int| 0 <= i < b.len() implies fold_code(b[i]) == fold_code(c[i]) by {
            assert(fold_code(a[i]) == fold_code(b[i]));
            assert(fold_code(a[i]) == fold_code(c[i]));
        }
    }
    if eq_ci(b, c) {
        assert forall|i: int| 0 <= i < a.len() implies fold_code(a[i]) == fold_code(c[i]) by {
            assert(fold_code(a[i]) == fold_code(b[i]));
            assert(fold_code(b[i]) == fold_code(c[i]));
        }
    }
}

proof fn lemma_trim_start_no_leading(s: Seq<char>)
    ensures
        trim_start(s).len() > 0 ==> !is_white_space(trim_start(s)[0]),
    decreases s.len(),
{
    if s.len() > 0 && is_white_space(s[0]) {
        lemma_trim_start_no_leading(s.subrange(1, s.len() as int));
    }
}

proof fn lemma_trim_end_no_trailing(s: Seq<char>)
    ensures
        trim_end(s).len() > 0 ==> !is_white_space(trim_end(s)[trim_end(s).len() - 1]),
    decreases s.len(),
{
    if s.len() > 0 && is_white_space(s[s.len() - 1]) {
        lemma_trim_end_no_trailing(s.subrange(0, s.len() - 1));
    }
}

proof fn lemma_trim_end_keeps_first(s: Seq<char>)
    ensures
        trim_end(s).len() <= s.len(),
        trim_end(s).len() > 0 ==> trim_end(s)[0] == s[0],
    decreases s.len(),
{
    if s.len() > 0 && is_white_space(s[s.len() - 1]) {
        lemma_trim_end_keeps_first(s.subrange(0, s.len() - 1));
    }
}

/// Trimming leaves nothing more to trim.
pub proof fn lemma_trimmed_idempotent(s: Seq<char>)
    ensures
        trimmed(trimmed(s)) == trimmed(s),
{
    let a = trim_start(s);
    let t = trim_end(a);
    lemma_trim_start_no_leading(s);
    lemma_trim_end_keeps_first(a);
    lemma_trim_end_no_trailing(a);
    assert(trim_start(t) == t);
    assert(trim_end(t) == t);
}

/// An input names the same method as its trimmed form: surrounding
/// whitespace never changes what is recognised.
pub proof fn lemma_parse_method_trim_invariant(s: Seq<char>)
    ensures
        spec_parse_method(trimmed(s)) == spec_parse_method(s),
{
    lemma_trimmed_idempotent(s);
    lemma_parse_method_insensitive(trimmed(s), s);
}

/// Method recognition depends only on the trimmed input up to ASCII case:
/// two inputs whose trimmed forms agree case-insensitively name the same
/// method (or both name none).
pub proof fn lemma_parse_method_insensitive(s1: Seq<char>, s2: Seq<char>)
    requires
        eq_ci(trimmed(s1), trimmed(s2)),
    ensures
        spec_parse_method(s1) == spec_parse_method(s2),
{
    let t1 = trimmed(s1);
    let t2 = trimmed(s2);
    lemma_eq_ci_common(t1, t2, "GET"@);
    lemma_eq_ci_common(t1, t2, "DELETE"@);
    lemma_eq_ci_common(t1, t2, "HEAD"@);
    lemma_eq_ci_common(t1, t2, "OPTIONS"@);
    lemma_eq_ci_common(t1, t2, "POST"@);
    lemma_eq_ci_common(t1, t2, "PUT"@);
    lemma_eq_ci_common(t1, t2, "PATCH"@);
}

} // verus!
