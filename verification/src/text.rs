//! Character-level string utilities with specifications: building strings,
//! decimal rendering of integers, and prefix / suffix / substring tests.
use vstd::prelude::*;
use vstd::string::*;

verus! {

// ---------------------------------------------------------------------------
// Specifications
// ---------------------------------------------------------------------------

/// `s` starts with `p`.
pub open spec fn seq_starts_with(s: Seq<char>, p: Seq<char>) -> bool {
    p.len() <= s.len() && s.subrange(0, p.len() as int) == p
}

/// `s` ends with `p`.
pub open spec fn seq_ends_with(s: Seq<char>, p: Seq<char>) -> bool {
    p.len() <= s.len() && s.subrange(s.len() - p.len(), s.len() as int) == p
}

/// `needle` occurs in `hay` starting at position `i`.
pub open spec fn occurs_at(hay: Seq<char>, needle: Seq<char>, i: int) -> bool {
    0 <= i && i + needle.len() <= hay.len() && hay.subrange(i, i + needle.len()) == needle
}

/// `needle` occurs somewhere in `hay`.
pub open spec fn seq_contains(hay: Seq<char>, needle: Seq<char>) -> bool {
    exists|i: int| occurs_at(hay, needle, i)
}

/// `s` with every leading copy of `p` removed (what `str::trim_start_matches`
/// gives for a non-empty pattern).
pub open spec fn trim_start_all(s: Seq<char>, p: Seq<char>) -> Seq<char>
    decreases s.len(),
{
    if p.len() > 0 && seq_starts_with(s, p) {
        trim_start_all(s.subrange(p.len() as int, s.len() as int), p)
    } else {
        s
    }
}

/// `s` with every trailing copy of `p` removed (what `str::trim_end_matches`
/// gives for a non-empty pattern).
pub open spec fn trim_end_all(s: Seq<char>, p: Seq<char>) -> Seq<char>
    decreases s.len(),
{
    if p.len() > 0 && seq_ends_with(s, p) {
        trim_end_all(s.subrange(0, s.len() - p.len()), p)
    } else {
        s
    }
}

/// The characters of a string quoted for display: backslash, double quote,
/// newline, carriage return, tab and NUL are escaped with a backslash, as
/// Rust's `Debug` does; other characters are kept as they are.
pub open spec fn debug_escape(s: Seq<char>) -> Seq<char>
    decreases s.len(),
{
    if s.len() == 0 {
        Seq::empty()
    } else {
        debug_escape(s.drop_last()) + escape_char(s[s.len() - 1])
    }
}

/// One character as `Debug` writes it inside a quoted string.
pub open spec fn escape_char(c: char) -> Seq<char> {
    if c == '\\' {
        seq!['\\', '\\']
    } else if c == '"' {
        seq!['\\', '"']
    } else if c == '\n' {
        seq!['\\', 'n']
    } else if c == '\r' {
        seq!['\\', 'r']
    } else if c == '\t' {
        seq!['\\', 't']
    } else if c == '\0' {
        seq!['\\', '0']
    } else {
        seq![c]
    }
}

/// The views of a list of strings.
pub open spec fn string_views(v: Seq<String>) -> Seq<Seq<char>> {
    v.map_values(|s: String| s@)
}

/// The ASCII digit character for a value below ten.
pub open spec fn digit_char(d: nat) -> char {
    ((48 + d) as u8) as char
}

/// Decimal rendering of a natural number, without leading zeros.
pub open spec fn dec_str(n: nat) -> Seq<char>
    decreases n,
{
    if n < 10 {
        seq![digit_char(n)]
    } else {
        dec_str(n / 10).push(digit_char(n % 10))
    }
}

// ---------------------------------------------------------------------------
// Building strings
// ---------------------------------------------------------------------------

/// Appends one character to a string (`String::push`).
#[verifier::external_body]
pub(crate) fn push_char(s: &mut String, c: char)
    ensures
        final(s)@ == old(s)@.push(c),
{
    s.push(c);
}

/// A new string holding the characters `v[lo..hi]`.
pub fn string_from_range(v: &Vec<char>, lo: usize, hi: usize) -> (s: String)
    requires
        lo <= hi <= v.len(),
    ensures
        s@ == v@.subrange(lo as int, hi as int),
{
    let mut s = String::new();
    let mut i: usize = lo;
    while i < hi
        invariant
            lo <= i <= hi,
            hi <= v.len(),
            s@ == v@.subrange(lo as int, i as int),
        decreases hi - i,
    {
        push_char(&mut s, v[i]);
        i = i + 1;
        assert(s@ =~= v@.subrange(lo as int, i as int));
    }
    s
}

/// A new string holding exactly the given characters.
pub fn string_from_chars(v: &Vec<char>) -> (s: String)
    ensures
        s@ == v@,
{
    let mut s = String::new();
    let mut i: usize = 0;
    while i < v.len()
        invariant
            i <= v.len(),
            s@ == v@.subrange(0, i as int),
        decreases v.len() - i,
    {
        push_char(&mut s, v[i]);
        i = i + 1;
        assert(s@ =~= v@.subrange(0, i as int));
    }
    assert(v@.subrange(0, v.len() as int) =~= v@);
    s
}

/// A new string holding the characters of `s`.
pub fn owned(s: &str) -> (r: String)
    ensures
        r@ == s@,
{
    String::from_str(s)
}

/// The concatenation of two strings.
pub fn concat2(a: &str, b: &str) -> (r: String)
    ensures
        r@ == a@ + b@,
{
    let mut r = String::from_str(a);
    r.append(b);
    r
}

/// The concatenation of three strings.
pub fn concat3(a: &str, b: &str, c: &str) -> (r: String)
    ensures
        r@ == a@ + b@ + c@,
{
    let mut r = String::from_str(a);
    r.append(b);
    r.append(c);
    r
}

/// The characters of a string, as a vector.
pub fn chars_of(s: &str) -> (v: Vec<char>)
    ensures
        v@ == s@,
{
    let n = s.unicode_len();
    let mut v: Vec<char> = Vec::new();
    let mut i: usize = 0;
    while i < n
        invariant
            n == s@.len(),
            i <= n,
            v@ == s@.subrange(0, i as int),
        decreases n - i,
    {
        let c = s.get_char(i);
        v.push(c);
        i = i + 1;
        assert(v@ =~= s@.subrange(0, i as int));
    }
    assert(s@.subrange(0, n as int) =~= s@);
    v
}

/// Appends the decimal rendering of `n` to `s`.
pub fn push_decimal(s: &mut String, n: u64)
    ensures
        final(s)@ == old(s)@ + dec_str(n as nat),
    decreases n,
{
    if n >= 10 {
        push_decimal(s, n / 10);
    }
    let d: u8 = (n % 10) as u8;
    let c: char = (48u8 + d) as char;
    push_char(s, c);
    proof {
        assert(c == digit_char((n % 10) as nat));
        if n >= 10 {
            assert(dec_str(n as nat) == dec_str((n / 10) as nat).push(digit_char((n % 10) as nat)));
        }
    }
    assert(final(s)@ =~= old(s)@ + dec_str(n as nat));
}

/// The decimal rendering of `n` (`n.to_string()`).
pub fn u64_to_string(n: u64) -> (s: String)
    ensures
        s@ == dec_str(n as nat),
{
    let mut s = String::new();
    push_decimal(&mut s, n);
    assert(s@ =~= dec_str(n as nat));
    s
}

// ---------------------------------------------------------------------------
// Comparisons
// ---------------------------------------------------------------------------

/// Whether two character vectors agree on `len` characters starting at
/// `a_start` and `b_start`.
pub fn chars_match_at(a: &Vec<char>, a_start: usize, b: &Vec<char>, b_start: usize, len: usize) -> (r: bool)
    requires
        a_start + len <= a.len(),
        b_start + len <= b.len(),
    ensures
        r == (a@.subrange(a_start as int, a_start + len) == b@.subrange(b_start as int, b_start + len)),
{
    let ghost sa = a@.subrange(a_start as int, a_start + len);
    let ghost sb = b@.subrange(b_start as int, b_start + len);
    let mut i: usize = 0;
    while i < len
        invariant
            i <= len,
            a_start + len <= a.len(),
            b_start + len <= b.len(),
            sa == a@.subrange(a_start as int, a_start + len),
            sb == b@.subrange(b_start as int, b_start + len),
            forall|k: int| 0 <= k < i ==> #[trigger] sa[k] == sb[k],
        decreases len - i,
    {
        if a[a_start + i] != b[b_start + i] {
            assert(sa[i as int] != sb[i as int]);
            return false;
        }
        i = i + 1;
    }
    assert(sa =~= sb);
    true
}

/// Whether two character vectors are equal.
pub fn chars_eq(a: &Vec<char>, b: &Vec<char>) -> (r: bool)
    ensures
        r == (a@ == b@),
{
    if a.len() != b.len() {
        return false;
    }
    let r = chars_match_at(a, 0, b, 0, a.len());
    assert(a@.subrange(0, a.len() as int) =~= a@);
    assert(b@.subrange(0, b.len() as int) =~= b@);
    r
}

/// Whether two strings are equal.
pub fn str_eq(a: &str, b: &str) -> (r: bool)
    ensures
        r == (a@ == b@),
{
    let va = chars_of(a);
    let vb = chars_of(b);
    chars_eq(&va, &vb)
}

/// Whether `s` starts with `p`.
pub fn chars_starts_with(s: &Vec<char>, p: &Vec<char>) -> (r: bool)
    ensures
        r == seq_starts_with(s@, p@),
{
    if p.len() > s.len() {
        return false;
    }
    let r = chars_match_at(s, 0, p, 0, p.len());
    assert(p@.subrange(0, p.len() as int) =~= p@);
    r
}

/// Whether `s` ends with `p`.
pub fn chars_ends_with(s: &Vec<char>, p: &Vec<char>) -> (r: bool)
    ensures
        r == seq_ends_with(s@, p@),
{
    if p.len() > s.len() {
        return false;
    }
    let r = chars_match_at(s, s.len() - p.len(), p, 0, p.len());
    assert(p@.subrange(0, p.len() as int) =~= p@);
    r
}

/// Whether `needle` occurs in `hay`.
pub fn chars_contains(hay: &Vec<char>, needle: &Vec<char>) -> (r: bool)
    ensures
        r == seq_contains(hay@, needle@),
{
    if needle.len() > hay.len() {
        proof {
            assert forall|i: int| !occurs_at(hay@, needle@, i) by {}
        }
        return false;
    }
    let last = hay.len() - needle.len();
    assert(needle@.subrange(0, needle.len() as int) =~= needle@);
    let mut i: usize = 0;
    loop
        invariant
            last + needle.len() == hay.len(),
            i <= last,
            needle@.subrange(0, needle.len() as int) == needle@,
            forall|k: int| 0 <= k < i ==> !occurs_at(hay@, needle@, k),
        ensures
            forall|k: int| 0 <= k <= last ==> !occurs_at(hay@, needle@, k),
        decreases last - i,
    {
        if chars_match_at(hay, i, needle, 0, needle.len()) {
            assert(occurs_at(hay@, needle@, i as int));
            return true;
        }
        if i == last {
            break;
        }
        i = i + 1;
    }
    assert forall|k: int| !occurs_at(hay@, needle@, k) by {
        if 0 <= k && k + needle@.len() <= hay@.len() {
            assert(k <= last);
        }
    }
    false
}

/// Whether string `s` ends with `p`.
pub fn str_ends_with(s: &str, p: &str) -> (r: bool)
    ensures
        r == seq_ends_with(s@, p@),
{
    let vs = chars_of(s);
    let vp = chars_of(p);
    chars_ends_with(&vs, &vp)
}

/// Whether string `s` starts with `p`.
pub fn str_starts_with(s: &str, p: &str) -> (r: bool)
    ensures
        r == seq_starts_with(s@, p@),
{
    let vs = chars_of(s);
    let vp = chars_of(p);
    chars_starts_with(&vs, &vp)
}

/// Whether `needle` occurs in string `hay`.
pub fn str_contains(hay: &str, needle: &str) -> (r: bool)
    ensures
        r == seq_contains(hay@, needle@),
{
    let vh = chars_of(hay);
    let vn = chars_of(needle);
    chars_contains(&vh, &vn)
}

/// `s` without its leading copies of `p` (`str::trim_start_matches`).
pub fn trim_start_str(s: &str, p: &str) -> (r: String)
    ensures
        r@ == trim_start_all(s@, p@),
{
    let sv = chars_of(s);
    let pv = chars_of(p);
    if pv.len() == 0 {
        return owned(s);
    }
    let n = sv.len();
    let m = pv.len();
    let mut start: usize = 0;
    assert(sv@.subrange(0, n as int) =~= sv@);
    loop
        invariant
            n == sv.len(),
            m == pv.len(),
            m > 0,
            start <= n,
            trim_start_all(sv@.subrange(start as int, n as int), pv@) == trim_start_all(sv@, pv@),
        ensures
            start <= n,
            trim_start_all(sv@.subrange(start as int, n as int), pv@) == trim_start_all(sv@, pv@),
            !seq_starts_with(sv@.subrange(start as int, n as int), pv@),
        decreases n - start,
    {
        let ghost rest = sv@.subrange(start as int, n as int);
        if m <= n - start && chars_match_at(&sv, start, &pv, 0, m) {
            assert(pv@.subrange(0, m as int) =~= pv@);
            assert(rest.subrange(0, m as int) =~= sv@.subrange(start as int, start + m));
            assert(rest.subrange(m as int, rest.len() as int) =~= sv@.subrange(start + m, n as int));
            start = start + m;
        } else {
            proof {
                if seq_starts_with(rest, pv@) {
                    assert(pv@.subrange(0, m as int) =~= pv@);
                    assert(rest.subrange(0, m as int) =~= sv@.subrange(start as int, start + m));
                }
            }
            break;
        }
    }
    string_from_range(&sv, start, n)
}

/// `s` without its trailing copies of `p` (`str::trim_end_matches`).
pub fn trim_end_str(s: &str, p: &str) -> (r: String)
    ensures
        r@ == trim_end_all(s@, p@),
{
    let sv = chars_of(s);
    let pv = chars_of(p);
    if pv.len() == 0 {
        return owned(s);
    }
    let m = pv.len();
    let mut end: usize = sv.len();
    assert(sv@.subrange(0, end as int) =~= sv@);
    loop
        invariant
            m == pv.len(),
            m > 0,
            end <= sv.len(),
            trim_end_all(sv@.subrange(0, end as int), pv@) == trim_end_all(sv@, pv@),
        ensures
            end <= sv.len(),
            trim_end_all(sv@.subrange(0, end as int), pv@) == trim_end_all(sv@, pv@),
            !seq_ends_with(sv@.subrange(0, end as int), pv@),
        decreases end,
    {
        let ghost rest = sv@.subrange(0, end as int);
        if m <= end && chars_match_at(&sv, end - m, &pv, 0, m) {
            assert(pv@.subrange(0, m as int) =~= pv@);
            assert(rest.subrange(rest.len() - m, rest.len() as int) =~= sv@.subrange(end - m, end as int));
            assert(rest.subrange(0, rest.len() - m) =~= sv@.subrange(0, end - m));
            end = end - m;
        } else {
            proof {
                if seq_ends_with(rest, pv@) {
                    assert(pv@.subrange(0, m as int) =~= pv@);
                    assert(rest.subrange(rest.len() - m, rest.len() as int) =~= sv@.subrange(end - m, end as int));
                }
            }
            break;
        }
    }
    string_from_range(&sv, 0, end)
}

/// Appends `s` as `Debug` writes it inside quotes: backslashes, quotes,
/// line feeds, carriage returns, tabs and NULs are escaped.
pub fn push_debug_str(r: &mut String, s: &str)
    ensures
        final(r)@ == old(r)@ + debug_escape(s@),
{
    let v = chars_of(s);
    let ghost start = r@;
    let mut i: usize = 0;
    while i < v.len()
        invariant
            i <= v.len(),
            r@ == start + debug_escape(v@.subrange(0, i as int)),
        decreases v.len() - i,
    {
        let c = v[i];
        let ghost before = r@;
        if c == '\\' {
            push_char(r, '\\');
            push_char(r, '\\');
        } else if c == '"' {
            push_char(r, '\\');
            push_char(r, '"');
        } else if c == '\n' {
            push_char(r, '\\');
            push_char(r, 'n');
        } else if c == '\r' {
            push_char(r, '\\');
            push_char(r, 'r');
        } else if c == '\t' {
            push_char(r, '\\');
            push_char(r, 't');
        } else if c == '\0' {
            push_char(r, '\\');
            push_char(r, '0');
        } else {
            push_char(r, c);
        }
        assert(r@ =~= before + escape_char(c));
        assert(v@.subrange(0, i + 1).drop_last() =~= v@.subrange(0, i as int));
        i = i + 1;
    }
    assert(v@.subrange(0, v.len() as int) =~= v@);
}

/// Whether the list holds a string equal to `s`.
pub fn contains_string(list: &Vec<String>, s: &str) -> (r: bool)
    ensures
        r == exists|i: int| 0 <= i < list@.len() && list@[i]@ == s@,
{
    let mut i: usize = 0;
    while i < list.len()
        invariant
            i <= list.len(),
            forall|k: int| 0 <= k < i ==> list@[k]@ != s@,
        decreases list.len() - i,
    {
        if str_eq(list[i].as_str(), s) {
            return true;
        }
        i = i + 1;
    }
    false
}

} // verus!
