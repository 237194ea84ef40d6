//! Character-level helpers on strings, each stated over `Seq<char>`.

use vstd::prelude::*;
use vstd::string::*;

verus! {

/// `p` occurs in `s` starting at position `i`.
pub open spec fn occurs_at(s: Seq<char>, p: Seq<char>, i: int) -> bool {
    0 <= i && i + p.len() <= s.len() && s.subrange(i, i + p.len()) == p
}

/// `p` is a contiguous part of `s`.
pub open spec fn has_sub(s: Seq<char>, p: Seq<char>) -> bool {
    exists|i: int| occurs_at(s, p, i)
}

/// `s` begins with `p`.
pub open spec fn has_prefix(s: Seq<char>, p: Seq<char>) -> bool {
    p.len() <= s.len() && s.subrange(0, p.len() as int) == p
}

/// `s` ends with `p`.
pub open spec fn has_suffix(s: Seq<char>, p: Seq<char>) -> bool {
    p.len() <= s.len() && s.subrange(s.len() - p.len(), s.len() as int) == p
}

/// What lowercasing makes of a string.
pub uninterp spec fn lower_of(s: Seq<char>) -> Seq<char>;

/// Relies on `str::to_lowercase`: the result depends on the characters alone.
#[verifier::external_body]
pub(crate) fn lowercase(s: &str) -> (r: String)
    ensures
        r@ == lower_of(s@),
{
    s.to_lowercase()
}

/// The characters of `s`, one per element.
pub fn chars_of(s: &str) -> (r: Vec<char>)
    ensures
        r@ == s@,
{
    let n = s.unicode_len();
    let mut v: Vec<char> = Vec::new();
    let mut i: usize = 0;
    while i < n
        invariant
            n == s@.len(),
            i <= n,
            v@ == s@.subrange(0, i as int),
        decreases n - i,
    {
        v.push(s.get_char(i));
        i += 1;
    }
    assert(v@ =~= s@);
    v
}

/// Whether `p` occurs in `s` at position `i`, on character vectors.
pub(crate) fn occurs_at_vec(s: &Vec<char>, p: &Vec<char>, i: usize) -> (r: bool)
    requires
        i + p@.len() <= s@.len(),
    ensures
        r == occurs_at(s@, p@, i as int),
{
    let m = p.len();
    let n = s.len();
    let mut k: usize = 0;
    while k < m
        invariant
            m == p@.len(),
            n == s@.len(),
            i + m <= n,
            k <= m,
            forall|j: int| 0 <= j < k ==> s@[i + j] == p@[j],
        decreases m - k,
    {
        if s[i + k] != p[k] {
            assert(s@.subrange(i as int, i + m)[k as int] != p@[k as int]);
            return false;
        }
        k += 1;
    }
    assert(s@.subrange(i as int, i + m) =~= p@);
    true
}

/// Whether `p` is a contiguous part of `s`, on character vectors.
pub fn vec_has_sub(s: &Vec<char>, p: &Vec<char>) -> (r: bool)
    ensures
        r == has_sub(s@, p@),
{
    let n = s.len();
    let m = p.len();
    if m > n {
        assert forall|i: int| !occurs_at(s@, p@, i) by {}
        return false;
    }
    let mut i: usize = 0;
    loop
        invariant
            n == s@.len(),
            m == p@.len(),
            m <= n,
            i <= n - m,
            forall|k: int| 0 <= k < i ==> !occurs_at(s@, p@, k),
        ensures
            forall|k: int| 0 <= k <= n - m ==> !occurs_at(s@, p@, k),
        decreases n - m - i,
    {
        if occurs_at_vec(s, p, i) {
            return true;
        }
        if i == n - m {
            break;
        }
        i += 1;
    }
    assert forall|k: int| !occurs_at(s@, p@, k) by {
        if 0 <= k <= n - m {
        }
    }
    false
}

/// Whether `p` is a contiguous part of `s`.
pub fn contains_text(s: &str, p: &str) -> (r: bool)
    ensures
        r == has_sub(s@, p@),
{
    let sv = chars_of(s);
    let pv = chars_of(p);
    vec_has_sub(&sv, &pv)
}

/// Whether `s` begins with `p`.
pub fn starts_with_text(s: &str, p: &str) -> (r: bool)
    ensures
        r == has_prefix(s@, p@),
{
    let sv = chars_of(s);
    let pv = chars_of(p);
    if pv.len() > sv.len() {
        return false;
    }
    let r = occurs_at_vec(&sv, &pv, 0);
    r
}

/// Whether `s` ends with `p`.
pub fn ends_with_text(s: &str, p: &str) -> (r: bool)
    ensures
        r == has_suffix(s@, p@),
{
    let sv = chars_of(s);
    let pv = chars_of(p);
    if pv.len() > sv.len() {
        return false;
    }
    occurs_at_vec(&sv, &pv, sv.len() - pv.len())
}

/// Whether the two strings hold the same characters.
pub fn text_eq(a: &str, b: &str) -> (r: bool)
    ensures
        r == (a@ == b@),
{
    let av = chars_of(a);
    let bv = chars_of(b);
    if av.len() != bv.len() {
        return false;
    }
    let r = occurs_at_vec(&av, &bv, 0);
    proof {
        if r {
            assert(a@ =~= a@.subrange(0, b@.len() as int));
        } else {
            assert(a@.subrange(0, b@.len() as int) =~= a@);
        }
    }
    r
}

/// The decimal digit for `d` (below ten).
pub open spec fn digit_char(d: nat) -> char {
    seq!['0', '1', '2', '3', '4', '5', '6', '7', '8', '9'][d as int]
}

/// The decimal rendering of `n`, without leading zeros.
pub open spec fn digits_of(n: nat) -> Seq<char>
    decreases n,
{
    if n < 10 {
        seq![digit_char(n)]
    } else {
        digits_of(n / 10).push(digit_char(n % 10))
    }
}

/// The decimal rendering of `i`, with a leading `-` when negative.
pub open spec fn int_text(i: int) -> Seq<char> {
    if i < 0 {
        seq!['-'] + digits_of((-i) as nat)
    } else {
        digits_of(i as nat)
    }
}

fn digit_text(d: u64) -> (r: &'static str)
    requires
        d < 10,
    ensures
        r@ == seq![digit_char(d as nat)],
{
    proof {
        reveal_strlit("0");
        reveal_strlit("1");
        reveal_strlit("2");
        reveal_strlit("3");
        reveal_strlit("4");
        reveal_strlit("5");
        reveal_strlit("6");
        reveal_strlit("7");
        reveal_strlit("8");
        reveal_strlit("9");
    }
    let r = if d == 0 {
        "0"
    } else if d == 1 {
        "1"
    } else if d == 2 {
        "2"
    } else if d == 3 {
        "3"
    } else if d == 4 {
        "4"
    } else if d == 5 {
        "5"
    } else if d == 6 {
        "6"
    } else if d == 7 {
        "7"
    } else if d == 8 {
        "8"
    } else {
        "9"
    };
    assert(r@ =~= seq![digit_char(d as nat)]);
    r
}

/// The decimal rendering of an unsigned number.
pub fn u64_text(n: u64) -> (r: String)
    ensures
        r@ == digits_of(n as nat),
    decreases n,
{
    if n < 10 {
        digit_text(n).to_owned()
    } else {
        let mut s = u64_text(n / 10);
        s.append(digit_text(n % 10));
        assert(s@ =~= digits_of(n as nat));
        s
    }
}

/// The decimal rendering of a signed number.
pub fn i64_text(n: i64) -> (r: String)
    ensures
        r@ == int_text(n as int),
{
    if n < 0 {
        let m: u64 = (-(n as i128)) as u64;
        let mut s = "-".to_owned();
        proof {
            reveal_strlit("-");
        }
        let d = u64_text(m);
        s.append(d.as_str());
        assert(s@ =~= int_text(n as int));
        s
    } else {
        u64_text(n as u64)
    }
}

/// The concatenation of `a` and `b`.
pub fn join2(a: &str, b: &str) -> (r: String)
    ensures
        r@ == a@ + b@,
{
    let mut s = a.to_owned();
    s.append(b);
    s
}

/// The parts, in order, with `sep` between each two of them.
pub open spec fn joined(parts: Seq<Seq<char>>, sep: Seq<char>) -> Seq<char>
    decreases parts.len(),
{
    if parts.len() == 0 {
        Seq::empty()
    } else if parts.len() == 1 {
        parts[0]
    } else {
        joined(parts.drop_last(), sep) + sep + parts.last()
    }
}

/// The views of a list of strings.
pub open spec fn views(v: Seq<String>) -> Seq<Seq<char>> {
    v.map_values(|s: String| s@)
}

/// Joins the parts with `sep` between each two of them.
pub fn join_with(parts: &Vec<String>, sep: &str) -> (r: String)
    ensures
        r@ == joined(views(parts@), sep@),
{
    let mut s = String::new();
    let n = parts.len();
    let mut i: usize = 0;
    while i < n
        invariant
            n == parts@.len(),
            i <= n,
            s@ == joined(views(parts@).take(i as int), sep@),
        decreases n - i,
    {
        if i > 0 {
            s.append(sep);
        }
        s.append(parts[i].as_str());
        proof {
            let t = views(parts@).take(i + 1);
            assert(t.drop_last() =~= views(parts@).take(i as int));
            if i == 0 {
                assert(s@ =~= t[0]);
            }
        }
        i += 1;
    }
    assert(views(parts@).take(n as int) =~= views(parts@));
    s
}

/// The views of a list of string slices.
pub open spec fn lit_views(v: Seq<&str>) -> Seq<Seq<char>> {
    v.map_values(|p: &str| p@)
}

/// The view of an optional string.
pub open spec fn opt_text(o: Option<String>) -> Option<Seq<char>> {
    match o {
        Some(s) => Some(s@),
        None => None,
    }
}

/// Pattern `k` is the first of `pats` that occurs in `s`.
pub open spec fn is_first_hit(s: Seq<char>, pats: Seq<Seq<char>>, k: int) -> bool {
    &&& 0 <= k < pats.len()
    &&& has_sub(s, pats[k])
    &&& forall|j: int| 0 <= j < k ==> !has_sub(s, #[trigger] pats[j])
}

/// The position of the first of `pats` that occurs in `s`, if any does.
pub open spec fn first_hit(s: Seq<char>, pats: Seq<Seq<char>>) -> Option<int> {
    if exists|k: int| is_first_hit(s, pats, k) {
        Some(choose|k: int| is_first_hit(s, pats, k))
    } else {
        None
    }
}

/// At most one pattern is the first to occur.
pub proof fn first_hit_is_unique(s: Seq<char>, pats: Seq<Seq<char>>, k: int)
    requires
        is_first_hit(s, pats, k),
    ensures
        first_hit(s, pats) == Some(k),
{
    let c = choose|k: int| is_first_hit(s, pats, k);
    assert(is_first_hit(s, pats, c));
    if c < k {
        assert(!has_sub(s, pats[c]));
    } else if k < c {
        assert(!has_sub(s, pats[k]));
    }
}

/// Finds the first of `pats` that occurs in `s`.
pub fn find_first_hit(s: &Vec<char>, pats: &Vec<&str>) -> (r: Option<usize>)
    ensures
        match r {
            Some(k) => first_hit(s@, lit_views(pats@)) == Some(k as int),
            None => first_hit(s@, lit_views(pats@)) is None,
        },
{
    let n = pats.len();
    let mut i: usize = 0;
    while i < n
        invariant
            n == pats@.len(),
            i <= n,
            forall|j: int| 0 <= j < i ==> !has_sub(s@, #[trigger] lit_views(pats@)[j]),
        decreases n - i,
    {
        let pv = chars_of(pats[i]);
        if vec_has_sub(s, &pv) {
            proof {
                first_hit_is_unique(s@, lit_views(pats@), i as int);
            }
            return Some(i);
        }
        i += 1;
    }
    proof {
        if exists|k: int| is_first_hit(s@, lit_views(pats@), k) {
            let k = choose|k: int| is_first_hit(s@, lit_views(pats@), k);
            assert(!has_sub(s@, lit_views(pats@)[k]));
        }
    }
    None
}

/// `s` with every occurrence of `from`, scanned left to right without
/// overlap, replaced by `to`.
pub open spec fn replace_all(s: Seq<char>, from: Seq<char>, to: Seq<char>) -> Seq<char>
    decreases s.len(),
{
    if from.len() == 0 || s.len() < from.len() {
        s
    } else if s.take(from.len() as int) == from {
        to + replace_all(s.skip(from.len() as int), from, to)
    } else {
        seq![s[0]] + replace_all(s.skip(1), from, to)
    }
}

/// Replaces every occurrence of `from` (not empty) in `s` by `to`.
pub fn replace_text(s: &str, from: &str, to: &str) -> (r: String)
    requires
        from@.len() > 0,
    ensures
        r@ == replace_all(s@, from@, to@),
{
    let sv = chars_of(s);
    let fv = chars_of(from);
    let n = sv.len();
    let m = fv.len();
    let mut out = String::new();
    let mut i: usize = 0;
    assert(s@.skip(0) =~= s@);
    while i < n
        invariant
            n == s@.len(),
            m == from@.len(),
            m > 0,
            sv@ == s@,
            fv@ == from@,
            i <= n,
            out@ + replace_all(s@.skip(i as int), from@, to@) == replace_all(s@, from@, to@),
        decreases n - i,
    {
        let ghost rest = s@.skip(i as int);
        if m <= n - i && occurs_at_vec(&sv, &fv, i) {
            proof {
                assert(rest.take(m as int) =~= s@.subrange(i as int, i + m));
                assert(rest.skip(m as int) =~= s@.skip(i + m));
            }
            out.append(to);
            i += m;
        } else {
            proof {
                if m <= rest.len() {
                    assert(rest.take(m as int) =~= s@.subrange(i as int, i + m));
                }
                assert(rest.skip(1) =~= s@.skip(i + 1));
                if rest.len() < m {
                    assert(rest.skip(1).len() < m);
                    assert(rest =~= seq![rest[0]] + rest.skip(1));
                }
            }
            let c = s.substring_char(i, i + 1);
            assert(c@ =~= seq![rest[0]]);
            out.append(c);
            i += 1;
        }
    }
    assert(s@.skip(n as int).len() == 0);
    assert(out@ =~= out@ + replace_all(s@.skip(n as int), from@, to@));
    out
}

/// The lowercase hex digit for `d` (below sixteen).
pub open spec fn hex_char(d: nat) -> char {
    seq!['0', '1', '2', '3', '4', '5', '6', '7', '8', '9', 'a', 'b', 'c', 'd', 'e', 'f'][d as int]
}

/// The lowercase hex rendering of `n`, without leading zeros.
pub open spec fn hex_of(n: nat) -> Seq<char>
    decreases n,
{
    if n < 16 {
        seq![hex_char(n)]
    } else {
        hex_of(n / 16).push(hex_char(n % 16))
    }
}

fn hex_digit_text(d: u128) -> (r: &'static str)
    requires
        d < 16,
    ensures
        r@ == seq![hex_char(d as nat)],
{
    proof {
        reveal_strlit("a");
        reveal_strlit("b");
        reveal_strlit("c");
        reveal_strlit("d");
        reveal_strlit("e");
        reveal_strlit("f");
    }
    let r = if d < 10 {
        digit_text(d as u64)
    } else if d == 10 {
        "a"
    } else if d == 11 {
        "b"
    } else if d == 12 {
        "c"
    } else if d == 13 {
        "d"
    } else if d == 14 {
        "e"
    } else {
        "f"
    };
    assert(r@ =~= seq![hex_char(d as nat)]);
    r
}

/// The lowercase hex rendering of a number.
pub fn u128_hex(n: u128) -> (r: String)
    ensures
        r@ == hex_of(n as nat),
    decreases n,
{
    if n < 16 {
        hex_digit_text(n).to_owned()
    } else {
        let mut s = u128_hex(n / 16);
        s.append(hex_digit_text(n % 16));
        assert(s@ =~= hex_of(n as nat));
        s
    }
}

/// How one character is written inside a single-quoted script string:
/// backslash and quote are escaped, and line breaks too when asked.
pub open spec fn escape_char(c: char, newlines: bool) -> Seq<char> {
    if c == '\\' {
        seq!['\\', '\\']
    } else if c == '\'' {
        seq!['\\', '\'']
    } else if newlines && c == '\n' {
        seq!['\\', 'n']
    } else {
        seq![c]
    }
}

/// `s` written inside a single-quoted script string.
pub open spec fn js_escaped(s: Seq<char>, newlines: bool) -> Seq<char>
    decreases s.len(),
{
    if s.len() == 0 {
        Seq::empty()
    } else {
        js_escaped(s.drop_last(), newlines) + escape_char(s.last(), newlines)
    }
}

/// Writes `s` for use inside a single-quoted script string.
pub fn escape_js(s: &str, newlines: bool) -> (r: String)
    ensures
        r@ == js_escaped(s@, newlines),
{
    proof {
        reveal_strlit("\\n");
    }
    // a lone backslash, taken from the escape of a line break
    let backslash = "\\n".substring_char(0, 1);
    assert(backslash@ =~= seq!['\\']);
    let n = s.unicode_len();
    let mut out = String::new();
    let mut i: usize = 0;
    while i < n
        invariant
            n == s@.len(),
            i <= n,
            backslash@ == seq!['\\'],
            out@ == js_escaped(s@.take(i as int), newlines),
        decreases n - i,
    {
        proof {
            assert(s@.take(i + 1).drop_last() =~= s@.take(i as int));
        }
        let c = s.get_char(i);
        assert(s@.take(i + 1).last() == c);
        let one = s.substring_char(i, i + 1);
        assert(one@ =~= seq![c]);
        let ghost before = out@;
        if c == '\\' || c == '\'' {
            out.append(backslash);
            out.append(one);
        } else if newlines && c == '\n' {
            out.append(backslash);
            out.append("n");
            proof {
                reveal_strlit("n");
            }
        } else {
            out.append(one);
        }
        assert(out@ =~= before + escape_char(c, newlines));
        i += 1;
    }
    assert(s@.take(n as int) =~= s@);
    out
}

/// The hex rendering of `n`, padded with leading zeros to `width` digits.
pub open spec fn padded_hex(n: nat, width: nat) -> Seq<char> {
    if hex_of(n).len() >= width {
        hex_of(n)
    } else {
        Seq::new((width - hex_of(n).len()) as nat, |i: int| '0') + hex_of(n)
    }
}

/// Renders `n` in hex, padded with leading zeros to `width` digits.
pub fn u128_hex_padded(n: u128, width: usize) -> (r: String)
    ensures
        r@ == padded_hex(n as nat, width as nat),
{
    let digits = u128_hex(n);
    let len = digits.unicode_len();
    if len >= width {
        return digits;
    }
    proof {
        reveal_strlit("0");
    }
    let mut s = String::new();
    let mut i: usize = 0;
    while i < width - len
        invariant
            i <= width - len,
            len == hex_of(n as nat).len(),
            len < width,
            s@ == Seq::new(i as nat, |k: int| '0'),
        decreases width - len - i,
    {
        proof {
            reveal_strlit("0");
        }
        s.append("0");
        assert(s@ =~= Seq::new((i + 1) as nat, |k: int| '0'));
        i += 1;
    }
    s.append(digits.as_str());
    s
}

/// `p` occurs at `i` and nowhere before.
pub open spec fn is_first_occurrence(s: Seq<char>, p: Seq<char>, i: int) -> bool {
    &&& occurs_at(s, p, i)
    &&& forall|j: int| 0 <= j < i ==> !occurs_at(s, p, j)
}

/// Where `p` first occurs in `s`, if it does.
pub open spec fn first_occurrence(s: Seq<char>, p: Seq<char>) -> Option<int> {
    if has_sub(s, p) {
        Some(choose|i: int| is_first_occurrence(s, p, i))
    } else {
        None
    }
}

proof fn first_occurrence_is_unique(s: Seq<char>, p: Seq<char>, i: int)
    requires
        is_first_occurrence(s, p, i),
    ensures
        first_occurrence(s, p) == Some(i),
{
    let c = choose|i: int| is_first_occurrence(s, p, i);
    assert(is_first_occurrence(s, p, c));
    if c < i {
        assert(!occurs_at(s, p, c));
    } else if i < c {
        assert(!occurs_at(s, p, i));
    }
}

/// Finds where `p` first occurs in `s`.
pub fn find_text(s: &str, p: &str) -> (r: Option<usize>)
    ensures
        match r {
            Some(i) => first_occurrence(s@, p@) == Some(i as int) && is_first_occurrence(
                s@,
                p@,
                i as int,
            ),
            None => first_occurrence(s@, p@) is None,
        },
{
    let sv = chars_of(s);
    let pv = chars_of(p);
    let n = sv.len();
    let m = pv.len();
    if m > n {
        assert forall|i: int| !occurs_at(s@, p@, i) by {}
        return None;
    }
    let mut i: usize = 0;
    loop
        invariant
            n == s@.len(),
            m == p@.len(),
            sv@ == s@,
            pv@ == p@,
            m <= n,
            i <= n - m,
            forall|k: int| 0 <= k < i ==> !occurs_at(s@, p@, k),
        ensures
            forall|k: int| 0 <= k <= n - m ==> !occurs_at(s@, p@, k),
        decreases n - m - i,
    {
        if occurs_at_vec(&sv, &pv, i) {
            proof {
                first_occurrence_is_unique(s@, p@, i as int);
            }
            return Some(i);
        }
        if i == n - m {
            break;
        }
        i += 1;
    }
    assert forall|k: int| !occurs_at(s@, p@, k) by {
        if 0 <= k <= n - m {
        }
    }
    None
}

/// `s` with each single quote escaped, other characters as they are.
pub open spec fn quotes_escaped(s: Seq<char>) -> Seq<char>
    decreases s.len(),
{
    if s.len() == 0 {
        Seq::empty()
    } else {
        quotes_escaped(s.drop_last()) + if s.last() == '\'' {
            seq!['\\', '\'']
        } else {
            seq![s.last()]
        }
    }
}

/// Escapes the single quotes of `s`.
pub fn escape_quotes(s: &str) -> (r: String)
    ensures
        r@ == quotes_escaped(s@),
{
    proof {
        reveal_strlit("\\n");
    }
    let backslash = "\\n".substring_char(0, 1);
    assert(backslash@ =~= seq!['\\']);
    let n = s.unicode_len();
    let mut out = String::new();
    let mut i: usize = 0;
    while i < n
        invariant
            n == s@.len(),
            i <= n,
            backslash@ == seq!['\\'],
            out@ == quotes_escaped(s@.take(i as int)),
        decreases n - i,
    {
        proof {
            assert(s@.take(i + 1).drop_last() =~= s@.take(i as int));
        }
        let c = s.get_char(i);
        assert(s@.take(i + 1).last() == c);
        let one = s.substring_char(i, i + 1);
        assert(one@ =~= seq![c]);
        let ghost before = out@;
        if c == '\'' {
            out.append(backslash);
        }
        out.append(one);
        assert(out@ =~= before + (if c == '\'' {
            seq!['\\', '\'']
        } else {
            seq![c]
        }));
        i += 1;
    }
    assert(s@.take(n as int) =~= s@);
    out
}

/// A character with ASCII capitals made small.
pub open spec fn ascii_lower(c: char) -> char {
    if 'A' <= c && c <= 'Z' {
        ((c as u8) + 32) as char
    } else {
        c
    }
}

/// The two strings are equal when ASCII case is ignored.
pub open spec fn eq_ignoring_ascii_case(a: Seq<char>, b: Seq<char>) -> bool {
    a.len() == b.len() && forall|i: int| 0 <= i < a.len() ==> ascii_lower(a[i]) == ascii_lower(b[i])
}

fn lower_ascii_char(c: char) -> (r: char)
    ensures
        r == ascii_lower(c),
{
    if 'A' <= c && c <= 'Z' {
        ((c as u8) + 32) as char
    } else {
        c
    }
}

/// Whether the two strings are equal when ASCII case is ignored.
pub fn text_eq_ignore_ascii_case(a: &str, b: &str) -> (r: bool)
    ensures
        r == eq_ignoring_ascii_case(a@, b@),
{
    let av = chars_of(a);
    let bv = chars_of(b);
    if av.len() != bv.len() {
        return false;
    }
    let n = av.len();
    let mut i: usize = 0;
    while i < n
        invariant
            n == a@.len(),
            n == b@.len(),
            av@ == a@,
            bv@ == b@,
            i <= n,
            forall|k: int| 0 <= k < i ==> ascii_lower(a@[k]) == ascii_lower(b@[k]),
        decreases n - i,
    {
        if lower_ascii_char(av[i]) != lower_ascii_char(bv[i]) {
            return false;
        }
        i += 1;
    }
    true
}

} // verus!
