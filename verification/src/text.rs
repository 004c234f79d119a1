//! Character-level string helpers with exact specifications.
//!
//! Strings are modelled by their views, sequences of `char`.  Everything the
//! library builds (XML fragments, labels, URIs) is assembled here from pieces
//! whose contents the contracts can name.
use vstd::prelude::*;
use vstd::string::*;

verus! {

/// The characters of `s`, in order.
pub fn chars_of(s: &str) -> (v: Vec<char>)
    ensures
        v@ == s@,
{
    let mut v: Vec<char> = Vec::new();
    for c in it: s.chars()
        invariant
            v@ == it.seq().take(it.index() as int),
            it.seq() == s@,
    {
        v.push(c);
    }
    v
}

/// Appends one character to `s` (`String::push`).
#[verifier::external_body]
pub fn push_char(s: &mut String, c: char)
    ensures
        final(s)@ == old(s)@.push(c),
{
    s.push(c);
}

/// Appends the characters of `t` to `s`.
pub fn push_str(s: &mut String, t: &str)
    ensures
        final(s)@ == old(s)@ + t@,
{
    s.append(t);
}

/// Appends the characters held in `v` to `s`.
pub fn push_chars(s: &mut String, v: &Vec<char>)
    ensures
        final(s)@ == old(s)@ + v@,
{
    let ghost start = s@;
    let mut i: usize = 0;
    while i < v.len()
        invariant
            i <= v.len(),
            s@ == start + v@.take(i as int),
        decreases v.len() - i,
    {
        push_char(s, v[i]);
        i = i + 1;
        assert(v@.take(i as int) == v@.take(i - 1).push(v@[i - 1]));
    }
    assert(v@.take(v.len() as int) == v@);
}

/// A new string holding the characters of `v`.
pub fn string_of_chars(v: &Vec<char>) -> (s: String)
    ensures
        s@ == v@,
{
    let mut s = String::new();
    push_chars(&mut s, v);
    s
}

/// A copy of `t` as an owned string.
pub fn owned(t: &str) -> (s: String)
    ensures
        s@ == t@,
{
    let mut s = String::new();
    s.append(t);
    s
}

/// Whether two character sequences are equal.
pub fn chars_eq(a: &Vec<char>, b: &Vec<char>) -> (r: bool)
    ensures
        r == (a@ == b@),
{
    if a.len() != b.len() {
        return false;
    }
    let mut i: usize = 0;
    while i < a.len()
        invariant
            a.len() == b.len(),
            i <= a.len(),
            forall|j: int| 0 <= j < i ==> a@[j] == b@[j],
        decreases a.len() - i,
    {
        if a[i] != b[i] {
            return false;
        }
        i = i + 1;
    }
    assert(a@ =~= b@);
    true
}

/// Whether two strings hold the same characters.
pub fn str_eq(a: &str, b: &str) -> (r: bool)
    ensures
        r == (a@ == b@),
{
    let va = chars_of(a);
    let vb = chars_of(b);
    chars_eq(&va, &vb)
}

// ---------------------------------------------------------------------------
// Decimal rendering of integers
// ---------------------------------------------------------------------------

/// The ASCII digit for `d` (`0 <= d < 10`).
pub open spec fn digit(d: nat) -> char {
    if d == 0 {
        '0'
    } else if d == 1 {
        '1'
    } else if d == 2 {
        '2'
    } else if d == 3 {
        '3'
    } else if d == 4 {
        '4'
    } else if d == 5 {
        '5'
    } else if d == 6 {
        '6'
    } else if d == 7 {
        '7'
    } else if d == 8 {
        '8'
    } else {
        '9'
    }
}

/// The decimal notation of `n`, without leading zeros (as `Display` prints it).
pub open spec fn decimal(n: nat) -> Seq<char>
    decreases n,
{
    if n < 10 {
        seq![digit(n)]
    } else {
        decimal(n / 10).push(digit(n % 10))
    }
}

/// The decimal notation of a signed integer (`-` before negative values).
pub open spec fn signed_decimal(n: int) -> Seq<char> {
    if n < 0 {
        seq!['-'] + decimal((-n) as nat)
    } else {
        decimal(n as nat)
    }
}

fn digit_char(d: u64) -> (c: char)
    requires
        d < 10,
    ensures
        c == digit(d as nat),
{
    if d == 0 {
        '0'
    } else if d == 1 {
        '1'
    } else if d == 2 {
        '2'
    } else if d == 3 {
        '3'
    } else if d == 4 {
        '4'
    } else if d == 5 {
        '5'
    } else if d == 6 {
        '6'
    } else if d == 7 {
        '7'
    } else if d == 8 {
        '8'
    } else {
        '9'
    }
}

fn decimal_chars(n: u64) -> (v: Vec<char>)
    ensures
        v@ == decimal(n as nat),
    decreases n,
{
    if n < 10 {
        let mut v = Vec::new();
        v.push(digit_char(n));
        v
    } else {
        let mut v = decimal_chars(n / 10);
        v.push(digit_char(n % 10));
        v
    }
}

/// Appends the decimal notation of `n` to `s`.
pub fn push_u64(s: &mut String, n: u64)
    ensures
        final(s)@ == old(s)@ + decimal(n as nat),
{
    let v = decimal_chars(n);
    push_chars(s, &v);
}

/// Appends the decimal notation of `n` (with a sign when negative) to `s`.
pub fn push_i64(s: &mut String, n: i64)
    ensures
        final(s)@ == old(s)@ + signed_decimal(n as int),
{
    if n < 0 {
        push_char(s, '-');
        let m: u64 = if n == i64::MIN {
            9223372036854775808u64
        } else {
            (-n) as u64
        };
        let ghost before = s@;
        push_u64(s, m);
        assert(s@ == before + decimal((-(n as int)) as nat));
        assert(seq!['-'] + decimal((-(n as int)) as nat) == seq!['-'].add(decimal((-(n as int)) as nat)));
        assert(s@ =~= old(s)@ + signed_decimal(n as int));
    } else {
        push_u64(s, n as u64);
    }
}

/// The decimal notation of `n` as a new string.
pub fn u64_to_string(n: u64) -> (s: String)
    ensures
        s@ == decimal(n as nat),
{
    let mut s = String::new();
    push_u64(&mut s, n);
    s
}

/// The decimal notation of `n` as a new string.
pub fn i64_to_string(n: i64) -> (s: String)
    ensures
        s@ == signed_decimal(n as int),
{
    let mut s = String::new();
    push_i64(&mut s, n);
    s
}

// ---------------------------------------------------------------------------
// Parsing integers the way `str::parse` does
// ---------------------------------------------------------------------------

/// Whether `c` is an ASCII decimal digit.
pub open spec fn is_digit(c: char) -> bool {
    '0' <= c && c <= '9'
}

/// The value of an ASCII digit.
pub open spec fn digit_value(c: char) -> nat {
    ((c as int) - ('0' as int)) as nat
}

/// The value of a non-empty run of ASCII digits.
pub open spec fn digits_value(s: Seq<char>) -> nat
    decreases s.len(),
{
    if s.len() == 0 {
        0
    } else {
        digits_value(s.drop_last()) * 10 + digit_value(s.last())
    }
}

/// Whether every character of `s` is an ASCII digit.
pub open spec fn all_digits(s: Seq<char>) -> bool {
    forall|i: int| 0 <= i < s.len() ==> is_digit(#[trigger] s[i])
}

/// The magnitude that `parse` reads from `s`, where `s` is an optional sign
/// followed by at least one digit; `None` for anything else.
pub open spec fn unsigned_text_value(s: Seq<char>) -> Option<nat> {
    if s.len() > 0 && all_digits(s) {
        Some(digits_value(s))
    } else {
        None
    }
}

/// What `s.parse::<u32>()` gives: a `+` may lead, then one or more digits
/// whose value fits in `u32`.
pub open spec fn parse_u32_spec(s: Seq<char>) -> Option<u32> {
    let body = if s.len() > 0 && s[0] == '+' { s.drop_first() } else { s };
    match unsigned_text_value(body) {
        Some(v) => if v <= u32::MAX { Some(v as u32) } else { None },
        None => None,
    }
}

/// What `s.parse::<i64>()` gives: a `+` or `-` may lead, then one or more
/// digits whose signed value fits in `i64`.
pub open spec fn parse_i64_spec(s: Seq<char>) -> Option<i64> {
    if s.len() > 0 && s[0] == '-' {
        match unsigned_text_value(s.drop_first()) {
            Some(v) => if v <= 9223372036854775808 { Some((-(v as int)) as i64) } else { None },
            None => None,
        }
    } else {
        let body = if s.len() > 0 && s[0] == '+' { s.drop_first() } else { s };
        match unsigned_text_value(body) {
            Some(v) => if v <= i64::MAX { Some(v as i64) } else { None },
            None => None,
        }
    }
}

proof fn lemma_digits_value_monotone(s: Seq<char>, i: int)
    requires
        0 <= i <= s.len(),
        all_digits(s),
    ensures
        digits_value(s.take(i)) <= digits_value(s),
    decreases s.len() - i,
{
    if i < s.len() {
        lemma_digits_value_monotone(s, i + 1);
        assert(s.take(i + 1).drop_last() == s.take(i));
        assert(digits_value(s.take(i + 1)) == digits_value(s.take(i)) * 10 + digit_value(s[i]));
    } else {
        assert(s.take(i) == s);
    }
}

/// Reads a run of digits from `v[start..]`, stopping at `cap`: `None` when the
/// run is empty, holds a non-digit, or its value exceeds `cap`.
fn digits_upto(v: &Vec<char>, start: usize, cap: u64) -> (r: Option<u64>)
    requires
        start <= v.len(),
        9 <= cap <= 9223372036854775808,
    ensures
        r matches Some(x) ==> unsigned_text_value(v@.skip(start as int)) == Some(x as nat)
            && x <= cap,
        r is None ==> match unsigned_text_value(v@.skip(start as int)) {
            Some(x) => x > cap,
            None => true,
        },
{
    let ghost s = v@.skip(start as int);
    if start == v.len() {
        return None;
    }
    let mut acc: u64 = 0;
    let mut i: usize = start;
    while i < v.len()
        invariant
            start < v.len(),
            9 <= cap <= 9223372036854775808,
            start <= i <= v.len(),
            s == v@.skip(start as int),
            acc <= cap,
            all_digits(s.take(i - start)),
            acc as nat == digits_value(s.take(i - start)),
        decreases v.len() - i,
    {
        let c = v[i];
        if !('0' <= c && c <= '9') {
            assert(!is_digit(s[i - start]));
            return None;
        }
        let d: u64 = ((c as u32) - ('0' as u32)) as u64;
        assert(s.take(i + 1 - start).drop_last() == s.take(i - start));
        if acc > (cap - d) / 10 {
            proof {
                assert(s.take(i + 1 - start) == s.take(i - start).push(c));
                assert(digits_value(s.take(i + 1 - start)) == acc * 10 + d);
                assert(acc * 10 + d > cap) by (nonlinear_arith)
                    requires acc > (cap - d) / 10, d <= 9, cap >= d;
                if all_digits(s) {
                    lemma_digits_value_monotone(s, i + 1 - start);
                }
            }
            return None;
        }
        assert(acc * 10 + d <= cap) by (nonlinear_arith)
            requires acc <= (cap - d) / 10, d <= 9, cap >= d;
        acc = acc * 10 + d;
        i = i + 1;
        assert(s.take(i - start) == s.take(i - 1 - start).push(c));
    }
    assert(s.take(i - start) == s);
    Some(acc)
}

/// `s.parse::<u32>().ok()`.
pub fn parse_u32(s: &str) -> (r: Option<u32>)
    ensures
        r == parse_u32_spec(s@),
{
    let v = chars_of(s);
    let start: usize = if v.len() > 0 && v[0] == '+' { 1 } else { 0 };
    assert(start == 1 ==> v@.skip(1) == v@.drop_first());
    assert(v@.skip(0) == v@);
    match digits_upto(&v, start, 4294967295u64) {
        Some(x) => Some(x as u32),
        None => None,
    }
}

/// `s.parse::<i64>().ok()`.
pub fn parse_i64(s: &str) -> (r: Option<i64>)
    ensures
        r == parse_i64_spec(s@),
{
    let v = chars_of(s);
    assert(v@.skip(0) == v@);
    if v.len() > 0 && v[0] == '-' {
        assert(v@.skip(1) == v@.drop_first());
        match digits_upto(&v, 1, 9223372036854775808u64) {
            Some(x) => {
                if x == 9223372036854775808u64 {
                    Some(i64::MIN)
                } else {
                    Some(-(x as i64))
                }
            },
            None => None,
        }
    } else {
        let start: usize = if v.len() > 0 && v[0] == '+' { 1 } else { 0 };
        assert(start == 1 ==> v@.skip(1) == v@.drop_first());
        match digits_upto(&v, start, 9223372036854775807u64) {
            Some(x) => Some(x as i64),
            None => None,
        }
    }
}

// ---------------------------------------------------------------------------
// Whitespace, trimming and searching
// ---------------------------------------------------------------------------

/// Unicode `White_Space`, the property that `char::is_whitespace` tests.
pub open spec fn is_white_space(c: char) -> bool {
    ('\u{9}' <= c && c <= '\u{d}') || c == ' ' || c == '\u{85}' || c == '\u{a0}'
        || c == '\u{1680}' || ('\u{2000}' <= c && c <= '\u{200a}') || c == '\u{2028}'
        || c == '\u{2029}' || c == '\u{202f}' || c == '\u{205f}' || c == '\u{3000}'
}

/// `char::is_whitespace`.
pub fn is_whitespace(c: char) -> (r: bool)
    ensures
        r == is_white_space(c),
{
    ('\u{9}' <= c && c <= '\u{d}') || c == ' ' || c == '\u{85}' || c == '\u{a0}'
        || c == '\u{1680}' || ('\u{2000}' <= c && c <= '\u{200a}') || c == '\u{2028}'
        || c == '\u{2029}' || c == '\u{202f}' || c == '\u{205f}' || c == '\u{3000}'
}

/// Number of leading white-space characters of `s`.
pub open spec fn leading_ws(s: Seq<char>) -> nat
    decreases s.len(),
{
    if s.len() > 0 && is_white_space(s[0]) {
        1 + leading_ws(s.drop_first())
    } else {
        0
    }
}

/// Number of trailing white-space characters of `s`.
pub open spec fn trailing_ws(s: Seq<char>) -> nat
    decreases s.len(),
{
    if s.len() > 0 && is_white_space(s.last()) {
        1 + trailing_ws(s.drop_last())
    } else {
        0
    }
}

/// `str::trim`: `s` without leading and trailing white space.
pub open spec fn trim(s: Seq<char>) -> Seq<char> {
    let a = s.skip(leading_ws(s) as int);
    a.take(a.len() - trailing_ws(a))
}

proof fn lemma_leading_ws(s: Seq<char>, i: int)
    requires
        0 <= i <= s.len(),
        forall|j: int| 0 <= j < i ==> is_white_space(#[trigger] s[j]),
        i == s.len() || !is_white_space(s[i]),
    ensures
        leading_ws(s) == i,
    decreases i,
{
    if i > 0 {
        lemma_leading_ws(s.drop_first(), i - 1);
    }
}

proof fn lemma_trailing_ws(s: Seq<char>, k: int)
    requires
        0 <= k <= s.len(),
        forall|j: int| s.len() - k <= j < s.len() ==> is_white_space(#[trigger] s[j]),
        k == s.len() || !is_white_space(s[s.len() - k - 1]),
    ensures
        trailing_ws(s) == k,
    decreases k,
{
    if k > 0 {
        lemma_trailing_ws(s.drop_last(), k - 1);
    }
}

/// The characters `v[a..b]`.
pub fn sub_chars(v: &Vec<char>, a: usize, b: usize) -> (r: Vec<char>)
    requires
        a <= b <= v.len(),
    ensures
        r@ == v@.subrange(a as int, b as int),
{
    let mut r = Vec::new();
    let mut i = a;
    while i < b
        invariant
            a <= i <= b <= v.len(),
            r@ == v@.subrange(a as int, i as int),
        decreases b - i,
    {
        r.push(v[i]);
        i = i + 1;
        assert(r@ =~= v@.subrange(a as int, i as int));
    }
    r
}

/// `str::trim` on a character vector.
pub fn trim_chars(v: &Vec<char>) -> (r: Vec<char>)
    ensures
        r@ == trim(v@),
{
    let mut a: usize = 0;
    while a < v.len() && is_whitespace(v[a])
        invariant
            a <= v.len(),
            forall|j: int| 0 <= j < a ==> is_white_space(#[trigger] v@[j]),
        decreases v.len() - a,
    {
        a = a + 1;
    }
    proof {
        lemma_leading_ws(v@, a as int);
    }
    let ghost s = v@.skip(a as int);
    let mut b: usize = v.len();
    while b > a && is_whitespace(v[b - 1])
        invariant
            a <= b <= v.len(),
            s == v@.skip(a as int),
            forall|j: int| b <= j < v.len() ==> is_white_space(#[trigger] v@[j]),
        decreases b,
    {
        b = b - 1;
    }
    proof {
        let k = (v.len() - b) as int;
        assert forall|j: int| s.len() - k <= j < s.len() implies is_white_space(#[trigger] s[j]) by {
            assert(s[j] == v@[j + a]);
        }
        if k < s.len() {
            assert(s[s.len() - k - 1] == v@[b - 1]);
        }
        lemma_trailing_ws(s, k);
        assert(s.take(s.len() - k) =~= v@.subrange(a as int, b as int));
    }
    sub_chars(v, a, b)
}

/// `s.trim().to_string()`.
pub fn trim_str(s: &str) -> (r: String)
    ensures
        r@ == trim(s@),
{
    let v = chars_of(s);
    let t = trim_chars(&v);
    string_of_chars(&t)
}

/// Whether `pat` occurs in `s` starting at `i`.
pub open spec fn occurs_at<A>(s: Seq<A>, pat: Seq<A>, i: int) -> bool {
    0 <= i && i + pat.len() <= s.len() && s.subrange(i, i + pat.len()) == pat
}

/// Whether `pat` occurs somewhere in `s`.
pub open spec fn contains_text<A>(s: Seq<A>, pat: Seq<A>) -> bool {
    exists|i: int| occurs_at(s, pat, i)
}

/// A sequence made of `a`, `b` and `c` in turn contains `b`.
pub proof fn lemma_contains_middle<A>(a: Seq<A>, b: Seq<A>, c: Seq<A>)
    ensures
        contains_text(a + b + c, b),
{
    assert((a + b + c).subrange(a.len() as int, (a.len() + b.len()) as int) =~= b);
    assert(occurs_at(a + b + c, b, a.len() as int));
}

/// A sequence contains itself.
pub proof fn lemma_contains_self<A>(s: Seq<A>)
    ensures
        contains_text(s, s),
{
    assert(s.subrange(0, s.len() as int) =~= s);
    assert(occurs_at(s, s, 0));
}

/// What a sequence contains, it still contains with more after it.
pub proof fn lemma_contains_append<A>(a: Seq<A>, b: Seq<A>, pat: Seq<A>)
    requires
        contains_text(a, pat),
    ensures
        contains_text(a + b, pat),
{
    let i = choose|i: int| occurs_at(a, pat, i);
    assert((a + b).subrange(i, i + pat.len()) =~= a.subrange(i, i + pat.len()));
    assert(occurs_at(a + b, pat, i));
}

/// What a sequence contains, it still contains with more before it.
pub proof fn lemma_contains_prepend<A>(a: Seq<A>, b: Seq<A>, pat: Seq<A>)
    requires
        contains_text(b, pat),
    ensures
        contains_text(a + b, pat),
{
    let i = choose|i: int| occurs_at(b, pat, i);
    assert((a + b).subrange(a.len() + i, a.len() + i + pat.len()) =~= b.subrange(i, i + pat.len()));
    assert(occurs_at(a + b, pat, a.len() + i));
}

/// `str::find`: the first position at which `pat` occurs in `s`.
#[verifier::opaque]
pub open spec fn find_spec<A>(s: Seq<A>, pat: Seq<A>) -> Option<nat> {
    if exists|i: int| occurs_at(s, pat, i) {
        Some((choose|i: int| occurs_at(s, pat, i) && forall|j: int| 0 <= j < i ==> !occurs_at(s, pat, j)) as nat)
    } else {
        None
    }
}

/// `str::rfind`: the last position at which `pat` occurs in `s`.
#[verifier::opaque]
pub open spec fn rfind_spec<A>(s: Seq<A>, pat: Seq<A>) -> Option<nat> {
    if exists|i: int| occurs_at(s, pat, i) {
        Some((choose|i: int| occurs_at(s, pat, i) && forall|j: int| i < j ==> !occurs_at(s, pat, j)) as nat)
    } else {
        None
    }
}

/// Whether `pat` occurs in `v` at `i`.
pub fn matches_at(v: &Vec<char>, pat: &Vec<char>, i: usize) -> (r: bool)
    ensures
        r == occurs_at(v@, pat@, i as int),
{
    if i > v.len() || pat.len() > v.len() - i {
        return false;
    }
    let mut k: usize = 0;
    while k < pat.len()
        invariant
            i + pat.len() <= v.len(),
            k <= pat.len(),
            forall|j: int| 0 <= j < k ==> v@[i + j] == pat@[j],
        decreases pat.len() - k,
    {
        if v[i + k] != pat[k] {
            assert(v@.subrange(i as int, i + pat.len())[k as int] != pat@[k as int]);
            return false;
        }
        k = k + 1;
    }
    assert(v@.subrange(i as int, i + pat.len()) =~= pat@);
    true
}

/// The first occurrence at or after `from`, seen from `from` on.
pub proof fn lemma_first_from<A>(s: Seq<A>, pat: Seq<A>, from: int, i: int)
    requires
        0 <= from <= i,
        occurs_at(s, pat, i),
        forall|j: int| from <= j < i ==> !occurs_at(s, pat, j),
    ensures
        find_spec(s.skip(from), pat) == Some((i - from) as nat),
{
    let t = s.skip(from);
    assert(t.subrange(i - from, i - from + pat.len()) =~= s.subrange(i, i + pat.len()));
    assert forall|j: int| 0 <= j < i - from implies !occurs_at(t, pat, j) by {
        if occurs_at(t, pat, j) {
            assert(t.subrange(j, j + pat.len()) =~= s.subrange(j + from, j + from + pat.len()));
            assert(occurs_at(s, pat, j + from));
        }
    }
    lemma_find_unique(t, pat, i - from);
}

/// No occurrence at or after `from`, seen from `from` on.
pub proof fn lemma_none_from<A>(s: Seq<A>, pat: Seq<A>, from: int)
    requires
        0 <= from <= s.len(),
        forall|j: int| from <= j ==> !occurs_at(s, pat, j),
    ensures
        find_spec(s.skip(from), pat) is None,
{
    let t = s.skip(from);
    assert forall|j: int| !occurs_at(t, pat, j) by {
        if occurs_at(t, pat, j) {
            assert(t.subrange(j, j + pat.len()) =~= s.subrange(j + from, j + from + pat.len()));
            assert(occurs_at(s, pat, j + from));
        }
    }
    reveal(find_spec);
}

/// What `find_spec` finds occurs there, and nowhere before.
pub proof fn lemma_find_some<A>(s: Seq<A>, pat: Seq<A>)
    ensures
        find_spec(s, pat) matches Some(p) ==> occurs_at(s, pat, p as int)
            && forall|j: int| 0 <= j < p ==> !occurs_at(s, pat, j),
{
    reveal(find_spec);
    if exists|i: int| occurs_at(s, pat, i) {
        let i = choose|i: int| occurs_at(s, pat, i);
        lemma_first_exists(s, pat, i);
    }
}

proof fn lemma_first_exists<A>(s: Seq<A>, pat: Seq<A>, i: int)
    requires
        occurs_at(s, pat, i),
    ensures
        exists|k: int| occurs_at(s, pat, k) && forall|j: int| 0 <= j < k ==> !occurs_at(s, pat, j),
    decreases i,
{
    if exists|j: int| 0 <= j < i && occurs_at(s, pat, j) {
        let j = choose|j: int| 0 <= j < i && occurs_at(s, pat, j);
        lemma_first_exists(s, pat, j);
    } else {
        assert(forall|j: int| 0 <= j < i ==> !occurs_at(s, pat, j));
    }
}

/// The first occurrence is the one with no earlier occurrence.
pub proof fn lemma_find_unique<A>(s: Seq<A>, pat: Seq<A>, i: int)
    requires
        occurs_at(s, pat, i),
        forall|j: int| 0 <= j < i ==> !occurs_at(s, pat, j),
    ensures
        find_spec(s, pat) == Some(i as nat),
{
    reveal(find_spec);
    let k = choose|k: int| occurs_at(s, pat, k) && forall|j: int| 0 <= j < k ==> !occurs_at(s, pat, j);
    assert(occurs_at(s, pat, k) && forall|j: int| 0 <= j < k ==> !occurs_at(s, pat, j));
    if k < i {
        assert(!occurs_at(s, pat, k));
    }
    if i < k {
        assert(!occurs_at(s, pat, i));
    }
}

/// What `rfind_spec` finds occurs there, and nowhere after.
pub proof fn lemma_rfind_some<A>(s: Seq<A>, pat: Seq<A>)
    ensures
        rfind_spec(s, pat) matches Some(p) ==> occurs_at(s, pat, p as int)
            && forall|j: int| p < j ==> !occurs_at(s, pat, j),
{
    reveal(rfind_spec);
    if exists|i: int| occurs_at(s, pat, i) {
        let i = choose|i: int| occurs_at(s, pat, i);
        lemma_last_exists(s, pat, i);
    }
}

proof fn lemma_last_exists<A>(s: Seq<A>, pat: Seq<A>, i: int)
    requires
        occurs_at(s, pat, i),
    ensures
        exists|k: int| occurs_at(s, pat, k) && forall|j: int| k < j ==> !occurs_at(s, pat, j),
    decreases s.len() - i,
{
    if exists|j: int| i < j && occurs_at(s, pat, j) {
        let j = choose|j: int| i < j && occurs_at(s, pat, j);
        lemma_last_exists(s, pat, j);
    } else {
        assert(forall|j: int| i < j ==> !occurs_at(s, pat, j));
    }
}

proof fn lemma_rfind_unique<A>(s: Seq<A>, pat: Seq<A>, i: int)
    requires
        occurs_at(s, pat, i),
        forall|j: int| i < j ==> !occurs_at(s, pat, j),
    ensures
        rfind_spec(s, pat) == Some(i as nat),
{
    reveal(rfind_spec);
    let k = choose|k: int| occurs_at(s, pat, k) && forall|j: int| k < j ==> !occurs_at(s, pat, j);
    assert(occurs_at(s, pat, k) && forall|j: int| k < j ==> !occurs_at(s, pat, j));
    if k < i {
        assert(!occurs_at(s, pat, i));
    }
    if i < k {
        assert(!occurs_at(s, pat, k));
    }
}

/// The first position at or after `from` where `pat` occurs in `v`.
pub fn find_from(v: &Vec<char>, pat: &Vec<char>, from: usize) -> (r: Option<usize>)
    requires
        from <= v.len(),
    ensures
        r matches Some(i) ==> from <= i && occurs_at(v@, pat@, i as int)
            && forall|j: int| from <= j < i ==> !occurs_at(v@, pat@, j),
        r is None ==> forall|j: int| from <= j ==> !occurs_at(v@, pat@, j),
{
    let mut i = from;
    while i < v.len()
        invariant
            from <= i <= v.len(),
            forall|j: int| from <= j < i ==> !occurs_at(v@, pat@, j),
        decreases v.len() - i,
    {
        if matches_at(v, pat, i) {
            return Some(i);
        }
        i = i + 1;
    }
    if matches_at(v, pat, i) {
        return Some(i);
    }
    None
}

/// `str::find` on character vectors.
pub fn find_chars(v: &Vec<char>, pat: &Vec<char>) -> (r: Option<usize>)
    ensures
        r matches Some(i) ==> find_spec(v@, pat@) == Some(i as nat) && occurs_at(v@, pat@, i as int),
        r is None ==> find_spec(v@, pat@) is None,
{
    let r = find_from(v, pat, 0);
    proof {
        match r {
            Some(i) => lemma_find_unique(v@, pat@, i as int),
            None => {
                assert(!exists|i: int| occurs_at(v@, pat@, i));
                reveal(find_spec);
            },
        }
    }
    r
}

/// `str::rfind` on character vectors.
pub fn rfind_chars(v: &Vec<char>, pat: &Vec<char>) -> (r: Option<usize>)
    ensures
        r matches Some(i) ==> rfind_spec(v@, pat@) == Some(i as nat) && occurs_at(v@, pat@, i as int),
        r is None ==> rfind_spec(v@, pat@) is None,
{
    if matches_at(v, pat, v.len()) {
        proof {
            lemma_rfind_unique(v@, pat@, v.len() as int);
        }
        return Some(v.len());
    }
    let mut i = v.len();
    while i > 0
        invariant
            i <= v.len(),
            forall|j: int| i <= j ==> !occurs_at(v@, pat@, j),
        decreases i,
    {
        if matches_at(v, pat, i - 1) {
            proof {
                lemma_rfind_unique(v@, pat@, i - 1);
            }
            return Some(i - 1);
        }
        i = i - 1;
    }
    assert(!exists|i: int| occurs_at(v@, pat@, i));
    reveal(rfind_spec);
    None
}

/// Whether `pat` occurs in the bytes `v` at `i`.
pub fn bytes_match_at(v: &[u8], pat: &[u8], i: usize) -> (r: bool)
    ensures
        r == occurs_at(v@, pat@, i as int),
{
    if i > v.len() || pat.len() > v.len() - i {
        return false;
    }
    let mut k: usize = 0;
    while k < pat.len()
        invariant
            i + pat@.len() <= v@.len(),
            i + pat.len() <= v.len(),
            k <= pat@.len(),
            forall|j: int| 0 <= j < k ==> v@[i + j] == pat@[j],
        decreases pat.len() - k,
    {
        if v[i + k] != pat[k] {
            assert(v@.subrange(i as int, i + pat@.len())[k as int] != pat@[k as int]);
            return false;
        }
        k = k + 1;
    }
    assert(v@.subrange(i as int, i + pat@.len()) =~= pat@);
    true
}

/// `str::find` on bytes: the first position at which `pat` occurs in `v`.
pub fn find_bytes(v: &[u8], pat: &[u8]) -> (r: Option<usize>)
    ensures
        r matches Some(i) ==> find_spec(v@, pat@) == Some(i as nat) && occurs_at(v@, pat@, i as int),
        r is None ==> find_spec(v@, pat@) is None,
{
    let mut i: usize = 0;
    while i < v.len()
        invariant
            i <= v@.len(),
            forall|j: int| 0 <= j < i ==> !occurs_at(v@, pat@, j),
        decreases v.len() - i,
    {
        if bytes_match_at(v, pat, i) {
            proof {
                lemma_find_unique(v@, pat@, i as int);
            }
            return Some(i);
        }
        i = i + 1;
    }
    if bytes_match_at(v, pat, i) {
        proof {
            lemma_find_unique(v@, pat@, i as int);
        }
        return Some(i);
    }
    assert(!exists|j: int| occurs_at(v@, pat@, j));
    reveal(find_spec);
    None
}

/// Whether `s` begins with `p`.
pub open spec fn starts_with(s: Seq<char>, p: Seq<char>) -> bool {
    p.len() <= s.len() && s.take(p.len() as int) == p
}

/// `str::starts_with` on character vectors.
pub fn starts_with_chars(v: &Vec<char>, p: &Vec<char>) -> (r: bool)
    ensures
        r == starts_with(v@, p@),
{
    let r = matches_at(v, p, 0);
    assert(p.len() <= v.len() ==> v@.subrange(0, p@.len() as int) == v@.take(p.len() as int));
    r
}

/// `str::starts_with` with a string pattern.
pub fn str_starts_with(v: &Vec<char>, p: &str) -> (r: bool)
    ensures
        r == starts_with(v@, p@),
{
    let pv = chars_of(p);
    starts_with_chars(v, &pv)
}

// ---------------------------------------------------------------------------
// Lines and words
// ---------------------------------------------------------------------------

/// The position of the first `c` in `s`, or the length of `s` when there is
/// none.
pub open spec fn first_index(s: Seq<char>, c: char) -> nat
    decreases s.len(),
{
    if s.len() == 0 || s[0] == c {
        0
    } else {
        1 + first_index(s.drop_first(), c)
    }
}

/// A line that ended in a line feed, without a carriage return before it.
pub open spec fn line_body(l: Seq<char>) -> Seq<char> {
    if l.len() > 0 && l.last() == '\r' {
        l.drop_last()
    } else {
        l
    }
}

/// `str::lines`: the lines of `s`, split at `\n` or `\r\n`; a line feed at
/// the very end starts no further line.
pub open spec fn lines_spec(s: Seq<char>) -> Seq<Seq<char>>
    decreases s.len(),
{
    if s.len() == 0 {
        Seq::empty()
    } else {
        let i = first_index(s, '\n');
        if i < s.len() {
            seq![line_body(s.take(i as int))] + lines_spec(s.skip((i + 1) as int))
        } else {
            seq![s]
        }
    }
}

/// The number of characters before the first white space of `s`.
pub open spec fn word_len(s: Seq<char>) -> nat
    decreases s.len(),
{
    if s.len() == 0 || is_white_space(s[0]) {
        0
    } else {
        1 + word_len(s.drop_first())
    }
}

/// `s.split_whitespace().next()`: the first word of `s`.
pub open spec fn first_word(s: Seq<char>) -> Option<Seq<char>> {
    let t = s.skip(leading_ws(s) as int);
    if t.len() == 0 {
        None
    } else {
        Some(t.take(word_len(t) as int))
    }
}

proof fn lemma_first_index(s: Seq<char>, c: char, i: int)
    requires
        0 <= i <= s.len(),
        forall|j: int| 0 <= j < i ==> #[trigger] s[j] != c,
        i == s.len() || s[i] == c,
    ensures
        first_index(s, c) == i,
    decreases i,
{
    if i > 0 {
        lemma_first_index(s.drop_first(), c, i - 1);
    }
}

proof fn lemma_word_len(s: Seq<char>, i: int)
    requires
        0 <= i <= s.len(),
        forall|j: int| 0 <= j < i ==> !is_white_space(#[trigger] s[j]),
        i == s.len() || is_white_space(s[i]),
    ensures
        word_len(s) == i,
    decreases i,
{
    if i > 0 {
        lemma_word_len(s.drop_first(), i - 1);
    }
}

/// The position of the first `c` in `v` at or after `from`, or the length of
/// `v`.
pub fn index_of_char(v: &Vec<char>, c: char, from: usize) -> (r: usize)
    requires
        from <= v.len(),
    ensures
        from <= r <= v.len(),
        r == from + first_index(v@.skip(from as int), c),
{
    let mut i = from;
    while i < v.len() && v[i] != c
        invariant
            from <= i <= v.len(),
            forall|j: int| from <= j < i ==> v@[j] != c,
        decreases v.len() - i,
    {
        i = i + 1;
    }
    proof {
        let t = v@.skip(from as int);
        assert forall|j: int| 0 <= j < i - from implies #[trigger] t[j] != c by {
            assert(t[j] == v@[j + from]);
        }
        if i < v.len() {
            assert(t[i - from] == v@[i as int]);
        }
        lemma_first_index(t, c, i - from);
    }
    i
}

/// `str::lines`, each line as its characters.
pub fn lines_of(s: &str) -> (r: Vec<Vec<char>>)
    ensures
        r@.len() == lines_spec(s@).len(),
        forall|k: int| 0 <= k < r@.len() ==> (#[trigger] r@[k])@ == lines_spec(s@)[k],
{
    let v = chars_of(s);
    let mut r: Vec<Vec<char>> = Vec::new();
    let ghost mut done: Seq<Seq<char>> = Seq::empty();
    let mut start: usize = 0;
    assert(v@.skip(0) =~= v@);
    assert(done + lines_spec(v@) =~= lines_spec(v@));
    while start < v.len()
        invariant
            start <= v.len(),
            v@ == s@,
            r@.len() == done.len(),
            forall|k: int| 0 <= k < r@.len() ==> (#[trigger] r@[k])@ == done[k],
            lines_spec(v@) == done + lines_spec(v@.skip(start as int)),
        decreases v.len() - start,
    {
        let ghost rest = v@.skip(start as int);
        let j = index_of_char(&v, '\n', start);
        let ghost i = (j - start) as nat;
        assert(first_index(rest, '\n') == i);
        if j < v.len() {
            let mut end = j;
            if end > start && v[end - 1] == '\r' {
                end = end - 1;
            }
            let line = sub_chars(&v, start, end);
            proof {
                assert(rest.take(i as int) =~= v@.subrange(start as int, j as int));
                assert(line_body(rest.take(i as int)) =~= line@);
                assert(rest.skip((i + 1) as int) =~= v@.skip(j + 1));
                assert(lines_spec(rest) == seq![line@] + lines_spec(v@.skip(j + 1)));
                done = done.push(line@);
            }
            r.push(line);
            start = j + 1;
        } else {
            let line = sub_chars(&v, start, v.len());
            proof {
                assert(rest =~= line@);
                assert(lines_spec(v@.skip(v.len() as int)) == Seq::<Seq<char>>::empty());
                done = done.push(line@);
            }
            r.push(line);
            start = v.len();
        }
    }
    proof {
        assert(v@.skip(start as int).len() == 0);
        assert(done + Seq::<Seq<char>>::empty() =~= done);
    }
    r
}

/// `s.split_whitespace().next()` on characters.
pub fn first_word_of(v: &Vec<char>) -> (r: Option<Vec<char>>)
    ensures
        match r {
            Some(w) => first_word(v@) == Some(w@),
            None => first_word(v@) is None,
        },
{
    let mut a: usize = 0;
    while a < v.len() && is_whitespace(v[a])
        invariant
            a <= v.len(),
            forall|j: int| 0 <= j < a ==> is_white_space(#[trigger] v@[j]),
        decreases v.len() - a,
    {
        a = a + 1;
    }
    proof {
        lemma_leading_ws(v@, a as int);
    }
    if a == v.len() {
        return None;
    }
    let mut b = a;
    while b < v.len() && !is_whitespace(v[b])
        invariant
            a <= b <= v.len(),
            forall|j: int| a <= j < b ==> !is_white_space(#[trigger] v@[j]),
        decreases v.len() - b,
    {
        b = b + 1;
    }
    proof {
        let t = v@.skip(a as int);
        assert forall|j: int| 0 <= j < b - a implies !is_white_space(#[trigger] t[j]) by {
            assert(t[j] == v@[j + a]);
        }
        if b < v.len() {
            assert(t[b - a] == v@[b as int]);
        }
        lemma_word_len(t, b - a);
        assert(t.take(b - a) =~= v@.subrange(a as int, b as int));
    }
    Some(sub_chars(v, a, b))
}

// ---------------------------------------------------------------------------
// Case mapping
// ---------------------------------------------------------------------------

/// What `str::to_uppercase` returns for a string holding the given characters.
pub uninterp spec fn upper_case(s: Seq<char>) -> Seq<char>;

/// The ASCII upper-case form of `c` (other characters stay as they are).
pub open spec fn ascii_upper(c: char) -> char {
    if 'a' <= c && c <= 'z' {
        ((c as int) - 32) as char
    } else {
        c
    }
}

/// Whether every character of `s` is ASCII.
pub open spec fn all_ascii(s: Seq<char>) -> bool {
    forall|i: int| 0 <= i < s.len() ==> (#[trigger] s[i] as int) < 128
}

/// `str::to_uppercase`.  Its result is named `upper_case`; on ASCII text the
/// standard library documents it as mapping `a`..`z` to `A`..`Z` and leaving
/// every other character unchanged.
#[verifier::external_body]
pub fn to_uppercase(s: &str) -> (r: String)
    ensures
        r@ == upper_case(s@),
        all_ascii(s@) ==> r@ == s@.map_values(|c: char| ascii_upper(c)),
{
    s.to_uppercase()
}

} // verus!
