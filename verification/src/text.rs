//! Character-level string helpers with exact specifications.

use vstd::prelude::*;

verus! {

/// Pushes one character onto a `String` (`String::push`).
#[verifier::external_body]
pub(crate) fn push_char(s: &mut String, c: char)
    ensures
        final(s)@ == old(s)@.push(c),
{
    s.push(c);
}

/// The characters of a string slice, in order.
pub fn chars_of(s: &str) -> (v: Vec<char>)
    ensures
        v@ == s@,
{
    let n = s.unicode_len();
    let mut v: Vec<char> = Vec::new();
    let mut i: usize = 0;
    while i < n
        invariant
            n == s@.len(),
            i <= n,
            v@ == s@.subrange(0, i as int),
        decreases n - i,
    {
        v.push(s.get_char(i));
        i = i + 1;
    }
    assert(v@ =~= s@);
    v
}

/// Builds a `String` holding exactly the given characters.
pub fn string_of_chars(v: &Vec<char>) -> (s: String)
    ensures
        s@ == v@,
{
    let mut s = String::new();
    let mut i: usize = 0;
    while i < v.len()
        invariant
            i <= v.len(),
            s@ == v@.subrange(0, i as int),
        decreases v.len() - i,
    {
        push_char(&mut s, v[i]);
        i = i + 1;
    }
    assert(s@ =~= v@);
    s
}

/// Whether two string slices hold the same characters.
pub fn str_eq(a: &str, b: &str) -> (r: bool)
    ensures
        r == (a@ == b@),
{
    let va = chars_of(a);
    let vb = chars_of(b);
    if va.len() != vb.len() {
        return false;
    }
    let mut i: usize = 0;
    while i < va.len()
        invariant
            va@ == a@,
            vb@ == b@,
            va.len() == vb.len(),
            i <= va.len(),
            forall|j: int| 0 <= j < i ==> va@[j] == vb@[j],
        decreases va.len() - i,
    {
        if va[i] != vb[i] {
            return false;
        }
        i = i + 1;
    }
    assert(a@ =~= b@);
    true
}


/// Unicode `White_Space` characters, the set that `char::is_whitespace`
/// and `str::trim` use.
pub open spec fn is_unicode_whitespace(c: char) -> bool {
    let n = c as u32;
    ||| 0x09 <= n <= 0x0D
    ||| n == 0x20
    ||| n == 0x85
    ||| n == 0xA0
    ||| n == 0x1680
    ||| 0x2000 <= n <= 0x200A
    ||| n == 0x2028
    ||| n == 0x2029
    ||| n == 0x202F
    ||| n == 0x205F
    ||| n == 0x3000
}

/// Whether a character is Unicode white space.
pub fn is_whitespace(c: char) -> (r: bool)
    ensures
        r == is_unicode_whitespace(c),
{
    let n = c as u32;
    (0x09 <= n && n <= 0x0D) || n == 0x20 || n == 0x85 || n == 0xA0 || n == 0x1680
        || (0x2000 <= n && n <= 0x200A) || n == 0x2028 || n == 0x2029 || n == 0x202F
        || n == 0x205F || n == 0x3000
}

/// Number of leading white-space characters of `s`.
pub open spec fn leading_ws(s: Seq<char>) -> nat
    decreases s.len(),
{
    if s.len() > 0 && is_unicode_whitespace(s[0]) {
        1 + leading_ws(s.drop_first())
    } else {
        0
    }
}

/// Number of trailing white-space characters of `s`.
pub open spec fn trailing_ws(s: Seq<char>) -> nat
    decreases s.len(),
{
    if s.len() > 0 && is_unicode_whitespace(s.last()) {
        1 + trailing_ws(s.drop_last())
    } else {
        0
    }
}

/// `s` without leading white space.
pub open spec fn trim_start_seq(s: Seq<char>) -> Seq<char> {
    s.subrange(leading_ws(s) as int, s.len() as int)
}

/// `s` without trailing white space.
pub open spec fn trim_end_seq(s: Seq<char>) -> Seq<char> {
    s.subrange(0, s.len() - trailing_ws(s))
}

/// `s` without leading or trailing white space, as `str::trim` gives it.
pub open spec fn trim_seq(s: Seq<char>) -> Seq<char> {
    trim_end_seq(trim_start_seq(s))
}

proof fn lemma_leading_ws_bound(s: Seq<char>)
    ensures
        leading_ws(s) <= s.len(),
        forall|j: int| 0 <= j < leading_ws(s) ==> is_unicode_whitespace(#[trigger] s[j]),
        leading_ws(s) < s.len() ==> !is_unicode_whitespace(s[leading_ws(s) as int]),
    decreases s.len(),
{
    if s.len() > 0 && is_unicode_whitespace(s[0]) {
        lemma_leading_ws_bound(s.drop_first());
        assert forall|j: int| 0 <= j < leading_ws(s) implies is_unicode_whitespace(#[trigger] s[j]) by {
            if j > 0 {
                assert(s[j] == s.drop_first()[j - 1]);
            }
        }
        if leading_ws(s) < s.len() {
            assert(s[leading_ws(s) as int] == s.drop_first()[leading_ws(s) - 1]);
        }
    }
}

proof fn lemma_leading_ws_step(s: Seq<char>, i: int)
    requires
        0 <= i <= s.len(),
        forall|j: int| 0 <= j < i ==> is_unicode_whitespace(#[trigger] s[j]),
        i == s.len() || !is_unicode_whitespace(s[i]),
    ensures
        leading_ws(s) == i,
    decreases s.len(),
{
    if i > 0 {
        assert(is_unicode_whitespace(s[0]));
        assert forall|j: int| 0 <= j < i - 1 implies is_unicode_whitespace(#[trigger] s.drop_first()[j]) by {
            assert(s.drop_first()[j] == s[j + 1]);
        }
        if i - 1 < s.drop_first().len() {
            assert(s.drop_first()[i - 1] == s[i]);
        }
        lemma_leading_ws_step(s.drop_first(), i - 1);
    }
}

proof fn lemma_trailing_ws_step(s: Seq<char>, k: int)
    requires
        0 <= k <= s.len(),
        forall|j: int| s.len() - k <= j < s.len() ==> is_unicode_whitespace(#[trigger] s[j]),
        k == s.len() || !is_unicode_whitespace(s[s.len() - k - 1]),
    ensures
        trailing_ws(s) == k,
    decreases s.len(),
{
    if k > 0 {
        assert(is_unicode_whitespace(s.last()));
        let t = s.drop_last();
        assert forall|j: int| t.len() - (k - 1) <= j < t.len() implies is_unicode_whitespace(#[trigger] t[j]) by {
            assert(t[j] == s[j]);
        }
        if k - 1 < t.len() {
            assert(t[t.len() - (k - 1) - 1] == s[s.len() - k - 1]);
        }
        lemma_trailing_ws_step(t, k - 1);
    } else {
        if s.len() > 0 {
            assert(!is_unicode_whitespace(s.last()));
        }
    }
}

/// The characters of `s` with leading and trailing white space removed
/// (`str::trim`).
pub fn trim_chars(s: &str) -> (v: Vec<char>)
    ensures
        v@ == trim_seq(s@),
{
    let cs = chars_of(s);
    let n = cs.len();
    let mut start: usize = 0;
    while start < n && is_whitespace(cs[start])
        invariant
            cs@ == s@,
            n == cs.len(),
            start <= n,
            forall|j: int| 0 <= j < start ==> is_unicode_whitespace(#[trigger] cs@[j]),
        decreases n - start,
    {
        start = start + 1;
    }
    proof {
        lemma_leading_ws_step(s@, start as int);
    }
    let mut end: usize = n;
    while end > start && is_whitespace(cs[end - 1])
        invariant
            cs@ == s@,
            n == cs.len(),
            start <= end <= n,
            forall|j: int| end <= j < n ==> is_unicode_whitespace(#[trigger] cs@[j]),
        decreases end,
    {
        end = end - 1;
    }
    let ghost t = trim_start_seq(s@);
    proof {
        assert(t =~= s@.subrange(start as int, n as int));
        assert forall|j: int| t.len() - (n - end) <= j < t.len() implies is_unicode_whitespace(#[trigger] t[j]) by {
            assert(t[j] == s@[j + start]);
        }
        if end > start {
            assert(t[t.len() - (n - end) - 1] == s@[end - 1]);
        }
        lemma_trailing_ws_step(t, (n - end) as int);
    }
    let mut v: Vec<char> = Vec::new();
    let mut i: usize = start;
    while i < end
        invariant
            cs@ == s@,
            n == cs.len(),
            start <= i <= end <= n,
            v@ == s@.subrange(start as int, i as int),
        decreases end - i,
    {
        v.push(cs[i]);
        i = i + 1;
    }
    assert(v@ =~= trim_seq(s@));
    v
}

/// `c` in ASCII lower case, as `char::to_ascii_lowercase` gives it.
pub open spec fn ascii_lower(c: char) -> char {
    if 'A' <= c <= 'Z' {
        ((c as u32) + 32) as char
    } else {
        c
    }
}

/// The ASCII lower-case form of every character of `s`.
pub open spec fn ascii_lower_seq(s: Seq<char>) -> Seq<char> {
    s.map_values(|c: char| ascii_lower(c))
}

/// The ASCII lower-case form of one character.
pub fn to_ascii_lower(c: char) -> (r: char)
    ensures
        r == ascii_lower(c),
{
    if 'A' <= c && c <= 'Z' {
        let n = (c as u32) + 32;
        assert(0x61 <= n <= 0x7A);
        char_from_ascii_code(n)
    } else {
        c
    }
}

/// The character with an ASCII code point.
fn char_from_ascii_code(n: u32) -> (c: char)
    requires
        n < 0x80,
    ensures
        c as u32 == n,
{
    (n as u8) as char
}

/// The trimmed, ASCII-lower-cased characters of `s`
/// (`s.trim().to_ascii_lowercase()`).
pub fn trim_lower_chars(s: &str) -> (v: Vec<char>)
    ensures
        v@ == ascii_lower_seq(trim_seq(s@)),
{
    let t = trim_chars(s);
    let mut v: Vec<char> = Vec::new();
    let mut i: usize = 0;
    while i < t.len()
        invariant
            i <= t.len(),
            v@ == ascii_lower_seq(t@.subrange(0, i as int)),
        decreases t.len() - i,
    {
        let c = to_ascii_lower(t[i]);
        v.push(c);
        proof {
            assert(ascii_lower_seq(t@.subrange(0, i + 1)) =~= ascii_lower_seq(t@.subrange(0, i as int)).push(ascii_lower(t@[i as int])));
        }
        i = i + 1;
    }
    assert(t@.subrange(0, t@.len() as int) =~= t@);
    v
}

/// Whether the characters of `v` are exactly those of the literal `lit`.
pub fn chars_eq_str(v: &Vec<char>, lit: &str) -> (r: bool)
    ensures
        r == (v@ == lit@),
{
    let w = chars_of(lit);
    if v.len() != w.len() {
        return false;
    }
    let mut i: usize = 0;
    while i < v.len()
        invariant
            w@ == lit@,
            v.len() == w.len(),
            i <= v.len(),
            forall|j: int| 0 <= j < i ==> v@[j] == w@[j],
        decreases v.len() - i,
    {
        if v[i] != w[i] {
            return false;
        }
        i = i + 1;
    }
    assert(v@ =~= lit@);
    true
}

/// The decimal digit character for `d < 10`.
pub open spec fn digit_char(d: nat) -> char {
    (('0' as u32) + d) as char
}

/// The decimal representation of a natural number, most significant digit
/// first, without leading zeros.
pub open spec fn nat_decimal(n: nat) -> Seq<char>
    decreases n,
{
    if n < 10 {
        seq![digit_char(n)]
    } else {
        nat_decimal(n / 10).push(digit_char(n % 10))
    }
}

/// The decimal representation of an integer, as `Display` prints it.
pub open spec fn int_decimal(n: int) -> Seq<char> {
    if n < 0 {
        seq!['-'] + nat_decimal((-n) as nat)
    } else {
        nat_decimal(n as nat)
    }
}

fn digit(d: u64) -> (c: char)
    requires
        d < 10,
    ensures
        c == digit_char(d as nat),
{
    char_from_ascii_code((0x30 + d) as u32)
}

fn push_nat_decimal(v: &mut Vec<char>, n: u64)
    ensures
        final(v)@ == old(v)@ + nat_decimal(n as nat),
    decreases n,
{
    if n < 10 {
        v.push(digit(n));
        assert(old(v)@ + nat_decimal(n as nat) =~= old(v)@.push(digit_char(n as nat)));
    } else {
        push_nat_decimal(v, n / 10);
        v.push(digit(n % 10));
        assert(old(v)@ + nat_decimal(n as nat) =~= (old(v)@ + nat_decimal((n / 10) as nat)).push(digit_char((n % 10) as nat)));
    }
}

/// The decimal text of an unsigned integer (`u64::to_string`).
pub fn u64_decimal(n: u64) -> (s: String)
    ensures
        s@ == nat_decimal(n as nat),
{
    let mut v: Vec<char> = Vec::new();
    push_nat_decimal(&mut v, n);
    assert(v@ =~= nat_decimal(n as nat));
    string_of_chars(&v)
}

/// The decimal text of a signed integer (`i64::to_string`).
pub fn i64_decimal(n: i64) -> (s: String)
    ensures
        s@ == int_decimal(n as int),
{
    let mut v: Vec<char> = Vec::new();
    if n < 0 {
        v.push('-');
        let m: u64 = if n == i64::MIN {
            9223372036854775808u64
        } else {
            (-n) as u64
        };
        push_nat_decimal(&mut v, m);
        assert(v@ =~= int_decimal(n as int));
    } else {
        push_nat_decimal(&mut v, n as u64);
        assert(v@ =~= int_decimal(n as int));
    }
    string_of_chars(&v)
}


/// `a` followed by `b`, as a new `String`.
pub fn concat_str(a: &str, b: &str) -> (s: String)
    ensures
        s@ == a@ + b@,
{
    let s = String::from_str(a);
    s.concat(b)
}

/// Appends `b` to `s`.
pub fn append_str(s: &mut String, b: &str)
    ensures
        final(s)@ == old(s)@ + b@,
{
    s.append(b);
}

/// Whether `a` comes before `b` in the order of `str`: the first differing
/// character decides, and a proper prefix comes first.
pub open spec fn text_lt(a: Seq<char>, b: Seq<char>) -> bool
    decreases a.len(),
{
    if a.len() == 0 {
        b.len() > 0
    } else if b.len() == 0 {
        false
    } else if a[0] != b[0] {
        (a[0] as int) < (b[0] as int)
    } else {
        text_lt(a.drop_first(), b.drop_first())
    }
}

proof fn lemma_text_lt_irreflexive(a: Seq<char>)
    ensures
        !text_lt(a, a),
    decreases a.len(),
{
    if a.len() > 0 {
        lemma_text_lt_irreflexive(a.drop_first());
    }
}

proof fn lemma_text_lt_total(a: Seq<char>, b: Seq<char>)
    ensures
        a != b ==> text_lt(a, b) || text_lt(b, a),
        !(text_lt(a, b) && text_lt(b, a)),
    decreases a.len(),
{
    if a.len() > 0 && b.len() > 0 {
        lemma_text_lt_total(a.drop_first(), b.drop_first());
        if a[0] == b[0] && a.drop_first() == b.drop_first() {
            assert(a =~= seq![a[0]] + a.drop_first());
            assert(b =~= seq![b[0]] + b.drop_first());
            assert(a == b);
        }
    } else if a.len() == 0 && b.len() == 0 {
        assert(a =~= b);
    }
}

proof fn lemma_text_lt_transitive(a: Seq<char>, b: Seq<char>, c: Seq<char>)
    ensures
        text_lt(a, b) && text_lt(b, c) ==> text_lt(a, c),
    decreases a.len(),
{
    if a.len() > 0 && b.len() > 0 && c.len() > 0 {
        lemma_text_lt_transitive(a.drop_first(), b.drop_first(), c.drop_first());
    }
}

/// The order of texts is a strict total order: never reflexive, transitive,
/// and any two different texts are ordered exactly one way.
pub proof fn lemma_text_order(a: Seq<char>, b: Seq<char>, c: Seq<char>)
    ensures
        !text_lt(a, a),
        text_lt(a, b) && text_lt(b, c) ==> text_lt(a, c),
        a != b ==> text_lt(a, b) || text_lt(b, a),
        !(text_lt(a, b) && text_lt(b, a)),
{
    lemma_text_lt_irreflexive(a);
    lemma_text_lt_total(a, b);
    lemma_text_lt_transitive(a, b, c);
}

/// Whether `a` comes before `b` in the order of `str`.
pub fn str_less(a: &str, b: &str) -> (r: bool)
    ensures
        r == text_lt(a@, b@),
{
    let x = chars_of(a);
    let y = chars_of(b);
    let mut i: usize = 0;
    assert(a@.subrange(0, a@.len() as int) =~= a@);
    assert(b@.subrange(0, b@.len() as int) =~= b@);
    while i < x.len() && i < y.len() && x[i] == y[i]
        invariant
            x@ == a@,
            y@ == b@,
            i <= x@.len(),
            i <= y@.len(),
            text_lt(a@, b@) == text_lt(a@.subrange(i as int, a@.len() as int), b@.subrange(i as int, b@.len() as int)),
        decreases x@.len() - i,
    {
        assert(a@.subrange(i as int, a@.len() as int).drop_first() =~= a@.subrange(i + 1, a@.len() as int));
        assert(b@.subrange(i as int, b@.len() as int).drop_first() =~= b@.subrange(i + 1, b@.len() as int));
        i = i + 1;
    }
    if i == x.len() {
        i < y.len()
    } else if i == y.len() {
        false
    } else {
        x[i] < y[i]
    }
}

/// Whether `pattern` occurs in `s` (`str::contains`).
pub open spec fn occurs_in(pattern: Seq<char>, s: Seq<char>) -> bool {
    exists|i: int| 0 <= i && i + pattern.len() <= s.len() && #[trigger] s.subrange(i, i + pattern.len()) == pattern
}

fn matches_at(x: &Vec<char>, p: &Vec<char>, i: usize) -> (r: bool)
    requires
        i + p@.len() <= x@.len(),
    ensures
        r == (x@.subrange(i as int, i + p@.len()) == p@),
{
    let n = x.len();
    let mut k: usize = 0;
    while k < p.len()
        invariant
            n == x@.len(),
            i + p@.len() <= x@.len(),
            k <= p@.len(),
            forall|m: int| 0 <= m < k ==> x@[i + m] == p@[m],
        decreases p@.len() - k,
    {
        if x[i + k] != p[k] {
            assert(x@.subrange(i as int, i + p@.len())[k as int] != p@[k as int]);
            return false;
        }
        k = k + 1;
    }
    assert(x@.subrange(i as int, i + p@.len()) =~= p@);
    true
}

/// Whether `pattern` occurs in `s`.
pub fn str_contains(s: &str, pattern: &str) -> (r: bool)
    ensures
        r == occurs_in(pattern@, s@),
{
    let x = chars_of(s);
    let p = chars_of(pattern);
    let n = x.len();
    if p.len() > n {
        return false;
    }
    let last = n - p.len();
    let mut i: usize = 0;
    loop
        invariant
            x@ == s@,
            p@ == pattern@,
            n == x@.len(),
            p@.len() <= n,
            last == n - p@.len(),
            i <= last,
            forall|j: int| 0 <= j < i ==> #[trigger] s@.subrange(j, j + pattern@.len()) != pattern@,
        decreases last - i,
    {
        if matches_at(&x, &p, i) {
            return true;
        }
        if i == last {
            return false;
        }
        i = i + 1;
    }
}

/// The texts of a list of strings.
pub open spec fn texts_of(v: Seq<String>) -> Seq<Seq<char>> {
    v.map_values(|s: String| s@)
}

/// Whether the texts ascend strictly in the order of `str`.
pub open spec fn strictly_ascending(v: Seq<Seq<char>>) -> bool {
    forall|i: int, j: int| 0 <= i < j < v.len() ==> text_lt(#[trigger] v[i], #[trigger] v[j])
}

/// Whether `out` holds exactly the texts of `items`, each once, in the
/// order of `str`: what sorting the strings and dropping repeats gives.
pub open spec fn sorted_unique_of(out: Seq<Seq<char>>, items: Seq<Seq<char>>) -> bool {
    &&& strictly_ascending(out)
    &&& forall|t: Seq<char>| out.contains(t) <==> items.contains(t)
}

/// Inserts `t` into a strictly ascending list where it is not yet held.
fn insert_sorted(out: &mut Vec<String>, item: &String)
    requires
        strictly_ascending(texts_of(old(out)@)),
    ensures
        strictly_ascending(texts_of(final(out)@)),
        forall|t: Seq<char>| texts_of(final(out)@).contains(t) <==> (texts_of(old(out)@).contains(t) || t == item@),
{
    let ghost before = texts_of(out@);
    let n = out.len();
    let mut k: usize = 0;
    while k < n && str_less(out[k].as_str(), item.as_str())
        invariant
            n == out@.len(),
            texts_of(out@) == before,
            k <= n,
            forall|m: int| 0 <= m < k ==> text_lt(#[trigger] before[m], item@),
        decreases n - k,
    {
        k = k + 1;
    }
    if k < n && str_eq(out[k].as_str(), item.as_str()) {
        assert(before[k as int] == item@);
        assert forall|t: Seq<char>| texts_of(out@).contains(t) <==> (before.contains(t) || t == item@) by {
            if t == item@ {
                assert(before[k as int] == t);
            }
        }
        return;
    }
    proof {
        if k < n {
            lemma_text_order(before[k as int], item@, item@);
        }
    }
    out.insert(k, item.clone());
    let ghost after = texts_of(out@);
    assert(after =~= before.insert(k as int, item@));
    assert forall|i: int, j: int| 0 <= i < j < after.len() implies text_lt(#[trigger] after[i], #[trigger] after[j]) by {
        if j < k {
        } else if j == k {
        } else if i < k {
            lemma_text_order(before[i], item@, before[j - 1]);
            if i < j - 1 {
                lemma_text_order(before[i], before[k as int], before[j - 1]);
            }
            if k as int == j - 1 {
            } else {
                lemma_text_order(item@, before[k as int], before[j - 1]);
            }
        } else if i == k {
            if k as int == j - 1 {
            } else {
                lemma_text_order(item@, before[k as int], before[j - 1]);
            }
        } else {
        }
    }
    assert forall|t: Seq<char>| after.contains(t) <==> (before.contains(t) || t == item@) by {
        if after.contains(t) {
            let i = choose|i: int| 0 <= i < after.len() && after[i] == t;
            if i < k {
                assert(before[i] == t);
            } else if i > k {
                assert(before[i - 1] == t);
            }
        }
        if before.contains(t) {
            let i = choose|i: int| 0 <= i < before.len() && before[i] == t;
            if i < k {
                assert(after[i] == t);
            } else {
                assert(after[i + 1] == t);
            }
        }
        if t == item@ {
            assert(after[k as int] == t);
        }
    }
}

/// The texts of `items`, each once, sorted in the order of `str` (a sort
/// followed by dropping repeats).
pub fn sorted_unique(items: &Vec<String>) -> (out: Vec<String>)
    ensures
        sorted_unique_of(texts_of(out@), texts_of(items@)),
{
    let mut out: Vec<String> = Vec::new();
    let mut i: usize = 0;
    while i < items.len()
        invariant
            i <= items@.len(),
            strictly_ascending(texts_of(out@)),
            forall|t: Seq<char>| texts_of(out@).contains(t) <==> texts_of(items@).subrange(0, i as int).contains(t),
        decreases items@.len() - i,
    {
        let ghost prev = texts_of(out@);
        insert_sorted(&mut out, &items[i]);
        proof {
            let pre = texts_of(items@).subrange(0, i as int);
            let post = texts_of(items@).subrange(0, i + 1);
            assert(post =~= pre.push(items@[i as int]@));
            assert forall|t: Seq<char>| post.contains(t) <==> (pre.contains(t) || t == items@[i as int]@) by {
                if post.contains(t) {
                    let j = choose|j: int| 0 <= j < post.len() && post[j] == t;
                    if j < i {
                        assert(pre[j] == t);
                    }
                }
                if pre.contains(t) {
                    let j = choose|j: int| 0 <= j < pre.len() && pre[j] == t;
                    assert(post[j] == t);
                }
                if t == items@[i as int]@ {
                    assert(post[i as int] == t);
                }
            }
        }
        i = i + 1;
    }
    assert(texts_of(items@).subrange(0, items@.len() as int) =~= texts_of(items@));
    out
}

/// `a` comes before `b` in the order of `str` where they agree up to
/// position `k` and `a` has the smaller character there.
pub proof fn lemma_text_lt_at(a: Seq<char>, b: Seq<char>, k: int)
    requires
        0 <= k < a.len(),
        k < b.len(),
        a.subrange(0, k) == b.subrange(0, k),
        (a[k] as int) < (b[k] as int),
    ensures
        text_lt(a, b),
    decreases k,
{
    if k > 0 {
        assert(a[0] == a.subrange(0, k)[0]);
        assert(b[0] == b.subrange(0, k)[0]);
        assert(a.drop_first().subrange(0, k - 1) =~= a.subrange(0, k).drop_first());
        assert(b.drop_first().subrange(0, k - 1) =~= b.subrange(0, k).drop_first());
        lemma_text_lt_at(a.drop_first(), b.drop_first(), k - 1);
    }
}

} // verus!
