//! Character-level helpers shared by the name, path and identifier rules.

use vstd::prelude::*;

verus! {

/// `String::push` appends one character to the end of the string.
pub assume_specification[ String::push ](string: &mut String, ch: char)
    ensures
        final(string)@ == old(string)@.push(ch),
;

/// Unicode general category Cc, which is what `char::is_control` tests.
pub open spec fn is_control_char(c: char) -> bool {
    (c as u32) <= 0x1f || (0x7f <= (c as u32) && (c as u32) <= 0x9f)
}

/// The Unicode `White_Space` property, which is what `char::is_whitespace` and `str::trim` use.
pub open spec fn is_whitespace_char(c: char) -> bool {
    let v = c as u32;
    (0x09 <= v && v <= 0x0d) || v == 0x20 || v == 0x85 || v == 0xa0 || v == 0x1680 || (0x2000
        <= v && v <= 0x200a) || v == 0x2028 || v == 0x2029 || v == 0x202f || v == 0x205f || v
        == 0x3000
}

/// ASCII whitespace as `str::split_ascii_whitespace` understands it.
pub open spec fn is_ascii_whitespace_char(c: char) -> bool {
    c == ' ' || c == '\t' || c == '\n' || c == '\x0C' || c == '\r'
}

pub open spec fn has_control_char(s: Seq<char>) -> bool {
    exists|i: int| 0 <= i < s.len() && is_control_char(#[trigger] s[i])
}

pub open spec fn contains_char(s: Seq<char>, c: char) -> bool {
    exists|i: int| 0 <= i < s.len() && #[trigger] s[i] == c
}

/// Number of leading characters of `s` that are whitespace.
pub open spec fn leading_ws(s: Seq<char>) -> nat
    decreases s.len(),
{
    if s.len() > 0 && is_whitespace_char(s[0]) {
        1 + leading_ws(s.drop_first())
    } else {
        0
    }
}

/// Number of trailing characters of `s` that are whitespace.
pub open spec fn trailing_ws(s: Seq<char>) -> nat
    decreases s.len(),
{
    if s.len() > 0 && is_whitespace_char(s.last()) {
        1 + trailing_ws(s.drop_last())
    } else {
        0
    }
}

/// `str::trim`: `s` without its leading and trailing whitespace.
pub open spec fn trim(s: Seq<char>) -> Seq<char> {
    let t = s.skip(leading_ws(s) as int);
    t.take(t.len() - trailing_ws(t))
}

pub open spec fn starts_with(s: Seq<char>, prefix: Seq<char>) -> bool {
    prefix.len() <= s.len() && s.take(prefix.len() as int) == prefix
}

/// `char::to_ascii_lowercase`.
pub open spec fn ascii_lower(c: char) -> char {
    if 'A' <= c && c <= 'Z' {
        ((c as u32) + 32) as char
    } else {
        c
    }
}

pub open spec fn ascii_lower_seq(s: Seq<char>) -> Seq<char> {
    s.map_values(|c: char| ascii_lower(c))
}

pub proof fn lemma_leading_ws_bound(s: Seq<char>)
    ensures
        leading_ws(s) <= s.len(),
        forall|i: int| 0 <= i < leading_ws(s) ==> is_whitespace_char(#[trigger] s[i]),
        leading_ws(s) < s.len() ==> !is_whitespace_char(s[leading_ws(s) as int]),
    decreases s.len(),
{
    if s.len() > 0 && is_whitespace_char(s[0]) {
        lemma_leading_ws_bound(s.drop_first());
        assert forall|i: int| 0 <= i < leading_ws(s) implies is_whitespace_char(#[trigger] s[i]) by {
            if i > 0 {
                assert(s[i] == s.drop_first()[i - 1]);
            }
        }
    }
}

pub proof fn lemma_trailing_ws_bound(s: Seq<char>)
    ensures
        trailing_ws(s) <= s.len(),
        forall|i: int|
            s.len() - trailing_ws(s) <= i < s.len() ==> is_whitespace_char(#[trigger] s[i]),
        trailing_ws(s) < s.len() ==> !is_whitespace_char(s[s.len() - trailing_ws(s) - 1]),
    decreases s.len(),
{
    if s.len() > 0 && is_whitespace_char(s.last()) {
        lemma_trailing_ws_bound(s.drop_last());
        assert forall|i: int| s.len() - trailing_ws(s) <= i < s.len() implies is_whitespace_char(
            #[trigger] s[i],
        ) by {
            if i < s.len() - 1 {
                assert(s[i] == s.drop_last()[i]);
            }
        }
    }
}

/// Whether two strings hold the same characters (byte-wise comparison of their UTF-8 forms).
pub fn str_eq(a: &str, b: &str) -> (r: bool)
    ensures
        r == (a@ == b@),
{
    let x = a.as_bytes();
    let y = b.as_bytes();
    proof {
        vstd::utf8::encode_utf8_decode_utf8(a@);
        vstd::utf8::encode_utf8_decode_utf8(b@);
    }
    if x.len() != y.len() {
        assert(x@ != y@);
        return false;
    }
    let mut i: usize = 0;
    while i < x.len()
        invariant
            x@.len() == y@.len(),
            x@ == vstd::utf8::encode_utf8(a@),
            y@ == vstd::utf8::encode_utf8(b@),
            i <= x@.len(),
            forall|j: int| 0 <= j < i ==> x@[j] == y@[j],
        decreases x@.len() - i,
    {
        if x[i] != y[i] {
            assert(x@[i as int] != y@[i as int]);
            assert(x@ != y@);
            assert(a@ == b@ ==> x@ == y@);
            return false;
        }
        i = i + 1;
    }
    assert(x@ =~= y@);
    true
}

/// The characters of `s`, in order.
pub fn chars_of(s: &str) -> (r: Vec<char>)
    ensures
        r@ == s@,
{
    let n = s.unicode_len();
    let mut r: Vec<char> = Vec::new();
    let mut i: usize = 0;
    while i < n
        invariant
            n == s@.len(),
            i <= n,
            r@ == s@.subrange(0, i as int),
        decreases n - i,
    {
        let c = s.get_char(i);
        r.push(c);
        i = i + 1;
    }
    assert(r@ == s@);
    r
}

/// The string made of `chars[from..to]`.
pub fn string_from_range(chars: &Vec<char>, from: usize, to: usize) -> (r: String)
    requires
        from <= to <= chars.len(),
    ensures
        r@ == chars@.subrange(from as int, to as int),
{
    let mut r = String::new();
    let mut i = from;
    while i < to
        invariant
            from <= i <= to,
            to <= chars.len(),
            r@ == chars@.subrange(from as int, i as int),
        decreases to - i,
    {
        r.push(chars[i]);
        i = i + 1;
        assert(r@ == chars@.subrange(from as int, i as int));
    }
    r
}

/// The string made of all of `chars`.
pub fn string_from_chars(chars: &Vec<char>) -> (r: String)
    ensures
        r@ == chars@,
{
    let r = string_from_range(chars, 0, chars.len());
    assert(chars@.subrange(0, chars@.len() as int) == chars@);
    r
}

pub fn is_control(c: char) -> (r: bool)
    ensures
        r == is_control_char(c),
{
    let v = c as u32;
    v <= 0x1f || (0x7f <= v && v <= 0x9f)
}

pub fn is_whitespace(c: char) -> (r: bool)
    ensures
        r == is_whitespace_char(c),
{
    let v = c as u32;
    (0x09 <= v && v <= 0x0d) || v == 0x20 || v == 0x85 || v == 0xa0 || v == 0x1680 || (0x2000
        <= v && v <= 0x200a) || v == 0x2028 || v == 0x2029 || v == 0x202f || v == 0x205f || v
        == 0x3000
}

pub fn any_control(s: &Vec<char>) -> (r: bool)
    ensures
        r == has_control_char(s@),
{
    let mut i: usize = 0;
    while i < s.len()
        invariant
            i <= s.len(),
            forall|j: int| 0 <= j < i ==> !is_control_char(#[trigger] s@[j]),
        decreases s.len() - i,
    {
        if is_control(s[i]) {
            return true;
        }
        i = i + 1;
    }
    false
}

pub fn has_char(s: &Vec<char>, c: char) -> (r: bool)
    ensures
        r == contains_char(s@, c),
{
    let mut i: usize = 0;
    while i < s.len()
        invariant
            i <= s.len(),
            forall|j: int| 0 <= j < i ==> #[trigger] s@[j] != c,
        decreases s.len() - i,
    {
        if s[i] == c {
            return true;
        }
        i = i + 1;
    }
    false
}

/// The bounds `(start, end)` of `trim(s)` inside `s`.
pub fn trim_bounds(s: &Vec<char>) -> (r: (usize, usize))
    ensures
        r.0 <= r.1 <= s.len(),
        s@.subrange(r.0 as int, r.1 as int) == trim(s@),
{
    proof {
        lemma_leading_ws_bound(s@);
    }
    let mut start: usize = 0;
    while start < s.len() && is_whitespace(s[start])
        invariant
            start <= s.len(),
            start <= leading_ws(s@),
            leading_ws(s@) <= s.len(),
            forall|i: int| 0 <= i < leading_ws(s@) ==> is_whitespace_char(#[trigger] s@[i]),
            leading_ws(s@) < s.len() ==> !is_whitespace_char(s@[leading_ws(s@) as int]),
        decreases s.len() - start,
    {
        start = start + 1;
    }
    assert(start == leading_ws(s@));
    let ghost t = s@.skip(start as int);
    proof {
        lemma_trailing_ws_bound(t);
    }
    let mut end: usize = s.len();
    while end > start && is_whitespace(s[end - 1])
        invariant
            start <= end <= s.len(),
            t == s@.skip(start as int),
            s.len() - end <= trailing_ws(t),
            trailing_ws(t) <= t.len(),
            forall|i: int| t.len() - trailing_ws(t) <= i < t.len() ==> is_whitespace_char(#[trigger] t[i]),
            trailing_ws(t) < t.len() ==> !is_whitespace_char(t[t.len() - trailing_ws(t) - 1]),
        decreases end,
    {
        assert(s@[end - 1] == t[end - 1 - start]);
        end = end - 1;
    }
    assert(s.len() - end == trailing_ws(t)) by {
        if s.len() - end < trailing_ws(t) {
            if end > start {
                assert(s@[end - 1] == t[end - 1 - start]);
            }
        }
    }
    assert(s@.subrange(start as int, end as int) == t.take(t.len() - trailing_ws(t)));
    (start, end)
}

/// `str::trim` as an owned string.
pub fn trimmed(s: &str) -> (r: String)
    ensures
        r@ == trim(s@),
{
    let chars = chars_of(s);
    let (start, end) = trim_bounds(&chars);
    string_from_range(&chars, start, end)
}

pub fn starts_with_chars(s: &Vec<char>, prefix: &Vec<char>) -> (r: bool)
    ensures
        r == starts_with(s@, prefix@),
{
    if prefix.len() > s.len() {
        return false;
    }
    let mut i: usize = 0;
    while i < prefix.len()
        invariant
            prefix.len() <= s.len(),
            i <= prefix.len(),
            forall|j: int| 0 <= j < i ==> s@[j] == prefix@[j],
        decreases prefix.len() - i,
    {
        if s[i] != prefix[i] {
            assert(s@.take(prefix.len() as int)[i as int] != prefix@[i as int]);
            return false;
        }
        i = i + 1;
    }
    assert(s@.take(prefix.len() as int) == prefix@);
    true
}

/// Whether `s` begins with the characters of `prefix`.
pub fn str_starts_with(s: &str, prefix: &str) -> (r: bool)
    ensures
        r == starts_with(s@, prefix@),
{
    let a = chars_of(s);
    let b = chars_of(prefix);
    starts_with_chars(&a, &b)
}

pub fn ascii_lowercase(c: char) -> (r: char)
    ensures
        r == ascii_lower(c),
{
    if 'A' <= c && c <= 'Z' {
        let v: u8 = (c as u8) + 32;
        v as char
    } else {
        c
    }
}

} // verus!

verus! {

/// The characters of each string in `v`.
pub open spec fn views(v: Seq<String>) -> Seq<Seq<char>> {
    v.map_values(|s: String| s@)
}

/// The position of `s` in `v`, if it occurs.
pub fn position_of(v: &Vec<String>, s: &str) -> (r: Option<usize>)
    ensures
        match r {
            Some(i) => i < v.len() && v@[i as int]@ == s@ && forall|j: int| 0 <= j < i ==> (#[trigger] v@[j])@ != s@,
            None => forall|j: int| 0 <= j < v.len() ==> (#[trigger] v@[j])@ != s@,
        },
        r is None <==> !views(v@).contains(s@),
{
    let mut i: usize = 0;
    while i < v.len()
        invariant
            i <= v.len(),
            forall|j: int| 0 <= j < i ==> (#[trigger] v@[j])@ != s@,
        decreases v.len() - i,
    {
        if str_eq(v[i].as_str(), s) {
            assert(views(v@)[i as int] == s@);
            return Some(i);
        }
        i = i + 1;
    }
    assert(!views(v@).contains(s@)) by {
        if views(v@).contains(s@) {
            let j = choose|j: int| 0 <= j < views(v@).len() && views(v@)[j] == s@;
            assert(v@[j]@ == s@);
        }
    }
    None
}

/// Decimal digits of a number, most significant first, without leading zeros.
pub open spec fn decimal(n: nat) -> Seq<char>
    decreases n,
{
    if n < 10 {
        seq![digit_char(n)]
    } else {
        decimal(n / 10).push(digit_char(n % 10))
    }
}

pub open spec fn digit_char(d: nat) -> char {
    if d == 0 { '0' } else if d == 1 { '1' } else if d == 2 { '2' } else if d == 3 { '3' }
    else if d == 4 { '4' } else if d == 5 { '5' } else if d == 6 { '6' } else if d == 7 { '7' }
    else if d == 8 { '8' } else { '9' }
}

fn digit(d: u64) -> (c: char)
    requires
        d < 10,
    ensures
        c == digit_char(d as nat),
{
    if d == 0 { '0' } else if d == 1 { '1' } else if d == 2 { '2' } else if d == 3 { '3' }
    else if d == 4 { '4' } else if d == 5 { '5' } else if d == 6 { '6' } else if d == 7 { '7' }
    else if d == 8 { '8' } else { '9' }
}

/// The decimal text of `n`, as `n.to_string()` writes it.
pub fn decimal_string(n: u64) -> (r: String)
    ensures
        r@ == decimal(n as nat),
    decreases n,
{
    if n < 10 {
        let mut r = String::new();
        r.push(digit(n));
        assert(r@ =~= decimal(n as nat));
        r
    } else {
        let mut r = decimal_string(n / 10);
        r.push(digit(n % 10));
        r
    }
}

} // verus!

verus! {

/// The order in which `String`s compare: lexicographic over characters, a proper prefix
/// first. (Comparing UTF-8 bytes, as `String` does, orders by code points in the same way.)
pub open spec fn chars_lt(a: Seq<char>, b: Seq<char>) -> bool
    decreases a.len(),
{
    if b.len() == 0 {
        false
    } else if a.len() == 0 {
        true
    } else if a[0] != b[0] {
        a[0] < b[0]
    } else {
        chars_lt(a.drop_first(), b.drop_first())
    }
}

pub proof fn lemma_chars_lt_irreflexive(a: Seq<char>)
    ensures
        !chars_lt(a, a),
    decreases a.len(),
{
    if a.len() > 0 {
        lemma_chars_lt_irreflexive(a.drop_first());
    }
}

pub proof fn lemma_chars_lt_total(a: Seq<char>, b: Seq<char>)
    ensures
        a == b || chars_lt(a, b) || chars_lt(b, a),
    decreases a.len(),
{
    if a.len() > 0 && b.len() > 0 && a[0] == b[0] {
        lemma_chars_lt_total(a.drop_first(), b.drop_first());
        if a.drop_first() == b.drop_first() {
            assert(a =~= seq![a[0]] + a.drop_first());
            assert(b =~= seq![b[0]] + b.drop_first());
        }
    } else if a.len() == 0 && b.len() == 0 {
        assert(a =~= b);
    }
}

pub proof fn lemma_chars_lt_asymmetric(a: Seq<char>, b: Seq<char>)
    ensures
        chars_lt(a, b) ==> !chars_lt(b, a),
    decreases a.len(),
{
    if a.len() > 0 && b.len() > 0 && a[0] == b[0] {
        lemma_chars_lt_asymmetric(a.drop_first(), b.drop_first());
    }
}

pub proof fn lemma_chars_lt_transitive(a: Seq<char>, b: Seq<char>, c: Seq<char>)
    requires
        chars_lt(a, b),
        chars_lt(b, c),
    ensures
        chars_lt(a, c),
    decreases a.len(),
{
    if a.len() > 0 && b.len() > 0 && c.len() > 0 && a[0] == b[0] && b[0] == c[0] {
        lemma_chars_lt_transitive(a.drop_first(), b.drop_first(), c.drop_first());
    }
}

/// Whether `a` sorts before `b`.
pub fn str_lt(a: &str, b: &str) -> (r: bool)
    ensures
        r == chars_lt(a@, b@),
{
    let x = chars_of(a);
    let y = chars_of(b);
    let mut i: usize = 0;
    assert(a@.skip(0) =~= a@);
    assert(b@.skip(0) =~= b@);
    while i < x.len() && i < y.len() && x[i] == y[i]
        invariant
            i <= x.len(),
            i <= y.len(),
            x@ == a@,
            y@ == b@,
            chars_lt(a@, b@) == chars_lt(a@.skip(i as int), b@.skip(i as int)),
        decreases x.len() - i,
    {
        assert(a@.skip(i as int).drop_first() =~= a@.skip(i + 1));
        assert(b@.skip(i as int).drop_first() =~= b@.skip(i + 1));
        i = i + 1;
    }
    if i == y.len() {
        false
    } else if i == x.len() {
        true
    } else {
        x[i] < y[i]
    }
}

/// Every element sorts strictly before every later one: sorted, with no repeats.
pub open spec fn strictly_sorted(s: Seq<Seq<char>>) -> bool {
    forall|i: int, j: int| 0 <= i < j < s.len() ==> chars_lt(#[trigger] s[i], #[trigger] s[j])
}

/// Two strictly sorted sequences with the same elements are the same sequence.
pub proof fn lemma_strictly_sorted_unique(a: Seq<Seq<char>>, b: Seq<Seq<char>>)
    requires
        strictly_sorted(a),
        strictly_sorted(b),
        a.to_set() == b.to_set(),
    ensures
        a == b,
    decreases a.len(),
{
    if a.len() == 0 {
        if b.len() > 0 {
            assert(b.to_set().contains(b[0]));
            assert(!a.to_set().contains(b[0]));
        }
        assert(a =~= b);
    } else if b.len() == 0 {
        assert(a.to_set().contains(a[0]));
    } else {
        // The least elements agree.
        assert(a.to_set().contains(a[0]));
        assert(b.to_set().contains(a[0]));
        let j = choose|j: int| 0 <= j < b.len() && b[j] == a[0];
        assert(b.to_set().contains(b[0]));
        assert(a.to_set().contains(b[0]));
        let i = choose|i: int| 0 <= i < a.len() && a[i] == b[0];
        if j > 0 {
            assert(chars_lt(b[0], b[j]));
            if i > 0 {
                assert(chars_lt(a[0], a[i]));
                lemma_chars_lt_asymmetric(a[0], b[0]);
            } else {
                lemma_chars_lt_irreflexive(a[0]);
            }
        }
        assert(a[0] == b[0]);
        let ta = a.drop_first();
        let tb = b.drop_first();
        assert forall|x: Seq<char>| ta.to_set().contains(x) implies tb.to_set().contains(x) by {
            let k = choose|k: int| 0 <= k < ta.len() && ta[k] == x;
            assert(a[k + 1] == x);
            assert(b.to_set().contains(x));
            let m = choose|m: int| 0 <= m < b.len() && b[m] == x;
            if m == 0 {
                assert(chars_lt(a[0], a[k + 1]));
                lemma_chars_lt_irreflexive(x);
            }
            assert(tb[m - 1] == x);
        }
        assert forall|x: Seq<char>| tb.to_set().contains(x) implies ta.to_set().contains(x) by {
            let k = choose|k: int| 0 <= k < tb.len() && tb[k] == x;
            assert(b[k + 1] == x);
            assert(a.to_set().contains(x));
            let m = choose|m: int| 0 <= m < a.len() && a[m] == x;
            if m == 0 {
                assert(chars_lt(b[0], b[k + 1]));
                lemma_chars_lt_irreflexive(x);
            }
            assert(ta[m - 1] == x);
        }
        assert(ta.to_set() =~= tb.to_set());
        lemma_strictly_sorted_unique(ta, tb);
        assert(a =~= seq![a[0]] + ta);
        assert(b =~= seq![b[0]] + tb);
    }
}

/// Inserting `x` at a position after every smaller element and before every larger one
/// keeps a strictly sorted sequence strictly sorted.
pub proof fn lemma_insert_keeps_sorted(before: Seq<Seq<char>>, p: int, x: Seq<char>)
    requires
        strictly_sorted(before),
        0 <= p <= before.len(),
        forall|j: int| 0 <= j < p ==> chars_lt(#[trigger] before[j], x),
        p < before.len() ==> chars_lt(x, before[p]),
    ensures
        strictly_sorted(before.insert(p, x)),
        before.insert(p, x).to_set() == before.to_set().insert(x),
{
    let after = before.insert(p, x);
    assert forall|i: int, j: int| 0 <= i < j < after.len() implies chars_lt(#[trigger] after[i], #[trigger] after[j]) by {
        if j < p {
        } else if j == p {
        } else if i < p {
            assert(after[j] == before[j - 1]);
            assert(chars_lt(before[i], x));
            if j - 1 > p {
                assert(chars_lt(before[p], before[j - 1]));
                lemma_chars_lt_transitive(x, before[p], before[j - 1]);
            }
            lemma_chars_lt_transitive(before[i], x, before[j - 1]);
        } else if i == p {
            if j - 1 > p {
                assert(chars_lt(before[p], before[j - 1]));
                lemma_chars_lt_transitive(x, before[p], before[j - 1]);
            }
        } else {
            assert(after[i] == before[i - 1]);
            assert(after[j] == before[j - 1]);
        }
    }
    assert forall|y: Seq<char>| after.to_set().contains(y) <==> before.to_set().insert(x).contains(y) by {
        if after.to_set().contains(y) {
            let k = choose|k: int| 0 <= k < after.len() && after[k] == y;
            if k < p {
                assert(before[k] == y);
            } else if k > p {
                assert(before[k - 1] == y);
            }
        }
        if before.to_set().contains(y) {
            let k = choose|k: int| 0 <= k < before.len() && before[k] == y;
            if k < p {
                assert(after[k] == y);
            } else {
                assert(after[k + 1] == y);
            }
        }
        if y == x {
            assert(after[p] == y);
        }
    }
    assert(after.to_set() =~= before.to_set().insert(x));
}

/// The first position from `i` on whose element does not sort before `x`.
pub proof fn lemma_insert_position(s: Seq<Seq<char>>, x: Seq<char>, i: int) -> (p: int)
    requires
        0 <= i <= s.len(),
        forall|j: int| 0 <= j < i ==> chars_lt(#[trigger] s[j], x),
    ensures
        i <= p <= s.len(),
        forall|j: int| 0 <= j < p ==> chars_lt(#[trigger] s[j], x),
        p < s.len() ==> !chars_lt(s[p], x),
    decreases s.len() - i,
{
    if i == s.len() || !chars_lt(s[i], x) {
        i
    } else {
        lemma_insert_position(s, x, i + 1)
    }
}

/// Every sequence of strings has a sorted, repeat-free arrangement of its elements.
pub proof fn lemma_sorted_arrangement_exists(ids: Seq<Seq<char>>) -> (c: Seq<Seq<char>>)
    ensures
        strictly_sorted(c),
        c.to_set() == ids.to_set(),
    decreases ids.len(),
{
    if ids.len() == 0 {
        assert(ids.to_set() =~= Set::<Seq<char>>::empty());
        assert(Seq::<Seq<char>>::empty().to_set() =~= Set::<Seq<char>>::empty());
        Seq::empty()
    } else {
        let rest = ids.drop_last();
        let x = ids.last();
        let c0 = lemma_sorted_arrangement_exists(rest);
        assert(ids =~= rest.push(x));
        rest.lemma_push_to_set_commute(x);
        let p = lemma_insert_position(c0, x, 0);
        if p < c0.len() && c0[p] == x {
            assert(c0.to_set().contains(x));
            assert(c0.to_set().insert(x) =~= c0.to_set());
            c0
        } else {
            if p < c0.len() {
                lemma_chars_lt_total(c0[p], x);
            }
            lemma_insert_keeps_sorted(c0, p, x);
            c0.insert(p, x)
        }
    }
}

/// Inserts `s` into a strictly sorted vector of strings unless it is there already.
pub fn insert_sorted_unique(v: &mut Vec<String>, s: String)
    requires
        strictly_sorted(views(old(v)@)),
    ensures
        strictly_sorted(views(final(v)@)),
        views(final(v)@).to_set() == views(old(v)@).to_set().insert(s@),
{
    let ghost before = views(v@);
    let mut p: usize = 0;
    while p < v.len() && str_lt(v[p].as_str(), s.as_str())
        invariant
            p <= v.len(),
            before == views(v@),
            forall|j: int| 0 <= j < p ==> chars_lt(#[trigger] before[j], s@),
        decreases v.len() - p,
    {
        p = p + 1;
    }
    if p < v.len() && str_eq(v[p].as_str(), s.as_str()) {
        assert(before.to_set().insert(s@) =~= before.to_set()) by {
            assert(before[p as int] == s@);
        }
        return;
    }
    proof {
        if p < before.len() {
            lemma_chars_lt_total(before[p as int], s@);
        }
        lemma_insert_keeps_sorted(before, p as int, s@);
    }
    let ghost x = s@;
    v.insert(p, s);
    assert(views(v@) =~= before.insert(p as int, x));
}

} // verus!
