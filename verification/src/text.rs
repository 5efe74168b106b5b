//! Character-level text operations with their specifications.
//!
//! Strings are handled as sequences of `char`; every executable helper here
//! is proved against the spec function of the same name with a `_spec`
//! suffix.
use vstd::prelude::*;

verus! {

/// Appends one character to a string (`String::push`).
#[verifier::external_body]
pub(crate) fn push_char(s: &mut String, c: char)
    ensures
        final(s)@ == old(s)@.push(c),
{
    s.push(c);
}

/// The characters of `s`, in order.
pub fn chars_of(s: &str) -> (v: Vec<char>)
    ensures
        v@ == s@,
{
    let mut v: Vec<char> = Vec::new();
    for c in it: s.chars()
        invariant
            v@ == it.seq().take(it.index() as int),
            it.seq() == s@,
    {
        v.push(c);
    }
    v
}

/// Appends the characters of `cs` to `s`.
pub fn push_chars(s: &mut String, cs: &Vec<char>)
    ensures
        final(s)@ == old(s)@ + cs@,
{
    let mut i: usize = 0;
    while i < cs.len()
        invariant
            i <= cs.len(),
            s@ == old(s)@ + cs@.take(i as int),
        decreases cs.len() - i,
    {
        push_char(s, cs[i]);
        assert(cs@.take(i as int).push(cs@[i as int]) =~= cs@.take(i + 1));
        assert((old(s)@ + cs@.take(i as int)).push(cs@[i as int]) =~= old(s)@ + cs@.take(i + 1));
        i += 1;
    }
    assert(cs@.take(cs.len() as int) =~= cs@);
}

/// A string holding exactly the characters of `cs`.
pub fn string_of(cs: &Vec<char>) -> (s: String)
    ensures
        s@ == cs@,
{
    let mut s = String::new();
    push_chars(&mut s, cs);
    s
}

/// Characters with the Unicode `White_Space` property.
pub open spec fn is_white_spec(c: char) -> bool {
    let u = c as u32;
    ||| 0x9 <= u <= 0xd
    ||| u == 0x20
    ||| u == 0x85
    ||| u == 0xa0
    ||| u == 0x1680
    ||| 0x2000 <= u <= 0x200a
    ||| u == 0x2028
    ||| u == 0x2029
    ||| u == 0x202f
    ||| u == 0x205f
    ||| u == 0x3000
}

/// Whether `c` is whitespace in the sense of the Unicode `White_Space` property.
pub fn is_whitespace(c: char) -> (r: bool)
    ensures
        r == is_white_spec(c),
{
    let u = c as u32;
    (0x9 <= u && u <= 0xd) || u == 0x20 || u == 0x85 || u == 0xa0 || u == 0x1680 || (0x2000
        <= u && u <= 0x200a) || u == 0x2028 || u == 0x2029 || u == 0x202f || u == 0x205f || u
        == 0x3000
}

/// `s` without its trailing whitespace.
pub open spec fn trim_end_spec(s: Seq<char>) -> Seq<char>
    decreases s.len(),
{
    if s.len() > 0 && is_white_spec(s.last()) {
        trim_end_spec(s.drop_last())
    } else {
        s
    }
}

/// `s` without its leading whitespace.
pub open spec fn trim_start_spec(s: Seq<char>) -> Seq<char>
    decreases s.len(),
{
    if s.len() > 0 && is_white_spec(s[0]) {
        trim_start_spec(s.drop_first())
    } else {
        s
    }
}

/// `s` without leading and trailing whitespace.
pub open spec fn trim_spec(s: Seq<char>) -> Seq<char> {
    trim_start_spec(trim_end_spec(s))
}

/// The length of `v` once its trailing whitespace is removed.
pub fn trim_end_len(v: &Vec<char>) -> (n: usize)
    ensures
        n <= v.len(),
        v@.take(n as int) == trim_end_spec(v@),
{
    let mut n = v.len();
    assert(v@.take(n as int) =~= v@);
    while n > 0 && is_whitespace(v[n - 1])
        invariant
            n <= v.len(),
            trim_end_spec(v@.take(n as int)) == trim_end_spec(v@),
        decreases n,
    {
        assert(v@.take(n as int).drop_last() =~= v@.take(n - 1));
        n -= 1;
    }
    n
}

/// The index of the first character of `v` that is not whitespace.
pub fn trim_start_index(v: &Vec<char>, end: usize) -> (i: usize)
    requires
        end <= v.len(),
    ensures
        i <= end,
        v@.subrange(i as int, end as int) == trim_start_spec(v@.take(end as int)),
{
    let mut i: usize = 0;
    assert(v@.subrange(0, end as int) =~= v@.take(end as int));
    while i < end && is_whitespace(v[i])
        invariant
            i <= end <= v.len(),
            trim_start_spec(v@.subrange(i as int, end as int)) == trim_start_spec(
                v@.take(end as int),
            ),
        decreases end - i,
    {
        assert(v@.subrange(i as int, end as int).drop_first() =~= v@.subrange(i + 1, end as int));
        i += 1;
    }
    i
}

/// The characters of `v` between `from` and `to`.
pub fn slice_chars(v: &Vec<char>, from: usize, to: usize) -> (r: Vec<char>)
    requires
        from <= to <= v.len(),
    ensures
        r@ == v@.subrange(from as int, to as int),
{
    let mut r: Vec<char> = Vec::new();
    let mut i = from;
    while i < to
        invariant
            from <= i <= to <= v.len(),
            r@ == v@.subrange(from as int, i as int),
        decreases to - i,
    {
        r.push(v[i]);
        assert(v@.subrange(from as int, i as int).push(v@[i as int]) =~= v@.subrange(
            from as int,
            i + 1,
        ));
        i += 1;
    }
    r
}

/// `s` with leading and trailing whitespace removed (`str::trim`).
pub fn trim(s: &str) -> (r: Vec<char>)
    ensures
        r@ == trim_spec(s@),
{
    let v = chars_of(s);
    let end = trim_end_len(&v);
    let start = trim_start_index(&v, end);
    slice_chars(&v, start, end)
}

/// `s` with trailing whitespace removed (`str::trim_end`).
pub fn trim_end(s: &str) -> (r: Vec<char>)
    ensures
        r@ == trim_end_spec(s@),
{
    let v = chars_of(s);
    let end = trim_end_len(&v);
    slice_chars(&v, 0, end)
}


/// `p` occurs in `s` starting at index `i`.
pub open spec fn occurs_at(s: Seq<char>, p: Seq<char>, i: int) -> bool {
    0 <= i && i + p.len() <= s.len() && s.subrange(i, i + p.len()) == p
}

/// The first index at or after `i` where `p` occurs in `s`.
pub open spec fn find_from_spec(s: Seq<char>, p: Seq<char>, i: int) -> Option<int>
    decreases s.len() + 1 - i,
{
    if i < 0 || i + p.len() > s.len() {
        None
    } else if occurs_at(s, p, i) {
        Some(i)
    } else {
        find_from_spec(s, p, i + 1)
    }
}

/// The first index where `p` occurs in `s` (`str::find`).
pub open spec fn find_spec(s: Seq<char>, p: Seq<char>) -> Option<int> {
    find_from_spec(s, p, 0)
}

/// The last index at or before `i` where `p` occurs in `s`.
pub open spec fn rfind_from_spec(s: Seq<char>, p: Seq<char>, i: int) -> Option<int>
    decreases i + 1,
{
    if i < 0 {
        None
    } else if occurs_at(s, p, i) {
        Some(i)
    } else {
        rfind_from_spec(s, p, i - 1)
    }
}

/// The last index where `p` occurs in `s` (`str::rfind`).
pub open spec fn rfind_spec(s: Seq<char>, p: Seq<char>) -> Option<int> {
    rfind_from_spec(s, p, s.len() - p.len())
}

/// `s` contains `p` as a contiguous part (`str::contains`).
pub open spec fn contains_spec(s: Seq<char>, p: Seq<char>) -> bool {
    find_spec(s, p) is Some
}

/// `s` begins with `p` (`str::starts_with`).
pub open spec fn starts_with_spec(s: Seq<char>, p: Seq<char>) -> bool {
    p.len() <= s.len() && s.take(p.len() as int) == p
}

/// Whether `p` occurs in `h` at index `i`.
pub fn matches_at(h: &Vec<char>, p: &Vec<char>, i: usize) -> (r: bool)
    ensures
        r == occurs_at(h@, p@, i as int),
{
    if i > h.len() || p.len() > h.len() - i {
        return false;
    }
    let mut k: usize = 0;
    while k < p.len()
        invariant
            i + p.len() <= h.len(),
            k <= p.len(),
            forall|j: int| 0 <= j < k ==> h@[i + j] == p@[j],
        decreases p.len() - k,
    {
        if h[i + k] != p[k] {
            assert(h@.subrange(i as int, i + p.len())[k as int] != p@[k as int]);
            return false;
        }
        k += 1;
    }
    assert(h@.subrange(i as int, i + p.len()) =~= p@);
    true
}

/// The first index where `p` occurs in `h`.
pub fn find(h: &Vec<char>, p: &Vec<char>) -> (r: Option<usize>)
    ensures
        r matches Some(i) ==> find_spec(h@, p@) == Some(i as int),
        r is None ==> find_spec(h@, p@) is None,
{
    if p.len() > h.len() {
        return None;
    }
    let last = h.len() - p.len();
    let mut i: usize = 0;
    loop
        invariant
            last + p.len() == h.len(),
            i <= last,
            find_from_spec(h@, p@, i as int) == find_spec(h@, p@),
        decreases last - i,
    {
        if matches_at(h, p, i) {
            return Some(i);
        }
        if i == last {
            assert(find_from_spec(h@, p@, i + 1) is None);
            return None;
        }
        i += 1;
    }
}

/// The last index where `p` occurs in the first `end` characters of `h`.
pub fn rfind_before(h: &Vec<char>, p: &Vec<char>, end: usize) -> (r: Option<usize>)
    requires
        end <= h.len(),
    ensures
        r matches Some(i) ==> rfind_spec(h@.take(end as int), p@) == Some(i as int) && i + p@.len()
            <= end,
        r is None ==> rfind_spec(h@.take(end as int), p@) is None,
{
    let ghost hs = h@.take(end as int);
    if p.len() > end {
        return None;
    }
    let mut i: usize = end - p.len();
    loop
        invariant
            i + p.len() <= end <= h.len(),
            hs == h@.take(end as int),
            rfind_from_spec(hs, p@, i as int) == rfind_spec(hs, p@),
        decreases i,
    {
        let m = matches_at(h, p, i);
        assert(m == occurs_at(hs, p@, i as int)) by {
            if i + p.len() <= end {
                assert(hs.subrange(i as int, i + p.len()) =~= h@.subrange(i as int, i + p.len()));
            }
        }
        if m {
            return Some(i);
        }
        if i == 0 {
            assert(rfind_from_spec(hs, p@, -1) is None);
            return None;
        }
        i -= 1;
    }
}

/// Whether `p` occurs in `h` (`str::contains`).
pub fn contains(h: &Vec<char>, p: &Vec<char>) -> (r: bool)
    ensures
        r == contains_spec(h@, p@),
{
    find(h, p).is_some()
}

/// Whether `h` begins with `p` (`str::starts_with`).
pub fn starts_with(h: &Vec<char>, p: &Vec<char>) -> (r: bool)
    ensures
        r == starts_with_spec(h@, p@),
{
    let r = matches_at(h, p, 0);
    assert(p@.len() <= h@.len() ==> h@.subrange(0, p@.len() as int) =~= h@.take(p@.len() as int));
    r
}

/// Whether `a` and `b` hold the same characters.
pub fn chars_eq(a: &Vec<char>, b: &Vec<char>) -> (r: bool)
    ensures
        r == (a@ == b@),
{
    if a.len() != b.len() {
        return false;
    }
    let r = matches_at(a, b, 0);
    assert(a@.subrange(0, b@.len() as int) =~= a@);
    r
}

/// Whether the text of `s` is exactly `t`.
pub fn str_eq(s: &str, t: &str) -> (r: bool)
    ensures
        r == (s@ == t@),
{
    let a = chars_of(s);
    let b = chars_of(t);
    chars_eq(&a, &b)
}


/// The ASCII digit for `d < 10`.
pub open spec fn digit_spec(d: nat) -> char {
    (48 + d) as char
}

/// The decimal notation of `n`, without leading zeros.
pub open spec fn decimal_spec(n: nat) -> Seq<char>
    decreases n,
{
    if n < 10 {
        seq![digit_spec(n)]
    } else {
        decimal_spec(n / 10).push(digit_spec(n % 10))
    }
}

/// The decimal notation of `n`, with a leading `-` when negative.
pub open spec fn signed_decimal_spec(n: int) -> Seq<char> {
    if n < 0 {
        seq!['-'] + decimal_spec((-n) as nat)
    } else {
        decimal_spec(n as nat)
    }
}

fn digit(d: u64) -> (c: char)
    requires
        d < 10,
    ensures
        c == digit_spec(d as nat),
{
    let b: u8 = 48 + d as u8;
    b as char
}

/// The decimal notation of `n` (as `u64::to_string` writes it).
pub fn decimal(n: u64) -> (v: Vec<char>)
    ensures
        v@ == decimal_spec(n as nat),
    decreases n,
{
    if n < 10 {
        let mut v = Vec::new();
        v.push(digit(n));
        assert(v@ =~= seq![digit_spec(n as nat)]);
        v
    } else {
        let mut v = decimal(n / 10);
        v.push(digit(n % 10));
        v
    }
}

/// The decimal notation of `n` (as `i64::to_string` writes it).
pub fn signed_decimal(n: i64) -> (v: Vec<char>)
    ensures
        v@ == signed_decimal_spec(n as int),
{
    if n < 0 {
        let m: u64 = (0 - (n as i128)) as u64;
        let d = decimal(m);
        let mut v = Vec::new();
        v.push('-');
        let mut i: usize = 0;
        while i < d.len()
            invariant
                i <= d.len(),
                v@ == seq!['-'] + d@.take(i as int),
            decreases d.len() - i,
        {
            v.push(d[i]);
            assert(seq!['-'] + d@.take(i + 1) =~= (seq!['-'] + d@.take(i as int)).push(d@[i as int]));
            i += 1;
        }
        assert(d@.take(d.len() as int) =~= d@);
        v
    } else {
        decimal(n as u64)
    }
}

/// The text `"true"` or `"false"`.
pub open spec fn bool_text_spec(b: bool) -> Seq<char> {
    if b {
        seq!['t', 'r', 'u', 'e']
    } else {
        seq!['f', 'a', 'l', 's', 'e']
    }
}

/// The text of a boolean, as `bool::to_string` writes it.
pub fn bool_text(b: bool) -> (v: Vec<char>)
    ensures
        v@ == bool_text_spec(b),
{
    if b {
        let v = vec!['t', 'r', 'u', 'e'];
        assert(v@ =~= seq!['t', 'r', 'u', 'e']);
        v
    } else {
        let v = vec!['f', 'a', 'l', 's', 'e'];
        assert(v@ =~= seq!['f', 'a', 'l', 's', 'e']);
        v
    }
}

/// The parts joined with `sep` between consecutive parts (`slice::join`).
pub open spec fn join_spec(parts: Seq<Seq<char>>, sep: Seq<char>) -> Seq<char>
    decreases parts.len(),
{
    if parts.len() == 0 {
        Seq::empty()
    } else if parts.len() == 1 {
        parts[0]
    } else {
        join_spec(parts.drop_last(), sep) + sep + parts.last()
    }
}

/// The views of a vector of strings.
pub open spec fn strings_view(v: Seq<String>) -> Seq<Seq<char>> {
    v.map_values(|s: String| s@)
}

/// The strings of `parts` joined with `sep` between them.
pub fn join(parts: &Vec<String>, sep: &str) -> (r: String)
    ensures
        r@ == join_spec(strings_view(parts@), sep@),
{
    let mut r = String::new();
    let mut i: usize = 0;
    while i < parts.len()
        invariant
            i <= parts.len(),
            r@ == join_spec(strings_view(parts@).take(i as int), sep@),
        decreases parts.len() - i,
    {
        let ghost pv = strings_view(parts@);
        assert(pv.take(i + 1).drop_last() =~= pv.take(i as int));
        if i > 0 {
            r.append(sep);
        }
        r.append(parts[i].as_str());
        i += 1;
    }
    assert(strings_view(parts@).take(parts.len() as int) =~= strings_view(parts@));
    r
}

/// The lines of `s`: split at `\n`, a `\r` before the `\n` dropped, and no
/// empty line after a final `\n` (`str::lines`).
pub open spec fn lines_spec(s: Seq<char>) -> Seq<Seq<char>>
    decreases s.len(),
{
    if s.len() == 0 {
        Seq::empty()
    } else {
        match find_spec(s, seq!['\n']) {
            Some(i) => {
                let line = s.take(i);
                let line = if line.len() > 0 && line.last() == '\r' {
                    line.drop_last()
                } else {
                    line
                };
                if 0 <= i < s.len() {
                    seq![line] + lines_spec(s.skip(i + 1))
                } else {
                    seq![line]
                }
            },
            None => seq![s],
        }
    }
}

/// The numeric value of a sequence of ASCII digits.
pub open spec fn digits_value(s: Seq<char>) -> nat
    decreases s.len(),
{
    if s.len() == 0 {
        0
    } else {
        digits_value(s.drop_last()) * 10 + ((s.last() as u32) - 48) as nat
    }
}

/// Every character of `s` is an ASCII digit.
pub open spec fn all_digits(s: Seq<char>) -> bool {
    forall|i: int| 0 <= i < s.len() ==> 48 <= #[trigger] (s[i] as u32) <= 57
}

/// The value of `s` read as a `u32` the way `str::parse::<u32>` reads it:
/// an optional `+`, then at least one ASCII digit, and nothing else.
pub open spec fn parse_u32_spec(s: Seq<char>) -> Option<u32> {
    let d = if s.len() > 0 && s[0] == '+' {
        s.drop_first()
    } else {
        s
    };
    if d.len() > 0 && all_digits(d) && digits_value(d) <= u32::MAX {
        Some(digits_value(d) as u32)
    } else {
        None
    }
}

proof fn lemma_digits_value_grows(s: Seq<char>, k: int)
    requires
        0 <= k <= s.len(),
        all_digits(s),
    ensures
        digits_value(s.take(k)) <= digits_value(s),
    decreases s.len() - k,
{
    if k < s.len() {
        lemma_digits_value_grows(s, k + 1);
        assert(s.take(k + 1).drop_last() =~= s.take(k));
        assert(48 <= (s[k] as u32) <= 57);
    } else {
        assert(s.take(k) =~= s);
    }
}

/// Reads `v[from..to]` as a `u32` the way `str::parse::<u32>` does.
pub fn parse_u32(v: &Vec<char>, from: usize, to: usize) -> (r: Option<u32>)
    requires
        from <= to <= v.len(),
    ensures
        r == parse_u32_spec(v@.subrange(from as int, to as int)),
{
    let ghost s = v@.subrange(from as int, to as int);
    let mut i = from;
    if i < to && v[i] == '+' {
        i += 1;
    }
    let ghost d = v@.subrange(i as int, to as int);
    assert(d =~= (if s.len() > 0 && s[0] == '+' { s.drop_first() } else { s }));
    if i == to {
        return None;
    }
    let start = i;
    let mut acc: u64 = 0;
    while i < to
        invariant
            start <= i <= to <= v.len(),
            d == v@.subrange(start as int, to as int),
            s == v@.subrange(from as int, to as int),
            d == (if s.len() > 0 && s[0] == '+' { s.drop_first() } else { s }),
            d.len() > 0,
            acc <= u32::MAX,
            all_digits(d.take(i - start)),
            acc == digits_value(d.take(i - start)),
        decreases to - i,
    {
        let c = v[i];
        let u = c as u32;
        if u < 48 || u > 57 {
            assert(d[i - start] == c);
            assert(!(48 <= (d[i - start] as u32) <= 57));
            return None;
        }
        let ghost k = i - start;
        assert(d.take(k + 1).drop_last() =~= d.take(k));
        assert(d.take(k + 1).last() == c);
        assert(digits_value(d.take(k + 1)) == digits_value(d.take(k)) * 10 + ((c as u32) - 48) as nat);
        assert(all_digits(d.take(k + 1))) by {
            assert forall|j: int| 0 <= j < d.take(k + 1).len() implies 48 <= #[trigger] (d.take(k + 1)[j] as u32) <= 57 by {
                if j < k {
                    assert(d.take(k + 1)[j] == d.take(k)[j]);
                }
            }
        }
        acc = acc * 10 + (u as u64 - 48);
        i += 1;
        if acc > 0xffff_ffff {
            proof {
                if all_digits(d) {
                    lemma_digits_value_grows(d, k + 1);
                }
            }
            return None;
        }
    }
    assert(d.take(to - start) =~= d);
    Some(acc as u32)
}


/// A match reported by `find_from_spec` is an occurrence, and none comes earlier.
pub proof fn lemma_find_from_occurs(s: Seq<char>, p: Seq<char>, i: int)
    requires
        0 <= i,
    ensures
        find_from_spec(s, p, i) matches Some(j) ==> i <= j && occurs_at(s, p, j) && forall|k: int|
            i <= k < j ==> !occurs_at(s, p, k),
        find_from_spec(s, p, i) is None ==> forall|k: int| i <= k ==> !occurs_at(s, p, k),
    decreases s.len() + 1 - i,
{
    if i + p.len() > s.len() {
    } else if occurs_at(s, p, i) {
    } else {
        lemma_find_from_occurs(s, p, i + 1);
    }
}

/// The decimal notation of `n` is a non-empty run of ASCII digits that
/// reads back as `n`.
pub proof fn lemma_decimal_reads_back(n: nat)
    ensures
        decimal_spec(n).len() > 0,
        all_digits(decimal_spec(n)),
        digits_value(decimal_spec(n)) == n,
    decreases n,
{
    let d = decimal_spec(n);
    if n < 10 {
        assert((digit_spec(n) as u32) == 48 + n);
        assert(d.drop_last() =~= Seq::<char>::empty());
        assert(digits_value(d.drop_last()) == 0);
        assert(digits_value(d) == n);
    } else {
        lemma_decimal_reads_back(n / 10);
        let h = decimal_spec(n / 10);
        assert((digit_spec(n % 10) as u32) == 48 + n % 10);
        assert(d.drop_last() =~= h);
        assert forall|i: int| 0 <= i < d.len() implies 48 <= #[trigger] (d[i] as u32) <= 57 by {
            if i < h.len() {
                assert(d[i] == h[i]);
            }
        }
        assert(d.last() == digit_spec(n % 10));
        assert(digits_value(d) == digits_value(h) * 10 + (n % 10));
        assert(n == (n / 10) * 10 + n % 10) by (nonlinear_arith);
        assert(digits_value(d) == n);
    }
}

/// When `p` occurs at `k` and nowhere after it up to `i`, the last
/// occurrence at or before `i` is at `k`.
pub proof fn lemma_rfind_from_last(s: Seq<char>, p: Seq<char>, i: int, k: int)
    requires
        0 <= k <= i,
        occurs_at(s, p, k),
        forall|j: int| k < j <= i ==> !occurs_at(s, p, j),
    ensures
        rfind_from_spec(s, p, i) == Some(k),
    decreases i - k,
{
    if i > k {
        lemma_rfind_from_last(s, p, i - 1, k);
    }
}

/// Removing trailing whitespace keeps a prefix of the text, and doing it
/// twice is doing it once.
pub proof fn lemma_trim_end_prefix(s: Seq<char>)
    ensures
        trim_end_spec(s).len() <= s.len(),
        trim_end_spec(s) =~= s.take(trim_end_spec(s).len() as int),
        trim_end_spec(trim_end_spec(s)) == trim_end_spec(s),
    decreases s.len(),
{
    if s.len() > 0 && is_white_spec(s.last()) {
        lemma_trim_end_prefix(s.drop_last());
        let t = trim_end_spec(s.drop_last());
        assert(s.drop_last().take(t.len() as int) =~= s.take(t.len() as int));
    } else {
        assert(s.take(s.len() as int) =~= s);
    }
}

/// The views of a vector of character vectors.
pub open spec fn char_vecs_view(v: Seq<Vec<char>>) -> Seq<Seq<char>> {
    v.map_values(|l: Vec<char>| l@)
}

/// The lines of `s` (`str::lines`).
pub fn split_lines(s: &str) -> (r: Vec<Vec<char>>)
    ensures
        char_vecs_view(r@) == lines_spec(s@),
{
    let v = chars_of(s);
    let nl = vec!['\n'];
    assert(nl@ =~= seq!['\n']);
    let mut out: Vec<Vec<char>> = Vec::new();
    let mut pos: usize = 0;
    assert(v@.skip(0) =~= v@);
    assert(char_vecs_view(out@) =~= Seq::<Seq<char>>::empty());
    while pos < v.len()
        invariant
            pos <= v.len(),
            v@ == s@,
            nl@ == seq!['\n'],
            char_vecs_view(out@) + lines_spec(v@.skip(pos as int)) == lines_spec(v@),
        decreases v.len() - pos,
    {
        let rest = slice_chars(&v, pos, v.len());
        assert(rest@ =~= v@.skip(pos as int));
        let found = find(&rest, &nl);
        proof {
            lemma_find_from_occurs(rest@, nl@, 0);
        }
        match found {
            Some(i) => {
                let mut end = i;
                if end > 0 && rest[end - 1] == '\r' {
                    end -= 1;
                }
                let line = slice_chars(&rest, 0, end);
                assert(line@ =~= ({
                    let l = rest@.take(i as int);
                    if l.len() > 0 && l.last() == '\r' { l.drop_last() } else { l }
                }));
                assert(rest@.skip(i + 1) =~= v@.skip(pos + i + 1));
                assert(lines_spec(rest@) == seq![line@] + lines_spec(rest@.skip(i + 1)));
                let ghost before = char_vecs_view(out@);
                out.push(line);
                assert(char_vecs_view(out@) =~= before.push(line@));
                assert(before.push(line@) + lines_spec(v@.skip(pos + i + 1)) =~= before + (seq![line@] + lines_spec(v@.skip(pos + i + 1))));
                pos = pos + i + 1;
            },
            None => {
                assert(lines_spec(rest@) == seq![rest@]);
                let ghost before = char_vecs_view(out@);
                out.push(rest);
                assert(char_vecs_view(out@) =~= before.push(v@.skip(pos as int)));
                assert(v@.skip(v.len() as int) =~= Seq::<char>::empty());
                assert(before.push(v@.skip(pos as int)) =~= before + seq![v@.skip(pos as int)]);
                pos = v.len();
            },
        }
    }
    assert(v@.skip(pos as int) =~= Seq::<char>::empty());
    assert(lines_spec(Seq::<char>::empty()) =~= Seq::<Seq<char>>::empty());
    assert(char_vecs_view(out@) + Seq::<Seq<char>>::empty() =~= char_vecs_view(out@));
    out
}

/// The first index at or after `i` holding a whitespace character.
pub open spec fn first_white_from_spec(s: Seq<char>, i: int) -> Option<int>
    decreases s.len() - i,
{
    if i < 0 || i >= s.len() {
        None
    } else if is_white_spec(s[i]) {
        Some(i)
    } else {
        first_white_from_spec(s, i + 1)
    }
}

/// The first index of `v` at or after `from` holding a whitespace character.
pub fn first_white_from(v: &Vec<char>, from: usize) -> (r: Option<usize>)
    ensures
        r matches Some(i) ==> first_white_from_spec(v@, from as int) == Some(i as int) && from <= i
            < v@.len(),
        r is None ==> first_white_from_spec(v@, from as int) is None,
{
    let mut i = from;
    while i < v.len()
        invariant
            from <= i,
            first_white_from_spec(v@, i as int) == first_white_from_spec(v@, from as int),
        decreases v.len() - i,
    {
        if is_whitespace(v[i]) {
            return Some(i);
        }
        i += 1;
    }
    None
}

} // verus!
