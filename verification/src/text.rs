//! Text as sequences of characters: decimal numerals, fixed-point numerals,
//! trimming, searching and joining.
//!
//! Every executable function here is stated against a specification over
//! `Seq<char>`, the view of `str` and `String`.

use vstd::prelude::*;

verus! {

/// The character that writes the digit `d`, for `0 <= d <= 9`.
pub open spec fn digit_char(d: int) -> char {
    if d == 0 {
        '0'
    } else if d == 1 {
        '1'
    } else if d == 2 {
        '2'
    } else if d == 3 {
        '3'
    } else if d == 4 {
        '4'
    } else if d == 5 {
        '5'
    } else if d == 6 {
        '6'
    } else if d == 7 {
        '7'
    } else if d == 8 {
        '8'
    } else {
        '9'
    }
}

/// Whether `c` is one of the ten decimal digits.
pub open spec fn is_digit(c: char) -> bool {
    c == '0' || c == '1' || c == '2' || c == '3' || c == '4' || c == '5' || c == '6' || c == '7'
        || c == '8' || c == '9'
}

/// The number that the digit `c` writes; 0 for any other character.
pub open spec fn digit_value(c: char) -> int {
    if c == '1' {
        1
    } else if c == '2' {
        2
    } else if c == '3' {
        3
    } else if c == '4' {
        4
    } else if c == '5' {
        5
    } else if c == '6' {
        6
    } else if c == '7' {
        7
    } else if c == '8' {
        8
    } else if c == '9' {
        9
    } else {
        0
    }
}

/// The decimal numeral of a natural number, without leading zeros.
pub open spec fn digits(n: nat) -> Seq<char>
    decreases n,
{
    if n < 10 {
        seq![digit_char(n as int)]
    } else {
        digits(n / 10).push(digit_char((n % 10) as int))
    }
}

/// The decimal numeral of an integer: a minus sign before the numeral of the
/// magnitude when the integer is negative.
pub open spec fn decimal(n: int) -> Seq<char> {
    if n < 0 {
        seq!['-'] + digits((-n) as nat)
    } else {
        digits(n as nat)
    }
}

/// The numeral of `n` written out to exactly `width` digits, with leading
/// zeros; the digits of `n % 10^width` when `n` is longer.
pub open spec fn padded_digits(n: nat, width: nat) -> Seq<char>
    decreases width,
{
    if width == 0 {
        Seq::empty()
    } else {
        padded_digits(n / 10, (width - 1) as nat).push(digit_char((n % 10) as int))
    }
}

/// The numeral of a quantity held in thousandths: the whole part, a point,
/// and three fraction digits. `-1500` is written `-1.500`, and `7` is
/// written `0.007`.
pub open spec fn thousandths(n: int) -> Seq<char> {
    let m = if n < 0 {
        (-n) as nat
    } else {
        n as nat
    };
    let body = digits(m / 1000) + seq!['.'] + padded_digits(m % 1000, 3);
    if n < 0 {
        seq!['-'] + body
    } else {
        body
    }
}

/// The one-character text of a digit.
fn digit_text(d: u64) -> (s: &'static str)
    requires
        d < 10,
    ensures
        s@ == seq![digit_char(d as int)],
{
    proof {
        reveal_strlit("0");
        reveal_strlit("1");
        reveal_strlit("2");
        reveal_strlit("3");
        reveal_strlit("4");
        reveal_strlit("5");
        reveal_strlit("6");
        reveal_strlit("7");
        reveal_strlit("8");
        reveal_strlit("9");
    }
    let s = if d == 0 {
        "0"
    } else if d == 1 {
        "1"
    } else if d == 2 {
        "2"
    } else if d == 3 {
        "3"
    } else if d == 4 {
        "4"
    } else if d == 5 {
        "5"
    } else if d == 6 {
        "6"
    } else if d == 7 {
        "7"
    } else if d == 8 {
        "8"
    } else {
        "9"
    };
    assert(s@ =~= seq![digit_char(d as int)]);
    s
}

/// Appends the numeral of `n` to `out`.
fn append_digits(out: &mut String, n: u64)
    ensures
        final(out)@ == old(out)@ + digits(n as nat),
    decreases n,
{
    if n >= 10 {
        append_digits(out, n / 10);
    }
    out.append(digit_text(n % 10));
    assert(final(out)@ =~= old(out)@ + digits(n as nat));
}

/// Appends the last `width` digits of `n` to `out`, with leading zeros.
fn append_padded_digits(out: &mut String, n: u64, width: u8)
    ensures
        final(out)@ == old(out)@ + padded_digits(n as nat, width as nat),
    decreases width,
{
    if width > 0 {
        append_padded_digits(out, n / 10, width - 1);
        out.append(digit_text(n % 10));
    }
    assert(final(out)@ =~= old(out)@ + padded_digits(n as nat, width as nat));
}

/// The magnitude of `n`.
fn magnitude(n: i64) -> (m: u64)
    ensures
        m == if n < 0 {
            -n
        } else {
            n as int
        },
{
    if n < 0 {
        if n == i64::MIN {
            9223372036854775808u64
        } else {
            (-n) as u64
        }
    } else {
        n as u64
    }
}

/// Appends the decimal numeral of `n` to `out`.
pub fn append_decimal(out: &mut String, n: i64)
    ensures
        final(out)@ == old(out)@ + decimal(n as int),
{
    if n < 0 {
        out.append("-");
        proof {
            reveal_strlit("-");
            assert("-"@ =~= seq!['-']);
        }
    }
    append_digits(out, magnitude(n));
    assert(final(out)@ =~= old(out)@ + decimal(n as int));
}

/// Appends the numeral of a quantity held in thousandths to `out`.
pub fn append_thousandths(out: &mut String, n: i64)
    ensures
        final(out)@ == old(out)@ + thousandths(n as int),
{
    if n < 0 {
        out.append("-");
        proof {
            reveal_strlit("-");
            assert("-"@ =~= seq!['-']);
        }
    }
    let m = magnitude(n);
    append_digits(out, m / 1000);
    out.append(".");
    proof {
        reveal_strlit(".");
        assert("."@ =~= seq!['.']);
    }
    append_padded_digits(out, m % 1000, 3);
    assert(final(out)@ =~= old(out)@ + thousandths(n as int));
}

/// The decimal numeral of `n` as a string.
pub fn decimal_string(n: i64) -> (s: String)
    ensures
        s@ == decimal(n as int),
{
    let mut s = String::new();
    append_decimal(&mut s, n);
    assert(s@ =~= decimal(n as int));
    s
}

/// The parts written one after another with `sep` between neighbours.
pub open spec fn join(parts: Seq<Seq<char>>, sep: Seq<char>) -> Seq<char>
    decreases parts.len(),
{
    if parts.len() == 0 {
        Seq::empty()
    } else if parts.len() == 1 {
        parts[0]
    } else {
        join(parts.drop_last(), sep) + sep + parts.last()
    }
}

/// The views of a list of strings.
pub open spec fn views(parts: Seq<String>) -> Seq<Seq<char>> {
    parts.map_values(|p: String| p@)
}

/// Writes the strings one after another with `sep` between neighbours.
pub fn join_strings(parts: &Vec<String>, sep: &str) -> (s: String)
    ensures
        s@ == join(views(parts@), sep@),
{
    let mut s = String::new();
    let n = parts.len();
    let mut i: usize = 0;
    while i < n
        invariant
            i <= n,
            n == parts.len(),
            s@ == join(views(parts@).take(i as int), sep@),
        decreases n - i,
    {
        let ghost before = views(parts@).take(i as int);
        let ghost after = views(parts@).take(i as int + 1);
        if i > 0 {
            s.append(sep);
        }
        s.append(parts[i].as_str());
        proof {
            assert(after.drop_last() =~= before);
            assert(after.last() == parts@[i as int]@);
            if i == 0 {
                assert(s@ =~= parts@[i as int]@);
            }
        }
        i += 1;
    }
    assert(views(parts@).take(n as int) =~= views(parts@));
    s
}

/// The characters of a string.
pub fn chars_of(s: &str) -> (v: Vec<char>)
    ensures
        v@ == s@,
{
    let mut v: Vec<char> = Vec::new();
    for c in it: s.chars()
        invariant
            v@ == it.seq().take(it.index() as int),
            it.seq() == s@,
    {
        v.push(c);
    }
    v
}

/// `pattern` stands in `text` at position `i`.
pub open spec fn occurs_at(text: Seq<char>, pattern: Seq<char>, i: int) -> bool {
    &&& 0 <= i
    &&& i + pattern.len() <= text.len()
    &&& text.subrange(i, i + pattern.len()) == pattern
}

/// `pattern` stands somewhere in `text`.
pub open spec fn contains_text(text: Seq<char>, pattern: Seq<char>) -> bool {
    exists|i: int| occurs_at(text, pattern, i)
}

/// Whether `pattern` stands in `text` at position `i`.
fn matches_at(text: &Vec<char>, pattern: &Vec<char>, i: usize) -> (b: bool)
    requires
        i + pattern.len() <= text.len(),
    ensures
        b == occurs_at(text@, pattern@, i as int),
{
    let m = pattern.len();
    let mut k: usize = 0;
    while k < m
        invariant
            k <= m,
            m == pattern.len(),
            i + m <= text.len(),
            forall|j: int| 0 <= j < k ==> text@[i + j] == pattern@[j],
        decreases m - k,
    {
        if text[i + k] != pattern[k] {
            assert(text@.subrange(i as int, i + m)[k as int] != pattern@[k as int]);
            return false;
        }
        k += 1;
    }
    assert(text@.subrange(i as int, i + m) =~= pattern@);
    true
}

/// Whether `pattern` stands somewhere in `text`.
pub fn contains(text: &str, pattern: &str) -> (b: bool)
    ensures
        b == contains_text(text@, pattern@),
{
    let t = chars_of(text);
    let p = chars_of(pattern);
    if p.len() > t.len() {
        return false;
    }
    let last = t.len() - p.len();
    let mut i: usize = 0;
    loop
        invariant
            i <= last,
            last == t.len() - p.len(),
            p.len() <= t.len(),
            t@ == text@,
            p@ == pattern@,
            forall|j: int| 0 <= j < i ==> !occurs_at(text@, pattern@, j),
        decreases last - i,
    {
        if matches_at(&t, &p, i) {
            return true;
        }
        if i == last {
            return false;
        }
        i += 1;
    }
}

/// The position of the first `c` in `s`; the length of `s` when it holds
/// none.
pub open spec fn find(s: Seq<char>, c: char) -> int
    decreases s.len(),
{
    if s.len() == 0 || s[0] == c {
        0
    } else {
        1 + find(s.drop_first(), c)
    }
}

/// `find` is the one position before which no `c` stands and at which
/// either `s` ends or a `c` stands.
pub proof fn lemma_find(s: Seq<char>, c: char, k: int)
    requires
        0 <= k <= s.len(),
        forall|j: int| 0 <= j < k ==> s[j] != c,
        k < s.len() ==> s[k] == c,
    ensures
        find(s, c) == k,
    decreases s.len(),
{
    if k > 0 {
        let rest = s.drop_first();
        assert forall|j: int| 0 <= j < k - 1 implies rest[j] != c by {
            assert(rest[j] == s[j + 1]);
        }
        lemma_find(rest, c, k - 1);
    }
}

/// Where `find` points: inside `s` or at its end, past no `c`.
pub proof fn lemma_find_bounds(s: Seq<char>, c: char)
    ensures
        0 <= find(s, c) <= s.len(),
        forall|j: int| 0 <= j < find(s, c) ==> s[j] != c,
        find(s, c) < s.len() ==> s[find(s, c)] == c,
    decreases s.len(),
{
    if !(s.len() == 0 || s[0] == c) {
        let rest = s.drop_first();
        lemma_find_bounds(rest, c);
        assert forall|j: int| 0 <= j < find(s, c) implies s[j] != c by {
            if j > 0 {
                assert(rest[j - 1] == s[j]);
            }
        }
    }
}

/// The position of the first `c` in `s[from..to]`, counted in `s`; `to` when
/// the range holds none.
pub(crate) fn find_char(s: &Vec<char>, from: usize, to: usize, c: char) -> (i: usize)
    requires
        from <= to <= s.len(),
    ensures
        from <= i <= to,
        i - from == find(s@.subrange(from as int, to as int), c),
{
    let mut i = from;
    while i < to && s[i] != c
        invariant
            from <= i <= to <= s.len(),
            forall|j: int| from <= j < i ==> s@[j] != c,
        decreases to - i,
    {
        i += 1;
    }
    proof {
        lemma_find(s@.subrange(from as int, to as int), c, i - from);
    }
    i
}

/// Whether `c` is a blank: a space, a tab, a line feed or a carriage return.
pub open spec fn is_space(c: char) -> bool {
    c == ' ' || c == '\t' || c == '\n' || c == '\r'
}

/// `s` without the blanks at its two ends.
pub open spec fn trim(s: Seq<char>) -> Seq<char>
    decreases s.len(),
{
    if s.len() > 0 && is_space(s[0]) {
        trim(s.drop_first())
    } else if s.len() > 0 && is_space(s.last()) {
        trim(s.drop_last())
    } else {
        s
    }
}

/// `trim` is what stands between the blanks at the two ends.
pub proof fn lemma_trim(s: Seq<char>, a: int, b: int)
    requires
        0 <= a <= b <= s.len(),
        forall|j: int| 0 <= j < a ==> is_space(s[j]),
        forall|j: int| b <= j < s.len() ==> is_space(s[j]),
        a < b ==> !is_space(s[a]) && !is_space(s[b - 1]),
    ensures
        trim(s) == s.subrange(a, b),
    decreases s.len(),
{
    if s.len() > 0 && is_space(s[0]) {
        let rest = s.drop_first();
        if a == 0 {
            // Nothing but blanks: every position is past the kept part.
            assert(a == b);
            assert forall|j: int| 0 <= j < rest.len() implies is_space(rest[j]) by {
                assert(rest[j] == s[j + 1]);
            }
            lemma_trim(rest, 0, 0);
            assert(rest.subrange(0, 0) =~= s.subrange(a, b));
        } else {
            assert forall|j: int| 0 <= j < a - 1 implies is_space(rest[j]) by {
                assert(rest[j] == s[j + 1]);
            }
            assert forall|j: int| b - 1 <= j < rest.len() implies is_space(rest[j]) by {
                assert(rest[j] == s[j + 1]);
            }
            lemma_trim(rest, a - 1, b - 1);
            assert(rest.subrange(a - 1, b - 1) =~= s.subrange(a, b));
        }
    } else if s.len() > 0 && is_space(s.last()) {
        let rest = s.drop_last();
        assert(a == 0);
        if b == s.len() {
            assert(a == b);
        }
        lemma_trim(rest, a, b);
        assert(rest.subrange(a, b) =~= s.subrange(a, b));
    } else {
        if s.len() > 0 {
            assert(a == 0);
            assert(b == s.len());
        }
        assert(s.subrange(a, b) =~= s);
    }
}

/// Whether `c` is a blank.
pub(crate) fn is_blank(c: char) -> (b: bool)
    ensures
        b == is_space(c),
{
    c == ' ' || c == '\t' || c == '\n' || c == '\r'
}

/// The part of `s[lo..hi]` that `trim` keeps, as positions in `s`.
pub(crate) fn trim_range(s: &Vec<char>, lo: usize, hi: usize) -> (kept: (usize, usize))
    requires
        lo <= hi <= s.len(),
    ensures
        lo <= kept.0 <= kept.1 <= hi,
        s@.subrange(kept.0 as int, kept.1 as int) == trim(s@.subrange(lo as int, hi as int)),
{
    let mut a = lo;
    while a < hi && is_blank(s[a])
        invariant
            lo <= a <= hi <= s.len(),
            forall|j: int| lo <= j < a ==> is_space(s@[j]),
        decreases hi - a,
    {
        a += 1;
    }
    let mut b = hi;
    while a < b && is_blank(s[b - 1])
        invariant
            a <= b <= hi <= s.len(),
            forall|j: int| b <= j < hi ==> is_space(s@[j]),
        decreases b - a,
    {
        b -= 1;
    }
    proof {
        let part = s@.subrange(lo as int, hi as int);
        lemma_trim(part, a - lo, b - lo);
        assert(part.subrange(a - lo, b - lo) =~= s@.subrange(a as int, b as int));
    }
    (a, b)
}

/// Every character of `s` is a digit, and there is at least one.
pub open spec fn is_numeral(s: Seq<char>) -> bool {
    &&& s.len() > 0
    &&& forall|i: int| 0 <= i < s.len() ==> is_digit(#[trigger] s[i])
}

/// The number that a numeral writes.
pub open spec fn numeral_value(s: Seq<char>) -> nat
    decreases s.len(),
{
    if s.len() == 0 {
        0
    } else {
        (numeral_value(s.drop_last()) * 10 + digit_value(s.last())) as nat
    }
}

/// The integer that `s` writes: a numeral, or a numeral after one sign.
/// `None` when `s` is no such text.
pub open spec fn parse_int(s: Seq<char>) -> Option<int> {
    if s.len() > 0 && s[0] == '-' {
        if is_numeral(s.drop_first()) {
            Some(-(numeral_value(s.drop_first()) as int))
        } else {
            None
        }
    } else if s.len() > 0 && s[0] == '+' {
        if is_numeral(s.drop_first()) {
            Some(numeral_value(s.drop_first()) as int)
        } else {
            None
        }
    } else if is_numeral(s) {
        Some(numeral_value(s) as int)
    } else {
        None
    }
}

/// The 32-bit integer that `s` writes. `None` when `s` writes no integer,
/// or one that 32 bits do not hold.
pub open spec fn parse_i32_spec(s: Seq<char>) -> Option<i32> {
    match parse_int(s) {
        Some(n) => if i32::MIN <= n <= i32::MAX {
            Some(n as i32)
        } else {
            None
        },
        None => None,
    }
}

/// A numeral is worth at least as much as any of its beginnings.
pub proof fn lemma_numeral_grows(s: Seq<char>, k: int)
    requires
        0 <= k <= s.len(),
    ensures
        numeral_value(s.take(k)) <= numeral_value(s),
    decreases s.len() - k,
{
    if k < s.len() {
        lemma_numeral_grows(s, k + 1);
        assert(s.take(k + 1).drop_last() =~= s.take(k));
    } else {
        assert(s.take(k) =~= s);
    }
}

/// The value of the digit `c`, if it is one.
pub(crate) fn digit_of(c: char) -> (d: Option<u8>)
    ensures
        d is Some <==> is_digit(c),
        d is Some ==> d->0 == digit_value(c),
{
    if c == '0' {
        Some(0)
    } else if c == '1' {
        Some(1)
    } else if c == '2' {
        Some(2)
    } else if c == '3' {
        Some(3)
    } else if c == '4' {
        Some(4)
    } else if c == '5' {
        Some(5)
    } else if c == '6' {
        Some(6)
    } else if c == '7' {
        Some(7)
    } else if c == '8' {
        Some(8)
    } else if c == '9' {
        Some(9)
    } else {
        None
    }
}

/// The number that `s[lo..hi]` writes, if it is a numeral of at most
/// 2147483648.
fn parse_magnitude(s: &Vec<char>, lo: usize, hi: usize) -> (m: Option<u32>)
    requires
        lo <= hi <= s.len(),
    ensures
        m is Some <==> is_numeral(s@.subrange(lo as int, hi as int)) && numeral_value(
            s@.subrange(lo as int, hi as int),
        ) <= 2147483648,
        m is Some ==> m->0 == numeral_value(s@.subrange(lo as int, hi as int)),
{
    let ghost part = s@.subrange(lo as int, hi as int);
    if lo == hi {
        return None;
    }
    let mut acc: u64 = 0;
    let mut i = lo;
    while i < hi
        invariant
            lo <= i <= hi <= s.len(),
            part == s@.subrange(lo as int, hi as int),
            acc == numeral_value(part.take(i - lo)),
            acc <= 2147483648,
            forall|j: int| 0 <= j < i - lo ==> is_digit(#[trigger] part[j]),
        decreases hi - i,
    {
        let ghost next = part.take(i - lo + 1);
        proof {
            assert(next.drop_last() =~= part.take(i - lo));
            assert(next.last() == s@[i as int]);
            assert(part[i - lo] == s@[i as int]);
        }
        match digit_of(s[i]) {
            None => {
                return None;
            },
            Some(d) => {
                acc = acc * 10 + d as u64;
                if acc > 2147483648 {
                    proof {
                        lemma_numeral_grows(part, i - lo + 1);
                    }
                    return None;
                }
            },
        }
        i += 1;
    }
    proof {
        assert(part.take(hi - lo) =~= part);
    }
    Some(acc as u32)
}

/// The 32-bit integer that `s[lo..hi]` writes, if it writes one.
pub(crate) fn parse_i32_range(s: &Vec<char>, lo: usize, hi: usize) -> (n: Option<i32>)
    requires
        lo <= hi <= s.len(),
    ensures
        n == parse_i32_spec(s@.subrange(lo as int, hi as int)),
{
    let ghost part = s@.subrange(lo as int, hi as int);
    if lo < hi && (s[lo] == '-' || s[lo] == '+') {
        proof {
            assert(part[0] == s@[lo as int]);
            assert(part.drop_first() =~= s@.subrange(lo + 1, hi as int));
        }
        let negative = s[lo] == '-';
        match parse_magnitude(s, lo + 1, hi) {
            None => None,
            Some(m) => {
                if negative {
                    if m == 2147483648 {
                        Some(i32::MIN)
                    } else {
                        Some(-(m as i32))
                    }
                } else if m == 2147483648 {
                    None
                } else {
                    Some(m as i32)
                }
            },
        }
    } else {
        proof {
            if lo < hi {
                assert(part[0] == s@[lo as int]);
            }
        }
        match parse_magnitude(s, lo, hi) {
            None => None,
            Some(m) => {
                if m == 2147483648 {
                    None
                } else {
                    Some(m as i32)
                }
            },
        }
    }
}

/// The 32-bit integer that `text` writes, if it writes one: a decimal
/// numeral, with or without one sign before it, and nothing else.
pub fn parse_i32(text: &str) -> (n: Option<i32>)
    ensures
        n == parse_i32_spec(text@),
{
    let s = chars_of(text);
    assert(s@.subrange(0, s.len() as int) =~= text@);
    parse_i32_range(&s, 0, s.len())
}

/// Whether `s[lo..hi]` begins with `label`.
pub(crate) fn starts_with(s: &Vec<char>, lo: usize, hi: usize, label: &Vec<char>) -> (b: bool)
    requires
        lo <= hi <= s.len(),
    ensures
        b == label@.is_prefix_of(s@.subrange(lo as int, hi as int)),
{
    let m = label.len();
    if m > hi - lo {
        return false;
    }
    let ghost part = s@.subrange(lo as int, hi as int);
    let mut k: usize = 0;
    while k < m
        invariant
            k <= m,
            m == label.len(),
            lo + m <= hi <= s.len(),
            part == s@.subrange(lo as int, hi as int),
            forall|j: int| 0 <= j < k ==> part[j] == label@[j],
        decreases m - k,
    {
        if s[lo + k] != label[k] {
            assert(part[k as int] != label@[k as int]);
            assert(part.subrange(0, m as int)[k as int] == part[k as int]);
            return false;
        }
        k += 1;
    }
    assert(label@ =~= part.subrange(0, m as int));
    true
}

} // verus!
