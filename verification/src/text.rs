//! Character-level text helpers with exact specifications: equality,
//! the lexicographic order that `String`'s `Ord` uses, and decimal numerals.

use vstd::prelude::*;
use vstd::string::*;

verus! {

/// Returns whether two strings hold the same characters.
pub fn str_eq(a: &str, b: &str) -> (r: bool)
    ensures
        r == (a@ == b@),
{
    let n = a.unicode_len();
    let m = b.unicode_len();
    if n != m {
        return false;
    }
    let mut i: usize = 0;
    while i < n
        invariant
            n == a@.len(),
            m == b@.len(),
            n == m,
            i <= n,
            forall|j: int| 0 <= j < i ==> a@[j] == b@[j],
        decreases n - i,
    {
        if a.get_char(i) != b.get_char(i) {
            return false;
        }
        i = i + 1;
    }
    assert(a@ =~= b@);
    true
}

/// Returns whether two owned strings hold the same characters.
pub fn text_eq(a: &String, b: &String) -> (r: bool)
    ensures
        r == (a@ == b@),
{
    str_eq(a.as_str(), b.as_str())
}

/// A copy of a string.
pub fn copy_text(s: &str) -> (r: String)
    ensures
        r@ == s@,
{
    String::from_str(s)
}

/// `a` is strictly below `b` in code-point lexicographic order, comparing from position `i`.
/// For UTF-8 text this is the order of `String`'s `Ord` (byte order equals code-point order).
pub open spec fn text_lt_from(a: Seq<char>, b: Seq<char>, i: int) -> bool
    decreases a.len() - i,
{
    if i < 0 || i >= a.len() {
        0 <= i < b.len()
    } else if i >= b.len() {
        false
    } else if a[i] != b[i] {
        (a[i] as u32) < (b[i] as u32)
    } else {
        text_lt_from(a, b, i + 1)
    }
}

/// Strict lexicographic order on texts.
pub open spec fn text_lt(a: Seq<char>, b: Seq<char>) -> bool {
    text_lt_from(a, b, 0)
}

/// Non-strict lexicographic order on texts.
pub open spec fn text_le(a: Seq<char>, b: Seq<char>) -> bool {
    a == b || text_lt(a, b)
}

proof fn lemma_char_u32_injective(x: char, y: char)
    requires
        x != y,
    ensures
        (x as u32) != (y as u32),
{
}

pub proof fn lemma_text_lt_from_irreflexive(a: Seq<char>, i: int)
    requires
        0 <= i,
    ensures
        !text_lt_from(a, a, i),
    decreases a.len() - i,
{
    if i < a.len() {
        lemma_text_lt_from_irreflexive(a, i + 1);
    }
}

pub proof fn lemma_text_lt_from_transitive(a: Seq<char>, b: Seq<char>, c: Seq<char>, i: int)
    requires
        0 <= i,
        text_lt_from(a, b, i),
        text_lt_from(b, c, i),
    ensures
        text_lt_from(a, c, i),
    decreases a.len() - i,
{
    if i < a.len() && i < b.len() && i < c.len() {
        if a[i] == b[i] && b[i] == c[i] {
            lemma_text_lt_from_transitive(a, b, c, i + 1);
        } else if a[i] != b[i] {
            lemma_char_u32_injective(a[i], b[i]);
            if b[i] != c[i] {
                lemma_char_u32_injective(b[i], c[i]);
            }
            if a[i] == c[i] {
                assert((a[i] as u32) < (b[i] as u32));
            } else {
                lemma_char_u32_injective(a[i], c[i]);
            }
        } else {
            lemma_char_u32_injective(b[i], c[i]);
            if a[i] != c[i] {
                lemma_char_u32_injective(a[i], c[i]);
            }
        }
    }
}

/// Two texts that agree on every position from `i` on, and on their lengths, are not ordered either way
/// only when equal from `i` on.
pub proof fn lemma_text_lt_from_total(a: Seq<char>, b: Seq<char>, i: int)
    requires
        0 <= i <= a.len(),
        i <= b.len(),
        !text_lt_from(a, b, i),
        !text_lt_from(b, a, i),
    ensures
        a.len() == b.len(),
        forall|j: int| i <= j < a.len() ==> a[j] == b[j],
    decreases a.len() - i,
{
    if i < a.len() && i < b.len() {
        if a[i] != b[i] {
            lemma_char_u32_injective(a[i], b[i]);
        } else {
            lemma_text_lt_from_total(a, b, i + 1);
        }
    }
}

/// Lexicographic order is a strict total order on texts.
pub proof fn lemma_text_order(a: Seq<char>, b: Seq<char>, c: Seq<char>)
    ensures
        !text_lt(a, a),
        text_lt(a, b) && text_lt(b, c) ==> text_lt(a, c),
        text_lt(a, b) ==> !text_lt(b, a),
        !text_lt(a, b) && !text_lt(b, a) ==> a == b,
{
    lemma_text_lt_from_irreflexive(a, 0);
    if text_lt(a, b) && text_lt(b, c) {
        lemma_text_lt_from_transitive(a, b, c, 0);
    }
    if text_lt(a, b) && text_lt(b, a) {
        lemma_text_lt_from_transitive(a, b, a, 0);
    }
    if !text_lt(a, b) && !text_lt(b, a) {
        lemma_text_lt_from_total(a, b, 0);
        assert(a =~= b);
    }
}

/// Compares two texts in code-point lexicographic order.
pub fn text_less(a: &str, b: &str) -> (r: bool)
    ensures
        r == text_lt(a@, b@),
{
    let n = a.unicode_len();
    let m = b.unicode_len();
    let mut i: usize = 0;
    while i < n && i < m
        invariant
            n == a@.len(),
            m == b@.len(),
            i <= n,
            i <= m,
            text_lt(a@, b@) == text_lt_from(a@, b@, i as int),
        decreases n - i,
    {
        let x = a.get_char(i);
        let y = b.get_char(i);
        if x != y {
            return (x as u32) < (y as u32);
        }
        i = i + 1;
    }
    i < m
}

/// The value of a run of decimal digits.
pub open spec fn digits_value(s: Seq<char>) -> int
    decreases s.len(),
{
    if s.len() == 0 {
        0
    } else {
        digits_value(s.drop_last()) * 10 + ((s.last() as u32) - ('0' as u32))
    }
}

pub open spec fn is_digit(c: char) -> bool {
    '0' <= c && c <= '9'
}

pub open spec fn all_digits(s: Seq<char>) -> bool {
    forall|i: int| 0 <= i < s.len() ==> is_digit(#[trigger] s[i])
}

/// What `str::parse::<u32>` accepts: an optional `+` and at least one digit, with a value that fits.
pub open spec fn u32_numeral(s: Seq<char>) -> Option<u32> {
    let body = if s.len() > 0 && s[0] == '+' { s.drop_first() } else { s };
    if body.len() > 0 && all_digits(body) && digits_value(body) <= u32::MAX {
        Some(digits_value(body) as u32)
    } else {
        None
    }
}

proof fn lemma_digits_value_nonneg(s: Seq<char>)
    requires
        all_digits(s),
    ensures
        digits_value(s) >= 0,
    decreases s.len(),
{
    if s.len() > 0 {
        assert(all_digits(s.drop_last()));
        lemma_digits_value_nonneg(s.drop_last());
    }
}

/// Parses a decimal `u32` exactly as `str::parse::<u32>().ok()` does.
pub fn parse_u32(s: &str) -> (r: Option<u32>)
    ensures
        r == u32_numeral(s@),
{
    let n = s.unicode_len();
    let mut start: usize = 0;
    if n > 0 && s.get_char(0) == '+' {
        start = 1;
    }
    let ghost body = if s@.len() > 0 && s@[0] == '+' { s@.drop_first() } else { s@ };
    assert(body =~= s@.subrange(start as int, n as int));
    if start >= n {
        return None;
    }
    let mut value: u64 = 0;
    let mut i: usize = start;
    while i < n
        invariant
            start <= i <= n,
            n == s@.len(),
            start < n,
            body =~= s@.subrange(start as int, n as int),
            body == (if s@.len() > 0 && s@[0] == '+' { s@.drop_first() } else { s@ }),
            all_digits(s@.subrange(start as int, i as int)),
            value == digits_value(s@.subrange(start as int, i as int)),
            value <= u32::MAX,
        decreases n - i,
    {
        let c = s.get_char(i);
        if !('0' <= c && c <= '9') {
            assert(body[i - start] == c);
            assert(!is_digit(body[i - start]));
            assert(!all_digits(body));
            return None;
        }
        let d = (c as u32 - '0' as u32) as u64;
        let ghost prev = s@.subrange(start as int, i as int);
        assert(s@.subrange(start as int, i + 1) =~= prev.push(c));
        assert(s@.subrange(start as int, i + 1).drop_last() =~= prev);
        let next = value * 10 + d;
        assert(digits_value(s@.subrange(start as int, i + 1)) == value * 10 + d);
        if next > u32::MAX as u64 {
            proof {
                let rest = s@.subrange(start as int, n as int);
                assert(rest.subrange(0, (i + 1 - start) as int) =~= s@.subrange(start as int, i + 1));
                lemma_prefix_value_bound(rest, (i + 1 - start) as int);
            }
            return None;
        }
        assert(all_digits(s@.subrange(start as int, i + 1)));
        value = next;
        i = i + 1;
    }
    Some(value as u32)
}

/// The value of a digit run is at least the value of any of its prefixes.
proof fn lemma_prefix_value_bound(s: Seq<char>, k: int)
    requires
        0 <= k <= s.len(),
    ensures
        all_digits(s) ==> digits_value(s.subrange(0, k)) <= digits_value(s),
    decreases s.len() - k,
{
    if k == s.len() {
        assert(s.subrange(0, k) =~= s);
    } else if all_digits(s) {
        lemma_prefix_value_bound(s, k + 1);
        let p = s.subrange(0, k + 1);
        assert(p.drop_last() =~= s.subrange(0, k));
        assert(all_digits(s.subrange(0, k)));
        lemma_digits_value_nonneg(s.subrange(0, k));
        assert(is_digit(s[k]));
    }
}

/// The shortest decimal numeral of `n`.
pub open spec fn decimal(n: nat) -> Seq<char>
    decreases n,
{
    if n < 10 {
        seq![digit_char(n)]
    } else {
        decimal(n / 10).push(digit_char(n % 10))
    }
}

pub open spec fn digit_char(d: nat) -> char {
    if d == 0 { '0' }
    else if d == 1 { '1' }
    else if d == 2 { '2' }
    else if d == 3 { '3' }
    else if d == 4 { '4' }
    else if d == 5 { '5' }
    else if d == 6 { '6' }
    else if d == 7 { '7' }
    else if d == 8 { '8' }
    else { '9' }
}

fn digit_text(d: u64) -> (r: &'static str)
    requires
        d < 10,
    ensures
        r@ == seq![digit_char(d as nat)],
{
    proof {
        reveal_strlit("0");
        reveal_strlit("1");
        reveal_strlit("2");
        reveal_strlit("3");
        reveal_strlit("4");
        reveal_strlit("5");
        reveal_strlit("6");
        reveal_strlit("7");
        reveal_strlit("8");
        reveal_strlit("9");
    }
    let r = if d == 0 { "0" }
    else if d == 1 { "1" }
    else if d == 2 { "2" }
    else if d == 3 { "3" }
    else if d == 4 { "4" }
    else if d == 5 { "5" }
    else if d == 6 { "6" }
    else if d == 7 { "7" }
    else if d == 8 { "8" }
    else { "9" };
    assert(r@ =~= seq![digit_char(d as nat)]);
    r
}

/// Formats `n` in decimal, as `u64::to_string` does.
pub fn decimal_text(n: u64) -> (r: String)
    ensures
        r@ == decimal(n as nat),
    decreases n,
{
    if n < 10 {
        copy_text(digit_text(n))
    } else {
        let mut head = decimal_text(n / 10);
        head.append(digit_text(n % 10));
        assert(head@ =~= decimal((n / 10) as nat).push(digit_char((n % 10) as nat)));
        head
    }
}

/// `prefix` followed by `rest`.
pub fn concat(prefix: &str, rest: &str) -> (r: String)
    ensures
        r@ == prefix@ + rest@,
{
    let mut s = copy_text(prefix);
    s.append(rest);
    s
}

/// The pieces of `s` between occurrences of `sep`, as `str::split` gives them: there is always
/// at least one piece, possibly empty.
pub open spec fn split_text(s: Seq<char>, sep: char) -> Seq<Seq<char>>
    decreases s.len(),
{
    if s.len() == 0 {
        seq![Seq::empty()]
    } else {
        let prev = split_text(s.drop_last(), sep);
        if s.last() == sep {
            prev.push(Seq::empty())
        } else {
            prev.update(prev.len() - 1, prev.last().push(s.last()))
        }
    }
}

proof fn lemma_split_nonempty(s: Seq<char>, sep: char)
    ensures
        split_text(s, sep).len() >= 1,
    decreases s.len(),
{
    if s.len() > 0 {
        lemma_split_nonempty(s.drop_last(), sep);
    }
}

/// The texts of some strings.
pub open spec fn texts_of(v: Seq<String>) -> Seq<Seq<char>> {
    v.map_values(|s: String| s@)
}

/// Splits `s` at every `sep`, as `str::split` does.
pub fn split_char(s: &str, sep: char) -> (r: Vec<String>)
    ensures
        texts_of(r@) == split_text(s@, sep),
{
    let n = s.unicode_len();
    let mut out: Vec<String> = Vec::new();
    let mut cur = String::new();
    let mut i: usize = 0;
    proof {
        assert(s@.subrange(0, 0) =~= Seq::<char>::empty());
        assert(texts_of(out@).push(cur@) =~= seq![Seq::<char>::empty()]);
    }
    while i < n
        invariant
            i <= n,
            n == s@.len(),
            texts_of(out@).push(cur@) == split_text(s@.subrange(0, i as int), sep),
        decreases n - i,
    {
        let c = s.get_char(i);
        let ghost prefix = s@.subrange(0, i as int);
        let ghost before = texts_of(out@).push(cur@);
        proof {
            assert(s@.subrange(0, i + 1).drop_last() =~= prefix);
            assert(s@.subrange(0, i + 1).last() == c);
            lemma_split_nonempty(prefix, sep);
        }
        if c == sep {
            let done = cur;
            out.push(done);
            cur = String::new();
            assert(texts_of(out@).push(cur@) =~= before.push(Seq::empty()));
        } else {
            let piece = s.substring_char(i, i + 1);
            assert(piece@ =~= seq![c]);
            let ghost old_cur = cur@;
            assert(before.last() == old_cur);
            assert(texts_of(out@) =~= before.drop_last());
            cur.append(piece);
            assert(cur@ =~= old_cur.push(c));
            assert(texts_of(out@).push(cur@) =~= before.update(before.len() - 1, before.last().push(c)));
        }
        i = i + 1;
    }
    assert(s@.subrange(0, n as int) =~= s@);
    let ghost before = texts_of(out@).push(cur@);
    out.push(cur);
    assert(texts_of(out@) =~= before);
    out
}

/// A line without the carriage return that ended it, if any.
pub open spec fn strip_cr(l: Seq<char>) -> Seq<char> {
    if l.len() > 0 && l.last() == '\r' {
        l.drop_last()
    } else {
        l
    }
}

/// The lines of `s`, as `str::lines` gives them: split at each newline, a carriage return before
/// a newline dropped, and no empty last line after a final newline.
pub open spec fn text_lines(s: Seq<char>) -> Seq<Seq<char>> {
    let parts = split_text(s, '\n');
    let ended = parts.drop_last().map_values(|l: Seq<char>| strip_cr(l));
    if parts.last().len() == 0 {
        ended
    } else {
        ended.push(parts.last())
    }
}

/// The lines of `s`, as `str::lines` gives them.
pub fn lines(s: &str) -> (r: Vec<String>)
    ensures
        texts_of(r@) == text_lines(s@),
{
    let parts = split_char(s, '\n');
    proof {
        lemma_split_nonempty(s@, '\n');
    }
    let ghost ps = texts_of(parts@);
    let count = parts.len();
    let mut out: Vec<String> = Vec::new();
    let mut i: usize = 0;
    while i + 1 < count
        invariant
            count == parts@.len(),
            count >= 1,
            ps == texts_of(parts@),
            ps == split_text(s@, '\n'),
            i + 1 <= count,
            texts_of(out@) == ps.subrange(0, i as int).map_values(|l: Seq<char>| strip_cr(l)),
        decreases count - i,
    {
        let line = parts[i].as_str();
        let m = line.unicode_len();
        let kept = if m > 0 && line.get_char(m - 1) == '\r' {
            copy_text(line.substring_char(0, m - 1))
        } else {
            copy_text(line)
        };
        assert(kept@ =~= strip_cr(ps[i as int]));
        let ghost before = texts_of(out@);
        let ghost prior = out@;
        out.push(kept);
        proof {
            assert(out@ == prior.push(kept));
            assert(texts_of(out@) =~= before.push(kept@));
            assert(ps.subrange(0, i + 1) =~= ps.subrange(0, i as int).push(ps[i as int]));
            assert(ps.subrange(0, i + 1).map_values(|l: Seq<char>| strip_cr(l)) =~= ps.subrange(0, i as int).map_values(
                |l: Seq<char>| strip_cr(l),
            ).push(strip_cr(ps[i as int])));
        }
        i = i + 1;
    }
    assert(ps.subrange(0, i as int) =~= ps.drop_last());
    let last = parts[count - 1].as_str();
    if last.unicode_len() > 0 {
        let ghost before = texts_of(out@);
        out.push(copy_text(last));
        assert(texts_of(out@) =~= before.push(ps.last()));
    }
    out
}

/// Whether `s` begins with `p`, as `str::starts_with` tests.
pub fn starts_with_text(s: &str, p: &str) -> (r: bool)
    ensures
        r == (p@.len() <= s@.len() && s@.subrange(0, p@.len() as int) == p@),
{
    let n = s.unicode_len();
    let m = p.unicode_len();
    if m > n {
        return false;
    }
    str_eq(s.substring_char(0, m), p)
}

/// Characters with the Unicode `White_Space` property, which `char::is_whitespace` tests.
pub open spec fn is_white(c: char) -> bool {
    ('\u{9}' <= c && c <= '\u{d}') || c == ' ' || c == '\u{85}' || c == '\u{a0}' || c == '\u{1680}'
        || ('\u{2000}' <= c && c <= '\u{200a}') || c == '\u{2028}' || c == '\u{2029}' || c == '\u{202f}'
        || c == '\u{205f}' || c == '\u{3000}'
}

fn char_is_white(c: char) -> (r: bool)
    ensures
        r == is_white(c),
{
    ('\u{9}' <= c && c <= '\u{d}') || c == ' ' || c == '\u{85}' || c == '\u{a0}' || c == '\u{1680}'
        || ('\u{2000}' <= c && c <= '\u{200a}') || c == '\u{2028}' || c == '\u{2029}' || c == '\u{202f}'
        || c == '\u{205f}' || c == '\u{3000}'
}

/// `s` without leading and trailing white space, as `str::trim` gives it: the characters from
/// the first to the last that is not white space (nothing when all are).
pub open spec fn trimmed(s: Seq<char>) -> Seq<char> {
    if forall|i: int| 0 <= i < s.len() ==> is_white(#[trigger] s[i]) {
        Seq::empty()
    } else {
        let a = choose|a: int| 0 <= a < s.len() && !is_white(s[a]) && forall|j: int| 0 <= j < a ==> is_white(#[trigger] s[j]);
        let b = choose|b: int| 0 <= b < s.len() && !is_white(s[b]) && forall|j: int| b < j < s.len() ==> is_white(#[trigger] s[j]);
        s.subrange(a, b + 1)
    }
}

/// `s` without leading and trailing white space.
pub fn trim_text(s: &str) -> (r: String)
    ensures
        r@ == trimmed(s@),
{
    let n = s.unicode_len();
    let mut a: usize = 0;
    while a < n && char_is_white(s.get_char(a))
        invariant
            a <= n,
            n == s@.len(),
            forall|j: int| 0 <= j < a ==> is_white(#[trigger] s@[j]),
        decreases n - a,
    {
        a = a + 1;
    }
    if a == n {
        proof {
            reveal_strlit("");
        }
        return String::new();
    }
    let mut b: usize = n - 1;
    while b > a && char_is_white(s.get_char(b))
        invariant
            a <= b < n,
            n == s@.len(),
            !is_white(s@[a as int]),
            forall|j: int| b < j < n ==> is_white(#[trigger] s@[j]),
        decreases b - a,
    {
        b = b - 1;
    }
    proof {
        let ca = choose|x: int| 0 <= x < s@.len() && !is_white(s@[x]) && forall|j: int| 0 <= j < x ==> is_white(#[trigger] s@[j]);
        let cb = choose|x: int| 0 <= x < s@.len() && !is_white(s@[x]) && forall|j: int| x < j < s@.len() ==> is_white(#[trigger] s@[j]);
        assert(0 <= a < s@.len() && !is_white(s@[a as int]) && forall|j: int| 0 <= j < a ==> is_white(#[trigger] s@[j]));
        assert(!is_white(s@[b as int]));
        assert(ca == a) by {
            if ca < a { } else if ca > a { assert(is_white(s@[a as int])); }
        }
        assert(cb == b) by {
            if cb < b { assert(is_white(s@[b as int])); } else if cb > b { }
        }
    }
    copy_text(s.substring_char(a, b + 1))
}

/// How `Debug` shows a string (`format!("{:?}", s)`): in double quotes, with quotes, backslashes
/// and control characters escaped.
pub uninterp spec fn debug_text(s: Seq<char>) -> Seq<char>;

/// The `Debug` text of `s`, as error messages quote names.
#[verifier::external_body]
pub(crate) fn debug_quote(s: &str) -> (r: String)
    ensures
        r@ == debug_text(s@),
{
    format!("{:?}", s)
}

} // verus!
