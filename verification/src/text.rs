//! Character-level helpers on strings, each with its exact meaning over `Seq<char>`.
use vstd::prelude::*;

verus! {

/// Whether two strings hold the same characters.
pub fn str_eq(a: &str, b: &str) -> (r: bool)
    ensures
        r == (a@ == b@),
{
    let n = a.unicode_len();
    let m = b.unicode_len();
    if n != m {
        return false;
    }
    let mut i: usize = 0;
    while i < n
        invariant
            n == a@.len(),
            m == b@.len(),
            n == m,
            i <= n,
            forall|j: int| 0 <= j < i ==> a@[j] == b@[j],
        decreases n - i,
    {
        if a.get_char(i) != b.get_char(i) {
            return false;
        }
        i = i + 1;
    }
    assert(a@ =~= b@);
    true
}

/// A fresh `String` holding the characters of `s`.
pub fn owned(s: &str) -> (r: String)
    ensures
        r@ == s@,
{
    s.to_owned()
}

/// The concatenation of `a` and `b`.
pub fn cat(a: &str, b: &str) -> (r: String)
    ensures
        r@ == a@ + b@,
{
    let mut r = a.to_owned();
    r.append(b);
    r
}

/// The concatenation of `a`, `b` and `c`.
pub fn cat3(a: &str, b: &str, c: &str) -> (r: String)
    ensures
        r@ == a@ + b@ + c@,
{
    let mut r = a.to_owned();
    r.append(b);
    r.append(c);
    r
}

/// The concatenation of `a`, `b`, `c` and `d`.
pub fn cat4(a: &str, b: &str, c: &str, d: &str) -> (r: String)
    ensures
        r@ == a@ + b@ + c@ + d@,
{
    let mut r = a.to_owned();
    r.append(b);
    r.append(c);
    r.append(d);
    r
}

/// The concatenation of five strings.
pub fn cat5(a: &str, b: &str, c: &str, d: &str, e: &str) -> (r: String)
    ensures
        r@ == a@ + b@ + c@ + d@ + e@,
{
    let mut r = a.to_owned();
    r.append(b);
    r.append(c);
    r.append(d);
    r.append(e);
    r
}

/// Whether `c` occurs in `s`.
pub fn contains_char(s: &str, c: char) -> (r: bool)
    ensures
        r == s@.contains(c),
{
    let n = s.unicode_len();
    let mut i: usize = 0;
    while i < n
        invariant
            n == s@.len(),
            i <= n,
            forall|j: int| 0 <= j < i ==> s@[j] != c,
        decreases n - i,
    {
        if s.get_char(i) == c {
            assert(s@[i as int] == c);
            return true;
        }
        i = i + 1;
    }
    false
}

/// `t` occurs in `s` as a run of consecutive characters.
pub open spec fn has_infix(s: Seq<char>, t: Seq<char>) -> bool {
    exists|i: int| 0 <= i && i + t.len() <= s.len() && #[trigger] s.subrange(i, i + t.len()) == t
}

/// Whether `t` occurs in `s` as a run of consecutive characters.
pub fn contains_str(s: &str, t: &str) -> (r: bool)
    ensures
        r == has_infix(s@, t@),
{
    let n = s.unicode_len();
    let m = t.unicode_len();
    if m > n {
        return false;
    }
    let mut i: usize = 0;
    while i <= n - m
        invariant
            n == s@.len(),
            m == t@.len(),
            m <= n,
            i <= n - m + 1,
            forall|k: int| 0 <= k < i ==> #[trigger] s@.subrange(k, k + m) != t@,
        decreases n - i,
    {
        let mut j: usize = 0;
        let mut same = true;
        while j < m
            invariant
                n == s@.len(),
                m == t@.len(),
                i + m <= n,
                j <= m,
                same == (forall|l: int| 0 <= l < j ==> s@[i + l] == t@[l]),
            decreases m - j,
        {
            if s.get_char(i + j) != t.get_char(j) {
                same = false;
            }
            j = j + 1;
        }
        if same {
            assert(s@.subrange(i as int, i + m) =~= t@);
            return true;
        }
        assert(s@.subrange(i as int, i + m) != t@) by {
            let k = choose|l: int| 0 <= l < m && s@[i + l] != t@[l];
            assert(s@.subrange(i as int, i + m)[k] == s@[i + k]);
        }
        i = i + 1;
    }
    false
}

/// `p` is a prefix of `s`.
pub open spec fn has_prefix(s: Seq<char>, p: Seq<char>) -> bool {
    p.len() <= s.len() && s.subrange(0, p.len() as int) == p
}

/// `p` is a suffix of `s`.
pub open spec fn has_suffix(s: Seq<char>, p: Seq<char>) -> bool {
    p.len() <= s.len() && s.subrange(s.len() - p.len(), s.len() as int) == p
}

/// Whether `s` starts with `p`.
pub fn starts_with(s: &str, p: &str) -> (r: bool)
    ensures
        r == has_prefix(s@, p@),
{
    let n = s.unicode_len();
    let m = p.unicode_len();
    if m > n {
        return false;
    }
    let mut j: usize = 0;
    while j < m
        invariant
            n == s@.len(),
            m == p@.len(),
            m <= n,
            j <= m,
            forall|l: int| 0 <= l < j ==> s@[l] == p@[l],
        decreases m - j,
    {
        if s.get_char(j) != p.get_char(j) {
            assert(s@.subrange(0, m as int)[j as int] != p@[j as int]);
            return false;
        }
        j = j + 1;
    }
    assert(s@.subrange(0, m as int) =~= p@);
    true
}

/// Whether `s` ends with `p`.
pub fn ends_with(s: &str, p: &str) -> (r: bool)
    ensures
        r == has_suffix(s@, p@),
{
    let n = s.unicode_len();
    let m = p.unicode_len();
    if m > n {
        return false;
    }
    let d = n - m;
    let mut j: usize = 0;
    while j < m
        invariant
            n == s@.len(),
            m == p@.len(),
            m <= n,
            d == n - m,
            j <= m,
            forall|l: int| 0 <= l < j ==> s@[d + l] == p@[l],
        decreases m - j,
    {
        if s.get_char(d + j) != p.get_char(j) {
            assert(s@.subrange(d as int, n as int)[j as int] != p@[j as int]);
            return false;
        }
        j = j + 1;
    }
    assert(s@.subrange(d as int, n as int) =~= p@);
    true
}

/// The items of `list` with `sep` between each two neighbours.
pub open spec fn join_seq(list: Seq<Seq<char>>, sep: Seq<char>) -> Seq<char>
    decreases list.len(),
{
    if list.len() == 0 {
        Seq::empty()
    } else if list.len() == 1 {
        list[0]
    } else {
        join_seq(list.drop_last(), sep) + sep + list.last()
    }
}

/// The strings of `list` joined by `sep`.
pub fn join(list: &Vec<String>, sep: &str) -> (r: String)
    ensures
        r@ == join_seq(list.deep_view(), sep@),
{
    let mut r = String::new();
    let n = list.len();
    let mut i: usize = 0;
    while i < n
        invariant
            n == list.len(),
            i <= n,
            r@ == join_seq(list.deep_view().take(i as int), sep@),
        decreases n - i,
    {
        let ghost before = list.deep_view().take(i as int);
        if i != 0 {
            r.append(sep);
        }
        r.append(list[i].as_str());
        assert(list.deep_view().take(i + 1).drop_last() =~= before);
        i = i + 1;
    }
    assert(list.deep_view().take(n as int) =~= list.deep_view());
    r
}

/// The character for a decimal digit.
pub open spec fn digit_char(d: nat) -> char {
    if d == 0 {
        '0'
    } else if d == 1 {
        '1'
    } else if d == 2 {
        '2'
    } else if d == 3 {
        '3'
    } else if d == 4 {
        '4'
    } else if d == 5 {
        '5'
    } else if d == 6 {
        '6'
    } else if d == 7 {
        '7'
    } else if d == 8 {
        '8'
    } else {
        '9'
    }
}

/// The decimal notation of `n`, without sign or leading zeros.
pub open spec fn decimal(n: nat) -> Seq<char>
    decreases n,
{
    if n < 10 {
        seq![digit_char(n)]
    } else {
        decimal(n / 10).push(digit_char(n % 10))
    }
}

fn digit_text(d: usize) -> (r: &'static str)
    requires
        d < 10,
    ensures
        r@ == seq![digit_char(d as nat)],
{
    if d == 0 {
        proof { reveal_strlit("0"); }
        "0"
    } else if d == 1 {
        proof { reveal_strlit("1"); }
        "1"
    } else if d == 2 {
        proof { reveal_strlit("2"); }
        "2"
    } else if d == 3 {
        proof { reveal_strlit("3"); }
        "3"
    } else if d == 4 {
        proof { reveal_strlit("4"); }
        "4"
    } else if d == 5 {
        proof { reveal_strlit("5"); }
        "5"
    } else if d == 6 {
        proof { reveal_strlit("6"); }
        "6"
    } else if d == 7 {
        proof { reveal_strlit("7"); }
        "7"
    } else if d == 8 {
        proof { reveal_strlit("8"); }
        "8"
    } else {
        proof { reveal_strlit("9"); }
        "9"
    }
}

/// The decimal notation of `n`, as `to_string` writes it.
pub fn usize_to_text(n: usize) -> (r: String)
    ensures
        r@ == decimal(n as nat),
    decreases n,
{
    if n < 10 {
        owned(digit_text(n))
    } else {
        let mut r = usize_to_text(n / 10);
        r.append(digit_text(n % 10));
        r
    }
}

/// The characters that `char::is_whitespace` accepts: those with the Unicode
/// `White_Space` property.
pub open spec fn is_white_space(c: char) -> bool {
    ||| c == '\t'
    ||| c == '\n'
    ||| c == '\u{0B}'
    ||| c == '\u{0C}'
    ||| c == '\r'
    ||| c == ' '
    ||| c == '\u{85}'
    ||| c == '\u{A0}'
    ||| c == '\u{1680}'
    ||| ('\u{2000}' <= c && c <= '\u{200A}')
    ||| c == '\u{2028}'
    ||| c == '\u{2029}'
    ||| c == '\u{202F}'
    ||| c == '\u{205F}'
    ||| c == '\u{3000}'
}

/// Whether `c` is white space in the sense of `char::is_whitespace`.
pub fn white_space(c: char) -> (r: bool)
    ensures
        r == is_white_space(c),
{
    c == '\t' || c == '\n' || c == '\u{0B}' || c == '\u{0C}' || c == '\r' || c == ' ' || c
        == '\u{85}' || c == '\u{A0}' || c == '\u{1680}' || ('\u{2000}' <= c && c <= '\u{200A}')
        || c == '\u{2028}' || c == '\u{2029}' || c == '\u{202F}' || c == '\u{205F}' || c
        == '\u{3000}'
}

/// `s` without its leading white space.
pub open spec fn trim_start(s: Seq<char>) -> Seq<char>
    decreases s.len(),
{
    if s.len() > 0 && is_white_space(s[0]) {
        trim_start(s.drop_first())
    } else {
        s
    }
}

/// `s` without its trailing white space.
pub open spec fn trim_end(s: Seq<char>) -> Seq<char>
    decreases s.len(),
{
    if s.len() > 0 && is_white_space(s.last()) {
        trim_end(s.drop_last())
    } else {
        s
    }
}

/// `s` without leading and trailing white space, as `str::trim` gives it.
pub open spec fn trim(s: Seq<char>) -> Seq<char> {
    trim_end(trim_start(s))
}

proof fn lemma_trim_start_skip(s: Seq<char>, i: int)
    requires
        0 <= i <= s.len(),
        forall|j: int| 0 <= j < i ==> is_white_space(#[trigger] s[j]),
    ensures
        trim_start(s) == trim_start(s.subrange(i, s.len() as int)),
    decreases i,
{
    if i > 0 {
        assert(s.drop_first().subrange(i - 1, s.drop_first().len() as int) =~= s.subrange(
            i,
            s.len() as int,
        ));
        assert(is_white_space(s[0]));
        lemma_trim_start_skip(s.drop_first(), i - 1);
    } else {
        assert(s.subrange(0, s.len() as int) =~= s);
    }
}

proof fn lemma_trim_end_skip(s: Seq<char>, e: int)
    requires
        0 <= e <= s.len(),
        forall|j: int| e <= j < s.len() ==> is_white_space(#[trigger] s[j]),
    ensures
        trim_end(s) == trim_end(s.subrange(0, e)),
    decreases s.len() - e,
{
    if e < s.len() {
        assert(s.drop_last().subrange(0, e) =~= s.subrange(0, e));
        assert(is_white_space(s.last()));
        lemma_trim_end_skip(s.drop_last(), e);
    } else {
        assert(s.subrange(0, e) =~= s);
    }
}

/// `s` without leading and trailing white space.
pub fn trim_text(s: &str) -> (r: String)
    ensures
        r@ == trim(s@),
{
    let n = s.unicode_len();
    let mut i: usize = 0;
    while i < n && white_space(s.get_char(i))
        invariant
            n == s@.len(),
            i <= n,
            forall|j: int| 0 <= j < i ==> is_white_space(#[trigger] s@[j]),
        decreases n - i,
    {
        i = i + 1;
    }
    proof {
        lemma_trim_start_skip(s@, i as int);
    }
    let ghost rest = s@.subrange(i as int, n as int);
    let mut e: usize = n;
    while e > i && white_space(s.get_char(e - 1))
        invariant
            n == s@.len(),
            i <= e <= n,
            rest == s@.subrange(i as int, n as int),
            forall|j: int| e <= j < n ==> is_white_space(#[trigger] s@[j]),
        decreases e,
    {
        e = e - 1;
    }
    proof {
        assert forall|j: int| e - i <= j < rest.len() implies is_white_space(#[trigger] rest[j]) by {
            assert(rest[j] == s@[i + j]);
        }
        lemma_trim_end_skip(rest, e - i);
        assert(rest.subrange(0, e - i) =~= s@.subrange(i as int, e as int));
        if i < e {
            assert(!is_white_space(s@[i as int]));
            assert(trim_start(rest) == rest);
        } else {
            assert(rest.subrange(0, 0) =~= Seq::<char>::empty());
            assert(trim_start(rest) == trim_start(rest));
            lemma_trim_start_of_white(rest);
        }
    }
    owned(s.substring_char(i, e))
}

proof fn lemma_trim_start_of_white(s: Seq<char>)
    requires
        forall|j: int| 0 <= j < s.len() ==> is_white_space(#[trigger] s[j]),
    ensures
        trim_start(s) == Seq::<char>::empty(),
    decreases s.len(),
{
    if s.len() > 0 {
        assert forall|j: int| 0 <= j < s.drop_first().len() implies is_white_space(
            #[trigger] s.drop_first()[j],
        ) by {
            assert(s.drop_first()[j] == s[j + 1]);
        }
        lemma_trim_start_of_white(s.drop_first());
    } else {
        assert(s =~= Seq::<char>::empty());
    }
}

/// `s` with every `from` replaced by the characters of `to`.
pub open spec fn replace_char(s: Seq<char>, from: char, to: Seq<char>) -> Seq<char>
    decreases s.len(),
{
    if s.len() == 0 {
        Seq::empty()
    } else {
        replace_char(s.drop_last(), from, to) + (if s.last() == from {
            to
        } else {
            seq![s.last()]
        })
    }
}

/// `s` with every space replaced by an underscore, as `replace(' ', "_")` gives it.
pub fn spaces_to_underscores(s: &str) -> (r: String)
    ensures
        r@ == replace_char(s@, ' ', "_"@),
{
    let n = s.unicode_len();
    let mut r = String::new();
    let mut i: usize = 0;
    while i < n
        invariant
            n == s@.len(),
            i <= n,
            r@ == replace_char(s@.take(i as int), ' ', "_"@),
        decreases n - i,
    {
        let c = s.get_char(i);
        let ghost before = s@.take(i as int);
        assert(s@.take(i + 1).drop_last() =~= before);
        if c == ' ' {
            r.append("_");
        } else {
            let piece = s.substring_char(i, i + 1);
            assert(piece@ =~= seq![c]);
            r.append(piece);
        }
        i = i + 1;
    }
    assert(s@.take(n as int) =~= s@);
    r
}

/// Whether `c` is one of the ASCII digits.
pub open spec fn is_digit(c: char) -> bool {
    '0' <= c && c <= '9'
}

/// The value of a run of ASCII digits.
pub open spec fn digits_value(s: Seq<char>) -> nat
    decreases s.len(),
{
    if s.len() == 0 {
        0
    } else {
        digits_value(s.drop_last()) * 10 + ((s.last() as int - '0' as int) as nat)
    }
}

/// The digits that `usize::from_str` reads: all of `s`, or all of it after one leading `+`.
pub open spec fn unsigned_digits(s: Seq<char>) -> Seq<char> {
    if s.len() > 0 && s[0] == '+' {
        s.drop_first()
    } else {
        s
    }
}

/// What `str::parse::<usize>` gives for `s`: the value of its digits, where they are
/// at least one, all ASCII digits, and their value fits in a `usize`.
pub open spec fn parse_usize_spec(s: Seq<char>) -> Option<usize> {
    let d = unsigned_digits(s);
    if d.len() > 0 && (forall|i: int| 0 <= i < d.len() ==> is_digit(#[trigger] d[i]))
        && digits_value(d) <= usize::MAX {
        Some(digits_value(d) as usize)
    } else {
        None
    }
}

proof fn lemma_digits_value_monotone(s: Seq<char>, k: int)
    requires
        0 <= k <= s.len(),
        forall|i: int| 0 <= i < s.len() ==> is_digit(#[trigger] s[i]),
    ensures
        digits_value(s.take(k)) <= digits_value(s),
    decreases s.len() - k,
{
    if k < s.len() {
        lemma_digits_value_monotone(s, k + 1);
        assert(s.take(k + 1).drop_last() =~= s.take(k));
        assert(is_digit(s.take(k + 1).last()));
    } else {
        assert(s.take(k) =~= s);
    }
}

/// `s` read as an unsigned decimal number, as `str::parse::<usize>` reads it.
pub fn parse_usize(s: &str) -> (r: Option<usize>)
    ensures
        r == parse_usize_spec(s@),
{
    let n = s.unicode_len();
    let mut start: usize = 0;
    if n > 0 && s.get_char(0) == '+' {
        start = 1;
    }
    let ghost d = unsigned_digits(s@);
    assert(d =~= s@.subrange(start as int, n as int));
    if start >= n {
        return None;
    }
    let mut value: usize = 0;
    let mut i: usize = start;
    while i < n
        invariant
            n == s@.len(),
            start <= i <= n,
            start < n,
            d == s@.subrange(start as int, n as int),
            d == unsigned_digits(s@),
            forall|j: int| start <= j < i ==> is_digit(#[trigger] s@[j]),
            value == digits_value(d.take(i - start)),
        decreases n - i,
    {
        let c = s.get_char(i);
        if !('0' <= c && c <= '9') {
            assert(d[i - start] == s@[i as int]);
            assert(!is_digit(d[i - start]));
            return None;
        }
        let digit = (c as u32 - '0' as u32) as usize;
        assert(d.take(i + 1 - start).drop_last() =~= d.take(i - start));
        assert(d.take(i + 1 - start).last() == c);
        assert(digits_value(d.take(i + 1 - start)) == value * 10 + digit);
        if value > (usize::MAX - digit) / 10 {
            proof {
                assert(value * 10 + digit > usize::MAX) by (nonlinear_arith)
                    requires
                        value > (usize::MAX - digit) / 10,
                        digit <= 9,
                ;
                assert forall|j: int| 0 <= j < i + 1 - start implies is_digit(
                    #[trigger] d.take(i + 1 - start)[j],
                ) by {
                    assert(d.take(i + 1 - start)[j] == s@[start + j]);
                }
                if forall|j: int| 0 <= j < d.len() ==> is_digit(#[trigger] d[j]) {
                    lemma_digits_value_monotone(d, i + 1 - start);
                }
            }
            return None;
        }
        value = value * 10 + digit;
        i = i + 1;
    }
    assert(d.take(n - start) =~= d);
    Some(value)
}

/// Whether `c` may stand in the digits-and-point part of a decimal number.
pub open spec fn is_mantissa_char(c: char) -> bool {
    is_digit(c) || c == '.'
}

/// Whether every character of `s` is an ASCII digit.
pub open spec fn all_digits(s: Seq<char>) -> bool {
    forall|i: int| 0 <= i < s.len() ==> is_digit(#[trigger] s[i])
}

/// Whether `s` is `lower` or `upper` letter by letter, as in a word whose case is
/// ignored (`upper` being `lower` in capitals).
pub open spec fn word_ignoring_case(s: Seq<char>, lower: Seq<char>, upper: Seq<char>) -> bool {
    &&& s.len() == lower.len()
    &&& forall|i: int| 0 <= i < s.len() ==> #[trigger] s[i] == lower[i] || s[i] == upper[i]
}

/// `s` without one leading sign.
pub open spec fn unsigned_part(s: Seq<char>) -> Seq<char> {
    if s.len() > 0 && (s[0] == '+' || s[0] == '-') {
        s.drop_first()
    } else {
        s
    }
}

/// The special values that `f64::from_str` reads, whatever the case of their letters:
/// `inf`, `infinity` and `nan`.
pub open spec fn is_special_float(b: Seq<char>) -> bool {
    ||| word_ignoring_case(b, "inf"@, "INF"@)
    ||| word_ignoring_case(b, "infinity"@, "INFINITY"@)
    ||| word_ignoring_case(b, "nan"@, "NAN"@)
}

/// Whether the digits and point of a number end at `k` in `b`: all before are digits or
/// points, and the character at `k`, if any, is not.
pub open spec fn mantissa_end(b: Seq<char>, k: int) -> bool {
    &&& 0 <= k <= b.len()
    &&& forall|j: int| 0 <= j < k ==> is_mantissa_char(#[trigger] b[j])
    &&& (k == b.len() || !is_mantissa_char(b[k]))
}

/// Digits with at most one point, and at least one digit.
pub open spec fn mantissa_ok(m: Seq<char>) -> bool {
    &&& m.len() > 0
    &&& forall|j: int| 0 <= j < m.len() ==> is_mantissa_char(#[trigger] m[j])
    &&& forall|i: int, j: int| 0 <= i < j < m.len() ==> !(#[trigger] m[i] == '.' && #[trigger] m[j] == '.')
    &&& !(m.len() == 1 && m[0] == '.')
}

/// An exponent after its `e`: an optional sign and at least one digit.
pub open spec fn exponent_ok(x: Seq<char>) -> bool {
    let d = unsigned_part(x);
    d.len() > 0 && all_digits(d)
}

/// Whether `b` is a number whose digits and point end at `k`: the digits and point make
/// a mantissa, and what follows, if anything, is `e` or `E` and an exponent.
pub open spec fn number_at(b: Seq<char>, k: int) -> bool {
    &&& mantissa_ok(b.take(k))
    &&& (k == b.len() || ((b[k] == 'e' || b[k] == 'E') && exponent_ok(b.skip(k + 1))))
}

/// Whether `b` is a number: `Digit+`, `Digit+ . Digit*` or `Digit* . Digit+`, then an
/// optional exponent.
pub open spec fn is_float_number(b: Seq<char>) -> bool {
    forall|k: int| mantissa_end(b, k) ==> number_at(b, k)
}

/// Whether `str::parse::<f64>` reads `s`: an optional sign, then a special value or a
/// number, as its documentation gives the grammar.
pub open spec fn is_float_text(s: Seq<char>) -> bool {
    let b = unsigned_part(s);
    is_special_float(b) || is_float_number(b)
}

proof fn lemma_mantissa_end_unique(b: Seq<char>, k1: int, k2: int)
    requires
        mantissa_end(b, k1),
        mantissa_end(b, k2),
    ensures
        k1 == k2,
{
    if k1 < k2 {
        assert(is_mantissa_char(b[k1]));
    } else if k2 < k1 {
        assert(is_mantissa_char(b[k2]));
    }
}

fn word_ignoring_case_text(s: &str, lower: &str, upper: &str) -> (r: bool)
    requires
        lower@.len() == upper@.len(),
    ensures
        r == word_ignoring_case(s@, lower@, upper@),
{
    let n = s.unicode_len();
    if n != lower.unicode_len() {
        return false;
    }
    let mut i: usize = 0;
    while i < n
        invariant
            n == s@.len(),
            n == lower@.len(),
            lower@.len() == upper@.len(),
            i <= n,
            forall|j: int| 0 <= j < i ==> #[trigger] s@[j] == lower@[j] || s@[j] == upper@[j],
        decreases n - i,
    {
        let c = s.get_char(i);
        if c != lower.get_char(i) && c != upper.get_char(i) {
            return false;
        }
        i = i + 1;
    }
    true
}

fn all_digits_text(s: &str) -> (r: bool)
    ensures
        r == all_digits(s@),
{
    let n = s.unicode_len();
    let mut i: usize = 0;
    while i < n
        invariant
            n == s@.len(),
            i <= n,
            forall|j: int| 0 <= j < i ==> is_digit(#[trigger] s@[j]),
        decreases n - i,
    {
        let c = s.get_char(i);
        if !('0' <= c && c <= '9') {
            return false;
        }
        i = i + 1;
    }
    true
}

fn exponent_ok_text(x: &str) -> (r: bool)
    ensures
        r == exponent_ok(x@),
{
    let n = x.unicode_len();
    let mut start: usize = 0;
    if n > 0 {
        let c = x.get_char(0);
        if c == '+' || c == '-' {
            start = 1;
        }
    }
    let d = x.substring_char(start, n);
    assert(d@ =~= unsigned_part(x@));
    d.unicode_len() > 0 && all_digits_text(d)
}

fn mantissa_ok_text(m: &str) -> (r: bool)
    requires
        forall|j: int| 0 <= j < m@.len() ==> is_mantissa_char(#[trigger] m@[j]),
    ensures
        r == mantissa_ok(m@),
{
    let n = m.unicode_len();
    if n == 0 {
        return false;
    }
    let mut dot: Option<usize> = None;
    let mut i: usize = 0;
    while i < n
        invariant
            n == m@.len(),
            i <= n,
            match dot {
                None => forall|j: int| 0 <= j < i ==> #[trigger] m@[j] != '.',
                Some(d) => d < i && m@[d as int] == '.' && forall|j: int|
                    0 <= j < i && j != d ==> #[trigger] m@[j] != '.',
            },
        decreases n - i,
    {
        if m.get_char(i) == '.' {
            if let Some(d) = dot {
                assert(m@[d as int] == '.' && m@[i as int] == '.');
                return false;
            }
            dot = Some(i);
        }
        i = i + 1;
    }
    !(n == 1 && m.get_char(0) == '.')
}

/// Whether `b` is a number: the body of a decimal number without its sign.
fn float_number_text(b: &str) -> (r: bool)
    ensures
        r == is_float_number(b@),
{
    let n = b.unicode_len();
    let mut k: usize = 0;
    while k < n && (('0' <= b.get_char(k) && b.get_char(k) <= '9') || b.get_char(k) == '.')
        invariant
            n == b@.len(),
            k <= n,
            forall|j: int| 0 <= j < k ==> is_mantissa_char(#[trigger] b@[j]),
        decreases n - k,
    {
        k = k + 1;
    }
    assert(mantissa_end(b@, k as int));
    assert forall|k2: int| mantissa_end(b@, k2) implies k2 == k by {
        lemma_mantissa_end_unique(b@, k as int, k2);
    }
    let m = b.substring_char(0, k);
    assert(m@ =~= b@.take(k as int));
    let ok = if !mantissa_ok_text(m) {
        false
    } else if k == n {
        true
    } else {
        let c = b.get_char(k);
        if c != 'e' && c != 'E' {
            false
        } else {
            let x = b.substring_char(k + 1, n);
            assert(x@ =~= b@.skip(k + 1));
            exponent_ok_text(x)
        }
    };
    assert(ok == number_at(b@, k as int));
    ok
}

/// Whether `str::parse::<f64>` reads `s`, by the grammar of its documentation.
pub fn reads_as_float(s: &str) -> (r: bool)
    ensures
        r == is_float_text(s@),
{
    let n = s.unicode_len();
    let mut start: usize = 0;
    if n > 0 {
        let c = s.get_char(0);
        if c == '+' || c == '-' {
            start = 1;
        }
    }
    let b = s.substring_char(start, n);
    assert(b@ =~= unsigned_part(s@));
    proof {
        reveal_strlit("inf");
        reveal_strlit("INF");
        reveal_strlit("infinity");
        reveal_strlit("INFINITY");
        reveal_strlit("nan");
        reveal_strlit("NAN");
    }
    if word_ignoring_case_text(b, "inf", "INF") || word_ignoring_case_text(b, "infinity", "INFINITY")
        || word_ignoring_case_text(b, "nan", "NAN") {
        return true;
    }
    float_number_text(b)
}



/// The characters of an optional string.
pub open spec fn opt_view(o: Option<String>) -> Option<Seq<char>> {
    match o {
        Some(s) => Some(s@),
        None => None,
    }
}

/// The value of an optional string, or `default` where there is none.
pub open spec fn or_else(o: Option<Seq<char>>, default: Seq<char>) -> Seq<char> {
    match o {
        Some(v) => v,
        None => default,
    }
}

/// The value of `o`, or `default` where there is none.
pub fn or_text(o: &Option<String>, default: &str) -> (r: String)
    ensures
        r@ == or_else(opt_view(*o), default@),
{
    match o {
        Some(s) => s.clone(),
        None => default.to_owned(),
    }
}

/// A list of one string.
pub fn list1(a: String) -> (v: Vec<String>)
    ensures
        v.deep_view() == seq![a@],
{
    let v = vec![a];
    assert(v.deep_view() =~= seq![a@]);
    v
}

/// A list of two strings.
pub fn list2(a: String, b: String) -> (v: Vec<String>)
    ensures
        v.deep_view() == seq![a@, b@],
{
    let v = vec![a, b];
    assert(v.deep_view() =~= seq![a@, b@]);
    v
}

/// A list of three strings.
pub fn list3(a: String, b: String, c: String) -> (v: Vec<String>)
    ensures
        v.deep_view() == seq![a@, b@, c@],
{
    let v = vec![a, b, c];
    assert(v.deep_view() =~= seq![a@, b@, c@]);
    v
}

/// A list of four strings.
pub fn list4(a: String, b: String, c: String, d: String) -> (v: Vec<String>)
    ensures
        v.deep_view() == seq![a@, b@, c@, d@],
{
    let v = vec![a, b, c, d];
    assert(v.deep_view() =~= seq![a@, b@, c@, d@]);
    v
}

/// The strings of `v`, each copied, in order: `v` with `extra` after them.
pub fn push_all(v: &mut Vec<String>, extra: &Vec<String>)
    ensures
        final(v).deep_view() == old(v).deep_view() + extra.deep_view(),
{
    let n = extra.len();
    let mut i: usize = 0;
    let ghost start = v.deep_view();
    while i < n
        invariant
            n == extra.len(),
            i <= n,
            v.deep_view() == start + extra.deep_view().take(i as int),
        decreases n - i,
    {
        let ghost prev = v.deep_view();
        let item = extra[i].clone();
        v.push(item);
        assert(v.deep_view() =~= prev.push(extra[i as int]@));
        assert(extra.deep_view().take(i + 1) =~= extra.deep_view().take(i as int).push(
            extra[i as int]@,
        ));
        assert(v.deep_view() =~= start + extra.deep_view().take(i + 1));
        i = i + 1;
    }
    assert(extra.deep_view().take(n as int) =~= extra.deep_view());
}


/// The flag and its value where there is a value, else nothing.
pub open spec fn opt_pair(flag: Seq<char>, o: Option<Seq<char>>) -> Seq<Seq<char>> {
    match o {
        Some(v) => seq![flag, v],
        None => Seq::empty(),
    }
}

/// The value where there is one, else nothing.
pub open spec fn opt_one(o: Option<Seq<char>>) -> Seq<Seq<char>> {
    match o {
        Some(v) => seq![v],
        None => Seq::empty(),
    }
}

/// Appends one string.
pub fn push_text(v: &mut Vec<String>, s: String)
    ensures
        final(v).deep_view() == old(v).deep_view().push(s@),
{
    let ghost prev = v.deep_view();
    let ghost sv = s@;
    v.push(s);
    assert(v.deep_view() =~= prev.push(sv));
}

/// Appends `flag` and the value, where there is a value.
pub fn push_opt_pair(v: &mut Vec<String>, flag: &str, o: &Option<String>)
    ensures
        final(v).deep_view() == old(v).deep_view() + opt_pair(flag@, opt_view(*o)),
{
    let ghost prev = v.deep_view();
    if let Some(x) = o {
        push_text(v, flag.to_owned());
        push_text(v, x.clone());
        assert(v.deep_view() =~= prev + opt_pair(flag@, opt_view(*o)));
    } else {
        assert(v.deep_view() =~= prev + opt_pair(flag@, opt_view(*o)));
    }
}

/// Appends the value, where there is one.
pub fn push_opt(v: &mut Vec<String>, o: &Option<String>)
    ensures
        final(v).deep_view() == old(v).deep_view() + opt_one(opt_view(*o)),
{
    let ghost prev = v.deep_view();
    if let Some(x) = o {
        push_text(v, x.clone());
        assert(v.deep_view() =~= prev + opt_one(opt_view(*o)));
    } else {
        assert(v.deep_view() =~= prev + opt_one(opt_view(*o)));
    }
}


/// `flag` where `on` holds, else nothing.
pub open spec fn flag_if(on: bool, flag: Seq<char>) -> Seq<Seq<char>> {
    if on {
        seq![flag]
    } else {
        Seq::empty()
    }
}

/// Appends `flag` where `on` holds.
pub fn push_flag_if(v: &mut Vec<String>, on: bool, flag: &str)
    ensures
        final(v).deep_view() == old(v).deep_view() + flag_if(on, flag@),
{
    let ghost prev = v.deep_view();
    if on {
        push_text(v, flag.to_owned());
    }
    assert(v.deep_view() =~= prev + flag_if(on, flag@));
}

/// An empty list of strings.
pub fn no_args() -> (v: Vec<String>)
    ensures
        v.deep_view() == Seq::<Seq<char>>::empty(),
{
    let v: Vec<String> = Vec::new();
    assert(v.deep_view() =~= Seq::<Seq<char>>::empty());
    v
}

} // verus!
