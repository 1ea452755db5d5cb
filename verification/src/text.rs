//! Character-level string helpers shared by the rest of the library.
//!
//! Strings are specified through their `Seq<char>` views. The two Unicode-aware
//! operations of std that the library relies on (`str::trim` and
//! `str::to_lowercase`) are called, never rebuilt: their results are named by
//! `trimmed` and `lowercased`.

use vstd::prelude::*;

verus! {

/// `char::is_whitespace`: the characters with the Unicode `White_Space`
/// property.
pub open spec fn is_white_space(c: char) -> bool {
    ||| ('\u{9}' <= c && c <= '\u{d}')
    ||| c == ' '
    ||| c == '\u{85}'
    ||| c == '\u{a0}'
    ||| c == '\u{1680}'
    ||| ('\u{2000}' <= c && c <= '\u{200a}')
    ||| c == '\u{2028}'
    ||| c == '\u{2029}'
    ||| c == '\u{202f}'
    ||| c == '\u{205f}'
    ||| c == '\u{3000}'
}

/// Whether `c` is whitespace (`char::is_whitespace`).
pub fn white_space(c: char) -> (r: bool)
    ensures
        r == is_white_space(c),
{
    ('\u{9}' <= c && c <= '\u{d}') || c == ' ' || c == '\u{85}' || c == '\u{a0}' || c
        == '\u{1680}' || ('\u{2000}' <= c && c <= '\u{200a}') || c == '\u{2028}' || c
        == '\u{2029}' || c == '\u{202f}' || c == '\u{205f}' || c == '\u{3000}'
}

/// `s` without its leading whitespace.
pub open spec fn trim_start_ws(s: Seq<char>) -> Seq<char>
    decreases s.len(),
{
    if s.len() > 0 && is_white_space(s[0]) {
        trim_start_ws(s.drop_first())
    } else {
        s
    }
}

/// `s` without its trailing whitespace.
pub open spec fn trim_end_ws(s: Seq<char>) -> Seq<char>
    decreases s.len(),
{
    if s.len() > 0 && is_white_space(s.last()) {
        trim_end_ws(s.drop_last())
    } else {
        s
    }
}

/// `s` with leading and trailing whitespace removed (as `str::trim` does).
pub open spec fn trimmed(s: Seq<char>) -> Seq<char> {
    trim_end_ws(trim_start_ws(s))
}

/// A string without whitespace at either end is its own trim.
pub proof fn lemma_trim_untouched(s: Seq<char>)
    requires
        s.len() > 0 ==> !is_white_space(s[0]) && !is_white_space(s.last()),
    ensures
        trimmed(s) == s,
{
}

/// `s.trim()`.
pub fn trim_str(s: &str) -> (r: &str)
    ensures
        r@ == trimmed(s@),
{
    let cs = chars_of(s);
    let n = cs.len();
    let mut i: usize = 0;
    assert(s@.skip(0) =~= s@);
    while i < n && white_space(cs[i])
        invariant
            cs@ == s@,
            n == cs@.len(),
            i <= n,
            trim_start_ws(s@) == trim_start_ws(s@.skip(i as int)),
        decreases n - i,
    {
        assert(s@.skip(i as int).drop_first() =~= s@.skip(i + 1));
        i = i + 1;
    }
    let ghost start = s@.skip(i as int);
    assert(trim_start_ws(start) == start);
    let mut j: usize = n;
    assert(s@.subrange(i as int, n as int) =~= start);
    while j > i && white_space(cs[j - 1])
        invariant
            cs@ == s@,
            n == cs@.len(),
            i <= j <= n,
            trimmed(s@) == trim_end_ws(s@.subrange(i as int, j as int)),
        decreases j,
    {
        assert(s@.subrange(i as int, j as int).drop_last() =~= s@.subrange(i as int, j - 1));
        j = j - 1;
    }
    s.substring_char(i, j)
}

/// What `str::to_lowercase` returns for a string.
pub uninterp spec fn lowercased(s: Seq<char>) -> Seq<char>;

/// An ASCII capital letter.
pub open spec fn is_ascii_upper(c: char) -> bool {
    'A' <= c && c <= 'Z'
}

/// The lowercase of an ASCII character: capitals become small letters,
/// everything else stays.
pub open spec fn ascii_lower(c: char) -> char {
    if is_ascii_upper(c) {
        ((c as int) + 32) as char
    } else {
        c
    }
}

/// All characters of `s` are ASCII.
pub open spec fn all_ascii(s: Seq<char>) -> bool {
    forall|i: int| 0 <= i < s.len() ==> (#[trigger] s[i] as int) < 128
}

/// No ASCII capital letter occurs in `s`.
pub open spec fn no_ascii_upper(s: Seq<char>) -> bool {
    forall|i: int| 0 <= i < s.len() ==> !is_ascii_upper(#[trigger] s[i])
}

/// Calls `str::to_lowercase`. The result is named (`lowercased`); of the
/// Unicode case mapping the contract states one fact: no ASCII capital is
/// left in the result (every capital `A`-`Z` has a small letter as its
/// lowercase, and no character lowercases to a capital). Which characters
/// map to what is left unsaid.
#[verifier::external_body]
pub(crate) fn lowercase(s: &str) -> (r: String)
    ensures
        r@ == lowercased(s@),
        no_ascii_upper(r@),
{
    s.to_lowercase()
}

/// The lowercase of a string: ASCII lowercasing for an all-ASCII string
/// (where `str::to_lowercase` does just that), `str::to_lowercase` otherwise.
pub open spec fn lower_text(s: Seq<char>) -> Seq<char> {
    if all_ascii(s) {
        s.map_values(|c: char| ascii_lower(c))
    } else {
        lowercased(s)
    }
}

fn ascii_lower_char(c: char) -> (r: char)
    requires
        (c as int) < 128,
    ensures
        r == ascii_lower(c),
{
    if 'A' <= c && c <= 'Z' {
        let code = c as u32 + 32;
        let b = code as u8;
        b as char
    } else {
        c
    }
}

/// `s.to_lowercase()`.
pub fn to_lower(s: &str) -> (r: String)
    ensures
        r@ == lower_text(s@),
        no_ascii_upper(r@),
{
    let cs = chars_of(s);
    let mut k: usize = 0;
    while k < cs.len()
        invariant
            cs@ == s@,
            k <= cs.len(),
            forall|j: int| 0 <= j < k ==> (#[trigger] cs@[j] as int) < 128,
        decreases cs.len() - k,
    {
        if cs[k] >= '\u{80}' {
            assert(!((s@[k as int] as int) < 128));
            return lowercase(s);
        }
        k = k + 1;
    }
    let mut out = String::new();
    let mut i: usize = 0;
    while i < cs.len()
        invariant
            cs@ == s@,
            all_ascii(s@),
            i <= cs.len(),
            out@ == s@.subrange(0, i as int).map_values(|c: char| ascii_lower(c)),
        decreases cs.len() - i,
    {
        let ghost before = out@;
        push_char(&mut out, ascii_lower_char(cs[i]));
        assert(s@.subrange(0, i + 1) =~= s@.subrange(0, i as int).push(s@[i as int]));
        assert(out@ =~= s@.subrange(0, i + 1).map_values(|c: char| ascii_lower(c)));
        i = i + 1;
    }
    assert(s@.subrange(0, i as int) =~= s@);
    out
}

/// Appends one character to a string.
///
/// Calls `String::push`, which appends the given `char` to the end of the
/// string; the contract states exactly that.
#[verifier::external_body]
pub(crate) fn push_char(s: &mut String, c: char)
    ensures
        final(s)@ == old(s)@.push(c),
{
    s.push(c)
}

/// A string is blank when trimming leaves nothing.
pub open spec fn blank(s: Seq<char>) -> bool {
    trimmed(s).len() == 0
}

/// `s.trim().is_empty()`.
pub fn is_blank(s: &str) -> (r: bool)
    ensures
        r == blank(s@),
{
    trim_str(s).is_empty()
}

/// The characters of `s`, in order.
pub fn chars_of(s: &str) -> (r: Vec<char>)
    ensures
        r@ == s@,
{
    let n = s.unicode_len();
    let mut r: Vec<char> = Vec::new();
    let mut i: usize = 0;
    while i < n
        invariant
            n == s@.len(),
            i <= n,
            r@ == s@.subrange(0, i as int),
        decreases n - i,
    {
        r.push(s.get_char(i));
        i = i + 1;
    }
    r
}

/// A string holding exactly the characters of `v`.
pub fn string_of(v: &[char]) -> (r: String)
    ensures
        r@ == v@,
{
    let mut r = String::new();
    let mut i: usize = 0;
    while i < v.len()
        invariant
            i <= v.len(),
            r@ == v@.subrange(0, i as int),
        decreases v.len() - i,
    {
        push_char(&mut r, v[i]);
        i = i + 1;
    }
    r
}

/// A fresh `String` with the characters of `s`.
pub fn owned(s: &str) -> (r: String)
    ensures
        r@ == s@,
{
    s.to_owned()
}

/// Equality of two strings, character by character.
pub fn str_eq(a: &str, b: &str) -> (r: bool)
    ensures
        r == (a@ == b@),
{
    let x = chars_of(a);
    let y = chars_of(b);
    if x.len() != y.len() {
        return false;
    }
    let mut i: usize = 0;
    while i < x.len()
        invariant
            x@ == a@,
            y@ == b@,
            x.len() == y.len(),
            i <= x.len(),
            forall|j: int| 0 <= j < i ==> x@[j] == y@[j],
        decreases x.len() - i,
    {
        if x[i] != y[i] {
            return false;
        }
        i = i + 1;
    }
    assert(a@ =~= b@);
    true
}

/// The first character of `s` is `c`.
pub open spec fn starts_with_char(s: Seq<char>, c: char) -> bool {
    s.len() > 0 && s[0] == c
}

/// The ASCII decimal digit for `d` (`0 <= d < 10`).
pub open spec fn ascii_digit(d: int) -> char {
    (48 + d) as char
}

/// The character of the decimal digit `d`.
pub fn digit_char(d: u8) -> (c: char)
    requires
        d < 10,
    ensures
        c == ascii_digit(d as int),
{
    (48u8 + d) as char
}

/// Decimal rendering of a natural number, without leading zeros.
pub open spec fn decimal(n: nat) -> Seq<char>
    decreases n,
{
    if n < 10 {
        seq![ascii_digit(n as int)]
    } else {
        decimal(n / 10).push(ascii_digit((n % 10) as int))
    }
}

/// Two-digit, zero-padded rendering of `n < 100` (as `{:02}` prints it).
pub open spec fn two_digits(n: int) -> Seq<char> {
    seq![ascii_digit(n / 10), ascii_digit(n % 10)]
}

/// Appends the decimal rendering of `n` to `out` (as `{}` prints it).
pub fn push_decimal(out: &mut String, n: u64)
    ensures
        final(out)@ == old(out)@ + decimal(n as nat),
    decreases n,
{
    if n < 10 {
        push_char(out, digit_char(n as u8));
        assert(decimal(n as nat) =~= seq![ascii_digit(n as int)]);
    } else {
        push_decimal(out, n / 10);
        push_char(out, digit_char((n % 10) as u8));
        assert(old(out)@ + decimal(n as nat) =~= old(out)@ + decimal((n / 10) as nat) + seq![
            ascii_digit((n % 10) as int),
        ]);
    }
}

/// Appends the two-digit rendering of `n < 100` to `out`.
pub fn push_two_digits(out: &mut String, n: u64)
    requires
        n < 100,
    ensures
        final(out)@ == old(out)@ + two_digits(n as int),
{
    push_char(out, digit_char((n / 10) as u8));
    push_char(out, digit_char((n % 10) as u8));
    assert(final(out)@ =~= old(out)@ + two_digits(n as int));
}

/// Lexicographic order on character sequences (the order of `str`'s `Ord`:
/// comparing UTF-8 bytes orders strings as comparing code points does).
pub open spec fn lex_le(a: Seq<char>, b: Seq<char>) -> bool
    decreases a.len(),
{
    if a.len() == 0 {
        true
    } else if b.len() == 0 {
        false
    } else if a[0] != b[0] {
        (a[0] as int) < (b[0] as int)
    } else {
        lex_le(a.drop_first(), b.drop_first())
    }
}

/// Strings are ordered at their first difference: when `a` and `b` agree
/// before position `i` and differ there, `a` comes first exactly when its
/// character there is the smaller one, whatever the two lengths are.
pub proof fn lemma_lex_le_first_difference(a: Seq<char>, b: Seq<char>, i: int)
    requires
        0 <= i < a.len(),
        i < b.len(),
        a[i] != b[i],
        forall|j: int| 0 <= j < i ==> a[j] == b[j],
    ensures
        lex_le(a, b) == ((a[i] as int) < (b[i] as int)),
        lex_le(b, a) == ((b[i] as int) < (a[i] as int)),
    decreases i,
{
    if i > 0 {
        assert(a[0] == b[0]);
        let (a1, b1) = (a.drop_first(), b.drop_first());
        assert forall|j: int| 0 <= j < i - 1 implies a1[j] == b1[j] by {
            assert(a1[j] == a[j + 1] && b1[j] == b[j + 1]);
        }
        lemma_lex_le_first_difference(a1, b1, i - 1);
    }
}

/// A prefix comes first: `a` is ordered before every string it is a prefix
/// of, and a string never comes before its own proper prefix.
pub proof fn lemma_lex_le_prefix(a: Seq<char>, b: Seq<char>)
    requires
        a.len() <= b.len(),
        forall|j: int| 0 <= j < a.len() ==> a[j] == b[j],
    ensures
        lex_le(a, b),
        a.len() < b.len() ==> !lex_le(b, a),
    decreases a.len(),
{
    if a.len() > 0 {
        let (a1, b1) = (a.drop_first(), b.drop_first());
        assert forall|j: int| 0 <= j < a1.len() implies a1[j] == b1[j] by {
            assert(a1[j] == a[j + 1] && b1[j] == b[j + 1]);
        }
        assert(a[0] == b[0]);
        lemma_lex_le_prefix(a1, b1);
    }
}

/// Any two sequences are comparable.
pub proof fn lemma_lex_le_total(a: Seq<char>, b: Seq<char>)
    ensures
        lex_le(a, b) || lex_le(b, a),
    decreases a.len(),
{
    if a.len() > 0 && b.len() > 0 && a[0] == b[0] {
        lemma_lex_le_total(a.drop_first(), b.drop_first());
    }
}

/// The order is transitive.
pub proof fn lemma_lex_le_transitive(a: Seq<char>, b: Seq<char>, c: Seq<char>)
    requires
        lex_le(a, b),
        lex_le(b, c),
    ensures
        lex_le(a, c),
    decreases a.len(),
{
    if a.len() > 0 && b.len() > 0 && c.len() > 0 && a[0] == b[0] && b[0] == c[0] {
        lemma_lex_le_transitive(a.drop_first(), b.drop_first(), c.drop_first());
    }
}

/// `a` comes no later than `b` in the order of `str`.
pub fn str_le(a: &str, b: &str) -> (r: bool)
    ensures
        r == lex_le(a@, b@),
{
    let x = chars_of(a);
    let y = chars_of(b);
    let mut i: usize = 0;
    assert(a@.skip(0) =~= a@);
    assert(b@.skip(0) =~= b@);
    while i < x.len() && i < y.len()
        invariant
            x@ == a@,
            y@ == b@,
            i <= x.len(),
            i <= y.len(),
            forall|j: int| 0 <= j < i ==> x@[j] == y@[j],
            lex_le(a@, b@) == lex_le(a@.skip(i as int), b@.skip(i as int)),
        decreases x.len() - i,
    {
        if x[i] != y[i] {
            assert(a@.skip(i as int)[0] == x@[i as int]);
            assert(b@.skip(i as int)[0] == y@[i as int]);
            return x[i] < y[i];
        }
        assert(a@.skip(i as int).drop_first() =~= a@.skip(i + 1));
        assert(b@.skip(i as int).drop_first() =~= b@.skip(i + 1));
        i = i + 1;
    }
    assert(a@.skip(i as int).len() == x.len() - i);
    assert(b@.skip(i as int).len() == y.len() - i);
    i == x.len()
}

/// `s` with every non-overlapping occurrence of the non-empty `pat` replaced
/// by `rep`, scanning from the left (as `str::replace` does).
pub open spec fn replaced(s: Seq<char>, pat: Seq<char>, rep: Seq<char>) -> Seq<char>
    decreases s.len(),
{
    if pat.len() == 0 || s.len() < pat.len() {
        s
    } else if s.take(pat.len() as int) == pat {
        rep + replaced(s.skip(pat.len() as int), pat, rep)
    } else {
        seq![s[0]] + replaced(s.skip(1), pat, rep)
    }
}

/// Whether `pat` occurs in `s` at position `i`.
fn matches_at(s: &Vec<char>, pat: &Vec<char>, i: usize) -> (r: bool)
    requires
        i + pat.len() <= s.len(),
    ensures
        r == (s@.subrange(i as int, i + pat.len()) == pat@),
{
    let mut j: usize = 0;
    while j < pat.len()
        invariant
            i + pat.len() <= s.len(),
            j <= pat.len(),
            forall|k: int| 0 <= k < j ==> s@[i + k] == pat@[k],
        decreases pat.len() - j,
    {
        if s[i + j] != pat[j] {
            assert(s@.subrange(i as int, i + pat.len())[j as int] != pat@[j as int]);
            return false;
        }
        j = j + 1;
    }
    assert(s@.subrange(i as int, i + pat.len()) =~= pat@);
    true
}

/// `s.replace(pat, rep)` for a non-empty pattern.
pub fn replace_all(s: &str, pat: &str, rep: &str) -> (r: String)
    requires
        pat@.len() > 0,
    ensures
        r@ == replaced(s@, pat@, rep@),
{
    let sc = chars_of(s);
    let pc = chars_of(pat);
    let mut out = String::new();
    let mut i: usize = 0;
    assert(s@.skip(0) =~= s@);
    assert(out@ + replaced(s@, pat@, rep@) =~= replaced(s@, pat@, rep@));
    while i < sc.len()
        invariant
            sc@ == s@,
            pc@ == pat@,
            pc.len() > 0,
            i <= sc.len(),
            out@ + replaced(s@.skip(i as int), pat@, rep@) == replaced(s@, pat@, rep@),
        decreases sc.len() - i,
    {
        let ghost rest = s@.skip(i as int);
        if pc.len() <= sc.len() - i && matches_at(&sc, &pc, i) {
            assert(rest.take(pat@.len() as int) =~= sc@.subrange(i as int, i + pc.len()));
            assert(rest.skip(pat@.len() as int) =~= s@.skip(i + pc.len()));
            out.append(rep);
            i = i + pc.len();
            assert(out@ + replaced(s@.skip(i as int), pat@, rep@) =~= replaced(s@, pat@, rep@));
        } else {
            if pc.len() <= sc.len() - i {
                assert(rest.take(pat@.len() as int) =~= sc@.subrange(i as int, i + pc.len()));
            }
            assert(rest.skip(1) =~= s@.skip(i + 1));
            assert(rest[0] == sc@[i as int]);
            push_char(&mut out, sc[i]);
            i = i + 1;
            assert(out@ + replaced(s@.skip(i as int), pat@, rep@) =~= replaced(s@, pat@, rep@));
        }
    }
    assert(s@.skip(i as int) =~= Seq::<char>::empty());
    assert(out@ =~= replaced(s@, pat@, rep@));
    out
}

} // verus!
