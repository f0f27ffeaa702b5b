use vstd::prelude::*;
use vstd::string::StrSliceExecFns;
use vstd::string::StringExecFns;

verus! {

/// The code points with the Unicode `White_Space` property: exactly the
/// characters that `str::trim` strips and `char::is_whitespace` accepts.
pub open spec fn is_ws_char(c: char) -> bool {
    ||| c == ' '
    ||| c == '\t'
    ||| c == '\n'
    ||| c == '\r'
    ||| c == '\u{b}'
    ||| c == '\u{c}'
    ||| c == '\u{85}'
    ||| c == '\u{a0}'
    ||| c == '\u{1680}'
    ||| c == '\u{2000}'
    ||| c == '\u{2001}'
    ||| c == '\u{2002}'
    ||| c == '\u{2003}'
    ||| c == '\u{2004}'
    ||| c == '\u{2005}'
    ||| c == '\u{2006}'
    ||| c == '\u{2007}'
    ||| c == '\u{2008}'
    ||| c == '\u{2009}'
    ||| c == '\u{200a}'
    ||| c == '\u{2028}'
    ||| c == '\u{2029}'
    ||| c == '\u{202f}'
    ||| c == '\u{205f}'
    ||| c == '\u{3000}'
}

pub fn is_ws(c: char) -> (b: bool)
    ensures
        b == is_ws_char(c),
{
    c == ' ' || c == '\t' || c == '\n' || c == '\r' || c == '\u{b}' || c == '\u{c}'
        || c == '\u{85}' || c == '\u{a0}' || c == '\u{1680}' || c == '\u{2000}'
        || c == '\u{2001}' || c == '\u{2002}' || c == '\u{2003}' || c == '\u{2004}'
        || c == '\u{2005}' || c == '\u{2006}' || c == '\u{2007}' || c == '\u{2008}'
        || c == '\u{2009}' || c == '\u{200a}' || c == '\u{2028}' || c == '\u{2029}'
        || c == '\u{202f}' || c == '\u{205f}' || c == '\u{3000}'
}

/// A string is blank when every character is whitespace; the empty string is
/// blank. This is the same as `s.trim()` being empty.
pub open spec fn all_blank(s: Seq<char>) -> bool {
    forall|i: int| 0 <= i < s.len() ==> is_ws_char(s[i])
}

pub fn is_blank(s: &str) -> (b: bool)
    ensures
        b == all_blank(s@),
{
    let n: usize = s.unicode_len();
    let mut i: usize = 0;
    while i < n
        invariant
            n == s@.len(),
            i <= n,
            forall|j: int| 0 <= j < i ==> is_ws_char(s@[j]),
        decreases n - i,
    {
        if !is_ws(s.get_char(i)) {
            return false;
        }
        i += 1;
    }
    true
}

/// The pattern occurs in `text` at character position `i`.
pub open spec fn match_at(text: Seq<char>, pat: Seq<char>, i: int) -> bool {
    0 <= i && i + pat.len() <= text.len() && text.subrange(i, i + pat.len() as int) == pat
}

/// How many non-overlapping occurrences of `pat` a left-to-right scan of
/// `text` finds from position `from` on; the counting that `str::matches`
/// performs. Zero for an empty pattern.
pub open spec fn occ_count(text: Seq<char>, pat: Seq<char>, from: int) -> nat
    decreases text.len() - from,
{
    if pat.len() == 0 || from < 0 || from + pat.len() > text.len() {
        0
    } else if match_at(text, pat, from) {
        (1 + occ_count(text, pat, from + pat.len() as int)) as nat
    } else {
        occ_count(text, pat, from + 1)
    }
}

/// The first position at or after `from` where `pat` occurs, or -1 if there
/// is none (also -1 for an empty pattern).
pub open spec fn first_at(text: Seq<char>, pat: Seq<char>, from: int) -> int
    decreases text.len() - from,
{
    if pat.len() == 0 || from < 0 || from + pat.len() > text.len() {
        -1
    } else if match_at(text, pat, from) {
        from
    } else {
        first_at(text, pat, from + 1)
    }
}

/// A scan that finds at least one occurrence has a first one, and the other
/// way round.
pub proof fn lemma_count_pos_iff_found(text: Seq<char>, pat: Seq<char>, from: int)
    requires
        pat.len() > 0,
    ensures
        occ_count(text, pat, from) > 0 <==> first_at(text, pat, from) >= 0,
    decreases text.len() - from,
{
    if from < 0 || from + pat.len() > text.len() {
    } else if match_at(text, pat, from) {
    } else {
        lemma_count_pos_iff_found(text, pat, from + 1);
    }
}

fn match_here(text: &str, pat: &str, i: usize) -> (b: bool)
    requires
        i + pat@.len() <= text@.len(),
    ensures
        b == match_at(text@, pat@, i as int),
{
    let _n: usize = text.unicode_len();
    let m: usize = pat.unicode_len();
    let mut j: usize = 0;
    while j < m
        invariant
            i + pat@.len() <= text@.len(),
            text@.len() <= usize::MAX,
            m == pat@.len(),
            j <= m,
            forall|k: int| 0 <= k < j ==> text@[i + k] == pat@[k],
        decreases m - j,
    {
        if text.get_char(i + j) != pat.get_char(j) {
            assert(text@.subrange(i as int, i + pat@.len() as int)[j as int] != pat@[j as int]);
            return false;
        }
        j += 1;
    }
    assert(text@.subrange(i as int, i + pat@.len() as int) =~= pat@);
    true
}

/// Non-overlapping occurrence count of a non-empty pattern, scanning left to
/// right as `str::matches` does.
pub fn count_matches(text: &str, pat: &str) -> (n: usize)
    requires
        pat@.len() > 0,
    ensures
        n as nat == occ_count(text@, pat@, 0),
{
    let tn: usize = text.unicode_len();
    let pm: usize = pat.unicode_len();
    if pm > tn {
        return 0;
    }
    let mut i: usize = 0;
    let mut n: usize = 0;
    while i <= tn - pm
        invariant
            tn == text@.len(),
            pm == pat@.len(),
            1 <= pm <= tn,
            i <= tn,
            n <= i,
            n + occ_count(text@, pat@, i as int) == occ_count(text@, pat@, 0),
        decreases tn - i,
    {
        if match_here(text, pat, i) {
            assert(occ_count(text@, pat@, i as int) == 1 + occ_count(
                text@,
                pat@,
                i + pm as int,
            ));
            n += 1;
            i += pm;
        } else {
            assert(occ_count(text@, pat@, i as int) == occ_count(text@, pat@, i + 1));
            i += 1;
        }
    }
    assert(occ_count(text@, pat@, i as int) == 0);
    n
}

/// Position of the first occurrence of a non-empty pattern, if any.
pub fn find_first(text: &str, pat: &str) -> (r: Option<usize>)
    requires
        pat@.len() > 0,
    ensures
        match r {
            Some(i) => i as int == first_at(text@, pat@, 0) && match_at(text@, pat@, i as int),
            None => first_at(text@, pat@, 0) == -1,
        },
{
    let tn: usize = text.unicode_len();
    let pm: usize = pat.unicode_len();
    if pm > tn {
        return None;
    }
    let mut i: usize = 0;
    while i <= tn - pm
        invariant
            tn == text@.len(),
            pm == pat@.len(),
            1 <= pm <= tn,
            i <= tn,
            first_at(text@, pat@, 0) == first_at(text@, pat@, i as int),
        decreases tn - i,
    {
        if match_here(text, pat, i) {
            return Some(i);
        }
        assert(first_at(text@, pat@, i as int) == first_at(text@, pat@, i + 1));
        i += 1;
    }
    assert(first_at(text@, pat@, i as int) == -1);
    None
}

/// Character-for-character string equality.
pub fn str_eq(a: &str, b: &str) -> (r: bool)
    ensures
        r == (a@ == b@),
{
    let n: usize = a.unicode_len();
    let m: usize = b.unicode_len();
    if n != m {
        return false;
    }
    let mut i: usize = 0;
    while i < n
        invariant
            n == a@.len(),
            n == b@.len(),
            i <= n,
            forall|j: int| 0 <= j < i ==> a@[j] == b@[j],
        decreases n - i,
    {
        if a.get_char(i) != b.get_char(i) {
            return false;
        }
        i += 1;
    }
    assert(a@ =~= b@);
    true
}

/// Does `s` start with `p`?
pub fn has_prefix(s: &str, p: &str) -> (r: bool)
    ensures
        r == match_at(s@, p@, 0),
{
    let n: usize = s.unicode_len();
    let m: usize = p.unicode_len();
    if m > n {
        return false;
    }
    match_here(s, p, 0)
}

/// Replace the `m` characters at position `i` with `repl`.
pub fn replace_at(text: &str, i: usize, m: usize, repl: &str) -> (r: String)
    requires
        i + m <= text@.len(),
    ensures
        r@ == text@.subrange(0, i as int) + repl@ + text@.subrange(
            i + m as int,
            text@.len() as int,
        ),
{
    let n: usize = text.unicode_len();
    let head = text.substring_char(0, i);
    let tail = text.substring_char(i + m, n);
    let r = String::from_str(head).concat(repl).concat(tail);
    assert(r@ =~= text@.subrange(0, i as int) + repl@ + text@.subrange(
        i + m as int,
        text@.len() as int,
    ));
    r
}

/// Concatenation of two strings.
pub fn concat_strs(a: &str, b: &str) -> (r: String)
    ensures
        r@ == a@ + b@,
{
    String::from_str(a).concat(b)
}

/// First index at or after `from` holding a non-whitespace character, or the
/// length if there is none.
pub open spec fn lead_ws_end(s: Seq<char>, from: int) -> int
    decreases s.len() - from,
{
    if from < 0 || from >= s.len() {
        from
    } else if is_ws_char(s[from]) {
        lead_ws_end(s, from + 1)
    } else {
        from
    }
}

/// One past the last non-whitespace character strictly below `from`, or 0 if
/// there is none.
pub open spec fn trail_ws_start(s: Seq<char>, from: int) -> int
    decreases from,
{
    if from <= 0 || from > s.len() {
        from
    } else if is_ws_char(s[from - 1]) {
        trail_ws_start(s, from - 1)
    } else {
        from
    }
}

/// What `str::trim` leaves: the text with leading and trailing whitespace
/// removed.
pub open spec fn trimmed(s: Seq<char>) -> Seq<char> {
    if lead_ws_end(s, 0) == s.len() {
        Seq::empty()
    } else {
        s.subrange(lead_ws_end(s, 0), trail_ws_start(s, s.len() as int))
    }
}

/// Trim leading and trailing whitespace, as `str::trim` does.
pub fn trim_ws(s: &str) -> (r: String)
    ensures
        r@ == trimmed(s@),
{
    let n: usize = s.unicode_len();
    let mut a: usize = 0;
    while a < n && is_ws(s.get_char(a))
        invariant
            n == s@.len(),
            a <= n,
            lead_ws_end(s@, 0) == lead_ws_end(s@, a as int),
            forall|j: int| 0 <= j < a ==> is_ws_char(s@[j]),
        decreases n - a,
    {
        assert(lead_ws_end(s@, a as int) == lead_ws_end(s@, a + 1));
        a += 1;
    }
    if a == n {
        assert(lead_ws_end(s@, a as int) == a);
        let r = String::new();
        assert(r@ =~= trimmed(s@));
        return r;
    }
    assert(lead_ws_end(s@, a as int) == a);
    let mut b: usize = n;
    while b > a && is_ws(s.get_char(b - 1))
        invariant
            n == s@.len(),
            a < n,
            !is_ws_char(s@[a as int]),
            a < b <= n,
            trail_ws_start(s@, n as int) == trail_ws_start(s@, b as int),
        decreases b,
    {
        assert(trail_ws_start(s@, b as int) == trail_ws_start(s@, b - 1));
        b -= 1;
    }
    proof {
        assert(trail_ws_start(s@, b as int) == b);
    }
    let r = text_slice(s, a, b);
    assert(r@ =~= trimmed(s@));
    r
}

fn text_slice(s: &str, a: usize, b: usize) -> (r: String)
    requires
        a <= b,
        b <= s@.len(),
    ensures
        r@ == s@.subrange(a as int, b as int),
{
    String::from_str(s.substring_char(a, b))
}

/// The decimal digit for a value below ten.
pub open spec fn dec_digit(d: int) -> char {
    if d == 0 {
        '0'
    } else if d == 1 {
        '1'
    } else if d == 2 {
        '2'
    } else if d == 3 {
        '3'
    } else if d == 4 {
        '4'
    } else if d == 5 {
        '5'
    } else if d == 6 {
        '6'
    } else if d == 7 {
        '7'
    } else if d == 8 {
        '8'
    } else {
        '9'
    }
}

/// The usual decimal rendering of a natural number, most significant digit
/// first, with no leading zero except for zero itself.
pub open spec fn dec_of(n: int) -> Seq<char>
    decreases n,
{
    if n < 10 {
        seq![dec_digit(n)]
    } else {
        dec_of(n / 10).push(dec_digit(n % 10))
    }
}

fn digit_str(d: usize) -> (r: &'static str)
    requires
        d < 10,
    ensures
        r@ == seq![dec_digit(d as int)],
{
    proof {
        reveal_strlit("0");
        reveal_strlit("1");
        reveal_strlit("2");
        reveal_strlit("3");
        reveal_strlit("4");
        reveal_strlit("5");
        reveal_strlit("6");
        reveal_strlit("7");
        reveal_strlit("8");
        reveal_strlit("9");
    }
    let r: &'static str = if d == 0 {
        "0"
    } else if d == 1 {
        "1"
    } else if d == 2 {
        "2"
    } else if d == 3 {
        "3"
    } else if d == 4 {
        "4"
    } else if d == 5 {
        "5"
    } else if d == 6 {
        "6"
    } else if d == 7 {
        "7"
    } else if d == 8 {
        "8"
    } else {
        "9"
    };
    assert(r@ =~= seq![dec_digit(d as int)]);
    r
}

/// Decimal rendering of a count.
pub fn decimal(n: usize) -> (r: String)
    ensures
        r@ == dec_of(n as int),
    decreases n,
{
    if n < 10 {
        String::from_str(digit_str(n))
    } else {
        let head = decimal(n / 10);
        let r = head.concat(digit_str(n % 10));
        assert(r@ =~= dec_of(n as int));
        r
    }
}

} // verus!
