//! Verified text utilities.
//!
//! Everything the projection engine does to strings — comparing keys,
//! folding ASCII case, collapsing CRLF pairs, trimming stray quoting marks,
//! rendering integers — is implemented here against exact sequence-level
//! specifications.

use vstd::prelude::*;
use vstd::string::*;

verus! {

/// Appends one character to a string.
///
/// Relies on `String::push`: the character is appended at the end.
#[verifier::external_body]
pub fn push_char(s: &mut String, c: char)
    ensures
        final(s)@ == old(s)@ + seq![c],
{
    s.push(c);
}

/// Character-for-character string equality, specified on the views.
pub fn str_eq(a: &str, b: &str) -> (r: bool)
    ensures
        r == (a@ == b@),
{
    let alen = a.unicode_len();
    let blen = b.unicode_len();
    if alen != blen {
        return false;
    }
    let mut i: usize = 0;
    while i < alen
        invariant
            alen == a@.len(),
            blen == b@.len(),
            alen == blen,
            i <= alen,
            forall|k: int| 0 <= k < i ==> a@[k] == b@[k],
        decreases alen - i,
    {
        if a.get_char(i) != b.get_char(i) {
            return false;
        }
        i += 1;
    }
    proof {
        assert(a@ =~= b@);
    }
    true
}

/// ASCII lower-casing of one character; anything outside `'A'..='Z'` is left
/// unchanged.
pub open spec fn lower_char(c: char) -> char {
    match c {
        'A' => 'a',
        'B' => 'b',
        'C' => 'c',
        'D' => 'd',
        'E' => 'e',
        'F' => 'f',
        'G' => 'g',
        'H' => 'h',
        'I' => 'i',
        'J' => 'j',
        'K' => 'k',
        'L' => 'l',
        'M' => 'm',
        'N' => 'n',
        'O' => 'o',
        'P' => 'p',
        'Q' => 'q',
        'R' => 'r',
        'S' => 's',
        'T' => 't',
        'U' => 'u',
        'V' => 'v',
        'W' => 'w',
        'X' => 'x',
        'Y' => 'y',
        'Z' => 'z',
        _ => c,
    }
}

/// ASCII lower-casing of a character sequence.
pub open spec fn lower_seq(s: Seq<char>) -> Seq<char> {
    s.map_values(|c: char| lower_char(c))
}

/// ASCII lower-casing, executable.
pub fn lower_char_x(c: char) -> (r: char)
    ensures
        r == lower_char(c),
{
    match c {
        'A' => 'a',
        'B' => 'b',
        'C' => 'c',
        'D' => 'd',
        'E' => 'e',
        'F' => 'f',
        'G' => 'g',
        'H' => 'h',
        'I' => 'i',
        'J' => 'j',
        'K' => 'k',
        'L' => 'l',
        'M' => 'm',
        'N' => 'n',
        'O' => 'o',
        'P' => 'p',
        'Q' => 'q',
        'R' => 'r',
        'S' => 's',
        'T' => 't',
        'U' => 'u',
        'V' => 'v',
        'W' => 'w',
        'X' => 'x',
        'Y' => 'y',
        'Z' => 'z',
        _ => c,
    }
}

/// Lower-cases a string, ASCII letters only.
pub fn lower_str(s: &str) -> (r: String)
    ensures
        r@ == lower_seq(s@),
{
    let n = s.unicode_len();
    let mut out = String::new();
    let mut i: usize = 0;
    while i < n
        invariant
            n == s@.len(),
            i <= n,
            out@ == lower_seq(s@.take(i as int)),
        decreases n - i,
    {
        let c = lower_char_x(s.get_char(i));
        push_char(&mut out, c);
        proof {
            assert(lower_seq(s@.take(i + 1)) =~= lower_seq(s@.take(i as int)) + seq![
                lower_char(s@[i as int]),
            ]);
        }
        i += 1;
    }
    proof {
        assert(s@.take(n as int) =~= s@);
    }
    out
}

/// Whether two strings are equal up to ASCII case.
pub fn str_eq_ci(a: &str, b: &str) -> (r: bool)
    ensures
        r == (lower_seq(a@) == lower_seq(b@)),
{
    let la = lower_str(a);
    let lb = lower_str(b);
    str_eq(la.as_str(), lb.as_str())
}

/// A double CRLF pair at the front of `s`.
pub open spec fn double_crlf_at(s: Seq<char>, i: int) -> bool {
    &&& i + 4 <= s.len()
    &&& s[i] == '\r'
    &&& s[i + 1] == '\n'
    &&& s[i + 2] == '\r'
    &&& s[i + 3] == '\n'
}

/// `s` with every (leftmost, non-overlapping) `"\r\n\r\n"` replaced by one
/// space.
pub open spec fn collapse_crlf(s: Seq<char>) -> Seq<char>
    decreases s.len(),
{
    if s.len() == 0 {
        Seq::empty()
    } else if double_crlf_at(s, 0) {
        seq![' '] + collapse_crlf(s.skip(4))
    } else {
        seq![s[0]] + collapse_crlf(s.skip(1))
    }
}

/// Replaces every double CRLF pair in `s` with a single space.
pub fn collapse_crlf_str(s: &str) -> (r: String)
    ensures
        r@ == collapse_crlf(s@),
{
    let n = s.unicode_len();
    let mut out = String::new();
    let mut i: usize = 0;
    proof {
        assert(s@.skip(0) =~= s@);
        assert(out@ + collapse_crlf(s@) =~= collapse_crlf(s@));
    }
    while i < n
        invariant
            n == s@.len(),
            i <= n,
            out@ + collapse_crlf(s@.skip(i as int)) == collapse_crlf(s@),
        decreases n - i,
    {
        proof {
            assert forall|k: int| 0 <= k < s@.skip(i as int).len() implies s@.skip(i as int)[k]
                == s@[i + k] by {}
        }
        if n - i >= 4 && s.get_char(i) == '\r' && s.get_char(i + 1) == '\n' && s.get_char(i + 2)
            == '\r' && s.get_char(i + 3) == '\n' {
            push_char(&mut out, ' ');
            proof {
                assert(double_crlf_at(s@.skip(i as int), 0));
                assert(s@.skip(i as int).skip(4) =~= s@.skip(i + 4));
                assert(collapse_crlf(s@.skip(i as int)) == seq![' '] + collapse_crlf(
                    s@.skip(i + 4),
                ));
                assert(out@ + collapse_crlf(s@.skip(i + 4)) =~= collapse_crlf(s@));
            }
            i += 4;
        } else {
            let c = s.get_char(i);
            push_char(&mut out, c);
            proof {
                assert(!double_crlf_at(s@.skip(i as int), 0));
                assert(s@.skip(i as int).skip(1) =~= s@.skip(i + 1));
                assert(collapse_crlf(s@.skip(i as int)) == seq![s@[i as int]] + collapse_crlf(
                    s@.skip(i + 1),
                ));
                assert(out@ + collapse_crlf(s@.skip(i + 1)) =~= collapse_crlf(s@));
            }
            i += 1;
        }
    }
    proof {
        assert(s@.skip(n as int) =~= Seq::<char>::empty());
        assert(out@ =~= collapse_crlf(s@));
    }
    out
}

/// A stray quoting mark: a literal backslash or double quote.
pub open spec fn is_mark(c: char) -> bool {
    c == '\\' || c == '"'
}

/// `s` without its leading quoting marks.
pub open spec fn trim_front(s: Seq<char>) -> Seq<char>
    decreases s.len(),
{
    if s.len() > 0 && is_mark(s[0]) {
        trim_front(s.drop_first())
    } else {
        s
    }
}

/// `s` without its trailing quoting marks.
pub open spec fn trim_back(s: Seq<char>) -> Seq<char>
    decreases s.len(),
{
    if s.len() > 0 && is_mark(s[s.len() - 1]) {
        trim_back(s.drop_last())
    } else {
        s
    }
}

/// `s` without quoting marks on either end.
pub open spec fn trim_marks(s: Seq<char>) -> Seq<char> {
    trim_back(trim_front(s))
}

proof fn lemma_trim_front_skip(s: Seq<char>, i: int)
    requires
        0 <= i <= s.len(),
        forall|k: int| 0 <= k < i ==> is_mark(s[k]),
        i < s.len() ==> !is_mark(s[i]),
    ensures
        trim_front(s) == s.skip(i),
    decreases i,
{
    if i == 0 {
        assert(s.skip(0) =~= s);
    } else {
        lemma_trim_front_skip(s.drop_first(), i - 1);
        assert(s.drop_first().skip(i - 1) =~= s.skip(i));
    }
}

proof fn lemma_trim_back_take(s: Seq<char>, i: int)
    requires
        0 <= i <= s.len(),
        forall|k: int| i <= k < s.len() ==> is_mark(s[k]),
        i > 0 ==> !is_mark(s[i - 1]),
    ensures
        trim_back(s) == s.take(i),
    decreases s.len() - i,
{
    if i == s.len() {
        assert(s.take(i) =~= s);
    } else {
        lemma_trim_back_take(s.drop_last(), i);
        assert(s.drop_last().take(i) =~= s.take(i));
    }
}

/// Strips quoting marks (backslash, double quote) from both ends of `s`.
pub fn trim_marks_str(s: &str) -> (r: String)
    ensures
        r@ == trim_marks(s@),
{
    let n = s.unicode_len();
    let mut lo: usize = 0;
    while lo < n && is_mark_x(s.get_char(lo))
        invariant
            n == s@.len(),
            lo <= n,
            forall|k: int| 0 <= k < lo ==> is_mark(s@[k]),
        decreases n - lo,
    {
        lo += 1;
    }
    if lo == n {
        proof {
            lemma_trim_front_skip(s@, n as int);
            assert(s@.skip(n as int) =~= Seq::<char>::empty());
            assert(trim_back(Seq::<char>::empty()) =~= Seq::<char>::empty());
        }
        return String::new();
    }
    proof {
        lemma_trim_front_skip(s@, lo as int);
    }
    let ghost t = s@.skip(lo as int);
    let mut hi: usize = n;
    while hi > lo && is_mark_x(s.get_char(hi - 1))
        invariant
            n == s@.len(),
            lo < n,
            lo <= hi <= n,
            !is_mark(s@[lo as int]),
            forall|k: int| hi <= k < n ==> is_mark(s@[k]),
        decreases hi,
    {
        hi -= 1;
    }
    proof {
        assert forall|k: int| hi - lo <= k < t.len() implies is_mark(t[k]) by {
            assert(t[k] == s@[lo + k]);
        }
        if hi > lo {
            assert(t[hi - lo - 1] == s@[hi - 1]);
        }
        lemma_trim_back_take(t, hi - lo);
        assert(t.take(hi - lo) =~= s@.subrange(lo as int, hi as int));
    }
    let piece = s.substring_char(lo, hi);
    piece.to_owned()
}

/// Executable test for a quoting mark.
pub fn is_mark_x(c: char) -> (r: bool)
    ensures
        r == is_mark(c),
{
    c == '\\' || c == '"'
}

/// The decimal digit character for `d`, which must be below ten.
pub open spec fn dec_digit(d: int) -> char {
    if d == 0 {
        '0'
    } else if d == 1 {
        '1'
    } else if d == 2 {
        '2'
    } else if d == 3 {
        '3'
    } else if d == 4 {
        '4'
    } else if d == 5 {
        '5'
    } else if d == 6 {
        '6'
    } else if d == 7 {
        '7'
    } else if d == 8 {
        '8'
    } else {
        '9'
    }
}

/// The usual decimal rendering of a natural number, without leading zeros.
pub open spec fn dec_nat(n: nat) -> Seq<char>
    decreases n,
{
    if n < 10 {
        seq![dec_digit(n as int)]
    } else {
        dec_nat(n / 10) + seq![dec_digit((n % 10) as int)]
    }
}

/// The usual decimal rendering of an integer: a minus sign for negative
/// values, then the digits.
pub open spec fn dec_int(n: int) -> Seq<char> {
    if n < 0 {
        seq!['-'] + dec_nat((-n) as nat)
    } else {
        dec_nat(n as nat)
    }
}

fn dec_digit_x(d: u64) -> (r: char)
    requires
        d < 10,
    ensures
        r == dec_digit(d as int),
{
    match d {
        0 => '0',
        1 => '1',
        2 => '2',
        3 => '3',
        4 => '4',
        5 => '5',
        6 => '6',
        7 => '7',
        8 => '8',
        _ => '9',
    }
}

/// Renders an integer in decimal.
pub fn i64_to_string(n: i64) -> (r: String)
    ensures
        r@ == dec_int(n as int),
{
    let neg = n < 0;
    let mut m: u64 = if neg {
        (-(n as i128)) as u64
    } else {
        n as u64
    };
    let ghost m0 = m as nat;
    let mut digits: Vec<char> = Vec::new();
    if m == 0 {
        digits.push('0');
    } else {
        while m > 0
            invariant
                m <= m0,
                m > 0 ==> dec_nat(m0) =~= dec_nat(m as nat) + digits@.reverse(),
                m == 0 ==> dec_nat(m0) =~= digits@.reverse(),
            decreases m,
        {
            let d = m % 10;
            let c = dec_digit_x(d);
            digits.push(c);
            proof {
                assert(digits@.reverse() =~= seq![c] + digits@.drop_last().reverse());
                if m >= 10 {
                    assert(dec_nat(m as nat) == dec_nat((m as nat) / 10) + seq![
                        dec_digit(((m as nat) % 10) as int),
                    ]);
                    assert(dec_nat(m0) =~= dec_nat((m / 10) as nat) + digits@.reverse());
                } else {
                    assert(dec_nat(m as nat) == seq![dec_digit(m as int)]);
                    assert(dec_nat(m0) =~= digits@.reverse());
                }
            }
            m = m / 10;
        }
    }
    proof {
        assert(dec_nat(m0) =~= digits@.reverse());
    }
    let mut out = String::new();
    if neg {
        push_char(&mut out, '-');
    }
    let ghost base = out@;
    let ghost all = digits@;
    while digits.len() > 0
        invariant
            out@ + digits@.reverse() =~= base + all.reverse(),
        decreases digits.len(),
    {
        let ghost before = digits@;
        let c = digits.pop().unwrap();
        push_char(&mut out, c);
        proof {
            assert(before.reverse() =~= seq![c] + digits@.reverse());
            assert(out@ + digits@.reverse() =~= base + all.reverse());
        }
    }
    proof {
        assert(out@ =~= base + all.reverse());
        if neg {
            assert(out@ =~= seq!['-'] + dec_nat(m0));
        } else {
            assert(out@ =~= dec_nat(m0));
        }
    }
    out
}

/// Renders `b` as the word the service uses for it.
pub fn bool_to_string(b: bool) -> (r: String)
    ensures
        b ==> r@ == "true"@,
        !b ==> r@ == "false"@,
{
    if b {
        String::from_str("true")
    } else {
        String::from_str("false")
    }
}

} // verus!
