//! Validity of decimal-number text.
//!
//! An edit-session buffer may only ever hold text that a 64-bit decimal
//! number parser accepts (or be empty). The acceptance rule is the grammar
//! that `f64` parsing documents:
//!
//! ```text
//! Float  ::= Sign? ( 'inf' | 'infinity' | 'nan' | Number )
//! Sign   ::= [+-]
//! Number ::= Count '.'? Exp?
//!          | '.' Count Exp?
//!          | Count '.' Count Exp?
//! Count  ::= [0-9]+
//! Exp    ::= [eE] Sign? Count
//! ```
//!
//! with the keywords matched case-insensitively. The grammar is stated as a
//! spec function over character sequences and decided by a verified scanner;
//! no floating-point value is ever computed here.

use vstd::prelude::*;

verus! {

/// A decimal digit.
pub open spec fn is_digit(c: char) -> bool {
    '0' as u32 <= c as u32 && c as u32 <= '9' as u32
}

/// The index just past the run of digits starting at `i`.
pub open spec fn digit_run_end(s: Seq<char>, i: int) -> int
    decreases s.len() - i when 0 <= i <= s.len()
{
    if i < s.len() && is_digit(s[i]) {
        digit_run_end(s, i + 1)
    } else {
        i
    }
}

pub proof fn lemma_digit_run_end(s: Seq<char>, i: int)
    requires
        0 <= i <= s.len(),
    ensures
        i <= digit_run_end(s, i) <= s.len(),
        forall|j: int| i <= j < digit_run_end(s, i) ==> is_digit(s[j]),
        digit_run_end(s, i) < s.len() ==> !is_digit(s[digit_run_end(s, i)]),
    decreases s.len() - i,
{
    if i < s.len() && is_digit(s[i]) {
        lemma_digit_run_end(s, i + 1);
    }
}

/// Case-insensitive match of one ASCII letter.
pub open spec fn ci(c: char, lower: char, upper: char) -> bool {
    c == lower || c == upper
}

/// `t` is `inf`, ignoring case.
pub open spec fn is_inf(t: Seq<char>) -> bool {
    t.len() == 3 && ci(t[0], 'i', 'I') && ci(t[1], 'n', 'N') && ci(t[2], 'f', 'F')
}

/// `t` is `infinity`, ignoring case.
pub open spec fn is_infinity(t: Seq<char>) -> bool {
    t.len() == 8 && ci(t[0], 'i', 'I') && ci(t[1], 'n', 'N') && ci(t[2], 'f', 'F')
        && ci(t[3], 'i', 'I') && ci(t[4], 'n', 'N') && ci(t[5], 'i', 'I') && ci(t[6], 't', 'T')
        && ci(t[7], 'y', 'Y')
}

/// `t` is `nan`, ignoring case.
pub open spec fn is_nan(t: Seq<char>) -> bool {
    t.len() == 3 && ci(t[0], 'n', 'N') && ci(t[1], 'a', 'A') && ci(t[2], 'n', 'N')
}

/// Index past an optional leading sign.
pub open spec fn strip_sign_idx(s: Seq<char>) -> int {
    if s.len() > 0 && (s[0] == '+' || s[0] == '-') {
        1
    } else {
        0
    }
}

/// `s[i..]` matches `Exp ::= [eE] Sign? Count`.
pub open spec fn is_exp(s: Seq<char>, i: int) -> bool {
    i < s.len() && (s[i] == 'e' || s[i] == 'E') && {
        let k = if i + 1 < s.len() && (s[i + 1] == '+' || s[i + 1] == '-') {
            i + 2
        } else {
            i + 1
        };
        k < s.len() && digit_run_end(s, k) == s.len()
    }
}

/// `s[i..]` matches `Number`: a mantissa with at least one digit and at most
/// one dot, followed by an optional exponent.
pub open spec fn is_number(s: Seq<char>, i: int) -> bool {
    let j = digit_run_end(s, i);
    let has_dot = j < s.len() && s[j] == '.';
    let m = if has_dot {
        digit_run_end(s, j + 1)
    } else {
        j
    };
    let digits = (j - i) + (if has_dot {
        m - (j + 1)
    } else {
        0
    });
    digits >= 1 && (m == s.len() || is_exp(s, m))
}

/// `s` matches `Float`: the texts a 64-bit decimal parser accepts.
pub open spec fn is_valid_float(s: Seq<char>) -> bool {
    let i = strip_sign_idx(s);
    let t = s.subrange(i, s.len() as int);
    is_inf(t) || is_infinity(t) || is_nan(t) || is_number(s, i)
}

/// Text made of digits alone is accepted by the grammar.
pub proof fn lemma_all_digits_valid(s: Seq<char>)
    requires
        s.len() > 0,
        forall|j: int| 0 <= j < s.len() ==> is_digit(#[trigger] s[j]),
    ensures
        is_valid_float(s),
{
    lemma_digit_run_end(s, 0);
    assert(digit_run_end(s, 0) == s.len());
    assert(strip_sign_idx(s) == 0);
    assert(s.subrange(0, s.len() as int) =~= s);
    assert(is_number(s, 0));
}

/// Digits around a single dot, with at least one digit, are accepted by
/// the grammar.
pub proof fn lemma_digits_dot_digits_valid(s: Seq<char>, p: int)
    requires
        s.len() >= 2,
        0 <= p < s.len(),
        s[p] == '.',
        forall|j: int| 0 <= j < p ==> is_digit(#[trigger] s[j]),
        forall|j: int| p < j < s.len() ==> is_digit(#[trigger] s[j]),
    ensures
        is_valid_float(s),
{
    lemma_digit_run_end(s, 0);
    assert(!is_digit('.'));
    assert(digit_run_end(s, 0) == p);
    lemma_digit_run_end(s, p + 1);
    assert(digit_run_end(s, p + 1) == s.len());
    assert(strip_sign_idx(s) == 0);
    assert(s.subrange(0, s.len() as int) =~= s);
    assert(is_number(s, 0));
}

/// Decides `is_digit`.
pub fn digit(c: char) -> (r: bool)
    ensures
        r == is_digit(c),
{
    '0' as u32 <= c as u32 && c as u32 <= '9' as u32
}

/// Scans the digit run starting at `i`.
fn scan_digits(s: &Vec<char>, i: usize) -> (j: usize)
    requires
        i <= s@.len(),
    ensures
        j == digit_run_end(s@, i as int),
        i <= j <= s@.len(),
{
    proof {
        lemma_digit_run_end(s@, i as int);
    }
    let n = s.len();
    let mut j = i;
    while j < n && digit(s[j])
        invariant
            i <= j <= n,
            n == s@.len(),
            digit_run_end(s@, j as int) == digit_run_end(s@, i as int),
        decreases n - j,
    {
        j = j + 1;
    }
    j
}

/// Decides `is_inf` of `s[start..]`.
fn scan_inf(s: &Vec<char>, start: usize) -> (r: bool)
    requires
        start <= s@.len(),
    ensures
        r == is_inf(s@.subrange(start as int, s@.len() as int)),
{
    let ghost t = s@.subrange(start as int, s@.len() as int);
    let n = s.len();
    if n - start != 3 {
        return false;
    }
    assert(t[0] == s@[start as int] && t[1] == s@[start + 1] && t[2] == s@[start + 2]);
    let r = (s[start] == 'i' || s[start] == 'I') && (s[start + 1] == 'n' || s[start + 1] == 'N')
        && (s[start + 2] == 'f' || s[start + 2] == 'F');
    r
}

/// Decides `is_infinity` of `s[start..]`.
fn scan_infinity(s: &Vec<char>, start: usize) -> (r: bool)
    requires
        start <= s@.len(),
    ensures
        r == is_infinity(s@.subrange(start as int, s@.len() as int)),
{
    let ghost t = s@.subrange(start as int, s@.len() as int);
    let n = s.len();
    if n - start != 8 {
        return false;
    }
    assert(forall|k: int| 0 <= k < 8 ==> t[k] == s@[start + k]);
    let r = (s[start] == 'i' || s[start] == 'I') && (s[start + 1] == 'n' || s[start + 1] == 'N')
        && (s[start + 2] == 'f' || s[start + 2] == 'F') && (s[start + 3] == 'i' || s[start + 3]
        == 'I') && (s[start + 4] == 'n' || s[start + 4] == 'N') && (s[start + 5] == 'i' || s[start
        + 5] == 'I') && (s[start + 6] == 't' || s[start + 6] == 'T') && (s[start + 7] == 'y' || s[
        start + 7] == 'Y');
    r
}

/// Decides `is_nan` of `s[start..]`.
fn scan_nan(s: &Vec<char>, start: usize) -> (r: bool)
    requires
        start <= s@.len(),
    ensures
        r == is_nan(s@.subrange(start as int, s@.len() as int)),
{
    let ghost t = s@.subrange(start as int, s@.len() as int);
    let n = s.len();
    if n - start != 3 {
        return false;
    }
    assert(t[0] == s@[start as int] && t[1] == s@[start + 1] && t[2] == s@[start + 2]);
    let r = (s[start] == 'n' || s[start] == 'N') && (s[start + 1] == 'a' || s[start + 1] == 'A')
        && (s[start + 2] == 'n' || s[start + 2] == 'N');
    r
}

/// Decides `is_exp` of `s[i..]`.
fn scan_exp(s: &Vec<char>, i: usize) -> (r: bool)
    requires
        i <= s@.len(),
    ensures
        r == is_exp(s@, i as int),
{
    let n = s.len();
    if i >= n || !(s[i] == 'e' || s[i] == 'E') {
        return false;
    }
    let k: usize = if i + 1 < n && (s[i + 1] == '+' || s[i + 1] == '-') {
        i + 2
    } else {
        i + 1
    };
    if k >= n {
        return false;
    }
    let j = scan_digits(s, k);
    j == n
}

/// Whether `s` is a text a 64-bit decimal parser accepts.
pub fn valid_float(s: &str) -> (r: bool)
    ensures
        r == is_valid_float(s@),
{
    let chars = crate::text::str_to_chars(s);
    valid_float_chars(&chars)
}

/// Decides `is_valid_float` of the character sequence `s`.
pub fn valid_float_chars(s: &Vec<char>) -> (r: bool)
    ensures
        r == is_valid_float(s@),
{
    let n = s.len();
    let start: usize = if n > 0 && (s[0] == '+' || s[0] == '-') {
        1
    } else {
        0
    };
    assert(start as int == strip_sign_idx(s@));
    if scan_inf(s, start) || scan_infinity(s, start) || scan_nan(s, start) {
        return true;
    }
    let j = scan_digits(s, start);
    let has_dot = j < n && s[j] == '.';
    let m: usize = if has_dot {
        scan_digits(s, j + 1)
    } else {
        j
    };
    let digits: usize = (j - start) + (if has_dot {
        m - (j + 1)
    } else {
        0
    });
    if digits < 1 {
        return false;
    }
    if m == n {
        return true;
    }
    scan_exp(s, m)
}

} // verus!
