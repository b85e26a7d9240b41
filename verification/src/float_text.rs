//! The syntax of decimal floating-point text as the standard library's float
//! parser accepts it. Its documented grammar, applied after ASCII lower-casing:
//!
//! ```text
//! Float  ::= Sign? ( 'inf' | 'infinity' | 'nan' | Number )
//! Number ::= ( Digit+ | Digit+ '.' Digit* | Digit* '.' Digit+ ) Exp?
//! Exp    ::= 'e' Sign? Digit+
//! Sign   ::= [+-]
//! Digit  ::= [0-9]
//! ```
//!
//! Text of this form parses to a number (possibly infinite); any other text,
//! surrounding whitespace included, is refused. The decoders use this to decide
//! exactly which exchange fields hold a number; the conversion to a double is
//! left to the caller.

use vstd::prelude::*;

verus! {

/// An ASCII decimal digit.
pub open spec fn is_digit(c: char) -> bool {
    '0' <= c && c <= '9'
}

/// Every character is a digit.
pub open spec fn all_digits(s: Seq<char>) -> bool {
    forall|i: int| 0 <= i < s.len() ==> is_digit(#[trigger] s[i])
}

/// The number of leading digits.
pub open spec fn digit_run(s: Seq<char>) -> nat
    decreases s.len(),
{
    if s.len() > 0 && is_digit(s[0]) {
        1 + digit_run(s.drop_first())
    } else {
        0
    }
}

/// The text without one leading sign.
pub open spec fn strip_sign(s: Seq<char>) -> Seq<char> {
    if s.len() > 0 && (s[0] == '+' || s[0] == '-') {
        s.drop_first()
    } else {
        s
    }
}

/// `s` spells a word given in lower and in upper case, each letter in either case.
pub open spec fn is_word_ci(s: Seq<char>, lower: Seq<char>, upper: Seq<char>) -> bool {
    &&& s.len() == lower.len()
    &&& s.len() == upper.len()
    &&& forall|i: int| 0 <= i < s.len() ==> (#[trigger] s[i] == lower[i] || s[i] == upper[i])
}

/// Nothing, or an exponent marker followed by an optionally signed run of digits.
pub open spec fn exponent_syntax(t: Seq<char>) -> bool {
    t.len() == 0 || ((t[0] == 'e' || t[0] == 'E') && strip_sign(t.drop_first()).len() > 0
        && all_digits(strip_sign(t.drop_first())))
}

/// `Number` of the grammar: digits, an optional fraction, at least one digit
/// in all, then an optional exponent.
pub open spec fn number_syntax(b: Seq<char>) -> bool {
    let i = digit_run(b);
    let rest = b.skip(i as int);
    if rest.len() > 0 && rest[0] == '.' {
        let frac = rest.drop_first();
        let f = digit_run(frac);
        i + f > 0 && exponent_syntax(frac.skip(f as int))
    } else {
        i > 0 && exponent_syntax(rest)
    }
}

/// `Float` of the grammar.
pub open spec fn float_syntax(s: Seq<char>) -> bool {
    let b = strip_sign(s);
    ||| is_word_ci(b, seq!['i', 'n', 'f'], seq!['I', 'N', 'F'])
    ||| is_word_ci(
        b,
        seq!['i', 'n', 'f', 'i', 'n', 'i', 't', 'y'],
        seq!['I', 'N', 'F', 'I', 'N', 'I', 'T', 'Y'],
    )
    ||| is_word_ci(b, seq!['n', 'a', 'n'], seq!['N', 'A', 'N'])
    ||| number_syntax(b)
}

/// The characters of a string.
pub fn chars_of(s: &str) -> (v: Vec<char>)
    ensures
        v@ == s@,
{
    let mut v: Vec<char> = Vec::new();
    for c in it: s.chars()
        invariant
            v@ == it.seq().take(it.index() as int),
    {
        v.push(c);
    }
    assert(v@ == s@);
    v
}

proof fn lemma_digit_run_exact(s: Seq<char>, n: int)
    requires
        0 <= n <= s.len(),
        forall|j: int| 0 <= j < n ==> is_digit(#[trigger] s[j]),
        n == s.len() || !is_digit(s[n]),
    ensures
        digit_run(s) == n,
    decreases n,
{
    if n > 0 {
        let t = s.drop_first();
        assert forall|j: int| 0 <= j < n - 1 implies is_digit(#[trigger] t[j]) by {
            assert(t[j] == s[j + 1]);
        }
        if n < s.len() {
            assert(t[n - 1] == s[n]);
        }
        lemma_digit_run_exact(t, n - 1);
    }
}

/// The end of the run of digits that starts at `from`.
fn scan_digits(cs: &Vec<char>, from: usize) -> (end: usize)
    requires
        from <= cs@.len(),
    ensures
        from <= end <= cs@.len(),
        end - from == digit_run(cs@.skip(from as int)),
{
    let mut i = from;
    while i < cs.len() && '0' <= cs[i] && cs[i] <= '9'
        invariant
            from <= i <= cs@.len(),
            forall|j: int| from <= j < i ==> is_digit(#[trigger] cs@[j]),
        decreases cs@.len() - i,
    {
        i = i + 1;
    }
    proof {
        let t = cs@.skip(from as int);
        assert forall|j: int| 0 <= j < i - from implies is_digit(#[trigger] t[j]) by {
            assert(t[j] == cs@[from + j]);
        }
        if i < cs@.len() {
            assert(t[i - from] == cs@[i as int]);
        }
        lemma_digit_run_exact(t, i - from);
    }
    i
}

/// Whether the characters from `from` on spell the word given in lower and
/// upper case, each letter in either case.
fn word_ci_at(cs: &Vec<char>, from: usize, lower: &[char], upper: &[char]) -> (r: bool)
    requires
        from <= cs@.len(),
        lower@.len() == upper@.len(),
    ensures
        r == is_word_ci(cs@.skip(from as int), lower@, upper@),
{
    let n = cs.len();
    if n - from != lower.len() {
        return false;
    }
    let mut i: usize = 0;
    while i < lower.len()
        invariant
            0 <= i <= lower@.len(),
            lower@.len() == upper@.len(),
            from + lower@.len() == n,
            n == cs@.len(),
            forall|k: int|
                0 <= k < i ==> (#[trigger] cs@.skip(from as int)[k] == lower@[k] || cs@.skip(
                    from as int,
                )[k] == upper@[k]),
        decreases lower@.len() - i,
    {
        let c = cs[from + i];
        assert(cs@.skip(from as int)[i as int] == c);
        if c != lower[i] && c != upper[i] {
            return false;
        }
        i = i + 1;
    }
    true
}

/// Whether the characters from `from` on form an exponent or nothing.
fn exponent_at(cs: &Vec<char>, from: usize) -> (r: bool)
    requires
        from <= cs@.len(),
    ensures
        r == exponent_syntax(cs@.skip(from as int)),
{
    let ghost t = cs@.skip(from as int);
    if from == cs.len() {
        return true;
    }
    assert(t[0] == cs@[from as int]);
    if cs[from] != 'e' && cs[from] != 'E' {
        return false;
    }
    let mut i = from + 1;
    if i < cs.len() && (cs[i] == '+' || cs[i] == '-') {
        i = i + 1;
    }
    proof {
        let u = t.drop_first();
        assert(u == cs@.skip(from + 1));
        if from + 1 < cs@.len() {
            assert(u[0] == cs@[from + 1]);
        }
        assert(strip_sign(u) == cs@.skip(i as int));
    }
    if i == cs.len() {
        return false;
    }
    let end = scan_digits(cs, i);
    proof {
        let v = cs@.skip(i as int);
        if end == cs@.len() {
            assert forall|j: int| 0 <= j < v.len() implies is_digit(#[trigger] v[j]) by {
                lemma_digit_run_prefix(v, j);
            }
        } else {
            lemma_digit_run_stops(v);
        }
    }
    end == cs.len()
}

proof fn lemma_digit_run_prefix(s: Seq<char>, j: int)
    requires
        0 <= j < digit_run(s),
    ensures
        is_digit(s[j]),
    decreases j,
{
    lemma_digit_run_stops(s);
    if j > 0 {
        lemma_digit_run_prefix(s.drop_first(), j - 1);
        assert(s.drop_first()[j - 1] == s[j]);
    }
}

proof fn lemma_digit_run_stops(s: Seq<char>)
    ensures
        digit_run(s) <= s.len(),
        digit_run(s) < s.len() ==> !is_digit(s[digit_run(s) as int]),
    decreases s.len(),
{
    if s.len() > 0 && is_digit(s[0]) {
        lemma_digit_run_stops(s.drop_first());
    }
}

/// Whether `s` is decimal floating-point text that the standard library's
/// float parser accepts.
pub fn is_float_text(s: &str) -> (r: bool)
    ensures
        r == float_syntax(s@),
{
    let cs = chars_of(s);
    let mut start: usize = 0;
    if cs.len() > 0 && (cs[0] == '+' || cs[0] == '-') {
        start = 1;
    }
    let ghost b = cs@.skip(start as int);
    assert(b == strip_sign(s@));
    if word_ci_at(&cs, start, &['i', 'n', 'f'], &['I', 'N', 'F']) || word_ci_at(
        &cs,
        start,
        &['i', 'n', 'f', 'i', 'n', 'i', 't', 'y'],
        &['I', 'N', 'F', 'I', 'N', 'I', 'T', 'Y'],
    ) || word_ci_at(&cs, start, &['n', 'a', 'n'], &['N', 'A', 'N']) {
        return true;
    }
    let int_end = scan_digits(&cs, start);
    proof {
        lemma_digit_run_stops(b);
        assert(b.skip(digit_run(b) as int) == cs@.skip(int_end as int));
    }
    if int_end < cs.len() && cs[int_end] == '.' {
        let frac_end = scan_digits(&cs, int_end + 1);
        proof {
            let rest = cs@.skip(int_end as int);
            assert(rest[0] == cs@[int_end as int]);
            assert(rest.drop_first() == cs@.skip(int_end + 1));
            assert(rest.drop_first().skip(digit_run(rest.drop_first()) as int) == cs@.skip(
                frac_end as int,
            ));
        }
        if int_end - start + (frac_end - int_end - 1) == 0 {
            return false;
        }
        exponent_at(&cs, frac_end)
    } else {
        proof {
            if int_end < cs@.len() {
                assert(cs@.skip(int_end as int)[0] == cs@[int_end as int]);
            }
        }
        if int_end == start {
            return false;
        }
        exponent_at(&cs, int_end)
    }
}

/// Decimal text of any length is a float: digits, a point and digits, with
/// at least one digit in all, optionally signed, and plain runs of digits.
pub proof fn lemma_decimal_text_is_float(d1: Seq<char>, d2: Seq<char>)
    requires
        all_digits(d1),
        all_digits(d2),
        d1.len() + d2.len() > 0,
    ensures
        float_syntax(d1 + seq!['.'] + d2),
        float_syntax(seq!['-'] + d1 + seq!['.'] + d2),
        float_syntax(seq!['+'] + d1 + seq!['.'] + d2),
        d1.len() > 0 ==> float_syntax(d1),
        d1.len() > 0 ==> float_syntax(seq!['-'] + d1),
{
    let b = d1 + seq!['.'] + d2;
    lemma_digit_run_exact(b, d1.len() as int);
    let rest = b.skip(d1.len() as int);
    assert(rest == seq!['.'] + d2);
    assert(rest.drop_first() == d2);
    lemma_digit_run_exact(d2, d2.len() as int);
    assert(d2.skip(d2.len() as int).len() == 0);
    assert(number_syntax(b));
    if d1.len() > 0 {
        assert(strip_sign(b) == b);
    } else {
        assert(b[0] == '.');
        assert(strip_sign(b) == b);
    }
    assert((seq!['-'] + b).drop_first() == b);
    assert((seq!['+'] + b).drop_first() == b);
    assert(seq!['-'] + d1 + seq!['.'] + d2 == seq!['-'] + b);
    assert(seq!['+'] + d1 + seq!['.'] + d2 == seq!['+'] + b);
    if d1.len() > 0 {
        lemma_digit_run_exact(d1, d1.len() as int);
        assert(d1.skip(d1.len() as int).len() == 0);
        assert(number_syntax(d1));
        assert(strip_sign(d1) == d1);
        assert((seq!['-'] + d1).drop_first() == d1);
    }
}

} // verus!
