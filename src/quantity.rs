use vstd::prelude::*;

verus! {

/// The character classes of the platform's quantity grammar
/// `^([+-]?[0-9.]+)([eEinumkKMGTP]*[-+]?[0-9]*)$`.
#[derive(Clone, Copy)]
pub enum CharClass {
    /// `[0-9.]`: the characters of the number part.
    Number,
    /// `[eEinumkKMGTP]`: the characters of the suffix letters.
    Suffix,
    /// `[-+]`: a sign.
    Sign,
    /// `[0-9]`: the characters of the exponent digits.
    Digit,
}

pub open spec fn in_class(k: CharClass, c: char) -> bool {
    match k {
        CharClass::Number => ('0' <= c && c <= '9') || c == '.',
        CharClass::Suffix => c == 'e' || c == 'E' || c == 'i' || c == 'n' || c == 'u' || c == 'm'
            || c == 'k' || c == 'K' || c == 'M' || c == 'G' || c == 'T' || c == 'P',
        CharClass::Sign => c == '-' || c == '+',
        CharClass::Digit => '0' <= c && c <= '9',
    }
}

/// Every character of `s` in `[from, to)` belongs to class `k`.
pub open spec fn all_in(s: Seq<char>, from: int, to: int, k: CharClass) -> bool {
    forall|i: int| from <= i < to ==> in_class(k, #[trigger] s[i])
}

/// `s` splits at `a <= b <= c <= e` into an optional sign, at least one number
/// character, suffix letters, an optional sign and exponent digits.
pub open spec fn quantity_split(s: Seq<char>, a: int, b: int, c: int, e: int) -> bool {
    &&& 0 <= a <= 1
    &&& a < b <= c <= e <= s.len()
    &&& all_in(s, 0, a, CharClass::Sign)
    &&& all_in(s, a, b, CharClass::Number)
    &&& all_in(s, b, c, CharClass::Suffix)
    &&& e <= c + 1
    &&& all_in(s, c, e, CharClass::Sign)
    &&& all_in(s, e, s.len() as int, CharClass::Digit)
}

/// `s` is a quantity text of the platform, such as `4Gi`, `1024Mi` or `1.5e3`.
pub open spec fn is_quantity(s: Seq<char>) -> bool {
    exists|a: int, b: int, c: int, e: int| quantity_split(s, a, b, c, e)
}

pub fn char_in_class(k: CharClass, c: char) -> (r: bool)
    ensures
        r == in_class(k, c),
{
    match k {
        CharClass::Number => ('0' <= c && c <= '9') || c == '.',
        CharClass::Suffix => c == 'e' || c == 'E' || c == 'i' || c == 'n' || c == 'u' || c == 'm'
            || c == 'k' || c == 'K' || c == 'M' || c == 'G' || c == 'T' || c == 'P',
        CharClass::Sign => c == '-' || c == '+',
        CharClass::Digit => '0' <= c && c <= '9',
    }
}

/// The end of the longest run of class `k` that starts at `from`, taking at most `max` characters.
fn run_end(s: &str, n: usize, from: usize, k: CharClass, max: usize) -> (j: usize)
    requires
        n == s@.len(),
        from <= n,
    ensures
        from <= j <= n,
        j - from <= max,
        all_in(s@, from as int, j as int, k),
        j < n && j - from < max ==> !in_class(k, s@[j as int]),
{
    let mut j = from;
    while j < n && j - from < max
        invariant
            from <= j <= n,
            n == s@.len(),
            j - from <= max,
            all_in(s@, from as int, j as int, k),
        decreases n - j,
    {
        if !char_in_class(k, s.get_char(j)) {
            return j;
        }
        j = j + 1;
    }
    j
}

/// Whether `s` is a quantity text of the platform.
pub fn is_quantity_text(s: &str) -> (r: bool)
    ensures
        r == is_quantity(s@),
{
    let n = s.unicode_len();
    let a = run_end(s, n, 0, CharClass::Sign, 1);
    let b = run_end(s, n, a, CharClass::Number, n);
    if b == a {
        proof {
            lemma_no_split(s@, a as int, b as int);
        }
        return false;
    }
    let c = run_end(s, n, b, CharClass::Suffix, n);
    let e = run_end(s, n, c, CharClass::Sign, 1);
    let f = run_end(s, n, e, CharClass::Digit, n);
    proof {
        if f == n {
            assert(quantity_split(s@, a as int, b as int, c as int, e as int));
        } else {
            lemma_greedy_complete(s@, a as int, b as int, c as int, e as int, f as int);
        }
    }
    f == n
}

/// With the greedy sign and number runs ending at `a == b`, no split exists.
proof fn lemma_no_split(s: Seq<char>, a: int, b: int)
    requires
        0 <= a <= 1,
        a <= s.len(),
        all_in(s, 0, a, CharClass::Sign),
        a < s.len() && a < 1 ==> !in_class(CharClass::Sign, s[a]),
        b == a,
        b < s.len() ==> !in_class(CharClass::Number, s[b]),
    ensures
        !is_quantity(s),
{
    if exists|a2: int, b2: int, c2: int, e2: int| quantity_split(s, a2, b2, c2, e2) {
        let (a2, b2, c2, e2) = choose|a2: int, b2: int, c2: int, e2: int|
            quantity_split(s, a2, b2, c2, e2);
        if a2 == 0 {
            assert(in_class(CharClass::Number, s[0]));
            if a == 1 {
                assert(in_class(CharClass::Sign, s[0]));
            }
        } else {
            assert(in_class(CharClass::Sign, s[0]));
            assert(in_class(CharClass::Number, s[1]));
        }
    }
}

/// When the greedy runs stop before the end, no split exists.
proof fn lemma_greedy_complete(s: Seq<char>, a: int, b: int, c: int, e: int, f: int)
    requires
        0 <= a <= 1,
        a < b <= c <= e <= f < s.len(),
        all_in(s, 0, a, CharClass::Sign),
        a < 1 ==> !in_class(CharClass::Sign, s[a]),
        all_in(s, a, b, CharClass::Number),
        !in_class(CharClass::Number, s[b]) || b == s.len(),
        all_in(s, b, c, CharClass::Suffix),
        c == s.len() || !in_class(CharClass::Suffix, s[c]),
        e <= c + 1,
        all_in(s, c, e, CharClass::Sign),
        e == c + 1 || e == s.len() || !in_class(CharClass::Sign, s[e]),
        all_in(s, e, f, CharClass::Digit),
        !in_class(CharClass::Digit, s[f]),
    ensures
        !is_quantity(s),
{
    if exists|a2: int, b2: int, c2: int, e2: int| quantity_split(s, a2, b2, c2, e2) {
        let (a2, b2, c2, e2) = choose|a2: int, b2: int, c2: int, e2: int|
            quantity_split(s, a2, b2, c2, e2);
        // The optional leading sign is taken alike.
        if a2 == 0 {
            assert(in_class(CharClass::Number, s[0]));
        } else {
            assert(in_class(CharClass::Sign, s[0]));
        }
        assert(a2 == a);
        // The number run of the split cannot reach past the greedy one.
        if b2 > b {
            assert(in_class(CharClass::Number, s[b]));
        }
        if b2 < b {
            // Position b2 is a number character, so the split has no suffix or sign there:
            // everything from b2 on is an exponent digit, and the greedy number run reaches the end.
            assert(in_class(CharClass::Number, s[b2]));
            if b2 < c2 {
                assert(in_class(CharClass::Suffix, s[b2]));
            } else if c2 < e2 {
                assert(in_class(CharClass::Sign, s[b2]));
            }
            assert(in_class(CharClass::Digit, s[b]));
        }
        assert(b2 == b);
        if c2 > c {
            assert(in_class(CharClass::Suffix, s[c]));
        }
        if c2 < c {
            assert(in_class(CharClass::Suffix, s[c2]));
            if c2 < e2 {
                assert(in_class(CharClass::Sign, s[c2]));
            } else {
                assert(in_class(CharClass::Digit, s[c2]));
            }
        }
        assert(c2 == c);
        if e2 > e {
            assert(e == c);
            assert(in_class(CharClass::Sign, s[e]));
        }
        if e2 < e {
            assert(e2 == c);
            assert(in_class(CharClass::Sign, s[c]));
            assert(in_class(CharClass::Digit, s[c]));
        }
        assert(e2 == e);
        assert(in_class(CharClass::Digit, s[f]));
    }
}

} // verus!
