//! Character-level helpers shared by the path grammars.
//!
//! Every grammar of this crate reads its input as a sequence of `char`s and
//! reports positions in that sequence. The spec functions here define the
//! primitive steps (separators, case-insensitive literals, searches); the
//! executable functions compute them.
use vstd::prelude::*;

verus! {

/// A path separator: `/` or `\`.
pub open spec fn is_sep(c: char) -> bool {
    c == '/' || c == '\\'
}

/// The code point of `c` with ASCII upper-case letters mapped to lower case.
pub open spec fn fold_ascii(c: char) -> u32 {
    let u = c as u32;
    if 65 <= u && u <= 90 {
        (u + 32) as u32
    } else {
        u
    }
}

/// `a` and `b` are equal when ASCII letters are compared without case.
pub open spec fn eq_caseless(a: char, b: char) -> bool {
    fold_ascii(a) == fold_ascii(b)
}

/// Two sequences of equal length that agree position by position, ignoring ASCII case.
pub open spec fn seq_eq_caseless(a: Seq<char>, b: Seq<char>) -> bool {
    &&& a.len() == b.len()
    &&& forall|j: int| 0 <= j < a.len() ==> eq_caseless(#[trigger] a[j], b[j])
}

/// `pat` occurs in `s` at position `i`, ignoring ASCII case.
pub open spec fn caseless_at(s: Seq<char>, i: int, pat: Seq<char>) -> bool {
    &&& 0 <= i
    &&& i + pat.len() <= s.len()
    &&& seq_eq_caseless(s.subrange(i, i + pat.len()), pat)
}

/// `pat` occurs in `s` at position `i`, exactly.
pub open spec fn exact_at(s: Seq<char>, i: int, pat: Seq<char>) -> bool {
    &&& 0 <= i
    &&& i + pat.len() <= s.len()
    &&& s.subrange(i, i + pat.len()) == pat
}

/// `s` has a separator at position `i`.
pub open spec fn sep_at(s: Seq<char>, i: int) -> bool {
    0 <= i < s.len() && is_sep(s[i])
}

/// The first position `k >= i` at which `pat` occurs in `s` ignoring ASCII case, or -1.
pub open spec fn find_caseless(s: Seq<char>, i: int, pat: Seq<char>) -> int
    decreases s.len() + 1 - i,
{
    if i < 0 || i + pat.len() > s.len() {
        -1
    } else if caseless_at(s, i, pat) {
        i
    } else {
        find_caseless(s, i + 1, pat)
    }
}

/// The end of the run of non-separator characters that starts at `i`
/// (the first separator at or after `i`, or the end of `s`).
pub open spec fn run_end(s: Seq<char>, i: int) -> int
    decreases s.len() - i,
{
    if i < 0 || i >= s.len() || is_sep(s[i]) {
        i
    } else {
        run_end(s, i + 1)
    }
}

/// The end of the run of separators that starts at `i`.
pub open spec fn sep_run_end(s: Seq<char>, i: int) -> int
    decreases s.len() - i,
{
    if i < 0 || i >= s.len() || !is_sep(s[i]) {
        i
    } else {
        sep_run_end(s, i + 1)
    }
}

/// A separator immediately followed by `#` occurs at position `i`.
pub open spec fn sep_hash_at(s: Seq<char>, i: int) -> bool {
    sep_at(s, i) && i + 1 < s.len() && s[i + 1] == '#'
}

/// The first position `k >= i` holding a separator followed by `#`, or -1.
pub open spec fn find_sep_hash(s: Seq<char>, i: int) -> int
    decreases s.len() + 1 - i,
{
    if i < 0 || i + 2 > s.len() {
        -1
    } else if sep_hash_at(s, i) {
        i
    } else {
        find_sep_hash(s, i + 1)
    }
}

/// Comparing without ASCII case is an equivalence: texts that agree without case agree
/// with the same third text.
pub proof fn lemma_seq_eq_caseless_trans(s: Seq<char>, t: Seq<char>, u: Seq<char>)
    requires
        seq_eq_caseless(s, t),
    ensures
        seq_eq_caseless(s, u) <==> seq_eq_caseless(t, u),
{
    if seq_eq_caseless(s, u) {
        assert forall|j: int| 0 <= j < t.len() implies eq_caseless(#[trigger] t[j], u[j]) by {
            assert(eq_caseless(s[j], t[j]));
            assert(eq_caseless(s[j], u[j]));
        }
    }
    if seq_eq_caseless(t, u) {
        assert forall|j: int| 0 <= j < s.len() implies eq_caseless(#[trigger] s[j], u[j]) by {
            assert(eq_caseless(s[j], t[j]));
            assert(eq_caseless(t[j], u[j]));
        }
    }
}

/// Facts about `find_caseless`: a hit is the first match at or after `i`.
pub proof fn lemma_find_caseless(s: Seq<char>, i: int, pat: Seq<char>)
    requires
        0 <= i,
    ensures
        find_caseless(s, i, pat) == -1 || i <= find_caseless(s, i, pat),
        find_caseless(s, i, pat) != -1 ==> caseless_at(s, find_caseless(s, i, pat), pat),
        forall|k: int| i <= k && (find_caseless(s, i, pat) == -1 || k < find_caseless(s, i, pat))
            ==> !#[trigger] caseless_at(s, k, pat),
    decreases s.len() + 1 - i,
{
    if i + pat.len() > s.len() {
    } else if caseless_at(s, i, pat) {
    } else {
        lemma_find_caseless(s, i + 1, pat);
    }
}

/// Facts about `run_end`: the run holds no separator and stops at one or at the end.
pub proof fn lemma_run_end(s: Seq<char>, i: int)
    requires
        0 <= i <= s.len(),
    ensures
        i <= run_end(s, i) <= s.len(),
        forall|k: int| i <= k < run_end(s, i) ==> !is_sep(#[trigger] s[k]),
        run_end(s, i) == s.len() || is_sep(s[run_end(s, i)]),
    decreases s.len() - i,
{
    if i < s.len() && !is_sep(s[i]) {
        lemma_run_end(s, i + 1);
    }
}

/// Facts about `sep_run_end`: the run holds only separators.
pub proof fn lemma_sep_run_end(s: Seq<char>, i: int)
    requires
        0 <= i <= s.len(),
    ensures
        i <= sep_run_end(s, i) <= s.len(),
        forall|k: int| i <= k < sep_run_end(s, i) ==> is_sep(#[trigger] s[k]),
        sep_run_end(s, i) == s.len() || !is_sep(s[sep_run_end(s, i)]),
    decreases s.len() - i,
{
    if i < s.len() && is_sep(s[i]) {
        lemma_sep_run_end(s, i + 1);
    }
}

/// The characters of `s`, in order.
pub fn chars_of(s: &str) -> (v: Vec<char>)
    ensures
        v@ == s@,
{
    let mut v: Vec<char> = Vec::new();
    for c in it: s.chars()
        invariant
            v@ == it.seq().take(it.index() as int),
            it.seq() == s@,
    {
        v.push(c);
    }
    v
}

/// Whether two sequences of characters are equal.
pub fn chars_eq(x: &Vec<char>, y: &Vec<char>) -> (r: bool)
    ensures
        r == (x@ == y@),
{
    if x.len() != y.len() {
        return false;
    }
    let mut i: usize = 0;
    while i < x.len()
        invariant
            x@.len() == y@.len(),
            i <= x@.len(),
            forall|k: int| 0 <= k < i ==> #[trigger] x@[k] == y@[k],
        decreases x@.len() - i,
    {
        if x[i] != y[i] {
            return false;
        }
        i = i + 1;
    }
    assert(x@ =~= y@);
    true
}

/// Whether two strings hold the same characters.
pub fn str_eq(a: &str, b: &str) -> (r: bool)
    ensures
        r == (a@ == b@),
{
    chars_eq(&chars_of(a), &chars_of(b))
}

/// Whether two strings are equal when ASCII letters are compared without case.
pub fn str_eq_caseless(a: &str, b: &str) -> (r: bool)
    ensures
        r == seq_eq_caseless(a@, b@),
{
    let x = chars_of(a);
    let y = chars_of(b);
    if x.len() != y.len() {
        return false;
    }
    assert(x@.subrange(0, x@.len() as int) =~= x@);
    caseless_at_exec(&x, 0, &y)
}

/// The code point of `c` with ASCII upper-case letters folded to lower case.
pub fn fold_char(c: char) -> (u: u32)
    ensures
        u == fold_ascii(c),
{
    let u = c as u32;
    if 65 <= u && u <= 90 {
        u + 32
    } else {
        u
    }
}

/// `c` is `/` or `\`.
pub fn is_sep_char(c: char) -> (b: bool)
    ensures
        b == is_sep(c),
{
    c == '/' || c == '\\'
}

/// Whether `s` has a separator at position `i`.
pub fn sep_at_exec(s: &Vec<char>, i: usize) -> (b: bool)
    ensures
        b == sep_at(s@, i as int),
{
    i < s.len() && is_sep_char(s[i])
}

/// Whether `pat` occurs at position `i` of `s`, ignoring ASCII case.
pub fn caseless_at_exec(s: &Vec<char>, i: usize, pat: &Vec<char>) -> (b: bool)
    ensures
        b == caseless_at(s@, i as int, pat@),
{
    if i > s.len() || pat.len() > s.len() - i {
        return false;
    }
    let ghost sub = s@.subrange(i as int, i + pat@.len());
    let mut j: usize = 0;
    while j < pat.len()
        invariant
            i + pat.len() <= s.len(),
            sub == s@.subrange(i as int, i + pat@.len()),
            j <= pat@.len(),
            forall|k: int| 0 <= k < j ==> eq_caseless(#[trigger] sub[k], pat@[k]),
        decreases pat@.len() - j,
    {
        if fold_char(s[i + j]) != fold_char(pat[j]) {
            assert(sub[j as int] == s@[i + j]);
            return false;
        }
        assert(sub[j as int] == s@[i + j]);
        j = j + 1;
    }
    true
}

/// Whether `pat` occurs exactly at position `i` of `s`.
pub fn exact_at_exec(s: &Vec<char>, i: usize, pat: &Vec<char>) -> (b: bool)
    ensures
        b == exact_at(s@, i as int, pat@),
{
    if i > s.len() || pat.len() > s.len() - i {
        return false;
    }
    let ghost sub = s@.subrange(i as int, i + pat@.len());
    let mut j: usize = 0;
    while j < pat.len()
        invariant
            i + pat.len() <= s.len(),
            sub == s@.subrange(i as int, i + pat@.len()),
            j <= pat@.len(),
            forall|k: int| 0 <= k < j ==> #[trigger] sub[k] == pat@[k],
        decreases pat@.len() - j,
    {
        if s[i + j] != pat[j] {
            assert(sub[j as int] == s@[i + j]);
            return false;
        }
        assert(sub[j as int] == s@[i + j]);
        j = j + 1;
    }
    assert(sub =~= pat@);
    true
}

/// The first position at or after `from` where `pat` occurs ignoring ASCII case.
pub fn find_caseless_exec(s: &Vec<char>, from: usize, pat: &Vec<char>) -> (r: Option<usize>)
    ensures
        match r {
            Some(k) => k as int == find_caseless(s@, from as int, pat@),
            None => find_caseless(s@, from as int, pat@) == -1,
        },
{
    let mut i = from;
    while i <= s.len() && pat.len() <= s.len() - i
        invariant
            from <= i,
            find_caseless(s@, from as int, pat@) == find_caseless(s@, i as int, pat@),
        decreases s@.len() + 1 - i,
    {
        if caseless_at_exec(s, i, pat) {
            return Some(i);
        }
        i = i + 1;
    }
    None
}

/// The end of the run of non-separators starting at `from`.
pub fn run_end_exec(s: &Vec<char>, from: usize) -> (r: usize)
    requires
        from <= s@.len(),
    ensures
        r as int == run_end(s@, from as int),
{
    let mut i = from;
    while i < s.len() && !is_sep_char(s[i])
        invariant
            from <= i <= s@.len(),
            run_end(s@, from as int) == run_end(s@, i as int),
        decreases s@.len() - i,
    {
        i = i + 1;
    }
    i
}

/// The end of the run of separators starting at `from`.
pub fn sep_run_end_exec(s: &Vec<char>, from: usize) -> (r: usize)
    requires
        from <= s@.len(),
    ensures
        r as int == sep_run_end(s@, from as int),
{
    let mut i = from;
    while i < s.len() && is_sep_char(s[i])
        invariant
            from <= i <= s@.len(),
            sep_run_end(s@, from as int) == sep_run_end(s@, i as int),
        decreases s@.len() - i,
    {
        i = i + 1;
    }
    i
}

/// The first position at or after `from` holding a separator followed by `#`.
pub fn find_sep_hash_exec(s: &Vec<char>, from: usize) -> (r: Option<usize>)
    ensures
        match r {
            Some(k) => k as int == find_sep_hash(s@, from as int),
            None => find_sep_hash(s@, from as int) == -1,
        },
{
    let mut i = from;
    while i < s.len() && 2 <= s.len() - i
        invariant
            from <= i,
            find_sep_hash(s@, from as int) == find_sep_hash(s@, i as int),
        decreases s@.len() + 1 - i,
    {
        if is_sep_char(s[i]) && s[i + 1] == '#' {
            return Some(i);
        }
        i = i + 1;
    }
    None
}

/// The decimal digit character of `d` (for `d < 10`).
pub open spec fn digit_char(d: nat) -> char {
    if d == 0 {
        '0'
    } else if d == 1 {
        '1'
    } else if d == 2 {
        '2'
    } else if d == 3 {
        '3'
    } else if d == 4 {
        '4'
    } else if d == 5 {
        '5'
    } else if d == 6 {
        '6'
    } else if d == 7 {
        '7'
    } else if d == 8 {
        '8'
    } else if d == 9 {
        '9'
    } else {
        '?'
    }
}

/// The decimal text of `n`, without leading zeros.
pub open spec fn decimal(n: nat) -> Seq<char>
    decreases n,
{
    if n < 10 {
        seq![digit_char(n)]
    } else {
        decimal(n / 10).push(digit_char(n % 10))
    }
}

/// A decimal text has one digit exactly for the numbers below 10.
pub proof fn lemma_decimal_len(n: nat)
    ensures
        decimal(n).len() >= 1,
        decimal(n).len() == 1 <==> n < 10,
    decreases n,
{
    if n >= 10 {
        lemma_decimal_len(n / 10);
    }
}

/// Different numbers have different decimal texts.
pub proof fn lemma_decimal_injective(a: nat, b: nat)
    ensures
        decimal(a) == decimal(b) ==> a == b,
    decreases a,
{
    if decimal(a) == decimal(b) {
        lemma_decimal_len(a);
        lemma_decimal_len(b);
        if a >= 10 {
            assert(decimal(a).drop_last() =~= decimal(a / 10));
            assert(decimal(b).drop_last() =~= decimal(b / 10));
            assert(decimal(a).last() == digit_char(a % 10));
            assert(decimal(b).last() == digit_char(b % 10));
            lemma_decimal_injective(a / 10, b / 10);
        } else {
            assert(decimal(a)[0] == digit_char(a));
            assert(decimal(b)[0] == digit_char(b));
        }
    }
}

fn digit_str(d: u64) -> (r: &'static str)
    requires
        d < 10,
    ensures
        r@ == seq![digit_char(d as nat)],
{
    if d == 0 {
        proof {
            reveal_strlit("0");
        }
        "0"
    } else if d == 1 {
        proof {
            reveal_strlit("1");
        }
        "1"
    } else if d == 2 {
        proof {
            reveal_strlit("2");
        }
        "2"
    } else if d == 3 {
        proof {
            reveal_strlit("3");
        }
        "3"
    } else if d == 4 {
        proof {
            reveal_strlit("4");
        }
        "4"
    } else if d == 5 {
        proof {
            reveal_strlit("5");
        }
        "5"
    } else if d == 6 {
        proof {
            reveal_strlit("6");
        }
        "6"
    } else if d == 7 {
        proof {
            reveal_strlit("7");
        }
        "7"
    } else if d == 8 {
        proof {
            reveal_strlit("8");
        }
        "8"
    } else {
        proof {
            reveal_strlit("9");
        }
        "9"
    }
}

/// The decimal text of `n`.
pub fn u64_to_decimal(n: u64) -> (r: String)
    ensures
        r@ == decimal(n as nat),
    decreases n,
{
    if n < 10 {
        String::from_str(digit_str(n))
    } else {
        let mut r = u64_to_decimal(n / 10);
        r.append(digit_str(n % 10));
        r
    }
}

/// `c` with an ASCII lower-case letter mapped to upper case.
pub open spec fn upper_ascii(c: char) -> char {
    if 'a' <= c && c <= 'z' {
        ((c as u32) - 32) as char
    } else {
        c
    }
}

/// `s` with its ASCII lower-case letters mapped to upper case.
pub open spec fn ascii_uppercase(s: Seq<char>) -> Seq<char> {
    s.map_values(|c: char| upper_ascii(c))
}

fn upper_letter(c: char) -> (r: &'static str)
    requires
        'a' <= c && c <= 'z',
    ensures
        r@ == seq![upper_ascii(c)],
{
    let r = if c == 'a' { "A" } else if c == 'b' { "B" } else if c == 'c' { "C" } else if c == 'd' { "D" } else if c == 'e' { "E" } else if c == 'f' { "F" } else if c == 'g' { "G" } else if c == 'h' { "H" } else if c == 'i' { "I" } else if c == 'j' { "J" } else if c == 'k' { "K" } else if c == 'l' { "L" } else if c == 'm' { "M" } else if c == 'n' { "N" } else if c == 'o' { "O" } else if c == 'p' { "P" } else if c == 'q' { "Q" } else if c == 'r' { "R" } else if c == 's' { "S" } else if c == 't' { "T" } else if c == 'u' { "U" } else if c == 'v' { "V" } else if c == 'w' { "W" } else if c == 'x' { "X" } else if c == 'y' { "Y" } else { "Z" };
    proof {
        reveal_strlit("A");
        reveal_strlit("B");
        reveal_strlit("C");
        reveal_strlit("D");
        reveal_strlit("E");
        reveal_strlit("F");
        reveal_strlit("G");
        reveal_strlit("H");
        reveal_strlit("I");
        reveal_strlit("J");
        reveal_strlit("K");
        reveal_strlit("L");
        reveal_strlit("M");
        reveal_strlit("N");
        reveal_strlit("O");
        reveal_strlit("P");
        reveal_strlit("Q");
        reveal_strlit("R");
        reveal_strlit("S");
        reveal_strlit("T");
        reveal_strlit("U");
        reveal_strlit("V");
        reveal_strlit("W");
        reveal_strlit("X");
        reveal_strlit("Y");
        reveal_strlit("Z");
    }
    r
}

/// A text in ASCII upper case, e.g. `_1HMEQP` for `_1hmeqp`.
pub fn to_ascii_uppercase(s: &str) -> (r: String)
    ensures
        r@ == ascii_uppercase(s@),
{
    let chars = chars_of(s);
    let mut r = String::new();
    let mut i: usize = 0;
    while i < chars.len()
        invariant
            chars@ == s@,
            i <= chars@.len(),
            r@ =~= ascii_uppercase(s@).take(i as int),
        decreases chars@.len() - i,
    {
        let c = chars[i];
        if 'a' <= c && c <= 'z' {
            r.append(upper_letter(c));
        } else {
            r.append(s.substring_char(i, i + 1));
        }
        assert(ascii_uppercase(s@).take(i + 1) =~= ascii_uppercase(s@).take(i as int).push(upper_ascii(c)));
        i = i + 1;
    }
    r
}

/// Upper-casing keeps a text equal to itself when ASCII case is ignored.
pub proof fn lemma_uppercase_caseless(s: Seq<char>)
    ensures
        seq_eq_caseless(ascii_uppercase(s), s),
{
    assert forall|j: int| 0 <= j < s.len() implies eq_caseless(#[trigger] ascii_uppercase(s)[j], s[j]) by {
        let c = s[j];
        if 'a' <= c && c <= 'z' {
            assert(ascii_uppercase(s)[j] == upper_ascii(c));
        }
    }
}

} // verus!
