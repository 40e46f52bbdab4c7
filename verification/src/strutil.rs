//! Verified helpers over strings viewed as sequences of characters:
//! whitespace scanning, trimming, prefix tests, and decimal rendering.
use vstd::prelude::*;
use vstd::string::StrSliceExecFns;
use vstd::string::StringExecFns;

verus! {

/// The whitespace characters the parser recognises.
pub open spec fn is_ws(c: char) -> bool {
    c == ' ' || c == '\t' || c == '\r' || c == '\n'
}

pub fn is_ws_char(c: char) -> (r: bool)
    ensures
        r == is_ws(c),
{
    c == ' ' || c == '\t' || c == '\r' || c == '\n'
}

/// Index of the first position at or after `i` whose character satisfies
/// `is_ws == stop_ws`; the length of `s` if there is none.
pub open spec fn scan(s: Seq<char>, i: int, stop_ws: bool) -> int
    decreases s.len() - i,
{
    if i < 0 || i >= s.len() {
        s.len() as int
    } else if is_ws(s[i]) == stop_ws {
        i
    } else {
        scan(s, i + 1, stop_ws)
    }
}

pub proof fn lemma_scan_bounds(s: Seq<char>, i: int, stop_ws: bool)
    requires
        0 <= i <= s.len(),
    ensures
        i <= scan(s, i, stop_ws) <= s.len(),
        forall|k: int| i <= k < scan(s, i, stop_ws) ==> is_ws(s[k]) != stop_ws,
        scan(s, i, stop_ws) < s.len() ==> is_ws(s[scan(s, i, stop_ws)]) == stop_ws,
    decreases s.len() - i,
{
    if i < s.len() && is_ws(s[i]) != stop_ws {
        lemma_scan_bounds(s, i + 1, stop_ws);
    }
}

pub fn scan_from(s: &str, from: usize, stop_ws: bool) -> (j: usize)
    requires
        from <= s@.len(),
    ensures
        j == scan(s@, from as int, stop_ws),
{
    let n = s.unicode_len();
    let mut i = from;
    while i < n
        invariant
            from <= i <= n,
            n == s@.len(),
            scan(s@, from as int, stop_ws) == scan(s@, i as int, stop_ws),
        decreases n - i,
    {
        let c = s.get_char(i);
        if is_ws_char(c) == stop_ws {
            proof {
                assert(scan(s@, i as int, stop_ws) == i as int);
            }
            return i;
        }
        proof {
            assert(scan(s@, i as int, stop_ws) == scan(s@, i as int + 1, stop_ws));
        }
        i += 1;
    }
    i
}

/// Index of the first occurrence of `ch` at or after `i`; the length of `s`
/// if there is none.
pub open spec fn scan_char(s: Seq<char>, i: int, ch: char) -> int
    decreases s.len() - i,
{
    if i < 0 || i >= s.len() {
        s.len() as int
    } else if s[i] == ch {
        i
    } else {
        scan_char(s, i + 1, ch)
    }
}

pub fn find_char(s: &str, ch: char) -> (r: Option<usize>)
    ensures
        match r {
            Some(j) => j == scan_char(s@, 0, ch) && j < s@.len(),
            None => scan_char(s@, 0, ch) == s@.len(),
        },
{
    let n = s.unicode_len();
    let mut i: usize = 0;
    while i < n
        invariant
            i <= n,
            n == s@.len(),
            scan_char(s@, 0, ch) == scan_char(s@, i as int, ch),
        decreases n - i,
    {
        if s.get_char(i) == ch {
            proof {
                assert(scan_char(s@, i as int, ch) == i as int);
            }
            return Some(i);
        }
        proof {
            assert(scan_char(s@, i as int, ch) == scan_char(s@, i as int + 1, ch));
        }
        i += 1;
    }
    None
}

/// What is left of `s` once leading whitespace is removed.
pub open spec fn trim_start_spec(s: Seq<char>) -> Seq<char>
    decreases s.len(),
{
    if s.len() > 0 && is_ws(s[0]) {
        trim_start_spec(s.drop_first())
    } else {
        s
    }
}

/// What is left of `s` once trailing whitespace is removed.
pub open spec fn trim_end_spec(s: Seq<char>) -> Seq<char>
    decreases s.len(),
{
    if s.len() > 0 && is_ws(s.last()) {
        trim_end_spec(s.drop_last())
    } else {
        s
    }
}

/// What is left of `s` once whitespace is removed from both ends.
pub open spec fn trim_spec(s: Seq<char>) -> Seq<char> {
    trim_start_spec(trim_end_spec(s))
}

pub proof fn lemma_trim_start_skip(s: Seq<char>, i: int)
    requires
        0 <= i <= s.len(),
        forall|k: int| 0 <= k < i ==> is_ws(s[k]),
        i == s.len() || !is_ws(s[i]),
    ensures
        trim_start_spec(s) == s.skip(i),
    decreases i,
{
    if i == 0 {
        assert(s.skip(0) =~= s);
    } else {
        assert(is_ws(s[0]));
        assert(s.drop_first() =~= s.skip(1));
        lemma_trim_start_skip(s.skip(1), i - 1);
        assert(s.skip(1).skip(i - 1) =~= s.skip(i));
    }
}

pub proof fn lemma_trim_end_take(s: Seq<char>, j: int)
    requires
        0 <= j <= s.len(),
        forall|k: int| j <= k < s.len() ==> is_ws(s[k]),
        j == 0 || !is_ws(s[j - 1]),
    ensures
        trim_end_spec(s) == s.take(j),
    decreases s.len(),
{
    if j == s.len() {
        assert(s.take(j) =~= s);
    } else {
        assert(is_ws(s.last()));
        assert(s.drop_last() =~= s.take(s.len() - 1));
        lemma_trim_end_take(s.take(s.len() - 1), j);
        assert(s.take(s.len() - 1).take(j) =~= s.take(j));
    }
}

pub fn trim_str(s: &str) -> (r: &str)
    ensures
        r@ == trim_spec(s@),
{
    let n = s.unicode_len();
    let mut b = n;
    while b > 0 && is_ws_char(s.get_char(b - 1))
        invariant
            b <= n,
            n == s@.len(),
            forall|k: int| b <= k < n ==> is_ws(s@[k]),
        decreases b,
    {
        b -= 1;
    }
    proof {
        lemma_trim_end_take(s@, b as int);
    }
    if b == 0 {
        let r = s.substring_char(0, 0);
        proof {
            assert(s@.subrange(0, 0) =~= Seq::<char>::empty());
            assert(trim_end_spec(s@) =~= Seq::<char>::empty());
        }
        r
    } else {
        let a = scan_from(s, 0, false);
        proof {
            lemma_scan_bounds(s@, 0, false);
            assert(!is_ws(s@[b - 1]));
            assert(a < b);
        }
        let r = s.substring_char(a, b);
        proof {
            lemma_trim_start_skip(s@.take(b as int), a as int);
            assert(s@.take(b as int).skip(a as int) =~= s@.subrange(a as int, b as int));
        }
        r
    }
}

/// `p` is an initial segment of `s`.
pub open spec fn spec_starts_with(s: Seq<char>, p: Seq<char>) -> bool {
    s.len() >= p.len() && s.subrange(0, p.len() as int) == p
}

pub fn str_starts_with(s: &str, p: &str) -> (r: bool)
    ensures
        r == spec_starts_with(s@, p@),
{
    let np = p.unicode_len();
    let ns = s.unicode_len();
    if np > ns {
        return false;
    }
    let mut i: usize = 0;
    while i < np
        invariant
            i <= np,
            np == p@.len(),
            ns == s@.len(),
            np <= ns,
            forall|k: int| 0 <= k < i ==> s@[k] == p@[k],
        decreases np - i,
    {
        if s.get_char(i) != p.get_char(i) {
            proof {
                assert(s@.subrange(0, p@.len() as int)[i as int] != p@[i as int]);
            }
            return false;
        }
        i += 1;
    }
    proof {
        assert(s@.subrange(0, p@.len() as int) =~= p@);
    }
    true
}

pub fn str_eq(a: &str, b: &str) -> (r: bool)
    ensures
        r == (a@ == b@),
{
    let x = a.to_owned();
    let y = b.to_owned();
    x == y
}

/// The character that renders the decimal digit `d`.
pub open spec fn spec_digit(d: int) -> char {
    if d == 0 {
        '0'
    } else if d == 1 {
        '1'
    } else if d == 2 {
        '2'
    } else if d == 3 {
        '3'
    } else if d == 4 {
        '4'
    } else if d == 5 {
        '5'
    } else if d == 6 {
        '6'
    } else if d == 7 {
        '7'
    } else if d == 8 {
        '8'
    } else {
        '9'
    }
}

/// The decimal rendering of a non-negative integer, most significant digit
/// first, with no leading zeros (a single `'0'` for zero).
pub open spec fn spec_decimal(n: int) -> Seq<char>
    decreases n,
{
    if n < 10 {
        seq![spec_digit(n)]
    } else {
        spec_decimal(n / 10) + seq![spec_digit(n % 10)]
    }
}

fn digit_str(d: u64) -> (r: &'static str)
    requires
        d < 10,
    ensures
        r@ == seq![spec_digit(d as int)],
{
    proof {
        reveal_strlit("0");
        reveal_strlit("1");
        reveal_strlit("2");
        reveal_strlit("3");
        reveal_strlit("4");
        reveal_strlit("5");
        reveal_strlit("6");
        reveal_strlit("7");
        reveal_strlit("8");
        reveal_strlit("9");
    }
    let r = if d == 0 {
        "0"
    } else if d == 1 {
        "1"
    } else if d == 2 {
        "2"
    } else if d == 3 {
        "3"
    } else if d == 4 {
        "4"
    } else if d == 5 {
        "5"
    } else if d == 6 {
        "6"
    } else if d == 7 {
        "7"
    } else if d == 8 {
        "8"
    } else {
        "9"
    };
    proof {
        assert(r@ =~= seq![spec_digit(d as int)]);
    }
    r
}

pub fn u64_to_string(n: u64) -> (r: String)
    ensures
        r@ == spec_decimal(n as int),
{
    if n == 0 {
        let r = digit_str(0).to_owned();
        return r;
    }
    let mut acc = String::new();
    let mut m = n;
    while m > 0
        invariant
            m > 0 ==> spec_decimal(n as int) == spec_decimal(m as int) + acc@,
            m == 0 ==> spec_decimal(n as int) == acc@,
        decreases m,
    {
        let d = m % 10;
        let ds = digit_str(d).to_owned();
        let step = ds.concat(acc.as_str());
        proof {
            assert(m / 10 == 0 ==> m < 10) by (nonlinear_arith);
            assert(m >= 10 ==> m / 10 > 0) by (nonlinear_arith);
            if m >= 10 {
                assert(spec_decimal(m as int) == spec_decimal(m as int / 10) + seq![
                    spec_digit(m as int % 10),
                ]);
                assert(spec_decimal(m as int / 10) + (seq![spec_digit(m as int % 10)] + acc@)
                    =~= (spec_decimal(m as int / 10) + seq![spec_digit(m as int % 10)]) + acc@);
            } else {
                assert(spec_decimal(m as int) == seq![spec_digit(m as int)]);
            }
        }
        acc = step;
        m = m / 10;
    }
    acc
}

} // verus!
