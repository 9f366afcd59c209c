//! Small verified string utilities: blank tests, trimming, and the decimal
//! and clock renderings used when events are written out as text.

use vstd::prelude::*;

verus! {

/// The whitespace characters the engine recognizes when it trims user input.
pub open spec fn is_blank_char(c: char) -> bool {
    c == ' ' || c == '\t' || c == '\n' || c == '\r'
}

/// A string is blank when every character of it is whitespace.
pub open spec fn all_blank(s: Seq<char>) -> bool {
    forall|i: int| 0 <= i < s.len() ==> is_blank_char(s[i])
}

fn blank_char(c: char) -> (r: bool)
    ensures
        r == is_blank_char(c),
{
    c == ' ' || c == '\t' || c == '\n' || c == '\r'
}

/// True exactly when the string is empty or consists of whitespace only.
pub fn is_blank(s: &str) -> (r: bool)
    ensures
        r == all_blank(s@),
{
    let n = s.unicode_len();
    let mut i: usize = 0;
    while i < n
        invariant
            n == s@.len(),
            0 <= i <= n,
            forall|j: int| 0 <= j < i ==> is_blank_char(s@[j]),
        decreases n - i,
    {
        if !blank_char(s.get_char(i)) {
            return false;
        }
        i = i + 1;
    }
    true
}

/// The string with its leading whitespace removed.
pub open spec fn trim_front(s: Seq<char>) -> Seq<char>
    decreases s.len(),
{
    if s.len() > 0 && is_blank_char(s.first()) {
        trim_front(s.drop_first())
    } else {
        s
    }
}

/// The string with its trailing whitespace removed.
pub open spec fn trim_back(s: Seq<char>) -> Seq<char>
    decreases s.len(),
{
    if s.len() > 0 && is_blank_char(s.last()) {
        trim_back(s.drop_last())
    } else {
        s
    }
}

/// The string with whitespace removed from both ends.
pub open spec fn trim_blanks(s: Seq<char>) -> Seq<char> {
    trim_back(trim_front(s))
}

proof fn lemma_trim_front_is_subrange(s: Seq<char>, k: int)
    requires
        0 <= k <= s.len(),
        forall|j: int| 0 <= j < k ==> is_blank_char(s[j]),
        k < s.len() ==> !is_blank_char(s[k]),
    ensures
        trim_front(s) =~= s.subrange(k, s.len() as int),
    decreases k,
{
    if k == 0 {
        if s.len() == 0 {
        } else {
            assert(!is_blank_char(s.first()));
        }
    } else {
        assert(is_blank_char(s.first()));
        lemma_trim_front_is_subrange(s.drop_first(), k - 1);
        assert(s.drop_first().subrange(k - 1, s.drop_first().len() as int) =~= s.subrange(
            k,
            s.len() as int,
        ));
    }
}

proof fn lemma_trim_back_is_subrange(s: Seq<char>, k: int)
    requires
        0 <= k <= s.len(),
        forall|j: int| k <= j < s.len() ==> is_blank_char(s[j]),
        k > 0 ==> !is_blank_char(s[k - 1]),
    ensures
        trim_back(s) =~= s.subrange(0, k),
    decreases s.len() - k,
{
    if k == s.len() {
        if s.len() == 0 {
        } else {
            assert(!is_blank_char(s.last()));
            assert(trim_back(s) =~= s.subrange(0, k));
        }
    } else {
        assert(is_blank_char(s.last()));
        lemma_trim_back_is_subrange(s.drop_last(), k);
        assert(s.drop_last().subrange(0, k) =~= s.subrange(0, k));
    }
}

/// A copy of the string with whitespace removed from both ends.
pub fn trimmed(s: &str) -> (r: String)
    ensures
        r@ == trim_blanks(s@),
{
    let n = s.unicode_len();
    let mut lo: usize = 0;
    while lo < n && blank_char(s.get_char(lo))
        invariant
            n == s@.len(),
            0 <= lo <= n,
            forall|j: int| 0 <= j < lo ==> is_blank_char(s@[j]),
        decreases n - lo,
    {
        lo = lo + 1;
    }
    proof {
        lemma_trim_front_is_subrange(s@, lo as int);
    }
    if lo == n {
        proof {
            lemma_trim_back_is_subrange(trim_front(s@), 0);
        }
        return String::new();
    }
    let mut hi: usize = n;
    while blank_char(s.get_char(hi - 1))
        invariant
            n == s@.len(),
            0 <= lo < hi <= n,
            !is_blank_char(s@[lo as int]),
            forall|j: int| hi <= j < n ==> is_blank_char(s@[j]),
        decreases hi,
    {
        hi = hi - 1;
    }
    let r = s.substring_char(lo, hi).to_owned();
    proof {
        let t = s@.subrange(lo as int, n as int);
        lemma_trim_back_is_subrange(t, hi as int - lo as int);
        assert(t.subrange(0, hi as int - lo as int) =~= s@.subrange(lo as int, hi as int));
    }
    r
}

/// The decimal digit characters.
pub open spec fn spec_digit(d: int) -> char {
    if d == 0 {
        '0'
    } else if d == 1 {
        '1'
    } else if d == 2 {
        '2'
    } else if d == 3 {
        '3'
    } else if d == 4 {
        '4'
    } else if d == 5 {
        '5'
    } else if d == 6 {
        '6'
    } else if d == 7 {
        '7'
    } else if d == 8 {
        '8'
    } else {
        '9'
    }
}

/// The usual decimal rendering of a non-negative integer, without leading
/// zeros (except for the number zero itself).
pub open spec fn spec_decimal(n: int) -> Seq<char>
    decreases n,
{
    if n < 10 {
        seq![spec_digit(n)]
    } else {
        spec_decimal(n / 10).push(spec_digit(n % 10))
    }
}

fn digit_str(d: u64) -> (r: &'static str)
    requires
        d < 10,
    ensures
        r@ =~= seq![spec_digit(d as int)],
{
    proof {
        reveal_strlit("0");
        reveal_strlit("1");
        reveal_strlit("2");
        reveal_strlit("3");
        reveal_strlit("4");
        reveal_strlit("5");
        reveal_strlit("6");
        reveal_strlit("7");
        reveal_strlit("8");
        reveal_strlit("9");
    }
    if d == 0 {
        "0"
    } else if d == 1 {
        "1"
    } else if d == 2 {
        "2"
    } else if d == 3 {
        "3"
    } else if d == 4 {
        "4"
    } else if d == 5 {
        "5"
    } else if d == 6 {
        "6"
    } else if d == 7 {
        "7"
    } else if d == 8 {
        "8"
    } else {
        "9"
    }
}

/// Renders a number in decimal.
pub fn decimal_string(n: u64) -> (s: String)
    ensures
        s@ == spec_decimal(n as int),
    decreases n,
{
    if n < 10 {
        let mut s = String::new();
        s.append(digit_str(n));
        assert(s@ =~= spec_decimal(n as int));
        s
    } else {
        let mut s = decimal_string(n / 10);
        s.append(digit_str(n % 10));
        assert(s@ =~= spec_decimal(n as int));
        s
    }
}

/// A number below one hundred rendered as exactly two digits.
pub open spec fn spec_two_digits(n: int) -> Seq<char> {
    seq![spec_digit(n / 10), spec_digit(n % 10)]
}

fn two_digit_string(n: u64) -> (s: String)
    requires
        n < 100,
    ensures
        s@ == spec_two_digits(n as int),
{
    let mut s = String::new();
    s.append(digit_str(n / 10));
    s.append(digit_str(n % 10));
    assert(s@ =~= spec_two_digits(n as int));
    s
}

/// The time of day of a timestamp (seconds since the epoch), rendered as
/// hours, minutes and seconds separated by colons.
pub open spec fn spec_clock(ts: int) -> Seq<char> {
    let sod = ts % 86400;
    spec_two_digits(sod / 3600) + seq![':'] + spec_two_digits((sod % 3600) / 60) + seq![':']
        + spec_two_digits(sod % 60)
}

/// Renders the time of day of a timestamp in seconds since the epoch.
pub fn clock_string(ts: u64) -> (s: String)
    ensures
        s@ == spec_clock(ts as int),
{
    proof {
        reveal_strlit(":");
    }
    let sod = ts % 86400;
    let mut s = two_digit_string(sod / 3600);
    s.append(":");
    let minutes = two_digit_string((sod % 3600) / 60);
    s.append(minutes.as_str());
    s.append(":");
    let seconds = two_digit_string(sod % 60);
    s.append(seconds.as_str());
    assert(s@ =~= spec_clock(ts as int));
    s
}

} // verus!
