//! Verified text utilities: trimming, whitespace token counting, and decimal
//! rendering of counters, used by the session's log and source-of-truth rules.

use vstd::prelude::*;
use vstd::string::StrSliceExecFns;
use vstd::string::StringExecFns;

verus! {

/// Whether a character counts as whitespace for trimming and token counting.
pub open spec fn is_space(c: char) -> bool {
    c == ' ' || c == '\t' || c == '\n' || c == '\r'
}

/// Executable form of `is_space`.
pub fn is_space_exec(c: char) -> (r: bool)
    ensures
        r == is_space(c),
{
    c == ' ' || c == '\t' || c == '\n' || c == '\r'
}

/// The sequence with its leading whitespace removed.
pub open spec fn trim_start_spec(s: Seq<char>) -> Seq<char>
    decreases s.len(),
{
    if s.len() == 0 {
        s
    } else if is_space(s[0]) {
        trim_start_spec(s.drop_first())
    } else {
        s
    }
}

/// The sequence with its trailing whitespace removed.
pub open spec fn trim_end_spec(s: Seq<char>) -> Seq<char>
    decreases s.len(),
{
    if s.len() == 0 {
        s
    } else if is_space(s.last()) {
        trim_end_spec(s.drop_last())
    } else {
        s
    }
}

/// The sequence with whitespace removed from both ends.
pub open spec fn trim_spec(s: Seq<char>) -> Seq<char> {
    trim_end_spec(trim_start_spec(s))
}

proof fn lemma_trim_start_skip(s: Seq<char>, i: int)
    requires
        0 <= i <= s.len(),
        forall|j: int| 0 <= j < i ==> is_space(s[j]),
        i == s.len() || !is_space(s[i]),
    ensures
        trim_start_spec(s) == s.skip(i),
    decreases i,
{
    if i == 0 {
        assert(s.skip(0) =~= s);
    } else {
        let t = s.drop_first();
        assert(forall|j: int| 0 <= j < i - 1 ==> is_space(#[trigger] t[j]));
        lemma_trim_start_skip(t, i - 1);
        assert(t.skip(i - 1) =~= s.skip(i));
    }
}

proof fn lemma_trim_end_take(s: Seq<char>, j: int)
    requires
        0 <= j <= s.len(),
        forall|k: int| j <= k < s.len() ==> is_space(s[k]),
        j == 0 || !is_space(s[j - 1]),
    ensures
        trim_end_spec(s) == s.take(j),
    decreases s.len() - j,
{
    if j == s.len() {
        assert(s.take(j) =~= s);
        if s.len() != 0 {
            assert(!is_space(s.last()));
        }
    } else {
        let t = s.drop_last();
        assert(is_space(s.last()));
        assert(forall|k: int| j <= k < t.len() ==> is_space(#[trigger] t[k]));
        lemma_trim_end_take(t, j);
        assert(t.take(j) =~= s.take(j));
    }
}

/// The input with whitespace removed from both ends, as `trim_spec` states.
pub fn trim_str(s: &str) -> (r: String)
    ensures
        r@ == trim_spec(s@),
{
    let n = s.unicode_len();
    let mut i: usize = 0;
    while i < n && is_space_exec(s.get_char(i))
        invariant
            0 <= i <= n,
            n == s@.len(),
            forall|j: int| 0 <= j < i ==> is_space(s@[j]),
        decreases n - i,
    {
        i = i + 1;
    }
    let mut j: usize = n;
    while j > i && is_space_exec(s.get_char(j - 1))
        invariant
            i <= j <= n,
            n == s@.len(),
            forall|k: int| j <= k < n ==> is_space(s@[k]),
        decreases j,
    {
        j = j - 1;
    }
    let r = s.substring_char(i, j);
    proof {
        lemma_trim_start_skip(s@, i as int);
        let t = s@.skip(i as int);
        if j == i {
            lemma_trim_end_take(t, 0);
        } else {
            assert(!is_space(t[j - i - 1]));
            assert(forall|k: int| j - i <= k < t.len() ==> is_space(#[trigger] t[k]));
            lemma_trim_end_take(t, j - i);
        }
        assert(t.take(j - i) =~= s@.subrange(i as int, j as int));
    }
    String::from_str(r)
}

/// Whether position `i` starts a whitespace-separated token of `s`.
pub open spec fn is_token_start(s: Seq<char>, i: int) -> bool {
    0 <= i < s.len() && !is_space(s[i]) && (i == 0 || is_space(s[i - 1]))
}

/// How many whitespace-separated tokens start before position `n` of `s`.
pub open spec fn token_count_prefix(s: Seq<char>, n: int) -> int
    decreases n,
{
    if n <= 0 {
        0
    } else {
        token_count_prefix(s, n - 1) + if is_token_start(s, n - 1) {
            1 as int
        } else {
            0 as int
        }
    }
}

/// The number of whitespace-separated tokens of `s`.
pub open spec fn token_count(s: Seq<char>) -> int {
    token_count_prefix(s, s.len() as int)
}

proof fn lemma_token_count_prefix_bound(s: Seq<char>, n: int)
    requires
        0 <= n <= s.len(),
    ensures
        token_count_prefix(s, n) <= n,
    decreases n,
{
    if n > 0 {
        lemma_token_count_prefix_bound(s, n - 1);
    }
}

/// The number of whitespace-separated tokens of the input.
pub fn count_tokens(s: &str) -> (r: usize)
    ensures
        r as int == token_count(s@),
{
    let n = s.unicode_len();
    let mut count: usize = 0;
    let mut i: usize = 0;
    let mut prev_space: bool = true;
    while i < n
        invariant
            0 <= i <= n,
            n == s@.len(),
            count as int == token_count_prefix(s@, i as int),
            count <= i,
            prev_space == (i == 0 || is_space(s@[i as int - 1])),
        decreases n - i,
    {
        let c = s.get_char(i);
        let space = is_space_exec(c);
        if !space && prev_space {
            count = count + 1;
        }
        proof {
            lemma_token_count_prefix_bound(s@, i as int);
        }
        prev_space = space;
        i = i + 1;
    }
    count
}

/// The character of a single decimal digit.
pub open spec fn digit_char(d: int) -> char {
    if d == 0 {
        '0'
    } else if d == 1 {
        '1'
    } else if d == 2 {
        '2'
    } else if d == 3 {
        '3'
    } else if d == 4 {
        '4'
    } else if d == 5 {
        '5'
    } else if d == 6 {
        '6'
    } else if d == 7 {
        '7'
    } else if d == 8 {
        '8'
    } else {
        '9'
    }
}

/// The canonical decimal rendering of a nonnegative integer, most
/// significant digit first, with no leading zeros.
pub open spec fn dec_rep(n: int) -> Seq<char>
    decreases n,
{
    if n < 10 {
        seq![digit_char(n)]
    } else {
        dec_rep(n / 10).push(digit_char(n % 10))
    }
}

fn digit_char_exec(d: u64) -> (r: char)
    requires
        d < 10,
    ensures
        r == digit_char(d as int),
{
    match d {
        0 => '0',
        1 => '1',
        2 => '2',
        3 => '3',
        4 => '4',
        5 => '5',
        6 => '6',
        7 => '7',
        8 => '8',
        _ => '9',
    }
}

/// Relies on `String::push`: appends exactly one character.
#[verifier::external_body]
pub(crate) fn push_char(s: &mut String, c: char)
    ensures
        final(s)@ == old(s)@.push(c),
{
    s.push(c);
}

/// A `String` holding exactly the characters of the given vector, in order.
pub fn chars_to_string(v: &Vec<char>) -> (r: String)
    ensures
        r@ == v@,
{
    let mut r = String::new();
    let mut i: usize = 0;
    while i < v.len()
        invariant
            0 <= i <= v@.len(),
            r@ == v@.take(i as int),
        decreases v@.len() - i,
    {
        push_char(&mut r, v[i]);
        proof {
            assert(v@.take(i as int).push(v@[i as int]) =~= v@.take(i as int + 1));
        }
        i = i + 1;
    }
    proof {
        assert(v@.take(v@.len() as int) =~= v@);
    }
    r
}

/// The decimal rendering of `n`, exactly as `dec_rep` states.
pub fn dec_string(n: u64) -> (r: String)
    ensures
        r@ == dec_rep(n as int),
{
    let mut v: Vec<char> = Vec::new();
    let mut m: u64 = n;
    proof {
        assert(dec_rep(n as int) =~= dec_rep(m as int) + v@);
    }
    while m >= 10
        invariant
            dec_rep(n as int) == dec_rep(m as int) + v@,
        decreases m,
    {
        let d = digit_char_exec(m % 10);
        proof {
            assert(dec_rep(m as int) == dec_rep(m as int / 10).push(digit_char(m as int % 10)));
            assert(dec_rep(m as int / 10) + v@.insert(0, digit_char(m as int % 10)) =~= dec_rep(
                m as int,
            ) + v@);
        }
        v.insert(0, d);
        m = m / 10;
    }
    let d = digit_char_exec(m);
    proof {
        assert(dec_rep(m as int) =~= seq![digit_char(m as int)]);
        assert(seq![digit_char(m as int)] + v@ =~= v@.insert(0, digit_char(m as int)));
    }
    v.insert(0, d);
    chars_to_string(&v)
}

} // verus!
