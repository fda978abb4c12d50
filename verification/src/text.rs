//! Verified text utilities: white-space trimming, decimal formatting, the
//! countdown clock text and the end-of-game summary line.

use vstd::prelude::*;

verus! {

/// The Unicode white-space characters, the set `str::trim` removes.
pub open spec fn is_ws_char(c: char) -> bool {
    c == '\u{0009}' || c == '\u{000A}' || c == '\u{000B}' || c == '\u{000C}'
        || c == '\u{000D}' || c == ' ' || c == '\u{0085}' || c == '\u{00A0}'
        || c == '\u{1680}' || c == '\u{2000}' || c == '\u{2001}' || c == '\u{2002}'
        || c == '\u{2003}' || c == '\u{2004}' || c == '\u{2005}' || c == '\u{2006}'
        || c == '\u{2007}' || c == '\u{2008}' || c == '\u{2009}' || c == '\u{200A}'
        || c == '\u{2028}' || c == '\u{2029}' || c == '\u{202F}' || c == '\u{205F}'
        || c == '\u{3000}'
}

fn is_ws(c: char) -> (b: bool)
    ensures
        b == is_ws_char(c),
{
    c == '\u{0009}' || c == '\u{000A}' || c == '\u{000B}' || c == '\u{000C}'
        || c == '\u{000D}' || c == ' ' || c == '\u{0085}' || c == '\u{00A0}'
        || c == '\u{1680}' || c == '\u{2000}' || c == '\u{2001}' || c == '\u{2002}'
        || c == '\u{2003}' || c == '\u{2004}' || c == '\u{2005}' || c == '\u{2006}'
        || c == '\u{2007}' || c == '\u{2008}' || c == '\u{2009}' || c == '\u{200A}'
        || c == '\u{2028}' || c == '\u{2029}' || c == '\u{202F}' || c == '\u{205F}'
        || c == '\u{3000}'
}

/// `s` without its leading white space.
pub open spec fn trim_front(s: Seq<char>) -> Seq<char>
    decreases s.len(),
{
    if s.len() > 0 && is_ws_char(s[0]) {
        trim_front(s.drop_first())
    } else {
        s
    }
}

/// `s` without its trailing white space.
pub open spec fn trim_back(s: Seq<char>) -> Seq<char>
    decreases s.len(),
{
    if s.len() > 0 && is_ws_char(s[s.len() - 1]) {
        trim_back(s.drop_last())
    } else {
        s
    }
}

/// `s` without leading and trailing white space: what `str::trim` keeps.
pub open spec fn trimmed(s: Seq<char>) -> Seq<char> {
    trim_back(trim_front(s))
}

proof fn lemma_trim_front_at(s: Seq<char>, i: int)
    requires
        0 <= i <= s.len(),
        forall|k: int| 0 <= k < i ==> is_ws_char(s[k]),
        i == s.len() || !is_ws_char(s[i]),
    ensures
        trim_front(s) == s.subrange(i, s.len() as int),
    decreases i,
{
    if i == 0 {
        assert(s.subrange(0, s.len() as int) =~= s);
    } else {
        let t = s.drop_first();
        lemma_trim_front_at(t, i - 1);
        assert(t.subrange(i - 1, t.len() as int) =~= s.subrange(i, s.len() as int));
    }
}

proof fn lemma_trim_back_at(s: Seq<char>, j: int)
    requires
        0 <= j <= s.len(),
        forall|k: int| j <= k < s.len() ==> is_ws_char(s[k]),
        j == 0 || !is_ws_char(s[j - 1]),
    ensures
        trim_back(s) == s.subrange(0, j),
    decreases s.len() - j,
{
    if j == s.len() {
        assert(s.subrange(0, j) =~= s);
    } else {
        let t = s.drop_last();
        lemma_trim_back_at(t, j);
        assert(t.subrange(0, j) =~= s.subrange(0, j));
    }
}

/// Returns `s` without leading and trailing white space, as a fresh string.
pub fn trim_str(s: &str) -> (r: String)
    ensures
        r@ == trimmed(s@),
{
    let n = s.unicode_len();
    let mut i: usize = 0;
    while i < n && is_ws(s.get_char(i))
        invariant
            0 <= i <= n,
            n == s@.len(),
            forall|k: int| 0 <= k < i ==> is_ws_char(s@[k]),
        decreases n - i,
    {
        i += 1;
    }
    let mut j: usize = n;
    while j > i && is_ws(s.get_char(j - 1))
        invariant
            i <= j <= n,
            n == s@.len(),
            forall|k: int| j <= k < n ==> is_ws_char(s@[k]),
        decreases j,
    {
        j -= 1;
    }
    let r = s.substring_char(i, j).to_owned();
    proof {
        lemma_trim_front_at(s@, i as int);
        let t = s@.subrange(i as int, s@.len() as int);
        lemma_trim_back_at(t, j - i);
        assert(t.subrange(0, j - i) =~= s@.subrange(i as int, j as int));
    }
    r
}

/// The character for one decimal digit.
pub open spec fn digit_char(d: int) -> char {
    if d == 0 { '0' }
    else if d == 1 { '1' }
    else if d == 2 { '2' }
    else if d == 3 { '3' }
    else if d == 4 { '4' }
    else if d == 5 { '5' }
    else if d == 6 { '6' }
    else if d == 7 { '7' }
    else if d == 8 { '8' }
    else { '9' }
}

/// The decimal digits of `n`, most significant first.
pub open spec fn dec_rep(n: nat) -> Seq<char>
    decreases n,
{
    if n < 10 {
        seq![digit_char(n as int)]
    } else {
        dec_rep(n / 10).push(digit_char((n % 10) as int))
    }
}

fn push_digit(s: &mut String, d: u64)
    requires
        d < 10,
    ensures
        final(s)@ == old(s)@.push(digit_char(d as int)),
{
    if d == 0 {
        s.append("0");
        proof { reveal_strlit("0"); assert(s@ =~= old(s)@.push(digit_char(d as int))); }
    } else if d == 1 {
        s.append("1");
        proof { reveal_strlit("1"); assert(s@ =~= old(s)@.push(digit_char(d as int))); }
    } else if d == 2 {
        s.append("2");
        proof { reveal_strlit("2"); assert(s@ =~= old(s)@.push(digit_char(d as int))); }
    } else if d == 3 {
        s.append("3");
        proof { reveal_strlit("3"); assert(s@ =~= old(s)@.push(digit_char(d as int))); }
    } else if d == 4 {
        s.append("4");
        proof { reveal_strlit("4"); assert(s@ =~= old(s)@.push(digit_char(d as int))); }
    } else if d == 5 {
        s.append("5");
        proof { reveal_strlit("5"); assert(s@ =~= old(s)@.push(digit_char(d as int))); }
    } else if d == 6 {
        s.append("6");
        proof { reveal_strlit("6"); assert(s@ =~= old(s)@.push(digit_char(d as int))); }
    } else if d == 7 {
        s.append("7");
        proof { reveal_strlit("7"); assert(s@ =~= old(s)@.push(digit_char(d as int))); }
    } else if d == 8 {
        s.append("8");
        proof { reveal_strlit("8"); assert(s@ =~= old(s)@.push(digit_char(d as int))); }
    } else {
        s.append("9");
        proof { reveal_strlit("9"); assert(s@ =~= old(s)@.push(digit_char(d as int))); }
    }
}

fn append_u64(s: &mut String, n: u64)
    ensures
        final(s)@ == old(s)@ + dec_rep(n as nat),
    decreases n,
{
    if n >= 10 {
        append_u64(s, n / 10);
        push_digit(s, n % 10);
        proof { assert(s@ =~= old(s)@ + dec_rep(n as nat)); }
    } else {
        push_digit(s, n);
        proof { assert(s@ =~= old(s)@ + dec_rep(n as nat)); }
    }
}

/// The decimal text of `n`.
pub fn format_u64(n: u64) -> (r: String)
    ensures
        r@ == dec_rep(n as nat),
{
    let mut s = String::new();
    append_u64(&mut s, n);
    proof { assert(s@ =~= dec_rep(n as nat)); }
    s
}

/// `n` in decimal, left-padded with `0` to at least two digits.
pub open spec fn two_digits(n: nat) -> Seq<char> {
    if n < 10 {
        seq!['0'] + dec_rep(n)
    } else {
        dec_rep(n)
    }
}

fn append_two_digits(s: &mut String, n: u64)
    ensures
        final(s)@ == old(s)@ + two_digits(n as nat),
{
    proof { reveal_strlit("0"); }
    if n < 10 {
        s.append("0");
    }
    append_u64(s, n);
    proof { assert(s@ =~= old(s)@ + two_digits(n as nat)); }
}

/// `secs` as an `MM:SS` clock text: whole minutes and leftover seconds,
/// two digits each.
pub open spec fn clock_text(secs: nat) -> Seq<char> {
    two_digits(secs / 60) + seq![':'] + two_digits(secs % 60)
}

/// The clock text for a number of remaining seconds.
pub fn format_clock(secs: u64) -> (r: String)
    ensures
        r@ == clock_text(secs as nat),
{
    let mut s = String::new();
    append_two_digits(&mut s, secs / 60);
    s.append(":");
    append_two_digits(&mut s, secs % 60);
    proof {
        reveal_strlit(":");
        assert(s@ =~= clock_text(secs as nat));
    }
    s
}

/// The end-of-game summary line for a final score.
pub open spec fn summary_text(score: nat) -> Seq<char> {
    "You finished with "@ + dec_rep(score) + " points!"@
}

/// The summary line shown when a game ends.
pub fn format_summary(score: u64) -> (r: String)
    ensures
        r@ == summary_text(score as nat),
{
    let mut s = "You finished with ".to_owned();
    append_u64(&mut s, score);
    s.append(" points!");
    proof { assert(s@ =~= summary_text(score as nat)); }
    s
}

} // verus!
