//! Character-level helpers: trimming and decimal rendering.
use vstd::prelude::*;

verus! {

/// Whether `c` is white space in the sense that `str::trim` strips: the
/// Unicode `White_Space` property.
pub uninterp spec fn is_white(c: char) -> bool;

/// `r` is `s` without its leading and trailing white space.
pub open spec fn is_trim_of(r: Seq<char>, s: Seq<char>) -> bool {
    exists|i: int, j: int|
        #![trigger s.subrange(i, j)]
        0 <= i <= j <= s.len() && r == s.subrange(i, j) && (forall|k: int|
            0 <= k < i ==> is_white(#[trigger] s[k])) && (forall|k: int|
            j <= k < s.len() ==> is_white(#[trigger] s[k])) && (i < j ==> !is_white(s[i])
            && !is_white(s[j - 1]))
}

/// Whether every character of `s` is white space.
pub open spec fn is_blank(s: Seq<char>) -> bool {
    forall|k: int| 0 <= k < s.len() ==> is_white(#[trigger] s[k])
}

/// `s` without its leading and trailing white space.
pub open spec fn trimmed(s: Seq<char>) -> Seq<char> {
    choose|r: Seq<char>| is_trim_of(r, s)
}

/// Trimming has one result: whatever `is_trim_of` accepts is `trimmed`.
pub proof fn lemma_trim_unique(r: Seq<char>, s: Seq<char>)
    requires
        is_trim_of(r, s),
    ensures
        trimmed(s) == r,
{
    let t = trimmed(s);
    assert(is_trim_of(t, s));
    let (i1, j1) = choose|i: int, j: int|
        #![trigger s.subrange(i, j)]
        0 <= i <= j <= s.len() && r == s.subrange(i, j) && (forall|k: int|
            0 <= k < i ==> is_white(#[trigger] s[k])) && (forall|k: int|
            j <= k < s.len() ==> is_white(#[trigger] s[k])) && (i < j ==> !is_white(s[i])
            && !is_white(s[j - 1]));
    let (i2, j2) = choose|i: int, j: int|
        #![trigger s.subrange(i, j)]
        0 <= i <= j <= s.len() && t == s.subrange(i, j) && (forall|k: int|
            0 <= k < i ==> is_white(#[trigger] s[k])) && (forall|k: int|
            j <= k < s.len() ==> is_white(#[trigger] s[k])) && (i < j ==> !is_white(s[i])
            && !is_white(s[j - 1]));
    if i1 < j1 && i2 < j2 {
        if i1 < i2 {
            assert(is_white(s[i1]));
        }
        if i2 < i1 {
            assert(is_white(s[i2]));
        }
        if j1 < j2 {
            assert(is_white(s[j2 - 1]));
        }
        if j2 < j1 {
            assert(is_white(s[j1 - 1]));
        }
        assert(i1 == i2 && j1 == j2);
    } else if i1 < j1 {
        if i1 < i2 {
            assert(is_white(s[i1]));
        } else {
            assert(is_white(s[i1]));
        }
    } else if i2 < j2 {
        if i2 < i1 {
            assert(is_white(s[i2]));
        } else {
            assert(is_white(s[i2]));
        }
    } else {
        assert(r =~= t);
    }
}

/// How many white characters `s` starts with.
pub open spec fn leading_white(s: Seq<char>) -> nat
    decreases s.len(),
{
    if s.len() > 0 && is_white(s[0]) {
        1 + leading_white(s.drop_first())
    } else {
        0
    }
}

/// How many white characters `s` ends with.
pub open spec fn trailing_white(s: Seq<char>) -> nat
    decreases s.len(),
{
    if s.len() > 0 && is_white(s.last()) {
        1 + trailing_white(s.drop_last())
    } else {
        0
    }
}

proof fn lemma_leading_white(s: Seq<char>)
    ensures
        leading_white(s) <= s.len(),
        forall|k: int| 0 <= k < leading_white(s) ==> is_white(#[trigger] s[k]),
        leading_white(s) < s.len() ==> !is_white(s[leading_white(s) as int]),
    decreases s.len(),
{
    if s.len() > 0 && is_white(s[0]) {
        let t = s.drop_first();
        lemma_leading_white(t);
        assert forall|k: int| 0 <= k < leading_white(s) implies is_white(#[trigger] s[k]) by {
            if k > 0 {
                assert(s[k] == t[k - 1]);
            }
        }
        if leading_white(s) < s.len() {
            assert(s[leading_white(s) as int] == t[leading_white(t) as int]);
        }
    }
}

proof fn lemma_trailing_white(s: Seq<char>)
    ensures
        trailing_white(s) <= s.len(),
        forall|k: int| s.len() - trailing_white(s) <= k < s.len() ==> is_white(#[trigger] s[k]),
        trailing_white(s) < s.len() ==> !is_white(s[s.len() - trailing_white(s) - 1]),
    decreases s.len(),
{
    if s.len() > 0 && is_white(s.last()) {
        let t = s.drop_last();
        lemma_trailing_white(t);
        assert forall|k: int| s.len() - trailing_white(s) <= k < s.len() implies is_white(
            #[trigger] s[k],
        ) by {
            if k < s.len() - 1 {
                assert(s[k] == t[k]);
            }
        }
        if trailing_white(s) < s.len() {
            assert(s[s.len() - trailing_white(s) - 1] == t[t.len() - trailing_white(t) - 1]);
        }
    }
}

/// Every text has a trimmed form.
pub proof fn lemma_trimmed_is_trim(s: Seq<char>)
    ensures
        is_trim_of(trimmed(s), s),
{
    lemma_leading_white(s);
    lemma_trailing_white(s);
    let i = leading_white(s) as int;
    if i == s.len() {
        assert(is_trim_of(s.subrange(i, i), s));
    } else {
        let j = s.len() - trailing_white(s);
        assert(i < j) by {
            if i >= j {
                assert(is_white(s[i]));
            }
        }
        assert(is_trim_of(s.subrange(i, j), s));
    }
}

/// Relies on `str::trim`: the sub-slice of `s` with leading and trailing
/// Unicode white space removed.
#[verifier::external_body]
pub(crate) fn trim(s: &str) -> (r: &str)
    ensures
        is_trim_of(r@, s@),
        r@.len() > 0 ==> !is_white(r@[0]) && !is_white(r@.last()),
{
    s.trim()
}

/// `s` without its leading and trailing white space.
pub fn trim_text(s: &str) -> (r: &str)
    ensures
        r@ == trimmed(s@),
        r@.len() == 0 <==> is_blank(s@),
{
    let r = trim(s);
    proof {
        lemma_trim_unique(r@, s@);
        lemma_trim_empty_iff_blank(r@, s@);
    }
    r
}

/// Trimming leaves nothing exactly when the text is all white space.
pub proof fn lemma_trimmed_empty_iff_blank(s: Seq<char>)
    ensures
        trimmed(s).len() == 0 <==> is_blank(s),
{
    lemma_trimmed_is_trim(s);
    lemma_trim_empty_iff_blank(trimmed(s), s);
}

proof fn lemma_trim_empty_iff_blank(r: Seq<char>, s: Seq<char>)
    requires
        is_trim_of(r, s),
    ensures
        r.len() == 0 <==> is_blank(s),
{
    let (i, j) = choose|i: int, j: int|
        #![trigger s.subrange(i, j)]
        0 <= i <= j <= s.len() && r == s.subrange(i, j) && (forall|k: int|
            0 <= k < i ==> is_white(#[trigger] s[k])) && (forall|k: int|
            j <= k < s.len() ==> is_white(#[trigger] s[k])) && (i < j ==> !is_white(s[i])
            && !is_white(s[j - 1]));
    if r.len() == 0 {
        assert forall|k: int| 0 <= k < s.len() implies is_white(#[trigger] s[k]) by {
            if k >= i {
                assert(k >= j);
            }
        }
    } else {
        assert(!is_white(s[i]));
    }
}

/// The character of a decimal digit.
pub open spec fn digit_char(d: nat) -> char {
    seq!['0', '1', '2', '3', '4', '5', '6', '7', '8', '9'][d as int]
}

/// The decimal rendering of `n`, without leading zeros.
pub open spec fn decimal(n: nat) -> Seq<char>
    decreases n,
{
    if n < 10 {
        seq![digit_char(n)]
    } else {
        decimal(n / 10).push(digit_char(n % 10))
    }
}

fn digit_str(d: u16) -> (r: &'static str)
    requires
        d < 10,
    ensures
        r@ == seq![digit_char(d as nat)],
{
    proof {
        reveal_strlit("0");
        reveal_strlit("1");
        reveal_strlit("2");
        reveal_strlit("3");
        reveal_strlit("4");
        reveal_strlit("5");
        reveal_strlit("6");
        reveal_strlit("7");
        reveal_strlit("8");
        reveal_strlit("9");
    }
    let r = match d {
        0 => "0",
        1 => "1",
        2 => "2",
        3 => "3",
        4 => "4",
        5 => "5",
        6 => "6",
        7 => "7",
        8 => "8",
        _ => "9",
    };
    assert(r@ =~= seq![digit_char(d as nat)]);
    r
}

/// Appends the decimal rendering of `n` to `out`.
pub fn push_decimal(out: &mut String, n: u16)
    ensures
        final(out)@ == old(out)@ + decimal(n as nat),
    decreases n,
{
    if n >= 10 {
        push_decimal(out, n / 10);
    }
    out.append(digit_str(n % 10));
    proof {
        if n >= 10 {
            assert(old(out)@ + decimal(n as nat) =~= old(out)@ + decimal((n / 10) as nat) + seq![
                digit_char((n % 10) as nat),
            ]);
        } else {
            assert(old(out)@ + decimal(n as nat) =~= old(out)@ + seq![digit_char(n as nat)]);
        }
    }
}

} // verus!
