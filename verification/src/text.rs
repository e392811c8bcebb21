//! Operations on text, stated over sequences of characters.

use vstd::prelude::*;

verus! {

/// The characters of `s`, in order.
pub fn chars_of(s: &str) -> (out: Vec<char>)
    ensures
        out@ == s@,
{
    let mut out: Vec<char> = Vec::new();
    for c in it: s.chars()
        invariant
            it.seq() == s@,
            out@ == it.seq().take(it.index()),
    {
        out.push(c);
    }
    out
}

/// Whether two pieces of text hold the same characters.
pub fn same_text(a: &str, b: &str) -> (same: bool)
    ensures
        same == (a@ == b@),
{
    let left: String = a.to_owned();
    let right: String = b.to_owned();
    left == right
}

/// `pat` stands in `s` at position `i`.
pub open spec fn occurs_at(s: Seq<char>, pat: Seq<char>, i: int) -> bool {
    0 <= i && i + pat.len() <= s.len() && s.subrange(i, i + pat.len()) == pat
}

/// `s` ends with `suffix`.
pub open spec fn has_suffix(s: Seq<char>, suffix: Seq<char>) -> bool {
    occurs_at(s, suffix, s.len() - suffix.len())
}

/// `s` without the occurrences of `pat`, found from the left and not
/// overlapping. An empty `pat` removes nothing.
pub open spec fn without(s: Seq<char>, pat: Seq<char>) -> Seq<char>
    decreases s.len(),
{
    if pat.len() == 0 || s.len() < pat.len() {
        s
    } else if occurs_at(s, pat, 0) {
        without(s.skip(pat.len() as int), pat)
    } else {
        seq![s[0]] + without(s.skip(1), pat)
    }
}

/// Whether `pat` stands in `s` at position `i`.
pub fn occurs_at_index(s: &Vec<char>, pat: &Vec<char>, i: usize) -> (found: bool)
    ensures
        found == occurs_at(s@, pat@, i as int),
{
    if i > s.len() || pat.len() > s.len() - i {
        return false;
    }
    let mut k: usize = 0;
    while k < pat.len()
        invariant
            i + pat.len() <= s.len(),
            k <= pat.len(),
            forall|j: int| 0 <= j < k ==> s@[i + j] == pat@[j],
        decreases pat.len() - k,
    {
        if s[i + k] != pat[k] {
            assert(s@.subrange(i as int, i + pat.len())[k as int] != pat@[k as int]);
            return false;
        }
        k += 1;
    }
    assert(s@.subrange(i as int, i + pat.len()) =~= pat@);
    true
}

/// Whether `s` ends with `suffix`.
pub fn ends_with(s: &str, suffix: &str) -> (found: bool)
    ensures
        found == has_suffix(s@, suffix@),
{
    let text = chars_of(s);
    let tail = chars_of(suffix);
    if tail.len() > text.len() {
        return false;
    }
    occurs_at_index(&text, &tail, text.len() - tail.len())
}

/// A short text has nothing to remove.
proof fn lemma_without_short(s: Seq<char>, pat: Seq<char>)
    requires
        s.len() < pat.len(),
    ensures
        without(s, pat) == s,
{
}

/// `s` without the occurrences of `pat`.
pub fn remove_all(s: &str, pat: &str) -> (out: String)
    ensures
        out@ == without(s@, pat@),
{
    let text = chars_of(s);
    let needle = chars_of(pat);
    let n = text.len();
    let m = needle.len();
    let mut out = String::new();
    if m == 0 {
        out.append(s);
        assert(out@ =~= s@);
        return out;
    }
    let mut kept_from: usize = 0;
    let mut i: usize = 0;
    assert(s@.subrange(0, 0) + without(s@.skip(0), pat@) =~= without(s@, pat@)) by {
        assert(s@.skip(0) =~= s@);
    }
    while i < n
        invariant
            text@ == s@,
            needle@ == pat@,
            n == text.len(),
            m == needle.len(),
            m > 0,
            kept_from <= i <= n,
            without(s@, pat@) == out@ + s@.subrange(kept_from as int, i as int) + without(
                s@.skip(i as int),
                pat@,
            ),
        decreases n - i,
    {
        let ghost rest = s@.skip(i as int);
        if occurs_at_index(&text, &needle, i) {
            proof {
                assert(rest.subrange(0, m as int) =~= s@.subrange(i as int, i + m));
                assert(rest.skip(m as int) =~= s@.skip(i + m));
                assert(s@.subrange((i + m) as int, (i + m) as int) =~= Seq::<char>::empty());
            }
            let kept = s.substring_char(kept_from, i);
            out.append(kept);
            i = i + m;
            kept_from = i;
        } else {
            proof {
                assert(rest.skip(1) =~= s@.skip(i + 1));
                if rest.len() >= m {
                    assert(rest.subrange(0, m as int) =~= s@.subrange(i as int, i + m));
                    assert(without(rest, pat@) == seq![rest[0]] + without(rest.skip(1), pat@));
                } else {
                    lemma_without_short(rest, pat@);
                    lemma_without_short(rest.skip(1), pat@);
                    assert(rest =~= seq![rest[0]] + rest.skip(1));
                }
                assert(s@.subrange(kept_from as int, i as int) + seq![rest[0]] =~= s@.subrange(
                    kept_from as int,
                    i + 1,
                ));
            }
            i = i + 1;
        }
    }
    proof {
        assert(s@.skip(n as int) =~= Seq::<char>::empty());
        lemma_without_short(s@.skip(n as int), pat@);
    }
    let kept = s.substring_char(kept_from, n);
    out.append(kept);
    assert(out@ =~= without(s@, pat@));
    out
}

/// The character of a decimal digit.
pub open spec fn digit_char(digit: int) -> char {
    if digit == 0 {
        '0'
    } else if digit == 1 {
        '1'
    } else if digit == 2 {
        '2'
    } else if digit == 3 {
        '3'
    } else if digit == 4 {
        '4'
    } else if digit == 5 {
        '5'
    } else if digit == 6 {
        '6'
    } else if digit == 7 {
        '7'
    } else if digit == 8 {
        '8'
    } else {
        '9'
    }
}

/// A natural number in decimal, without leading zeros.
pub open spec fn natural_text(number: nat) -> Seq<char>
    decreases number,
{
    if number < 10 {
        seq![digit_char(number as int)]
    } else {
        natural_text(number / 10) + seq![digit_char((number % 10) as int)]
    }
}

/// An integer in decimal: a minus sign before a negative one.
pub open spec fn integer_text(number: int) -> Seq<char> {
    if number < 0 {
        seq!['-'] + natural_text((-number) as nat)
    } else {
        natural_text(number as nat)
    }
}

/// The text of one decimal digit.
fn digit_text(digit: u64) -> (text: &'static str)
    requires
        digit < 10,
    ensures
        text@ == seq![digit_char(digit as int)],
{
    proof {
        reveal_strlit("0");
        reveal_strlit("1");
        reveal_strlit("2");
        reveal_strlit("3");
        reveal_strlit("4");
        reveal_strlit("5");
        reveal_strlit("6");
        reveal_strlit("7");
        reveal_strlit("8");
        reveal_strlit("9");
    }
    let text = if digit == 0 {
        "0"
    } else if digit == 1 {
        "1"
    } else if digit == 2 {
        "2"
    } else if digit == 3 {
        "3"
    } else if digit == 4 {
        "4"
    } else if digit == 5 {
        "5"
    } else if digit == 6 {
        "6"
    } else if digit == 7 {
        "7"
    } else if digit == 8 {
        "8"
    } else {
        "9"
    };
    assert(text@ =~= seq![digit_char(digit as int)]);
    text
}

/// Appends `number` in decimal to `out`.
fn push_natural(out: &mut String, number: u64)
    ensures
        final(out)@ == old(out)@ + natural_text(number as nat),
    decreases number,
{
    if number >= 10 {
        push_natural(out, number / 10);
    }
    out.append(digit_text(number % 10));
    assert(out@ =~= old(out)@ + natural_text(number as nat));
}

/// A natural number in decimal.
pub fn natural_to_text(number: u64) -> (text: String)
    ensures
        text@ == natural_text(number as nat),
{
    let mut text = String::new();
    push_natural(&mut text, number);
    assert(text@ =~= natural_text(number as nat));
    text
}

/// An integer in decimal.
pub fn integer_to_text(number: i64) -> (text: String)
    ensures
        text@ == integer_text(number as int),
{
    let mut text = String::new();
    if number < 0 {
        proof {
            reveal_strlit("-");
        }
        text.append("-");
        let magnitude: u64 = if number == i64::MIN {
            9_223_372_036_854_775_808u64
        } else {
            (-number) as u64
        };
        push_natural(&mut text, magnitude);
        assert(text@ =~= integer_text(number as int));
    } else {
        push_natural(&mut text, number as u64);
        assert(text@ =~= integer_text(number as int));
    }
    text
}

} // verus!
