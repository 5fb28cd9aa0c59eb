//! Text utilities: character access, decimal numbers and splitting on a
//! separator, each with its mathematical model over `Seq<char>`.

use vstd::prelude::*;
use vstd::string::*;

verus! {

/// Whether `c` is one of the ASCII digits `0` to `9`.
pub open spec fn is_digit(c: char) -> bool {
    48 <= c as int <= 57
}

/// The number that the ASCII digit `c` stands for.
pub open spec fn digit_value(c: char) -> nat {
    (c as int - 48) as nat
}

/// The ASCII digit that stands for `d`, for `d` below ten.
pub open spec fn digit_char(d: nat) -> char {
    (d + 48) as char
}

/// Whether every character of `s` is an ASCII digit.
pub open spec fn all_digits(s: Seq<char>) -> bool {
    forall|i: int| 0 <= i < s.len() ==> is_digit(#[trigger] s[i])
}

/// The number that the digits of `s` denote in base ten, most significant
/// digit first. The empty sequence denotes zero.
pub open spec fn decimal_value(s: Seq<char>) -> nat
    decreases s.len(),
{
    if s.len() == 0 {
        0
    } else {
        decimal_value(s.drop_last()) * 10 + digit_value(s.last())
    }
}

/// The shortest base-ten numeral for `n`: no sign and no leading zero.
pub open spec fn decimal_text(n: nat) -> Seq<char>
    decreases n,
{
    if n < 10 {
        seq![digit_char(n)]
    } else {
        decimal_text(n / 10).push(digit_char(n % 10))
    }
}

/// The pieces of `s` between occurrences of `sep`, in order. A sequence with
/// `k` separators has `k + 1` pieces, some of which may be empty.
pub open spec fn split(s: Seq<char>, sep: char) -> Seq<Seq<char>>
    decreases s.len(),
{
    if s.len() == 0 {
        seq![Seq::<char>::empty()]
    } else {
        let before = split(s.drop_last(), sep);
        if s.last() == sep {
            before.push(Seq::<char>::empty())
        } else {
            before.update(before.len() - 1, before.last().push(s.last()))
        }
    }
}

/// Splitting always yields at least one piece.
pub proof fn lemma_split_nonempty(s: Seq<char>, sep: char)
    ensures
        split(s, sep).len() >= 1,
    decreases s.len(),
{
    if s.len() > 0 {
        lemma_split_nonempty(s.drop_last(), sep);
    }
}

/// A sequence that holds no separator is its own single piece.
pub proof fn lemma_split_without_separator(s: Seq<char>, sep: char)
    requires
        !s.contains(sep),
    ensures
        split(s, sep) == seq![s],
    decreases s.len(),
{
    if s.len() > 0 {
        let init = s.drop_last();
        assert forall|i: int| 0 <= i < init.len() implies init[i] != sep by {
            assert(s[i] == init[i]);
            assert(s.contains(s[i]));
        }
        assert(!init.contains(sep));
        lemma_split_without_separator(init, sep);
        assert(s.contains(s.last()));
        assert(init.push(s.last()) =~= s);
        assert(split(s, sep) =~= seq![s]);
    } else {
        assert(s =~= Seq::<char>::empty());
    }
}

/// The pieces of `x`, a separator and `y` are the pieces of `x` followed by
/// the pieces of `y`.
pub proof fn lemma_split_concat(x: Seq<char>, y: Seq<char>, sep: char)
    ensures
        split(x + seq![sep] + y, sep) == split(x, sep) + split(y, sep),
    decreases y.len(),
{
    let whole = x + seq![sep] + y;
    lemma_split_nonempty(x, sep);
    if y.len() == 0 {
        assert(whole.drop_last() =~= x);
        assert(split(whole, sep) =~= split(x, sep) + split(y, sep));
    } else {
        let init = y.drop_last();
        lemma_split_concat(x, init, sep);
        lemma_split_nonempty(init, sep);
        assert(whole.drop_last() =~= x + seq![sep] + init);
        assert(whole.last() == y.last());
        assert(split(whole, sep) =~= split(x, sep) + split(y, sep));
    }
}

/// Joining two sequences that hold no `c` gives one that holds no `c`.
pub proof fn lemma_concat_holds_no(x: Seq<char>, y: Seq<char>, c: char)
    requires
        !x.contains(c),
        !y.contains(c),
    ensures
        !(x + y).contains(c),
{
    assert forall|i: int| 0 <= i < (x + y).len() implies (x + y)[i] != c by {
        if i < x.len() {
            assert(x.contains(x[i]));
        } else {
            assert(y.contains(y[i - x.len()]));
        }
    }
}

/// A sequence of digits holds no character that is not a digit.
pub proof fn lemma_digits_hold_no(s: Seq<char>, c: char)
    requires
        all_digits(s),
        !is_digit(c),
    ensures
        !s.contains(c),
{
}

/// `decimal_text(n)` is a numeral for `n`: it has a digit, has nothing but
/// digits, starts with no zero unless it is `0` itself, and denotes `n`.
pub proof fn lemma_decimal_text_denotes(n: nat)
    ensures
        decimal_text(n).len() >= 1,
        all_digits(decimal_text(n)),
        decimal_text(n).len() > 1 ==> decimal_text(n)[0] != '0',
        decimal_value(decimal_text(n)) == n,
    decreases n,
{
    let text = decimal_text(n);
    if n < 10 {
        assert(text.drop_last() =~= Seq::<char>::empty());
        assert(decimal_value(text) == decimal_value(text.drop_last()) * 10 + digit_value(
            text.last(),
        ));
    } else {
        let init = decimal_text(n / 10);
        lemma_decimal_text_denotes(n / 10);
        assert(text.drop_last() =~= init);
        assert(text[0] == init[0]);
        if init.len() == 1 {
            assert(init.drop_last() =~= Seq::<char>::empty());
            assert(decimal_value(init) == decimal_value(init.drop_last()) * 10 + digit_value(
                init.last(),
            ));
        }
        assert forall|i: int| 0 <= i < text.len() implies is_digit(#[trigger] text[i]) by {
            if i < init.len() {
                assert(text[i] == init[i]);
            }
        }
    }
}

/// A number below a thousand is written with at most three digits.
pub proof fn lemma_decimal_text_is_short(n: nat)
    requires
        n < 1000,
    ensures
        decimal_text(n).len() <= 3,
{
    reveal_with_fuel(decimal_text, 3);
}

/// The characters of `s`, in order.
pub fn chars_of(s: &str) -> (r: Vec<char>)
    ensures
        r@ == s@,
{
    let mut out: Vec<char> = Vec::new();
    for c in it: s.chars()
        invariant
            out@ == it.seq().take(it.index() as int),
    {
        out.push(c);
    }
    out
}

/// Whether `a` and `b` hold the same characters.
pub fn same_text(a: &str, b: &str) -> (r: bool)
    ensures
        r == (a@ == b@),
{
    let x = chars_of(a);
    let y = chars_of(b);
    if x.len() != y.len() {
        return false;
    }
    let mut i: usize = 0;
    while i < x.len()
        invariant
            i <= x.len(),
            x.len() == y.len(),
            x@ == a@,
            y@ == b@,
            forall|j: int| 0 <= j < i ==> x@[j] == y@[j],
        decreases x.len() - i,
    {
        if x[i] != y[i] {
            return false;
        }
        i += 1;
    }
    assert(x@ =~= y@);
    true
}

/// Whether `range` marks piece `k` of `pieces` inside `chars`.
pub open spec fn marks_piece(
    range: (usize, usize),
    chars: Seq<char>,
    pieces: Seq<Seq<char>>,
    k: int,
) -> bool {
    &&& range.0 <= range.1 <= chars.len()
    &&& pieces[k] == chars.subrange(range.0 as int, range.1 as int)
}

/// The bounds of each piece of `chars` between occurrences of `sep`: piece
/// `k` runs from the first to the second index of entry `k`, and the
/// separator that ends it stands at that second index.
pub fn split_ranges(chars: &[char], sep: char) -> (r: Vec<(usize, usize)>)
    ensures
        r@.len() == split(chars@, sep).len(),
        forall|k: int|
            0 <= k < r@.len() ==> marks_piece(#[trigger] r@[k], chars@, split(chars@, sep), k),
        forall|k: int| 0 <= k < r@.len() - 1 ==> (#[trigger] r@[k]).1 + 1 == r@[k + 1].0,
        r@[0].0 == 0,
        r@[r@.len() - 1].1 == chars@.len(),
{
    let mut out: Vec<(usize, usize)> = Vec::new();
    let mut start: usize = 0;
    let mut i: usize = 0;
    while i < chars.len()
        invariant
            start <= i <= chars@.len(),
            out@.len() + 1 == split(chars@.take(i as int), sep).len(),
            split(chars@.take(i as int), sep).last() == chars@.subrange(start as int, i as int),
            forall|k: int|
                0 <= k < out@.len() ==> marks_piece(
                    #[trigger] out@[k],
                    chars@,
                    split(chars@.take(i as int), sep),
                    k,
                ),
            forall|k: int| 0 <= k < out@.len() ==> (#[trigger] out@[k]).1 < i,
            forall|k: int| 0 <= k < out@.len() - 1 ==> (#[trigger] out@[k]).1 + 1 == out@[k + 1].0,
            out@.len() > 0 ==> out@[0].0 == 0 && out@[out@.len() - 1].1 + 1 == start,
            out@.len() == 0 ==> start == 0,
        decreases chars@.len() - i,
    {
        let ghost before = split(chars@.take(i as int), sep);
        let ghost after = split(chars@.take(i + 1), sep);
        let ghost found = out@;
        proof {
            assert(chars@.take(i + 1).drop_last() =~= chars@.take(i as int));
            assert(chars@.take(i + 1).last() == chars@[i as int]);
        }
        if chars[i] == sep {
            out.push((start, i));
            start = i + 1;
            proof {
                assert(after == before.push(Seq::<char>::empty()));
                assert(chars@.subrange(start as int, i + 1) =~= Seq::<char>::empty());
                assert forall|k: int| 0 <= k < out@.len() implies marks_piece(
                    #[trigger] out@[k],
                    chars@,
                    after,
                    k,
                ) by {
                    assert(after[k] == before[k]);
                    if k < found.len() {
                        assert(out@[k] == found[k]);
                        assert(marks_piece(found[k], chars@, before, k));
                    }
                }
            }
        } else {
            proof {
                assert(after == before.update(
                    before.len() - 1,
                    before.last().push(chars@[i as int]),
                ));
                assert(chars@.subrange(start as int, i as int).push(chars@[i as int])
                    =~= chars@.subrange(start as int, i + 1));
                assert forall|k: int| 0 <= k < out@.len() implies marks_piece(
                    #[trigger] out@[k],
                    chars@,
                    after,
                    k,
                ) by {
                    assert(after[k] == before[k]);
                    assert(marks_piece(found[k], chars@, before, k));
                }
            }
        }
        i += 1;
    }
    let ghost pieces = split(chars@, sep);
    let ghost found = out@;
    proof {
        assert(chars@.take(i as int) =~= chars@);
    }
    out.push((start, i));
    proof {
        assert forall|k: int| 0 <= k < out@.len() implies marks_piece(
            #[trigger] out@[k],
            chars@,
            pieces,
            k,
        ) by {
            if k < found.len() {
                assert(out@[k] == found[k]);
                assert(marks_piece(found[k], chars@, pieces, k));
            }
        }
        assert forall|k: int| 0 <= k < out@.len() - 1 implies (#[trigger] out@[k]).1 + 1 == out@[k
            + 1].0 by {
            assert(out@[k] == found[k]);
            if k + 1 < found.len() {
                assert(out@[k + 1] == found[k + 1]);
            }
        }
    }
    out
}

/// The ASCII digit for `d` as a one-character string.
fn digit_str(d: u32) -> (r: &'static str)
    requires
        d < 10,
    ensures
        r@ == seq![digit_char(d as nat)],
{
    proof {
        reveal_strlit("0");
        reveal_strlit("1");
        reveal_strlit("2");
        reveal_strlit("3");
        reveal_strlit("4");
        reveal_strlit("5");
        reveal_strlit("6");
        reveal_strlit("7");
        reveal_strlit("8");
        reveal_strlit("9");
    }
    let r = if d == 0 {
        "0"
    } else if d == 1 {
        "1"
    } else if d == 2 {
        "2"
    } else if d == 3 {
        "3"
    } else if d == 4 {
        "4"
    } else if d == 5 {
        "5"
    } else if d == 6 {
        "6"
    } else if d == 7 {
        "7"
    } else if d == 8 {
        "8"
    } else {
        "9"
    };
    assert(r@ =~= seq![digit_char(d as nat)]);
    r
}

/// The shortest base-ten numeral for `n`.
pub fn decimal_string(n: u32) -> (r: String)
    ensures
        r@ == decimal_text(n as nat),
    decreases n,
{
    if n < 10 {
        String::from_str(digit_str(n))
    } else {
        let mut s = decimal_string(n / 10);
        s.append(digit_str(n % 10));
        assert(s@ =~= decimal_text(n as nat));
        s
    }
}

/// A numeral denotes at least what any of its prefixes denotes.
pub proof fn lemma_decimal_value_grows(s: Seq<char>, k: int)
    requires
        0 <= k <= s.len(),
    ensures
        decimal_value(s.take(k)) <= decimal_value(s),
    decreases s.len(),
{
    if k == s.len() {
        assert(s.take(k) =~= s);
    } else {
        lemma_decimal_value_grows(s.drop_last(), k);
        assert(s.drop_last().take(k) =~= s.take(k));
    }
}

/// Reads `digits` as a base-ten number that may not exceed `limit`. The
/// empty sequence is read as zero.
pub fn parse_decimal(digits: &[char], limit: u32) -> (r: Option<u32>)
    ensures
        r == if all_digits(digits@) && decimal_value(digits@) <= limit {
            Some(decimal_value(digits@) as u32)
        } else {
            None
        },
{
    let mut value: u32 = 0;
    let mut i: usize = 0;
    while i < digits.len()
        invariant
            i <= digits@.len(),
            all_digits(digits@.take(i as int)),
            value == decimal_value(digits@.take(i as int)),
            value <= limit,
        decreases digits@.len() - i,
    {
        let c: char = digits[i];
        proof {
            assert(digits@.take(i + 1).drop_last() =~= digits@.take(i as int));
            assert(digits@.take(i + 1).last() == c);
        }
        if c < '0' || c > '9' {
            proof {
                assert(!is_digit(digits@[i as int]));
            }
            return None;
        }
        let next: u64 = (value as u64) * 10 + (c as u64 - 48);
        if next > limit as u64 {
            proof {
                lemma_decimal_value_grows(digits@, i + 1);
            }
            return None;
        }
        value = next as u32;
        proof {
            assert forall|j: int| 0 <= j < i + 1 implies is_digit(
                #[trigger] digits@.take(i + 1)[j],
            ) by {
                if j < i {
                    assert(digits@.take(i as int)[j] == digits@.take(i + 1)[j]);
                }
            }
        }
        i += 1;
    }
    proof {
        assert(digits@.take(i as int) =~= digits@);
    }
    Some(value)
}

} // verus!
