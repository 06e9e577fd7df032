//! What holds of the text operations, whatever the text.

use vstd::prelude::*;

use crate::text;

verus! {

/// The code points of white space.
pub open spec fn is_white(c: char) -> bool {
    let n = c as int;
    ||| 9 <= n <= 13
    ||| n == 32
    ||| n == 133
    ||| n == 160
    ||| n == 5760
    ||| 8192 <= n <= 8202
    ||| n == 8232
    ||| n == 8233
    ||| n == 8239
    ||| n == 8287
    ||| n == 12288
}

/// A text is blank exactly where each of its characters is white space.
pub proof fn law_blank_means_white_throughout(s: Seq<char>)
    ensures
        text::blank(s) <==> forall|i: int| 0 <= i < s.len() ==> is_white(#[trigger] s[i]),
{
    assert forall|c: char| text::white_space(c) <==> is_white(c) by {}
    if text::blank(s) {
        assert forall|i: int| 0 <= i < s.len() implies is_white(#[trigger] s[i]) by {
            assert(text::white_space(s[i]));
        }
    }
    if forall|i: int| 0 <= i < s.len() ==> is_white(#[trigger] s[i]) {
        assert forall|i: int| 0 <= i < s.len() implies text::white_space(#[trigger] s[i]) by {
            assert(is_white(s[i]));
        }
    }
}

/// Whether `s` from `a` to `b` is what is left when white space is taken off both ends.
pub open spec fn is_core(s: Seq<char>, a: int, b: int) -> bool {
    &&& 0 <= a <= b <= s.len()
    &&& forall|i: int| 0 <= i < a ==> is_white(#[trigger] s[i])
    &&& forall|i: int| b <= i < s.len() ==> is_white(#[trigger] s[i])
    &&& a < b ==> !is_white(s[a]) && !is_white(s[b - 1])
}

proof fn lemma_trim_start(s: Seq<char>) -> (a: int)
    ensures
        0 <= a <= s.len(),
        text::trim_start(s) == s.skip(a),
        forall|i: int| 0 <= i < a ==> is_white(#[trigger] s[i]),
        a < s.len() ==> !is_white(s[a]),
    decreases s.len(),
{
    if s.len() > 0 && text::white_space(s.first()) {
        let rest = s.drop_first();
        let a = lemma_trim_start(rest);
        assert(rest.skip(a) =~= s.skip(a + 1));
        assert forall|i: int| 0 <= i < a + 1 implies is_white(#[trigger] s[i]) by {
            if i > 0 {
                assert(is_white(rest[i - 1]));
            }
        }
        if a < rest.len() {
            assert(!is_white(rest[a]));
        }
        a + 1
    } else {
        assert(s.skip(0) =~= s);
        0
    }
}

proof fn lemma_trim_end(s: Seq<char>) -> (b: int)
    ensures
        0 <= b <= s.len(),
        text::trim_end(s) == s.take(b),
        forall|i: int| b <= i < s.len() ==> is_white(#[trigger] s[i]),
        b > 0 ==> !is_white(s[b - 1]),
    decreases s.len(),
{
    if s.len() > 0 && text::white_space(s.last()) {
        let rest = s.drop_last();
        let b = lemma_trim_end(rest);
        assert(rest.take(b) =~= s.take(b));
        assert forall|i: int| b <= i < s.len() implies is_white(#[trigger] s[i]) by {
            if i < rest.len() {
                assert(is_white(rest[i]));
            }
        }
        if b > 0 {
            assert(!is_white(rest[b - 1]));
        }
        b
    } else {
        assert(s.take(s.len() as int) =~= s);
        s.len() as int
    }
}

/// Trimming leaves a stretch of the text that neither begins nor ends with white space,
/// and takes away nothing but white space.
pub proof fn law_trimming_takes_white_space_off_both_ends(s: Seq<char>)
    ensures
        exists|a: int, b: int| #[trigger] is_core(s, a, b) && text::trimmed(s) == s.subrange(a, b),
{
    let a = lemma_trim_start(s);
    let rest = s.skip(a);
    let n = lemma_trim_end(rest);
    let b = a + n;
    assert forall|i: int| b <= i < s.len() implies is_white(#[trigger] s[i]) by {
        assert(is_white(rest[i - a]));
    }
    if a < b {
        assert(!is_white(rest[n - 1]));
    }
    assert(is_core(s, a, b));
    assert(text::trimmed(s) =~= s.subrange(a, b));
}

/// The number that a row of decimal digits stands for.
pub open spec fn digits_value(digits: Seq<char>) -> int
    decreases digits.len(),
{
    if digits.len() == 0 {
        0
    } else {
        10 * digits_value(digits.drop_last()) + (digits.last() as u32 - '0' as u32)
    }
}

proof fn lemma_decimal_nat(n: nat)
    ensures
        ({
            let t = text::decimal_nat(n);
            &&& t.len() > 0
            &&& forall|i: int| 0 <= i < t.len() ==> '0' <= #[trigger] t[i] <= '9'
            &&& digits_value(t) == n
            &&& n > 0 ==> t[0] != '0'
            &&& n == 0 ==> t.len() == 1
        }),
    decreases n,
{
    let t = text::decimal_nat(n);
    reveal_with_fuel(digits_value, 2);
    if n < 10 {
        assert(t.drop_last() =~= Seq::empty());
    } else {
        let front = text::decimal_nat(n / 10);
        lemma_decimal_nat(n / 10);
        assert(t.drop_last() =~= front);
        assert forall|i: int| 0 <= i < t.len() implies '0' <= #[trigger] t[i] <= '9' by {
            if i < front.len() {
                assert(t[i] == front[i]);
            }
        }
        assert(t[0] == front[0]);
    }
}

/// A number is written with the digits that stand for it, without needless zeros, and
/// with a minus sign in front where it is negative.
pub proof fn law_decimal_reads_back(n: int)
    ensures
        ({
            let t = text::decimal_int(n);
            let digits = if n < 0 {
                t.skip(1)
            } else {
                t
            };
            &&& n < 0 ==> t.len() > 1 && t[0] == '-'
            &&& digits.len() > 0
            &&& forall|i: int| 0 <= i < digits.len() ==> '0' <= #[trigger] digits[i] <= '9'
            &&& digits_value(digits) == (if n < 0 {
                -n
            } else {
                n
            })
            &&& digits.len() > 1 ==> digits[0] != '0'
        }),
{
    if n < 0 {
        lemma_decimal_nat((-n) as nat);
        assert(text::decimal_int(n).skip(1) =~= text::decimal_nat((-n) as nat));
    } else {
        lemma_decimal_nat(n as nat);
    }
}

/// One more part is appended behind a separator, unless it is the first.
pub proof fn law_joining_one_more_part(
    parts: Seq<Seq<char>>,
    more: Seq<char>,
    sep: Seq<char>,
)
    ensures
        text::joined(Seq::<Seq<char>>::empty(), sep).len() == 0,
        parts.len() == 0 ==> text::joined(parts.push(more), sep) == more,
        parts.len() > 0 ==> text::joined(parts.push(more), sep) == text::joined(parts, sep) + sep
            + more,
    decreases parts.len(),
{
    let all = parts.push(more);
    if parts.len() == 1 {
        assert(all.drop_first() =~= seq![more]);
        assert(text::joined(seq![more], sep) == more);
        assert(text::joined(all, sep) =~= parts[0] + sep + more);
    } else if parts.len() > 1 {
        let rest = parts.drop_first();
        law_joining_one_more_part(rest, more, sep);
        assert(all.drop_first() =~= rest.push(more));
        assert(text::joined(all, sep) =~= text::joined(parts, sep) + sep + more);
    }
}

/// A prefix comes off once where it is there; without it the text stays.
pub proof fn law_prefix_comes_off_once(prefix: Seq<char>, s: Seq<char>)
    ensures
        text::without_prefix(prefix + s, prefix) == s,
        !prefix.is_prefix_of(s) ==> text::without_prefix(s, prefix) == s,
{
    let whole = prefix + s;
    assert(whole.subrange(0, prefix.len() as int) =~= prefix);
    assert(whole.skip(prefix.len() as int) =~= s);
}

/// Strings are seen as the text that they hold.
pub proof fn law_texts_are_those_of_the_strings(list: Seq<String>, i: int, s: String)
    requires
        0 <= i < list.len(),
    ensures
        text::texts(list).len() == list.len(),
        text::texts(list)[i] == list[i]@,
        text::opt_text(Some(s)) == Some(s@),
        text::opt_text(None::<String>) is None,
{
}

} // verus!
