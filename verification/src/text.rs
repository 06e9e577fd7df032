//! Plain text operations: prefixes, suffixes, joining, decimal numbers, and the
//! three operations of the standard library that depend on Unicode tables.

use vstd::prelude::*;
use vstd::string::*;
use vstd::utf8::*;

verus! {

/// The text of each string of a list.
pub open spec fn texts(list: Seq<String>) -> Seq<Seq<char>> {
    Seq::new(list.len(), |i: int| list[i]@)
}

/// The text of an optional string.
pub open spec fn opt_text(s: Option<String>) -> Option<Seq<char>> {
    match s {
        Some(t) => Some(t@),
        None => None,
    }
}

/// The characters with the Unicode property `White_Space`.
pub open spec fn white_space(c: char) -> bool {
    ||| '\u{9}' <= c <= '\u{d}'
    ||| c == '\u{20}'
    ||| c == '\u{85}'
    ||| c == '\u{a0}'
    ||| c == '\u{1680}'
    ||| '\u{2000}' <= c <= '\u{200a}'
    ||| c == '\u{2028}'
    ||| c == '\u{2029}'
    ||| c == '\u{202f}'
    ||| c == '\u{205f}'
    ||| c == '\u{3000}'
}

/// `s` without its leading white space.
pub open spec fn trim_start(s: Seq<char>) -> Seq<char>
    decreases s.len(),
{
    if s.len() > 0 && white_space(s.first()) {
        trim_start(s.drop_first())
    } else {
        s
    }
}

/// `s` without its trailing white space.
pub open spec fn trim_end(s: Seq<char>) -> Seq<char>
    decreases s.len(),
{
    if s.len() > 0 && white_space(s.last()) {
        trim_end(s.drop_last())
    } else {
        s
    }
}

/// `s` without white space at either end.
pub open spec fn trimmed(s: Seq<char>) -> Seq<char> {
    trim_end(trim_start(s))
}

/// Whether `s` holds nothing but white space.
pub open spec fn blank(s: Seq<char>) -> bool {
    forall|i: int| 0 <= i < s.len() ==> white_space(#[trigger] s[i])
}

/// What the standard library makes of `s` in upper case. Which characters change,
/// and into what, is a matter of the Unicode tables.
pub uninterp spec fn upper_case(s: Seq<char>) -> Seq<char>;

/// A character with `a` to `z` turned into `A` to `Z`.
pub open spec fn ascii_upper(c: char) -> char {
    if 'a' <= c <= 'z' {
        (c as u32 - 32) as char
    } else {
        c
    }
}

/// `s` with `a` to `z` turned into `A` to `Z`.
pub open spec fn ascii_upper_case(s: Seq<char>) -> Seq<char> {
    Seq::new(s.len(), |i: int| ascii_upper(s[i]))
}

/// The text that the standard library reads from bytes that need not be valid
/// UTF-8: where they are not, replacement characters stand in for them.
pub uninterp spec fn lossy_utf8(bytes: Seq<u8>) -> Seq<char>;

/// Trusted: `str::trim`. The result is the text without leading and trailing
/// characters of the Unicode property `White_Space`.
#[verifier::external_body]
pub(crate) fn trim(s: &str) -> (t: &str)
    ensures
        t@ == trimmed(s@),
{
    s.trim()
}

/// Trusted: `str::to_uppercase`. The result depends on the text alone; on text that
/// is ASCII throughout, the letters `a` to `z` become `A` to `Z` and all else stays.
/// Nothing is said of what happens to other letters.
#[verifier::external_body]
pub(crate) fn to_uppercase(s: &str) -> (t: String)
    ensures
        t@ == upper_case(s@),
        is_ascii_chars(s@) ==> t@ == ascii_upper_case(s@),
{
    s.to_uppercase()
}

/// Trusted: `String::from_utf8_lossy`. The result depends on the bytes alone; valid
/// UTF-8 is read as the text that it encodes. Nothing is said of where the replacement
/// characters go in other input.
#[verifier::external_body]
pub(crate) fn from_utf8_lossy(bytes: &[u8]) -> (t: String)
    ensures
        t@ == lossy_utf8(bytes@),
        valid_utf8(bytes@) ==> t@ == decode_utf8(bytes@),
{
    String::from_utf8_lossy(bytes).into_owned()
}

proof fn lemma_trim_end_empty(s: Seq<char>)
    ensures
        trim_end(s).len() == 0 <==> blank(s),
    decreases s.len(),
{
    if s.len() > 0 {
        if white_space(s.last()) {
            let rest = s.drop_last();
            lemma_trim_end_empty(rest);
            if blank(rest) {
                assert forall|i: int| 0 <= i < s.len() implies white_space(#[trigger] s[i]) by {
                    if i < rest.len() {
                        assert(white_space(rest[i]));
                    }
                }
            } else {
                let i = choose|i: int| 0 <= i < rest.len() && !white_space(#[trigger] rest[i]);
                assert(!white_space(s[i]));
            }
        } else {
            assert(!white_space(s[s.len() - 1]));
        }
    }
}

/// Trimming leaves nothing exactly where there is nothing but white space.
pub proof fn lemma_trimmed_empty(s: Seq<char>)
    ensures
        trimmed(s).len() == 0 <==> blank(s),
    decreases s.len(),
{
    if s.len() > 0 && white_space(s.first()) {
        let rest = s.drop_first();
        lemma_trimmed_empty(rest);
        if blank(rest) {
            assert forall|i: int| 0 <= i < s.len() implies white_space(#[trigger] s[i]) by {
                if i > 0 {
                    assert(white_space(rest[i - 1]));
                }
            }
        } else {
            let i = choose|i: int| 0 <= i < rest.len() && !white_space(#[trigger] rest[i]);
            assert(!white_space(s[i + 1]));
        }
    } else {
        lemma_trim_end_empty(s);
    }
}

/// Whether a line holds nothing but white space.
pub fn is_blank(line: &str) -> (b: bool)
    ensures
        b == blank(line@),
{
    proof {
        lemma_trimmed_empty(line@);
    }
    trim(line).is_empty()
}

/// Whether `s` holds `part` from its character `at` on.
fn matches_at(s: &str, part: &str, at: usize) -> (b: bool)
    requires
        at + part@.len() <= s@.len() <= usize::MAX,
    ensures
        b == (s@.subrange(at as int, at + part@.len()) == part@),
{
    let n: usize = part.unicode_len();
    let mut i: usize = 0;
    while i < n
        invariant
            n == part@.len(),
            at + n <= s@.len() <= usize::MAX,
            i <= n,
            forall|j: int| 0 <= j < i ==> s@[at + j] == part@[j],
        decreases n - i,
    {
        if s.get_char(at + i) != part.get_char(i) {
            assert(s@.subrange(at as int, at + n)[i as int] != part@[i as int]);
            return false;
        }
        i += 1;
    }
    assert(s@.subrange(at as int, at + n) =~= part@);
    true
}

/// Whether `s` begins with `prefix`.
pub fn starts_with(s: &str, prefix: &str) -> (b: bool)
    ensures
        b == prefix@.is_prefix_of(s@),
{
    prefix.unicode_len() <= s.unicode_len() && matches_at(s, prefix, 0)
}

/// Whether `s` ends with `suffix`.
pub fn ends_with(s: &str, suffix: &str) -> (b: bool)
    ensures
        b == suffix@.is_suffix_of(s@),
{
    let n: usize = suffix.unicode_len();
    let whole: usize = s.unicode_len();
    n <= whole && matches_at(s, suffix, whole - n)
}

/// `s` without `prefix`, where it begins with it; `s` itself where it does not.
pub open spec fn without_prefix(s: Seq<char>, prefix: Seq<char>) -> Seq<char> {
    if prefix.is_prefix_of(s) {
        s.skip(prefix.len() as int)
    } else {
        s
    }
}

/// Takes `prefix` off the front of `s`, once, if it is there.
pub fn strip_prefix(s: &str, prefix: &str) -> (rest: String)
    ensures
        rest@ == without_prefix(s@, prefix@),
{
    if starts_with(s, prefix) {
        s.substring_char(prefix.unicode_len(), s.unicode_len()).to_string()
    } else {
        s.to_string()
    }
}

/// The parts one after the other, with `sep` between each and the next.
pub open spec fn joined(parts: Seq<Seq<char>>, sep: Seq<char>) -> Seq<char>
    decreases parts.len(),
{
    if parts.len() == 0 {
        Seq::empty()
    } else if parts.len() == 1 {
        parts[0]
    } else {
        parts[0] + sep + joined(parts.drop_first(), sep)
    }
}

/// Joins `parts`, with `sep` between each and the next.
pub fn join(parts: &Vec<String>, sep: &str) -> (whole: String)
    ensures
        whole@ == joined(texts(parts@), sep@),
{
    if parts.len() == 0 {
        return String::new();
    }
    let ghost all = texts(parts@);
    let mut whole: String = parts[0].clone();
    let mut i: usize = 1;
    proof {
        assert(all.drop_first() =~= all.skip(1));
        assert(all.len() == 1 ==> joined(all, sep@) =~= whole@);
        assert(all.len() > 1 ==> joined(all, sep@) =~= whole@ + (sep@ + joined(all.skip(1), sep@)));
    }
    while i < parts.len()
        invariant
            all == texts(parts@),
            1 <= i <= parts.len(),
            i == parts.len() ==> joined(all, sep@) == whole@,
            i < parts.len() ==> joined(all, sep@) == whole@ + (sep@ + joined(
                all.skip(i as int),
                sep@,
            )),
        decreases parts.len() - i,
    {
        let ghost before = whole@;
        let ghost rest = all.skip(i as int);
        whole.append(sep);
        whole.append(parts[i].as_str());
        i += 1;
        proof {
            assert(rest.drop_first() =~= all.skip(i as int));
            assert(rest.len() == 1 ==> joined(all, sep@) =~= whole@);
            assert(rest.len() > 1 ==> joined(all, sep@) =~= whole@ + (sep@ + joined(
                all.skip(i as int),
                sep@,
            )));
        }
    }
    whole
}

/// Whether `part` stands in `whole` at the position `at`.
pub open spec fn holds_at(whole: Seq<char>, part: Seq<char>, at: int) -> bool {
    0 <= at <= whole.len() - part.len() && whole.subrange(at, at + part.len()) == part
}

/// Where in the joined text part `i` begins.
pub open spec fn part_start(parts: Seq<Seq<char>>, sep: Seq<char>, i: int) -> int
    decreases i,
{
    if i <= 0 {
        0
    } else {
        parts[0].len() + sep.len() + part_start(parts.drop_first(), sep, i - 1)
    }
}

/// Each part stands in the joined text, at its start.
pub proof fn lemma_joined_holds_part(parts: Seq<Seq<char>>, sep: Seq<char>, i: int)
    requires
        0 <= i < parts.len(),
    ensures
        holds_at(joined(parts, sep), parts[i], part_start(parts, sep, i)),
    decreases parts.len(),
{
    let whole = joined(parts, sep);
    let at = part_start(parts, sep, i);
    if i == 0 {
        assert(whole.subrange(0, parts[0].len() as int) =~= parts[0]);
    } else {
        let rest = parts.drop_first();
        lemma_joined_holds_part(rest, sep, i - 1);
        let inner = part_start(rest, sep, i - 1);
        assert(whole.subrange(at, at + parts[i].len()) =~= joined(rest, sep).subrange(
            inner,
            inner + parts[i].len(),
        ));
    }
}

/// Parts stand in the joined text in their order, and the separator stands between.
pub proof fn lemma_joined_in_order(parts: Seq<Seq<char>>, sep: Seq<char>, i: int, j: int)
    requires
        0 <= i < j < parts.len(),
    ensures
        part_start(parts, sep, i) + parts[i].len() + sep.len() <= part_start(parts, sep, j),
    decreases j,
{
    let rest = parts.drop_first();
    if i == 0 {
        lemma_joined_holds_part(rest, sep, j - 1);
    } else {
        lemma_joined_in_order(rest, sep, i - 1, j - 1);
    }
}

/// The decimal digit of value `d`.
pub open spec fn digit(d: nat) -> char {
    ('0' as u32 + d) as char
}

/// `n` in decimal notation, without leading zeros.
pub open spec fn decimal_nat(n: nat) -> Seq<char>
    decreases n,
{
    if n < 10 {
        seq![digit(n)]
    } else {
        decimal_nat(n / 10).push(digit(n % 10))
    }
}

/// `n` in decimal notation, with a minus sign where it is negative.
pub open spec fn decimal_int(n: int) -> Seq<char> {
    if n < 0 {
        seq!['-'] + decimal_nat((-n) as nat)
    } else {
        decimal_nat(n as nat)
    }
}

fn digit_text(d: u64) -> (t: &'static str)
    requires
        d < 10,
    ensures
        t@ == seq![digit(d as nat)],
{
    proof {
        reveal_strlit("0");
        reveal_strlit("1");
        reveal_strlit("2");
        reveal_strlit("3");
        reveal_strlit("4");
        reveal_strlit("5");
        reveal_strlit("6");
        reveal_strlit("7");
        reveal_strlit("8");
        reveal_strlit("9");
    }
    match d {
        0 => "0",
        1 => "1",
        2 => "2",
        3 => "3",
        4 => "4",
        5 => "5",
        6 => "6",
        7 => "7",
        8 => "8",
        _ => "9",
    }
}

fn decimal_u64(n: u64) -> (t: String)
    ensures
        t@ == decimal_nat(n as nat),
    decreases n,
{
    if n < 10 {
        digit_text(n).to_string()
    } else {
        let mut t: String = decimal_u64(n / 10);
        let ghost front = t@;
        t.append(digit_text(n % 10));
        assert(t@ =~= front.push(digit((n % 10) as nat)));
        t
    }
}

/// Writes a number in decimal notation.
pub fn decimal(n: i32) -> (t: String)
    ensures
        t@ == decimal_int(n as int),
{
    if n < 0 {
        proof {
            reveal_strlit("-");
            assert("-"@ =~= seq!['-']);
        }
        let size: u64 = (-(n as i64)) as u64;
        "-".to_string().concat(decimal_u64(size).as_str())
    } else {
        decimal_u64(n as u64)
    }
}

} // verus!
