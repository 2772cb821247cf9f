//! Text primitives shared by the parsers: whitespace trimming, line
//! splitting, substring search, separator folding and decimal parsing, each
//! with a mathematical definition over sequences of characters.

use vstd::prelude::*;
use vstd::utf8::{decode_utf8, valid_utf8};

verus! {

/// Whether `c` carries the Unicode `White_Space` property.
pub open spec fn is_space(c: char) -> bool {
    let u = c as u32;
    ||| 0x09 <= u <= 0x0D
    ||| u == 0x20
    ||| u == 0x85
    ||| u == 0xA0
    ||| u == 0x1680
    ||| 0x2000 <= u <= 0x200A
    ||| u == 0x2028
    ||| u == 0x2029
    ||| u == 0x202F
    ||| u == 0x205F
    ||| u == 0x3000
}

/// Whether `c` is one of the ten ASCII decimal digits.
pub open spec fn is_digit(c: char) -> bool {
    0x30 <= c as u32 <= 0x39
}

/// The numeric value of an ASCII decimal digit.
pub open spec fn digit_value(c: char) -> nat {
    (c as u32 - 0x30) as nat
}

/// `s` without its leading whitespace.
pub open spec fn skip_space_front(s: Seq<char>) -> Seq<char>
    decreases s.len(),
{
    if s.len() > 0 && is_space(s[0]) {
        skip_space_front(s.drop_first())
    } else {
        s
    }
}

/// `s` without its trailing whitespace.
pub open spec fn skip_space_back(s: Seq<char>) -> Seq<char>
    decreases s.len(),
{
    if s.len() > 0 && is_space(s.last()) {
        skip_space_back(s.drop_last())
    } else {
        s
    }
}

/// `s` without leading and trailing whitespace.
pub open spec fn trimmed(s: Seq<char>) -> Seq<char> {
    skip_space_back(skip_space_front(s))
}

/// The index of the first `c` in `s`, or `s.len()` when there is none.
pub open spec fn find_char(s: Seq<char>, c: char) -> nat
    decreases s.len(),
{
    if s.len() == 0 {
        0
    } else if s[0] == c {
        0
    } else {
        1 + find_char(s.drop_first(), c)
    }
}

/// A line without the carriage return that preceded its line feed.
pub open spec fn strip_return(line: Seq<char>) -> Seq<char> {
    if line.len() > 0 && line.last() == '\r' {
        line.drop_last()
    } else {
        line
    }
}

/// The lines of `s`. A line ends at a line feed, which is dropped together
/// with a carriage return directly before it. Text after the last line feed
/// is a line of its own unless it is empty.
pub open spec fn lines_of(s: Seq<char>) -> Seq<Seq<char>>
    decreases s.len(),
{
    if s.len() == 0 {
        Seq::empty()
    } else {
        let k = find_char(s, '\n');
        if k >= s.len() {
            seq![s]
        } else {
            seq![strip_return(s.subrange(0, k as int))] + lines_of(
                s.subrange(k as int + 1, s.len() as int),
            )
        }
    }
}

/// Whether `needle` stands in `hay` at index `i`.
pub open spec fn occurs_at(hay: Seq<char>, needle: Seq<char>, i: int) -> bool {
    &&& 0 <= i
    &&& i + needle.len() <= hay.len()
    &&& hay.subrange(i, i + needle.len()) == needle
}

/// Whether `needle` stands somewhere in `hay`.
pub open spec fn contains(hay: Seq<char>, needle: Seq<char>) -> bool {
    exists|i: int| occurs_at(hay, needle, i)
}

/// `s` with every pair of backslashes, taken from the left without
/// overlap, replaced by one forward slash.
pub open spec fn fold_separators(s: Seq<char>) -> Seq<char>
    decreases s.len(),
{
    if s.len() == 0 {
        s
    } else if s.len() >= 2 && s[0] == '\\' && s[1] == '\\' {
        seq!['/'] + fold_separators(s.subrange(2, s.len() as int))
    } else {
        seq![s[0]] + fold_separators(s.drop_first())
    }
}

/// Whether every character of `s` is a decimal digit.
pub open spec fn all_digits(s: Seq<char>) -> bool {
    forall|i: int| 0 <= i < s.len() ==> is_digit(#[trigger] s[i])
}

/// The number that the decimal digits `s` denote.
pub open spec fn decimal_value(s: Seq<char>) -> nat
    decreases s.len(),
{
    if s.len() == 0 {
        0
    } else {
        decimal_value(s.drop_last()) * 10 + digit_value(s.last())
    }
}

/// The digits of an unsigned decimal numeral: `s` without one leading plus
/// sign.
pub open spec fn numeral_digits(s: Seq<char>) -> Seq<char> {
    if s.len() > 0 && s[0] == '+' {
        s.drop_first()
    } else {
        s
    }
}

/// Whether `s` is an unsigned decimal numeral: an optional plus sign and at
/// least one digit.
pub open spec fn is_numeral(s: Seq<char>) -> bool {
    numeral_digits(s).len() > 0 && all_digits(numeral_digits(s))
}

/// The entry that the caller picked from a list of `count` entries shown
/// with the numbers from 1: the index, from 0, of the entry whose number
/// `input` holds. `input` has to be, between whitespace, a decimal numeral
/// from 1 to `count`.
pub open spec fn selection(input: Seq<char>, count: nat) -> Option<nat> {
    let numeral = trimmed(input);
    let number = decimal_value(numeral_digits(numeral));
    if is_numeral(numeral) && 1 <= number <= count {
        Some((number - 1) as nat)
    } else {
        None
    }
}

/// Whether an answer to a yes-or-no question means yes: between
/// whitespace it is `y` or `yes`, in letters of either case.
pub open spec fn affirmative(answer: Seq<char>) -> bool {
    let word = trimmed(answer);
    ||| word.len() == 1 && (word[0] == 'y' || word[0] == 'Y')
    ||| word.len() == 3 && (word[0] == 'y' || word[0] == 'Y') && (word[1] == 'e' || word[1]
        == 'E') && (word[2] == 's' || word[2] == 'S')
}

/// The text that `bytes` encode, when they are valid UTF-8.
pub open spec fn decoded(bytes: Seq<u8>) -> Option<Seq<char>> {
    if valid_utf8(bytes) {
        Some(decode_utf8(bytes))
    } else {
        None
    }
}

/// Skipping the whitespace in front leaves what follows the first `a`
/// characters, when those are whitespace and the next one is not.
pub proof fn lemma_skip_space_front(s: Seq<char>, a: int)
    requires
        0 <= a <= s.len(),
        forall|i: int| 0 <= i < a ==> is_space(#[trigger] s[i]),
        a == s.len() || !is_space(s[a]),
    ensures
        skip_space_front(s) == s.subrange(a, s.len() as int),
    decreases a,
{
    if a == 0 {
        assert(s.subrange(0, s.len() as int) =~= s);
    } else {
        let t = s.drop_first();
        assert forall|i: int| 0 <= i < a - 1 implies is_space(#[trigger] t[i]) by {
            assert(t[i] == s[i + 1]);
        }
        lemma_skip_space_front(t, a - 1);
        assert(t.subrange(a - 1, t.len() as int) =~= s.subrange(a, s.len() as int));
    }
}

proof fn lemma_skip_space_back(s: Seq<char>, b: int)
    requires
        0 <= b <= s.len(),
        forall|i: int| b <= i < s.len() ==> is_space(#[trigger] s[i]),
        b == 0 || !is_space(s[b - 1]),
    ensures
        skip_space_back(s) == s.subrange(0, b),
    decreases s.len() - b,
{
    if b == s.len() {
        assert(s.subrange(0, b) =~= s);
    } else {
        let t = s.drop_last();
        lemma_skip_space_back(t, b);
        assert(t.subrange(0, b) =~= s.subrange(0, b));
    }
}

proof fn lemma_find_char(s: Seq<char>, c: char, k: int)
    requires
        0 <= k <= s.len(),
        forall|i: int| 0 <= i < k ==> #[trigger] s[i] != c,
        k == s.len() || s[k] == c,
    ensures
        find_char(s, c) == k,
    decreases k,
{
    if k > 0 {
        let t = s.drop_first();
        assert forall|i: int| 0 <= i < k - 1 implies #[trigger] t[i] != c by {
            assert(t[i] == s[i + 1]);
        }
        lemma_find_char(t, c, k - 1);
    }
}

/// The whitespace in front of `s` has a length: skipping it leaves what
/// follows that many characters, all of them whitespace.
pub proof fn lemma_skip_space_front_offset(s: Seq<char>) -> (a: int)
    ensures
        0 <= a <= s.len(),
        forall|i: int| 0 <= i < a ==> is_space(#[trigger] s[i]),
        a == s.len() || !is_space(s[a]),
        skip_space_front(s) == s.subrange(a, s.len() as int),
    decreases s.len(),
{
    if s.len() > 0 && is_space(s[0]) {
        let t = s.drop_first();
        let b = lemma_skip_space_front_offset(t);
        assert forall|i: int| 0 <= i < b + 1 implies is_space(#[trigger] s[i]) by {
            if i > 0 {
                assert(s[i] == t[i - 1]);
            }
        }
        assert(t.subrange(b, t.len() as int) =~= s.subrange(b + 1, s.len() as int));
        if b + 1 < s.len() {
            assert(s[b + 1] == t[b]);
        }
        b + 1
    } else {
        assert(s.subrange(0, s.len() as int) =~= s);
        0
    }
}

/// `find_char` finds the first: it lies within `s` or at its end, no
/// character before it is `c`, and the one at it is, if there is one.
pub proof fn lemma_find_char_is_first(s: Seq<char>, c: char)
    ensures
        find_char(s, c) <= s.len(),
        forall|i: int| 0 <= i < find_char(s, c) ==> #[trigger] s[i] != c,
        find_char(s, c) < s.len() ==> s[find_char(s, c) as int] == c,
    decreases s.len(),
{
    if s.len() > 0 && s[0] != c {
        let t = s.drop_first();
        lemma_find_char_is_first(t, c);
        assert forall|i: int| 0 <= i < find_char(s, c) implies #[trigger] s[i] != c by {
            if i > 0 {
                assert(s[i] == t[i - 1]);
            }
        }
        if find_char(s, c) < s.len() {
            assert(s[find_char(s, c) as int] == t[find_char(t, c) as int]);
        }
    }
}

/// No line holds a line feed.
pub proof fn lemma_lines_hold_no_line_feed(s: Seq<char>)
    ensures
        forall|i: int, j: int|
            0 <= i < lines_of(s).len() && 0 <= j < lines_of(s)[i].len() ==> #[trigger] lines_of(
                s,
            )[i][j] != '\n',
    decreases s.len(),
{
    if s.len() > 0 {
        lemma_find_char_is_first(s, '\n');
        let k = find_char(s, '\n') as int;
        if k < s.len() {
            let head = strip_return(s.subrange(0, k));
            let rest = s.subrange(k + 1, s.len() as int);
            lemma_lines_hold_no_line_feed(rest);
            assert(lines_of(s) == seq![head] + lines_of(rest));
            assert forall|i: int, j: int|
                0 <= i < lines_of(s).len() && 0 <= j < lines_of(s)[i].len() implies #[trigger] lines_of(
                s,
            )[i][j] != '\n' by {
                if i == 0 {
                    assert(lines_of(s)[0] == head);
                    assert(head[j] == s[j]);
                } else {
                    assert(lines_of(s)[i] == lines_of(rest)[i - 1]);
                }
            }
        }
    }
}

/// The characters of `s`, in a vector.
pub fn to_chars(s: &str) -> (out: Vec<char>)
    ensures
        out@ == s@,
{
    let mut out: Vec<char> = Vec::new();
    for c in it: s.chars()
        invariant
            out@ == it.seq().take(it.index() as int),
            it.seq() == s@,
    {
        out.push(c);
    }
    out
}

/// The characters of `s` from index `from` up to `to`, as an owned string.
pub fn slice(s: &str, from: usize, to: usize) -> (out: String)
    requires
        from <= to <= s@.len(),
    ensures
        out@ == s@.subrange(from as int, to as int),
{
    String::from_str(s.substring_char(from, to))
}

/// Tests a character for the `White_Space` property.
pub fn char_is_space(c: char) -> (b: bool)
    ensures
        b == is_space(c),
{
    let u: u32 = c as u32;
    (0x09 <= u && u <= 0x0D) || u == 0x20 || u == 0x85 || u == 0xA0 || u == 0x1680 || (0x2000 <= u
        && u <= 0x200A) || u == 0x2028 || u == 0x2029 || u == 0x202F || u == 0x205F || u == 0x3000
}

/// Tests a character for being an ASCII decimal digit.
pub fn char_is_digit(c: char) -> (b: bool)
    ensures
        b == is_digit(c),
{
    let u: u32 = c as u32;
    0x30 <= u && u <= 0x39
}

/// Removes leading and trailing whitespace.
pub fn trim(s: &str) -> (out: String)
    ensures
        out@ == trimmed(s@),
{
    let chars = to_chars(s);
    let n: usize = chars.len();
    let mut a: usize = 0;
    while a < n && char_is_space(chars[a])
        invariant
            a <= n,
            n == chars@.len(),
            forall|i: int| 0 <= i < a ==> is_space(#[trigger] chars@[i]),
        decreases n - a,
    {
        a += 1;
    }
    let mut b: usize = n;
    while b > a && char_is_space(chars[b - 1])
        invariant
            a <= b <= n,
            n == chars@.len(),
            forall|i: int| b <= i < n ==> is_space(#[trigger] chars@[i]),
        decreases b,
    {
        b -= 1;
    }
    proof {
        let front = s@.subrange(a as int, n as int);
        lemma_skip_space_front(s@, a as int);
        assert forall|i: int| b - a <= i < front.len() implies is_space(#[trigger] front[i]) by {
            assert(front[i] == chars@[i + a]);
        }
        lemma_skip_space_back(front, b - a);
        assert(front.subrange(0, b - a) =~= s@.subrange(a as int, b as int));
    }
    slice(s, a, b)
}

/// Splits text into its lines.
pub fn split_lines(s: &str) -> (out: Vec<String>)
    ensures
        out.deep_view() == lines_of(s@),
{
    let chars = to_chars(s);
    let n: usize = chars.len();
    let mut out: Vec<String> = Vec::new();
    let mut start: usize = 0;
    let mut pos: usize = 0;
    proof {
        assert(s@.subrange(0, n as int) =~= s@);
        assert(out.deep_view() + lines_of(s@) =~= lines_of(s@));
    }
    while pos < n
        invariant
            start <= pos <= n,
            n == chars@.len(),
            chars@ == s@,
            forall|i: int| start <= i < pos ==> #[trigger] chars@[i] != '\n',
            lines_of(s@) == out.deep_view() + lines_of(s@.subrange(start as int, n as int)),
        decreases n - pos,
    {
        if chars[pos] == '\n' {
            let end: usize = if pos > start && chars[pos - 1] == '\r' {
                pos - 1
            } else {
                pos
            };
            let line = slice(s, start, end);
            proof {
                let rest = s@.subrange(start as int, n as int);
                let k = pos - start;
                assert forall|i: int| 0 <= i < k implies #[trigger] rest[i] != '\n' by {
                    assert(rest[i] == chars@[i + start]);
                }
                lemma_find_char(rest, '\n', k);
                let raw = rest.subrange(0, k);
                assert(raw =~= s@.subrange(start as int, pos as int));
                assert(strip_return(raw) =~= line@);
                assert(rest.subrange(k + 1, rest.len() as int) =~= s@.subrange(
                    pos + 1,
                    n as int,
                ));
                assert(out.deep_view().push(line@) =~= out.deep_view() + seq![line@]);
            }
            let ghost before = out.deep_view();
            out.push(line);
            assert(out.deep_view() =~= before.push(line@));
            pos += 1;
            start = pos;
        } else {
            pos += 1;
        }
    }
    if start < n {
        let line = slice(s, start, n);
        proof {
            let rest = s@.subrange(start as int, n as int);
            assert forall|i: int| 0 <= i < rest.len() implies #[trigger] rest[i] != '\n' by {
                assert(rest[i] == chars@[i + start]);
            }
            lemma_find_char(rest, '\n', rest.len() as int);
            assert(out.deep_view().push(line@) =~= out.deep_view() + seq![rest]);
        }
        let ghost before = out.deep_view();
        out.push(line);
        assert(out.deep_view() =~= before.push(line@));
    } else {
        assert(out.deep_view() + Seq::<Seq<char>>::empty() =~= out.deep_view());
    }
    out
}

/// Searches `hay` for `needle`.
pub fn find_text(hay: &str, needle: &str) -> (found: bool)
    ensures
        found == contains(hay@, needle@),
{
    let h = to_chars(hay);
    let p = to_chars(needle);
    let n: usize = h.len();
    let m: usize = p.len();
    if m > n {
        assert forall|i: int| !occurs_at(hay@, needle@, i) by {}
        return false;
    }
    let mut i: usize = 0;
    while i <= n - m
        invariant
            m <= n,
            n == h@.len(),
            m == p@.len(),
            h@ == hay@,
            p@ == needle@,
            i <= n - m + 1,
            forall|j: int| 0 <= j < i ==> !occurs_at(hay@, needle@, j),
        decreases n - m + 1 - i,
    {
        let mut k: usize = 0;
        while k < m && h[i + k] == p[k]
            invariant
                k <= m,
                i + m <= n,
                n == h@.len(),
                m == p@.len(),
                forall|j: int| 0 <= j < k ==> h@[i + j] == p@[j],
            decreases m - k,
        {
            k += 1;
        }
        if k == m {
            assert(hay@.subrange(i as int, i + m) =~= needle@);
            assert(occurs_at(hay@, needle@, i as int));
            return true;
        }
        assert(!occurs_at(hay@, needle@, i as int)) by {
            if occurs_at(hay@, needle@, i as int) {
                assert(hay@.subrange(i as int, i + m)[k as int] == needle@[k as int]);
            }
        }
        i += 1;
    }
    assert forall|j: int| !occurs_at(hay@, needle@, j) by {}
    false
}

/// Replaces each pair of backslashes by one forward slash.
pub fn fold_backslashes(s: &str) -> (out: String)
    ensures
        out@ == fold_separators(s@),
{
    let chars = to_chars(s);
    let n: usize = chars.len();
    let mut out = String::new();
    let mut i: usize = 0;
    proof {
        assert(s@.subrange(0, n as int) =~= s@);
        assert(out@ + fold_separators(s@) =~= fold_separators(s@));
    }
    while i < n
        invariant
            i <= n,
            n == chars@.len(),
            chars@ == s@,
            fold_separators(s@) == out@ + fold_separators(s@.subrange(i as int, n as int)),
        decreases n - i,
    {
        let ghost rest = s@.subrange(i as int, n as int);
        if chars[i] == '\\' && i + 1 < n && chars[i + 1] == '\\' {
            proof {
                reveal_strlit("/");
                assert("/"@ =~= seq!['/']);
                assert(rest.subrange(2, rest.len() as int) =~= s@.subrange(i + 2, n as int));
            }
            out.append("/");
            i += 2;
        } else {
            proof {
                assert(rest.drop_first() =~= s@.subrange(i + 1, n as int));
                assert(s@.subrange(i as int, i + 1) =~= seq![rest[0]]);
            }
            out.append(s.substring_char(i, i + 1));
            i += 1;
        }
    }
    assert(out@ + Seq::<char>::empty() =~= out@);
    out
}

/// A numeral is worth at least as much as any of its prefixes.
proof fn lemma_decimal_value_prefix(s: Seq<char>, k: int)
    requires
        0 <= k <= s.len(),
    ensures
        decimal_value(s.take(k)) <= decimal_value(s),
    decreases s.len() - k,
{
    if k == s.len() {
        assert(s.take(k) =~= s);
    } else {
        lemma_decimal_value_prefix(s.drop_last(), k);
        assert(s.drop_last().take(k) =~= s.take(k));
    }
}

/// Reads the number of the entry that the caller picked out of `count`.
pub fn parse_selection(input: &str, count: usize) -> (picked: Option<usize>)
    ensures
        match picked {
            Some(index) => selection(input@, count as nat) == Some(index as nat),
            None => selection(input@, count as nat) is None,
        },
{
    let numeral = trim(input);
    let chars = to_chars(numeral.as_str());
    let n: usize = chars.len();
    let first: usize = if n > 0 && chars[0] == '+' {
        1
    } else {
        0
    };
    let ghost digits = numeral_digits(numeral@);
    assert(digits =~= chars@.subrange(first as int, n as int));
    if first == n {
        return None;
    }
    let mut value: usize = 0;
    let mut j: usize = first;
    assert(digits.take(0) =~= Seq::<char>::empty());
    while j < n
        invariant
            first <= j <= n,
            first < n,
            n == chars@.len(),
            numeral@ == trimmed(input@),
            digits == numeral_digits(numeral@),
            digits == chars@.subrange(first as int, n as int),
            value == decimal_value(digits.take(j - first)),
            value <= count,
            forall|k: int| 0 <= k < j - first ==> is_digit(#[trigger] digits[k]),
        decreases n - j,
    {
        let c = chars[j];
        if !char_is_digit(c) {
            assert(!is_digit(digits[j - first]));
            return None;
        }
        let code: u32 = c as u32;
        let digit: u32 = code - 0x30;
        let next: u128 = value as u128 * 10 + digit as u128;
        proof {
            let upto = digits.take(j - first + 1);
            assert(upto.drop_last() =~= digits.take(j - first));
            assert(upto.last() == c);
            assert(next == decimal_value(upto));
        }
        if next > count as u128 {
            proof {
                lemma_decimal_value_prefix(digits, j - first + 1);
            }
            return None;
        }
        value = next as usize;
        j += 1;
    }
    assert(digits.take(n - first) =~= digits);
    if value >= 1 {
        Some(value - 1)
    } else {
        None
    }
}

/// Tells whether an answer to a yes-or-no question means yes.
pub fn answers_yes(answer: &str) -> (yes: bool)
    ensures
        yes == affirmative(answer@),
{
    let word = to_chars(trim(answer).as_str());
    if word.len() == 1 {
        word[0] == 'y' || word[0] == 'Y'
    } else if word.len() == 3 {
        (word[0] == 'y' || word[0] == 'Y') && (word[1] == 'e' || word[1] == 'E') && (word[2] == 's'
            || word[2] == 'S')
    } else {
        false
    }
}

/// Folding leaves no pair of backslashes behind.
pub proof fn lemma_fold_separators_leaves_no_pair(s: Seq<char>, i: int)
    requires
        0 <= i,
        i + 1 < fold_separators(s).len(),
    ensures
        !(fold_separators(s)[i] == '\\' && fold_separators(s)[i + 1] == '\\'),
    decreases s.len(),
{
    let folded = fold_separators(s);
    if s.len() == 0 {
    } else if s.len() >= 2 && s[0] == '\\' && s[1] == '\\' {
        let rest = s.subrange(2, s.len() as int);
        assert(folded == seq!['/'] + fold_separators(rest));
        if i > 0 {
            lemma_fold_separators_leaves_no_pair(rest, i - 1);
            assert(folded[i] == fold_separators(rest)[i - 1]);
            assert(folded[i + 1] == fold_separators(rest)[i]);
        } else {
            assert(folded[0] == '/');
        }
    } else {
        let rest = s.drop_first();
        assert(folded == seq![s[0]] + fold_separators(rest));
        if i > 0 {
            lemma_fold_separators_leaves_no_pair(rest, i - 1);
            assert(folded[i] == fold_separators(rest)[i - 1]);
            assert(folded[i + 1] == fold_separators(rest)[i]);
        } else {
            assert(folded[0] == s[0]);
            assert(folded[1] == fold_separators(rest)[0]);
            if s[0] == '\\' {
                // A lone backslash is followed by another character, which
                // the folded rest begins with.
                assert(rest.len() > 0);
                assert(rest[0] == s[1]);
                assert(fold_separators(rest) == seq![rest[0]] + fold_separators(
                    rest.drop_first(),
                ));
            }
        }
    }
}

/// Decodes bytes as UTF-8 text.
///
/// Trusted: stands for `std::str::from_utf8`, which accepts exactly the
/// well-formed UTF-8 byte sequences and hands back the text they encode.
#[verifier::external_body]
pub(crate) fn decode(bytes: &Vec<u8>) -> (text: Option<&str>)
    ensures
        match text {
            Some(s) => decoded(bytes@) == Some(s@),
            None => decoded(bytes@) is None,
        },
{
    std::str::from_utf8(bytes.as_slice()).ok()
}

} // verus!
