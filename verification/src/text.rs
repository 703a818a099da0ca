//! Text operations on sequences of characters: trimming, splitting, reading and
//! writing decimal numbers.
use vstd::prelude::*;
use vstd::string::*;
use vstd::utf8::is_ascii_chars;

verus! {

/// A blank: one of the characters with the Unicode property `White_Space`.
pub open spec fn is_blank(c: char) -> bool {
    let u = c as u32;
    ||| 0x09 <= u <= 0x0d
    ||| u == 0x20
    ||| u == 0x85
    ||| u == 0xa0
    ||| u == 0x1680
    ||| 0x2000 <= u <= 0x200a
    ||| u == 0x2028
    ||| u == 0x2029
    ||| u == 0x202f
    ||| u == 0x205f
    ||| u == 0x3000
}

/// Whether `c` is a blank.
pub fn blank(c: char) -> (r: bool)
    ensures
        r == is_blank(c),
{
    let u: u32 = c as u32;
    (0x09 <= u && u <= 0x0d) || u == 0x20 || u == 0x85 || u == 0xa0 || u == 0x1680 || (0x2000 <= u
        && u <= 0x200a) || u == 0x2028 || u == 0x2029 || u == 0x202f || u == 0x205f || u == 0x3000
}

/// The characters of `s`, in order.
pub fn chars_of(s: &str) -> (r: Vec<char>)
    ensures
        r@ == s@,
{
    let mut out: Vec<char> = Vec::new();
    for c in it: s.chars()
        invariant
            it.seq() == s@,
            out@ == s@.take(it.index() as int),
    {
        out.push(c);
        assert(s@.take(it.index() as int).push(c) =~= s@.take(it.index() + 1));
    }
    assert(s@.take(s@.len() as int) =~= s@);
    out
}

/// Whether `a` and `b` hold the same characters.
pub fn same_text(a: &str, b: &str) -> (r: bool)
    ensures
        r == (a@ == b@),
{
    a.to_owned() == b.to_owned()
}

/// `a` followed by `b`.
pub fn joined(a: &str, b: &str) -> (r: String)
    ensures
        r@ == a@ + b@,
{
    a.to_owned().concat(b)
}

/// What an optional text holds.
pub open spec fn text_option(text: Option<String>) -> Option<Seq<char>> {
    match text {
        Some(s) => Some(s@),
        None => None,
    }
}

/// Whether `s` begins with `prefix`.
pub open spec fn begins_with(s: Seq<char>, prefix: Seq<char>) -> bool {
    prefix.len() <= s.len() && s.take(prefix.len() as int) == prefix
}

/// Whether `s` ends with `suffix`.
pub open spec fn finishes_with(s: Seq<char>, suffix: Seq<char>) -> bool {
    suffix.len() <= s.len() && s.skip(s.len() - suffix.len()) == suffix
}

/// `s` without the characters `c` that it ends with.
pub open spec fn end_trimmed(s: Seq<char>, c: char) -> Seq<char>
    decreases s.len(),
{
    if s.len() > 0 && s.last() == c {
        end_trimmed(s.drop_last(), c)
    } else {
        s
    }
}

/// `s` without the copies of `suffix` that it ends with; of an empty suffix there are none.
pub open spec fn end_trimmed_of(s: Seq<char>, suffix: Seq<char>) -> Seq<char>
    decreases s.len(),
{
    if suffix.len() > 0 && finishes_with(s, suffix) {
        end_trimmed_of(s.take(s.len() - suffix.len()), suffix)
    } else {
        s
    }
}

/// `s` without the characters `c` that it begins with.
pub open spec fn start_trimmed(s: Seq<char>, c: char) -> Seq<char>
    decreases s.len(),
{
    if s.len() > 0 && s[0] == c {
        start_trimmed(s.skip(1), c)
    } else {
        s
    }
}

/// `s` without the blanks that it begins with.
pub open spec fn start_trimmed_blanks(s: Seq<char>) -> Seq<char>
    decreases s.len(),
{
    if s.len() > 0 && is_blank(s[0]) {
        start_trimmed_blanks(s.skip(1))
    } else {
        s
    }
}

/// `s` without the blanks that it ends with.
pub open spec fn end_trimmed_blanks(s: Seq<char>) -> Seq<char>
    decreases s.len(),
{
    if s.len() > 0 && is_blank(s.last()) {
        end_trimmed_blanks(s.drop_last())
    } else {
        s
    }
}

/// `s` without the blanks at both of its ends.
pub open spec fn trimmed(s: Seq<char>) -> Seq<char> {
    end_trimmed_blanks(start_trimmed_blanks(s))
}

/// Whether the characters `part` stand in `chars` from the index `at` on.
fn stands_at(chars: &Vec<char>, at: usize, part: &Vec<char>) -> (r: bool)
    requires
        at + part@.len() <= chars@.len(),
    ensures
        r == (chars@.subrange(at as int, at + part@.len()) == part@),
{
    let size: usize = chars.len();
    let mut i: usize = 0;
    while i < part.len()
        invariant
            i <= part@.len(),
            size == chars@.len(),
            at + part@.len() <= chars@.len(),
            forall|j: int| 0 <= j < i ==> chars@[at + j] == part@[j],
        decreases part@.len() - i,
    {
        if chars[at + i] != part[i] {
            proof {
                assert(chars@.subrange(at as int, at + part@.len())[i as int] != part@[i as int]);
            }
            return false;
        }
        i = i + 1;
    }
    assert(chars@.subrange(at as int, at + part@.len()) =~= part@);
    true
}

/// Whether `s` begins with `prefix`.
pub fn has_prefix(s: &str, prefix: &str) -> (r: bool)
    ensures
        r == begins_with(s@, prefix@),
{
    let chars = chars_of(s);
    let part = chars_of(prefix);
    if part.len() > chars.len() {
        return false;
    }
    assert(chars@.subrange(0, part@.len() as int) =~= s@.take(prefix@.len() as int));
    stands_at(&chars, 0, &part)
}

/// Whether `s` ends with `suffix`.
pub fn has_suffix(s: &str, suffix: &str) -> (r: bool)
    ensures
        r == finishes_with(s@, suffix@),
{
    let chars = chars_of(s);
    let part = chars_of(suffix);
    if part.len() > chars.len() {
        return false;
    }
    let at: usize = chars.len() - part.len();
    assert(chars@.subrange(at as int, at + part@.len()) =~= s@.skip(s@.len() - suffix@.len()));
    stands_at(&chars, at, &part)
}

/// Takes off the characters `c` that `s` ends with.
pub fn trim_end_char<'a>(s: &'a str, c: char) -> (r: &'a str)
    ensures
        r@ == end_trimmed(s@, c),
{
    let chars = chars_of(s);
    let mut end: usize = chars.len();
    assert(s@.take(end as int) =~= s@);
    while end > 0 && chars[end - 1] == c
        invariant
            end <= chars@.len(),
            chars@ == s@,
            end_trimmed(s@.take(end as int), c) == end_trimmed(s@, c),
        decreases end,
    {
        proof {
            assert(s@.take(end as int).drop_last() =~= s@.take(end - 1));
        }
        end = end - 1;
    }
    assert(s@.subrange(0, end as int) =~= s@.take(end as int));
    s.substring_char(0, end)
}

/// Takes off the copies of `suffix` that `s` ends with.
pub fn trim_end_str<'a>(s: &'a str, suffix: &str) -> (r: &'a str)
    ensures
        r@ == end_trimmed_of(s@, suffix@),
{
    if suffix.is_empty() {
        return s;
    }
    let chars = chars_of(s);
    let part = chars_of(suffix);
    let mut end: usize = chars.len();
    assert(s@.take(end as int) =~= s@);
    while end >= part.len() && stands_at(&chars, end - part.len(), &part)
        invariant
            end <= chars@.len(),
            chars@ == s@,
            part@ == suffix@,
            suffix@.len() > 0,
            end_trimmed_of(s@.take(end as int), suffix@) == end_trimmed_of(s@, suffix@),
        decreases end,
    {
        proof {
            let head = s@.take(end as int);
            assert(head.skip(head.len() - part@.len()) =~= chars@.subrange(
                end - part@.len(),
                end as int,
            ));
            assert(head.take(head.len() - part@.len()) =~= s@.take(end - part@.len()));
        }
        end = end - part.len();
    }
    proof {
        let head = s@.take(end as int);
        if end >= part@.len() {
            assert(head.skip(head.len() - part@.len()) =~= chars@.subrange(
                end - part@.len(),
                end as int,
            ));
        }
        assert(s@.subrange(0, end as int) =~= head);
    }
    s.substring_char(0, end)
}

/// Takes off the characters `c` that `s` begins with.
pub fn trim_start_char<'a>(s: &'a str, c: char) -> (r: &'a str)
    ensures
        r@ == start_trimmed(s@, c),
{
    let chars = chars_of(s);
    let mut start: usize = 0;
    assert(s@.skip(0) =~= s@);
    while start < chars.len() && chars[start] == c
        invariant
            start <= chars@.len(),
            chars@ == s@,
            start_trimmed(s@.skip(start as int), c) == start_trimmed(s@, c),
        decreases chars@.len() - start,
    {
        proof {
            assert(s@.skip(start as int).skip(1) =~= s@.skip(start + 1));
        }
        start = start + 1;
    }
    assert(s@.subrange(start as int, s@.len() as int) =~= s@.skip(start as int));
    s.substring_char(start, chars.len())
}

/// Takes off the blanks at both ends of `s`.
pub fn trim<'a>(s: &'a str) -> (r: &'a str)
    ensures
        r@ == trimmed(s@),
{
    let chars = chars_of(s);
    let mut start: usize = 0;
    assert(s@.skip(0) =~= s@);
    while start < chars.len() && blank(chars[start])
        invariant
            start <= chars@.len(),
            chars@ == s@,
            start_trimmed_blanks(s@.skip(start as int)) == start_trimmed_blanks(s@),
        decreases chars@.len() - start,
    {
        proof {
            assert(s@.skip(start as int).skip(1) =~= s@.skip(start + 1));
        }
        start = start + 1;
    }
    let mut end: usize = chars.len();
    assert(s@.subrange(start as int, end as int) =~= s@.skip(start as int));
    while end > start && blank(chars[end - 1])
        invariant
            start <= end <= chars@.len(),
            chars@ == s@,
            end_trimmed_blanks(s@.subrange(start as int, end as int)) == trimmed(s@),
        decreases end,
    {
        proof {
            assert(s@.subrange(start as int, end as int).drop_last() =~= s@.subrange(
                start as int,
                end - 1,
            ));
        }
        end = end - 1;
    }
    s.substring_char(start, end)
}

/// How many characters of `s` stand before its first `c`, or all of them.
pub open spec fn length_before(s: Seq<char>, c: char) -> nat
    decreases s.len(),
{
    if s.len() == 0 || s[0] == c {
        0
    } else {
        1 + length_before(s.skip(1), c)
    }
}

/// `s` split at its first `c`: what stands before it and what stands after it.
pub open spec fn split_at_first(s: Seq<char>, c: char) -> Option<(Seq<char>, Seq<char>)> {
    let n = length_before(s, c) as int;
    if n < s.len() {
        Some((s.take(n), s.skip(n + 1)))
    } else {
        None
    }
}

/// How many characters `s` begins with that are not blanks.
pub open spec fn word_length(s: Seq<char>) -> nat
    decreases s.len(),
{
    if s.len() == 0 || is_blank(s[0]) {
        0
    } else {
        1 + word_length(s.skip(1))
    }
}

/// The words of `s`: its longest runs of characters that are not blanks, in order.
pub open spec fn words(s: Seq<char>) -> Seq<Seq<char>>
    decreases s.len(),
{
    if s.len() == 0 {
        Seq::empty()
    } else if is_blank(s[0]) {
        words(s.skip(1))
    } else {
        proof {
            lemma_word_length(s);
        }
        seq![s.take(word_length(s) as int)] + words(s.skip(word_length(s) as int))
    }
}

/// `line` without the carriage return that it ends with, if it does.
pub open spec fn without_carriage_return(line: Seq<char>) -> Seq<char> {
    if line.len() > 0 && line.last() == '\r' {
        line.drop_last()
    } else {
        line
    }
}

/// The lines of `s`. A line feed, or a carriage return and a line feed, ends a line
/// and belongs to none; after the last one a line follows only if it holds something.
pub open spec fn lines(s: Seq<char>) -> Seq<Seq<char>>
    decreases s.len(),
{
    if s.len() == 0 {
        Seq::empty()
    } else {
        match split_at_first(s, '\n') {
            Some((line, rest)) => seq![without_carriage_return(line)] + lines(rest),
            None => seq![s],
        }
    }
}

/// The characters that `word_length` counts are the blank-free run at the front of `s`.
pub proof fn lemma_word_length(s: Seq<char>)
    ensures
        word_length(s) <= s.len(),
        s.len() > 0 && !is_blank(s[0]) ==> word_length(s) > 0,
        forall|i: int| 0 <= i < word_length(s) ==> !is_blank(#[trigger] s[i]),
        word_length(s) < s.len() ==> is_blank(s[word_length(s) as int]),
    decreases s.len(),
{
    if s.len() > 0 && !is_blank(s[0]) {
        let rest = s.skip(1);
        lemma_word_length(rest);
        assert forall|i: int| 0 <= i < word_length(s) implies !is_blank(#[trigger] s[i]) by {
            if i > 0 {
                assert(rest[i - 1] == s[i]);
            }
        }
    }
}

/// The index that `length_before` gives is the only one with no `c` before it and a
/// `c` on it.
proof fn lemma_length_before(s: Seq<char>, c: char, n: nat)
    requires
        n <= s.len(),
        forall|i: int| 0 <= i < n ==> s[i] != c,
        n < s.len() ==> s[n as int] == c,
    ensures
        length_before(s, c) == n,
    decreases s.len(),
{
    if n > 0 {
        let rest = s.skip(1);
        assert forall|i: int| 0 <= i < n - 1 implies rest[i] != c by {
            assert(rest[i] == s[i + 1]);
        }
        lemma_length_before(rest, c, (n - 1) as nat);
    }
}

proof fn lemma_word_length_is(s: Seq<char>, n: nat)
    requires
        n <= s.len(),
        forall|i: int| 0 <= i < n ==> !is_blank(s[i]),
        n < s.len() ==> is_blank(s[n as int]),
    ensures
        word_length(s) == n,
    decreases s.len(),
{
    if n > 0 {
        let rest = s.skip(1);
        assert forall|i: int| 0 <= i < n - 1 implies !is_blank(rest[i]) by {
            assert(rest[i] == s[i + 1]);
        }
        lemma_word_length_is(rest, (n - 1) as nat);
    }
}

/// The index of the first `c` in `chars` from `start` on, or the length of `chars`.
fn find_char(chars: &Vec<char>, start: usize, c: char) -> (r: usize)
    requires
        start <= chars@.len(),
    ensures
        start <= r <= chars@.len(),
        r - start == length_before(chars@.skip(start as int), c),
{
    let mut i: usize = start;
    while i < chars.len() && chars[i] != c
        invariant
            start <= i <= chars@.len(),
            forall|j: int| start <= j < i ==> chars@[j] != c,
        decreases chars@.len() - i,
    {
        i = i + 1;
    }
    proof {
        lemma_length_before(chars@.skip(start as int), c, (i - start) as nat);
    }
    i
}

/// Splits `s` at its first `c`.
pub fn split_first<'a>(s: &'a str, c: char) -> (r: Option<(&'a str, &'a str)>)
    ensures
        match r {
            Some((head, tail)) => split_at_first(s@, c) == Some((head@, tail@)),
            None => split_at_first(s@, c) is None,
        },
{
    let chars = chars_of(s);
    let at: usize = find_char(&chars, 0, c);
    assert(s@.skip(0) =~= s@);
    if at < chars.len() {
        assert(s@.subrange(0, at as int) =~= s@.take(at as int));
        assert(s@.subrange(at + 1, s@.len() as int) =~= s@.skip(at + 1));
        Some((s.substring_char(0, at), s.substring_char(at + 1, chars.len())))
    } else {
        None
    }
}

/// What the texts in `parts` hold.
pub open spec fn texts(parts: Seq<&str>) -> Seq<Seq<char>> {
    Seq::new(parts.len(), |i: int| parts[i]@)
}

/// The words of `s`.
pub fn split_words<'a>(s: &'a str) -> (r: Vec<&'a str>)
    ensures
        texts(r@) == words(s@),
{
    let chars = chars_of(s);
    let mut out: Vec<&'a str> = Vec::new();
    let mut i: usize = 0;
    assert(s@.skip(0) =~= s@);
    assert(texts(out@) + words(s@) =~= words(s@));
    while i < chars.len()
        invariant
            i <= chars@.len(),
            chars@ == s@,
            texts(out@) + words(s@.skip(i as int)) == words(s@),
        decreases chars@.len() - i,
    {
        let ghost rest = s@.skip(i as int);
        if blank(chars[i]) {
            proof {
                assert(rest.skip(1) =~= s@.skip(i + 1));
            }
            i = i + 1;
        } else {
            let start: usize = i;
            while i < chars.len() && !blank(chars[i])
                invariant
                    start <= i <= chars@.len(),
                    forall|j: int| start <= j < i ==> !is_blank(chars@[j]),
                decreases chars@.len() - i,
            {
                i = i + 1;
            }
            proof {
                lemma_word_length_is(rest, (i - start) as nat);
                lemma_word_length(rest);
            }
            let ghost before = out@;
            let word = s.substring_char(start, i);
            out.push(word);
            proof {
                let n = i - start;
                assert(rest.take(n) =~= s@.subrange(start as int, i as int));
                assert(rest.skip(n) =~= s@.skip(i as int));
                assert(texts(out@) =~= texts(before) + seq![word@]);
                assert(texts(out@) + words(s@.skip(i as int)) =~= texts(before) + words(rest));
            }
        }
    }
    assert(texts(out@) + words(s@.skip(i as int)) =~= texts(out@));
    out
}

/// The lines of `s`.
pub fn split_lines<'a>(s: &'a str) -> (r: Vec<&'a str>)
    ensures
        texts(r@) == lines(s@),
{
    let chars = chars_of(s);
    let mut out: Vec<&'a str> = Vec::new();
    let mut i: usize = 0;
    assert(s@.skip(0) =~= s@);
    assert(texts(out@) + lines(s@) =~= lines(s@));
    while i < chars.len()
        invariant
            i <= chars@.len(),
            chars@ == s@,
            texts(out@) + lines(s@.skip(i as int)) == lines(s@),
        decreases chars@.len() - i,
    {
        let ghost rest = s@.skip(i as int);
        let ghost before = out@;
        let at: usize = find_char(&chars, i, '\n');
        let end: usize = if at < chars.len() && at > i && chars[at - 1] == '\r' {
            at - 1
        } else {
            at
        };
        let line = s.substring_char(i, end);
        out.push(line);
        let next: usize = if at < chars.len() {
            at + 1
        } else {
            at
        };
        proof {
            let n = at - i;
            assert(texts(out@) =~= texts(before) + seq![line@]);
            if at < chars@.len() {
                assert(rest.skip(n + 1) =~= s@.skip(next as int));
                assert(without_carriage_return(rest.take(n)) =~= line@);
            } else {
                assert(line@ =~= rest);
                assert(s@.skip(next as int).len() == 0);
                assert(lines(s@.skip(next as int)) =~= Seq::<Seq<char>>::empty());
            }
            assert(texts(out@) + lines(s@.skip(next as int)) =~= texts(before) + lines(rest));
        }
        i = next;
    }
    assert(texts(out@) + lines(s@.skip(i as int)) =~= texts(out@));
    out
}

/// Whether `c` is one of `0` to `9`.
pub open spec fn is_digit(c: char) -> bool {
    0x30 <= c as u32 <= 0x39
}

/// The number that the digits `s` write in base ten.
pub open spec fn digits_value(s: Seq<char>) -> nat
    decreases s.len(),
{
    if s.len() == 0 {
        0
    } else {
        (10 * digits_value(s.drop_last()) + (s.last() as u32 - 0x30)) as nat
    }
}

/// `s` without the plus sign that it begins with, if it does.
pub open spec fn without_plus(s: Seq<char>) -> Seq<char> {
    if s.len() > 0 && s[0] == '+' {
        s.skip(1)
    } else {
        s
    }
}

/// Whether `s` holds nothing but digits.
pub open spec fn all_digits(s: Seq<char>) -> bool {
    forall|i: int| 0 <= i < s.len() ==> is_digit(#[trigger] s[i])
}

/// The number that `s` writes: one or more digits, a plus sign before them or not, for a
/// number that fits in 64 bits.
pub open spec fn u64_written(s: Seq<char>) -> Option<u64> {
    let digits = without_plus(s);
    if digits.len() > 0 && all_digits(digits) && digits_value(digits) <= u64::MAX {
        Some(digits_value(digits) as u64)
    } else {
        None
    }
}

/// The character that writes the digit `d`.
pub open spec fn digit_char(d: nat) -> char {
    (0x30 + d) as char
}

/// `n` in base ten, without leading zeros.
pub open spec fn decimal(n: nat) -> Seq<char>
    decreases n,
{
    if n < 10 {
        seq![digit_char(n)]
    } else {
        decimal(n / 10).push(digit_char(n % 10))
    }
}

/// `n` in base ten, with a minus sign before a negative number.
pub open spec fn signed_decimal(n: int) -> Seq<char> {
    if n < 0 {
        seq!['-'] + decimal((-n) as nat)
    } else {
        decimal(n as nat)
    }
}

/// The number that the digits `s` write in base ten, with a minus sign before them or not.
pub open spec fn signed_value(s: Seq<char>) -> int {
    if s.len() > 0 && s[0] == '-' {
        -digits_value(s.skip(1))
    } else {
        digits_value(s) as int
    }
}

/// The number that `s` writes, if it writes one that fits in 64 bits.
pub fn parse_u64(s: &str) -> (r: Option<u64>)
    ensures
        r == u64_written(s@),
{
    let chars = chars_of(s);
    let start: usize = if chars.len() > 0 && chars[0] == '+' {
        1
    } else {
        0
    };
    let ghost digits = without_plus(s@);
    assert(s@.skip(start as int) =~= digits);
    if start == chars.len() {
        return None;
    }
    let mut value: u64 = 0;
    let mut fits: bool = true;
    let mut i: usize = start;
    assert(digits.take(0) =~= Seq::<char>::empty());
    while i < chars.len()
        invariant
            start <= i <= chars@.len(),
            chars@ == s@,
            digits == without_plus(s@),
            digits == s@.skip(start as int),
            digits.len() > 0,
            forall|j: int| 0 <= j < i - start ==> is_digit(#[trigger] digits[j]),
            fits ==> value == digits_value(digits.take(i - start)),
            !fits ==> digits_value(digits.take(i - start)) > u64::MAX,
        decreases chars@.len() - i,
    {
        let code: u32 = chars[i] as u32;
        let ghost n = i - start;
        assert(digits[n] == chars@[i as int]);
        if code < 0x30 || code > 0x39 {
            assert(!is_digit(digits[n]));
            return None;
        }
        let digit: u64 = (code - 0x30) as u64;
        assert(digits.take(n + 1).drop_last() =~= digits.take(n));
        if fits && (value < u64::MAX / 10 || (value == u64::MAX / 10 && digit <= u64::MAX % 10)) {
            value = 10 * value + digit;
        } else {
            fits = false;
        }
        i = i + 1;
    }
    assert(digits.take(digits.len() as int) =~= digits);
    if fits {
        Some(value)
    } else {
        None
    }
}

/// The text of one digit.
fn digit_text(d: u64) -> (r: String)
    requires
        d < 10,
    ensures
        r@ == seq![digit_char(d as nat)],
{
    proof {
        reveal_strlit("0");
        reveal_strlit("1");
        reveal_strlit("2");
        reveal_strlit("3");
        reveal_strlit("4");
        reveal_strlit("5");
        reveal_strlit("6");
        reveal_strlit("7");
        reveal_strlit("8");
        reveal_strlit("9");
    }
    let text = match d {
        0 => "0",
        1 => "1",
        2 => "2",
        3 => "3",
        4 => "4",
        5 => "5",
        6 => "6",
        7 => "7",
        8 => "8",
        _ => "9",
    };
    assert(text@ =~= seq![digit_char(d as nat)]);
    text.to_owned()
}

/// `n` in base ten.
pub fn u64_text(n: u64) -> (r: String)
    ensures
        r@ == decimal(n as nat),
    decreases n,
{
    if n < 10 {
        digit_text(n)
    } else {
        let head = u64_text(n / 10);
        let last = digit_text(n % 10);
        proof {
            assert(head@ + last@ =~= head@.push(digit_char((n % 10) as nat)));
        }
        head.concat(last.as_str())
    }
}

/// `n` in base ten.
pub fn i64_text(n: i64) -> (r: String)
    ensures
        r@ == signed_decimal(n as int),
{
    if n < 0 {
        proof {
            reveal_strlit("-");
            assert("-"@ =~= seq!['-']);
        }
        let magnitude: u64 = (-(n as i128)) as u64;
        joined("-", u64_text(magnitude).as_str())
    } else {
        u64_text(n as u64)
    }
}

/// Reading what `u64_text` writes gives the number back.
pub proof fn law_decimal_round_trip(n: u64)
    ensures
        u64_written(decimal(n as nat)) == Some(n),
{
    lemma_decimal(n as nat);
    let s = decimal(n as nat);
    assert(is_digit(s[0]));
}

/// What `i64_text` writes tells the number, whatever its sign.
pub proof fn law_signed_decimal_round_trip(n: int)
    ensures
        signed_value(signed_decimal(n)) == n,
{
    let s = signed_decimal(n);
    if n < 0 {
        lemma_decimal((-n) as nat);
        assert(s.skip(1) =~= decimal((-n) as nat));
    } else {
        lemma_decimal(n as nat);
        assert(is_digit(s[0]));
    }
}

/// `decimal` writes at least one digit, nothing but digits, and the number itself.
pub proof fn lemma_decimal(n: nat)
    ensures
        decimal(n).len() > 0,
        all_digits(decimal(n)),
        digits_value(decimal(n)) == n,
    decreases n,
{
    assert(digit_char(n % 10) as u32 == 0x30 + n % 10);
    if n < 10 {
        assert(decimal(n).drop_last() =~= Seq::<char>::empty());
        assert(digits_value(decimal(n).drop_last()) == 0);
        assert(decimal(n).last() == digit_char(n % 10));
    } else {
        lemma_decimal(n / 10);
        assert(decimal(n).drop_last() =~= decimal(n / 10));
        assert forall|i: int| 0 <= i < decimal(n).len() implies is_digit(
            #[trigger] decimal(n)[i],
        ) by {
            if i < decimal(n / 10).len() {
                assert(decimal(n)[i] == decimal(n / 10)[i]);
            }
        }
    }
}

/// `c` with the ASCII letters `A` to `Z` turned into `a` to `z`.
pub open spec fn ascii_lower(c: char) -> char {
    if 0x41 <= c as u32 <= 0x5a {
        (c as u32 + 0x20) as char
    } else {
        c
    }
}

/// `s` with the ASCII letters `A` to `Z` turned into `a` to `z`.
pub open spec fn ascii_lowercase(s: Seq<char>) -> Seq<char> {
    Seq::new(s.len(), |i: int| ascii_lower(s[i]))
}

/// The lower case of `s`, as `str::to_lowercase` gives it.
pub uninterp spec fn lowercase(s: Seq<char>) -> Seq<char>;

/// `str::to_lowercase` turns a text into lower case by the Unicode rules. The result depends
/// on the text alone and is named `lowercase`. Of a text in ASCII it is the text with the
/// letters `A` to `Z` turned into `a` to `z` and everything else kept.
pub assume_specification[ str::to_lowercase ](s: &str) -> (r: String)
    ensures
        r@ == lowercase(s@),
        is_ascii_chars(s@) ==> r@ == ascii_lowercase(s@),
;

} // verus!
