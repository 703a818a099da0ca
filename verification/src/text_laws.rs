//! What holds of the text operations, without saying how they go through a text.
use vstd::prelude::*;

use crate::text::{
    all_digits, ascii_lower, ascii_lowercase, begins_with, decimal, digits_value, end_trimmed,
    end_trimmed_blanks, end_trimmed_of, finishes_with, is_blank, is_digit, law_decimal_round_trip,
    lemma_decimal, lemma_word_length, length_before, lines, signed_decimal, split_at_first, start_trimmed,
    start_trimmed_blanks, text_option, texts, trimmed, u64_written, word_length, words,
};

verus! {

/// A text begins with a prefix exactly where it is the prefix and something after it.
pub proof fn law_prefix(s: Seq<char>, prefix: Seq<char>, rest: Seq<char>)
    ensures
        begins_with(prefix + rest, prefix),
        begins_with(s, prefix) ==> s == prefix + s.skip(prefix.len() as int),
{
    assert((prefix + rest).take(prefix.len() as int) =~= prefix);
    if begins_with(s, prefix) {
        assert(s =~= s.take(prefix.len() as int) + s.skip(prefix.len() as int));
    }
}

/// A text ends with a suffix exactly where it is something and the suffix after it.
pub proof fn law_suffix(s: Seq<char>, rest: Seq<char>, suffix: Seq<char>)
    ensures
        finishes_with(rest + suffix, suffix),
        finishes_with(s, suffix) ==> s == s.take(s.len() - suffix.len()) + suffix,
{
    assert((rest + suffix).skip(rest.len() as int) =~= suffix);
    if finishes_with(s, suffix) {
        let at = s.len() - suffix.len();
        assert(s =~= s.take(at) + s.skip(at));
    }
}

/// Taking off what a text ends with takes off nothing else, and all of it: however many `c`
/// stand after a text that does not end with `c`, that text is left.
pub proof fn law_end_trimmed(s: Seq<char>, c: char, run: Seq<char>)
    requires
        s.len() == 0 || s.last() != c,
        forall|i: int| 0 <= i < run.len() ==> run[i] == c,
    ensures
        end_trimmed(s + run, c) == s,
    decreases run.len(),
{
    if run.len() == 0 {
        assert(s + run =~= s);
    } else {
        assert((s + run).last() == c);
        assert((s + run).drop_last() =~= s + run.drop_last());
        law_end_trimmed(s, c, run.drop_last());
    }
}

/// Every text is what is left of it without the `c` at its end, and nothing but `c` after it.
pub proof fn law_end_trimmed_keeps_the_rest(s: Seq<char>, c: char)
    ensures
        ({
            let left = end_trimmed(s, c);
            &&& left.len() <= s.len()
            &&& left == s.take(left.len() as int)
            &&& left.len() > 0 ==> left.last() != c
            &&& forall|i: int| left.len() <= i < s.len() ==> s[i] == c
        }),
    decreases s.len(),
{
    if s.len() > 0 && s.last() == c {
        let head = s.drop_last();
        law_end_trimmed_keeps_the_rest(head, c);
        let left = end_trimmed(s, c);
        assert(head.take(left.len() as int) =~= s.take(left.len() as int));
        assert forall|i: int| left.len() <= i < s.len() implies s[i] == c by {
            if i < head.len() {
                assert(head[i] == c);
            }
        }
    } else {
        assert(s.take(s.len() as int) =~= s);
    }
}

/// However many `c` stand before a text that does not begin with `c`, that text is left.
pub proof fn law_start_trimmed(run: Seq<char>, s: Seq<char>, c: char)
    requires
        s.len() == 0 || s[0] != c,
        forall|i: int| 0 <= i < run.len() ==> run[i] == c,
    ensures
        start_trimmed(run + s, c) == s,
    decreases run.len(),
{
    if run.len() == 0 {
        assert(run + s =~= s);
    } else {
        assert((run + s)[0] == c);
        assert((run + s).skip(1) =~= run.skip(1) + s);
        law_start_trimmed(run.skip(1), s, c);
    }
}

/// One more copy of a suffix at the end makes no difference, a text that does not end with it
/// is left as it is, and an empty suffix takes nothing off.
pub proof fn law_end_trimmed_of(s: Seq<char>, suffix: Seq<char>)
    ensures
        end_trimmed_of(s + suffix, suffix) == end_trimmed_of(s, suffix),
        !finishes_with(s, suffix) ==> end_trimmed_of(s, suffix) == s,
        suffix.len() == 0 ==> end_trimmed_of(s, suffix) == s,
{
    law_suffix(s, s, suffix);
    assert((s + suffix).take(s.len() as int) =~= s);
    if suffix.len() == 0 {
        assert(s + suffix =~= s);
    }
}

/// However many blanks stand around a text that neither begins nor ends with one, that text is
/// left.
pub proof fn law_trimmed(before: Seq<char>, s: Seq<char>, after: Seq<char>)
    requires
        s.len() > 0 ==> !is_blank(s[0]) && !is_blank(s.last()),
        forall|i: int| 0 <= i < before.len() ==> is_blank(#[trigger] before[i]),
        forall|i: int| 0 <= i < after.len() ==> is_blank(#[trigger] after[i]),
    ensures
        trimmed(before + s + after) == s,
    decreases before.len() + after.len(),
{
    let all = before + s + after;
    if before.len() > 0 {
        assert(is_blank(before[0]));
        assert(all[0] == before[0]);
        assert(all.skip(1) =~= before.skip(1) + s + after);
        assert forall|i: int| 0 <= i < before.skip(1).len() implies is_blank(
            #[trigger] before.skip(1)[i],
        ) by {
            assert(is_blank(before[i + 1]));
        }
        law_trimmed(before.skip(1), s, after);
    } else if s.len() > 0 {
        assert(all[0] == s[0]);
        assert(start_trimmed_blanks(all) == all);
        assert(all =~= s + after);
        lemma_end_blanks(s, after);
    } else {
        assert(all =~= after);
        lemma_all_blanks(after);
    }
}

proof fn lemma_end_blanks(s: Seq<char>, after: Seq<char>)
    requires
        s.len() == 0 || !is_blank(s.last()),
        forall|i: int| 0 <= i < after.len() ==> is_blank(#[trigger] after[i]),
    ensures
        end_trimmed_blanks(s + after) == s,
    decreases after.len(),
{
    if after.len() == 0 {
        assert(s + after =~= s);
    } else {
        assert(is_blank(after[after.len() - 1]));
        assert((s + after).drop_last() =~= s + after.drop_last());
        lemma_end_blanks(s, after.drop_last());
    }
}

proof fn lemma_all_blanks(s: Seq<char>)
    requires
        forall|i: int| 0 <= i < s.len() ==> is_blank(#[trigger] s[i]),
    ensures
        trimmed(s) == Seq::<char>::empty(),
    decreases s.len(),
{
    if s.len() > 0 {
        assert(is_blank(s[0]));
        assert forall|i: int| 0 <= i < s.skip(1).len() implies is_blank(
            #[trigger] s.skip(1)[i],
        ) by {
            assert(is_blank(s[i + 1]));
        }
        lemma_all_blanks(s.skip(1));
    } else {
        assert(s =~= Seq::empty());
    }
}

/// A text is split at its first `c`: what stands before it holds no `c`. A text without `c` is
/// not split.
pub proof fn law_split_at_first(head: Seq<char>, c: char, tail: Seq<char>)
    requires
        !head.contains(c),
    ensures
        split_at_first(head + seq![c] + tail, c) == Some((head, tail)),
        split_at_first(head, c) is None,
{
    lemma_length_before_head(head, seq![c] + tail, c);
    lemma_length_before_head(head, Seq::empty(), c);
    let whole = head + seq![c] + tail;
    assert(whole =~= head + (seq![c] + tail));
    assert(head + Seq::<char>::empty() =~= head);
    assert(whole.take(head.len() as int) =~= head);
    assert(whole.skip(head.len() as int + 1) =~= tail);
}

proof fn lemma_length_before_head(head: Seq<char>, rest: Seq<char>, c: char)
    requires
        !head.contains(c),
        rest.len() > 0 ==> rest[0] == c,
    ensures
        length_before(head + rest, c) == head.len(),
    decreases head.len(),
{
    if head.len() > 0 {
        assert(head.contains(head[0]));
        assert((head + rest).skip(1) =~= head.skip(1) + rest);
        assert forall|i: int| 0 <= i < head.skip(1).len() implies head.skip(1)[i] != c by {
            assert(head.contains(head[i + 1]));
        }
        lemma_length_before_head(head.skip(1), rest, c);
    } else {
        assert(head + rest =~= rest);
    }
}

/// Whether `s` holds no blank.
pub open spec fn blank_free(s: Seq<char>) -> bool {
    forall|i: int| 0 <= i < s.len() ==> !is_blank(#[trigger] s[i])
}

/// A text without blanks is one word, a text of nothing is none, and a blank parts the words
/// before it from those after it.
pub proof fn law_words(a: Seq<char>, blank: char, b: Seq<char>)
    requires
        is_blank(blank),
    ensures
        words(a + seq![blank] + b) == words(a) + words(b),
        blank_free(a) && a.len() > 0 ==> words(a) == seq![a],
        a.len() == 0 ==> words(a) == Seq::<Seq<char>>::empty(),
    decreases a.len(),
{
    lemma_words_part(a, blank, b);
    if blank_free(a) && a.len() > 0 {
        lemma_word_length(a);
        assert(!is_blank(a[0]));
        if word_length(a) < a.len() {
            assert(!is_blank(a[word_length(a) as int]));
        }
        assert(a.take(a.len() as int) =~= a);
        assert(a.skip(a.len() as int) =~= Seq::empty());
        assert(words(Seq::<char>::empty()) =~= Seq::empty());
        assert(words(a) =~= seq![a]);
    }
}

proof fn lemma_words_part(a: Seq<char>, blank: char, b: Seq<char>)
    requires
        is_blank(blank),
    ensures
        words(a + seq![blank] + b) == words(a) + words(b),
    decreases a.len(),
{
    let all = a + seq![blank] + b;
    if a.len() == 0 {
        assert(all[0] == blank);
        assert(all.skip(1) =~= b);
        assert(words(a) + words(b) =~= words(b));
    } else if is_blank(a[0]) {
        assert(all[0] == a[0]);
        assert(all.skip(1) =~= a.skip(1) + seq![blank] + b);
        lemma_words_part(a.skip(1), blank, b);
    } else {
        let n = word_length(a);
        lemma_word_length(a);
        lemma_word_length_before(a, seq![blank] + b);
        assert(all =~= a + (seq![blank] + b));
        assert(all[0] == a[0]);
        assert(all.take(n as int) =~= a.take(n as int));
        assert(all.skip(n as int) =~= a.skip(n as int) + seq![blank] + b);
        lemma_words_part(a.skip(n as int), blank, b);
        assert(words(all) =~= words(a) + words(b));
    }
}

proof fn lemma_word_length_before(a: Seq<char>, rest: Seq<char>)
    requires
        rest.len() > 0 ==> is_blank(rest[0]),
    ensures
        word_length(a + rest) == word_length(a),
    decreases a.len(),
{
    if a.len() == 0 {
        assert(a + rest =~= rest);
    } else {
        assert((a + rest)[0] == a[0]);
        assert((a + rest).skip(1) =~= a.skip(1) + rest);
        lemma_word_length_before(a.skip(1), rest);
    }
}

/// Blanks at its ends make no difference to the words of a text.
pub proof fn law_words_of_trimmed(s: Seq<char>)
    ensures
        words(trimmed(s)) == words(s),
    decreases s.len(),
{
    if s.len() > 0 && is_blank(s[0]) {
        law_words_of_trimmed(s.skip(1));
    } else {
        lemma_words_of_end_trimmed(s);
    }
}

proof fn lemma_words_of_end_trimmed(s: Seq<char>)
    ensures
        words(end_trimmed_blanks(s)) == words(s),
    decreases s.len(),
{
    if s.len() > 0 && is_blank(s.last()) {
        let head = s.drop_last();
        lemma_words_of_end_trimmed(head);
        lemma_words_part(head, s.last(), Seq::empty());
        assert(head + seq![s.last()] + Seq::<char>::empty() =~= s);
        assert(words(head) + words(Seq::<char>::empty()) =~= words(head));
    }
}

/// A line feed ends a line, a carriage return before it belongs to neither line; what stands
/// after the last line feed is a line where it is something.
pub proof fn law_lines(line: Seq<char>, rest: Seq<char>)
    requires
        !line.contains('\n'),
    ensures
        lines(Seq::empty()) == Seq::<Seq<char>>::empty(),
        line.len() > 0 ==> lines(line) == seq![line],
        (line.len() == 0 || line.last() != '\r') ==> lines(line + seq!['\n'] + rest) == seq![line]
            + lines(rest),
        lines(line + seq!['\r', '\n'] + rest) == seq![line] + lines(rest),
{
    law_split_at_first(line, '\n', rest);
    let returned = line.push('\r');
    assert forall|i: int| 0 <= i < returned.len() implies returned[i] != '\n' by {
        if i < line.len() {
            assert(line.contains(line[i]));
        }
    }
    assert(!returned.contains('\n'));
    law_split_at_first(returned, '\n', rest);
    assert(returned + seq!['\n'] + rest =~= line + seq!['\r', '\n'] + rest);
    assert(returned.drop_last() =~= line);
}

/// A number below ten is its digit; any further digit is written after the number before it.
pub proof fn law_decimal(n: nat, d: nat)
    requires
        d < 10,
    ensures
        decimal(d) == seq![(0x30 + d) as char],
        n > 0 ==> decimal(10 * n + d) == decimal(n).push((0x30 + d) as char),
{
    assert((10 * n + d) / 10 == n);
    assert((10 * n + d) % 10 == d);
}

/// A negative number is its opposite with a minus sign before it.
pub proof fn law_signed_decimal(n: nat)
    ensures
        signed_decimal(n as int) == decimal(n),
        n > 0 ==> signed_decimal(-n) == seq!['-'] + decimal(n),
{
}

/// A number is read whether zeros stand before it or not, and whether a plus sign stands before
/// them or not.
pub proof fn law_number_is_read(n: u64, zeros: Seq<char>)
    requires
        forall|i: int| 0 <= i < zeros.len() ==> zeros[i] == '0',
    ensures
        u64_written(zeros + decimal(n as nat)) == Some(n),
        u64_written(seq!['+'] + zeros + decimal(n as nat)) == Some(n),
{
    let digits = zeros + decimal(n as nat);
    law_decimal_round_trip(n);
    lemma_decimal(n as nat);
    lemma_zeros_before(zeros, decimal(n as nat));
    assert forall|i: int| 0 <= i < digits.len() implies is_digit(#[trigger] digits[i]) by {
        if i < zeros.len() {
            assert(zeros[i] == '0');
        } else {
            assert(digits[i] == decimal(n as nat)[i - zeros.len()]);
        }
    }
    assert(is_digit(digits[0]));
    let signed = seq!['+'] + zeros + decimal(n as nat);
    assert(signed[0] == '+');
    assert(signed.skip(1) =~= digits);
}

proof fn lemma_zeros_before(zeros: Seq<char>, digits: Seq<char>)
    requires
        forall|i: int| 0 <= i < zeros.len() ==> zeros[i] == '0',
        all_digits(digits),
    ensures
        digits_value(zeros + digits) == digits_value(digits),
    decreases digits.len() + zeros.len(),
{
    if digits.len() > 0 {
        assert((zeros + digits).drop_last() =~= zeros + digits.drop_last());
        assert((zeros + digits).last() == digits.last());
        lemma_zeros_before(zeros, digits.drop_last());
    } else if zeros.len() > 0 {
        assert(zeros + digits =~= zeros);
        assert(zeros.last() == '0');
        assert(zeros.drop_last() + digits =~= zeros.drop_last());
        lemma_zeros_before(zeros.drop_last(), digits);
        assert(digits_value(zeros) == 10 * digits_value(zeros.drop_last()));
    } else {
        assert(zeros + digits =~= digits);
    }
}

/// Nothing else is read as a number: what is read is the number in base ten, after zeros and a
/// plus sign or without them.
pub proof fn law_only_numbers_are_read(s: Seq<char>, n: u64)
    requires
        u64_written(s) == Some(n),
    ensures
        exists|plus: Seq<char>, zeros: nat|
            {
                &&& plus == Seq::<char>::empty() || plus == seq!['+']
                &&& s == #[trigger] (plus + zeros_of(zeros)) + decimal(n as nat)
            },
{
    let plus = if s[0] == '+' {
        seq!['+']
    } else {
        Seq::empty()
    };
    let digits = s.skip(plus.len() as int);
    assert(s =~= plus + digits);
    let zeros = lemma_digits_are_decimal(digits);
    assert((plus + zeros_of(zeros)) + decimal(n as nat) =~= plus + (zeros_of(zeros) + decimal(
        n as nat,
    )));
}

/// As many zeros as `n` says.
pub open spec fn zeros_of(n: nat) -> Seq<char> {
    Seq::new(n, |i: int| '0')
}

proof fn lemma_digit(c: char)
    requires
        is_digit(c),
    ensures
        (0x30 + (c as u32 - 0x30) as nat) as char == c,
{
}

proof fn lemma_digits_are_decimal(digits: Seq<char>) -> (zeros: nat)
    requires
        digits.len() > 0,
        all_digits(digits),
    ensures
        digits == zeros_of(zeros) + decimal(digits_value(digits)),
    decreases digits.len(),
{
    let d = (digits.last() as u32 - 0x30) as nat;
    assert(is_digit(digits[digits.len() - 1]));
    lemma_digit(digits.last());
    let head = digits.drop_last();
    assert(digits =~= head.push(digits.last()));
    if head.len() == 0 {
        assert(digits_value(head) == 0);
        assert(digits =~= zeros_of(0) + decimal(digits_value(digits)));
        0
    } else {
        assert forall|i: int| 0 <= i < head.len() implies is_digit(#[trigger] head[i]) by {
            assert(is_digit(digits[i]));
        }
        let before = lemma_digits_are_decimal(head);
        let value = digits_value(head);
        law_decimal(value, d);
        if value == 0 {
            law_decimal(0, 0);
            assert(head =~= zeros_of(before + 1));
            assert(digits =~= zeros_of(before + 1) + decimal(digits_value(digits)));
            before + 1
        } else {
            assert(digits =~= zeros_of(before) + decimal(digits_value(digits)));
            before
        }
    }
}

/// Every letter of ASCII in upper case becomes its lower case, and nothing else changes.
pub proof fn law_ascii_lowercase(s: Seq<char>, i: int)
    requires
        0 <= i < s.len(),
    ensures
        ascii_lowercase(s).len() == s.len(),
        0x41 <= s[i] as u32 <= 0x5a ==> ascii_lowercase(s)[i] as u32 == s[i] as u32 + 32,
        !(0x41 <= s[i] as u32 <= 0x5a) ==> ascii_lowercase(s)[i] == s[i],
{
    assert(ascii_lowercase(s)[i] == ascii_lower(s[i]));
}

/// What several texts hold, or an optional one, is what each of them holds.
pub proof fn law_texts(parts: Seq<&str>, i: int, text: String)
    requires
        0 <= i < parts.len(),
    ensures
        texts(parts).len() == parts.len(),
        texts(parts)[i] == parts[i]@,
        text_option(Some(text)) == Some(text@),
        text_option(None) is None,
{
}

} // verus!
