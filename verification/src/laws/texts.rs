//! Texts: what putting together and taking apart leave unchanged.
use vstd::prelude::*;
use vstd::string::*;

use crate::git::{hex_of, is_commit_hash};
use crate::load::features_in;
use crate::paths::{at, shown_of, PathView};
use crate::text::{
    after_first, after_last, before_first, contains_text, decimal_of, equal_ignoring_case,
    first_word_of, has_prefix, has_suffix, is_space, joined, leading_word, occurs_at, pieces, replaced,
    replaced_absent, trimmed_end, without_prefix,
};

verus! {

/// A text has a prefix exactly where it is the prefix and something behind it, and taking the
/// prefix off leaves that.
pub proof fn prefixes_come_off(text: Seq<char>, prefix: Seq<char>, rest: Seq<char>)
    ensures
        has_prefix(prefix + rest, prefix),
        without_prefix(prefix + rest, prefix) == Some(rest),
        has_prefix(text, prefix) <==> text.len() >= prefix.len() && text.take(prefix.len() as int)
            == prefix,
        without_prefix(text, prefix) is Some <==> has_prefix(text, prefix),
        without_prefix(text, prefix) matches Some(tail) ==> prefix + tail == text,
{
    let whole = prefix + rest;
    assert(whole.subrange(0, prefix.len() as int) =~= prefix);
    assert(whole.skip(prefix.len() as int) =~= rest);
    if text.len() >= prefix.len() {
        assert(text.subrange(0, prefix.len() as int) =~= text.take(prefix.len() as int));
    }
    if has_prefix(text, prefix) {
        assert(prefix + text.skip(prefix.len() as int) =~= text) by {
            assert(text.subrange(0, prefix.len() as int) == prefix);
            assert forall|i: int| 0 <= i < prefix.len() implies text[i] == prefix[i] by {
                assert(text.subrange(0, prefix.len() as int)[i] == text[i]);
            }
        }
    }
}

/// A text has a suffix exactly where it is the suffix and something in front of it.
pub proof fn suffixes_come_off(text: Seq<char>, suffix: Seq<char>, head: Seq<char>)
    ensures
        has_suffix(head + suffix, suffix),
        has_suffix(text, suffix) <==> text.len() >= suffix.len() && text.skip(
            text.len() - suffix.len(),
        ) == suffix,
{
    let whole = head + suffix;
    assert(whole.subrange(whole.len() - suffix.len(), whole.len() as int) =~= suffix);
    if text.len() >= suffix.len() {
        assert(text.subrange(text.len() - suffix.len(), text.len() as int) =~= text.skip(
            text.len() - suffix.len(),
        ));
    }
}

/// A text contains what stands anywhere in it, and nothing else.
pub proof fn parts_are_contained(text: Seq<char>, a: Seq<char>, part: Seq<char>, b: Seq<char>)
    ensures
        contains_text(a + part + b, part),
        contains_text(text, part) ==> exists|i: int|
            0 <= i <= text.len() - part.len() && text == text.take(i) + part + #[trigger] text.skip(
                i + part.len(),
            ),
{
    let whole = a + part + b;
    assert(whole.subrange(a.len() as int, a.len() as int + part.len()) =~= part);
    assert(occurs_at(whole, part, a.len() as int));
    if contains_text(text, part) {
        let i = choose|i: int| occurs_at(text, part, i);
        assert forall|k: int| 0 <= k < part.len() implies text[i + k] == part[k] by {
            assert(text.subrange(i, i + part.len())[k] == text[i + k]);
        }
        assert(text =~= text.take(i) + part + text.skip(i + part.len()));
    }
}

/// Without a separator there is nothing behind the first one, and everything is behind the
/// last one.
pub proof fn texts_without_separator(text: Seq<char>, separator: char)
    requires
        !text.contains(separator),
    ensures
        before_first(text, separator) == text,
        after_first(text, separator) is None,
        after_last(text, separator) == text,
        pieces(text, separator) == seq![text],
    decreases text.len(),
{
    if text.len() == 0 {
        assert(text =~= Seq::empty());
    } else {
        let rest = text.skip(1);
        let cut = text.drop_last();
        assert(text.contains(text[0]));
        assert(text.contains(text[text.len() - 1]));
        assert forall|i: int| 0 <= i < rest.len() implies rest[i] != separator by {
            assert(text.contains(text[i + 1]));
        }
        assert forall|i: int| 0 <= i < cut.len() implies cut[i] != separator by {
            assert(text.contains(text[i]));
        }
        texts_without_separator(rest, separator);
        texts_without_separator(cut, separator);
        assert(seq![text[0]] + rest =~= text);
        assert(cut.push(text.last()) =~= text);
        assert(pieces(cut, separator).drop_last().push(cut.push(text.last())) =~= seq![text]);
    }
}

/// What is put together with a separator comes apart at it: at the first one, if the head does
/// not hold it, and at the last one, if the tail does not.
pub proof fn separated_texts_come_apart(head: Seq<char>, separator: char, tail: Seq<char>)
    ensures
        !head.contains(separator) ==> before_first(head.push(separator) + tail, separator) == head,
        !head.contains(separator) ==> after_first(head.push(separator) + tail, separator) == Some(
            tail,
        ),
        !tail.contains(separator) ==> after_last(head.push(separator) + tail, separator) == tail,
        !tail.contains(separator) ==> pieces(head.push(separator) + tail, separator) == pieces(
            head,
            separator,
        ).push(tail),
{
    if !head.contains(separator) {
        crate::text::joined_texts_come_apart(head, separator, tail);
    }
    if !tail.contains(separator) {
        tail_comes_off(head, separator, tail);
    }
}

proof fn tail_comes_off(head: Seq<char>, separator: char, tail: Seq<char>)
    requires
        !tail.contains(separator),
    ensures
        after_last(head.push(separator) + tail, separator) == tail,
        pieces(head.push(separator) + tail, separator) == pieces(head, separator).push(tail),
    decreases tail.len(),
{
    let text = head.push(separator) + tail;
    if tail.len() == 0 {
        assert(text =~= head.push(separator));
        assert(head.push(separator).drop_last() =~= head);
        assert(tail =~= Seq::empty());
    } else {
        let cut = tail.drop_last();
        assert(tail.contains(tail[tail.len() - 1]));
        assert forall|i: int| 0 <= i < cut.len() implies cut[i] != separator by {
            assert(tail.contains(tail[i]));
        }
        tail_comes_off(head, separator, cut);
        assert(text.drop_last() =~= head.push(separator) + cut);
        assert(text.last() == tail.last());
        assert(cut.push(tail.last()) =~= tail);
        assert(pieces(head, separator).push(cut).drop_last() =~= pieces(head, separator));
    }
}

/// Trimming takes a suffix off as often as it is there, and nothing more.
pub proof fn trimming_takes_repetitions(text: Seq<char>, suffix: Seq<char>)
    requires
        suffix.len() > 0,
    ensures
        trimmed_end(text + suffix, suffix) == trimmed_end(text, suffix),
        !has_suffix(trimmed_end(text, suffix), suffix),
        !has_suffix(text, suffix) ==> trimmed_end(text, suffix) == text,
    decreases text.len(),
{
    let whole = text + suffix;
    assert(whole.subrange(whole.len() - suffix.len(), whole.len() as int) =~= suffix);
    assert(whole.take(whole.len() - suffix.len()) =~= text);
    if has_suffix(text, suffix) {
        trimming_takes_repetitions(text.take(text.len() - suffix.len()), suffix);
    }
}

/// Replacing goes from the left: up to the end of the first occurrence everything stays but
/// the occurrence, and the rest is replaced by itself. Without an occurrence all stays.
pub proof fn replacing_goes_from_the_left(
    head: Seq<char>,
    pattern: Seq<char>,
    rest: Seq<char>,
    with: Seq<char>,
)
    requires
        pattern.len() > 0,
        forall|i: int| 0 <= i < head.len() ==> !occurs_at(head + pattern + rest, pattern, i),
    ensures
        replaced(head + pattern + rest, pattern, with) == head + with + replaced(
            rest,
            pattern,
            with,
        ),
    decreases head.len(),
{
    let text = head + pattern + rest;
    if head.len() == 0 {
        assert(text.subrange(0, pattern.len() as int) =~= pattern);
        assert(text.skip(pattern.len() as int) =~= rest);
        assert(head + with + replaced(rest, pattern, with) =~= with + replaced(
            rest,
            pattern,
            with,
        ));
    } else {
        let shorter = head.skip(1);
        assert(!occurs_at(text, pattern, 0));
        assert(text.skip(1) =~= shorter + pattern + rest);
        assert forall|i: int| 0 <= i < shorter.len() implies !occurs_at(
            shorter + pattern + rest,
            pattern,
            i,
        ) by {
            if occurs_at(shorter + pattern + rest, pattern, i) {
                assert(text.subrange(i + 1, i + 1 + pattern.len()) =~= (shorter + pattern
                    + rest).subrange(i, i + pattern.len()));
                assert(occurs_at(text, pattern, i + 1));
            }
        }
        replacing_goes_from_the_left(shorter, pattern, rest, with);
        assert(seq![text[0]] + (shorter + with + replaced(rest, pattern, with)) =~= head + with
            + replaced(rest, pattern, with));
    }
}

/// Without an occurrence a replacement changes nothing.
pub proof fn nothing_is_replaced(text: Seq<char>, pattern: Seq<char>, with: Seq<char>)
    requires
        !contains_text(text, pattern),
    ensures
        replaced(text, pattern, with) == text,
{
    replaced_absent(text, pattern, with);
}

/// The number that a digit stands for.
pub open spec fn digit_value(c: char) -> int {
    c as u32 - '0' as u32
}

/// The number that decimal digits state.
pub open spec fn decimal_value(text: Seq<char>) -> int
    decreases text.len(),
{
    if text.len() == 0 {
        0
    } else {
        10 * decimal_value(text.drop_last()) + digit_value(text.last())
    }
}

/// A number in decimal reads back as the number. It has digits only, and no zero in front of
/// others.
pub proof fn numbers_read_back(n: nat)
    ensures
        decimal_value(decimal_of(n)) == n,
        decimal_of(n).len() > 0,
        forall|i: int| 0 <= i < decimal_of(n).len() ==> '0' <= #[trigger] decimal_of(n)[i] <= '9',
        n > 0 ==> decimal_of(n)[0] != '0',
        n == 0 ==> decimal_of(n) == "0"@,
    decreases n,
{
    reveal_strlit("0");
    assert(decimal_value(Seq::empty()) == 0);
    assert(digit_value(decimal_of(n).last()) == n % 10);
    if n < 10 {
        assert(decimal_of(n).drop_last() =~= Seq::empty());
        assert(n == 0 ==> decimal_of(n) =~= "0"@);
    } else {
        numbers_read_back(n / 10);
        assert(decimal_of(n).drop_last() =~= decimal_of(n / 10));
    }
}

/// The number that a hexadecimal digit stands for.
pub open spec fn hex_value(c: char) -> int {
    if c <= '9' {
        c as u32 - '0' as u32
    } else {
        10 + (c as u32 - 'a' as u32)
    }
}

/// Bytes in hexadecimal read back as the bytes, two digits for each, the higher one first.
pub proof fn bytes_read_back(bytes: Seq<u8>, i: int)
    requires
        0 <= i < bytes.len(),
    ensures
        hex_of(bytes).len() == 2 * bytes.len(),
        16 * hex_value(hex_of(bytes)[2 * i]) + hex_value(hex_of(bytes)[2 * i + 1]) == bytes[i],
    decreases bytes.len(),
{
    reveal_strlit("0123456789abcdef");
    let before = hex_of(bytes.drop_last());
    hex_length(bytes.drop_last());
    if i < bytes.len() - 1 {
        bytes_read_back(bytes.drop_last(), i);
        assert(hex_of(bytes)[2 * i] == before[2 * i]);
        assert(hex_of(bytes)[2 * i + 1] == before[2 * i + 1]);
    }
}

proof fn hex_length(bytes: Seq<u8>)
    ensures
        hex_of(bytes).len() == 2 * bytes.len(),
    decreases bytes.len(),
{
    if bytes.len() > 0 {
        hex_length(bytes.drop_last());
    }
}

/// A full hash has forty digits, each in `0123456789abcdef`.
pub proof fn full_hashes(text: Seq<char>)
    ensures
        is_commit_hash(text) <==> text.len() == 40 && forall|i: int|
            0 <= i < text.len() ==> "0123456789abcdef"@.contains(#[trigger] text[i]),
{
    reveal_strlit("0123456789abcdef");
    let digits = "0123456789abcdef"@;
    assert forall|c: char| digits.contains(c) implies '0' <= c <= '9' || 'a' <= c <= 'f' by {}
    assert forall|c: char| '0' <= c <= '9' || 'a' <= c <= 'f' implies digits.contains(c) by {
        let n = if c <= '9' {
            c as u32 - '0' as u32
        } else {
            10 + (c as u32 - 'a' as u32)
        };
        assert(digits[n as int] == c);
    }
}

/// White space is what Unicode calls so, and nothing else.
pub proof fn white_space(c: char)
    ensures
        is_space(c) <==> {
            let n = c as u32;
            ||| 0x9 <= n <= 0xd
            ||| n == 0x20
            ||| n == 0x85
            ||| n == 0xa0
            ||| n == 0x1680
            ||| 0x2000 <= n <= 0x200a
            ||| 0x2028 <= n <= 0x2029
            ||| n == 0x202f
            ||| n == 0x205f
            ||| n == 0x3000
        },
{
}

/// No character of the text is white space.
pub open spec fn is_word(text: Seq<char>) -> bool {
    forall|i: int| 0 <= i < text.len() ==> !is_space(#[trigger] text[i])
}

/// Every character of the text is white space.
pub open spec fn is_blank(text: Seq<char>) -> bool {
    forall|i: int| 0 <= i < text.len() ==> is_space(#[trigger] text[i])
}

/// The first word is what stands between the white space in front and the next one.
pub proof fn first_words(blank: Seq<char>, word: Seq<char>, rest: Seq<char>)
    requires
        is_blank(blank),
        is_word(word),
        word.len() > 0 || rest.len() == 0,
        rest.len() > 0 ==> is_space(rest[0]),
    ensures
        first_word_of(blank + word + rest) == word,
    decreases blank.len(),
{
    let text = blank + word + rest;
    if blank.len() > 0 {
        assert(is_space(blank[0]));
        assert(text[0] == blank[0]);
        assert(text.skip(1) =~= blank.skip(1) + word + rest);
        assert(is_blank(blank.skip(1))) by {
            assert forall|i: int| 0 <= i < blank.skip(1).len() implies is_space(
                #[trigger] blank.skip(1)[i],
            ) by {
                assert(is_space(blank[i + 1]));
            }
        }
        first_words(blank.skip(1), word, rest);
    } else {
        assert(text =~= word + rest);
        if word.len() > 0 {
            assert(!is_space(word[0]));
            word_leads(word, rest);
        } else {
            assert(text.len() == 0);
            assert(word =~= Seq::empty());
        }
    }
}

proof fn word_leads(word: Seq<char>, rest: Seq<char>)
    requires
        is_word(word),
        rest.len() > 0 ==> is_space(rest[0]),
    ensures
        leading_word(word + rest) == word,
    decreases word.len(),
{
    let text = word + rest;
    if word.len() == 0 {
        assert(text =~= rest);
        assert(word =~= Seq::empty());
    } else {
        assert(!is_space(word[0]));
        assert(text.skip(1) =~= word.skip(1) + rest);
        assert(is_word(word.skip(1))) by {
            assert forall|i: int| 0 <= i < word.skip(1).len() implies !is_space(
                #[trigger] word.skip(1)[i],
            ) by {
                assert(!is_space(word[i + 1]));
            }
        }
        word_leads(word.skip(1), rest);
        assert(seq![word[0]] + word.skip(1) =~= word);
    }
}

/// The characters are the same, or a small letter of ASCII and its capital.
pub open spec fn is_same_letter(a: char, b: char) -> bool {
    ||| a == b
    ||| 0x61 <= a as u32 <= 0x7a && b as u32 == a as u32 - 0x20
    ||| 0x41 <= a as u32 <= 0x5a && b as u32 == a as u32 + 0x20
}

proof fn same_letters(a: char, b: char)
    ensures
        crate::text::equal_char_ignoring_case(a, b) == is_same_letter(a, b),
{
    let x = a as u32;
    let y = b as u32;
    if crate::text::equal_char_ignoring_case(a, b) {
        assert(a == b || (0x61 <= x <= 0x7a && x == y + 32) || (0x61 <= y <= 0x7a && y == x + 32));
        assert(is_same_letter(a, b));
    }
    if is_same_letter(a, b) {
        assert(a == b || (0x61 <= x <= 0x7a && y == x - 32) || (0x41 <= x <= 0x5a && y == x + 32));
        assert(crate::text::equal_char_ignoring_case(a, b));
    }
}

/// Texts are the same up to case exactly where they have the same length and each pair of
/// characters is the same, or is a small letter and its capital.
pub proof fn case_is_ignored_for_letters_only(a: Seq<char>, b: Seq<char>)
    ensures
        equal_ignoring_case(a, a),
        equal_ignoring_case(a, b) <==> equal_ignoring_case(b, a),
        equal_ignoring_case(a, b) ==> a.len() == b.len(),
        equal_ignoring_case(a, b) <==> a.len() == b.len() && forall|i: int|
            0 <= i < a.len() ==> is_same_letter(#[trigger] a[i], b[i]),
{
    if a.len() == b.len() {
        assert forall|i: int| 0 <= i < a.len() implies crate::text::equal_char_ignoring_case(
            #[trigger] a[i],
            b[i],
        ) == is_same_letter(a[i], b[i]) by {
            same_letters(a[i], b[i]);
        }
        if equal_ignoring_case(a, b) {
            assert forall|i: int| 0 <= i < b.len() implies
                crate::text::equal_char_ignoring_case(#[trigger] b[i], a[i]) by {
                assert(crate::text::equal_char_ignoring_case(a[i], b[i]));
            }
            assert forall|i: int| 0 <= i < a.len() implies is_same_letter(
                #[trigger] a[i],
                b[i],
            ) by {
                assert(crate::text::equal_char_ignoring_case(a[i], b[i]));
            }
        }
        if equal_ignoring_case(b, a) {
            assert forall|i: int| 0 <= i < a.len() implies
                crate::text::equal_char_ignoring_case(#[trigger] a[i], b[i]) by {
                assert(crate::text::equal_char_ignoring_case(b[i], a[i]));
            }
        }
    }
}

/// Texts in one have commas between them and nowhere else.
pub proof fn commas_stand_between(texts: Seq<Seq<char>>, text: Seq<char>)
    ensures
        joined(Seq::empty()) == Seq::<char>::empty(),
        joined(seq![text]) == text,
        texts.len() > 0 ==> joined(texts.push(text)) == joined(texts).push(',') + text,
{
    reveal_strlit(",");
    if texts.len() > 0 {
        assert(texts.push(text).drop_last() =~= texts);
        assert(joined(texts) + ","@ + text =~= joined(texts).push(',') + text);
    }
}

/// The character may be part of a feature's name.
pub open spec fn is_feature_char(c: char) -> bool {
    c != ',' && !is_space(c)
}

/// A single name is the only feature in a list. A comma or white space adds none, and parts
/// one list of features from the next.
pub proof fn features_are_separated(a: Seq<char>, separator: char, word: Seq<char>)
    requires
        !is_feature_char(separator),
        forall|i: int| 0 <= i < word.len() ==> is_feature_char(#[trigger] word[i]),
    ensures
        features_in(Seq::empty()) == Seq::<Seq<char>>::empty(),
        features_in(a.push(separator)) == features_in(a),
        word.len() > 0 ==> features_in(word) == seq![word],
        word.len() > 0 ==> features_in(a.push(separator) + word) == features_in(a).push(word),
{
    assert(a.push(separator).drop_last() =~= a);
    if word.len() > 0 {
        word_is_a_feature(a.push(separator), word);
        word_is_a_feature(Seq::empty(), word);
        assert(Seq::<char>::empty() + word =~= word);
        assert(Seq::<Seq<char>>::empty().push(word) =~= seq![word]);
    }
}

proof fn word_is_a_feature(head: Seq<char>, word: Seq<char>)
    requires
        head.len() > 0 ==> !is_feature_char(head.last()),
        word.len() > 0,
        forall|i: int| 0 <= i < word.len() ==> is_feature_char(#[trigger] word[i]),
    ensures
        features_in(head + word) == features_in(head).push(word),
    decreases word.len(),
{
    let text = head + word;
    let cut = word.drop_last();
    assert(is_feature_char(word[word.len() - 1]));
    assert(text.last() == word.last());
    assert(text.drop_last() =~= head + cut);
    if cut.len() == 0 {
        assert(head + cut =~= head);
        assert(seq![text.last()] =~= word);
        assert(text.len() > 1 ==> text[text.len() - 2] == head.last());
    } else {
        assert forall|i: int| 0 <= i < cut.len() implies is_feature_char(#[trigger] cut[i]) by {
            assert(is_feature_char(word[i]));
        }
        word_is_a_feature(head, cut);
        assert(text[text.len() - 2] == cut.last());
        assert(is_feature_char(cut[cut.len() - 1]));
        assert(features_in(head).push(cut).drop_last() =~= features_in(head));
        assert(cut.push(text.last()) =~= word);
    }
}

/// A location is shown as its base and its segments with slashes between them.
pub proof fn segments_stand_behind_slashes(path: PathView, base: Seq<char>, segment: Seq<char>)
    ensures
        shown_of(at(base)) == base,
        shown_of(path).len() > 0 && shown_of(path).last() != '/' ==> shown_of(path.join(segment))
            == shown_of(path).push('/') + segment,
        shown_of(path).len() == 0 || shown_of(path).last() == '/' ==> shown_of(path.join(segment))
            == shown_of(path) + segment,
{
    reveal_strlit("/");
    assert(path.join(segment).segments.drop_last() =~= path.segments);
    assert(shown_of(path) + "/"@ + segment =~= shown_of(path).push('/') + segment);
}

}
