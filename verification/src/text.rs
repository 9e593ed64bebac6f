//! Text operations on character sequences: comparison, search, trimming,
//! splitting, replacement and decimal rendering.
//!
//! Every operation is stated over `Seq<char>`, the view of `str` and `String`,
//! so nothing here depends on how the text is encoded.
use vstd::prelude::*;
use vstd::string::*;

verus! {

/// `pattern` stands in `text` at position `at`.
pub open spec fn occurs_at(text: Seq<char>, pattern: Seq<char>, at: int) -> bool {
    &&& 0 <= at
    &&& at + pattern.len() <= text.len()
    &&& text.subrange(at, at + pattern.len()) == pattern
}

/// `pattern` stands somewhere in `text`.
pub open spec fn contains_text(text: Seq<char>, pattern: Seq<char>) -> bool {
    exists|at: int| occurs_at(text, pattern, at)
}

/// `text` begins with `prefix`.
pub open spec fn has_prefix(text: Seq<char>, prefix: Seq<char>) -> bool {
    occurs_at(text, prefix, 0)
}

/// `text` ends with `suffix`.
pub open spec fn has_suffix(text: Seq<char>, suffix: Seq<char>) -> bool {
    occurs_at(text, suffix, text.len() - suffix.len())
}

/// Every occurrence of the nonempty `pattern`, taken from the left and without
/// overlap, gives way to `with`.
pub open spec fn replaced(text: Seq<char>, pattern: Seq<char>, with: Seq<char>) -> Seq<char>
    decreases text.len(),
{
    if pattern.len() == 0 || text.len() < pattern.len() {
        text
    } else if has_prefix(text, pattern) {
        with + replaced(text.skip(pattern.len() as int), pattern, with)
    } else {
        seq![text[0]] + replaced(text.skip(1), pattern, with)
    }
}

/// `text` without its longest tail made of repetitions of the nonempty `suffix`.
pub open spec fn trimmed_end(text: Seq<char>, suffix: Seq<char>) -> Seq<char>
    decreases text.len(),
{
    if suffix.len() > 0 && has_suffix(text, suffix) {
        trimmed_end(text.take(text.len() - suffix.len()), suffix)
    } else {
        text
    }
}

/// What follows the last `separator` in `text`; all of it where there is none.
pub open spec fn after_last(text: Seq<char>, separator: char) -> Seq<char>
    decreases text.len(),
{
    if text.len() == 0 || text.last() == separator {
        Seq::empty()
    } else {
        after_last(text.drop_last(), separator).push(text.last())
    }
}

/// What precedes the first `separator` in `text`; all of it where there is none.
pub open spec fn before_first(text: Seq<char>, separator: char) -> Seq<char>
    decreases text.len(),
{
    if text.len() == 0 || text[0] == separator {
        Seq::empty()
    } else {
        seq![text[0]] + before_first(text.skip(1), separator)
    }
}

/// What follows the first `separator` in `text`; nothing where there is none.
pub open spec fn after_first(text: Seq<char>, separator: char) -> Option<Seq<char>>
    decreases text.len(),
{
    if text.len() == 0 {
        None
    } else if text[0] == separator {
        Some(text.skip(1))
    } else {
        after_first(text.skip(1), separator)
    }
}

/// What follows `prefix` in `text`; nothing where it does not begin with it.
pub open spec fn without_prefix(text: Seq<char>, prefix: Seq<char>) -> Option<Seq<char>> {
    if has_prefix(text, prefix) {
        Some(text.skip(prefix.len() as int))
    } else {
        None
    }
}

/// The pieces of `text` between the separators, empty pieces included.
pub open spec fn pieces(text: Seq<char>, separator: char) -> Seq<Seq<char>>
    decreases text.len(),
{
    if text.len() == 0 {
        seq![Seq::empty()]
    } else {
        let before = pieces(text.drop_last(), separator);
        if text.last() == separator {
            before.push(Seq::empty())
        } else {
            before.drop_last().push(before.last().push(text.last()))
        }
    }
}

/// The characters with the Unicode property `White_Space`.
pub open spec fn is_space(c: char) -> bool {
    ||| '\u{9}' <= c <= '\u{d}'
    ||| c == ' '
    ||| c == '\u{85}'
    ||| c == '\u{a0}'
    ||| c == '\u{1680}'
    ||| '\u{2000}' <= c <= '\u{200a}'
    ||| c == '\u{2028}'
    ||| c == '\u{2029}'
    ||| c == '\u{202f}'
    ||| c == '\u{205f}'
    ||| c == '\u{3000}'
}

/// The first run of characters that are not white space, as long as it goes.
/// Empty where all of `text` is white space.
pub open spec fn first_word_of(text: Seq<char>) -> Seq<char>
    decreases text.len(),
{
    if text.len() == 0 {
        Seq::empty()
    } else if is_space(text[0]) {
        first_word_of(text.skip(1))
    } else {
        leading_word(text)
    }
}

/// The characters of `text` before its first white space.
pub open spec fn leading_word(text: Seq<char>) -> Seq<char>
    decreases text.len(),
{
    if text.len() == 0 || is_space(text[0]) {
        Seq::empty()
    } else {
        seq![text[0]] + leading_word(text.skip(1))
    }
}

/// The character of a decimal digit.
pub open spec fn digit_char(d: nat) -> char {
    if d == 0 {
        '0'
    } else if d == 1 {
        '1'
    } else if d == 2 {
        '2'
    } else if d == 3 {
        '3'
    } else if d == 4 {
        '4'
    } else if d == 5 {
        '5'
    } else if d == 6 {
        '6'
    } else if d == 7 {
        '7'
    } else if d == 8 {
        '8'
    } else {
        '9'
    }
}

/// `n` in decimal, without leading zeros.
pub open spec fn decimal_of(n: nat) -> Seq<char>
    decreases n,
{
    if n < 10 {
        seq![digit_char(n)]
    } else {
        decimal_of(n / 10).push(digit_char(n % 10))
    }
}

/// The views of a vector of texts.
pub open spec fn views(texts: Seq<String>) -> Seq<Seq<char>> {
    texts.map_values(|t: String| t@)
}

/// The view of an optional text.
pub open spec fn opt_view(text: Option<String>) -> Option<Seq<char>> {
    match text {
        Some(t) => Some(t@),
        None => None,
    }
}

/// The two characters are the same up to the case of ASCII letters.
pub open spec fn equal_char_ignoring_case(a: char, b: char) -> bool {
    ||| a == b
    ||| 'a' <= a <= 'z' && a as u32 == b as u32 + 32
    ||| 'a' <= b <= 'z' && b as u32 == a as u32 + 32
}

/// The two texts are the same up to the case of ASCII letters.
pub open spec fn equal_ignoring_case(a: Seq<char>, b: Seq<char>) -> bool {
    a.len() == b.len() && forall|i: int|
        0 <= i < a.len() ==> equal_char_ignoring_case(#[trigger] a[i], b[i])
}

/// The characters of `text`.
pub fn chars_of(text: &str) -> (r: Vec<char>)
    ensures
        r@ == text@,
{
    let mut r: Vec<char> = Vec::new();
    for c in it: text.chars()
        invariant
            r@ == text@.take(it.index() as int),
            it.seq() == text@,
    {
        r.push(c);
        assert(text@.take(it.index() as int).push(c) =~= text@.take(it.index() + 1));
    }
    assert(text@.take(text@.len() as int) =~= text@);
    r
}

/// Whether `pattern` stands in `text` at `at`.
pub fn occurs_in(text: &Vec<char>, pattern: &Vec<char>, at: usize) -> (r: bool)
    ensures
        r == occurs_at(text@, pattern@, at as int),
{
    let n: usize = text.len();
    let m: usize = pattern.len();
    if at > n || m > n - at {
        return false;
    }
    let mut i: usize = 0;
    while i < m
        invariant
            i <= m,
            m == pattern@.len(),
            at + m <= n,
            n == text.len(),
            forall|k: int| 0 <= k < i ==> text@[at + k] == #[trigger] pattern@[k],
        decreases m - i,
    {
        if text[at + i] != pattern[i] {
            assert(text@.subrange(at as int, at + m)[i as int] != pattern@[i as int]);
            return false;
        }
        i = i + 1;
    }
    assert(text@.subrange(at as int, at + m) =~= pattern@);
    true
}

/// Whether two texts are the same.
pub fn same(a: &str, b: &str) -> (r: bool)
    ensures
        r == (a@ == b@),
{
    let x = chars_of(a);
    let y = chars_of(b);
    let r = x.len() == y.len() && occurs_in(&x, &y, 0);
    assert(x@.len() == y@.len() ==> x@.subrange(0, y@.len() as int) =~= x@);
    r
}

/// Whether two texts are the same up to the case of ASCII letters.
pub fn same_ignoring_case(a: &str, b: &str) -> (r: bool)
    ensures
        r == equal_ignoring_case(a@, b@),
{
    let x = chars_of(a);
    let y = chars_of(b);
    if x.len() != y.len() {
        return false;
    }
    let mut i: usize = 0;
    while i < x.len()
        invariant
            i <= x.len(),
            x@ == a@,
            y@ == b@,
            x.len() == y.len(),
            forall|k: int| 0 <= k < i ==> equal_char_ignoring_case(#[trigger] a@[k], b@[k]),
        decreases x.len() - i,
    {
        let c = x[i];
        let d = y[i];
        let close = c == d || ('a' <= c && c <= 'z' && c as u32 - 32 == d as u32) || ('a' <= d && d
            <= 'z' && d as u32 - 32 == c as u32);
        if !close {
            assert(!equal_char_ignoring_case(a@[i as int], b@[i as int]));
            return false;
        }
        i = i + 1;
    }
    true
}

/// Whether `text` begins with `prefix`.
pub fn starts_with(text: &str, prefix: &str) -> (r: bool)
    ensures
        r == has_prefix(text@, prefix@),
{
    occurs_in(&chars_of(text), &chars_of(prefix), 0)
}

/// Whether `text` ends with `suffix`.
pub fn ends_with(text: &str, suffix: &str) -> (r: bool)
    ensures
        r == has_suffix(text@, suffix@),
{
    let t = chars_of(text);
    let s = chars_of(suffix);
    s.len() <= t.len() && occurs_in(&t, &s, t.len() - s.len())
}

/// The first position at or after `from` at which `pattern` stands in `text`.
pub fn find_from(text: &Vec<char>, pattern: &Vec<char>, from: usize) -> (r: Option<usize>)
    ensures
        match r {
            Some(at) => {
                &&& from <= at
                &&& occurs_at(text@, pattern@, at as int)
                &&& forall|k: int| from <= k < at ==> !occurs_at(text@, pattern@, k)
            },
            None => forall|k: int| from <= k ==> !occurs_at(text@, pattern@, k),
        },
{
    let mut i: usize = from;
    while i < text.len() && pattern.len() <= text.len() - i
        invariant
            from <= i,
            i <= text.len() || i == from,
            forall|k: int| from <= k < i ==> !occurs_at(text@, pattern@, k),
        decreases text.len() - i,
    {
        if occurs_in(text, pattern, i) {
            return Some(i);
        }
        i = i + 1;
    }
    if occurs_in(text, pattern, i) {
        return Some(i);
    }
    None
}

/// Whether `pattern` stands somewhere in `text`.
pub fn contains(text: &str, pattern: &str) -> (r: bool)
    ensures
        r == contains_text(text@, pattern@),
{
    match find_from(&chars_of(text), &chars_of(pattern), 0) {
        Some(at) => {
            assert(occurs_at(text@, pattern@, at as int));
            true
        },
        None => false,
    }
}

/// What follows `prefix`, where `text` begins with it.
pub fn strip_prefix(text: &str, prefix: &str) -> (r: Option<String>)
    ensures
        opt_view(r) == without_prefix(text@, prefix@),
{
    if starts_with(text, prefix) {
        let rest = text.substring_char(prefix.unicode_len(), text.unicode_len());
        assert(rest@ =~= text@.skip(prefix@.len() as int));
        Some(rest.to_owned())
    } else {
        None
    }
}

/// What precedes `suffix`, where `text` ends with it.
pub fn strip_suffix(text: &str, suffix: &str) -> (r: Option<String>)
    ensures
        match r {
            Some(rest) => has_suffix(text@, suffix@) && rest@ == text@.take(
                text@.len() - suffix@.len(),
            ),
            None => !has_suffix(text@, suffix@),
        },
{
    if ends_with(text, suffix) {
        let rest = text.substring_char(0, text.unicode_len() - suffix.unicode_len());
        assert(rest@ =~= text@.take(text@.len() - suffix@.len()));
        Some(rest.to_owned())
    } else {
        None
    }
}

/// `text` without its longest tail made of repetitions of `suffix`.
pub fn trim_end(text: &str, suffix: &str) -> (r: String)
    requires
        suffix@.len() > 0,
    ensures
        r@ == trimmed_end(text@, suffix@),
{
    let t = chars_of(text);
    let s = chars_of(suffix);
    let mut n: usize = t.len();
    assert(t@.take(n as int) =~= t@);
    while s.len() <= n && occurs_in(&t, &s, n - s.len())
        invariant
            n <= t.len(),
            t@ == text@,
            s@ == suffix@,
            s@.len() > 0,
            trimmed_end(text@, suffix@) == trimmed_end(text@.take(n as int), suffix@),
        decreases n,
    {
        proof {
            let cut = text@.take(n as int);
            let from = n - s@.len();
            assert(cut.subrange(from, from + s@.len()) =~= text@.subrange(from, from + s@.len()));
            assert(cut.take(cut.len() - s@.len()) =~= text@.take(from));
        }
        n = n - s.len();
    }
    proof {
        let cut = text@.take(n as int);
        let from = n - s@.len();
        if from >= 0 {
            assert(cut.subrange(from, from + s@.len()) =~= text@.subrange(from, from + s@.len()));
        }
    }
    let r = text.substring_char(0, n);
    assert(r@ =~= text@.take(n as int));
    r.to_owned()
}

/// What follows the last `separator` in `text`; all of it where there is none.
pub fn last_piece(text: &str, separator: char) -> (r: String)
    ensures
        r@ == after_last(text@, separator),
{
    let t = chars_of(text);
    let mut i: usize = 0;
    let mut from: usize = 0;
    assert(t@.take(0) =~= Seq::<char>::empty());
    while i < t.len()
        invariant
            from <= i <= t.len(),
            t@ == text@,
            after_last(text@.take(i as int), separator) =~= text@.subrange(from as int, i as int),
        decreases t.len() - i,
    {
        assert(text@.take(i + 1).drop_last() =~= text@.take(i as int));
        if t[i] == separator {
            from = i + 1;
        }
        i = i + 1;
    }
    assert(text@.take(i as int) =~= text@);
    text.substring_char(from, t.len()).to_owned()
}

/// The pieces of `text` between the separators, empty pieces included.
pub fn split(text: &str, separator: char) -> (r: Vec<String>)
    ensures
        views(r@) == pieces(text@, separator),
        r@.len() > 0,
{
    let t = chars_of(text);
    let mut r: Vec<String> = Vec::new();
    let mut i: usize = 0;
    let mut from: usize = 0;
    assert(t@.take(0) =~= Seq::<char>::empty());
    while i < t.len()
        invariant
            from <= i <= t.len(),
            t@ == text@,
            pieces(text@.take(i as int), separator) =~= views(r@).push(
                text@.subrange(from as int, i as int),
            ),
        decreases t.len() - i,
    {
        proof {
            assert(text@.take(i + 1).drop_last() =~= text@.take(i as int));
            let before = pieces(text@.take(i as int), separator);
            assert(before.drop_last() =~= views(r@));
            assert(before.last().push(text@[i as int]) =~= text@.subrange(from as int, i + 1));
        }
        if t[i] == separator {
            let piece = text.substring_char(from, i).to_owned();
            let ghost before = r@;
            r.push(piece);
            assert(views(r@) =~= views(before).push(piece@));
            from = i + 1;
            assert(text@.subrange(from as int, i + 1) =~= Seq::<char>::empty());
        }
        i = i + 1;
    }
    assert(text@.take(i as int) =~= text@);
    let ghost before = r@;
    let piece = text.substring_char(from, t.len()).to_owned();
    r.push(piece);
    assert(views(r@) =~= views(before).push(piece@));
    r
}

/// Whether `c` has the Unicode property `White_Space`.
pub fn is_whitespace(c: char) -> (r: bool)
    ensures
        r == is_space(c),
{
    ('\u{9}' <= c && c <= '\u{d}') || c == ' ' || c == '\u{85}' || c == '\u{a0}' || c == '\u{1680}'
        || ('\u{2000}' <= c && c <= '\u{200a}') || c == '\u{2028}' || c == '\u{2029}'
        || c == '\u{202f}' || c == '\u{205f}' || c == '\u{3000}'
}

/// The first run of characters that are not white space, or nothing where all of
/// `text` is white space.
pub fn first_word(text: &str) -> (r: Option<String>)
    ensures
        match r {
            Some(word) => word@ == first_word_of(text@) && word@.len() > 0,
            None => first_word_of(text@).len() == 0,
        },
{
    let t = chars_of(text);
    let mut from: usize = 0;
    assert(text@.skip(0) =~= text@);
    while from < t.len() && is_whitespace(t[from])
        invariant
            from <= t.len(),
            t@ == text@,
            first_word_of(text@) == first_word_of(text@.skip(from as int)),
        decreases t.len() - from,
    {
        assert(text@.skip(from as int).skip(1) =~= text@.skip(from + 1));
        from = from + 1;
    }
    if from == t.len() {
        return None;
    }
    assert(text@.skip(from as int)[0] == text@[from as int]);
    let ghost tail = text@.skip(from as int);
    let mut to: usize = from;
    assert(text@.subrange(from as int, to as int) + leading_word(text@.skip(to as int))
        =~= leading_word(tail));
    while to < t.len() && !is_whitespace(t[to])
        invariant
            from <= to <= t.len(),
            t@ == text@,
            leading_word(tail) == text@.subrange(from as int, to as int) + leading_word(
                text@.skip(to as int),
            ),
        decreases t.len() - to,
    {
        proof {
            assert(text@.skip(to as int)[0] == text@[to as int]);
            assert(text@.skip(to as int).skip(1) =~= text@.skip(to + 1));
            assert(text@.subrange(from as int, to as int) + (seq![text@[to as int]] + leading_word(
                text@.skip(to + 1),
            )) =~= text@.subrange(from as int, to + 1) + leading_word(text@.skip(to + 1)));
        }
        to = to + 1;
    }
    assert(leading_word(text@.skip(to as int)) =~= Seq::<char>::empty());
    assert(leading_word(tail) =~= text@.subrange(from as int, to as int));
    assert(to > from);
    Some(text.substring_char(from, to).to_owned())
}

/// `text` with every occurrence of the nonempty `pattern`, taken from the left and
/// without overlap, replaced by `with`.
pub fn replace_all(text: &str, pattern: &str, with: &str) -> (r: String)
    requires
        pattern@.len() > 0,
    ensures
        r@ == replaced(text@, pattern@, with@),
{
    let t = chars_of(text);
    let p = chars_of(pattern);
    let mut r = String::new();
    let mut i: usize = 0;
    assert(text@.skip(0) =~= text@);
    assert(r@ + replaced(text@, pattern@, with@) =~= replaced(text@, pattern@, with@));
    while i < t.len() && p.len() <= t.len() - i
        invariant
            i <= t.len(),
            t@ == text@,
            p@ == pattern@,
            p@.len() > 0,
            replaced(text@, pattern@, with@) == r@ + replaced(
                text@.skip(i as int),
                pattern@,
                with@,
            ),
        decreases t.len() - i,
    {
        let ghost rest = text@.skip(i as int);
        let ghost before = r@;
        assert(rest.subrange(0, p@.len() as int) =~= text@.subrange(i as int, i + p@.len()));
        if occurs_in(&t, &p, i) {
            r.append(with);
            proof {
                assert(rest.skip(p@.len() as int) =~= text@.skip(i + p@.len()));
                assert(before + (with@ + replaced(text@.skip(i + p@.len()), pattern@, with@))
                    =~= r@ + replaced(text@.skip(i + p@.len()), pattern@, with@));
            }
            i = i + p.len();
        } else {
            r.append(text.substring_char(i, i + 1));
            proof {
                assert(rest.skip(1) =~= text@.skip(i + 1));
                assert(before + (seq![rest[0]] + replaced(text@.skip(i + 1), pattern@, with@))
                    =~= r@ + replaced(text@.skip(i + 1), pattern@, with@));
            }
            i = i + 1;
        }
    }
    r.append(text.substring_char(i, t.len()));
    assert(text@.subrange(i as int, t.len() as int) =~= text@.skip(i as int));
    r
}

/// `text` before its first `separator` and after it, where it has one.
pub fn split_once(text: &str, separator: char) -> (r: Option<(String, String)>)
    ensures
        match r {
            Some((before, after)) => {
                &&& before@ == before_first(text@, separator)
                &&& after_first(text@, separator) == Some(after@)
                &&& !before@.contains(separator)
                &&& text@ == before@.push(separator) + after@
            },
            None => {
                &&& after_first(text@, separator) is None
                &&& before_first(text@, separator) == text@
                &&& !text@.contains(separator)
            },
        },
{
    let t = chars_of(text);
    let mut i: usize = 0;
    assert(text@.skip(0) =~= text@);
    assert(text@.take(0) + before_first(text@, separator) =~= before_first(text@, separator));
    while i < t.len()
        invariant
            i <= t.len(),
            t@ == text@,
            forall|k: int| 0 <= k < i ==> text@[k] != separator,
            before_first(text@, separator) == text@.take(i as int) + before_first(
                text@.skip(i as int),
                separator,
            ),
            after_first(text@, separator) == after_first(text@.skip(i as int), separator),
        decreases t.len() - i,
    {
        assert(text@.skip(i as int).skip(1) =~= text@.skip(i + 1));
        if t[i] == separator {
            let before = text.substring_char(0, i).to_owned();
            let after = text.substring_char(i + 1, t.len()).to_owned();
            assert(before@ =~= text@.take(i as int) + Seq::<char>::empty());
            assert(after@ =~= text@.skip(i + 1));
            assert(text@ =~= before@.push(separator) + after@);
            return Some((before, after));
        }
        assert(text@.take(i as int) + (seq![text@[i as int]] + before_first(
            text@.skip(i + 1),
            separator,
        )) =~= text@.take(i + 1) + before_first(text@.skip(i + 1), separator));
        i = i + 1;
    }
    assert(text@.take(i as int) + Seq::<char>::empty() =~= text@);
    None
}

/// What precedes the first `separator` in `text`; all of it where there is none.
pub fn first_piece(text: &str, separator: char) -> (r: String)
    ensures
        r@ == before_first(text@, separator),
{
    match split_once(text, separator) {
        Some((before, _)) => before,
        None => text.to_owned(),
    }
}

fn digit_text(d: u128) -> (r: &'static str)
    requires
        d < 10,
    ensures
        r@ == seq![digit_char(d as nat)],
{
    proof {
        reveal_strlit("0");
        reveal_strlit("1");
        reveal_strlit("2");
        reveal_strlit("3");
        reveal_strlit("4");
        reveal_strlit("5");
        reveal_strlit("6");
        reveal_strlit("7");
        reveal_strlit("8");
        reveal_strlit("9");
    }
    let r = match d {
        0 => "0",
        1 => "1",
        2 => "2",
        3 => "3",
        4 => "4",
        5 => "5",
        6 => "6",
        7 => "7",
        8 => "8",
        _ => "9",
    };
    assert(r@ =~= seq![digit_char(d as nat)]);
    r
}

/// `n` in decimal.
pub fn decimal(n: u128) -> (r: String)
    ensures
        r@ == decimal_of(n as nat),
    decreases n,
{
    if n < 10 {
        digit_text(n).to_owned()
    } else {
        let head = decimal(n / 10);
        let r = head.concat(digit_text(n % 10));
        assert(r@ =~= decimal_of((n / 10) as nat).push(digit_char((n % 10) as nat)));
        r
    }
}

/// A copy of an optional text.
pub fn clone_opt(text: &Option<String>) -> (r: Option<String>)
    ensures
        r == *text,
{
    match text {
        Some(t) => Some(t.clone()),
        None => None,
    }
}

/// A copy of a list of texts.
pub fn clone_all(texts: &Vec<String>) -> (r: Vec<String>)
    ensures
        views(r@) == views(texts@),
{
    let mut r: Vec<String> = Vec::new();
    let mut i: usize = 0;
    while i < texts.len()
        invariant
            i <= texts.len(),
            views(r@) =~= views(texts@).take(i as int),
        decreases texts.len() - i,
    {
        let ghost before = r@;
        let copy = texts[i].as_str().to_owned();
        r.push(copy);
        assert(views(r@) =~= views(before).push(copy@));
        i = i + 1;
    }
    assert(views(texts@).take(i as int) =~= views(texts@));
    r
}

/// Whether `texts` holds `wanted`.
pub fn holds(texts: &Vec<String>, wanted: &str) -> (r: bool)
    ensures
        r == views(texts@).contains(wanted@),
{
    let mut i: usize = 0;
    while i < texts.len()
        invariant
            i <= texts.len(),
            forall|k: int| 0 <= k < i ==> (#[trigger] texts@[k])@ != wanted@,
        decreases texts.len() - i,
    {
        if same(texts[i].as_str(), wanted) {
            assert(views(texts@)[i as int] == wanted@);
            return true;
        }
        i = i + 1;
    }
    assert forall|k: int| 0 <= k < views(texts@).len() implies views(texts@)[k] != wanted@ by {
        assert(views(texts@)[k] == texts@[k]@);
    }
    false
}

/// Text without the pattern is left as it is by a replacement.
pub proof fn replaced_absent(text: Seq<char>, pattern: Seq<char>, with: Seq<char>)
    requires
        !contains_text(text, pattern),
    ensures
        replaced(text, pattern, with) == text,
    decreases text.len(),
{
    if pattern.len() > 0 && text.len() >= pattern.len() {
        assert(!occurs_at(text, pattern, 0));
        let rest = text.skip(1);
        assert(!contains_text(rest, pattern)) by {
            if contains_text(rest, pattern) {
                let at = choose|at: int| occurs_at(rest, pattern, at);
                assert(text.subrange(at + 1, at + 1 + pattern.len()) =~= rest.subrange(
                    at,
                    at + pattern.len(),
                ));
                assert(occurs_at(text, pattern, at + 1));
            }
        }
        replaced_absent(rest, pattern, with);
        assert(seq![text[0]] + rest =~= text);
    }
}

/// The texts in one, with commas between them.
pub open spec fn joined(texts: Seq<Seq<char>>) -> Seq<char>
    decreases texts.len(),
{
    if texts.len() == 0 {
        Seq::empty()
    } else if texts.len() == 1 {
        texts[0]
    } else {
        joined(texts.drop_last()) + ","@ + texts.last()
    }
}

/// The texts in one, with commas between them.
pub fn join(texts: &Vec<String>) -> (r: String)
    ensures
        r@ == joined(views(texts@)),
{
    let ghost all = views(texts@);
    let mut r = "".to_owned();
    proof {
        reveal_strlit("");
        assert(r@ =~= joined(all.take(0)));
    }
    let mut i: usize = 0;
    while i < texts.len()
        invariant
            i <= texts.len(),
            all == views(texts@),
            r@ == joined(all.take(i as int)),
        decreases texts.len() - i,
    {
        assert(all.take(i + 1).drop_last() =~= all.take(i as int));
        assert(all.take(i + 1).last() == texts@[i as int]@);
        if i > 0 {
            r = r.concat(",").concat(texts[i].as_str());
        } else {
            r = texts[i].clone();
        }
        i = i + 1;
    }
    assert(all.take(i as int) =~= all);
    r
}

/// A text that is put together from two with a separator between them, of which the first does
/// not hold it, comes apart again.
pub proof fn joined_texts_come_apart(head: Seq<char>, separator: char, tail: Seq<char>)
    requires
        !head.contains(separator),
    ensures
        before_first(head.push(separator) + tail, separator) == head,
        after_first(head.push(separator) + tail, separator) == Some(tail),
    decreases head.len(),
{
    let text = head.push(separator) + tail;
    if head.len() == 0 {
        assert(text[0] == separator);
        assert(text.skip(1) =~= tail);
        assert(before_first(text, separator) =~= head);
    } else {
        let rest = head.skip(1);
        assert(head.contains(head[0]));
        assert(!rest.contains(separator)) by {
            if rest.contains(separator) {
                let i = choose|i: int| 0 <= i < rest.len() && rest[i] == separator;
                assert(head[i + 1] == separator);
            }
        }
        joined_texts_come_apart(rest, separator, tail);
        assert(text.skip(1) =~= rest.push(separator) + tail);
        assert(seq![head[0]] + rest =~= head);
    }
}

/// A text that does not hold the separator is its own first piece.
pub proof fn whole_texts_stay(text: Seq<char>, separator: char)
    requires
        !text.contains(separator),
    ensures
        before_first(text, separator) == text,
    decreases text.len(),
{
    if text.len() > 0 {
        let rest = text.skip(1);
        assert(text.contains(text[0]));
        assert(!rest.contains(separator)) by {
            if rest.contains(separator) {
                let i = choose|i: int| 0 <= i < rest.len() && rest[i] == separator;
                assert(text[i + 1] == separator);
            }
        }
        whole_texts_stay(rest, separator);
        assert(seq![text[0]] + rest =~= text);
    } else {
        assert(before_first(text, separator) =~= text);
    }
}

}
