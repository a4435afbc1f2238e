//! Splitting and number parsing over text, as `str`'s own methods do it.

use vstd::prelude::*;

use crate::text::{chars_of, push_char, string_from_chars};

verus! {

/// A Unicode `White_Space` character, as `char::is_whitespace` decides.
pub open spec fn is_space(c: char) -> bool {
    ('\u{9}' <= c && c <= '\u{d}') || c == ' ' || c == '\u{85}' || c == '\u{a0}' || c == '\u{1680}'
        || ('\u{2000}' <= c && c <= '\u{200a}') || c == '\u{2028}' || c == '\u{2029}' || c == '\u{202f}'
        || c == '\u{205f}' || c == '\u{3000}'
}

fn space(c: char) -> (found: bool)
    ensures
        found == is_space(c),
{
    ('\u{9}' <= c && c <= '\u{d}') || c == ' ' || c == '\u{85}' || c == '\u{a0}' || c == '\u{1680}'
        || ('\u{2000}' <= c && c <= '\u{200a}') || c == '\u{2028}' || c == '\u{2029}' || c == '\u{202f}'
        || c == '\u{205f}' || c == '\u{3000}'
}

/// The pieces of `text` between occurrences of `separator`, as `str::split` gives them.
pub open spec fn split_on(text: Seq<char>, separator: char) -> Seq<Seq<char>>
    decreases text.len(),
{
    if text.len() == 0 {
        seq![seq![]]
    } else if text.last() == separator {
        split_on(text.drop_last(), separator).push(seq![])
    } else {
        let pieces = split_on(text.drop_last(), separator);
        pieces.drop_last().push(pieces.last().push(text.last()))
    }
}

/// A line without the carriage return of a `\r\n` ending.
pub open spec fn without_cr(line: Seq<char>) -> Seq<char> {
    if line.len() > 0 && line.last() == '\r' {
        line.drop_last()
    } else {
        line
    }
}

/// The lines of `text`, as `str::lines` gives them: split at `\n`, each
/// ended line without a trailing `\r`, and no empty final line.
pub open spec fn lines(text: Seq<char>) -> Seq<Seq<char>> {
    let pieces = split_on(text, '\n');
    let ended = pieces.drop_last().map_values(|line: Seq<char>| without_cr(line));
    if pieces.last().len() == 0 {
        ended
    } else {
        ended.push(pieces.last())
    }
}

proof fn lemma_split_nonempty(text: Seq<char>, separator: char)
    ensures
        split_on(text, separator).len() >= 1,
    decreases text.len(),
{
    if text.len() > 0 {
        lemma_split_nonempty(text.drop_last(), separator);
    }
}

fn strip_cr(line: Vec<char>) -> (stripped: Vec<char>)
    ensures
        stripped@ == without_cr(line@),
{
    let mut line = line;
    let length = line.len();
    if length > 0 && line[length - 1] == '\r' {
        line.pop();
    }
    line
}

/// The lines of a text.
pub fn text_lines(text: &str) -> (result: Vec<String>)
    ensures
        result@.map_values(|line: String| line@) == lines(text@),
{
    let characters = chars_of(text);
    let mut result: Vec<String> = Vec::new();
    let mut current: Vec<char> = Vec::new();
    let mut index: usize = 0;
    proof {
        assert(text@.subrange(0, 0) =~= Seq::<char>::empty());
    }
    while index < characters.len()
        invariant
            characters@ == text@,
            index <= characters@.len(),
            split_on(text@.subrange(0, index as int), '\n').len() >= 1,
            result@.map_values(|line: String| line@) == split_on(text@.subrange(0, index as int), '\n').drop_last().map_values(
                |line: Seq<char>| without_cr(line),
            ),
            current@ == split_on(text@.subrange(0, index as int), '\n').last(),
        decreases characters@.len() - index,
    {
        let ghost before = text@.subrange(0, index as int);
        let ghost after = text@.subrange(0, index + 1);
        assert(after.drop_last() =~= before);
        assert(after.last() == characters@[index as int]);
        proof {
            lemma_split_nonempty(before, '\n');
        }
        let character = characters[index];
        if character == '\n' {
            let finished = strip_cr(current);
            let ghost pushed = finished@;
            result.push(string_from_chars(finished.as_slice()));
            current = Vec::new();
            proof {
                let pieces = split_on(before, '\n');
                assert(split_on(after, '\n') == pieces.push(seq![]));
                assert(split_on(after, '\n').drop_last() =~= pieces);
                assert(pieces =~= pieces.drop_last().push(pieces.last()));
                assert(result@.map_values(|line: String| line@) =~= pieces.drop_last().map_values(
                    |line: Seq<char>| without_cr(line),
                ).push(pushed));
                assert(pieces.map_values(|line: Seq<char>| without_cr(line)) =~= pieces.drop_last().map_values(
                    |line: Seq<char>| without_cr(line),
                ).push(without_cr(pieces.last())));
            }
        } else {
            current.push(character);
            proof {
                let pieces = split_on(before, '\n');
                assert(split_on(after, '\n') == pieces.drop_last().push(pieces.last().push(character)));
                assert(split_on(after, '\n').drop_last() =~= pieces.drop_last());
            }
        }
        index += 1;
    }
    proof {
        assert(text@.subrange(0, text@.len() as int) =~= text@);
    }
    if current.len() > 0 {
        let ghost last = current@;
        result.push(string_from_chars(current.as_slice()));
        proof {
            assert(result@.map_values(|line: String| line@) =~= split_on(text@, '\n').drop_last().map_values(
                |line: Seq<char>| without_cr(line),
            ).push(last));
        }
    }
    result
}

/// The words of `text` between runs of whitespace, as `str::split_whitespace` gives them.
pub open spec fn words(text: Seq<char>) -> Seq<Seq<char>>
    decreases text.len(),
{
    if text.len() == 0 {
        seq![]
    } else if is_space(text.last()) {
        words(text.drop_last())
    } else if text.len() > 1 && !is_space(text.drop_last().last()) {
        let earlier = words(text.drop_last());
        earlier.drop_last().push(earlier.last().push(text.last()))
    } else {
        words(text.drop_last()).push(seq![text.last()])
    }
}

proof fn lemma_words_nonempty(text: Seq<char>)
    requires
        text.len() > 0,
        !is_space(text.last()),
    ensures
        words(text).len() >= 1,
    decreases text.len(),
{
    if text.len() > 1 && !is_space(text.drop_last().last()) {
        lemma_words_nonempty(text.drop_last());
    }
}

/// The words of a text.
pub fn text_words(text: &str) -> (result: Vec<String>)
    ensures
        result@.map_values(|word: String| word@) == words(text@),
{
    let characters = chars_of(text);
    let mut result: Vec<String> = Vec::new();
    let mut current: Vec<char> = Vec::new();
    let mut index: usize = 0;
    while index < characters.len()
        invariant
            characters@ == text@,
            index <= characters@.len(),
            current@.len() == 0 ==> result@.map_values(|word: String| word@) == words(text@.subrange(0, index as int)),
            current@.len() > 0 ==> index > 0 && !is_space(text@[index - 1])
                && words(text@.subrange(0, index as int)).len() >= 1
                && result@.map_values(|word: String| word@) == words(text@.subrange(0, index as int)).drop_last()
                && current@ == words(text@.subrange(0, index as int)).last(),
            current@.len() == 0 ==> (index == 0 || is_space(text@[index - 1])),
        decreases characters@.len() - index,
    {
        let ghost before = text@.subrange(0, index as int);
        let ghost after = text@.subrange(0, index + 1);
        assert(after.drop_last() =~= before);
        assert(after.last() == characters@[index as int]);
        let character = characters[index];
        if space(character) {
            if current.len() > 0 {
                let ghost word = current@;
                result.push(string_from_chars(current.as_slice()));
                current = Vec::new();
                proof {
                    assert(words(after) == words(before));
                    assert(result@.map_values(|word: String| word@) =~= words(before).drop_last().push(word));
                    assert(words(before) =~= words(before).drop_last().push(words(before).last()));
                }
            }
        } else {
            let ghost was_empty = current@.len() == 0;
            current.push(character);
            proof {
                if was_empty {
                    if index > 0 {
                        assert(before.last() == text@[index - 1]);
                    }
                    assert(words(after) == words(before).push(seq![character]));
                    assert(words(after).drop_last() =~= words(before));
                } else {
                    assert(before.last() == text@[index - 1]);
                    assert(words(after) == words(before).drop_last().push(words(before).last().push(character)));
                    assert(words(after).drop_last() =~= words(before).drop_last());
                }
                lemma_words_nonempty(after);
            }
        }
        index += 1;
    }
    proof {
        assert(text@.subrange(0, text@.len() as int) =~= text@);
    }
    if current.len() > 0 {
        let ghost word = current@;
        result.push(string_from_chars(current.as_slice()));
        proof {
            assert(result@.map_values(|word: String| word@) =~= words(text@).drop_last().push(word));
            assert(words(text@) =~= words(text@).drop_last().push(words(text@).last()));
        }
    }
    result
}

/// The value of a run of ASCII digits.
pub open spec fn digits_value(digits: Seq<char>) -> nat
    decreases digits.len(),
{
    if digits.len() == 0 {
        0
    } else {
        digits_value(digits.drop_last()) * 10 + (digits.last() as nat - '0' as nat) as nat
    }
}

/// Whether every character is an ASCII digit.
pub open spec fn all_digits(text: Seq<char>) -> bool {
    forall|i: int| 0 <= i < text.len() ==> '0' <= #[trigger] text[i] && text[i] <= '9'
}

/// What `u64::from_str` accepts: an optional `+`, then one or more ASCII
/// digits whose value fits.
pub open spec fn parsed_u64(text: Seq<char>) -> Option<u64> {
    let digits = if text.len() > 0 && text[0] == '+' { text.drop_first() } else { text };
    if digits.len() > 0 && all_digits(digits) && digits_value(digits) <= u64::MAX {
        Some(digits_value(digits) as u64)
    } else {
        None
    }
}

/// Parses an unsigned decimal number as `u64::from_str` does.
pub fn parse_u64(text: &str) -> (value: Option<u64>)
    ensures
        value == parsed_u64(text@),
{
    let characters = chars_of(text);
    let start: usize = if characters.len() > 0 && characters[0] == '+' { 1 } else { 0 };
    let ghost digits = if text@.len() > 0 && text@[0] == '+' { text@.drop_first() } else { text@ };
    assert(digits =~= text@.subrange(start as int, text@.len() as int));
    if start == characters.len() {
        return None;
    }
    let mut value: u64 = 0;
    let mut index: usize = start;
    while index < characters.len()
        invariant
            characters@ == text@,
            start <= index <= characters@.len(),
            digits == text@.subrange(start as int, text@.len() as int),
            digits == (if text@.len() > 0 && text@[0] == '+' { text@.drop_first() } else { text@ }),
            all_digits(text@.subrange(start as int, index as int)),
            value as nat == digits_value(text@.subrange(start as int, index as int)),
        decreases characters@.len() - index,
    {
        let character = characters[index];
        let ghost prefix = text@.subrange(start as int, index + 1);
        assert(prefix.drop_last() =~= text@.subrange(start as int, index as int));
        assert(prefix.last() == character);
        if character < '0' || character > '9' {
            assert(!all_digits(digits)) by {
                assert(digits[index - start] == character);
            }
            return None;
        }
        let digit = (character as u32 - '0' as u32) as u64;
        if value > (u64::MAX - digit) / 10 {
            proof {
                let length = (index + 1 - start) as int;
                assert(digits.subrange(0, length) =~= prefix);
                assert(digits.subrange(0, length - 1) =~= text@.subrange(start as int, index as int));
                assert(digits[length - 1] == character);
                assert(digits_value(prefix) == value as nat * 10 + digit as nat);
                assert(value as nat * 10 + digit as nat > u64::MAX) by (nonlinear_arith)
                    requires
                        value > (u64::MAX - digit) / 10,
                        digit <= 9,
                ;
                lemma_digits_value_grows(digits, length);
            }
            return None;
        }
        value = value * 10 + digit;
        index += 1;
    }
    assert(text@.subrange(start as int, text@.len() as int) =~= digits);
    Some(value)
}

proof fn lemma_digits_value_grows(digits: Seq<char>, length: int)
    requires
        0 < length <= digits.len(),
        all_digits(digits.subrange(0, length - 1)),
        '0' <= digits[length - 1] <= '9',
        digits_value(digits.subrange(0, length)) > u64::MAX,
    ensures
        !(all_digits(digits) && digits_value(digits) <= u64::MAX),
    decreases digits.len() - length,
{
    if length < digits.len() {
        if all_digits(digits) {
            let next = digits.subrange(0, length + 1);
            assert(next.drop_last() =~= digits.subrange(0, length));
            assert(all_digits(digits.subrange(0, length)));
            lemma_digits_value_grows(digits, length + 1);
        }
    } else {
        assert(digits.subrange(0, length) =~= digits);
    }
}

/// Whether `text` starts with `prefix`.
pub open spec fn starts_with(text: Seq<char>, prefix: Seq<char>) -> bool {
    prefix.len() <= text.len() && text.subrange(0, prefix.len() as int) == prefix
}

/// Whether `text` starts with `prefix`.
pub fn has_prefix(text: &str, prefix: &str) -> (found: bool)
    ensures
        found == starts_with(text@, prefix@),
{
    let characters = chars_of(text);
    let wanted = chars_of(prefix);
    if wanted.len() > characters.len() {
        return false;
    }
    let mut index: usize = 0;
    while index < wanted.len()
        invariant
            characters@ == text@,
            wanted@ == prefix@,
            wanted@.len() <= characters@.len(),
            index <= wanted@.len(),
            forall|j: int| 0 <= j < index ==> text@[j] == prefix@[j],
        decreases wanted@.len() - index,
    {
        if characters[index] != wanted[index] {
            assert(text@.subrange(0, prefix@.len() as int)[index as int] != prefix@[index as int]);
            return false;
        }
        index += 1;
    }
    assert(text@.subrange(0, prefix@.len() as int) =~= prefix@);
    true
}

/// The first position of `c` in `text`, if any.
pub open spec fn first_position(text: Seq<char>, c: char) -> Option<int>
    decreases text.len(),
{
    if text.len() == 0 {
        None
    } else if first_position(text.drop_last(), c) is Some {
        first_position(text.drop_last(), c)
    } else if text.last() == c {
        Some(text.len() - 1)
    } else {
        None
    }
}

proof fn lemma_first_position(text: Seq<char>, c: char)
    ensures
        first_position(text, c) matches Some(i) ==> 0 <= i < text.len() && text[i] == c
            && forall|j: int| 0 <= j < i ==> text[j] != c,
        first_position(text, c) is None ==> forall|j: int| 0 <= j < text.len() ==> text[j] != c,
    decreases text.len(),
{
    if text.len() > 0 {
        let rest = text.drop_last();
        lemma_first_position(rest, c);
        assert forall|j: int| 0 <= j < rest.len() implies rest[j] == text[j] by {}
    }
}

proof fn lemma_first_position_at(text: Seq<char>, c: char, i: int)
    requires
        0 <= i < text.len(),
        text[i] == c,
        forall|j: int| 0 <= j < i ==> text[j] != c,
    ensures
        first_position(text, c) == Some(i),
    decreases text.len(),
{
    lemma_first_position(text.drop_last(), c);
    if i < text.len() - 1 {
        lemma_first_position_at(text.drop_last(), c, i);
    }
}

/// The text before and after the first `separator`, as `str::split_once` gives them.
pub open spec fn split_first(text: Seq<char>, separator: char) -> Option<(Seq<char>, Seq<char>)> {
    match first_position(text, separator) {
        Some(i) => Some((text.subrange(0, i), text.subrange(i + 1, text.len() as int))),
        None => None,
    }
}

/// Splits a text at the first `separator`.
pub fn split_once(text: &str, separator: char) -> (parts: Option<(String, String)>)
    ensures
        match split_first(text@, separator) {
            Some((before, after)) => parts matches Some((a, b)) && a@ == before && b@ == after,
            None => parts is None,
        },
{
    let characters = chars_of(text);
    proof {
        lemma_first_position(text@, separator);
    }
    let mut index: usize = 0;
    while index < characters.len()
        invariant
            characters@ == text@,
            index <= characters@.len(),
            forall|j: int| 0 <= j < index ==> text@[j] != separator,
        decreases characters@.len() - index,
    {
        if characters[index] == separator {
            proof {
                lemma_first_position_at(text@, separator, index as int);
            }
            let before = string_from_chars(&characters.as_slice()[0..index]);
            let mut after = String::new();
            let mut rest: usize = index + 1;
            while rest < characters.len()
                invariant
                    characters@ == text@,
                    index < rest <= characters@.len(),
                    after@ == text@.subrange(index + 1, rest as int),
                decreases characters@.len() - rest,
            {
                push_char(&mut after, characters[rest]);
                assert(text@.subrange(index + 1, rest + 1) =~= text@.subrange(index + 1, rest as int).push(text@[rest as int]));
                rest += 1;
            }
            assert(characters@.subrange(0, index as int) =~= text@.subrange(0, index as int));
            return Some((before, after));
        }
        index += 1;
    }
    None
}

/// `text` without leading and trailing whitespace, as `str::trim` gives it.
pub open spec fn trimmed(text: Seq<char>) -> Seq<char>
    decreases text.len(),
{
    if text.len() > 0 && is_space(text[0]) {
        trimmed(text.drop_first())
    } else if text.len() > 0 && is_space(text.last()) {
        trimmed(text.drop_last())
    } else {
        text
    }
}

/// A text without leading and trailing whitespace.
pub fn trim_text(text: &str) -> (result: String)
    ensures
        result@ == trimmed(text@),
{
    let characters = chars_of(text);
    let mut start: usize = 0;
    let mut end: usize = characters.len();
    assert(text@.subrange(0, text@.len() as int) =~= text@);
    while start < end && space(characters[start])
        invariant
            characters@ == text@,
            start <= end <= characters@.len(),
            end == characters@.len(),
            trimmed(text@) == trimmed(text@.subrange(start as int, end as int)),
        decreases end - start,
    {
        assert(text@.subrange(start as int, end as int).drop_first() =~= text@.subrange(start + 1, end as int));
        start += 1;
    }
    while end > start && space(characters[end - 1])
        invariant
            characters@ == text@,
            start <= end <= characters@.len(),
            start == end || !is_space(text@[start as int]),
            trimmed(text@) == trimmed(text@.subrange(start as int, end as int)),
        decreases end - start,
    {
        let ghost piece = text@.subrange(start as int, end as int);
        assert(piece[0] == text@[start as int]);
        assert(piece.drop_last() =~= text@.subrange(start as int, end - 1));
        end -= 1;
    }
    proof {
        let piece = text@.subrange(start as int, end as int);
        if piece.len() > 0 {
            assert(piece[0] == text@[start as int]);
            assert(piece.last() == text@[end - 1]);
        }
    }
    string_from_chars(&characters.as_slice()[start..end])
}

/// The text as `str::to_lowercase` writes it.
pub uninterp spec fn lowercased(text: Seq<char>) -> Seq<char>;

/// Lower-cases a text.
///
/// Trusted: calls `str::to_lowercase`, whose result depends on the text
/// alone (the Unicode lower-case mapping of each character); the mapping
/// itself is not stated.
#[verifier::external_body]
fn lowercase_text(text: &str) -> (lower: String)
    ensures
        lower@ == lowercased(text@),
{
    text.to_lowercase()
}

/// Whether `part` occurs in `text`.
pub open spec fn contains_text(text: Seq<char>, part: Seq<char>) -> bool {
    exists|start: int| 0 <= start && start + part.len() <= text.len() && #[trigger] text.subrange(start, start + part.len()) == part
}

fn occurs_at(text: &Vec<char>, part: &Vec<char>, start: usize) -> (found: bool)
    requires
        start + part@.len() <= text@.len(),
    ensures
        found == (text@.subrange(start as int, start + part@.len()) == part@),
{
    let limit: usize = text.len();
    let mut index: usize = 0;
    while index < part.len()
        invariant
            limit == text@.len(),
            start + part@.len() <= text@.len(),
            index <= part@.len(),
            forall|j: int| 0 <= j < index ==> text@[start + j] == part@[j],
        decreases part@.len() - index,
    {
        assert(start + index < text@.len());
        if text[start + index] != part[index] {
            assert(text@.subrange(start as int, start + part@.len())[index as int] != part@[index as int]);
            return false;
        }
        index += 1;
    }
    assert(text@.subrange(start as int, start + part@.len()) =~= part@);
    true
}

/// Whether a settings row with `content` stays visible for the search
/// `query`: an empty query (after trimming) shows every row; otherwise the
/// lower-cased content must contain the trimmed, lower-cased query.
pub open spec fn search_shows(query: Seq<char>, content: Seq<char>) -> bool {
    let wanted = lowercased(trimmed(query));
    wanted.len() == 0 || contains_text(lowercased(content), wanted)
}

/// Whether a settings row with `content` stays visible for the search `query`.
pub fn search_matches(query: &str, content: &str) -> (shown: bool)
    ensures
        shown == search_shows(query@, content@),
{
    let trimmed_query = trim_text(query);
    let wanted = chars_of(lowercase_text(trimmed_query.as_str()).as_str());
    if wanted.len() == 0 {
        return true;
    }
    let lower = lowercase_text(content);
    let text = chars_of(lower.as_str());
    if wanted.len() > text.len() {
        proof {
            if contains_text(text@, wanted@) {
                let start = choose|start: int| 0 <= start && start + wanted@.len() <= text@.len()
                    && #[trigger] text@.subrange(start, start + wanted@.len()) == wanted@;
            }
        }
        return false;
    }
    let mut start: usize = 0;
    while start <= text.len() - wanted.len()
        invariant
            0 < wanted@.len() <= text@.len(),
            text@ == lowercased(content@),
            wanted@ == lowercased(trimmed(query@)),
            forall|s: int| 0 <= s < start ==> #[trigger] text@.subrange(s, s + wanted@.len()) != wanted@,
        decreases text@.len() - wanted@.len() + 1 - start,
    {
        if occurs_at(&text, &wanted, start) {
            assert(lowercased(content@).subrange(start as int, start + wanted@.len()) == wanted@);
            return true;
        }
        start += 1;
    }
    proof {
        if contains_text(text@, wanted@) {
            let s = choose|s: int| 0 <= s && s + wanted@.len() <= text@.len()
                && #[trigger] text@.subrange(s, s + wanted@.len()) == wanted@;
            assert(text@.subrange(s, s + wanted@.len()) != wanted@);
        }
    }
    false
}

} // verus!
