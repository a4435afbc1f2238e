//! Text helpers shared by the capability, configuration and parsing modules.

use vstd::prelude::*;

verus! {

/// Compares two string slices by content, character by character.
pub(crate) fn str_equal(left: &str, right: &str) -> (equal: bool)
    ensures
        equal == (left@ == right@),
{
    let length: usize = left.unicode_len();
    if length != right.unicode_len() {
        return false;
    }
    let mut index: usize = 0;
    while index < length
        invariant
            length == left@.len(),
            length == right@.len(),
            index <= length,
            forall|j: int| 0 <= j < index ==> left@[j] == right@[j],
        decreases length - index,
    {
        if left.get_char(index) != right.get_char(index) {
            return false;
        }
        index += 1;
    }
    assert(left@ =~= right@);
    true
}

/// Appends one character to a string.
///
/// Trusted: calls `String::push`, which std documents as appending the given
/// `char` to the end of the string.
#[verifier::external_body]
pub(crate) fn push_char(text: &mut String, character: char)
    ensures
        final(text)@ == old(text)@.push(character),
{
    text.push(character);
}

/// The characters of a string slice, in order.
pub fn chars_of(text: &str) -> (characters: Vec<char>)
    ensures
        characters@ == text@,
{
    let length: usize = text.unicode_len();
    let mut characters: Vec<char> = Vec::new();
    let mut index: usize = 0;
    while index < length
        invariant
            length == text@.len(),
            index <= length,
            characters@ == text@.subrange(0, index as int),
        decreases length - index,
    {
        characters.push(text.get_char(index));
        index += 1;
    }
    assert(characters@ =~= text@);
    characters
}

/// Builds a string from a sequence of characters.
pub fn string_from_chars(characters: &[char]) -> (text: String)
    ensures
        text@ == characters@,
{
    let mut text = String::new();
    let mut index: usize = 0;
    while index < characters.len()
        invariant
            index <= characters@.len(),
            text@ == characters@.subrange(0, index as int),
        decreases characters@.len() - index,
    {
        push_char(&mut text, characters[index]);
        assert(characters@.subrange(0, index + 1) =~= characters@.subrange(0, index as int).push(
            characters@[index as int],
        ));
        index += 1;
    }
    assert(characters@.subrange(0, characters@.len() as int) =~= characters@);
    text
}

/// The owned copy of a string slice.
pub fn owned(text: &str) -> (copy: String)
    ensures
        copy@ == text@,
{
    text.to_owned()
}

/// Concatenates two string slices.
pub fn joined(first: &str, second: &str) -> (text: String)
    ensures
        text@ == first@ + second@,
{
    let mut text = first.to_owned();
    text.append(second);
    text
}

/// The character sequences held by a list of strings.
pub open spec fn texts(list: Seq<String>) -> Seq<Seq<char>> {
    list.map_values(|item: String| item@)
}

/// The character sequence held by an optional string.
pub open spec fn optional_text(value: Option<String>) -> Option<Seq<char>> {
    match value {
        Some(text) => Some(text@),
        None => None,
    }
}

/// A copy of an optional string.
pub fn copy_optional(value: &Option<String>) -> (copy: Option<String>)
    ensures
        optional_text(copy) == optional_text(*value),
{
    match value {
        Some(text) => Some(text.clone()),
        None => None,
    }
}

/// A copy of a list of strings.
pub fn copy_texts(list: &Vec<String>) -> (copy: Vec<String>)
    ensures
        texts(copy@) == texts(list@),
{
    let mut copy: Vec<String> = Vec::new();
    let mut index: usize = 0;
    while index < list.len()
        invariant
            index <= list@.len(),
            texts(copy@) == texts(list@.subrange(0, index as int)),
        decreases list@.len() - index,
    {
        copy.push(list[index].clone());
        assert(texts(list@.subrange(0, index + 1)) =~= texts(list@.subrange(0, index as int)).push(
            list@[index as int]@,
        ));
        assert(texts(copy@) =~= texts(list@.subrange(0, index + 1)));
        index += 1;
    }
    assert(list@.subrange(0, list@.len() as int) =~= list@);
    copy
}

/// The decimal digit for a value below ten.
pub open spec fn digit_char(value: nat) -> char {
    if value == 0 {
        '0'
    } else if value == 1 {
        '1'
    } else if value == 2 {
        '2'
    } else if value == 3 {
        '3'
    } else if value == 4 {
        '4'
    } else if value == 5 {
        '5'
    } else if value == 6 {
        '6'
    } else if value == 7 {
        '7'
    } else if value == 8 {
        '8'
    } else {
        '9'
    }
}

/// The shortest decimal representation of a natural number.
pub open spec fn decimal(value: nat) -> Seq<char>
    decreases value,
{
    if value < 10 {
        seq![digit_char(value)]
    } else {
        decimal(value / 10).push(digit_char(value % 10))
    }
}

fn digit(value: u64) -> (character: char)
    requires
        value < 10,
    ensures
        character == digit_char(value as nat),
{
    if value == 0 {
        '0'
    } else if value == 1 {
        '1'
    } else if value == 2 {
        '2'
    } else if value == 3 {
        '3'
    } else if value == 4 {
        '4'
    } else if value == 5 {
        '5'
    } else if value == 6 {
        '6'
    } else if value == 7 {
        '7'
    } else if value == 8 {
        '8'
    } else {
        '9'
    }
}

/// Appends the decimal representation of `value` to `text`.
pub fn push_decimal(text: &mut String, value: u64)
    ensures
        final(text)@ == old(text)@ + decimal(value as nat),
    decreases value,
{
    if value < 10 {
        push_char(text, digit(value));
        assert(old(text)@.push(digit_char(value as nat)) =~= old(text)@ + decimal(value as nat));
    } else {
        push_decimal(text, value / 10);
        push_char(text, digit(value % 10));
        assert(old(text)@ + decimal(value as nat / 10) + seq![digit_char(value as nat % 10)]
            =~= old(text)@ + decimal(value as nat));
    }
}

/// The decimal representation of `value`.
pub fn decimal_text(value: u64) -> (text: String)
    ensures
        text@ == decimal(value as nat),
{
    let mut text = String::new();
    push_decimal(&mut text, value);
    assert(text@ =~= decimal(value as nat));
    text
}

/// Strict lexicographic order on character sequences, by code point.
pub open spec fn text_less(left: Seq<char>, right: Seq<char>) -> bool
    decreases left.len(),
{
    if left.len() == 0 {
        right.len() > 0
    } else if right.len() == 0 {
        false
    } else if left[0] == right[0] {
        text_less(left.drop_first(), right.drop_first())
    } else {
        (left[0] as int) < (right[0] as int)
    }
}

/// The order is irreflexive.
pub proof fn lemma_text_less_irreflexive(text: Seq<char>)
    ensures
        !text_less(text, text),
    decreases text.len(),
{
    if text.len() > 0 {
        lemma_text_less_irreflexive(text.drop_first());
    }
}

/// The order is transitive.
pub proof fn lemma_text_less_transitive(a: Seq<char>, b: Seq<char>, c: Seq<char>)
    requires
        text_less(a, b),
        text_less(b, c),
    ensures
        text_less(a, c),
    decreases a.len(),
{
    if a.len() > 0 && b.len() > 0 && c.len() > 0 {
        if a[0] == b[0] && b[0] == c[0] {
            lemma_text_less_transitive(a.drop_first(), b.drop_first(), c.drop_first());
        }
    }
}

/// Any two distinct sequences are ordered one way or the other.
pub proof fn lemma_text_less_total(a: Seq<char>, b: Seq<char>)
    ensures
        a == b || text_less(a, b) || text_less(b, a),
    decreases a.len(),
{
    if a.len() > 0 && b.len() > 0 {
        if a[0] == b[0] {
            lemma_text_less_total(a.drop_first(), b.drop_first());
            if a.drop_first() == b.drop_first() {
                assert(a =~= seq![a[0]] + a.drop_first());
                assert(b =~= seq![b[0]] + b.drop_first());
            }
        } else {
            assert((a[0] as int) != (b[0] as int));
        }
    } else if a.len() == 0 && b.len() == 0 {
        assert(a =~= b);
    }
}

/// Compares two character slices from position `start` on.
fn less_from(left: &[char], right: &[char], start: usize) -> (less: bool)
    requires
        start <= left@.len(),
        start <= right@.len(),
    ensures
        less == text_less(left@.subrange(start as int, left@.len() as int),
            right@.subrange(start as int, right@.len() as int)),
    decreases left@.len() - start,
{
    let ghost l = left@.subrange(start as int, left@.len() as int);
    let ghost r = right@.subrange(start as int, right@.len() as int);
    if start == left.len() {
        start < right.len()
    } else if start == right.len() {
        false
    } else if left[start] == right[start] {
        assert(l.drop_first() =~= left@.subrange(start + 1, left@.len() as int));
        assert(r.drop_first() =~= right@.subrange(start + 1, right@.len() as int));
        less_from(left, right, start + 1)
    } else {
        left[start] < right[start]
    }
}

/// Whether `left` comes strictly before `right` in lexicographic order.
pub fn text_precedes(left: &str, right: &str) -> (less: bool)
    ensures
        less == text_less(left@, right@),
{
    let l = chars_of(left);
    let r = chars_of(right);
    let less = less_from(l.as_slice(), r.as_slice(), 0);
    assert(l@.subrange(0, l@.len() as int) =~= l@);
    assert(r@.subrange(0, r@.len() as int) =~= r@);
    less
}

/// Whether `needle` occurs in `haystack` starting at `start`.
pub open spec fn occurs_at(haystack: Seq<char>, needle: Seq<char>, start: int) -> bool {
    0 <= start && start + needle.len() <= haystack.len() && haystack.subrange(start, start + needle.len()) == needle
}

/// Whether `needle` occurs anywhere in `haystack`.
pub open spec fn contains_seq(haystack: Seq<char>, needle: Seq<char>) -> bool {
    exists|start: int| occurs_at(haystack, needle, start)
}

fn matches_at(haystack: &[char], needle: &[char], start: usize) -> (found: bool)
    requires
        start + needle@.len() <= haystack@.len(),
    ensures
        found == occurs_at(haystack@, needle@, start as int),
{
    let mut index: usize = 0;
    let length = haystack.len();
    while index < needle.len()
        invariant
            length == haystack@.len(),
            start + needle@.len() <= haystack@.len(),
            index <= needle@.len(),
            forall|j: int| 0 <= j < index ==> haystack@[start + j] == needle@[j],
        decreases needle@.len() - index,
    {
        if haystack[start + index] != needle[index] {
            assert(haystack@.subrange(start as int, start + needle@.len())[index as int] != needle@[index as int]);
            return false;
        }
        index += 1;
    }
    assert(haystack@.subrange(start as int, start + needle@.len()) =~= needle@);
    true
}

/// Whether `needle` occurs anywhere in `haystack`.
pub fn contains_text(haystack: &str, needle: &str) -> (found: bool)
    ensures
        found == contains_seq(haystack@, needle@),
{
    let hay = chars_of(haystack);
    let pin = chars_of(needle);
    if pin.len() > hay.len() {
        assert forall|start: int| !occurs_at(haystack@, needle@, start) by {}
        return false;
    }
    let last = hay.len() - pin.len();
    let mut start: usize = 0;
    loop
        invariant
            hay@ == haystack@,
            pin@ == needle@,
            last + pin@.len() == hay@.len(),
            start <= last,
            forall|s: int| 0 <= s < start ==> !occurs_at(haystack@, needle@, s),
        ensures
            forall|s: int| 0 <= s <= last ==> !occurs_at(haystack@, needle@, s),
        decreases last - start,
    {
        if matches_at(hay.as_slice(), pin.as_slice(), start) {
            return true;
        }
        if start == last {
            break;
        }
        start += 1;
    }
    assert forall|s: int| !occurs_at(haystack@, needle@, s) by {
        if 0 <= s && s <= last {
        }
    }
    false
}

/// `base` followed by `name`, with one separator between them as
/// `Path::join` adds it.
pub open spec fn path_join(base: Seq<char>, name: Seq<char>) -> Seq<char> {
    if base.len() > 0 && base.last() == '/' {
        base + name
    } else {
        base + seq!['/'] + name
    }
}

/// Joins `name` below `base`.
pub fn join_path(base: &str, name: &str) -> (path: String)
    ensures
        path@ == path_join(base@, name@),
{
    let characters = chars_of(base);
    let mut path = owned(base);
    let length = characters.len();
    if length == 0 || characters[length - 1] != '/' {
        push_char(&mut path, '/');
    }
    path.append(name);
    proof {
        if base@.len() > 0 {
            assert(base@.last() == characters@[length - 1]);
        }
    }
    path
}

} // verus!
