//! Character-level string helpers used throughout the library.

use vstd::prelude::*;

verus! {

/// Returns whether two string slices hold the same characters.
pub(crate) fn str_equal(a: &str, b: &str) -> (equal: bool)
    ensures
        equal == (a@ == b@),
{
    let length = a.unicode_len();
    if length != b.unicode_len() {
        return false;
    }
    let mut i: usize = 0;
    while i < length
        invariant
            length == a@.len(),
            length == b@.len(),
            i <= length,
            forall|k: int| 0 <= k < i ==> a@[k] == b@[k],
        decreases length - i,
    {
        if a.get_char(i) != b.get_char(i) {
            return false;
        }
        i = i + 1;
    }
    assert(a@ =~= b@);
    true
}

/// Appends one character with std's `String::push`.
///
/// Trusted: `String::push` appends the character at the end of the string.
#[verifier::external_body]
pub(crate) fn push_char(text: &mut String, c: char)
    ensures
        final(text)@ == old(text)@.push(c),
{
    text.push(c)
}

/// The ASCII digit for a value below ten.
pub open spec fn digit_char(d: nat) -> char {
    if d == 0 { '0' } else if d == 1 { '1' } else if d == 2 { '2' } else if d == 3 { '3' }
    else if d == 4 { '4' } else if d == 5 { '5' } else if d == 6 { '6' } else if d == 7 { '7' }
    else if d == 8 { '8' } else { '9' }
}

/// The decimal rendering of a natural number, without sign or leading zeros.
pub open spec fn decimal_text(n: nat) -> Seq<char>
    decreases n,
{
    if n < 10 {
        seq![digit_char(n)]
    } else {
        decimal_text(n / 10).push(digit_char(n % 10))
    }
}

fn digit(d: u64) -> (c: char)
    requires
        d < 10,
    ensures
        c == digit_char(d as nat),
{
    if d == 0 { '0' } else if d == 1 { '1' } else if d == 2 { '2' } else if d == 3 { '3' }
    else if d == 4 { '4' } else if d == 5 { '5' } else if d == 6 { '6' } else if d == 7 { '7' }
    else if d == 8 { '8' } else { '9' }
}

/// Appends the decimal rendering of `n` to `text`.
pub fn push_decimal(text: &mut String, n: u64)
    ensures
        final(text)@ == old(text)@ + decimal_text(n as nat),
    decreases n,
{
    if n < 10 {
        push_char(text, digit(n));
        assert(decimal_text(n as nat) == seq![digit_char(n as nat)]);
    } else {
        push_decimal(text, n / 10);
        push_char(text, digit(n % 10));
    }
}

/// The characters of an optional string.
pub open spec fn text_of(text: Option<String>) -> Option<Seq<char>> {
    match text {
        Some(s) => Some(s@),
        None => None,
    }
}

/// Builds an owned string from a slice.
pub fn owned(s: &str) -> (text: String)
    ensures
        text@ == s@,
{
    s.to_owned()
}


/// What `char::to_uppercase` yields for `c`: one or more characters, by Unicode case mapping.
pub uninterp spec fn uppercase_of(c: char) -> Seq<char>;

/// Upper-cases one character with std's `char::to_uppercase`.
///
/// Trusted: the result is the character's Unicode upper-case mapping, a function of `c` alone,
/// named `uppercase_of`; nothing more is stated of it.
#[verifier::external_body]
fn uppercase(c: char) -> (upper: String)
    ensures
        upper@ == uppercase_of(c),
{
    c.to_uppercase().collect()
}

/// Title-cases the rest of a snake_case name: underscores separate words, each word's first
/// character is upper-cased and words are joined by single spaces.
pub open spec fn title_scan(s: Seq<char>, at_word_start: bool, emitted: bool) -> Seq<char>
    decreases s.len(),
{
    if s.len() == 0 {
        Seq::empty()
    } else if s[0] == '_' {
        title_scan(s.skip(1), true, emitted)
    } else if at_word_start {
        (if emitted {
            seq![' ']
        } else {
            Seq::empty()
        }) + uppercase_of(s[0]) + title_scan(s.skip(1), false, true)
    } else {
        seq![s[0]] + title_scan(s.skip(1), false, true)
    }
}

/// The display label of a snake_case field name.
pub open spec fn title_case_text(name: Seq<char>) -> Seq<char> {
    title_scan(name, true, false)
}

/// Converts a snake_case internal field name into a simple title-cased display label.
pub fn title_case_name(name: &str) -> (label: String)
    ensures
        label@ == title_case_text(name@),
{
    let length = name.unicode_len();
    let mut label = String::new();
    let mut at_word_start = true;
    let mut emitted = false;
    let mut i: usize = 0;
    assert(name@.skip(0) =~= name@);
    assert(label@ + title_scan(name@.skip(0), true, false) =~= title_case_text(name@));
    while i < length
        invariant
            length == name@.len(),
            0 <= i <= length,
            label@ + title_scan(name@.skip(i as int), at_word_start, emitted) == title_case_text(
                name@,
            ),
        decreases length - i,
    {
        let c = name.get_char(i);
        let ghost rest = name@.skip(i as int);
        assert(rest[0] == c);
        assert(rest.skip(1) =~= name@.skip(i + 1));
        if c == '_' {
            at_word_start = true;
        } else if at_word_start {
            if emitted {
                push_char(&mut label, ' ');
            }
            let upper = uppercase(c);
            label.append(upper.as_str());
            at_word_start = false;
            emitted = true;
            proof {
                assert(label@ + title_scan(name@.skip(i + 1), false, true) =~= title_case_text(
                    name@,
                ));
            }
        } else {
            push_char(&mut label, c);
            emitted = true;
            proof {
                assert(label@ + title_scan(name@.skip(i + 1), false, true) =~= title_case_text(
                    name@,
                ));
            }
        }
        i = i + 1;
    }
    assert(name@.skip(i as int).len() == 0);
    assert(label@ =~= title_case_text(name@));
    label
}

/// Whether `c` has the Unicode `White_Space` property, as `char::is_whitespace` decides.
pub open spec fn is_space(c: char) -> bool {
    let v = c as u32;
    ||| 0x09 <= v <= 0x0D
    ||| v == 0x20
    ||| v == 0x85
    ||| v == 0xA0
    ||| v == 0x1680
    ||| 0x2000 <= v <= 0x200A
    ||| v == 0x2028
    ||| v == 0x2029
    ||| v == 0x202F
    ||| v == 0x205F
    ||| v == 0x3000
}

/// Returns whether `c` is Unicode white space.
pub fn is_space_char(c: char) -> (space: bool)
    ensures
        space == is_space(c),
{
    let v = c as u32;
    (0x09 <= v && v <= 0x0D) || v == 0x20 || v == 0x85 || v == 0xA0 || v == 0x1680 || (0x2000
        <= v && v <= 0x200A) || v == 0x2028 || v == 0x2029 || v == 0x202F || v == 0x205F || v
        == 0x3000
}

/// `s` without its leading white space.
pub open spec fn trim_start_text(s: Seq<char>) -> Seq<char>
    decreases s.len(),
{
    if s.len() > 0 && is_space(s[0]) {
        trim_start_text(s.skip(1))
    } else {
        s
    }
}

/// `s` without its trailing white space.
pub open spec fn trim_end_text(s: Seq<char>) -> Seq<char>
    decreases s.len(),
{
    if s.len() > 0 && is_space(s.last()) {
        trim_end_text(s.drop_last())
    } else {
        s
    }
}

/// `s` without its leading and trailing white space, as `str::trim` gives it.
pub open spec fn trim_text(s: Seq<char>) -> Seq<char> {
    trim_end_text(trim_start_text(s))
}

/// Returns `s` without leading and trailing white space.
pub fn trim(s: &str) -> (trimmed: &str)
    ensures
        trimmed@ == trim_text(s@),
{
    let length = s.unicode_len();
    let mut start: usize = 0;
    assert(s@.skip(0) =~= s@);
    while start < length && is_space_char(s.get_char(start))
        invariant
            length == s@.len(),
            start <= length,
            trim_start_text(s@) == trim_start_text(s@.skip(start as int)),
        decreases length - start,
    {
        assert(s@.skip(start as int).skip(1) =~= s@.skip(start + 1));
        start = start + 1;
    }
    let ghost rest = s@.skip(start as int);
    assert(trim_start_text(s@) == rest);
    let mut end: usize = length;
    assert(rest =~= s@.subrange(start as int, end as int));
    while end > start && is_space_char(s.get_char(end - 1))
        invariant
            length == s@.len(),
            start <= end <= length,
            rest == s@.skip(start as int),
            trim_end_text(rest) == trim_end_text(s@.subrange(start as int, end as int)),
        decreases end,
    {
        assert(s@.subrange(start as int, end as int).drop_last() =~= s@.subrange(
            start as int,
            end - 1,
        ));
        end = end - 1;
    }
    s.substring_char(start, end)
}

/// Whether `s` ends with `suffix`.
pub open spec fn ends_with_text(s: Seq<char>, suffix: Seq<char>) -> bool {
    s.len() >= suffix.len() && s.subrange(s.len() - suffix.len(), s.len() as int) == suffix
}

/// Whether `s` starts with `prefix`.
pub open spec fn starts_with_text(s: Seq<char>, prefix: Seq<char>) -> bool {
    s.len() >= prefix.len() && s.subrange(0, prefix.len() as int) == prefix
}

/// Returns whether `s` ends with `suffix`.
pub fn ends_with(s: &str, suffix: &str) -> (ends: bool)
    ensures
        ends == ends_with_text(s@, suffix@),
{
    let length = s.unicode_len();
    let suffix_length = suffix.unicode_len();
    if suffix_length > length {
        return false;
    }
    let offset = length - suffix_length;
    let mut i: usize = 0;
    while i < suffix_length
        invariant
            length == s@.len(),
            suffix_length == suffix@.len(),
            offset + suffix_length == length,
            i <= suffix_length,
            forall|k: int| 0 <= k < i ==> s@[offset + k] == suffix@[k],
        decreases suffix_length - i,
    {
        if s.get_char(offset + i) != suffix.get_char(i) {
            assert(s@.subrange(offset as int, length as int)[i as int] != suffix@[i as int]);
            return false;
        }
        i = i + 1;
    }
    assert(s@.subrange(offset as int, length as int) =~= suffix@);
    true
}

/// Returns whether `s` starts with `prefix`.
pub fn starts_with(s: &str, prefix: &str) -> (starts: bool)
    ensures
        starts == starts_with_text(s@, prefix@),
{
    let length = s.unicode_len();
    let prefix_length = prefix.unicode_len();
    if prefix_length > length {
        return false;
    }
    let mut i: usize = 0;
    while i < prefix_length
        invariant
            length == s@.len(),
            prefix_length == prefix@.len(),
            prefix_length <= length,
            i <= prefix_length,
            forall|k: int| 0 <= k < i ==> s@[k] == prefix@[k],
        decreases prefix_length - i,
    {
        if s.get_char(i) != prefix.get_char(i) {
            assert(s@.subrange(0, prefix_length as int)[i as int] != prefix@[i as int]);
            return false;
        }
        i = i + 1;
    }
    assert(s@.subrange(0, prefix_length as int) =~= prefix@);
    true
}

/// Whether `pattern` occurs in `s` at position `i`.
pub open spec fn occurs_at(s: Seq<char>, pattern: Seq<char>, i: int) -> bool {
    0 <= i && i + pattern.len() <= s.len() && s.subrange(i, i + pattern.len()) == pattern
}

/// The position of the first occurrence of `pattern` in `s`, if any.
pub open spec fn first_occurrence(s: Seq<char>, pattern: Seq<char>) -> Option<int> {
    if exists|i: int| occurs_at(s, pattern, i) {
        Some(choose|i: int| occurs_at(s, pattern, i) && forall|j: int| 0 <= j < i ==> !occurs_at(s, pattern, j))
    } else {
        None
    }
}

/// Returns the position of the first occurrence of `pattern` in `s`.
pub fn find_text(s: &str, pattern: &str) -> (position: Option<usize>)
    ensures
        match position {
            Some(i) => occurs_at(s@, pattern@, i as int) && forall|j: int|
                0 <= j < i ==> !occurs_at(s@, pattern@, j),
            None => forall|j: int| !occurs_at(s@, pattern@, j),
        },
{
    let length = s.unicode_len();
    let pattern_length = pattern.unicode_len();
    if pattern_length > length {
        return None;
    }
    let last = length - pattern_length;
    let mut i: usize = 0;
    loop
        invariant
            length == s@.len(),
            pattern_length == pattern@.len(),
            last + pattern_length == length,
            i <= last,
            forall|j: int| 0 <= j < i ==> !occurs_at(s@, pattern@, j),
        decreases last - i,
    {
        let candidate = s.substring_char(i, i + pattern_length);
        if str_equal(candidate, pattern) {
            return Some(i);
        }
        assert(!occurs_at(s@, pattern@, i as int));
        if i == last {
            return None;
        }
        i = i + 1;
    }
}

/// Whether `pattern` occurs somewhere in `s`.
pub open spec fn contains_text(s: Seq<char>, pattern: Seq<char>) -> bool {
    exists|i: int| occurs_at(s, pattern, i)
}

/// Returns whether `pattern` occurs somewhere in `s`.
pub fn contains_str(s: &str, pattern: &str) -> (found: bool)
    ensures
        found == contains_text(s@, pattern@),
{
    match find_text(s, pattern) {
        Some(i) => {
            assert(occurs_at(s@, pattern@, i as int));
            true
        },
        None => false,
    }
}

/// What `str::to_lowercase` yields for `s`: its Unicode lower-case mapping.
pub uninterp spec fn lowercase_of(s: Seq<char>) -> Seq<char>;

/// Lower-cases a string with std's `str::to_lowercase`.
///
/// Trusted: the result is the Unicode lower-case mapping of the whole string, a function of
/// `s` alone, named `lowercase_of`; of that mapping only this is stated: the empty string maps to
/// the empty string (the mapping works character by character, so no characters give none).
#[verifier::external_body]
pub(crate) fn lowercase(s: &str) -> (lower: String)
    ensures
        lower@ == lowercase_of(s@),
        s@.len() == 0 ==> lower@.len() == 0,
{
    s.to_lowercase()
}

/// Whether `a` sorts before or with `b`, comparing characters by code point as `str`'s order
/// does (UTF-8 byte order is code point order).
pub open spec fn text_le(a: Seq<char>, b: Seq<char>) -> bool
    decreases a.len(),
{
    if a.len() == 0 {
        true
    } else if b.len() == 0 {
        false
    } else if (a[0] as u32) < (b[0] as u32) {
        true
    } else if (a[0] as u32) > (b[0] as u32) {
        false
    } else {
        text_le(a.skip(1), b.skip(1))
    }
}

/// Returns whether `a` sorts before or with `b` in `str`'s order.
pub fn str_le(a: &str, b: &str) -> (le: bool)
    ensures
        le == text_le(a@, b@),
{
    let a_length = a.unicode_len();
    let b_length = b.unicode_len();
    let mut i: usize = 0;
    assert(a@.skip(0) =~= a@);
    assert(b@.skip(0) =~= b@);
    while i < a_length
        invariant
            a_length == a@.len(),
            b_length == b@.len(),
            i <= a_length,
            i <= b_length,
            text_le(a@, b@) == text_le(a@.skip(i as int), b@.skip(i as int)),
        decreases a_length - i,
    {
        if i >= b_length {
            return false;
        }
        let x = a.get_char(i);
        let y = b.get_char(i);
        if (x as u32) < (y as u32) {
            return true;
        }
        if (x as u32) > (y as u32) {
            return false;
        }
        assert(a@.skip(i as int).skip(1) =~= a@.skip(i + 1));
        assert(b@.skip(i as int).skip(1) =~= b@.skip(i + 1));
        i = i + 1;
    }
    true
}


/// Of any two texts one sorts before or with the other.
pub proof fn lemma_text_le_total(a: Seq<char>, b: Seq<char>)
    ensures
        text_le(a, b) || text_le(b, a),
    decreases a.len(),
{
    if a.len() > 0 && b.len() > 0 && (a[0] as u32) == (b[0] as u32) {
        lemma_text_le_total(a.skip(1), b.skip(1));
    }
}

/// Texts that sort before or with each other are equal.
pub proof fn lemma_text_le_antisymmetric(a: Seq<char>, b: Seq<char>)
    requires
        text_le(a, b),
        text_le(b, a),
    ensures
        a == b,
    decreases a.len(),
{
    if a.len() > 0 && b.len() > 0 {
        assert((a[0] as u32) == (b[0] as u32));
        lemma_text_le_antisymmetric(a.skip(1), b.skip(1));
        vstd::utf8::char_u32_cast(a[0], a[0] as u32);
        vstd::utf8::char_u32_cast(b[0], b[0] as u32);
        assert(a[0] == b[0]);
        assert(a =~= seq![a[0]] + a.skip(1));
        assert(b =~= seq![b[0]] + b.skip(1));
    } else {
        assert(a.len() == 0 && b.len() == 0);
        assert(a =~= b);
    }
}

/// Sorting before or with is transitive.
pub proof fn lemma_text_le_transitive(a: Seq<char>, b: Seq<char>, c: Seq<char>)
    requires
        text_le(a, b),
        text_le(b, c),
    ensures
        text_le(a, c),
    decreases a.len(),
{
    if a.len() > 0 && b.len() > 0 && c.len() > 0 && (a[0] as u32) == (b[0] as u32) && (b[0] as u32)
        == (c[0] as u32) {
        lemma_text_le_transitive(a.skip(1), b.skip(1), c.skip(1));
    }
}

} // verus!
