//! Case folding and trimming of names, as the standard library does them.

use vstd::prelude::*;

verus! {

/// The contents of a list of strings, in order.
pub open spec fn names_of(list: Seq<String>) -> Seq<Seq<char>> {
    Seq::new(list.len(), |i: int| list[i]@)
}

/// The ASCII lower-case form of a character: `A` to `Z` become `a` to `z`,
/// every other character stays as it is.
pub open spec fn lower_char(c: char) -> char {
    if 'A' <= c && c <= 'Z' {
        ((c as u32) + 32) as char
    } else {
        c
    }
}

/// The ASCII lower-case form of a string, character by character.
pub open spec fn ascii_lowercase(s: Seq<char>) -> Seq<char> {
    Seq::new(s.len(), |i: int| lower_char(s[i]))
}

/// Whether the standard library counts `c` as white space, that is, whether
/// `c` has the Unicode property `White_Space`.
pub uninterp spec fn is_whitespace(c: char) -> bool;

/// `s` without its leading white space.
pub open spec fn trim_start(s: Seq<char>) -> Seq<char>
    decreases s.len(),
{
    if s.len() > 0 && is_whitespace(s.first()) {
        trim_start(s.drop_first())
    } else {
        s
    }
}

/// `s` without its trailing white space.
pub open spec fn trim_end(s: Seq<char>) -> Seq<char>
    decreases s.len(),
{
    if s.len() > 0 && is_whitespace(s.last()) {
        trim_end(s.drop_last())
    } else {
        s
    }
}

/// `s` without its leading and trailing white space.
pub open spec fn trimmed(s: Seq<char>) -> Seq<char> {
    trim_end(trim_start(s))
}

/// Whether every character of `s` is white space.
pub open spec fn all_whitespace(s: Seq<char>) -> bool {
    forall|i: int| 0 <= i < s.len() ==> is_whitespace(#[trigger] s[i])
}

/// Whether `s` is empty or has a first and a last character that are no
/// white space, so that trimming leaves it as it is.
pub open spec fn is_trimmed(s: Seq<char>) -> bool {
    s.len() > 0 ==> !is_whitespace(s.first()) && !is_whitespace(s.last())
}

proof fn lemma_trim_start_of_padded(before: Seq<char>, rest: Seq<char>)
    requires
        all_whitespace(before),
        rest.len() > 0 ==> !is_whitespace(rest.first()),
    ensures
        trim_start(before + rest) == rest,
    decreases before.len(),
{
    if before.len() == 0 {
        assert(before + rest =~= rest);
    } else {
        assert((before + rest).first() == before[0]);
        assert((before + rest).drop_first() =~= before.drop_first() + rest);
        assert forall|i: int| 0 <= i < before.drop_first().len() implies is_whitespace(
            #[trigger] before.drop_first()[i],
        ) by {
            assert(before.drop_first()[i] == before[i + 1]);
        }
        lemma_trim_start_of_padded(before.drop_first(), rest);
    }
}

proof fn lemma_trim_end_of_padded(rest: Seq<char>, after: Seq<char>)
    requires
        all_whitespace(after),
        rest.len() > 0 ==> !is_whitespace(rest.last()),
    ensures
        trim_end(rest + after) == rest,
    decreases after.len(),
{
    if after.len() == 0 {
        assert(rest + after =~= rest);
    } else {
        assert((rest + after).last() == after[after.len() - 1]);
        assert((rest + after).drop_last() =~= rest + after.drop_last());
        assert forall|i: int| 0 <= i < after.drop_last().len() implies is_whitespace(
            #[trigger] after.drop_last()[i],
        ) by {
            assert(after.drop_last()[i] == after[i]);
        }
        lemma_trim_end_of_padded(rest, after.drop_last());
    }
}

/// White space around a text is all that trimming removes: of a text that
/// neither begins nor ends with white space, with white space before and
/// after it, the text itself is left.
pub proof fn lemma_trim_removes_padding(before: Seq<char>, core: Seq<char>, after: Seq<char>)
    requires
        all_whitespace(before),
        all_whitespace(after),
        is_trimmed(core),
    ensures
        trimmed(before + core + after) == core,
{
    if core.len() == 0 {
        assert(before + core + after =~= (before + after) + core);
        assert forall|i: int| 0 <= i < (before + after).len() implies is_whitespace(
            #[trigger] (before + after)[i],
        ) by {
            if i < before.len() {
                assert((before + after)[i] == before[i]);
            } else {
                assert((before + after)[i] == after[i - before.len()]);
            }
        }
        lemma_trim_start_of_padded(before + after, core);
        lemma_trim_end_of_padded(core, Seq::empty());
    } else {
        assert(before + core + after =~= before + (core + after));
        assert((core + after).first() == core.first());
        lemma_trim_start_of_padded(before, core + after);
        lemma_trim_end_of_padded(core, after);
    }
}

/// `str::to_ascii_lowercase`: a new string in which each ASCII upper-case
/// letter of `s` is replaced by its lower-case letter and nothing else is
/// changed. Trusted.
#[verifier::external_body]
pub(crate) fn to_ascii_lowercase(s: &str) -> (lower: String)
    ensures
        lower@ == ascii_lowercase(s@),
{
    s.to_ascii_lowercase()
}

/// `str::trim`: the part of `s` that is left when the white space at both
/// ends is removed, where white space is what has the Unicode property
/// `White_Space`. What is left neither begins nor ends with white space.
/// Trusted.
#[verifier::external_body]
pub(crate) fn trim(s: &str) -> (t: &str)
    ensures
        t@ == trimmed(s@),
        t@.len() > 0 ==> !is_whitespace(t@.first()) && !is_whitespace(t@.last()),
{
    s.trim()
}

/// The UTF-16 code units of a character: the character's number where it is
/// below `0x10000`, else a high and a low surrogate that share the twenty
/// bits of what is above `0x10000`.
pub open spec fn utf16_units(c: char) -> Seq<u16> {
    let v = c as u32;
    if v < 0x10000 {
        seq![v as u16]
    } else {
        seq![(0xD800 + (v - 0x10000) / 0x400) as u16, (0xDC00 + (v - 0x10000) % 0x400) as u16]
    }
}

/// The UTF-16 encoding of a string: the code units of its characters, in
/// order.
pub open spec fn utf16(s: Seq<char>) -> Seq<u16>
    decreases s.len(),
{
    if s.len() == 0 {
        Seq::empty()
    } else {
        utf16(s.drop_last()) + utf16_units(s.last())
    }
}

/// `str::encode_utf16`: the string as UTF-16 code units, without a byte-order
/// mark. Trusted.
#[verifier::external_body]
pub(crate) fn encode_utf16(s: &str) -> (units: Vec<u16>)
    ensures
        units@ == utf16(s@),
{
    s.encode_utf16().collect()
}

/// The order of strings: by the first character in which they differ, a
/// string before every longer string that begins with it.
pub open spec fn lex_le(a: Seq<char>, b: Seq<char>) -> bool
    decreases a.len(),
{
    if a.len() == 0 {
        true
    } else if b.len() == 0 {
        false
    } else if a.first() != b.first() {
        a.first() < b.first()
    } else {
        lex_le(a.drop_first(), b.drop_first())
    }
}

/// The key that names are sorted by: the name in ASCII lower case.
pub fn lowercase_key(name: &String) -> (key: String)
    ensures
        key@ == ascii_lowercase(name@),
{
    to_ascii_lowercase(name.as_str())
}

/// `slice::sort_unstable_by_key` with the lower-case form as key: the same
/// names in another order, in which no name comes before one with a smaller
/// key. Strings are ordered by their characters' numbers. The order among
/// names with the same key is left open. Trusted.
#[verifier::external_body]
pub(crate) fn sort_by_lowercase(names: &mut Vec<String>)
    ensures
        names_of(final(names)@).to_multiset() == names_of(old(names)@).to_multiset(),
        forall|i: int, j: int|
            0 <= i <= j < final(names)@.len() ==> lex_le(
                ascii_lowercase(#[trigger] final(names)@[i]@),
                ascii_lowercase(#[trigger] final(names)@[j]@),
            ),
{
    names.sort_unstable_by_key(|name| lowercase_key(name))
}


/// `Path::file_name`, for a path and a result that are text: the final
/// component of the path, if it has one. What separates components follows
/// the platform that the program runs on, so nothing is stated of the
/// result. Trusted.
#[verifier::external_body]
pub(crate) fn file_name(path: &str) -> (name: Option<String>) {
    match std::path::Path::new(path).file_name() {
        Some(name) => name.to_str().map(|text| text.to_string()),
        None => None,
    }
}

} // verus!
