//! Names of the accessors that tell the variants of an enumeration apart.
//!
//! The accessor for a variant is named after it, in snake case behind `is_`: the
//! name of the variant is cut into words, each an upper-case letter or a digit with
//! the lower-case letters and digits that follow it, and the words are joined in
//! lower case. `PointOrUnit` gives `is_point_or_unit`.

use regex::Regex;
use vstd::prelude::*;
use vstd::string::StringExecFns;

verus! {

/// The pattern of one word of a variant's name.
pub const WORD: &'static str = "[A-Z0-9]{1}[a-z0-9]*";

/// What `Regex::find_iter` yields for a pattern and a text: the successive matches
/// that do not overlap, each as the text it matched, in the order in which they
/// stand. `None` where `Regex::new` refuses the pattern.
pub uninterp spec fn regex_matches(pattern: Seq<char>, text: Seq<char>) -> Option<Seq<Seq<char>>>;

/// The texts of a list, each as a sequence of characters.
pub open spec fn text_views(texts: Seq<String>) -> Seq<Seq<char>> {
    texts.map_values(|text: String| text@)
}

/// The texts of an optional list.
pub open spec fn found_views(found: Option<Vec<String>>) -> Option<Seq<Seq<char>>> {
    match found {
        Some(texts) => Some(text_views(texts@)),
        None => None,
    }
}

/// `Regex::new` and `Regex::find_iter`: every match of the pattern in the text.
#[verifier::external_body]
fn find_all(pattern: &str, text: &str) -> (found: Option<Vec<String>>)
    ensures
        found_views(found) == regex_matches(pattern@, text@),
{
    match Regex::new(pattern) {
        Ok(regex) => Some(regex.find_iter(text).map(|found| found.as_str().to_string()).collect()),
        Err(_) => None,
    }
}

/// A letter of `A` to `Z` in lower case, and every other character unchanged.
pub open spec fn ascii_lower(letter: char) -> char {
    if 'A' <= letter <= 'Z' {
        ((letter as u8) + 32) as char
    } else {
        letter
    }
}

/// A text with its letters of `A` to `Z` in lower case.
pub open spec fn lowered(text: Seq<char>) -> Seq<char> {
    text.map_values(|letter: char| ascii_lower(letter))
}

/// `str::to_ascii_lowercase`: the letters of `A` to `Z` become lower case, and
/// nothing else changes.
#[verifier::external_body]
fn to_ascii_lowercase(text: &str) -> (lower: String)
    ensures
        lower@ == lowered(text@),
{
    text.to_ascii_lowercase()
}

/// The words in lower case, with an underscore between one and the next.
pub open spec fn snake_case(words: Seq<Seq<char>>) -> Seq<char>
    decreases words.len(),
{
    if words.len() == 0 {
        Seq::empty()
    } else if words.len() == 1 {
        lowered(words[0])
    } else {
        snake_case(words.drop_last()) + seq!['_'] + lowered(words.last())
    }
}

/// The name of the accessor for a variant whose name is made of the given words.
pub open spec fn checker_name_of(words: Seq<Seq<char>>) -> Seq<char> {
    seq!['i', 's', '_'] + snake_case(words)
}

/// The name of the accessor for a variant whose name is made of the given words.
pub fn name_from_words(words: &Vec<String>) -> (name: String)
    ensures
        name@ == checker_name_of(text_views(words@)),
{
    let mut name = String::from_str("is_");
    proof {
        reveal_strlit("is_");
        reveal_strlit("_");
        assert(name@ =~= seq!['i', 's', '_']);
        assert(text_views(words@).take(0) =~= Seq::empty());
    }
    let ghost all = text_views(words@);
    let mut i: usize = 0;
    while i < words.len()
        invariant
            i <= words.len(),
            all == text_views(words@),
            name@ == checker_name_of(all.take(i as int)),
        decreases words.len() - i,
    {
        if i > 0 {
            name.append("_");
        }
        let lower = to_ascii_lowercase(words[i].as_str());
        name.append(lower.as_str());
        proof {
            reveal_strlit("_");
            let seen = all.take(i + 1);
            assert(seen.drop_last() =~= all.take(i as int));
            assert(seen.last() == words@[i as int]@);
            assert(name@ =~= checker_name_of(seen));
        }
        i += 1;
    }
    proof {
        assert(all.take(i as int) =~= all);
    }
    name
}

/// The name of the accessor for a variant, `None` where the pattern is refused.
pub fn checker_name_with(pattern: &str, variant: &str) -> (name: Option<String>)
    ensures
        match regex_matches(pattern@, variant@) {
            Some(words) => name is Some && name->0@ == checker_name_of(words),
            None => name is None,
        },
{
    match find_all(pattern, variant) {
        Some(words) => Some(name_from_words(&words)),
        None => None,
    }
}

/// The name of the accessor for a variant.
pub fn checker_name(variant: &str) -> (name: Option<String>)
    ensures
        match regex_matches(WORD@, variant@) {
            Some(words) => name is Some && name->0@ == checker_name_of(words),
            None => name is None,
        },
{
    checker_name_with(WORD, variant)
}

} // verus!
