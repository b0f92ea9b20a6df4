//! Text operations that the naming rules and the readers are built from.

use vstd::prelude::*;
use vstd::string::*;

verus! {

/// The lower-case form of `text` as `str::to_lowercase` computes it: the
/// Unicode lower-case mapping, which depends on nothing but the characters
/// of `text`.
pub uninterp spec fn lowercase(text: Seq<char>) -> Seq<char>;

/// `text` with every occurrence of the character `target` replaced by
/// `replacement`.
pub open spec fn replaced(text: Seq<char>, target: char, replacement: Seq<char>) -> Seq<char>
    decreases text.len(),
{
    if text.len() == 0 {
        Seq::empty()
    } else if text.last() == target {
        replaced(text.drop_last(), target, replacement) + replacement
    } else {
        replaced(text.drop_last(), target, replacement).push(text.last())
    }
}

/// Trusted: calls `str::to_lowercase`. The contract only gives the result
/// its name, [`lowercase`].
#[verifier::external_body]
pub(crate) fn to_lowercase(text: &str) -> (lowered: String)
    ensures
        lowered@ == lowercase(text@),
{
    text.to_lowercase()
}

/// Trusted: calls `str::replace` with a single character as the pattern.
/// Every match of such a pattern is one occurrence of that character, and
/// each is replaced by `replacement`; the rest of the text is copied
/// unchanged.
#[verifier::external_body]
pub(crate) fn replace_char(text: &str, target: char, replacement: &str) -> (result: String)
    ensures
        result@ == replaced(text@, target, replacement@),
{
    text.replace(target, replacement)
}

/// Whether `text` reads exactly as `literal`.
pub fn text_is(text: &String, literal: &str) -> (same: bool)
    ensures
        same == (text@ == literal@),
{
    let other = String::from_str(literal);
    *text == other
}

/// A copy of an optional text.
pub fn clone_text(text: &Option<String>) -> (copy: Option<String>)
    ensures
        copy == *text,
{
    match text {
        Some(value) => Some(value.clone()),
        None => None,
    }
}

/// No character `target` is left where every one was replaced, unless the
/// replacement brings it back.
pub proof fn lemma_replaced_leaves_none(text: Seq<char>, target: char, replacement: Seq<char>)
    requires
        !replacement.contains(target),
    ensures
        !replaced(text, target, replacement).contains(target),
    decreases text.len(),
{
    if text.len() > 0 {
        lemma_replaced_leaves_none(text.drop_last(), target, replacement);
        let before = replaced(text.drop_last(), target, replacement);
        let all = replaced(text, target, replacement);
        if all.contains(target) {
            let i = choose|i: int| 0 <= i < all.len() && all[i] == target;
            if i < before.len() {
                assert(before[i] == target);
            } else if text.last() == target {
                assert(replacement[i - before.len()] == target);
            }
        }
    }
}

} // verus!
