//! The boundary with the `regex` crate: what a compiled pattern declares and
//! what a match captured, as sequences of optional texts.

use regex::{Captures, Regex};
use vstd::prelude::*;

verus! {

/// `regex::Regex`, a compiled pattern. Nothing inside it is visible here.
#[verifier::external_type_specification]
#[verifier::external_body]
pub struct ExRegex(Regex);

/// `regex::Captures`, the match of a pattern in one line. Nothing inside it
/// is visible here.
#[verifier::external_type_specification]
#[verifier::external_body]
pub struct ExCaptures<'h>(Captures<'h>);

/// The capture slots that a pattern declares, in declaration order: slot 0 is
/// the whole match, and each slot holds its explicit name, if it has one.
pub uninterp spec fn slot_names(re: &Regex) -> Seq<Option<Seq<char>>>;

/// The texts that a match captured, slot by slot: slot 0 is the whole match,
/// and a slot that did not take part in the match holds `None`.
pub uninterp spec fn captured(caps: &Captures) -> Seq<Option<Seq<char>>>;

/// What matching a pattern against a line gives: the slots of the first
/// match in the line, or `None` where the line holds no match.
pub uninterp spec fn line_match(re: &Regex, line: Seq<char>) -> Option<Seq<Option<Seq<char>>>>;

/// `Regex::captures` finds the first match in the line, if there is one, and
/// hands out its slots. The same pattern on the same line gives the same
/// slots.
pub assume_specification<'h>[ Regex::captures ](re: &Regex, haystack: &'h str) -> (found: Option<
    Captures<'h>,
>)
    ensures
        found is Some <==> line_match(re, haystack@) is Some,
        found matches Some(caps) ==> line_match(re, haystack@) == Some(captured(&caps)),
;

/// `Regex::captures_len` counts the slots of the pattern, the implicit slot
/// of the whole match included.
pub assume_specification[ Regex::captures_len ](re: &Regex) -> (n: usize)
    ensures
        n == slot_names(re).len(),
;

/// `Captures::len` counts the slots of the match, those that did not take
/// part included.
pub assume_specification<'h>[ Captures::<'h>::len ](caps: &Captures<'h>) -> (n: usize)
    ensures
        n == captured(caps).len(),
;

/// `Regex::capture_names`, collected: the name of every slot in declaration
/// order, each copied into a `String`.
#[verifier::external_body]
pub(crate) fn declared_names(re: &Regex) -> (names: Vec<Option<String>>)
    ensures
        names.deep_view() == slot_names(re),
{
    re.capture_names().map(|name| name.map(|n| n.to_string())).collect()
}

/// `Captures::get` followed by `Match::as_str`: the text of slot `i`, or
/// `None` where the slot took no part in the match or does not exist.
#[verifier::external_body]
pub(crate) fn slot_text<'h>(caps: &Captures<'h>, i: usize) -> (text: Option<&'h str>)
    ensures
        i < captured(caps).len() ==> text.deep_view() == captured(caps)[i as int],
        i >= captured(caps).len() ==> text is None,
{
    caps.get(i).map(|m| m.as_str())
}

} // verus!
