//! One line through the pattern and the chosen serializer.

use crate::pattern::{declared_names, line_match, slot_names};
use crate::record::{declares_groups, display_names, line_key, names_line};
use crate::serializers::{ColumnsSerializer, JsonSerializer, Serializer};
use crate::utils::{unescape, unescaped};
use regex::{Captures, Regex};
use vstd::prelude::*;
use vstd::string::StringExecFns;

verus! {

/// Whether one of the declared slot names is `line`.
pub fn declares_line(declared: &Vec<Option<String>>) -> (found: bool)
    ensures
        found == names_line(declared.deep_view()),
{
    let line = String::from_str("line");
    let mut i: usize = 0;
    while i < declared.len()
        invariant
            i <= declared.len(),
            line@ == line_key(),
            forall|j: int| 0 <= j < i ==> declared.deep_view()[j] != Some(line_key()),
        decreases declared.len() - i,
    {
        proof {
            assert(declared.deep_view()[i as int] == declared[i as int].deep_view());
        }
        match &declared[i] {
            Some(name) => {
                if *name == line {
                    return true;
                }
            },
            None => {},
        }
        i += 1;
    }
    false
}

/// Whether structured records get the line number: only where it was asked
/// for and the pattern has no group named `line`, whose entry it would
/// replace.
pub fn json_line_numbers(regex: &Regex, requested: bool) -> (granted: bool)
    ensures
        granted == (requested && !names_line(slot_names(regex))),
{
    if requested {
        let declared = declared_names(regex);
        !declares_line(&declared)
    } else {
        false
    }
}

/// The output format with its serializer.
pub enum Format {
    Columns(ColumnsSerializer),
    Json(JsonSerializer),
}

impl Format {
    /// Whether this is the format for a pattern with the `declared` slots
    /// under the given options, `separator` being written with escape
    /// sequences.
    pub open spec fn chosen_for(
        &self,
        declared: Seq<Option<Seq<char>>>,
        json: bool,
        line_numbers: bool,
        separator: Seq<char>,
    ) -> bool {
        match self {
            Format::Json(s) => {
                &&& json
                &&& s.has_groups() == declares_groups(declared)
                &&& s.line_numbers() == (line_numbers && !names_line(declared))
                &&& s.names() == display_names(declared)
            },
            Format::Columns(s) => {
                &&& !json
                &&& s.has_groups() == declares_groups(declared)
                &&& s.line_numbers() == line_numbers
                &&& s.separator() == unescaped(separator)
            },
        }
    }

    /// Picks and sets up the serializer: JSON objects if `json` is set, and
    /// columns if not, between them the separator with its escape sequences
    /// decoded.
    pub fn select(regex: &Regex, json: bool, line_numbers: bool, separator: String) -> (format:
        Self)
        ensures
            format.chosen_for(slot_names(regex), json, line_numbers, separator@),
    {
        if json {
            let granted = json_line_numbers(regex, line_numbers);
            Format::Json(JsonSerializer::new(regex, granted))
        } else {
            Format::Columns(ColumnsSerializer::new(regex, line_numbers, unescape(separator)))
        }
    }

    /// The record of a match whose slots are given as plain values.
    pub fn to_record(&self, slots: &Vec<Option<String>>, idx: usize) -> (s: String)
        ensures
            s@ == self.record(slots.deep_view(), idx as nat),
    {
        match self {
            Format::Columns(serializer) => serializer.to_record(slots, idx),
            Format::Json(serializer) => serializer.to_record(slots, idx),
        }
    }
}

impl Serializer for Format {
    open spec fn record(&self, slots: Seq<Option<Seq<char>>>, idx: nat) -> Seq<char> {
        match self {
            Format::Columns(s) => s.record(slots, idx),
            Format::Json(s) => s.record(slots, idx),
        }
    }

    fn to_string(&self, caps: &Captures, idx: usize) -> (s: String) {
        match self {
            Format::Columns(serializer) => serializer.to_string(caps, idx),
            Format::Json(serializer) => serializer.to_string(caps, idx),
        }
    }
}

/// A pattern with the serializer that was set up for it.
pub struct Extractor {
    pub regex: Regex,
    pub format: Format,
}

impl Extractor {
    /// An extractor for `regex` with the format that the options ask for.
    pub fn new(regex: Regex, json: bool, line_numbers: bool, separator: String) -> (e: Self)
        ensures
            e.regex == regex,
            e.format.chosen_for(slot_names(&regex), json, line_numbers, separator@),
    {
        let format = Format::select(&regex, json, line_numbers, separator);
        Extractor { regex, format }
    }

    /// The record of line `idx`, or `None` where the pattern does not match
    /// the line.
    pub fn extract(&self, line: &str, idx: usize) -> (out: Option<String>)
        ensures
            match line_match(&self.regex, line@) {
                Some(slots) => out matches Some(s) && s@ == self.format.record(slots, idx as nat),
                None => out is None,
            },
    {
        match self.regex.captures(line) {
            Some(caps) => Some(self.format.to_string(&caps, idx)),
            None => None,
        }
    }
}

} // verus!
