//! The two serializers: columns joined by a separator, and JSON objects.

use crate::json::{
    encode_object, new_object, object_fields, object_text, only_strings, set_field, JsonObject,
};
use crate::pattern::{captured, declared_names, slot_names, slot_text};
use crate::record::{
    column_fields, columns_record, declares_groups, display_names, group_entries, json_fields,
    match_key, text_or_empty, whole_match,
};
use crate::text::{joined, to_decimal};
use regex::{Captures, Regex};
use vstd::prelude::*;
use vstd::string::StringExecFns;

verus! {

/// Turns the match of one line into one output record.
pub trait Serializer {
    /// The record for a match with the given slots, found on line `idx`.
    spec fn record(&self, slots: Seq<Option<Seq<char>>>, idx: nat) -> Seq<char>;

    /// Serialize the captures of one line as a string.
    fn to_string(&self, caps: &Captures, idx: usize) -> (s: String)
        ensures
            s@ == self.record(captured(caps), idx as nat),
    ;
}

/// The slots of a match as owned texts.
pub fn slots_of(caps: &Captures) -> (slots: Vec<Option<String>>)
    ensures
        slots.deep_view() == captured(caps),
{
    let n = caps.len();
    let mut slots: Vec<Option<String>> = Vec::new();
    let mut i: usize = 0;
    while i < n
        invariant
            n == captured(caps).len(),
            i <= n,
            slots.len() == i,
            forall|j: int| 0 <= j < i ==> (#[trigger] slots[j]).deep_view() == captured(caps)[j],
        decreases n - i,
    {
        let slot = match slot_text(caps, i) {
            Some(text) => Some(String::from_str(text)),
            None => None,
        };
        slots.push(slot);
        i += 1;
    }
    assert(slots.deep_view() =~= captured(caps));
    slots
}

/// Serialize the captures as columns separated by `separator`.
pub struct ColumnsSerializer {
    has_groups: bool,
    line_numbers: bool,
    separator: String,
}

impl ColumnsSerializer {
    /// Whether records are made from the groups, not from the whole match.
    pub closed spec fn has_groups(&self) -> bool {
        self.has_groups
    }

    /// Whether records start with the line number.
    pub closed spec fn line_numbers(&self) -> bool {
        self.line_numbers
    }

    /// The text between two columns.
    pub closed spec fn separator(&self) -> Seq<char> {
        self.separator@
    }

    /// A serializer for the matches of `regex`: it works from the groups if
    /// the pattern declares any, and from the whole match if not.
    pub fn new(regex: &Regex, line_numbers: bool, separator: String) -> (s: Self)
        ensures
            s.has_groups() == declares_groups(slot_names(regex)),
            s.line_numbers() == line_numbers,
            s.separator() == separator@,
    {
        let has_groups = regex.captures_len() > 1;
        ColumnsSerializer { has_groups, line_numbers, separator }
    }

    /// The columns of the groups, joined by the separator.
    pub fn from_groups(&self, slots: &Vec<Option<String>>) -> (s: String)
        ensures
            s@ == joined(column_fields(slots.deep_view()), self.separator()),
    {
        let ghost fields = column_fields(slots.deep_view());
        let mut out = String::new();
        let mut i: usize = 1;
        proof {
            assert(fields.take(0) =~= Seq::empty());
        }
        while i < slots.len()
            invariant
                1 <= i,
                i <= slots.len() || i == 1,
                fields == column_fields(slots.deep_view()),
                out@ == joined(fields.take(i - 1), self.separator()),
            decreases slots.len() - i,
        {
            let ghost before = out@;
            if i > 1 {
                out.append(self.separator.as_str());
            }
            match &slots[i] {
                Some(text) => {
                    out.append(text.as_str());
                },
                None => {},
            }
            proof {
                let upto = fields.take(i as int);
                assert(upto.drop_last() =~= fields.take(i - 1));
                assert(upto.last() == text_or_empty(slots.deep_view()[i as int]));
                assert(out@ =~= joined(upto, self.separator()));
            }
            i += 1;
        }
        proof {
            assert(slots.deep_view().len() == slots.len());
            assert(fields.len() == i - 1);
            assert(fields.take(i - 1) =~= fields);
        }
        out
    }

    /// The text of the whole match.
    pub fn from_whole(&self, slots: &Vec<Option<String>>) -> (s: String)
        ensures
            s@ == whole_match(slots.deep_view()),
    {
        if slots.len() > 0 {
            match &slots[0] {
                Some(text) => text.clone(),
                None => String::new(),
            }
        } else {
            String::new()
        }
    }

    /// The columnar record of a match whose slots are given as plain values.
    pub fn to_record(&self, slots: &Vec<Option<String>>, idx: usize) -> (s: String)
        ensures
            s@ == columns_record(
                self.has_groups(),
                self.line_numbers(),
                self.separator(),
                slots.deep_view(),
                idx as nat,
            ),
    {
        let columns = if self.has_groups {
            self.from_groups(slots)
        } else {
            self.from_whole(slots)
        };
        if self.line_numbers {
            let mut out = to_decimal(idx);
            out.append(self.separator.as_str());
            out.append(columns.as_str());
            out
        } else {
            columns
        }
    }
}

impl Serializer for ColumnsSerializer {
    open spec fn record(&self, slots: Seq<Option<Seq<char>>>, idx: nat) -> Seq<char> {
        columns_record(self.has_groups(), self.line_numbers(), self.separator(), slots, idx)
    }

    fn to_string(&self, caps: &Captures, idx: usize) -> (s: String) {
        let slots = slots_of(caps);
        self.to_record(&slots, idx)
    }
}

/// The display names for the slots of a pattern, given as plain values:
/// slot 0, the whole match, gets none; each group gets its explicit name or
/// else its one-based position among all groups.
pub fn derive_names(declared: &Vec<Option<String>>) -> (names: Vec<String>)
    ensures
        names.deep_view() == display_names(declared.deep_view()),
{
    let mut names: Vec<String> = Vec::new();
    let mut i: usize = 1;
    while i < declared.len()
        invariant
            1 <= i,
            i <= declared.len() || i == 1,
            names.len() == i - 1,
            forall|j: int|
                0 <= j < i - 1 ==> (#[trigger] names[j])@ == display_names(
                    declared.deep_view(),
                )[j],
        decreases declared.len() - i,
    {
        let name = match &declared[i] {
            Some(name) => name.clone(),
            None => to_decimal(i),
        };
        proof {
            assert(declared.deep_view()[i as int] == declared[i as int].deep_view());
        }
        names.push(name);
        i += 1;
    }
    assert(names.deep_view() =~= display_names(declared.deep_view()));
    names
}

/// Extract the capture names of a pattern and name the unnamed captures.
pub fn capture_groups_names(regex: &Regex) -> (names: Vec<String>)
    ensures
        names.deep_view() == display_names(slot_names(regex)),
{
    let declared = declared_names(regex);
    derive_names(&declared)
}

/// Serialize the captures as a JSON object.
pub struct JsonSerializer {
    has_groups: bool,
    line_numbers: bool,
    group_names: Vec<String>,
}

impl JsonSerializer {
    /// Whether records are made from the groups, not from the whole match.
    pub closed spec fn has_groups(&self) -> bool {
        self.has_groups
    }

    /// Whether records hold the line number.
    pub closed spec fn line_numbers(&self) -> bool {
        self.line_numbers
    }

    /// The display names of the groups, in declaration order.
    pub closed spec fn names(&self) -> Seq<Seq<char>> {
        self.group_names.deep_view()
    }

    /// A serializer for the matches of `regex`: it names the groups once, and
    /// works from the groups if the pattern declares any, from the whole match
    /// if not.
    pub fn new(regex: &Regex, line_numbers: bool) -> (s: Self)
        ensures
            s.has_groups() == declares_groups(slot_names(regex)),
            s.line_numbers() == line_numbers,
            s.names() == display_names(slot_names(regex)),
    {
        let group_names = capture_groups_names(regex);
        let has_groups = group_names.len() > 0;
        proof {
            assert(group_names.deep_view().len() == group_names.len());
        }
        JsonSerializer { has_groups, line_numbers, group_names }
    }

    /// One entry for each group that took part in the match.
    pub fn from_groups(&self, slots: &Vec<Option<String>>) -> (obj: JsonObject)
        ensures
            object_fields(&obj) == group_entries(
                self.names(),
                slots.deep_view(),
                self.names().len(),
            ),
            only_strings(&obj),
    {
        let mut obj = new_object();
        let mut k: usize = 0;
        proof {
            assert(self.names().len() == self.group_names.len());
        }
        while k < self.group_names.len()
            invariant
                k <= self.group_names.len(),
                self.names().len() == self.group_names.len(),
                only_strings(&obj),
                object_fields(&obj) == group_entries(self.names(), slots.deep_view(), k as nat),
            decreases self.group_names.len() - k,
        {
            proof {
                assert(slots.deep_view().len() == slots.len());
            }
            if k + 1 < slots.len() {
                proof {
                    assert(slots.deep_view()[k + 1] == slots[k + 1].deep_view());
                    assert(self.names()[k as int] == self.group_names[k as int]@);
                }
                match &slots[k + 1] {
                    Some(text) => {
                        set_field(&mut obj, self.group_names[k].as_str(), text.as_str());
                    },
                    None => {},
                }
            }
            k += 1;
        }
        obj
    }

    /// The single entry of the whole match, under the key `match`.
    pub fn from_whole(&self, slots: &Vec<Option<String>>) -> (obj: JsonObject)
        ensures
            object_fields(&obj) == Map::empty().insert(match_key(), whole_match(slots.deep_view())),
            only_strings(&obj),
    {
        let matched = if slots.len() > 0 {
            match &slots[0] {
                Some(text) => text.clone(),
                None => String::new(),
            }
        } else {
            String::new()
        };
        let mut obj = new_object();
        set_field(&mut obj, "match", matched.as_str());
        obj
    }

    /// The structured record of a match whose slots are given as plain
    /// values: the JSON text of its entries.
    pub fn to_record(&self, slots: &Vec<Option<String>>, idx: usize) -> (s: String)
        ensures
            s@ == object_text(
                json_fields(
                    self.has_groups(),
                    self.line_numbers(),
                    self.names(),
                    slots.deep_view(),
                    idx as nat,
                ),
            ),
    {
        let mut obj = if self.has_groups {
            self.from_groups(slots)
        } else {
            self.from_whole(slots)
        };
        if self.line_numbers {
            let line = to_decimal(idx);
            set_field(&mut obj, "line", line.as_str());
        }
        encode_object(obj)
    }
}

impl Serializer for JsonSerializer {
    open spec fn record(&self, slots: Seq<Option<Seq<char>>>, idx: nat) -> Seq<char> {
        object_text(json_fields(self.has_groups(), self.line_numbers(), self.names(), slots, idx))
    }

    fn to_string(&self, caps: &Captures, idx: usize) -> (s: String) {
        let slots = slots_of(caps);
        self.to_record(&slots, idx)
    }
}

} // verus!
