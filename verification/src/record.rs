//! What an output record is, as mathematics: the columns of a columnar
//! record, the entries of a structured one, and the display names of the
//! groups of a pattern.

use crate::text::{decimal, joined};
use vstd::prelude::*;

verus! {

/// Slot `i` of a match, or `None` where the match has no such slot.
pub open spec fn slot_at(slots: Seq<Option<Seq<char>>>, i: int) -> Option<Seq<char>> {
    if 0 <= i < slots.len() {
        slots[i]
    } else {
        None
    }
}

/// The text of a slot, empty where the slot is absent.
pub open spec fn text_or_empty(slot: Option<Seq<char>>) -> Seq<char> {
    match slot {
        Some(text) => text,
        None => Seq::empty(),
    }
}

/// The text of the whole match, which is slot 0.
pub open spec fn whole_match(slots: Seq<Option<Seq<char>>>) -> Seq<char> {
    text_or_empty(slot_at(slots, 0))
}

/// The number of groups among the slots: all slots but slot 0.
pub open spec fn group_count(slots: Seq<Option<Seq<char>>>) -> nat {
    if slots.len() == 0 {
        0
    } else {
        (slots.len() - 1) as nat
    }
}

/// Whether a pattern with these slots declares at least one group.
pub open spec fn declares_groups(declared: Seq<Option<Seq<char>>>) -> bool {
    declared.len() > 1
}

/// The display names of the groups of a pattern: for each group its explicit
/// name, or else its one-based position among all groups, in decimal.
pub open spec fn display_names(declared: Seq<Option<Seq<char>>>) -> Seq<Seq<char>> {
    Seq::new(
        group_count(declared),
        |i: int|
            match declared[i + 1] {
                Some(name) => name,
                None => decimal((i + 1) as nat),
            },
    )
}

/// One column per group, in declaration order: the captured text, empty
/// where the group took no part in the match.
pub open spec fn column_fields(slots: Seq<Option<Seq<char>>>) -> Seq<Seq<char>> {
    Seq::new(group_count(slots), |i: int| text_or_empty(slots[i + 1]))
}

/// The columnar record of a match.
pub open spec fn columns_record(
    has_groups: bool,
    line_numbers: bool,
    separator: Seq<char>,
    slots: Seq<Option<Seq<char>>>,
    idx: nat,
) -> Seq<char> {
    let columns = if has_groups {
        joined(column_fields(slots), separator)
    } else {
        whole_match(slots)
    };
    if line_numbers {
        decimal(idx) + separator + columns
    } else {
        columns
    }
}

/// The entries that the first `k` groups give: one for each group that took
/// part in the match, under its display name. Where two groups share a name,
/// the later one stays.
pub open spec fn group_entries(
    names: Seq<Seq<char>>,
    slots: Seq<Option<Seq<char>>>,
    k: nat,
) -> Map<Seq<char>, Seq<char>>
    decreases k,
{
    if k == 0 {
        Map::empty()
    } else {
        let before = group_entries(names, slots, (k - 1) as nat);
        match slot_at(slots, k as int) {
            Some(text) => before.insert(names[k - 1], text),
            None => before,
        }
    }
}

/// The key of the whole match in a structured record.
pub open spec fn match_key() -> Seq<char> {
    "match"@
}

/// The key of the line number in a structured record.
pub open spec fn line_key() -> Seq<char> {
    "line"@
}

/// The entries of the structured record of a match.
pub open spec fn json_fields(
    has_groups: bool,
    line_numbers: bool,
    names: Seq<Seq<char>>,
    slots: Seq<Option<Seq<char>>>,
    idx: nat,
) -> Map<Seq<char>, Seq<char>> {
    let base = if has_groups {
        group_entries(names, slots, names.len())
    } else {
        Map::empty().insert(match_key(), whole_match(slots))
    };
    if line_numbers {
        base.insert(line_key(), decimal(idx))
    } else {
        base
    }
}

/// Whether a pattern names one of its groups `line`.
pub open spec fn names_line(declared: Seq<Option<Seq<char>>>) -> bool {
    exists|i: int| 0 <= i < declared.len() && declared[i] == Some(line_key())
}

} // verus!
