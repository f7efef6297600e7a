//! What holds of every record, whatever the pattern, the line and the
//! options.

use crate::extract::Format;
use crate::json::object_text;
use crate::record::{
    column_fields, declares_groups, group_count, group_entries, json_fields, line_key, match_key,
    names_line, slot_at, whole_match,
};
use crate::serializers::{ColumnsSerializer, JsonSerializer, Serializer};
use crate::text::{decimal, joined};
use crate::utils::{escape_code, unescaped};
use vstd::prelude::*;

verus! {

/// Whether one of the groups `1..=k` took part in the match and has the
/// display name `key`.
pub open spec fn names_present_group(
    names: Seq<Seq<char>>,
    slots: Seq<Option<Seq<char>>>,
    k: nat,
    key: Seq<char>,
) -> bool {
    exists|j: int| 1 <= j <= k && slot_at(slots, j) is Some && #[trigger] names[j - 1] == key
}

/// The entries of the first `k` groups have exactly the names of those among
/// them that took part in the match as keys.
pub proof fn lemma_group_entries_keys(
    names: Seq<Seq<char>>,
    slots: Seq<Option<Seq<char>>>,
    k: nat,
    key: Seq<char>,
)
    ensures
        group_entries(names, slots, k).contains_key(key) <==> names_present_group(
            names,
            slots,
            k,
            key,
        ),
    decreases k,
{
    if k > 0 {
        let before = (k - 1) as nat;
        lemma_group_entries_keys(names, slots, before, key);
        if names_present_group(names, slots, before, key) {
            let j = choose|j: int|
                1 <= j <= before && slot_at(slots, j) is Some && #[trigger] names[j - 1] == key;
            assert(1 <= j <= k && slot_at(slots, j) is Some && names[j - 1] == key);
        }
        if slot_at(slots, k as int) is Some && names[k - 1] == key {
            assert(names_present_group(names, slots, k, key));
        }
        if names_present_group(names, slots, k, key) {
            let j = choose|j: int|
                1 <= j <= k && slot_at(slots, j) is Some && #[trigger] names[j - 1] == key;
            if j < k {
                assert(1 <= j <= before && slot_at(slots, j) is Some && names[j - 1] == key);
            }
        }
    }
}

/// The entry of a group that took part in the match holds its text, unless a
/// later group that took part has the same name.
pub proof fn lemma_group_entries_value(
    names: Seq<Seq<char>>,
    slots: Seq<Option<Seq<char>>>,
    k: nat,
    g: int,
)
    requires
        1 <= g <= k,
        slot_at(slots, g) is Some,
        forall|j: int| g < j <= k && slot_at(slots, j) is Some ==> #[trigger] names[j - 1] != names[g - 1],
    ensures
        group_entries(names, slots, k).contains_key(names[g - 1]),
        group_entries(names, slots, k)[names[g - 1]] == slot_at(slots, g)->0,
    decreases k,
{
    if g < k {
        lemma_group_entries_value(names, slots, (k - 1) as nat, g);
        if slot_at(slots, k as int) is Some {
            assert(names[k - 1] != names[g - 1]);
        }
    }
}

/// Columnar records of a pattern without groups: the serializer that was
/// made for such a pattern gives the text of the whole match, after the line
/// number where that was asked for.
pub proof fn lemma_columns_without_groups(
    s: ColumnsSerializer,
    declared: Seq<Option<Seq<char>>>,
    slots: Seq<Option<Seq<char>>>,
    idx: nat,
)
    requires
        group_count(declared) == 0,
        s.has_groups() == declares_groups(declared),
    ensures
        !s.line_numbers() ==> s.record(slots, idx) == whole_match(slots),
        s.line_numbers() ==> s.record(slots, idx) == decimal(idx) + s.separator() + whole_match(
            slots,
        ),
{
}

/// Structured records of a pattern without groups: the serializer that was
/// made for such a pattern gives the whole match under the key `match`, and
/// the line number under `line` where that was asked for.
pub proof fn lemma_json_without_groups(
    s: JsonSerializer,
    declared: Seq<Option<Seq<char>>>,
    slots: Seq<Option<Seq<char>>>,
    idx: nat,
)
    requires
        group_count(declared) == 0,
        s.has_groups() == declares_groups(declared),
    ensures
        !s.line_numbers() ==> s.record(slots, idx) == object_text(
            Map::empty().insert(match_key(), whole_match(slots)),
        ),
        s.line_numbers() ==> s.record(slots, idx) == object_text(
            Map::empty().insert(match_key(), whole_match(slots)).insert(line_key(), decimal(idx)),
        ),
{
}

/// A group that took no part in the match gives an empty column: the record
/// is made of one column for each group, and the column of group `g` is
/// empty.
pub proof fn lemma_absent_group_column(
    s: ColumnsSerializer,
    slots: Seq<Option<Seq<char>>>,
    idx: nat,
    g: int,
)
    requires
        s.has_groups(),
        1 <= g < slots.len(),
        slots[g] is None,
    ensures
        column_fields(slots).len() == slots.len() - 1,
        column_fields(slots)[g - 1] == Seq::<char>::empty(),
        !s.line_numbers() ==> s.record(slots, idx) == joined(column_fields(slots), s.separator()),
        s.line_numbers() ==> s.record(slots, idx) == decimal(idx) + s.separator() + joined(
            column_fields(slots),
            s.separator(),
        ),
{
}

/// A group that took no part in the match gives no entry: its name is not a
/// key of the structured record, unless a group that did take part has the
/// same name, or the name is `line` and the line number is written.
pub proof fn lemma_absent_group_key(
    s: JsonSerializer,
    slots: Seq<Option<Seq<char>>>,
    idx: nat,
    g: int,
)
    requires
        s.has_groups(),
        1 <= g <= s.names().len(),
        slot_at(slots, g) is None,
        !names_present_group(s.names(), slots, s.names().len(), s.names()[g - 1]),
        !(s.line_numbers() && s.names()[g - 1] == line_key()),
    ensures
        !json_fields(s.has_groups(), s.line_numbers(), s.names(), slots, idx).contains_key(
            s.names()[g - 1],
        ),
{
    lemma_group_entries_keys(s.names(), slots, s.names().len(), s.names()[g - 1]);
}

/// A group that took part in the match gives an entry with its text under
/// its name, unless a later group that took part has the same name, or the
/// name is `line` and the line number is written.
pub proof fn lemma_present_group_entry(
    s: JsonSerializer,
    slots: Seq<Option<Seq<char>>>,
    idx: nat,
    g: int,
)
    requires
        s.has_groups(),
        1 <= g <= s.names().len(),
        slot_at(slots, g) is Some,
        forall|j: int|
            g < j <= s.names().len() && slot_at(slots, j) is Some ==> #[trigger] s.names()[j - 1]
                != s.names()[g - 1],
        !(s.line_numbers() && s.names()[g - 1] == line_key()),
    ensures
        json_fields(s.has_groups(), s.line_numbers(), s.names(), slots, idx).contains_key(
            s.names()[g - 1],
        ),
        json_fields(s.has_groups(), s.line_numbers(), s.names(), slots, idx)[s.names()[g - 1]]
            == slot_at(slots, g)->0,
{
    lemma_group_entries_value(s.names(), slots, s.names().len(), g);
}

/// A pattern that names a group `line` never gets the line number written
/// into its structured records, whether it was asked for or not.
pub proof fn lemma_line_group_stops_line_numbers(
    format: Format,
    declared: Seq<Option<Seq<char>>>,
    line_numbers: bool,
    separator: Seq<char>,
)
    requires
        format.chosen_for(declared, true, line_numbers, separator),
        names_line(declared),
    ensures
        format matches Format::Json(s) && !s.line_numbers(),
{
}

/// A text without a backslash has nothing to decode: it stays as it is.
pub proof fn lemma_unescaped_without_backslash(s: Seq<char>)
    requires
        forall|i: int| 0 <= i < s.len() ==> s[i] != '\\',
    ensures
        unescaped(s) == s,
    decreases s.len(),
{
    if s.len() > 0 {
        lemma_unescaped_without_backslash(s.skip(1));
        assert(seq![s[0]] + s.skip(1) =~= s);
    }
}

/// A backslash and the character after it are decoded together, whatever
/// follows: an escape sequence gives its one character, any other pair stays
/// as its two characters.
pub proof fn lemma_unescaped_pair(c: char, rest: Seq<char>)
    ensures
        unescaped(seq!['\\', c] + rest) == match escape_code(c) {
            Some(decoded) => seq![decoded] + unescaped(rest),
            None => seq!['\\', c] + unescaped(rest),
        },
{
    let s = seq!['\\', c] + rest;
    assert(s.skip(2) =~= rest);
}

/// Serializing the same match on the same line twice gives the same text.
pub proof fn lemma_same_match_same_record<S: Serializer>(
    s: &S,
    slots: Seq<Option<Seq<char>>>,
    idx: nat,
    first: String,
    second: String,
)
    requires
        first@ == s.record(slots, idx),
        second@ == s.record(slots, idx),
    ensures
        first@ == second@,
{
}

} // verus!
