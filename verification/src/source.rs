//! What a data source holds for each element, before any of it is checked.
//!
//! A data source is a document that maps atomic symbols to entries, and an entry maps the
//! names of the attributes to values of any shape. [`Entry`] and [`Field`] hold as much of
//! that as the table is made of.

use vstd::prelude::*;
use crate::json::{
    decimal_text, entries, json_decimal, json_entries, json_items, json_member, json_null,
    json_str, json_u64, member,
};

verus! {

/// What stands under one key of an element's entry.
#[derive(Debug, PartialEq, Eq)]
pub enum Field {
    /// Nothing: the key is missing or holds null.
    Absent,
    /// A number: its decimal text and, where it is a non-negative integer, its value.
    Number { text: String, whole: Option<u64> },
    /// A text.
    Text(String),
    /// A list all of whose items are non-negative integers.
    Integers(Vec<u64>),
    /// A value of any other shape.
    Other,
}

/// A [`Field`] as a mathematical value.
pub enum FieldView {
    Absent,
    Number { text: Seq<char>, whole: Option<u64> },
    Text(Seq<char>),
    Integers(Seq<u64>),
    Other,
}

impl View for Field {
    type V = FieldView;

    open spec fn view(&self) -> FieldView {
        match *self {
            Field::Absent => FieldView::Absent,
            Field::Number { text, whole } => FieldView::Number { text: text@, whole },
            Field::Text(s) => FieldView::Text(s@),
            Field::Integers(items) => FieldView::Integers(items@),
            Field::Other => FieldView::Other,
        }
    }
}

impl FieldView {
    /// The text, where the field holds one.
    pub open spec fn as_text(self) -> Option<Seq<char>> {
        match self {
            FieldView::Text(s) => Some(s),
            _ => None,
        }
    }

    /// The value, where the field holds a non-negative integer.
    pub open spec fn as_whole(self) -> Option<u64> {
        match self {
            FieldView::Number { whole, .. } => whole,
            _ => None,
        }
    }

    /// The decimal text, where the field holds a number.
    pub open spec fn as_decimal(self) -> Option<Seq<char>> {
        match self {
            FieldView::Number { text, .. } => Some(text),
            _ => None,
        }
    }

    /// The items, where the field holds a list of non-negative integers.
    pub open spec fn as_integers(self) -> Option<Seq<u64>> {
        match self {
            FieldView::Integers(items) => Some(items),
            _ => None,
        }
    }
}

/// The entry of one element: its symbol, and what stands under each attribute's key.
#[derive(Debug, PartialEq, Eq)]
pub struct Entry {
    pub symbol: String,
    pub element_name: Field,
    pub atomic_number: Field,
    pub atomic_weight: Field,
    pub energy_levels: Field,
    pub electronegativity: Field,
    pub series: Field,
    pub date_discovered: Field,
    pub discoverer: Field,
    pub group: Field,
    pub period: Field,
}

/// An [`Entry`] as a mathematical value.
pub struct EntryView {
    pub symbol: Seq<char>,
    pub element_name: FieldView,
    pub atomic_number: FieldView,
    pub atomic_weight: FieldView,
    pub energy_levels: FieldView,
    pub electronegativity: FieldView,
    pub series: FieldView,
    pub date_discovered: FieldView,
    pub discoverer: FieldView,
    pub group: FieldView,
    pub period: FieldView,
}

impl View for Entry {
    type V = EntryView;

    open spec fn view(&self) -> EntryView {
        EntryView {
            symbol: self.symbol@,
            element_name: self.element_name@,
            atomic_number: self.atomic_number@,
            atomic_weight: self.atomic_weight@,
            energy_levels: self.energy_levels@,
            electronegativity: self.electronegativity@,
            series: self.series@,
            date_discovered: self.date_discovered@,
            discoverer: self.discoverer@,
            group: self.group@,
            period: self.period@,
        }
    }
}

/// The views of a sequence of entries.
pub open spec fn entry_views(entries: Seq<Entry>) -> Seq<EntryView> {
    entries.map_values(|e: Entry| e@)
}

/// The numbers that the items of a list are, if each is a non-negative integer.
pub open spec fn whole_items(items: Seq<serde_json::Value>) -> Option<Seq<u64>> {
    if forall|i: int| 0 <= i < items.len() ==> json_u64(#[trigger] items[i]) is Some {
        Some(items.map_values(|item: serde_json::Value| json_u64(item).unwrap()))
    } else {
        None
    }
}

/// The field that a value of a document is.
pub open spec fn value_field(value: serde_json::Value) -> FieldView {
    if json_null(value) {
        FieldView::Absent
    } else if json_decimal(value) is Some {
        FieldView::Number { text: json_decimal(value).unwrap(), whole: json_u64(value) }
    } else if json_str(value) is Some {
        FieldView::Text(json_str(value).unwrap())
    } else if json_items(value) is Some && whole_items(json_items(value).unwrap()) is Some {
        FieldView::Integers(whole_items(json_items(value).unwrap()).unwrap())
    } else {
        FieldView::Other
    }
}

/// The field under a key of an entry: absent where the entry has no such key.
pub open spec fn member_field(entry: serde_json::Value, key: Seq<char>) -> FieldView {
    match json_member(entry, key) {
        Some(value) => value_field(value),
        None => FieldView::Absent,
    }
}

/// The entry that a document holds under a symbol.
pub open spec fn entry_model(symbol: Seq<char>, entry: serde_json::Value) -> EntryView {
    EntryView {
        symbol,
        element_name: member_field(entry, "element_name"@),
        atomic_number: member_field(entry, "atomic_number"@),
        atomic_weight: member_field(entry, "atomic_weight"@),
        energy_levels: member_field(entry, "energy_levels"@),
        electronegativity: member_field(entry, "electronegativity"@),
        series: member_field(entry, "series"@),
        date_discovered: member_field(entry, "date_discovered"@),
        discoverer: member_field(entry, "discoverer"@),
        group: member_field(entry, "group"@),
        period: member_field(entry, "period"@),
    }
}

/// The entries of a document, in its order; `None` for a document that is no object.
pub open spec fn entries_model(document: serde_json::Value) -> Option<Seq<EntryView>> {
    match json_entries(document) {
        Some(pairs) => Some(
            pairs.map_values(|p: (Seq<char>, serde_json::Value)| entry_model(p.0, p.1)),
        ),
        None => None,
    }
}

/// Reads the items of a list as non-negative integers.
fn read_whole_items(items: &Vec<serde_json::Value>) -> (r: Option<Vec<u64>>)
    ensures
        r is Some == whole_items(items@) is Some,
        r matches Some(numbers) ==> whole_items(items@) == Some(numbers@),
{
    let mut numbers: Vec<u64> = Vec::new();
    let mut i: usize = 0;
    while i < items.len()
        invariant
            i <= items.len(),
            numbers.len() == i,
            forall|k: int| 0 <= k < i ==> json_u64(#[trigger] items[k]) == Some(numbers[k]),
        decreases items.len() - i,
    {
        match items[i].as_u64() {
            Some(n) => {
                numbers.push(n);
            },
            None => {
                return None;
            },
        }
        i += 1;
    }
    assert(whole_items(items@).unwrap() =~= numbers@);
    Some(numbers)
}

/// Reads a value of a document as a field.
fn read_field(value: &serde_json::Value) -> (r: Field)
    ensures
        r@ == value_field(*value),
{
    if value.is_null() {
        return Field::Absent;
    }
    if let Some(text) = decimal_text(value) {
        return Field::Number { text, whole: value.as_u64() };
    }
    if let Some(s) = value.as_str() {
        return Field::Text(s.to_owned());
    }
    if let Some(items) = value.as_array() {
        if let Some(numbers) = read_whole_items(items) {
            return Field::Integers(numbers);
        }
    }
    Field::Other
}

/// Reads the field under a key of an entry.
fn read_member(entry: &serde_json::Value, key: &str) -> (r: Field)
    ensures
        r@ == member_field(*entry, key@),
{
    match member(entry, key) {
        Some(value) => read_field(value),
        None => Field::Absent,
    }
}

/// Reads the entry that a document holds under a symbol.
fn read_entry(symbol: &String, entry: &serde_json::Value) -> (r: Entry)
    ensures
        r@ == entry_model(symbol@, *entry),
{
    Entry {
        symbol: symbol.clone(),
        element_name: read_member(entry, "element_name"),
        atomic_number: read_member(entry, "atomic_number"),
        atomic_weight: read_member(entry, "atomic_weight"),
        energy_levels: read_member(entry, "energy_levels"),
        electronegativity: read_member(entry, "electronegativity"),
        series: read_member(entry, "series"),
        date_discovered: read_member(entry, "date_discovered"),
        discoverer: read_member(entry, "discoverer"),
        group: read_member(entry, "group"),
        period: read_member(entry, "period"),
    }
}

/// Reads the entries of a document, in its order; `None` for a document that is no object.
pub(crate) fn read_entries(document: &serde_json::Value) -> (r: Option<Vec<Entry>>)
    ensures
        r is Some == entries_model(*document) is Some,
        r matches Some(found) ==> entries_model(*document) == Some(entry_views(found@)),
{
    match entries(document) {
        None => None,
        Some(pairs) => {
            let ghost models = entries_model(*document).unwrap();
            let mut found: Vec<Entry> = Vec::new();
            let mut i: usize = 0;
            while i < pairs.len()
                invariant
                    i <= pairs.len(),
                    found.len() == i,
                    json_entries(*document) == Some(
                        pairs@.map_values(|p: (&String, &serde_json::Value)| (p.0@, *p.1)),
                    ),
                    models == entries_model(*document).unwrap(),
                    forall|k: int| 0 <= k < i ==> (#[trigger] found[k])@ == models[k],
                decreases pairs.len() - i,
            {
                let (symbol, entry) = pairs[i];
                found.push(read_entry(symbol, entry));
                i += 1;
            }
            assert(entry_views(found@) =~= models);
            Some(found)
        },
    }
}

} // verus!
