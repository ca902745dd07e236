//! The periodic table: its elements, how it is built, and how it is asked.
//!
//! A table is built once, from elements or from the entries of a data source, and is never
//! changed afterwards. It holds no two elements with one symbol and no element without
//! energy levels or without a series; whatever would break that is refused as malformed, and
//! then no table is built at all.

use vstd::prelude::*;
use vstd::string::StringExecFns;
use crate::attribute::{Attribute, AttributeKind, AttributeView};
use crate::error::{DataError, NotFound};
use crate::source::{entry_views, Entry, EntryView, Field, FieldView};

verus! {

/// A chemical element.
///
/// The atomic weight and the electronegativity are held as decimal text, the form in which
/// they are presented.
#[derive(Debug, PartialEq, Eq)]
pub struct Element {
    pub symbol: String,
    pub name: String,
    pub atomic_number: u64,
    pub atomic_weight: String,
    /// The number of electrons of each shell, in the order of the data source.
    pub energy_levels: Vec<u64>,
    /// `"0"` where the data source gives none.
    pub electronegativity: String,
    pub series: String,
    pub date_discovered: String,
    pub discoverer: String,
    /// `None` for an element outside the eighteen groups.
    pub group: Option<u64>,
    pub period: u64,
}

/// An [`Element`] as a mathematical value.
pub struct ElementView {
    pub symbol: Seq<char>,
    pub name: Seq<char>,
    pub atomic_number: u64,
    pub atomic_weight: Seq<char>,
    pub energy_levels: Seq<u64>,
    pub electronegativity: Seq<char>,
    pub series: Seq<char>,
    pub date_discovered: Seq<char>,
    pub discoverer: Seq<char>,
    pub group: Option<u64>,
    pub period: u64,
}

impl View for Element {
    type V = ElementView;

    open spec fn view(&self) -> ElementView {
        ElementView {
            symbol: self.symbol@,
            name: self.name@,
            atomic_number: self.atomic_number,
            atomic_weight: self.atomic_weight@,
            energy_levels: self.energy_levels@,
            electronegativity: self.electronegativity@,
            series: self.series@,
            date_discovered: self.date_discovered@,
            discoverer: self.discoverer@,
            group: self.group,
            period: self.period,
        }
    }
}

/// The views of a sequence of elements.
pub open spec fn element_views(elements: Seq<Element>) -> Seq<ElementView> {
    elements.map_values(|e: Element| e@)
}

/// An element has at least one energy level and belongs to a series.
pub open spec fn element_valid(e: ElementView) -> bool {
    e.energy_levels.len() > 0 && e.series.len() > 0
}

/// The attribute of that name, with the value that the element has for it.
pub open spec fn attribute_of(e: ElementView, kind: AttributeKind) -> AttributeView {
    match kind {
        AttributeKind::AtomicNumber => AttributeView::AtomicNumber(e.atomic_number),
        AttributeKind::AtomicWeight => AttributeView::AtomicWeight(e.atomic_weight),
        AttributeKind::EnergyLevels => AttributeView::EnergyLevels(e.energy_levels),
        AttributeKind::Electronegativity => AttributeView::Electronegativity(e.electronegativity),
        AttributeKind::Series => AttributeView::Series(e.series),
        AttributeKind::DateDiscovered => AttributeView::DateDiscovered(e.date_discovered),
        AttributeKind::Discoverer => AttributeView::Discoverer(e.discoverer),
        AttributeKind::Group => AttributeView::Group(e.group),
        AttributeKind::Period => AttributeView::Period(e.period),
    }
}

/// No two elements share a symbol.
pub open spec fn distinct_symbols(es: Seq<ElementView>) -> bool {
    forall|i: int, j: int|
        0 <= i < j < es.len() ==> (#[trigger] es[i]).symbol != (#[trigger] es[j]).symbol
}

/// What holds of the elements of every table.
pub open spec fn table_valid(es: Seq<ElementView>) -> bool {
    &&& forall|i: int| 0 <= i < es.len() ==> element_valid(#[trigger] es[i])
    &&& distinct_symbols(es)
}

/// Whether some element has the symbol.
pub open spec fn has_symbol(es: Seq<ElementView>, symbol: Seq<char>) -> bool {
    exists|i: int| 0 <= i < es.len() && (#[trigger] es[i]).symbol == symbol
}

/// The element with the symbol, if there is one. The match is exact: `"fe"` is not `"Fe"`.
pub open spec fn element_for(es: Seq<ElementView>, symbol: Seq<char>) -> Option<ElementView> {
    if has_symbol(es, symbol) {
        Some(es[choose|i: int| 0 <= i < es.len() && (#[trigger] es[i]).symbol == symbol])
    } else {
        None
    }
}

/// The electronegativity that a field gives: its number, zero where it is absent.
pub open spec fn electronegativity_of(field: FieldView) -> Option<Seq<char>> {
    match field {
        FieldView::Absent => Some("0"@),
        FieldView::Number { text, .. } => Some(text),
        _ => None,
    }
}

/// The group that a field gives: none where it is absent.
pub open spec fn group_of(field: FieldView) -> Option<Option<u64>> {
    match field {
        FieldView::Absent => Some(None),
        FieldView::Number { whole: Some(g), .. } => Some(Some(g)),
        _ => None,
    }
}

/// The element that an entry describes, if every field has the shape that its attribute
/// asks for. Only the electronegativity and the group may be absent.
pub open spec fn element_of(entry: EntryView) -> Option<ElementView> {
    if entry.element_name.as_text() is Some && entry.atomic_number.as_whole() is Some
        && entry.atomic_weight.as_decimal() is Some && entry.energy_levels.as_integers() is Some
        && electronegativity_of(entry.electronegativity) is Some && entry.series.as_text() is Some
        && entry.date_discovered.as_text() is Some && entry.discoverer.as_text() is Some
        && group_of(entry.group) is Some && entry.period.as_whole() is Some {
        Some(
            ElementView {
                symbol: entry.symbol,
                name: entry.element_name.as_text().unwrap(),
                atomic_number: entry.atomic_number.as_whole().unwrap(),
                atomic_weight: entry.atomic_weight.as_decimal().unwrap(),
                energy_levels: entry.energy_levels.as_integers().unwrap(),
                electronegativity: electronegativity_of(entry.electronegativity).unwrap(),
                series: entry.series.as_text().unwrap(),
                date_discovered: entry.date_discovered.as_text().unwrap(),
                discoverer: entry.discoverer.as_text().unwrap(),
                group: group_of(entry.group).unwrap(),
                period: entry.period.as_whole().unwrap(),
            },
        )
    } else {
        None
    }
}

/// The elements that the entries describe, in their order, if every entry describes one.
pub open spec fn elements_of(entries: Seq<EntryView>) -> Option<Seq<ElementView>> {
    if forall|i: int| 0 <= i < entries.len() ==> element_of(#[trigger] entries[i]) is Some {
        Some(entries.map_values(|e: EntryView| element_of(e).unwrap()))
    } else {
        None
    }
}

/// What loading the entries gives: their elements, or `Malformed` where an entry describes
/// no element or the elements make no table.
pub open spec fn loaded(entries: Seq<EntryView>) -> Result<Seq<ElementView>, DataError> {
    match elements_of(entries) {
        Some(es) => if table_valid(es) {
            Ok(es)
        } else {
            Err(DataError::Malformed)
        },
        None => Err(DataError::Malformed),
    }
}

/// A copy of a list of numbers.
fn copy_numbers(numbers: &Vec<u64>) -> (r: Vec<u64>)
    ensures
        r@ == numbers@,
{
    let mut r: Vec<u64> = Vec::new();
    let mut i: usize = 0;
    while i < numbers.len()
        invariant
            i <= numbers.len(),
            r@ == numbers@.subrange(0, i as int),
        decreases numbers.len() - i,
    {
        r.push(numbers[i]);
        assert(r@ =~= numbers@.subrange(0, i + 1));
        i += 1;
    }
    assert(r@ =~= numbers@);
    r
}

/// The text of a field that holds one.
fn text_in(field: &Field) -> (r: Option<String>)
    ensures
        r is Some == field@.as_text() is Some,
        r matches Some(s) ==> field@.as_text() == Some(s@),
{
    match field {
        Field::Text(s) => Some(s.clone()),
        _ => None,
    }
}

/// The value of a field that holds a non-negative integer.
fn whole_in(field: &Field) -> (r: Option<u64>)
    ensures
        r == field@.as_whole(),
{
    match field {
        Field::Number { whole, .. } => *whole,
        _ => None,
    }
}

/// The decimal text of a field that holds a number.
fn decimal_in(field: &Field) -> (r: Option<String>)
    ensures
        r is Some == field@.as_decimal() is Some,
        r matches Some(s) ==> field@.as_decimal() == Some(s@),
{
    match field {
        Field::Number { text, .. } => Some(text.clone()),
        _ => None,
    }
}

/// The items of a field that holds a list of non-negative integers.
fn integers_in(field: &Field) -> (r: Option<Vec<u64>>)
    ensures
        r is Some == field@.as_integers() is Some,
        r matches Some(items) ==> field@.as_integers() == Some(items@),
{
    match field {
        Field::Integers(items) => Some(copy_numbers(items)),
        _ => None,
    }
}

/// The electronegativity that a field gives.
fn electronegativity_in(field: &Field) -> (r: Option<String>)
    ensures
        r is Some == electronegativity_of(field@) is Some,
        r matches Some(s) ==> electronegativity_of(field@) == Some(s@),
{
    match field {
        Field::Absent => Some(String::from_str("0")),
        Field::Number { text, .. } => Some(text.clone()),
        _ => None,
    }
}

/// The group that a field gives.
fn group_in(field: &Field) -> (r: Option<Option<u64>>)
    ensures
        r == group_of(field@),
{
    match field {
        Field::Absent => Some(None),
        Field::Number { whole: Some(g), .. } => Some(Some(*g)),
        _ => None,
    }
}

impl Element {
    /// Whether the element has at least one energy level and belongs to a series.
    pub fn is_valid(&self) -> (r: bool)
        ensures
            r == element_valid(self@),
    {
        self.energy_levels.len() > 0 && !self.series.as_str().is_empty()
    }

    /// The attribute of that name, with a copy of the value that the element has for it.
    pub fn attribute(&self, kind: AttributeKind) -> (r: Attribute)
        ensures
            r@ == attribute_of(self@, kind),
    {
        match kind {
            AttributeKind::AtomicNumber => Attribute::AtomicNumber(self.atomic_number),
            AttributeKind::AtomicWeight => Attribute::AtomicWeight(self.atomic_weight.clone()),
            AttributeKind::EnergyLevels => Attribute::EnergyLevels(
                copy_numbers(&self.energy_levels),
            ),
            AttributeKind::Electronegativity => Attribute::Electronegativity(
                self.electronegativity.clone(),
            ),
            AttributeKind::Series => Attribute::Series(self.series.clone()),
            AttributeKind::DateDiscovered => Attribute::DateDiscovered(
                self.date_discovered.clone(),
            ),
            AttributeKind::Discoverer => Attribute::Discoverer(self.discoverer.clone()),
            AttributeKind::Group => Attribute::Group(self.group),
            AttributeKind::Period => Attribute::Period(self.period),
        }
    }

    /// The element that an entry describes.
    ///
    /// The entry is malformed where a field is missing or of the wrong kind, where there are
    /// no energy levels, and where the series is empty. Only the electronegativity, then taken
    /// as zero, and the group may be absent.
    pub fn from_entry(entry: &Entry) -> (r: Result<Element, DataError>)
        ensures
            match r {
                Ok(e) => element_of(entry@) == Some(e@) && element_valid(e@),
                Err(error) => error == DataError::Malformed && !(element_of(entry@) matches Some(e)
                    && element_valid(e)),
            },
    {
        let name = text_in(&entry.element_name);
        let atomic_number = whole_in(&entry.atomic_number);
        let atomic_weight = decimal_in(&entry.atomic_weight);
        let energy_levels = integers_in(&entry.energy_levels);
        let electronegativity = electronegativity_in(&entry.electronegativity);
        let series = text_in(&entry.series);
        let date_discovered = text_in(&entry.date_discovered);
        let discoverer = text_in(&entry.discoverer);
        let group = group_in(&entry.group);
        let period = whole_in(&entry.period);
        match (
            name,
            atomic_number,
            atomic_weight,
            energy_levels,
            electronegativity,
            series,
            date_discovered,
            discoverer,
            group,
            period,
        ) {
            (
                Some(name),
                Some(atomic_number),
                Some(atomic_weight),
                Some(energy_levels),
                Some(electronegativity),
                Some(series),
                Some(date_discovered),
                Some(discoverer),
                Some(group),
                Some(period),
            ) => {
                let element = Element {
                    symbol: entry.symbol.clone(),
                    name,
                    atomic_number,
                    atomic_weight,
                    energy_levels,
                    electronegativity,
                    series,
                    date_discovered,
                    discoverer,
                    group,
                    period,
                };
                if element.is_valid() {
                    Ok(element)
                } else {
                    Err(DataError::Malformed)
                }
            },
            _ => Err(DataError::Malformed),
        }
    }
}

/// The periodic table: elements, each found by its symbol.
#[derive(Debug, PartialEq, Eq)]
pub struct PeriodicTable {
    elements: Vec<Element>,
}

impl View for PeriodicTable {
    type V = Seq<ElementView>;

    /// The elements, in the order in which the table was given them.
    closed spec fn view(&self) -> Seq<ElementView> {
        element_views(self.elements@)
    }
}

/// What a function that builds a table returned: the elements of the table, or the error.
pub open spec fn outcome(r: Result<PeriodicTable, DataError>) -> Result<
    Seq<ElementView>,
    DataError,
> {
    match r {
        Ok(table) => Ok(table@),
        Err(error) => Err(error),
    }
}

/// Whether every element is valid.
fn all_valid(elements: &Vec<Element>) -> (r: bool)
    ensures
        r == forall|i: int|
            0 <= i < elements.len() ==> element_valid(#[trigger] element_views(elements@)[i]),
{
    let mut i: usize = 0;
    while i < elements.len()
        invariant
            i <= elements.len(),
            forall|k: int| 0 <= k < i ==> element_valid(#[trigger] element_views(elements@)[k]),
        decreases elements.len() - i,
    {
        if !elements[i].is_valid() {
            assert(!element_valid(element_views(elements@)[i as int]));
            return false;
        }
        i += 1;
    }
    true
}

/// Whether no two elements share a symbol.
fn all_distinct(elements: &Vec<Element>) -> (r: bool)
    ensures
        r == distinct_symbols(element_views(elements@)),
{
    let ghost es = element_views(elements@);
    let mut j: usize = 0;
    while j < elements.len()
        invariant
            j <= elements.len(),
            es == element_views(elements@),
            forall|a: int, b: int|
                0 <= a < b < j ==> (#[trigger] es[a]).symbol != (#[trigger] es[b]).symbol,
        decreases elements.len() - j,
    {
        let mut i: usize = 0;
        while i < j
            invariant
                i <= j < elements.len(),
                es == element_views(elements@),
                forall|a: int| 0 <= a < i ==> (#[trigger] es[a]).symbol != es[j as int].symbol,
            decreases j - i,
        {
            if elements[i].symbol == elements[j].symbol {
                assert(es[i as int].symbol == es[j as int].symbol);
                return false;
            }
            i += 1;
        }
        j += 1;
    }
    true
}

impl PeriodicTable {
    /// What every table keeps: valid elements, no two of them with one symbol.
    #[verifier::type_invariant]
    spec fn well_formed(&self) -> bool {
        table_valid(element_views(self.elements@))
    }

    /// The table of the elements given, in their order.
    ///
    /// The elements are malformed, and no table is built, where one of them has no energy
    /// levels or no series, or two of them share a symbol.
    pub fn from_elements(elements: Vec<Element>) -> (r: Result<PeriodicTable, DataError>)
        ensures
            outcome(r) == if table_valid(element_views(elements@)) {
                Ok::<Seq<ElementView>, DataError>(element_views(elements@))
            } else {
                Err::<Seq<ElementView>, DataError>(DataError::Malformed)
            },
    {
        if all_valid(&elements) && all_distinct(&elements) {
            Ok(PeriodicTable { elements })
        } else {
            Err(DataError::Malformed)
        }
    }

    /// The table of the elements that the entries describe, in their order.
    ///
    /// The entries are malformed, and no table is built, where one of them describes no
    /// element (see [`Element::from_entry`]) or two of them share a symbol.
    pub fn load(entries: &Vec<Entry>) -> (r: Result<PeriodicTable, DataError>)
        ensures
            outcome(r) == loaded(entry_views(entries@)),
    {
        let ghost views = entry_views(entries@);
        let mut elements: Vec<Element> = Vec::new();
        let mut i: usize = 0;
        while i < entries.len()
            invariant
                i <= entries.len(),
                views == entry_views(entries@),
                elements.len() == i,
                forall|k: int|
                    0 <= k < i ==> element_of(#[trigger] views[k]) == Some(
                        element_views(elements@)[k],
                    ),
            decreases entries.len() - i,
        {
            match Element::from_entry(&entries[i]) {
                Ok(element) => {
                    elements.push(element);
                },
                Err(_) => {
                    proof {
                        let k = i as int;
                        assert(views[k] == entries[k]@);
                        if elements_of(views) is Some {
                            let es = elements_of(views).unwrap();
                            assert(element_of(views[k]) is Some);
                            assert(es[k] == element_of(views[k]).unwrap());
                            assert(!element_valid(es[k]));
                        }
                    }
                    return Err(DataError::Malformed);
                },
            }
            i += 1;
        }
        assert(elements_of(views) == Some(element_views(elements@))) by {
            assert(elements_of(views).unwrap() =~= element_views(elements@));
        }
        PeriodicTable::from_elements(elements)
    }

    /// The number of elements.
    pub fn len(&self) -> (r: usize)
        ensures
            r == self@.len(),
    {
        self.elements.len()
    }

    /// The elements, in the order in which the table was given them.
    pub fn elements(&self) -> (r: &Vec<Element>)
        ensures
            element_views(r@) == self@,
            table_valid(self@),
    {
        proof {
            use_type_invariant(self);
        }
        &self.elements
    }

    /// The element with the symbol. The match is exact: `"fe"` does not find `"Fe"`.
    pub fn lookup(&self, symbol: &str) -> (r: Result<&Element, NotFound>)
        ensures
            match r {
                Ok(element) => {
                    &&& element_for(self@, symbol@) == Some(element@)
                    &&& element@.symbol == symbol@
                    &&& self@.contains(element@)
                    &&& element_valid(element@)
                },
                Err(_) => !has_symbol(self@, symbol@),
            },
    {
        proof {
            use_type_invariant(self);
        }
        let ghost es = self@;
        let key = symbol.to_owned();
        let mut i: usize = 0;
        while i < self.elements.len()
            invariant
                i <= self.elements.len(),
                es == element_views(self.elements@),
                key@ == symbol@,
                table_valid(es),
                forall|k: int| 0 <= k < i ==> (#[trigger] es[k]).symbol != symbol@,
            decreases self.elements.len() - i,
        {
            if self.elements[i].symbol == key {
                proof {
                    lemma_present_symbol_is_found(es, i as int);
                }
                return Ok(&self.elements[i]);
            }
            i += 1;
        }
        Err(NotFound)
    }
}

/// Loading is a function of the entries alone: whatever two loads of the same entries
/// return, they fail alike or give tables that are equal element for element, field for
/// field.
pub proof fn lemma_loading_twice_agrees(
    entries: Seq<EntryView>,
    first: Result<PeriodicTable, DataError>,
    second: Result<PeriodicTable, DataError>,
)
    requires
        outcome(first) == loaded(entries),
        outcome(second) == loaded(entries),
    ensures
        outcome(first) == outcome(second),
        first matches Ok(a) ==> second matches Ok(b) && a@ == b@,
{
}

/// Looking up the symbol of an element of a table finds that element, and no other.
pub proof fn lemma_present_symbol_is_found(es: Seq<ElementView>, i: int)
    requires
        table_valid(es),
        0 <= i < es.len(),
    ensures
        element_for(es, es[i].symbol) == Some(es[i]),
{
    let symbol = es[i].symbol;
    assert(has_symbol(es, symbol));
    let c = choose|c: int| 0 <= c < es.len() && (#[trigger] es[c]).symbol == symbol;
    if c < i {
        assert(es[c].symbol != es[i].symbol);
    } else if i < c {
        assert(es[i].symbol != es[c].symbol);
    }
}

/// Looking up a symbol finds nothing exactly where no element of the table has the symbol;
/// what it finds otherwise is an element of the table with that symbol.
pub proof fn lemma_absent_symbol_is_not_found(es: Seq<ElementView>, symbol: Seq<char>)
    ensures
        element_for(es, symbol) is None <==> forall|i: int|
            0 <= i < es.len() ==> (#[trigger] es[i]).symbol != symbol,
        element_for(es, symbol) matches Some(e) ==> e.symbol == symbol && es.contains(e),
{
}

} // verus!
