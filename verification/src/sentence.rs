//! The sentences that present an element's attributes.
//!
//! Each attribute has one sentence. A list of energy levels is written with a comma after
//! every item but the last and the word "and" before the last, also where there are only
//! two items: `2, and 8`.

use vstd::prelude::*;
use vstd::string::StringExecFns;
use crate::attribute::{Attribute, AttributeView};
use crate::error::DataError;
use crate::text::{decimal, decimal_string};

verus! {

/// The characters of each text of a sequence.
pub open spec fn texts(items: Seq<String>) -> Seq<Seq<char>> {
    items.map_values(|s: String| s@)
}

/// The decimal notation of each number of a sequence.
pub open spec fn decimals(numbers: Seq<u64>) -> Seq<Seq<char>> {
    numbers.map_values(|n: u64| decimal(n as nat))
}

/// Every item, each followed by a comma and a space.
pub open spec fn enumerated(items: Seq<Seq<char>>) -> Seq<char>
    decreases items.len(),
{
    if items.len() == 0 {
        Seq::empty()
    } else {
        enumerated(items.drop_last()) + items.last() + ", "@
    }
}

/// The items as a list: a single item stands alone; of more, each but the last is followed by
/// a comma, and the last is preceded by "and". No items give the empty text.
pub open spec fn listing(items: Seq<Seq<char>>) -> Seq<char> {
    if items.len() == 0 {
        Seq::empty()
    } else if items.len() == 1 {
        items[0]
    } else {
        enumerated(items.drop_last()) + "and "@ + items.last()
    }
}

/// The sentence for an atomic number.
pub open spec fn atomic_number_sentence(name: Seq<char>, number: u64) -> Seq<char> {
    "The atomic number of "@ + name + " is "@ + decimal(number as nat) + "."@
}

/// The sentence for an atomic weight, given as decimal text.
pub open spec fn atomic_weight_sentence(name: Seq<char>, weight: Seq<char>) -> Seq<char> {
    "The atomic weight of "@ + name + " is "@ + weight + "."@
}

/// The sentence for energy levels, each given as text.
pub open spec fn energy_levels_sentence(name: Seq<char>, levels: Seq<Seq<char>>) -> Seq<char> {
    "The energy levels of "@ + name + " are "@ + listing(levels) + "."@
}

/// The sentence for an electronegativity, given as decimal text.
pub open spec fn electronegativity_sentence(name: Seq<char>, value: Seq<char>) -> Seq<char> {
    "The electronegativity of "@ + name + " is "@ + value + "."@
}

/// The sentence for a series.
pub open spec fn series_sentence(name: Seq<char>, series: Seq<char>) -> Seq<char> {
    "The element "@ + name + " is a member of the "@ + series + " series."@
}

/// The sentence for a date of discovery.
pub open spec fn date_discovered_sentence(name: Seq<char>, date: Seq<char>) -> Seq<char> {
    "The element "@ + name + " was discovered in "@ + date + "."@
}

/// The sentence for a discoverer.
pub open spec fn discoverer_sentence(name: Seq<char>, discoverer: Seq<char>) -> Seq<char> {
    "The person who discovered "@ + name + " is "@ + discoverer + "."@
}

/// The sentence for a group, or for the lack of one.
pub open spec fn group_sentence(name: Seq<char>, group: Option<u64>) -> Seq<char> {
    match group {
        Some(g) => "The element "@ + name + " is a member of group "@ + decimal(g as nat) + "."@,
        None => "The element "@ + name + " is not a member of any group."@,
    }
}

/// The sentence for a period.
pub open spec fn period_sentence(name: Seq<char>, period: u64) -> Seq<char> {
    "The element "@ + name + " is a member of period "@ + decimal(period as nat) + "."@
}

/// The sentence that presents one attribute of the element called `name`.
pub open spec fn sentence(name: Seq<char>, attribute: AttributeView) -> Seq<char> {
    match attribute {
        AttributeView::AtomicNumber(n) => atomic_number_sentence(name, n),
        AttributeView::AtomicWeight(w) => atomic_weight_sentence(name, w),
        AttributeView::EnergyLevels(levels) => energy_levels_sentence(name, decimals(levels)),
        AttributeView::Electronegativity(e) => electronegativity_sentence(name, e),
        AttributeView::Series(s) => series_sentence(name, s),
        AttributeView::DateDiscovered(d) => date_discovered_sentence(name, d),
        AttributeView::Discoverer(d) => discoverer_sentence(name, d),
        AttributeView::Group(g) => group_sentence(name, g),
        AttributeView::Period(p) => period_sentence(name, p),
    }
}

/// Puts a name and a value between the three fixed parts of a sentence.
fn compose(opening: &str, name: &str, middle: &str, value: &str, closing: &str) -> (r: String)
    ensures
        r@ == opening@ + name@ + middle@ + value@ + closing@,
{
    let mut r = String::from_str(opening);
    r.append(name);
    r.append(middle);
    r.append(value);
    r.append(closing);
    r
}

/// Writes each number in decimal notation.
fn decimal_strings(numbers: &Vec<u64>) -> (r: Vec<String>)
    ensures
        r.len() == numbers.len(),
        texts(r@) == decimals(numbers@),
{
    let mut r: Vec<String> = Vec::new();
    let mut i: usize = 0;
    while i < numbers.len()
        invariant
            i <= numbers.len(),
            r.len() == i,
            forall|k: int| 0 <= k < i ==> (#[trigger] r[k])@ == decimal(numbers[k] as nat),
        decreases numbers.len() - i,
    {
        r.push(decimal_string(numbers[i]));
        i += 1;
    }
    assert(texts(r@) =~= decimals(numbers@));
    r
}

/// Writes a list of at least one item.
fn listing_string(items: &Vec<String>) -> (r: String)
    requires
        items.len() > 0,
    ensures
        r@ == listing(texts(items@)),
{
    let ghost all = texts(items@);
    let last: usize = items.len() - 1;
    let mut r = String::new();
    if last > 0 {
        let mut i: usize = 0;
        while i < last
            invariant
                i <= last,
                last == items.len() - 1,
                all == texts(items@),
                r@ == enumerated(all.subrange(0, i as int)),
            decreases last - i,
        {
            r.append(items[i].as_str());
            r.append(", ");
            proof {
                let done = all.subrange(0, i + 1);
                assert(done.drop_last() =~= all.subrange(0, i as int));
                assert(done.last() == items[i as int]@);
            }
            i += 1;
        }
        assert(all.subrange(0, last as int) =~= all.drop_last());
        r.append("and ");
    }
    r.append(items[last].as_str());
    assert(r@ =~= listing(all));
    r
}

/// The sentence for the energy levels of the element called `name`, each level given as text.
///
/// There is no sentence for an empty list: an element without energy levels is malformed
/// data.
pub fn format_energy_levels(name: &str, levels: &Vec<String>) -> (r: Result<String, DataError>)
    ensures
        levels.len() == 0 ==> r == Err::<String, DataError>(DataError::Malformed),
        levels.len() > 0 ==> (r matches Ok(s) && s@ == energy_levels_sentence(
            name@,
            texts(levels@),
        )),
{
    if levels.len() == 0 {
        return Err(DataError::Malformed);
    }
    let list = listing_string(levels);
    Ok(compose("The energy levels of ", name, " are ", list.as_str(), "."))
}

/// Writes the sentence of an attribute of which there is one.
pub(crate) fn present(name: &str, attribute: &Attribute) -> (r: String)
    requires
        attribute@.presentable(),
    ensures
        r@ == sentence(name@, attribute@),
{
    match attribute {
        Attribute::AtomicNumber(n) => compose(
            "The atomic number of ",
            name,
            " is ",
            decimal_string(*n).as_str(),
            ".",
        ),
        Attribute::AtomicWeight(w) => compose(
            "The atomic weight of ",
            name,
            " is ",
            w.as_str(),
            ".",
        ),
        Attribute::EnergyLevels(levels) => {
            let items = decimal_strings(levels);
            let list = listing_string(&items);
            compose("The energy levels of ", name, " are ", list.as_str(), ".")
        },
        Attribute::Electronegativity(e) => compose(
            "The electronegativity of ",
            name,
            " is ",
            e.as_str(),
            ".",
        ),
        Attribute::Series(s) => compose(
            "The element ",
            name,
            " is a member of the ",
            s.as_str(),
            " series.",
        ),
        Attribute::DateDiscovered(d) => compose(
            "The element ",
            name,
            " was discovered in ",
            d.as_str(),
            ".",
        ),
        Attribute::Discoverer(d) => compose(
            "The person who discovered ",
            name,
            " is ",
            d.as_str(),
            ".",
        ),
        Attribute::Group(Some(g)) => compose(
            "The element ",
            name,
            " is a member of group ",
            decimal_string(*g).as_str(),
            ".",
        ),
        Attribute::Group(None) => {
            let mut r = String::from_str("The element ");
            r.append(name);
            r.append(" is not a member of any group.");
            r
        },
        Attribute::Period(p) => compose(
            "The element ",
            name,
            " is a member of period ",
            decimal_string(*p).as_str(),
            ".",
        ),
    }
}

/// The sentence that presents one attribute of the element called `name`.
///
/// Only an empty list of energy levels has no sentence: it is malformed data.
pub fn format(name: &str, attribute: &Attribute) -> (r: Result<String, DataError>)
    ensures
        !attribute@.presentable() ==> r == Err::<String, DataError>(DataError::Malformed),
        attribute@.presentable() ==> (r matches Ok(s) && s@ == sentence(name@, attribute@)),
{
    let empty = match attribute {
        Attribute::EnergyLevels(levels) => levels.len() == 0,
        _ => false,
    };
    if empty {
        Err(DataError::Malformed)
    } else {
        Ok(present(name, attribute))
    }
}

} // verus!
