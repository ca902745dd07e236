//! Queries: what is asked of the table, and the sentences that answer.

use vstd::prelude::*;
use crate::attribute::{kinds_in_order, Attribute, AttributeKind, AttributeView};
use crate::error::{DataError, NotFound};
use crate::json::{json_document, parse};
use crate::sentence::{present, sentence, texts};
use crate::source::{entries_model, read_entries};
use crate::table::{
    attribute_of, element_valid, element_views, element_for, loaded, outcome, Element, ElementView,
    PeriodicTable,
};

verus! {

/// A query: the atomic symbol of an element, and for each attribute whether it is asked for.
#[derive(Debug, Clone)]
pub struct ElementsArgs {
    pub atomic_symbol: String,
    pub atomic_number: bool,
    pub atomic_weight: bool,
    pub energy_levels: bool,
    pub electronegativity: bool,
    pub series: bool,
    pub date_discovered: bool,
    pub discoverer: bool,
    pub group: bool,
    pub period: bool,
}

/// The attributes of one element that a query asked for, in the order in which they are
/// presented.
#[derive(Debug, PartialEq, Eq)]
pub struct SelectedAttributes {
    pub attributes: Vec<Attribute>,
}

/// The views of a sequence of attributes.
pub open spec fn attribute_views(attributes: Seq<Attribute>) -> Seq<AttributeView> {
    attributes.map_values(|a: Attribute| a@)
}

impl View for SelectedAttributes {
    type V = Seq<AttributeView>;

    open spec fn view(&self) -> Seq<AttributeView> {
        attribute_views(self.attributes@)
    }
}

/// Whether a query asks for the attribute of that name.
pub open spec fn requested(request: ElementsArgs, kind: AttributeKind) -> bool {
    match kind {
        AttributeKind::AtomicNumber => request.atomic_number,
        AttributeKind::AtomicWeight => request.atomic_weight,
        AttributeKind::EnergyLevels => request.energy_levels,
        AttributeKind::Electronegativity => request.electronegativity,
        AttributeKind::Series => request.series,
        AttributeKind::DateDiscovered => request.date_discovered,
        AttributeKind::Discoverer => request.discoverer,
        AttributeKind::Group => request.group,
        AttributeKind::Period => request.period,
    }
}

/// The attributes, of those named, that a query asks for of an element: each with the
/// element's value, in the order of the names.
pub open spec fn selection_among(
    kinds: Seq<AttributeKind>,
    e: ElementView,
    request: ElementsArgs,
) -> Seq<AttributeView> {
    kinds.filter(|kind: AttributeKind| requested(request, kind)).map_values(
        |kind: AttributeKind| attribute_of(e, kind),
    )
}

/// The attributes that a query asks for of an element, in the order of presentation.
pub open spec fn selection(e: ElementView, request: ElementsArgs) -> Seq<AttributeView> {
    selection_among(kinds_in_order(), e, request)
}

/// The sentences that answer a query about an element: one for each attribute asked for.
pub open spec fn sentences(e: ElementView, request: ElementsArgs) -> Seq<Seq<char>> {
    selection(e, request).map_values(|a: AttributeView| sentence(e.name, a))
}

/// The answer of a table to a query: the sentences about the element with the symbol asked
/// for, or `NotFound` where the table has no such element.
pub open spec fn report(es: Seq<ElementView>, request: ElementsArgs) -> Result<
    Seq<Seq<char>>,
    NotFound,
> {
    match element_for(es, request.atomic_symbol@) {
        Some(e) => Ok(sentences(e, request)),
        None => Err(NotFound),
    }
}

/// The names of the elements of a series, in the order of the elements.
pub open spec fn members(es: Seq<ElementView>, series: Seq<char>) -> Seq<Seq<char>> {
    es.filter(|e: ElementView| e.series == series).map_values(|e: ElementView| e.name)
}

/// What loading a text gives: `Unreadable` for a text that is no JSON document, `Malformed`
/// for a document that is no object, and otherwise what loading the entries of the object
/// gives.
pub open spec fn table_of_text(text: Seq<char>) -> Result<Seq<ElementView>, DataError> {
    match json_document(text) {
        None => Err(DataError::Unreadable),
        Some(document) => match entries_model(document) {
            None => Err(DataError::Malformed),
            Some(entries) => loaded(entries),
        },
    }
}

impl ElementsArgs {
    /// Whether the query asks for the attribute of that name.
    pub fn asks(&self, kind: AttributeKind) -> (r: bool)
        ensures
            r == requested(*self, kind),
    {
        match kind {
            AttributeKind::AtomicNumber => self.atomic_number,
            AttributeKind::AtomicWeight => self.atomic_weight,
            AttributeKind::EnergyLevels => self.energy_levels,
            AttributeKind::Electronegativity => self.electronegativity,
            AttributeKind::Series => self.series,
            AttributeKind::DateDiscovered => self.date_discovered,
            AttributeKind::Discoverer => self.discoverer,
            AttributeKind::Group => self.group,
            AttributeKind::Period => self.period,
        }
    }
}

/// One more name adds its attribute to a selection if the query asks for it, and nothing
/// if it does not.
proof fn lemma_selection_grows(kinds: Seq<AttributeKind>, e: ElementView, request: ElementsArgs)
    requires
        kinds.len() > 0,
    ensures
        selection_among(kinds, e, request) == if requested(request, kinds.last()) {
            selection_among(kinds.drop_last(), e, request).push(attribute_of(e, kinds.last()))
        } else {
            selection_among(kinds.drop_last(), e, request)
        },
{
    reveal(Seq::filter);
    if requested(request, kinds.last()) {
        assert(selection_among(kinds, e, request) =~= selection_among(
            kinds.drop_last(),
            e,
            request,
        ).push(attribute_of(e, kinds.last())));
    }
}

/// One more element adds its name to the members of a series if it is of that series, and
/// nothing if it is not.
proof fn lemma_members_grow(es: Seq<ElementView>, series: Seq<char>)
    requires
        es.len() > 0,
    ensures
        members(es, series) == if es.last().series == series {
            members(es.drop_last(), series).push(es.last().name)
        } else {
            members(es.drop_last(), series)
        },
{
    reveal(Seq::filter);
    if es.last().series == series {
        assert(members(es, series) =~= members(es.drop_last(), series).push(es.last().name));
    }
}

/// The attributes of the element that the query asks for, each with the element's value, in
/// the order of presentation.
///
/// An attribute that is not asked for is not in the result at all.
pub fn select(element: &Element, request: &ElementsArgs) -> (r: SelectedAttributes)
    ensures
        r@ == selection(element@, *request),
{
    let kinds = AttributeKind::in_order();
    let mut attributes: Vec<Attribute> = Vec::new();
    let mut i: usize = 0;
    proof {
        reveal(Seq::filter);
        assert(kinds@.subrange(0, 0) =~= Seq::empty());
        assert(attribute_views(attributes@) =~= selection_among(
            kinds@.subrange(0, 0),
            element@,
            *request,
        ));
    }
    while i < kinds.len()
        invariant
            i <= kinds.len(),
            attribute_views(attributes@) == selection_among(
                kinds@.subrange(0, i as int),
                element@,
                *request,
            ),
        decreases kinds.len() - i,
    {
        let ghost before = attribute_views(attributes@);
        if request.asks(kinds[i]) {
            attributes.push(element.attribute(kinds[i]));
            assert(attribute_views(attributes@) =~= before.push(
                attribute_of(element@, kinds[i as int]),
            ));
        }
        proof {
            let next = kinds@.subrange(0, i + 1);
            assert(next.drop_last() =~= kinds@.subrange(0, i as int));
            lemma_selection_grows(next, element@, *request);
        }
        i += 1;
    }
    assert(kinds@.subrange(0, kinds.len() as int) =~= kinds@);
    SelectedAttributes { attributes }
}

/// Answers a query: one sentence for each attribute asked for, about the element with the
/// symbol asked for, in the order atomic number, atomic weight, energy levels,
/// electronegativity, series, date of discovery, discoverer, group, period.
///
/// Fails, with no sentence at all, where the table has no element with that symbol.
pub fn exec(args: &ElementsArgs, table: &PeriodicTable) -> (r: Result<Vec<String>, NotFound>)
    ensures
        match r {
            Ok(lines) => report(table@, *args) == Ok::<Seq<Seq<char>>, NotFound>(texts(lines@)),
            Err(_) => report(table@, *args) is Err,
        },
{
    let element = match table.lookup(args.atomic_symbol.as_str()) {
        Ok(element) => element,
        Err(error) => {
            return Err(error);
        },
    };
    let selected = select(element, args);
    let ghost wanted = selection(element@, *args);
    proof {
        lemma_selection_is_presentable(element@, *args);
    }
    let mut lines: Vec<String> = Vec::new();
    let mut i: usize = 0;
    while i < selected.attributes.len()
        invariant
            i <= selected.attributes.len(),
            lines.len() == i,
            wanted == attribute_views(selected.attributes@),
            forall|k: int| 0 <= k < wanted.len() ==> (#[trigger] wanted[k]).presentable(),
            forall|k: int|
                0 <= k < i ==> (#[trigger] lines[k])@ == sentence(element@.name, wanted[k]),
        decreases selected.attributes.len() - i,
    {
        assert(wanted[i as int] == selected.attributes[i as int]@);
        lines.push(present(element.name.as_str(), &selected.attributes[i]));
        i += 1;
    }
    assert(texts(lines@) =~= sentences(element@, *args));
    Ok(lines)
}

/// Loads the table from the text of a data source: a JSON object that holds under each
/// atomic symbol an object with the keys `element_name`, `atomic_number`, `atomic_weight`,
/// `energy_levels`, `electronegativity`, `series`, `date_discovered`, `discoverer`, `group`
/// and `period`.
///
/// The source is unreadable where the text is no JSON document, and malformed where the
/// document is no such object (see [`PeriodicTable::load`]). Either the whole table is
/// loaded or none of it.
pub fn create_periodic_table(text: &str) -> (r: Result<PeriodicTable, DataError>)
    ensures
        outcome(r) == table_of_text(text@),
{
    match parse(text) {
        Err(_) => Err(DataError::Unreadable),
        Ok(document) => match read_entries(&document) {
            None => Err(DataError::Malformed),
            Some(entries) => PeriodicTable::load(&entries),
        },
    }
}

/// The names of the elements whose series is exactly `series`, in the order of the table.
/// There are none where no element is of that series.
pub fn get_members(series: String, p_table: &PeriodicTable) -> (r: Vec<String>)
    ensures
        texts(r@) == members(p_table@, series@),
{
    let elements = p_table.elements();
    let ghost es = p_table@;
    let mut names: Vec<String> = Vec::new();
    let mut i: usize = 0;
    proof {
        reveal(Seq::filter);
        assert(es.subrange(0, 0) =~= Seq::empty());
        assert(texts(names@) =~= members(es.subrange(0, 0), series@));
    }
    while i < elements.len()
        invariant
            i <= elements.len(),
            es == element_views(elements@),
            texts(names@) == members(es.subrange(0, i as int), series@),
        decreases elements.len() - i,
    {
        let ghost before = texts(names@);
        if elements[i].series == series {
            names.push(elements[i].name.clone());
            assert(texts(names@) =~= before.push(elements[i as int].name@));
        }
        proof {
            let next = es.subrange(0, i + 1);
            assert(next.drop_last() =~= es.subrange(0, i as int));
            assert(next.last() == elements[i as int]@);
            lemma_members_grow(next, series@);
        }
        i += 1;
    }
    assert(es.subrange(0, elements.len() as int) =~= es);
    names
}

/// Every attribute of a selection is asked for, and has the value that the element has for
/// it.
pub proof fn lemma_selection_kinds(e: ElementView, request: ElementsArgs)
    ensures
        forall|i: int|
            0 <= i < selection(e, request).len() ==> {
                let a = #[trigger] selection(e, request)[i];
                requested(request, a.kind()) && a == attribute_of(e, a.kind())
            },
{
    let asked = kinds_in_order().filter(|kind: AttributeKind| requested(request, kind));
    assert forall|i: int| 0 <= i < selection(e, request).len() implies {
        let a = #[trigger] selection(e, request)[i];
        requested(request, a.kind()) && a == attribute_of(e, a.kind())
    } by {
        kinds_in_order().lemma_filter_pred(|kind: AttributeKind| requested(request, kind), i);
        assert(selection(e, request)[i] == attribute_of(e, asked[i]));
    }
}

/// Whatever a query asks for of a valid element can be presented.
pub proof fn lemma_selection_is_presentable(e: ElementView, request: ElementsArgs)
    requires
        element_valid(e),
    ensures
        forall|i: int|
            0 <= i < selection(e, request).len() ==> (#[trigger] selection(
                e,
                request,
            )[i]).presentable(),
{
    lemma_selection_kinds(e, request);
}

/// An attribute that a query does not ask for is nowhere in what is selected, whatever the
/// element.
pub proof fn lemma_unrequested_is_omitted(
    e: ElementView,
    request: ElementsArgs,
    kind: AttributeKind,
)
    requires
        !requested(request, kind),
    ensures
        forall|i: int|
            0 <= i < selection(e, request).len() ==> (#[trigger] selection(e, request)[i]).kind()
                != kind,
{
    lemma_selection_kinds(e, request);
}

/// An attribute that a query asks for is in what is selected, with the element's value.
pub proof fn lemma_requested_is_selected(e: ElementView, request: ElementsArgs, kind: AttributeKind)
    requires
        requested(request, kind),
    ensures
        selection(e, request).contains(attribute_of(e, kind)),
{
    let order = kinds_in_order();
    let asked = |kind: AttributeKind| requested(request, kind);
    let of = |kind: AttributeKind| attribute_of(e, kind);
    let i = choose|i: int| 0 <= i < order.len() && order[i] == kind;
    assert(order[0] == AttributeKind::AtomicNumber);
    assert(order[1] == AttributeKind::AtomicWeight);
    assert(order[2] == AttributeKind::EnergyLevels);
    assert(order[3] == AttributeKind::Electronegativity);
    assert(order[4] == AttributeKind::Series);
    assert(order[5] == AttributeKind::DateDiscovered);
    assert(order[6] == AttributeKind::Discoverer);
    assert(order[7] == AttributeKind::Group);
    assert(order[8] == AttributeKind::Period);
    assert(0 <= i < order.len() && order[i] == kind);
    order.lemma_filter_contains(asked, i);
    let j = choose|j: int| 0 <= j < order.filter(asked).len() && order.filter(asked)[j] == kind;
    assert(selection(e, request)[j] == of(order.filter(asked)[j]));
}

/// The members of a series are the names of the elements of that series, and no others.
pub proof fn lemma_members_exact(es: Seq<ElementView>, series: Seq<char>, name: Seq<char>)
    ensures
        members(es, series).contains(name) <==> exists|i: int|
            0 <= i < es.len() && (#[trigger] es[i]).series == series && es[i].name == name,
{
    let of_series = |e: ElementView| e.series == series;
    let kept = es.filter(of_series);
    if members(es, series).contains(name) {
        let j = choose|j: int| 0 <= j < members(es, series).len() && members(es, series)[j] == name;
        assert(kept[j].name == name);
        es.lemma_filter_pred(of_series, j);
        assert(kept.contains(kept[j]));
        es.lemma_filter_contains_rev(of_series, kept[j]);
        let i = choose|i: int| 0 <= i < es.len() && es[i] == kept[j];
        assert(es[i].series == series && es[i].name == name);
    }
    if exists|i: int|
        0 <= i < es.len() && (#[trigger] es[i]).series == series && es[i].name == name {
        let i = choose|i: int|
            0 <= i < es.len() && (#[trigger] es[i]).series == series && es[i].name == name;
        es.lemma_filter_contains(of_series, i);
        let j = choose|j: int| 0 <= j < kept.len() && kept[j] == es[i];
        assert(members(es, series)[j] == name);
    }
}

/// The members of a series are the same, in the same order, on every call: whatever two
/// calls of [`get_members`] return for one table and one series, they hold the same names.
pub proof fn lemma_members_twice_agree(
    es: Seq<ElementView>,
    series: Seq<char>,
    first: Vec<String>,
    second: Vec<String>,
)
    requires
        texts(first@) == members(es, series),
        texts(second@) == members(es, series),
    ensures
        first@.len() == second@.len(),
        forall|i: int| 0 <= i < first@.len() ==> (#[trigger] first@[i])@ == second@[i]@,
{
    assert(texts(first@).len() == first@.len());
    assert(texts(second@).len() == second@.len());
    assert forall|i: int| 0 <= i < first@.len() implies (#[trigger] first@[i])@ == second@[i]@ by {
        assert(texts(first@)[i] == first@[i]@);
        assert(texts(second@)[i] == second@[i]@);
    }
}

/// Loading is a function of the text alone: whatever two loads of one text return, they
/// fail alike or give tables that are equal element for element, field for field.
pub proof fn lemma_loading_text_twice_agrees(
    text: Seq<char>,
    first: Result<PeriodicTable, DataError>,
    second: Result<PeriodicTable, DataError>,
)
    requires
        outcome(first) == table_of_text(text),
        outcome(second) == table_of_text(text),
    ensures
        outcome(first) == outcome(second),
        first matches Ok(a) ==> second matches Ok(b) && a@ == b@,
{
}

} // verus!
