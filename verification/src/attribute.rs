//! The attributes of an element that a query can ask for.

use vstd::prelude::*;

verus! {

/// The name of an attribute.
#[derive(Debug, Clone, Copy, PartialEq, Eq, Structural)]
pub enum AttributeKind {
    AtomicNumber,
    AtomicWeight,
    EnergyLevels,
    Electronegativity,
    Series,
    DateDiscovered,
    Discoverer,
    Group,
    Period,
}

/// The names of all attributes, in the order in which the attributes are presented.
pub open spec fn kinds_in_order() -> Seq<AttributeKind> {
    seq![
        AttributeKind::AtomicNumber,
        AttributeKind::AtomicWeight,
        AttributeKind::EnergyLevels,
        AttributeKind::Electronegativity,
        AttributeKind::Series,
        AttributeKind::DateDiscovered,
        AttributeKind::Discoverer,
        AttributeKind::Group,
        AttributeKind::Period,
    ]
}

impl AttributeKind {
    /// The names of all attributes, in the order in which the attributes are presented.
    pub fn in_order() -> (r: Vec<AttributeKind>)
        ensures
            r@ == kinds_in_order(),
    {
        let mut r: Vec<AttributeKind> = Vec::new();
        r.push(AttributeKind::AtomicNumber);
        r.push(AttributeKind::AtomicWeight);
        r.push(AttributeKind::EnergyLevels);
        r.push(AttributeKind::Electronegativity);
        r.push(AttributeKind::Series);
        r.push(AttributeKind::DateDiscovered);
        r.push(AttributeKind::Discoverer);
        r.push(AttributeKind::Group);
        r.push(AttributeKind::Period);
        assert(r@ =~= kinds_in_order());
        r
    }
}

/// One attribute of an element together with its value.
///
/// Weights and electronegativities are carried as decimal text: the engine only ever prints
/// them.
#[derive(Debug, PartialEq, Eq)]
pub enum Attribute {
    AtomicNumber(u64),
    AtomicWeight(String),
    EnergyLevels(Vec<u64>),
    Electronegativity(String),
    Series(String),
    DateDiscovered(String),
    Discoverer(String),
    /// `None` for an element outside the eighteen groups.
    Group(Option<u64>),
    Period(u64),
}

/// An [`Attribute`] as a mathematical value.
pub enum AttributeView {
    AtomicNumber(u64),
    AtomicWeight(Seq<char>),
    EnergyLevels(Seq<u64>),
    Electronegativity(Seq<char>),
    Series(Seq<char>),
    DateDiscovered(Seq<char>),
    Discoverer(Seq<char>),
    Group(Option<u64>),
    Period(u64),
}

impl AttributeView {
    /// The name of this attribute.
    pub open spec fn kind(self) -> AttributeKind {
        match self {
            AttributeView::AtomicNumber(_) => AttributeKind::AtomicNumber,
            AttributeView::AtomicWeight(_) => AttributeKind::AtomicWeight,
            AttributeView::EnergyLevels(_) => AttributeKind::EnergyLevels,
            AttributeView::Electronegativity(_) => AttributeKind::Electronegativity,
            AttributeView::Series(_) => AttributeKind::Series,
            AttributeView::DateDiscovered(_) => AttributeKind::DateDiscovered,
            AttributeView::Discoverer(_) => AttributeKind::Discoverer,
            AttributeView::Group(_) => AttributeKind::Group,
            AttributeView::Period(_) => AttributeKind::Period,
        }
    }

    /// Whether a sentence can be made of this attribute: every attribute but an empty list of
    /// energy levels.
    pub open spec fn presentable(self) -> bool {
        self matches AttributeView::EnergyLevels(levels) ==> levels.len() > 0
    }
}

impl View for Attribute {
    type V = AttributeView;

    open spec fn view(&self) -> AttributeView {
        match *self {
            Attribute::AtomicNumber(n) => AttributeView::AtomicNumber(n),
            Attribute::AtomicWeight(w) => AttributeView::AtomicWeight(w@),
            Attribute::EnergyLevels(levels) => AttributeView::EnergyLevels(levels@),
            Attribute::Electronegativity(e) => AttributeView::Electronegativity(e@),
            Attribute::Series(s) => AttributeView::Series(s@),
            Attribute::DateDiscovered(d) => AttributeView::DateDiscovered(d@),
            Attribute::Discoverer(d) => AttributeView::Discoverer(d@),
            Attribute::Group(g) => AttributeView::Group(g),
            Attribute::Period(p) => AttributeView::Period(p),
        }
    }
}

impl Attribute {
    /// The name of this attribute.
    pub fn kind(&self) -> (r: AttributeKind)
        ensures
            r == self@.kind(),
    {
        match self {
            Attribute::AtomicNumber(_) => AttributeKind::AtomicNumber,
            Attribute::AtomicWeight(_) => AttributeKind::AtomicWeight,
            Attribute::EnergyLevels(_) => AttributeKind::EnergyLevels,
            Attribute::Electronegativity(_) => AttributeKind::Electronegativity,
            Attribute::Series(_) => AttributeKind::Series,
            Attribute::DateDiscovered(_) => AttributeKind::DateDiscovered,
            Attribute::Discoverer(_) => AttributeKind::Discoverer,
            Attribute::Group(_) => AttributeKind::Group,
            Attribute::Period(_) => AttributeKind::Period,
        }
    }
}

} // verus!
