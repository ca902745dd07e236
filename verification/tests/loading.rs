use chemicli::element::{create_periodic_table, exec, get_members, ElementsArgs};
use chemicli::error::DataError;
use chemicli::source::{Entry, Field};
use chemicli::table::{Element, PeriodicTable};

const SOURCE: &str = "{
    \"Ne\": {\"element_name\": \"Neon\", \"atomic_number\": 10, \"atomic_weight\": 20.1797,
        \"energy_levels\": [2, 8], \"electronegativity\": null, \"series\": \"Noble Gas\",
        \"date_discovered\": \"1898\", \"discoverer\": \"Sir William Ramsay\", \"group\": 18,
        \"period\": 2},
    \"Fe\": {\"element_name\": \"Iron\", \"atomic_number\": 26, \"atomic_weight\": 55.845,
        \"energy_levels\": [2, 8, 14, 2], \"electronegativity\": 1.83,
        \"series\": \"Transition Metal\", \"date_discovered\": \"Ancient\",
        \"discoverer\": \"Unknown\", \"group\": 8, \"period\": 4},
    \"He\": {\"element_name\": \"Helium\", \"atomic_number\": 2, \"atomic_weight\": 4.002602,
        \"energy_levels\": [2], \"series\": \"Noble Gas\", \"date_discovered\": \"1868\",
        \"discoverer\": \"Pierre Janssen\", \"group\": 18, \"period\": 1},
    \"La\": {\"element_name\": \"Lanthanum\", \"atomic_number\": 57, \"atomic_weight\": 138.90547,
        \"energy_levels\": [2, 8, 18, 18, 9, 2], \"electronegativity\": 1.1,
        \"series\": \"Lanthanide\", \"date_discovered\": \"1839\",
        \"discoverer\": \"Carl Gustaf Mosander\", \"period\": 6},
    \"Og\": {\"element_name\": \"Oganesson\", \"atomic_number\": 118, \"atomic_weight\": 294,
        \"energy_levels\": [2, 8, 18, 32, 32, 18, 8], \"electronegativity\": 0,
        \"series\": \"Noble Gas\", \"date_discovered\": \"2002\",
        \"discoverer\": \"Joint Institute for Nuclear Research\", \"group\": null, \"period\": 7}
}";

fn one_entry(fields: &str) -> String {
    format!("{{\"H\": {{{}}}}}", fields)
}

const HYDROGEN: &str = "\"element_name\": \"Hydrogen\", \"atomic_number\": 1, \
    \"atomic_weight\": 1.008, \"energy_levels\": [1], \"electronegativity\": 2.2, \
    \"series\": \"Nonmetal\", \"date_discovered\": \"1766\", \"discoverer\": \"Henry Cavendish\", \
    \"group\": 1, \"period\": 1";

fn hydrogen() -> Element {
    Element {
        symbol: "H".to_string(),
        name: "Hydrogen".to_string(),
        atomic_number: 1,
        atomic_weight: "1.008".to_string(),
        energy_levels: vec![1],
        electronegativity: "2.2".to_string(),
        series: "Nonmetal".to_string(),
        date_discovered: "1766".to_string(),
        discoverer: "Henry Cavendish".to_string(),
        group: Some(1),
        period: 1,
    }
}

fn hydrogen_entry() -> Entry {
    Entry {
        symbol: "H".to_string(),
        element_name: Field::Text("Hydrogen".to_string()),
        atomic_number: Field::Number { text: "1".to_string(), whole: Some(1) },
        atomic_weight: Field::Number { text: "1.008".to_string(), whole: None },
        energy_levels: Field::Integers(vec![1]),
        electronegativity: Field::Number { text: "2.2".to_string(), whole: None },
        series: Field::Text("Nonmetal".to_string()),
        date_discovered: Field::Text("1766".to_string()),
        discoverer: Field::Text("Henry Cavendish".to_string()),
        group: Field::Number { text: "1".to_string(), whole: Some(1) },
        period: Field::Number { text: "1".to_string(), whole: Some(1) },
    }
}

fn asking_everything(symbol: &str) -> ElementsArgs {
    ElementsArgs {
        atomic_symbol: symbol.to_string(),
        atomic_number: true,
        atomic_weight: true,
        energy_levels: true,
        electronegativity: true,
        series: true,
        date_discovered: true,
        discoverer: true,
        group: true,
        period: true,
    }
}

#[test]
fn load_reads_every_field() {
    let table = create_periodic_table(&one_entry(HYDROGEN)).unwrap();
    assert_eq!(table.len(), 1);
    assert_eq!(table.lookup("H"), Ok(&hydrogen()));
}

#[test]
fn load_reads_every_entry_in_the_order_of_the_document() {
    let table = create_periodic_table(SOURCE).unwrap();
    let symbols: Vec<&str> = table.elements().iter().map(|e| e.symbol.as_str()).collect();
    assert_eq!(symbols, vec!["Fe", "He", "La", "Ne", "Og"]);
    let iron = table.lookup("Fe").unwrap();
    assert_eq!(iron.name, "Iron");
    assert_eq!(iron.atomic_number, 26);
    assert_eq!(iron.atomic_weight, "55.845");
    assert_eq!(iron.energy_levels, vec![2, 8, 14, 2]);
    assert_eq!(iron.electronegativity, "1.83");
    assert_eq!(iron.series, "Transition Metal");
    assert_eq!(iron.date_discovered, "Ancient");
    assert_eq!(iron.discoverer, "Unknown");
    assert_eq!(iron.group, Some(8));
    assert_eq!(iron.period, 4);
}

#[test]
fn load_takes_the_symbol_from_the_key() {
    let table = create_periodic_table(SOURCE).unwrap();
    for element in table.elements() {
        assert_eq!(table.lookup(&element.symbol), Ok(element));
    }
}

#[test]
fn load_takes_a_missing_group_as_none() {
    let table = create_periodic_table(SOURCE).unwrap();
    assert_eq!(table.lookup("La").unwrap().group, None);
    assert_eq!(table.lookup("Og").unwrap().group, None);
    assert_eq!(table.lookup("Ne").unwrap().group, Some(18));
}

#[test]
fn load_takes_a_missing_electronegativity_as_zero() {
    let table = create_periodic_table(SOURCE).unwrap();
    assert_eq!(table.lookup("He").unwrap().electronegativity, "0");
    assert_eq!(table.lookup("Ne").unwrap().electronegativity, "0");
    assert_eq!(table.lookup("Og").unwrap().electronegativity, "0");
    assert_eq!(table.lookup("La").unwrap().electronegativity, "1.1");
}

#[test]
fn load_writes_a_whole_weight_without_a_fraction() {
    let table = create_periodic_table(SOURCE).unwrap();
    assert_eq!(table.lookup("Og").unwrap().atomic_weight, "294");
    assert_eq!(table.lookup("He").unwrap().atomic_weight, "4.002602");
    let text = one_entry(&HYDROGEN.replace("1.008", "1.0"));
    assert_eq!(create_periodic_table(&text).unwrap().lookup("H").unwrap().atomic_weight, "1");
}

#[test]
fn load_of_an_empty_object_is_an_empty_table() {
    let table = create_periodic_table("{}").unwrap();
    assert_eq!(table.len(), 0);
}

#[test]
fn load_of_text_that_is_not_json_is_unreadable() {
    assert_eq!(create_periodic_table(""), Err(DataError::Unreadable));
    assert_eq!(create_periodic_table("{"), Err(DataError::Unreadable));
    assert_eq!(create_periodic_table("{\"H\": }"), Err(DataError::Unreadable));
    assert_eq!(create_periodic_table("periodic table"), Err(DataError::Unreadable));
    assert_eq!(create_periodic_table("{} {}"), Err(DataError::Unreadable));
}

#[test]
fn load_of_a_document_that_is_no_object_is_malformed() {
    assert_eq!(create_periodic_table("[]"), Err(DataError::Malformed));
    assert_eq!(create_periodic_table("null"), Err(DataError::Malformed));
    assert_eq!(create_periodic_table("26"), Err(DataError::Malformed));
    assert_eq!(create_periodic_table("\"Fe\""), Err(DataError::Malformed));
}

#[test]
fn load_of_an_entry_that_is_no_object_is_malformed() {
    assert_eq!(create_periodic_table("{\"H\": 1}"), Err(DataError::Malformed));
    assert_eq!(create_periodic_table("{\"H\": null}"), Err(DataError::Malformed));
    assert_eq!(create_periodic_table("{\"H\": {}}"), Err(DataError::Malformed));
}

#[test]
fn load_with_a_required_field_missing_is_malformed() {
    for key in [
        "element_name",
        "atomic_number",
        "atomic_weight",
        "energy_levels",
        "series",
        "date_discovered",
        "discoverer",
        "period",
    ] {
        let text = one_entry(&HYDROGEN.replace(&format!("\"{}\"", key), "\"other\""));
        assert_eq!(create_periodic_table(&text), Err(DataError::Malformed));
    }
}

#[test]
fn load_with_an_optional_field_missing_succeeds() {
    for key in ["electronegativity", "group"] {
        let text = one_entry(&HYDROGEN.replace(&format!("\"{}\"", key), "\"other\""));
        assert!(create_periodic_table(&text).is_ok());
    }
}

#[test]
fn load_with_a_field_of_the_wrong_kind_is_malformed() {
    let wrong = [
        ("\"Hydrogen\"", "1"),
        ("\"atomic_number\": 1", "\"atomic_number\": -1"),
        ("\"atomic_number\": 1", "\"atomic_number\": 1.5"),
        ("\"atomic_number\": 1", "\"atomic_number\": \"1\""),
        ("1.008", "\"1.008\""),
        ("[1]", "1"),
        ("[1]", "[1, \"2\"]"),
        ("[1]", "[1, -2]"),
        ("[1]", "[1.5]"),
        ("2.2", "\"high\""),
        ("2.2", "true"),
        ("\"Nonmetal\"", "null"),
        ("\"Nonmetal\"", "7"),
        ("\"1766\"", "1766"),
        ("\"Henry Cavendish\"", "[\"Henry Cavendish\"]"),
        ("\"group\": 1", "\"group\": \"1\""),
        ("\"group\": 1", "\"group\": 1.5"),
        ("\"group\": 1", "\"group\": -1"),
        ("\"period\": 1", "\"period\": null"),
        ("\"period\": 1", "\"period\": {}"),
    ];
    for (from, to) in wrong {
        let fields = HYDROGEN.replace(from, to);
        assert_ne!(fields, HYDROGEN);
        assert_eq!(create_periodic_table(&one_entry(&fields)), Err(DataError::Malformed));
    }
}

#[test]
fn load_without_energy_levels_is_malformed() {
    let text = one_entry(&HYDROGEN.replace("[1]", "[]"));
    assert_eq!(create_periodic_table(&text), Err(DataError::Malformed));
}

#[test]
fn load_with_an_empty_series_is_malformed() {
    let text = one_entry(&HYDROGEN.replace("\"Nonmetal\"", "\"\""));
    assert_eq!(create_periodic_table(&text), Err(DataError::Malformed));
}

#[test]
fn load_gives_no_partial_table() {
    let text = SOURCE.replace("\"atomic_number\": 118", "\"atomic_number\": \"118\"");
    assert_ne!(text, SOURCE);
    assert_eq!(create_periodic_table(&text), Err(DataError::Malformed));
}

#[test]
fn loading_twice_gives_equal_tables() {
    let first = create_periodic_table(SOURCE).unwrap();
    let second = create_periodic_table(SOURCE).unwrap();
    assert_eq!(first, second);
    assert_eq!(first.elements(), second.elements());
}

#[test]
fn loading_twice_fails_alike() {
    assert_eq!(create_periodic_table("{"), create_periodic_table("{"));
    assert_eq!(create_periodic_table("[]"), create_periodic_table("[]"));
}

#[test]
fn loaded_table_answers_queries() {
    let table = create_periodic_table(SOURCE).unwrap();
    assert_eq!(
        exec(&asking_everything("He"), &table),
        Ok(vec![
            "The atomic number of Helium is 2.".to_string(),
            "The atomic weight of Helium is 4.002602.".to_string(),
            "The energy levels of Helium are 2.".to_string(),
            "The electronegativity of Helium is 0.".to_string(),
            "The element Helium is a member of the Noble Gas series.".to_string(),
            "The element Helium was discovered in 1868.".to_string(),
            "The person who discovered Helium is Pierre Janssen.".to_string(),
            "The element Helium is a member of group 18.".to_string(),
            "The element Helium is a member of period 1.".to_string(),
        ])
    );
    assert_eq!(
        get_members("Noble Gas".to_string(), &table),
        vec!["Helium".to_string(), "Neon".to_string(), "Oganesson".to_string()]
    );
}

#[test]
fn entry_with_every_field_describes_an_element() {
    assert_eq!(Element::from_entry(&hydrogen_entry()), Ok(hydrogen()));
}

#[test]
fn entry_without_group_and_electronegativity_describes_an_element() {
    let mut entry = hydrogen_entry();
    entry.group = Field::Absent;
    entry.electronegativity = Field::Absent;
    let mut expected = hydrogen();
    expected.group = None;
    expected.electronegativity = "0".to_string();
    assert_eq!(Element::from_entry(&entry), Ok(expected));
}

#[test]
fn entry_with_a_whole_number_for_the_weight_describes_an_element() {
    let mut entry = hydrogen_entry();
    entry.atomic_weight = Field::Number { text: "1".to_string(), whole: Some(1) };
    let mut expected = hydrogen();
    expected.atomic_weight = "1".to_string();
    assert_eq!(Element::from_entry(&entry), Ok(expected));
}

#[test]
fn entry_with_a_field_absent_is_malformed() {
    let mut entry = hydrogen_entry();
    entry.element_name = Field::Absent;
    assert_eq!(Element::from_entry(&entry), Err(DataError::Malformed));
    let mut entry = hydrogen_entry();
    entry.atomic_number = Field::Absent;
    assert_eq!(Element::from_entry(&entry), Err(DataError::Malformed));
    let mut entry = hydrogen_entry();
    entry.atomic_weight = Field::Absent;
    assert_eq!(Element::from_entry(&entry), Err(DataError::Malformed));
    let mut entry = hydrogen_entry();
    entry.energy_levels = Field::Absent;
    assert_eq!(Element::from_entry(&entry), Err(DataError::Malformed));
    let mut entry = hydrogen_entry();
    entry.series = Field::Absent;
    assert_eq!(Element::from_entry(&entry), Err(DataError::Malformed));
    let mut entry = hydrogen_entry();
    entry.date_discovered = Field::Absent;
    assert_eq!(Element::from_entry(&entry), Err(DataError::Malformed));
    let mut entry = hydrogen_entry();
    entry.discoverer = Field::Absent;
    assert_eq!(Element::from_entry(&entry), Err(DataError::Malformed));
    let mut entry = hydrogen_entry();
    entry.period = Field::Absent;
    assert_eq!(Element::from_entry(&entry), Err(DataError::Malformed));
}

#[test]
fn entry_with_a_field_of_the_wrong_kind_is_malformed() {
    let mut entry = hydrogen_entry();
    entry.atomic_number = Field::Number { text: "1.5".to_string(), whole: None };
    assert_eq!(Element::from_entry(&entry), Err(DataError::Malformed));
    let mut entry = hydrogen_entry();
    entry.group = Field::Text("1".to_string());
    assert_eq!(Element::from_entry(&entry), Err(DataError::Malformed));
    let mut entry = hydrogen_entry();
    entry.group = Field::Number { text: "1.5".to_string(), whole: None };
    assert_eq!(Element::from_entry(&entry), Err(DataError::Malformed));
    let mut entry = hydrogen_entry();
    entry.electronegativity = Field::Other;
    assert_eq!(Element::from_entry(&entry), Err(DataError::Malformed));
    let mut entry = hydrogen_entry();
    entry.energy_levels = Field::Other;
    assert_eq!(Element::from_entry(&entry), Err(DataError::Malformed));
    let mut entry = hydrogen_entry();
    entry.series = Field::Integers(vec![1]);
    assert_eq!(Element::from_entry(&entry), Err(DataError::Malformed));
}

#[test]
fn entry_without_energy_levels_or_series_is_malformed() {
    let mut entry = hydrogen_entry();
    entry.energy_levels = Field::Integers(vec![]);
    assert_eq!(Element::from_entry(&entry), Err(DataError::Malformed));
    let mut entry = hydrogen_entry();
    entry.series = Field::Text(String::new());
    assert_eq!(Element::from_entry(&entry), Err(DataError::Malformed));
}

#[test]
fn entries_load_into_a_table() {
    let mut helium = hydrogen_entry();
    helium.symbol = "He".to_string();
    helium.element_name = Field::Text("Helium".to_string());
    let table = PeriodicTable::load(&vec![hydrogen_entry(), helium]).unwrap();
    assert_eq!(table.len(), 2);
    assert_eq!(table.lookup("H"), Ok(&hydrogen()));
    assert_eq!(table.lookup("He").unwrap().name, "Helium");
}

#[test]
fn entries_with_one_symbol_twice_are_malformed() {
    let entries = vec![hydrogen_entry(), hydrogen_entry()];
    assert_eq!(PeriodicTable::load(&entries), Err(DataError::Malformed));
}

#[test]
fn entries_with_one_malformed_entry_are_malformed() {
    let mut broken = hydrogen_entry();
    broken.symbol = "He".to_string();
    broken.period = Field::Other;
    assert_eq!(
        PeriodicTable::load(&vec![hydrogen_entry(), broken]),
        Err(DataError::Malformed)
    );
}

#[test]
fn no_entries_load_into_an_empty_table() {
    assert_eq!(PeriodicTable::load(&vec![]).unwrap().len(), 0);
}

#[test]
fn load_writes_a_weight_without_an_exponent() {
    let text = one_entry(&HYDROGEN.replace("1.008", "1.5e3"));
    assert_eq!(create_periodic_table(&text).unwrap().lookup("H").unwrap().atomic_weight, "1500");
    let text = one_entry(&HYDROGEN.replace("1.008", "25e-4"));
    assert_eq!(create_periodic_table(&text).unwrap().lookup("H").unwrap().atomic_weight, "0.0025");
}

#[test]
fn load_keeps_one_entry_of_a_key_that_stands_twice() {
    let second = HYDROGEN.replace("1.008", "2.5");
    let text = format!("{{\"H\": {{{}}}, \"H\": {{{}}}}}", HYDROGEN, second);
    let table = create_periodic_table(&text).unwrap();
    assert_eq!(table.len(), 1);
    assert_eq!(table.lookup("H").unwrap().atomic_weight, "2.5");
}

#[test]
fn load_accepts_zero_where_a_number_is_asked_for() {
    let fields = HYDROGEN
        .replace("\"atomic_number\": 1", "\"atomic_number\": 0")
        .replace("1.008", "0.0")
        .replace("[1]", "[0]");
    let table = create_periodic_table(&one_entry(&fields)).unwrap();
    let element = table.lookup("H").unwrap();
    assert_eq!(element.atomic_number, 0);
    assert_eq!(element.atomic_weight, "0");
    assert_eq!(element.energy_levels, vec![0]);
}
