//! Tests of the instrument metadata layer: controlled-vocabulary term
//! lookups, component term resolution, and configuration bookkeeping.

use mzdata::instrument::{
    Component, ComponentType, ControlledVocabulary, DetectorTypeTerm, InstrumentConfiguration,
    IonizationTypeTerm, MassAnalyzerTerm, Param,
};

fn ms_param(accession: u32) -> Param {
    Param {
        name: String::new(),
        value: String::new(),
        accession: Some(accession),
        controlled_vocabulary: Some(ControlledVocabulary::MS),
    }
}

#[test]
fn term_lookup_round_trips_accessions() {
    let q = MassAnalyzerTerm::from_accession(1000081).expect("quadrupole");
    assert_eq!(q, MassAnalyzerTerm::Quadrupole);
    assert_eq!(q.accession(), 1000081);
    assert_eq!(q.name(), "quadrupole");
    assert_eq!(MassAnalyzerTerm::from_accession(42), None);

    let esi = IonizationTypeTerm::from_accession(1000073).expect("electrospray");
    assert_eq!(esi.name(), "electrospray ionization");
    let pm = DetectorTypeTerm::from_accession(1000116).expect("photomultiplier");
    assert_eq!(pm.name(), "photomultiplier");
}

#[test]
fn component_resolves_first_recognized_term() {
    let comp = Component {
        component_type: ComponentType::Analyzer,
        order: 0,
        params: vec![
            Param {
                name: String::new(),
                value: String::new(),
                accession: Some(1000081),
                controlled_vocabulary: None,
            },
            ms_param(1000484),
        ],
    };
    // The first parameter is not in the MS vocabulary, so the orbitrap wins.
    assert_eq!(comp.mass_analyzer(), Some(MassAnalyzerTerm::Orbitrap));
    assert_eq!(comp.name(), Some("orbitrap"));
    assert_eq!(comp.detector(), None);
    assert_eq!(comp.ionization_type(), None);
}

#[test]
fn parent_types_map_to_vocabulary_params() {
    let comp = Component {
        component_type: ComponentType::Analyzer,
        order: 0,
        params: vec![ms_param(1000081)],
    };
    let parents = comp.parent_types();
    assert_eq!(parents.len(), 1);
    assert_eq!(parents[0].accession, Some(1000443));
    assert_eq!(parents[0].name, "mass analyzer type");
    assert_eq!(
        parents[0].controlled_vocabulary,
        Some(ControlledVocabulary::MS)
    );

    let unknown = Component {
        component_type: ComponentType::Unknown,
        order: 0,
        params: vec![ms_param(1000081)],
    };
    assert!(unknown.parent_types().is_empty());
}

#[test]
fn configuration_orders_its_components() {
    let mut config = InstrumentConfiguration {
        components: Vec::new(),
        params: Vec::new(),
        software_reference: String::new(),
        id: 7,
    };
    assert!(config.is_empty());
    config.new_component(ComponentType::IonSource);
    config.new_component(ComponentType::Analyzer);
    config.push(Component {
        component_type: ComponentType::Detector,
        order: 99,
        params: Vec::new(),
    });
    assert_eq!(config.len(), 3);
    assert!(!config.is_empty());
    let last = config.last().expect("a last component");
    assert_eq!(last.component_type, ComponentType::Detector);
    // `push` overwrites the order field with the position.
    assert_eq!(last.order, 2);
    let kinds: Vec<ComponentType> = config.iter().iter().map(|c| c.component_type).collect();
    assert_eq!(
        kinds,
        vec![
            ComponentType::IonSource,
            ComponentType::Analyzer,
            ComponentType::Detector
        ]
    );
}
