use neurosim::neuroml::{
    apply_events, find_attribute, load_neuroml, BiophysicalProperties, Cell, LoadError,
    NeuroMLDocument, RawEvent, XmlAttr,
};

#[test]
fn document_new_is_empty() {
    let doc = NeuroMLDocument::new();
    assert_eq!(doc.id, "");
    assert!(doc.includes.is_none());
    assert!(doc.cells.is_none());
    assert!(doc.izhikevich_cells.is_none());
    assert!(doc.izhikevich2007_cells.is_none());
}

#[test]
fn empty_records_start_blank() {
    let cell = Cell::new();
    assert_eq!(cell.id, "");
    assert!(cell.metaid.is_none());
    assert!(cell.biophysical_properties.is_none());
    let bpp = BiophysicalProperties::new();
    assert_eq!(bpp.id, "");
    assert_eq!(bpp.membrane_properties.id, "");
    assert!(bpp.membrane_properties.channel_population.is_none());
    assert!(bpp.membrane_properties.channel_density.is_none());
}

#[test]
fn loads_document_id() {
    let mut doc = NeuroMLDocument::new();
    let r = load_neuroml("<neuroml id=\"NML2_FullCell\"></neuroml>", &mut doc);
    assert!(r.is_ok());
    assert_eq!(doc.id, "NML2_FullCell");
}

#[test]
fn loads_izhikevich_cell_attributes() {
    let text = "<neuroml id=\"n\">\
        <izhikevich id=\"iz0\" v0=\"-70\" thresh=\"30\" a=\"0.02\" b=\"0.2\" c=\"-65\" d=\"6\"/>\
        </neuroml>";
    let mut doc = NeuroMLDocument::new();
    assert!(load_neuroml(text, &mut doc).is_ok());
    let cells = doc.izhikevich_cells.as_ref().expect("izhikevich cells collected");
    assert_eq!(cells.len(), 1);
    assert_eq!(cells[0].id, "iz0");
    assert_eq!(cells[0].v0, "-70");
    assert_eq!(cells[0].thresh, "30");
    assert_eq!(cells[0].a, "0.02");
    assert_eq!(cells[0].b, "0.2");
    assert_eq!(cells[0].c, "-65");
    assert_eq!(cells[0].d, "6");
}

#[test]
fn loads_izhikevich2007_cell_attributes() {
    let text = "<neuroml id=\"n\">\
        <izhikevich2007 id=\"z\" v0=\"-60\" k=\"0.7\" vr=\"-60\" vt=\"-40\" vpeak=\"35\" \
         a=\"0.03\" b=\"-2\" c=\"-50\" d=\"100\"/>\
        </neuroml>";
    let mut doc = NeuroMLDocument::new();
    assert!(load_neuroml(text, &mut doc).is_ok());
    let cells = doc.izhikevich2007_cells.as_ref().expect("2007 cells collected");
    assert_eq!(cells.len(), 1);
    assert_eq!(cells[0].vpeak, "35");
    assert_eq!(cells[0].k, "0.7");
}

#[test]
fn loads_cell_with_membrane_channels() {
    let text = "<neuroml id=\"n\">\
        <cell id=\"c1\" metaid=\"m1\">\
        <biophysicalProperties id=\"bp1\">\
        <membraneProperties>\
        <channelPopulation id=\"p1\" ionChannel=\"na\" number=\"120\" erev=\"50\" ion=\"na\"/>\
        <channelDensity id=\"d1\" ionChannel=\"k\" erev=\"-77\" ion=\"k\"/>\
        </membraneProperties>\
        </biophysicalProperties>\
        </cell>\
        </neuroml>";
    let mut doc = NeuroMLDocument::new();
    assert!(load_neuroml(text, &mut doc).is_ok());
    let cells = doc.cells.as_ref().expect("cells collected");
    assert_eq!(cells.len(), 1);
    assert_eq!(cells[0].id, "c1");
    assert_eq!(cells[0].metaid.as_deref(), Some("m1"));
    let bpps = cells[0].biophysical_properties.as_ref().expect("biophysics collected");
    assert_eq!(bpps.len(), 1);
    assert_eq!(bpps[0].id, "bp1");
    let memb = &bpps[0].membrane_properties;
    let cps = memb.channel_population.as_ref().expect("populations collected");
    assert_eq!(cps.len(), 1);
    assert_eq!(cps[0].id, "p1");
    assert_eq!(cps[0].ion_channel, "na");
    assert_eq!(cps[0].number, "120");
    assert_eq!(cps[0].erev, "50");
    assert_eq!(cps[0].segment, None);
    assert_eq!(cps[0].ion, "na");
    let cds = memb.channel_density.as_ref().expect("densities collected");
    assert_eq!(cds.len(), 1);
    assert_eq!(cds[0].id, "d1");
    // a channelDensity without a segmentGroup defaults to "all"
    assert_eq!(cds[0].segment_group.as_deref(), Some("all"));
}

#[test]
fn includes_keep_every_attribute_pair() {
    let text = "<neuroml id=\"n\"><include href=\"NML2_SimpleIonChannel.nml\"/></neuroml>";
    let mut doc = NeuroMLDocument::new();
    assert!(load_neuroml(text, &mut doc).is_ok());
    let incs = doc.includes.as_ref().expect("includes collected");
    assert_eq!(incs.len(), 1);
    assert_eq!(incs[0].segment_group, "href");
    assert_eq!(incs[0].path, "NML2_SimpleIonChannel.nml");
}

#[test]
fn missing_izhikevich_attribute_is_reported() {
    let text = "<neuroml id=\"n\">\
        <izhikevich id=\"iz0\" v0=\"-70\" a=\"0.02\" b=\"0.2\" c=\"-65\" d=\"6\"/>\
        </neuroml>";
    let mut doc = NeuroMLDocument::new();
    match load_neuroml(text, &mut doc) {
        Err(LoadError::MissingAttribute { element, attribute }) => {
            assert_eq!(element, "izhikevich");
            assert_eq!(attribute, "thresh");
        },
        _ => panic!("expected a missing-attribute error"),
    }
    // the document keeps what was built before the failing element
    assert_eq!(doc.id, "n");
    assert!(doc.izhikevich_cells.is_none());
}

#[test]
fn biophysics_without_cell_is_reported() {
    let text = "<neuroml id=\"n\"><biophysicalProperties id=\"bp\"/></neuroml>";
    let mut doc = NeuroMLDocument::new();
    match load_neuroml(text, &mut doc) {
        Err(LoadError::MissingParent { element, parent }) => {
            assert_eq!(element, "biophysicalProperties");
            assert_eq!(parent, "cell");
        },
        _ => panic!("expected a missing-parent error"),
    }
}

#[test]
fn channel_population_outside_membrane_is_ignored() {
    let text = "<neuroml id=\"n\">\
        <cell id=\"c1\">\
        <channelPopulation id=\"p1\" ionChannel=\"na\" number=\"1\" erev=\"0\" ion=\"na\"/>\
        </cell>\
        </neuroml>";
    let mut doc = NeuroMLDocument::new();
    assert!(load_neuroml(text, &mut doc).is_ok());
    let cells = doc.cells.as_ref().expect("cells collected");
    assert!(cells[0].biophysical_properties.is_none());
}

#[test]
fn malformed_text_keeps_what_was_read() {
    let text = "<neuroml id=\"partial\"><cell id=\"c1\"></neuroml>";
    let mut doc = NeuroMLDocument::new();
    // a tokenization failure ends the walk without a configuration error
    assert!(load_neuroml(text, &mut doc).is_ok());
    assert_eq!(doc.id, "partial");
    assert_eq!(doc.cells.as_ref().expect("cells collected").len(), 1);
}

#[test]
fn missing_document_id_is_reported() {
    let mut doc = NeuroMLDocument::new();
    match load_neuroml("<neuroml></neuroml>", &mut doc) {
        Err(LoadError::MissingAttribute { element, attribute }) => {
            assert_eq!(element, "neuroml");
            assert_eq!(attribute, "id");
        },
        _ => panic!("expected a missing-attribute error"),
    }
    assert_eq!(doc.id, "");
}

#[test]
fn membrane_scope_outlives_its_cell() {
    // the builder never leaves membrane scope, so a later cell without
    // biophysics still routes channel elements to it — and fails for want
    // of a biophysical-properties record to attach to
    let text = "<neuroml id=\"n\">\
        <cell id=\"c1\">\
        <biophysicalProperties id=\"bp1\"><membraneProperties/></biophysicalProperties>\
        </cell>\
        <cell id=\"c2\"/>\
        <channelPopulation id=\"p\" ionChannel=\"na\" number=\"1\" erev=\"0\" ion=\"na\"/>\
        </neuroml>";
    let mut doc = NeuroMLDocument::new();
    match load_neuroml(text, &mut doc) {
        Err(LoadError::MissingParent { element, parent }) => {
            assert_eq!(element, "channelPopulation");
            assert_eq!(parent, "biophysicalProperties");
        },
        _ => panic!("expected a missing-parent error"),
    }
}

#[test]
fn apply_events_stops_at_a_failure_event() {
    let events = vec![
        RawEvent::Start {
            name: "neuroml".to_owned(),
            attributes: vec![XmlAttr { name: "id".to_owned(), value: "doc".to_owned() }],
        },
        RawEvent::Failure,
        RawEvent::Start {
            name: "cell".to_owned(),
            attributes: vec![XmlAttr { name: "id".to_owned(), value: "late".to_owned() }],
        },
    ];
    let mut doc = NeuroMLDocument::new();
    assert!(apply_events(&events, &mut doc).is_ok());
    assert_eq!(doc.id, "doc");
    // nothing after the failure is read
    assert!(doc.cells.is_none());
}

#[test]
fn find_attribute_takes_the_last_match() {
    let attrs = vec![
        XmlAttr { name: "id".to_owned(), value: "first".to_owned() },
        XmlAttr { name: "other".to_owned(), value: "x".to_owned() },
        XmlAttr { name: "id".to_owned(), value: "second".to_owned() },
    ];
    assert_eq!(find_attribute("id", &attrs).as_deref(), Some("second"));
    assert_eq!(find_attribute("other", &attrs).as_deref(), Some("x"));
    assert_eq!(find_attribute("missing", &attrs), None);
}
