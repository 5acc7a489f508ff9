//! Typed records for a NeuroML model description, and the builder that
//! fills them from the model file's XML events.
//!
//! The XML text itself is tokenized by the `xml` crate behind one trusted
//! wrapper; everything that interprets the resulting event stream — which
//! elements are recognised, which attributes each one requires, where a
//! record is attached — is verified here.  The builder collects records and
//! reports a missing attribute or a misplaced element as a
//! [`LoadError`]; it does not validate the model file beyond that.

use vstd::prelude::*;

verus! {

// ---------------------------------------------------------------------------
// XML events, as plain values
// ---------------------------------------------------------------------------

/// One attribute of an XML start tag.
pub struct XmlAttr {
    pub name: String,
    pub value: String,
}

/// Ghost image of an [`XmlAttr`].
pub ghost struct AttrV {
    pub name: Seq<char>,
    pub value: Seq<char>,
}

impl View for XmlAttr {
    type V = AttrV;

    open spec fn view(&self) -> AttrV {
        AttrV { name: self.name@, value: self.value@ }
    }
}

/// One event of the XML token stream, reduced to what the builder reads:
/// element names, attributes, and whether tokenization failed.
pub enum RawEvent {
    /// A start tag, with its local name and attributes in document order.
    Start { name: String, attributes: Vec<XmlAttr> },
    /// An end tag, with its local name.
    End { name: String },
    /// Any other well-formed event (text, comments, document markers).
    Other,
    /// A tokenization error; the stream ends here.
    Failure,
}

/// Ghost image of a [`RawEvent`].
pub ghost enum EvV {
    Start { name: Seq<char>, attributes: Seq<AttrV> },
    End { name: Seq<char> },
    Other,
    Failure,
}

impl View for RawEvent {
    type V = EvV;

    open spec fn view(&self) -> EvV {
        match self {
            RawEvent::Start { name, attributes } => EvV::Start {
                name: name@,
                attributes: attributes@.map_values(|a: XmlAttr| a@),
            },
            RawEvent::End { name } => EvV::End { name: name@ },
            RawEvent::Other => EvV::Other,
            RawEvent::Failure => EvV::Failure,
        }
    }
}

/// The view of a whole event list.
pub open spec fn events_view(events: Seq<RawEvent>) -> Seq<EvV> {
    events.map_values(|e: RawEvent| e@)
}

/// The XML event stream of a document text.  XML tokenization is a function
/// of the text alone; this names its result.
pub uninterp spec fn xml_events_of(text: Seq<char>) -> Seq<EvV>;

/// Relies on `xml::reader::EventReader`: pulling every event of the
/// document text, in document order, until `EndDocument` or the first
/// tokenization error.  Each event is reduced to its local names and
/// attribute strings.
#[verifier::external_body]
fn read_xml_events(text: &str) -> (r: Vec<RawEvent>)
    ensures
        events_view(r@) == xml_events_of(text@),
{
    xml::reader::EventReader::from_str(text).into_iter().map(|ev| match ev {
        Ok(xml::reader::XmlEvent::StartElement { name, attributes, .. }) => RawEvent::Start {
            name: name.local_name,
            attributes: attributes
                .into_iter()
                .map(|a| XmlAttr { name: a.name.local_name, value: a.value })
                .collect(),
        },
        Ok(xml::reader::XmlEvent::EndElement { name }) => RawEvent::End { name: name.local_name },
        Ok(_) => RawEvent::Other,
        Err(_) => RawEvent::Failure,
    }).collect()
}

// ---------------------------------------------------------------------------
// Document records
// ---------------------------------------------------------------------------

/// One `<include>` attribute pair, kept as the attribute's name and value.
pub struct IncludeType {
    pub segment_group: String,
    pub path: String,
}

/// Extracellular bath properties; carries no data yet.
pub struct ExtracellularProperties {

}

/// Intracellular medium properties; carries no data yet.
pub struct IntracellularProperties {

}

/// A cell morphology; carries no data yet.
pub struct Morphology {

}

/// A generic ion channel; carries no data yet.
pub struct IonChannel {

}

/// A Hodgkin-Huxley ion channel; carries no data yet.
pub struct IonChannelHH {

}

/// A voltage-shifted ion channel; carries no data yet.
pub struct IonChannelVshift {

}

/// A kinetic-scheme ion channel; carries no data yet.
pub struct IonChannelKS {

}

/// A network description; carries no data yet.
pub struct Network {

}

/// A LEMS component type; carries no data yet.
pub struct ComponentType {

}

/// The raw parameter record of an `<izhikevich>` cell, attribute for
/// attribute as the file states them.
pub struct IzhikevichCell {
    pub id: String,
    pub v0: String,
    pub thresh: String,
    pub a: String,
    pub b: String,
    pub c: String,
    pub d: String,
}

/// The raw parameter record of an `<izhikevich2007>` cell.
pub struct Izhikevich2007Cell {
    pub id: String,
    pub v0: String,
    pub k: String,
    pub vr: String,
    pub vt: String,
    pub vpeak: String,
    pub a: String,
    pub b: String,
    pub c: String,
    pub d: String,
}

/// One `<channelPopulation>` of a membrane.
pub struct ChannelPopulation {
    pub id: String,
    pub ion_channel: String,
    pub number: String,
    pub erev: String,
    pub segment: Option<String>,
    pub ion: String,
}

/// One `<channelDensity>` of a membrane.
pub struct ChannelDensity {
    pub id: String,
    pub ion_channel: String,
    pub erev: String,
    pub segment_group: Option<String>,
    pub ion: String,
}

/// A specific-capacitance entry; carries no data yet.
pub struct SpecificCapacitance {

}

/// The membrane properties collected under one biophysical-properties
/// element.
pub struct MembraneProperties {
    pub id: String,
    pub channel_population: Option<Vec<ChannelPopulation>>,
    pub channel_density: Option<Vec<ChannelDensity>>,
    pub specific_capacitance: Option<Vec<SpecificCapacitance>>,
}

/// One `<biophysicalProperties>` element of a cell.
pub struct BiophysicalProperties {
    pub id: String,
    pub membrane_properties: MembraneProperties,
}

/// One `<cell>` element.
pub struct Cell {
    pub id: String,
    pub metaid: Option<String>,
    pub biophysical_properties: Option<Vec<BiophysicalProperties>>,
}

/// The root record of one NeuroML model description.  A collection field
/// stays `None` until its first element is seen.
pub struct NeuroMLDocument {
    pub id: String,
    pub includes: Option<Vec<IncludeType>>,
    pub extracellular_properties: Option<Vec<ExtracellularProperties>>,
    pub intracellular_properties: Option<Vec<IntracellularProperties>>,
    pub cells: Option<Vec<Cell>>,
    pub izhikevich_cells: Option<Vec<IzhikevichCell>>,
    pub izhikevich2007_cells: Option<Vec<Izhikevich2007Cell>>,
    pub morphology: Option<Vec<Morphology>>,
    pub ion_channel: Option<Vec<IonChannel>>,
    pub ion_channel_hh: Option<Vec<IonChannelHH>>,
    pub ion_channel_vshift: Option<Vec<IonChannel>>,
    pub ion_channel_ks: Option<Vec<IonChannelKS>>,
    pub network: Option<Vec<IonChannelHH>>,
    pub component_type: Option<Vec<ComponentType>>,
}

// ---------------------------------------------------------------------------
// Ghost images of the records
// ---------------------------------------------------------------------------

/// Ghost image of an [`IncludeType`].
#[verifier::ext_equal]
pub ghost struct IncludeV {
    pub segment_group: Seq<char>,
    pub path: Seq<char>,
}

/// Ghost image of an [`IzhikevichCell`].
#[verifier::ext_equal]
pub ghost struct IzhikevichCellV {
    pub id: Seq<char>,
    pub v0: Seq<char>,
    pub thresh: Seq<char>,
    pub a: Seq<char>,
    pub b: Seq<char>,
    pub c: Seq<char>,
    pub d: Seq<char>,
}

/// Ghost image of an [`Izhikevich2007Cell`].
#[verifier::ext_equal]
pub ghost struct Izhikevich2007CellV {
    pub id: Seq<char>,
    pub v0: Seq<char>,
    pub k: Seq<char>,
    pub vr: Seq<char>,
    pub vt: Seq<char>,
    pub vpeak: Seq<char>,
    pub a: Seq<char>,
    pub b: Seq<char>,
    pub c: Seq<char>,
    pub d: Seq<char>,
}

/// Ghost image of a [`ChannelPopulation`].
#[verifier::ext_equal]
pub ghost struct ChannelPopulationV {
    pub id: Seq<char>,
    pub ion_channel: Seq<char>,
    pub number: Seq<char>,
    pub erev: Seq<char>,
    pub segment: Option<Seq<char>>,
    pub ion: Seq<char>,
}

/// Ghost image of a [`ChannelDensity`].
#[verifier::ext_equal]
pub ghost struct ChannelDensityV {
    pub id: Seq<char>,
    pub ion_channel: Seq<char>,
    pub erev: Seq<char>,
    pub segment_group: Option<Seq<char>>,
    pub ion: Seq<char>,
}

/// Ghost image of a [`MembraneProperties`].  Data-free entries are kept as
/// a count.
#[verifier::ext_equal]
pub ghost struct MembranePropertiesV {
    pub id: Seq<char>,
    pub channel_population: Option<Seq<ChannelPopulationV>>,
    pub channel_density: Option<Seq<ChannelDensityV>>,
    pub specific_capacitance: Option<nat>,
}

/// Ghost image of a [`BiophysicalProperties`].
#[verifier::ext_equal]
pub ghost struct BiophysicalPropertiesV {
    pub id: Seq<char>,
    pub membrane_properties: MembranePropertiesV,
}

/// Ghost image of a [`Cell`].
#[verifier::ext_equal]
pub ghost struct CellV {
    pub id: Seq<char>,
    pub metaid: Option<Seq<char>>,
    pub biophysical_properties: Option<Seq<BiophysicalPropertiesV>>,
}

/// Ghost image of a [`NeuroMLDocument`].  Collections of data-free records
/// are kept as counts.
#[verifier::ext_equal]
pub ghost struct DocV {
    pub id: Seq<char>,
    pub includes: Option<Seq<IncludeV>>,
    pub extracellular_properties: Option<nat>,
    pub intracellular_properties: Option<nat>,
    pub cells: Option<Seq<CellV>>,
    pub izhikevich_cells: Option<Seq<IzhikevichCellV>>,
    pub izhikevich2007_cells: Option<Seq<Izhikevich2007CellV>>,
    pub morphology: Option<nat>,
    pub ion_channel: Option<nat>,
    pub ion_channel_hh: Option<nat>,
    pub ion_channel_vshift: Option<nat>,
    pub ion_channel_ks: Option<nat>,
    pub network: Option<nat>,
    pub component_type: Option<nat>,
}

/// The count image of an optional collection of data-free records.
pub open spec fn opt_count<T>(o: Option<Vec<T>>) -> Option<nat> {
    match o {
        Option::None => Option::None,
        Option::Some(v) => Option::Some(v@.len() as nat),
    }
}

/// The view image of an optional string.
pub open spec fn opt_seq(o: Option<String>) -> Option<Seq<char>> {
    match o {
        Option::None => Option::None,
        Option::Some(s) => Option::Some(s@),
    }
}

impl View for IncludeType {
    type V = IncludeV;

    open spec fn view(&self) -> IncludeV {
        IncludeV { segment_group: self.segment_group@, path: self.path@ }
    }
}

impl View for IzhikevichCell {
    type V = IzhikevichCellV;

    open spec fn view(&self) -> IzhikevichCellV {
        IzhikevichCellV {
            id: self.id@,
            v0: self.v0@,
            thresh: self.thresh@,
            a: self.a@,
            b: self.b@,
            c: self.c@,
            d: self.d@,
        }
    }
}

impl View for Izhikevich2007Cell {
    type V = Izhikevich2007CellV;

    open spec fn view(&self) -> Izhikevich2007CellV {
        Izhikevich2007CellV {
            id: self.id@,
            v0: self.v0@,
            k: self.k@,
            vr: self.vr@,
            vt: self.vt@,
            vpeak: self.vpeak@,
            a: self.a@,
            b: self.b@,
            c: self.c@,
            d: self.d@,
        }
    }
}

impl View for ChannelPopulation {
    type V = ChannelPopulationV;

    open spec fn view(&self) -> ChannelPopulationV {
        ChannelPopulationV {
            id: self.id@,
            ion_channel: self.ion_channel@,
            number: self.number@,
            erev: self.erev@,
            segment: opt_seq(self.segment),
            ion: self.ion@,
        }
    }
}

impl View for ChannelDensity {
    type V = ChannelDensityV;

    open spec fn view(&self) -> ChannelDensityV {
        ChannelDensityV {
            id: self.id@,
            ion_channel: self.ion_channel@,
            erev: self.erev@,
            segment_group: opt_seq(self.segment_group),
            ion: self.ion@,
        }
    }
}

impl View for MembraneProperties {
    type V = MembranePropertiesV;

    open spec fn view(&self) -> MembranePropertiesV {
        MembranePropertiesV {
            id: self.id@,
            channel_population: match self.channel_population {
                Option::None => Option::None,
                Option::Some(v) => Option::Some(v@.map_values(|x: ChannelPopulation| x@)),
            },
            channel_density: match self.channel_density {
                Option::None => Option::None,
                Option::Some(v) => Option::Some(v@.map_values(|x: ChannelDensity| x@)),
            },
            specific_capacitance: opt_count(self.specific_capacitance),
        }
    }
}

impl View for BiophysicalProperties {
    type V = BiophysicalPropertiesV;

    open spec fn view(&self) -> BiophysicalPropertiesV {
        BiophysicalPropertiesV { id: self.id@, membrane_properties: self.membrane_properties@ }
    }
}

impl View for Cell {
    type V = CellV;

    open spec fn view(&self) -> CellV {
        CellV {
            id: self.id@,
            metaid: opt_seq(self.metaid),
            biophysical_properties: match self.biophysical_properties {
                Option::None => Option::None,
                Option::Some(v) => Option::Some(v@.map_values(|x: BiophysicalProperties| x@)),
            },
        }
    }
}

impl View for NeuroMLDocument {
    type V = DocV;

    open spec fn view(&self) -> DocV {
        DocV {
            id: self.id@,
            includes: match self.includes {
                Option::None => Option::None,
                Option::Some(v) => Option::Some(v@.map_values(|x: IncludeType| x@)),
            },
            extracellular_properties: opt_count(self.extracellular_properties),
            intracellular_properties: opt_count(self.intracellular_properties),
            cells: match self.cells {
                Option::None => Option::None,
                Option::Some(v) => Option::Some(v@.map_values(|x: Cell| x@)),
            },
            izhikevich_cells: match self.izhikevich_cells {
                Option::None => Option::None,
                Option::Some(v) => Option::Some(v@.map_values(|x: IzhikevichCell| x@)),
            },
            izhikevich2007_cells: match self.izhikevich2007_cells {
                Option::None => Option::None,
                Option::Some(v) => Option::Some(v@.map_values(|x: Izhikevich2007Cell| x@)),
            },
            morphology: opt_count(self.morphology),
            ion_channel: opt_count(self.ion_channel),
            ion_channel_hh: opt_count(self.ion_channel_hh),
            ion_channel_vshift: opt_count(self.ion_channel_vshift),
            ion_channel_ks: opt_count(self.ion_channel_ks),
            network: opt_count(self.network),
            component_type: opt_count(self.component_type),
        }
    }
}

impl NeuroMLDocument {
    /// An empty document: no identifier, nothing collected yet.
    pub fn new() -> (r: Self)
        ensures
            r@ == (DocV {
                id: Seq::<char>::empty(),
                includes: Option::None,
                extracellular_properties: Option::None,
                intracellular_properties: Option::None,
                cells: Option::None,
                izhikevich_cells: Option::None,
                izhikevich2007_cells: Option::None,
                morphology: Option::None,
                ion_channel: Option::None,
                ion_channel_hh: Option::None,
                ion_channel_vshift: Option::None,
                ion_channel_ks: Option::None,
                network: Option::None,
                component_type: Option::None,
            }),
    {
        let r = NeuroMLDocument {
            id: String::new(),
            includes: Option::None,
            extracellular_properties: Option::None,
            intracellular_properties: Option::None,
            cells: Option::None,
            izhikevich_cells: Option::None,
            izhikevich2007_cells: Option::None,
            morphology: Option::None,
            ion_channel: Option::None,
            ion_channel_hh: Option::None,
            ion_channel_vshift: Option::None,
            ion_channel_ks: Option::None,
            network: Option::None,
            component_type: Option::None,
        };
        proof {
            assert(r@ =~= (DocV {
                id: Seq::<char>::empty(),
                includes: Option::None,
                extracellular_properties: Option::None,
                intracellular_properties: Option::None,
                cells: Option::None,
                izhikevich_cells: Option::None,
                izhikevich2007_cells: Option::None,
                morphology: Option::None,
                ion_channel: Option::None,
                ion_channel_hh: Option::None,
                ion_channel_vshift: Option::None,
                ion_channel_ks: Option::None,
                network: Option::None,
                component_type: Option::None,
            }));
        }
        r
    }
}

// ---------------------------------------------------------------------------
// Attribute lookup
// ---------------------------------------------------------------------------

/// The value of the last attribute named `name`, if any.
pub open spec fn find_attr(attrs: Seq<AttrV>, name: Seq<char>) -> Option<Seq<char>>
    decreases attrs.len(),
{
    if attrs.len() == 0 {
        None
    } else if attrs.last().name == name {
        Some(attrs.last().value)
    } else {
        find_attr(attrs.drop_last(), name)
    }
}

/// Compares a collected string with a literal.
fn str_eq(a: &String, b: &str) -> (r: bool)
    ensures
        r == (a@ == b@),
{
    let owned: String = b.to_owned();
    a.eq(&owned)
}

/// Looks an attribute up by name; the last one wins, as in the reference
/// event walk.
pub fn find_attribute(name: &str, attrs: &Vec<XmlAttr>) -> (r: Option<String>)
    ensures
        match r {
            Some(v) => find_attr(attrs@.map_values(|a: XmlAttr| a@), name@) == Some(v@),
            None => find_attr(attrs@.map_values(|a: XmlAttr| a@), name@) is None,
        },
{
    let ghost attrs_v = attrs@.map_values(|a: XmlAttr| a@);
    let mut ret: Option<String> = None;
    let mut i: usize = 0;
    while i < attrs.len()
        invariant
            i <= attrs.len(),
            attrs_v == attrs@.map_values(|a: XmlAttr| a@),
            match ret {
                Some(v) => find_attr(attrs_v.take(i as int), name@) == Some(v@),
                None => find_attr(attrs_v.take(i as int), name@) is None,
            },
        decreases attrs.len() - i,
    {
        proof {
            assert(attrs_v.take(i as int + 1).drop_last() =~= attrs_v.take(i as int));
            assert(attrs_v.take(i as int + 1).last() == attrs_v[i as int]);
        }
        if str_eq(&attrs[i].name, name) {
            ret = Some(attrs[i].value.clone());
        }
        i = i + 1;
    }
    proof {
        assert(attrs_v.take(attrs@.len() as int) =~= attrs_v);
    }
    ret
}

// ---------------------------------------------------------------------------
// Configuration errors
// ---------------------------------------------------------------------------

/// A configuration error of the model description: construction fails fast
/// on the first one, naming the offending element and field.
pub enum LoadError {
    /// `element` lacks the required attribute `attribute`.
    MissingAttribute { element: String, attribute: String },
    /// `element` appeared without an enclosing `parent` to attach to.
    MissingParent { element: String, parent: String },
}

/// Ghost image of a [`LoadError`].
pub ghost enum ErrV {
    MissingAttribute { element: Seq<char>, attribute: Seq<char> },
    MissingParent { element: Seq<char>, parent: Seq<char> },
}

impl View for LoadError {
    type V = ErrV;

    open spec fn view(&self) -> ErrV {
        match self {
            LoadError::MissingAttribute { element, attribute } => ErrV::MissingAttribute {
                element: element@,
                attribute: attribute@,
            },
            LoadError::MissingParent { element, parent } => ErrV::MissingParent {
                element: element@,
                parent: parent@,
            },
        }
    }
}

// ---------------------------------------------------------------------------
// The builder's transition relation
// ---------------------------------------------------------------------------

/// Which element the builder is currently inside, as far as it cares: the
/// document at large, a `<biophysicalProperties>`, or a
/// `<membraneProperties>` under one.
#[derive(Debug, PartialEq, Eq, Copy, Clone, Structural)]
pub enum Scope {
    Document,
    Biophysical,
    Membrane,
}

/// The builder's whole state between two events.
#[verifier::ext_equal]
pub ghost struct LoadState {
    pub doc: DocV,
    pub scope: Scope,
    pub err: Option<ErrV>,
    pub stopped: bool,
}

/// The builder's state on an untouched event stream.
pub open spec fn init_state(doc: DocV) -> LoadState {
    LoadState { doc, scope: Scope::Document, err: Option::None, stopped: false }
}

/// Effect of a `<neuroml>` start tag: the document takes its `id`.
pub open spec fn step_neuroml(doc: DocV, attrs: Seq<AttrV>) -> (DocV, Option<ErrV>) {
    match find_attr(attrs, "id"@) {
        Option::Some(v) => (DocV { id: v, ..doc }, Option::None),
        Option::None => (
            doc,
            Option::Some(ErrV::MissingAttribute { element: "neuroml"@, attribute: "id"@ }),
        ),
    }
}

/// Effect of an `<include>` start tag: every attribute becomes one include
/// record, name and value kept as they stand.
pub open spec fn step_include(doc: DocV, attrs: Seq<AttrV>) -> DocV {
    let cur = match doc.includes {
        Option::Some(s) => s,
        Option::None => Seq::<IncludeV>::empty(),
    };
    DocV {
        includes: Option::Some(
            cur + attrs.map_values(|a: AttrV| IncludeV { segment_group: a.name, path: a.value }),
        ),
        ..doc
    }
}

/// Effect of an `<izhikevich>` start tag: a cell record from its seven
/// required attributes, or the first missing one, in record order.
pub open spec fn step_izhikevich(doc: DocV, attrs: Seq<AttrV>) -> (DocV, Option<ErrV>) {
    let el = "izhikevich"@;
    if find_attr(attrs, "id"@) is None {
        (doc, Option::Some(ErrV::MissingAttribute { element: el, attribute: "id"@ }))
    } else if find_attr(attrs, "v0"@) is None {
        (doc, Option::Some(ErrV::MissingAttribute { element: el, attribute: "v0"@ }))
    } else if find_attr(attrs, "thresh"@) is None {
        (doc, Option::Some(ErrV::MissingAttribute { element: el, attribute: "thresh"@ }))
    } else if find_attr(attrs, "a"@) is None {
        (doc, Option::Some(ErrV::MissingAttribute { element: el, attribute: "a"@ }))
    } else if find_attr(attrs, "b"@) is None {
        (doc, Option::Some(ErrV::MissingAttribute { element: el, attribute: "b"@ }))
    } else if find_attr(attrs, "c"@) is None {
        (doc, Option::Some(ErrV::MissingAttribute { element: el, attribute: "c"@ }))
    } else if find_attr(attrs, "d"@) is None {
        (doc, Option::Some(ErrV::MissingAttribute { element: el, attribute: "d"@ }))
    } else {
        let cell = IzhikevichCellV {
            id: find_attr(attrs, "id"@).unwrap(),
            v0: find_attr(attrs, "v0"@).unwrap(),
            thresh: find_attr(attrs, "thresh"@).unwrap(),
            a: find_attr(attrs, "a"@).unwrap(),
            b: find_attr(attrs, "b"@).unwrap(),
            c: find_attr(attrs, "c"@).unwrap(),
            d: find_attr(attrs, "d"@).unwrap(),
        };
        let cur = match doc.izhikevich_cells {
            Option::Some(s) => s,
            Option::None => Seq::<IzhikevichCellV>::empty(),
        };
        (DocV { izhikevich_cells: Option::Some(cur.push(cell)), ..doc }, Option::None)
    }
}

/// Effect of an `<izhikevich2007>` start tag, as for `<izhikevich>` with the
/// ten attributes of the 2007 parameterisation.
pub open spec fn step_izhikevich2007(doc: DocV, attrs: Seq<AttrV>) -> (DocV, Option<ErrV>) {
    let el = "izhikevich2007"@;
    if find_attr(attrs, "id"@) is None {
        (doc, Option::Some(ErrV::MissingAttribute { element: el, attribute: "id"@ }))
    } else if find_attr(attrs, "v0"@) is None {
        (doc, Option::Some(ErrV::MissingAttribute { element: el, attribute: "v0"@ }))
    } else if find_attr(attrs, "k"@) is None {
        (doc, Option::Some(ErrV::MissingAttribute { element: el, attribute: "k"@ }))
    } else if find_attr(attrs, "vr"@) is None {
        (doc, Option::Some(ErrV::MissingAttribute { element: el, attribute: "vr"@ }))
    } else if find_attr(attrs, "vt"@) is None {
        (doc, Option::Some(ErrV::MissingAttribute { element: el, attribute: "vt"@ }))
    } else if find_attr(attrs, "vpeak"@) is None {
        (doc, Option::Some(ErrV::MissingAttribute { element: el, attribute: "vpeak"@ }))
    } else if find_attr(attrs, "a"@) is None {
        (doc, Option::Some(ErrV::MissingAttribute { element: el, attribute: "a"@ }))
    } else if find_attr(attrs, "b"@) is None {
        (doc, Option::Some(ErrV::MissingAttribute { element: el, attribute: "b"@ }))
    } else if find_attr(attrs, "c"@) is None {
        (doc, Option::Some(ErrV::MissingAttribute { element: el, attribute: "c"@ }))
    } else if find_attr(attrs, "d"@) is None {
        (doc, Option::Some(ErrV::MissingAttribute { element: el, attribute: "d"@ }))
    } else {
        let cell = Izhikevich2007CellV {
            id: find_attr(attrs, "id"@).unwrap(),
            v0: find_attr(attrs, "v0"@).unwrap(),
            k: find_attr(attrs, "k"@).unwrap(),
            vr: find_attr(attrs, "vr"@).unwrap(),
            vt: find_attr(attrs, "vt"@).unwrap(),
            vpeak: find_attr(attrs, "vpeak"@).unwrap(),
            a: find_attr(attrs, "a"@).unwrap(),
            b: find_attr(attrs, "b"@).unwrap(),
            c: find_attr(attrs, "c"@).unwrap(),
            d: find_attr(attrs, "d"@).unwrap(),
        };
        let cur = match doc.izhikevich2007_cells {
            Option::Some(s) => s,
            Option::None => Seq::<Izhikevich2007CellV>::empty(),
        };
        (DocV { izhikevich2007_cells: Option::Some(cur.push(cell)), ..doc }, Option::None)
    }
}

/// Effect of a `<cell>` start tag: a cell record with its required `id` and
/// optional `metaid`, no biophysics yet.
pub open spec fn step_cell(doc: DocV, attrs: Seq<AttrV>) -> (DocV, Option<ErrV>) {
    match find_attr(attrs, "id"@) {
        Option::None => (
            doc,
            Option::Some(ErrV::MissingAttribute { element: "cell"@, attribute: "id"@ }),
        ),
        Option::Some(id) => {
            let cell = CellV {
                id,
                metaid: find_attr(attrs, "metaid"@),
                biophysical_properties: Option::None,
            };
            let cur = match doc.cells {
                Option::Some(s) => s,
                Option::None => Seq::<CellV>::empty(),
            };
            (DocV { cells: Option::Some(cur.push(cell)), ..doc }, Option::None)
        },
    }
}

/// An empty membrane-properties record.
pub open spec fn empty_membrane() -> MembranePropertiesV {
    MembranePropertiesV {
        id: Seq::<char>::empty(),
        channel_population: Option::None,
        channel_density: Option::None,
        specific_capacitance: Option::None,
    }
}

/// Effect of a `<biophysicalProperties>` start tag: a fresh record is
/// attached to the most recent cell, and the builder enters its scope.
pub open spec fn step_biophysical(doc: DocV, scope: Scope, attrs: Seq<AttrV>) -> (
    DocV,
    Scope,
    Option<ErrV>,
) {
    let el = "biophysicalProperties"@;
    match doc.cells {
        Option::None => (
            doc,
            scope,
            Option::Some(ErrV::MissingParent { element: el, parent: "cell"@ }),
        ),
        Option::Some(cells) => {
            if cells.len() == 0 {
                (doc, scope, Option::Some(ErrV::MissingParent { element: el, parent: "cell"@ }))
            } else {
                match find_attr(attrs, "id"@) {
                    Option::None => (
                        doc,
                        scope,
                        Option::Some(ErrV::MissingAttribute { element: el, attribute: "id"@ }),
                    ),
                    Option::Some(id) => {
                        let bpp = BiophysicalPropertiesV {
                            id,
                            membrane_properties: empty_membrane(),
                        };
                        let cell = cells.last();
                        let bpps = match cell.biophysical_properties {
                            Option::Some(s) => s,
                            Option::None => Seq::<BiophysicalPropertiesV>::empty(),
                        };
                        let cell1 = CellV {
                            biophysical_properties: Option::Some(bpps.push(bpp)),
                            ..cell
                        };
                        (
                            DocV {
                                cells: Option::Some(cells.update(cells.len() - 1, cell1)),
                                ..doc
                            },
                            Scope::Biophysical,
                            Option::None,
                        )
                    },
                }
            }
        },
    }
}

/// Effect of a `<channelPopulation>` start tag inside membrane scope.
pub open spec fn step_channel_population(doc: DocV, attrs: Seq<AttrV>) -> (DocV, Option<ErrV>) {
    let el = "channelPopulation"@;
    match doc.cells {
        Option::None => (doc, Option::Some(ErrV::MissingParent { element: el, parent: "cell"@ })),
        Option::Some(cells) => {
            if cells.len() == 0 {
                (doc, Option::Some(ErrV::MissingParent { element: el, parent: "cell"@ }))
            } else {
                let cell = cells.last();
                match cell.biophysical_properties {
                    Option::None => (
                        doc,
                        Option::Some(
                            ErrV::MissingParent { element: el, parent: "biophysicalProperties"@ },
                        ),
                    ),
                    Option::Some(bpps) => {
                        if bpps.len() == 0 {
                            (
                                doc,
                                Option::Some(
                                    ErrV::MissingParent {
                                        element: el,
                                        parent: "biophysicalProperties"@,
                                    },
                                ),
                            )
                        } else if find_attr(attrs, "id"@) is None {
                            (
                                doc,
                                Option::Some(
                                    ErrV::MissingAttribute { element: el, attribute: "id"@ },
                                ),
                            )
                        } else if find_attr(attrs, "ionChannel"@) is None {
                            (
                                doc,
                                Option::Some(
                                    ErrV::MissingAttribute {
                                        element: el,
                                        attribute: "ionChannel"@,
                                    },
                                ),
                            )
                        } else if find_attr(attrs, "number"@) is None {
                            (
                                doc,
                                Option::Some(
                                    ErrV::MissingAttribute { element: el, attribute: "number"@ },
                                ),
                            )
                        } else if find_attr(attrs, "erev"@) is None {
                            (
                                doc,
                                Option::Some(
                                    ErrV::MissingAttribute { element: el, attribute: "erev"@ },
                                ),
                            )
                        } else if find_attr(attrs, "ion"@) is None {
                            (
                                doc,
                                Option::Some(
                                    ErrV::MissingAttribute { element: el, attribute: "ion"@ },
                                ),
                            )
                        } else {
                            let cp = ChannelPopulationV {
                                id: find_attr(attrs, "id"@).unwrap(),
                                ion_channel: find_attr(attrs, "ionChannel"@).unwrap(),
                                number: find_attr(attrs, "number"@).unwrap(),
                                erev: find_attr(attrs, "erev"@).unwrap(),
                                segment: find_attr(attrs, "segment"@),
                                ion: find_attr(attrs, "ion"@).unwrap(),
                            };
                            let bpp = bpps.last();
                            let memb = bpp.membrane_properties;
                            let cur = match memb.channel_population {
                                Option::Some(s) => s,
                                Option::None => Seq::<ChannelPopulationV>::empty(),
                            };
                            let memb1 = MembranePropertiesV {
                                channel_population: Option::Some(cur.push(cp)),
                                ..memb
                            };
                            let bpp1 = BiophysicalPropertiesV {
                                membrane_properties: memb1,
                                ..bpp
                            };
                            let cell1 = CellV {
                                biophysical_properties: Option::Some(
                                    bpps.update(bpps.len() - 1, bpp1),
                                ),
                                ..cell
                            };
                            (
                                DocV {
                                    cells: Option::Some(cells.update(cells.len() - 1, cell1)),
                                    ..doc
                                },
                                Option::None,
                            )
                        }
                    },
                }
            }
        },
    }
}

/// Effect of a `<channelDensity>` start tag inside membrane scope; a missing
/// `segmentGroup` defaults to `all`.
pub open spec fn step_channel_density(doc: DocV, attrs: Seq<AttrV>) -> (DocV, Option<ErrV>) {
    let el = "channelDensity"@;
    match doc.cells {
        Option::None => (doc, Option::Some(ErrV::MissingParent { element: el, parent: "cell"@ })),
        Option::Some(cells) => {
            if cells.len() == 0 {
                (doc, Option::Some(ErrV::MissingParent { element: el, parent: "cell"@ }))
            } else {
                let cell = cells.last();
                match cell.biophysical_properties {
                    Option::None => (
                        doc,
                        Option::Some(
                            ErrV::MissingParent { element: el, parent: "biophysicalProperties"@ },
                        ),
                    ),
                    Option::Some(bpps) => {
                        if bpps.len() == 0 {
                            (
                                doc,
                                Option::Some(
                                    ErrV::MissingParent {
                                        element: el,
                                        parent: "biophysicalProperties"@,
                                    },
                                ),
                            )
                        } else if find_attr(attrs, "id"@) is None {
                            (
                                doc,
                                Option::Some(
                                    ErrV::MissingAttribute { element: el, attribute: "id"@ },
                                ),
                            )
                        } else if find_attr(attrs, "ionChannel"@) is None {
                            (
                                doc,
                                Option::Some(
                                    ErrV::MissingAttribute {
                                        element: el,
                                        attribute: "ionChannel"@,
                                    },
                                ),
                            )
                        } else if find_attr(attrs, "erev"@) is None {
                            (
                                doc,
                                Option::Some(
                                    ErrV::MissingAttribute { element: el, attribute: "erev"@ },
                                ),
                            )
                        } else if find_attr(attrs, "ion"@) is None {
                            (
                                doc,
                                Option::Some(
                                    ErrV::MissingAttribute { element: el, attribute: "ion"@ },
                                ),
                            )
                        } else {
                            let sg = match find_attr(attrs, "segmentGroup"@) {
                                Option::Some(v) => v,
                                Option::None => "all"@,
                            };
                            let cd = ChannelDensityV {
                                id: find_attr(attrs, "id"@).unwrap(),
                                ion_channel: find_attr(attrs, "ionChannel"@).unwrap(),
                                erev: find_attr(attrs, "erev"@).unwrap(),
                                segment_group: Option::Some(sg),
                                ion: find_attr(attrs, "ion"@).unwrap(),
                            };
                            let bpp = bpps.last();
                            let memb = bpp.membrane_properties;
                            let cur = match memb.channel_density {
                                Option::Some(s) => s,
                                Option::None => Seq::<ChannelDensityV>::empty(),
                            };
                            let memb1 = MembranePropertiesV {
                                channel_density: Option::Some(cur.push(cd)),
                                ..memb
                            };
                            let bpp1 = BiophysicalPropertiesV {
                                membrane_properties: memb1,
                                ..bpp
                            };
                            let cell1 = CellV {
                                biophysical_properties: Option::Some(
                                    bpps.update(bpps.len() - 1, bpp1),
                                ),
                                ..cell
                            };
                            (
                                DocV {
                                    cells: Option::Some(cells.update(cells.len() - 1, cell1)),
                                    ..doc
                                },
                                Option::None,
                            )
                        }
                    },
                }
            }
        },
    }
}

/// Effect of any start tag, dispatched on the element's local name in the
/// order the builder tests them.
pub open spec fn step_start(st: LoadState, name: Seq<char>, attrs: Seq<AttrV>) -> LoadState {
    if name == "neuroml"@ {
        let (doc, err) = step_neuroml(st.doc, attrs);
        LoadState { doc, err, ..st }
    } else if name == "include"@ {
        LoadState { doc: step_include(st.doc, attrs), ..st }
    } else if name == "izhikevich"@ {
        let (doc, err) = step_izhikevich(st.doc, attrs);
        LoadState { doc, err, ..st }
    } else if name == "izhikevich2007"@ {
        let (doc, err) = step_izhikevich2007(st.doc, attrs);
        LoadState { doc, err, ..st }
    } else if name == "cell"@ {
        let (doc, err) = step_cell(st.doc, attrs);
        LoadState { doc, err, ..st }
    } else if name == "biophysicalProperties"@ {
        let (doc, scope, err) = step_biophysical(st.doc, st.scope, attrs);
        LoadState { doc, scope, err, ..st }
    } else if name == "membraneProperties"@ {
        if st.scope == Scope::Biophysical {
            LoadState { scope: Scope::Membrane, ..st }
        } else {
            st
        }
    } else if name == "channelPopulation"@ {
        if st.scope == Scope::Membrane {
            let (doc, err) = step_channel_population(st.doc, attrs);
            LoadState { doc, err, ..st }
        } else {
            st
        }
    } else if name == "channelDensity"@ {
        if st.scope == Scope::Membrane {
            let (doc, err) = step_channel_density(st.doc, attrs);
            LoadState { doc, err, ..st }
        } else {
            st
        }
    } else {
        st
    }
}

/// Effect of one event.  After an error or a tokenization failure nothing
/// changes any more.
pub open spec fn step_event(st: LoadState, ev: EvV) -> LoadState {
    if st.err is Some || st.stopped {
        st
    } else {
        match ev {
            EvV::Start { name, attributes } => step_start(st, name, attributes),
            EvV::End { name } => st,
            EvV::Other => st,
            EvV::Failure => LoadState { stopped: true, ..st },
        }
    }
}

/// The builder's state after a whole event stream.
pub open spec fn run_events(st: LoadState, evs: Seq<EvV>) -> LoadState
    decreases evs.len(),
{
    if evs.len() == 0 {
        st
    } else {
        run_events(step_event(st, evs.first()), evs.drop_first())
    }
}

/// Peeling the last event off a run.
pub proof fn lemma_run_snoc(st: LoadState, evs: Seq<EvV>, ev: EvV)
    ensures
        run_events(st, evs.push(ev)) == step_event(run_events(st, evs), ev),
    decreases evs.len(),
{
    assert(evs.push(ev).len() == evs.len() + 1);
    assert(run_events(st, evs.push(ev)) == run_events(
        step_event(st, evs.push(ev).first()),
        evs.push(ev).drop_first(),
    ));
    if evs.len() == 0 {
        assert(evs.push(ev).drop_first() =~= Seq::<EvV>::empty());
        assert(evs.push(ev).first() == ev);
        assert(run_events(step_event(st, ev), Seq::<EvV>::empty()) == step_event(st, ev));
        assert(run_events(st, evs) == st);
    } else {
        assert(evs.push(ev).first() == evs.first());
        assert(evs.push(ev).drop_first() =~= evs.drop_first().push(ev));
        lemma_run_snoc(step_event(st, evs.first()), evs.drop_first(), ev);
        assert(run_events(st, evs) == run_events(step_event(st, evs.first()), evs.drop_first()));
    }
}

/// A stopped or failed state absorbs every further event.
pub proof fn lemma_run_stuck(st: LoadState, evs: Seq<EvV>)
    requires
        st.err is Some || st.stopped,
    ensures
        run_events(st, evs) == st,
    decreases evs.len(),
{
    if evs.len() > 0 {
        lemma_run_stuck(st, evs.drop_first());
    }
}

// ---------------------------------------------------------------------------
// The builder
// ---------------------------------------------------------------------------

impl Cell {
    /// A cell record with nothing filled in yet.
    pub fn new() -> (r: Self)
        ensures
            r@ == (CellV {
                id: Seq::<char>::empty(),
                metaid: Option::None,
                biophysical_properties: Option::None,
            }),
    {
        Cell { id: String::new(), metaid: Option::None, biophysical_properties: Option::None }
    }
}

impl BiophysicalProperties {
    /// A biophysical-properties record with an empty membrane.
    pub fn new() -> (r: Self)
        ensures
            r@ == (BiophysicalPropertiesV {
                id: Seq::<char>::empty(),
                membrane_properties: empty_membrane(),
            }),
    {
        let r = BiophysicalProperties {
            id: String::new(),
            membrane_properties: MembraneProperties {
                id: String::new(),
                channel_population: Option::None,
                channel_density: Option::None,
                specific_capacitance: Option::None,
            },
        };
        proof {
            assert(r@ =~~= (BiophysicalPropertiesV {
                id: Seq::<char>::empty(),
                membrane_properties: empty_membrane(),
            }));
        }
        r
    }
}

/// Handles a `<neuroml>` start tag.
fn ev_neuroml(doc: &mut NeuroMLDocument, attrs: &Vec<XmlAttr>) -> (r: Option<LoadError>)
    ensures
        ({
            let (doc1, err) = step_neuroml(old(doc)@, attrs@.map_values(|a: XmlAttr| a@));
            &&& final(doc)@ == doc1
            &&& match r {
                Option::None => err is None,
                Option::Some(e) => err == Option::Some(e@),
            }
        }),
{
    match find_attribute("id", attrs) {
        Option::Some(v) => {
            doc.id = v;
            proof {
                assert(doc@ =~~= step_neuroml(old(doc)@, attrs@.map_values(|a: XmlAttr| a@)).0);
            }
            Option::None
        },
        Option::None => Option::Some(
            LoadError::MissingAttribute {
                element: "neuroml".to_owned(),
                attribute: "id".to_owned(),
            },
        ),
    }
}

/// Handles an `<include>` start tag.
fn ev_include(doc: &mut NeuroMLDocument, attrs: &Vec<XmlAttr>)
    ensures
        final(doc)@ == step_include(old(doc)@, attrs@.map_values(|a: XmlAttr| a@)),
{
    let ghost attrs_v = attrs@.map_values(|a: XmlAttr| a@);
    let ghost inc_of = |a: AttrV| IncludeV { segment_group: a.name, path: a.value };
    let mut includes: Vec<IncludeType> = match doc.includes.take() {
        Option::Some(v) => v,
        Option::None => Vec::new(),
    };
    let ghost cur = includes@.map_values(|x: IncludeType| x@);
    let mut i: usize = 0;
    while i < attrs.len()
        invariant
            i <= attrs.len(),
            attrs_v == attrs@.map_values(|a: XmlAttr| a@),
            inc_of == (|a: AttrV| IncludeV { segment_group: a.name, path: a.value }),
            includes@.map_values(|x: IncludeType| x@) =~= cur + attrs_v.take(
                i as int,
            ).map_values(inc_of),
        decreases attrs.len() - i,
    {
        let ghost pre = includes@;
        includes.push(
            IncludeType { segment_group: attrs[i].name.clone(), path: attrs[i].value.clone() },
        );
        proof {
            assert(attrs_v[i as int] == attrs@[i as int]@);
            assert(includes@.map_values(|x: IncludeType| x@) =~= pre.map_values(
                |x: IncludeType| x@,
            ).push(inc_of(attrs_v[i as int])));
            assert(attrs_v.take(i as int + 1) =~= attrs_v.take(i as int).push(attrs_v[i as int]));
            assert(attrs_v.take(i as int + 1).map_values(inc_of) =~= attrs_v.take(
                i as int,
            ).map_values(inc_of).push(inc_of(attrs_v[i as int])));
            assert(includes@.map_values(|x: IncludeType| x@) =~= cur + attrs_v.take(
                i as int + 1,
            ).map_values(inc_of));
        }
        i = i + 1;
    }
    doc.includes = Option::Some(includes);
    proof {
        assert(attrs_v.take(attrs_v.len() as int) =~= attrs_v);
        assert(doc@ =~~= step_include(old(doc)@, attrs_v));
    }
}

/// Handles an `<izhikevich>` start tag.
fn ev_izhikevich(doc: &mut NeuroMLDocument, attrs: &Vec<XmlAttr>) -> (r: Option<LoadError>)
    ensures
        ({
            let (doc1, err) = step_izhikevich(old(doc)@, attrs@.map_values(|a: XmlAttr| a@));
            &&& final(doc)@ == doc1
            &&& match r {
                Option::None => err is None,
                Option::Some(e) => err == Option::Some(e@),
            }
        }),
{
    let el = "izhikevich";
    let id = match find_attribute("id", attrs) {
        Option::Some(v) => v,
        Option::None => {
            return Option::Some(
                LoadError::MissingAttribute { element: el.to_owned(), attribute: "id".to_owned() },
            );
        },
    };
    let v0 = match find_attribute("v0", attrs) {
        Option::Some(v) => v,
        Option::None => {
            return Option::Some(
                LoadError::MissingAttribute { element: el.to_owned(), attribute: "v0".to_owned() },
            );
        },
    };
    let thresh = match find_attribute("thresh", attrs) {
        Option::Some(v) => v,
        Option::None => {
            return Option::Some(
                LoadError::MissingAttribute {
                    element: el.to_owned(),
                    attribute: "thresh".to_owned(),
                },
            );
        },
    };
    let a = match find_attribute("a", attrs) {
        Option::Some(v) => v,
        Option::None => {
            return Option::Some(
                LoadError::MissingAttribute { element: el.to_owned(), attribute: "a".to_owned() },
            );
        },
    };
    let b = match find_attribute("b", attrs) {
        Option::Some(v) => v,
        Option::None => {
            return Option::Some(
                LoadError::MissingAttribute { element: el.to_owned(), attribute: "b".to_owned() },
            );
        },
    };
    let c = match find_attribute("c", attrs) {
        Option::Some(v) => v,
        Option::None => {
            return Option::Some(
                LoadError::MissingAttribute { element: el.to_owned(), attribute: "c".to_owned() },
            );
        },
    };
    let d = match find_attribute("d", attrs) {
        Option::Some(v) => v,
        Option::None => {
            return Option::Some(
                LoadError::MissingAttribute { element: el.to_owned(), attribute: "d".to_owned() },
            );
        },
    };
    let cell = IzhikevichCell { id, v0, thresh, a, b, c, d };
    let mut cells: Vec<IzhikevichCell> = match doc.izhikevich_cells.take() {
        Option::Some(v) => v,
        Option::None => Vec::new(),
    };
    cells.push(cell);
    doc.izhikevich_cells = Option::Some(cells);
    proof {
        assert(doc@ =~~= step_izhikevich(old(doc)@, attrs@.map_values(|a: XmlAttr| a@)).0);
    }
    Option::None
}

/// Handles an `<izhikevich2007>` start tag.
fn ev_izhikevich2007(doc: &mut NeuroMLDocument, attrs: &Vec<XmlAttr>) -> (r: Option<LoadError>)
    ensures
        ({
            let (doc1, err) = step_izhikevich2007(old(doc)@, attrs@.map_values(|a: XmlAttr| a@));
            &&& final(doc)@ == doc1
            &&& match r {
                Option::None => err is None,
                Option::Some(e) => err == Option::Some(e@),
            }
        }),
{
    let el = "izhikevich2007";
    let id = match find_attribute("id", attrs) {
        Option::Some(v) => v,
        Option::None => {
            return Option::Some(
                LoadError::MissingAttribute { element: el.to_owned(), attribute: "id".to_owned() },
            );
        },
    };
    let v0 = match find_attribute("v0", attrs) {
        Option::Some(v) => v,
        Option::None => {
            return Option::Some(
                LoadError::MissingAttribute { element: el.to_owned(), attribute: "v0".to_owned() },
            );
        },
    };
    let k = match find_attribute("k", attrs) {
        Option::Some(v) => v,
        Option::None => {
            return Option::Some(
                LoadError::MissingAttribute { element: el.to_owned(), attribute: "k".to_owned() },
            );
        },
    };
    let vr = match find_attribute("vr", attrs) {
        Option::Some(v) => v,
        Option::None => {
            return Option::Some(
                LoadError::MissingAttribute { element: el.to_owned(), attribute: "vr".to_owned() },
            );
        },
    };
    let vt = match find_attribute("vt", attrs) {
        Option::Some(v) => v,
        Option::None => {
            return Option::Some(
                LoadError::MissingAttribute { element: el.to_owned(), attribute: "vt".to_owned() },
            );
        },
    };
    let vpeak = match find_attribute("vpeak", attrs) {
        Option::Some(v) => v,
        Option::None => {
            return Option::Some(
                LoadError::MissingAttribute {
                    element: el.to_owned(),
                    attribute: "vpeak".to_owned(),
                },
            );
        },
    };
    let a = match find_attribute("a", attrs) {
        Option::Some(v) => v,
        Option::None => {
            return Option::Some(
                LoadError::MissingAttribute { element: el.to_owned(), attribute: "a".to_owned() },
            );
        },
    };
    let b = match find_attribute("b", attrs) {
        Option::Some(v) => v,
        Option::None => {
            return Option::Some(
                LoadError::MissingAttribute { element: el.to_owned(), attribute: "b".to_owned() },
            );
        },
    };
    let c = match find_attribute("c", attrs) {
        Option::Some(v) => v,
        Option::None => {
            return Option::Some(
                LoadError::MissingAttribute { element: el.to_owned(), attribute: "c".to_owned() },
            );
        },
    };
    let d = match find_attribute("d", attrs) {
        Option::Some(v) => v,
        Option::None => {
            return Option::Some(
                LoadError::MissingAttribute { element: el.to_owned(), attribute: "d".to_owned() },
            );
        },
    };
    let cell = Izhikevich2007Cell { id, v0, k, vr, vt, vpeak, a, b, c, d };
    let mut cells: Vec<Izhikevich2007Cell> = match doc.izhikevich2007_cells.take() {
        Option::Some(v) => v,
        Option::None => Vec::new(),
    };
    cells.push(cell);
    doc.izhikevich2007_cells = Option::Some(cells);
    proof {
        assert(doc@ =~~= step_izhikevich2007(old(doc)@, attrs@.map_values(|a: XmlAttr| a@)).0);
    }
    Option::None
}

/// Handles a `<cell>` start tag.
fn ev_cell(doc: &mut NeuroMLDocument, attrs: &Vec<XmlAttr>) -> (r: Option<LoadError>)
    ensures
        ({
            let (doc1, err) = step_cell(old(doc)@, attrs@.map_values(|a: XmlAttr| a@));
            &&& final(doc)@ == doc1
            &&& match r {
                Option::None => err is None,
                Option::Some(e) => err == Option::Some(e@),
            }
        }),
{
    let id = match find_attribute("id", attrs) {
        Option::Some(v) => v,
        Option::None => {
            return Option::Some(
                LoadError::MissingAttribute {
                    element: "cell".to_owned(),
                    attribute: "id".to_owned(),
                },
            );
        },
    };
    let mut cell = Cell::new();
    cell.id = id;
    cell.metaid = find_attribute("metaid", attrs);
    let mut cells: Vec<Cell> = match doc.cells.take() {
        Option::Some(v) => v,
        Option::None => Vec::new(),
    };
    cells.push(cell);
    doc.cells = Option::Some(cells);
    proof {
        assert(doc@ =~~= step_cell(old(doc)@, attrs@.map_values(|a: XmlAttr| a@)).0);
    }
    Option::None
}

/// Handles a `<biophysicalProperties>` start tag.
fn ev_biophysical(doc: &mut NeuroMLDocument, scope: &mut Scope, attrs: &Vec<XmlAttr>) -> (r:
    Option<LoadError>)
    ensures
        ({
            let (doc1, scope1, err) = step_biophysical(
                old(doc)@,
                *old(scope),
                attrs@.map_values(|a: XmlAttr| a@),
            );
            &&& final(doc)@ == doc1
            &&& *final(scope) == scope1
            &&& match r {
                Option::None => err is None,
                Option::Some(e) => err == Option::Some(e@),
            }
        }),
{
    let el = "biophysicalProperties";
    let has_cell = match &doc.cells {
        Option::Some(c) => c.len() > 0,
        Option::None => false,
    };
    if !has_cell {
        return Option::Some(
            LoadError::MissingParent { element: el.to_owned(), parent: "cell".to_owned() },
        );
    }
    let id = match find_attribute("id", attrs) {
        Option::Some(v) => v,
        Option::None => {
            return Option::Some(
                LoadError::MissingAttribute { element: el.to_owned(), attribute: "id".to_owned() },
            );
        },
    };
    let mut bpp = BiophysicalProperties::new();
    bpp.id = id;
    let mut cells: Vec<Cell> = match doc.cells.take() {
        Option::Some(v) => v,
        Option::None => vstd::pervasive::unreached(),
    };
    let mut cell: Cell = match cells.pop() {
        Option::Some(c) => c,
        Option::None => vstd::pervasive::unreached(),
    };
    let mut bpps: Vec<BiophysicalProperties> = match cell.biophysical_properties.take() {
        Option::Some(v) => v,
        Option::None => Vec::new(),
    };
    bpps.push(bpp);
    cell.biophysical_properties = Option::Some(bpps);
    cells.push(cell);
    doc.cells = Option::Some(cells);
    *scope = Scope::Biophysical;
    proof {
        let ghost attrs_v = attrs@.map_values(|a: XmlAttr| a@);
        let ghost old_cells = match old(doc)@.cells {
            Option::Some(s) => s,
            Option::None => Seq::<CellV>::empty(),
        };
        assert(cells@.map_values(|x: Cell| x@) =~= old_cells.update(
            old_cells.len() - 1,
            cells@.last()@,
        ));
        assert(doc@ =~~= step_biophysical(old(doc)@, *old(scope), attrs_v).0);
    }
    Option::None
}

/// Handles a `<channelPopulation>` start tag in membrane scope.
fn ev_channel_population(doc: &mut NeuroMLDocument, attrs: &Vec<XmlAttr>) -> (r: Option<
    LoadError,
>)
    ensures
        ({
            let (doc1, err) = step_channel_population(
                old(doc)@,
                attrs@.map_values(|a: XmlAttr| a@),
            );
            &&& final(doc)@ == doc1
            &&& match r {
                Option::None => err is None,
                Option::Some(e) => err == Option::Some(e@),
            }
        }),
{
    let el = "channelPopulation";
    let has_cell = match &doc.cells {
        Option::Some(c) => c.len() > 0,
        Option::None => false,
    };
    if !has_cell {
        return Option::Some(
            LoadError::MissingParent { element: el.to_owned(), parent: "cell".to_owned() },
        );
    }
    let has_bpp = match &doc.cells {
        Option::Some(c) => match &c[c.len() - 1].biophysical_properties {
            Option::Some(b) => b.len() > 0,
            Option::None => false,
        },
        Option::None => false,
    };
    if !has_bpp {
        return Option::Some(
            LoadError::MissingParent {
                element: el.to_owned(),
                parent: "biophysicalProperties".to_owned(),
            },
        );
    }
    let id = match find_attribute("id", attrs) {
        Option::Some(v) => v,
        Option::None => {
            return Option::Some(
                LoadError::MissingAttribute { element: el.to_owned(), attribute: "id".to_owned() },
            );
        },
    };
    let ion_channel = match find_attribute("ionChannel", attrs) {
        Option::Some(v) => v,
        Option::None => {
            return Option::Some(
                LoadError::MissingAttribute {
                    element: el.to_owned(),
                    attribute: "ionChannel".to_owned(),
                },
            );
        },
    };
    let number = match find_attribute("number", attrs) {
        Option::Some(v) => v,
        Option::None => {
            return Option::Some(
                LoadError::MissingAttribute {
                    element: el.to_owned(),
                    attribute: "number".to_owned(),
                },
            );
        },
    };
    let erev = match find_attribute("erev", attrs) {
        Option::Some(v) => v,
        Option::None => {
            return Option::Some(
                LoadError::MissingAttribute {
                    element: el.to_owned(),
                    attribute: "erev".to_owned(),
                },
            );
        },
    };
    let ion = match find_attribute("ion", attrs) {
        Option::Some(v) => v,
        Option::None => {
            return Option::Some(
                LoadError::MissingAttribute {
                    element: el.to_owned(),
                    attribute: "ion".to_owned(),
                },
            );
        },
    };
    let segment = find_attribute("segment", attrs);
    let cp = ChannelPopulation { id, ion_channel, number, erev, segment, ion };
    let mut cells: Vec<Cell> = match doc.cells.take() {
        Option::Some(v) => v,
        Option::None => vstd::pervasive::unreached(),
    };
    let mut cell: Cell = match cells.pop() {
        Option::Some(c) => c,
        Option::None => vstd::pervasive::unreached(),
    };
    let mut bpps: Vec<BiophysicalProperties> = match cell.biophysical_properties.take() {
        Option::Some(v) => v,
        Option::None => vstd::pervasive::unreached(),
    };
    let mut bpp: BiophysicalProperties = match bpps.pop() {
        Option::Some(b) => b,
        Option::None => vstd::pervasive::unreached(),
    };
    let mut cps: Vec<ChannelPopulation> = match bpp.membrane_properties.channel_population.take() {
        Option::Some(v) => v,
        Option::None => Vec::new(),
    };
    cps.push(cp);
    bpp.membrane_properties.channel_population = Option::Some(cps);
    bpps.push(bpp);
    cell.biophysical_properties = Option::Some(bpps);
    cells.push(cell);
    doc.cells = Option::Some(cells);
    proof {
        let ghost attrs_v = attrs@.map_values(|a: XmlAttr| a@);
        let ghost old_cells = match old(doc)@.cells {
            Option::Some(s) => s,
            Option::None => Seq::<CellV>::empty(),
        };
        let ghost old_bpps = match old_cells.last().biophysical_properties {
            Option::Some(s) => s,
            Option::None => Seq::<BiophysicalPropertiesV>::empty(),
        };
        assert(bpps@.map_values(|x: BiophysicalProperties| x@) =~= old_bpps.update(
            old_bpps.len() - 1,
            bpps@.last()@,
        ));
        assert(cells@.map_values(|x: Cell| x@) =~= old_cells.update(
            old_cells.len() - 1,
            cells@.last()@,
        ));
        assert(doc@ =~~= step_channel_population(old(doc)@, attrs_v).0);
    }
    Option::None
}

/// Handles a `<channelDensity>` start tag in membrane scope.
fn ev_channel_density(doc: &mut NeuroMLDocument, attrs: &Vec<XmlAttr>) -> (r: Option<LoadError>)
    ensures
        ({
            let (doc1, err) = step_channel_density(old(doc)@, attrs@.map_values(|a: XmlAttr| a@));
            &&& final(doc)@ == doc1
            &&& match r {
                Option::None => err is None,
                Option::Some(e) => err == Option::Some(e@),
            }
        }),
{
    let el = "channelDensity";
    let has_cell = match &doc.cells {
        Option::Some(c) => c.len() > 0,
        Option::None => false,
    };
    if !has_cell {
        return Option::Some(
            LoadError::MissingParent { element: el.to_owned(), parent: "cell".to_owned() },
        );
    }
    let has_bpp = match &doc.cells {
        Option::Some(c) => match &c[c.len() - 1].biophysical_properties {
            Option::Some(b) => b.len() > 0,
            Option::None => false,
        },
        Option::None => false,
    };
    if !has_bpp {
        return Option::Some(
            LoadError::MissingParent {
                element: el.to_owned(),
                parent: "biophysicalProperties".to_owned(),
            },
        );
    }
    let id = match find_attribute("id", attrs) {
        Option::Some(v) => v,
        Option::None => {
            return Option::Some(
                LoadError::MissingAttribute { element: el.to_owned(), attribute: "id".to_owned() },
            );
        },
    };
    let ion_channel = match find_attribute("ionChannel", attrs) {
        Option::Some(v) => v,
        Option::None => {
            return Option::Some(
                LoadError::MissingAttribute {
                    element: el.to_owned(),
                    attribute: "ionChannel".to_owned(),
                },
            );
        },
    };
    let erev = match find_attribute("erev", attrs) {
        Option::Some(v) => v,
        Option::None => {
            return Option::Some(
                LoadError::MissingAttribute {
                    element: el.to_owned(),
                    attribute: "erev".to_owned(),
                },
            );
        },
    };
    let ion = match find_attribute("ion", attrs) {
        Option::Some(v) => v,
        Option::None => {
            return Option::Some(
                LoadError::MissingAttribute {
                    element: el.to_owned(),
                    attribute: "ion".to_owned(),
                },
            );
        },
    };
    let segment_group = match find_attribute("segmentGroup", attrs) {
        Option::Some(v) => Option::Some(v),
        Option::None => Option::Some("all".to_owned()),
    };
    let cd = ChannelDensity { id, ion_channel, erev, segment_group, ion };
    let mut cells: Vec<Cell> = match doc.cells.take() {
        Option::Some(v) => v,
        Option::None => vstd::pervasive::unreached(),
    };
    let mut cell: Cell = match cells.pop() {
        Option::Some(c) => c,
        Option::None => vstd::pervasive::unreached(),
    };
    let mut bpps: Vec<BiophysicalProperties> = match cell.biophysical_properties.take() {
        Option::Some(v) => v,
        Option::None => vstd::pervasive::unreached(),
    };
    let mut bpp: BiophysicalProperties = match bpps.pop() {
        Option::Some(b) => b,
        Option::None => vstd::pervasive::unreached(),
    };
    let mut cds: Vec<ChannelDensity> = match bpp.membrane_properties.channel_density.take() {
        Option::Some(v) => v,
        Option::None => Vec::new(),
    };
    cds.push(cd);
    bpp.membrane_properties.channel_density = Option::Some(cds);
    bpps.push(bpp);
    cell.biophysical_properties = Option::Some(bpps);
    cells.push(cell);
    doc.cells = Option::Some(cells);
    proof {
        let ghost attrs_v = attrs@.map_values(|a: XmlAttr| a@);
        let ghost old_cells = match old(doc)@.cells {
            Option::Some(s) => s,
            Option::None => Seq::<CellV>::empty(),
        };
        let ghost old_bpps = match old_cells.last().biophysical_properties {
            Option::Some(s) => s,
            Option::None => Seq::<BiophysicalPropertiesV>::empty(),
        };
        assert(bpps@.map_values(|x: BiophysicalProperties| x@) =~= old_bpps.update(
            old_bpps.len() - 1,
            bpps@.last()@,
        ));
        assert(cells@.map_values(|x: Cell| x@) =~= old_cells.update(
            old_cells.len() - 1,
            cells@.last()@,
        ));
        assert(doc@ =~~= step_channel_density(old(doc)@, attrs_v).0);
    }
    Option::None
}

/// Handles one start tag, dispatching on its local name.
fn apply_start(doc: &mut NeuroMLDocument, scope: &mut Scope, name: &String, attrs: &Vec<XmlAttr>)
    -> (r: Option<LoadError>)
    ensures
        ({
            let st0 = LoadState {
                doc: old(doc)@,
                scope: *old(scope),
                err: Option::None,
                stopped: false,
            };
            let st1 = step_start(st0, name@, attrs@.map_values(|a: XmlAttr| a@));
            &&& final(doc)@ == st1.doc
            &&& *final(scope) == st1.scope
            &&& st1.stopped == false
            &&& match r {
                Option::None => st1.err is None,
                Option::Some(e) => st1.err == Option::Some(e@),
            }
        }),
{
    if str_eq(name, "neuroml") {
        ev_neuroml(doc, attrs)
    } else if str_eq(name, "include") {
        ev_include(doc, attrs);
        Option::None
    } else if str_eq(name, "izhikevich") {
        ev_izhikevich(doc, attrs)
    } else if str_eq(name, "izhikevich2007") {
        ev_izhikevich2007(doc, attrs)
    } else if str_eq(name, "cell") {
        ev_cell(doc, attrs)
    } else if str_eq(name, "biophysicalProperties") {
        ev_biophysical(doc, scope, attrs)
    } else if str_eq(name, "membraneProperties") {
        if *scope == Scope::Biophysical {
            *scope = Scope::Membrane;
        }
        Option::None
    } else if str_eq(name, "channelPopulation") {
        if *scope == Scope::Membrane {
            ev_channel_population(doc, attrs)
        } else {
            Option::None
        }
    } else if str_eq(name, "channelDensity") {
        if *scope == Scope::Membrane {
            ev_channel_density(doc, attrs)
        } else {
            Option::None
        }
    } else {
        Option::None
    }
}

/// A run over a concatenation is the composition of the runs.
pub proof fn lemma_run_append(st: LoadState, a: Seq<EvV>, b: Seq<EvV>)
    ensures
        run_events(st, a + b) == run_events(run_events(st, a), b),
    decreases a.len(),
{
    if a.len() == 0 {
        assert(a + b =~= b);
    } else {
        assert((a + b).first() == a.first());
        assert((a + b).drop_first() =~= a.drop_first() + b);
        lemma_run_append(step_event(st, a.first()), a.drop_first(), b);
    }
}

/// Folds a whole event stream into the document.
///
/// The result and the final document are exactly what [`run_events`] says of
/// the stream: records are collected until the stream ends, tokenization
/// fails, or the first configuration error is hit, which is then returned.
pub fn apply_events(events: &Vec<RawEvent>, neuroml: &mut NeuroMLDocument) -> (r: Result<
    (),
    LoadError,
>)
    ensures
        ({
            let st = run_events(init_state(old(neuroml)@), events_view(events@));
            &&& final(neuroml)@ == st.doc
            &&& match r {
                Result::Ok(()) => st.err is None,
                Result::Err(e) => st.err == Option::Some(e@),
            }
        }),
{
    let ghost evs = events_view(events@);
    let mut d = NeuroMLDocument::new();
    core::mem::swap(neuroml, &mut d);
    let ghost doc0 = d@;
    let mut scope = Scope::Document;
    let mut i: usize = 0;
    while i < events.len()
        invariant
            i <= events.len(),
            evs == events_view(events@),
            evs.len() == events@.len(),
            doc0 == old(neuroml)@,
            ({
                let st = run_events(init_state(doc0), evs.take(i as int));
                &&& st.doc == d@
                &&& st.scope == scope
                &&& st.err is None
                &&& !st.stopped
            }),
        decreases events.len() - i,
    {
        let ghost st_pre = run_events(init_state(doc0), evs.take(i as int));
        proof {
            assert(evs.take(i as int + 1) =~= evs.take(i as int).push(evs[i as int]));
            lemma_run_snoc(init_state(doc0), evs.take(i as int), evs[i as int]);
            assert(evs[i as int] == events@[i as int]@);
        }
        match &events[i] {
            RawEvent::Start { name, attributes } => {
                let r = apply_start(&mut d, &mut scope, name, attributes);
                if let Option::Some(e) = r {
                    proof {
                        let st_next = run_events(init_state(doc0), evs.take(i as int + 1));
                        lemma_run_stuck(st_next, evs.skip(i as int + 1));
                        assert(evs =~= evs.take(i as int + 1) + evs.skip(i as int + 1));
                        lemma_run_append(
                            init_state(doc0),
                            evs.take(i as int + 1),
                            evs.skip(i as int + 1),
                        );
                    }
                    core::mem::swap(neuroml, &mut d);
                    return Result::Err(e);
                }
            },
            RawEvent::End { name } => {},
            RawEvent::Other => {},
            RawEvent::Failure => {
                proof {
                    let st_next = run_events(init_state(doc0), evs.take(i as int + 1));
                    lemma_run_stuck(st_next, evs.skip(i as int + 1));
                    assert(evs =~= evs.take(i as int + 1) + evs.skip(i as int + 1));
                    lemma_run_append(
                        init_state(doc0),
                        evs.take(i as int + 1),
                        evs.skip(i as int + 1),
                    );
                }
                core::mem::swap(neuroml, &mut d);
                return Result::Ok(());
            },
        }
        i = i + 1;
    }
    proof {
        assert(evs.take(events@.len() as int) =~= evs);
    }
    core::mem::swap(neuroml, &mut d);
    Result::Ok(())
}

/// Builds the document described by a NeuroML text.
///
/// The text is tokenized by the XML reader; the event stream is then folded
/// into `neuroml` exactly as [`run_events`] states, and the first
/// configuration error, if any, is returned.
pub fn load_neuroml(text: &str, neuroml: &mut NeuroMLDocument) -> (r: Result<(), LoadError>)
    ensures
        ({
            let st = run_events(init_state(old(neuroml)@), xml_events_of(text@));
            &&& final(neuroml)@ == st.doc
            &&& match r {
                Result::Ok(()) => st.err is None,
                Result::Err(e) => st.err == Option::Some(e@),
            }
        }),
{
    let events = read_xml_events(text);
    apply_events(&events, neuroml)
}

} // verus!
