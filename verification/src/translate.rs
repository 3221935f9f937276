//! Translation of raw per-scan attributes and channel units into structured
//! record fields.
//!
//! A scan reports a flat, ordered list of (attribute kind, text value)
//! pairs.  Folding it yields: an activation energy from the collision-energy
//! attribute, a selected-ion target mass from the set-mass attribute, the
//! summary statistics copied verbatim with their physical units tagged, and
//! a flag for attribute kinds whose appearance is a defect.  Every other
//! kind the vendor vocabulary knows is deliberately discarded.  A value that
//! fails the numeric grammar is recorded as an attribute-scoped error and
//! leaves the rest of the record intact.

use vstd::prelude::*;

use crate::constants::MassLynxIonMode;
use crate::constants::MassLynxScanItem;
use crate::text::is_numeric_str;
use crate::text::spec_numeric;

verus! {

/// The polarity a scan was acquired with.
#[derive(Debug, Clone, Copy, PartialEq, Eq, Structural)]
pub enum ScanPolarity {
    Positive,
    Negative,
    Unknown,
}

/// The polarity an ion mode implies.
pub open spec fn spec_polarity_of(mode: MassLynxIonMode) -> ScanPolarity {
    match mode {
        MassLynxIonMode::EI_POS => ScanPolarity::Positive,
        MassLynxIonMode::CI_POS => ScanPolarity::Positive,
        MassLynxIonMode::FB_POS => ScanPolarity::Positive,
        MassLynxIonMode::TS_POS => ScanPolarity::Positive,
        MassLynxIonMode::ES_POS => ScanPolarity::Positive,
        MassLynxIonMode::AI_POS => ScanPolarity::Positive,
        MassLynxIonMode::LD_POS => ScanPolarity::Positive,
        MassLynxIonMode::EI_NEG => ScanPolarity::Negative,
        MassLynxIonMode::CI_NEG => ScanPolarity::Negative,
        MassLynxIonMode::FB_NEG => ScanPolarity::Negative,
        MassLynxIonMode::TS_NEG => ScanPolarity::Negative,
        MassLynxIonMode::ES_NEG => ScanPolarity::Negative,
        MassLynxIonMode::AI_NEG => ScanPolarity::Negative,
        MassLynxIonMode::LD_NEG => ScanPolarity::Negative,
        MassLynxIonMode::UNINITIALISED => ScanPolarity::Unknown,
    }
}

/// Maps an ion mode to its polarity.
pub fn polarity_of(mode: MassLynxIonMode) -> (r: ScanPolarity)
    ensures
        r == spec_polarity_of(mode),
{
    match mode {
        MassLynxIonMode::EI_POS
        | MassLynxIonMode::CI_POS
        | MassLynxIonMode::FB_POS
        | MassLynxIonMode::TS_POS
        | MassLynxIonMode::ES_POS
        | MassLynxIonMode::AI_POS
        | MassLynxIonMode::LD_POS => ScanPolarity::Positive,
        MassLynxIonMode::EI_NEG
        | MassLynxIonMode::CI_NEG
        | MassLynxIonMode::FB_NEG
        | MassLynxIonMode::TS_NEG
        | MassLynxIonMode::ES_NEG
        | MassLynxIonMode::AI_NEG
        | MassLynxIonMode::LD_NEG => ScanPolarity::Negative,
        MassLynxIonMode::UNINITIALISED => ScanPolarity::Unknown,
    }
}

impl MassLynxIonMode {
    /// Whether the mode is one of the positive-ion modes.
    pub fn is_positive(&self) -> (b: bool)
        ensures
            b == (spec_polarity_of(*self) == ScanPolarity::Positive),
    {
        match polarity_of(*self) {
            ScanPolarity::Positive => true,
            _ => false,
        }
    }
}

/// Whether a scan's signal is profile (continuum) or centroided.
#[derive(Debug, Clone, Copy, PartialEq, Eq, Structural)]
pub enum SignalContinuity {
    Profile,
    Centroid,
}

pub open spec fn spec_continuity_of(is_continuum: bool) -> SignalContinuity {
    if is_continuum { SignalContinuity::Profile } else { SignalContinuity::Centroid }
}

/// Maps the driver's continuum flag to the record's signal continuity.
pub fn continuity_of(is_continuum: bool) -> (r: SignalContinuity)
    ensures
        r == spec_continuity_of(is_continuum),
{
    if is_continuum { SignalContinuity::Profile } else { SignalContinuity::Centroid }
}

/// The physical unit tagged onto a copied summary attribute.
#[derive(Debug, Clone, Copy, PartialEq, Eq, Structural)]
pub enum ParamUnit {
    DetectorCounts,
    MassToCharge,
}

/// What the translator does with one attribute kind.  Adding a newly
/// recognized attribute means adding one arm here; everything else defaults
/// to being discarded.
#[derive(Debug, Clone, Copy, PartialEq, Eq, Structural)]
pub enum AttributeHandler {
    /// Sets the activation-energy accumulator.
    Activation,
    /// Initializes and updates the selected-ion target mass.
    SelectedIonMass,
    /// Copied verbatim into the parameter list with a unit tag.
    Summary(ParamUnit),
    /// A kind whose appearance is a defect to flag.
    Flagged,
    /// Recognized and deliberately discarded.
    Ignored,
}

pub open spec fn spec_classify_attribute(item: MassLynxScanItem) -> AttributeHandler {
    match item {
        MassLynxScanItem::COLLISION_ENERGY => AttributeHandler::Activation,
        MassLynxScanItem::SET_MASS => AttributeHandler::SelectedIonMass,
        MassLynxScanItem::TOTAL_ION_CURRENT => AttributeHandler::Summary(ParamUnit::DetectorCounts),
        MassLynxScanItem::BASE_PEAK_MASS => AttributeHandler::Summary(ParamUnit::MassToCharge),
        MassLynxScanItem::BASE_PEAK_INTENSITY => AttributeHandler::Summary(ParamUnit::DetectorCounts),
        MassLynxScanItem::PEAKS_IN_SCAN => AttributeHandler::Flagged,
        MassLynxScanItem::UNINITIALISED => AttributeHandler::Flagged,
        _ => AttributeHandler::Ignored,
    }
}

/// Maps an attribute kind to its handler.
pub fn classify_attribute(item: MassLynxScanItem) -> (r: AttributeHandler)
    ensures
        r == spec_classify_attribute(item),
{
    match item {
        MassLynxScanItem::COLLISION_ENERGY => AttributeHandler::Activation,
        MassLynxScanItem::SET_MASS => AttributeHandler::SelectedIonMass,
        MassLynxScanItem::TOTAL_ION_CURRENT => AttributeHandler::Summary(ParamUnit::DetectorCounts),
        MassLynxScanItem::BASE_PEAK_MASS => AttributeHandler::Summary(ParamUnit::MassToCharge),
        MassLynxScanItem::BASE_PEAK_INTENSITY => AttributeHandler::Summary(ParamUnit::DetectorCounts),
        MassLynxScanItem::PEAKS_IN_SCAN => AttributeHandler::Flagged,
        MassLynxScanItem::UNINITIALISED => AttributeHandler::Flagged,
        _ => AttributeHandler::Ignored,
    }
}

/// The abstract contents of a translated scan record.
pub struct ScanAttributesView {
    pub selected_ion_mz: Option<Seq<char>>,
    pub activation_energy: Option<Seq<char>>,
    pub params: Seq<(MassLynxScanItem, Seq<char>, ParamUnit)>,
    pub unparsable: Seq<(MassLynxScanItem, Seq<char>)>,
    pub flagged: Seq<MassLynxScanItem>,
}

/// The empty accumulator.
pub open spec fn spec_translate_empty() -> ScanAttributesView {
    ScanAttributesView {
        selected_ion_mz: None,
        activation_energy: None,
        params: Seq::empty(),
        unparsable: Seq::empty(),
        flagged: Seq::empty(),
    }
}

/// One fold step of the translator.
pub open spec fn spec_translate_step(
    acc: ScanAttributesView,
    item: MassLynxScanItem,
    value: Seq<char>,
) -> ScanAttributesView {
    match spec_classify_attribute(item) {
        AttributeHandler::Activation => if spec_numeric(value) {
            ScanAttributesView { activation_energy: Some(value), ..acc }
        } else {
            ScanAttributesView { unparsable: acc.unparsable.push((item, value)), ..acc }
        },
        AttributeHandler::SelectedIonMass => if spec_numeric(value) {
            ScanAttributesView { selected_ion_mz: Some(value), ..acc }
        } else {
            ScanAttributesView { unparsable: acc.unparsable.push((item, value)), ..acc }
        },
        AttributeHandler::Summary(unit) => ScanAttributesView {
            params: acc.params.push((item, value, unit)),
            ..acc
        },
        AttributeHandler::Flagged => ScanAttributesView { flagged: acc.flagged.push(item), ..acc },
        AttributeHandler::Ignored => acc,
    }
}

/// The translated record of an ordered attribute list.
pub open spec fn spec_translate(items: Seq<(MassLynxScanItem, Seq<char>)>) -> ScanAttributesView
    decreases items.len(),
{
    if items.len() == 0 {
        spec_translate_empty()
    } else {
        spec_translate_step(spec_translate(items.drop_last()), items.last().0, items.last().1)
    }
}

/// The abstract contents of an attribute list.
pub open spec fn scan_items_view(items: &Vec<(MassLynxScanItem, String)>) -> Seq<(MassLynxScanItem, Seq<char>)> {
    items@.map_values(|p: (MassLynxScanItem, String)| (p.0, p.1@))
}

/// The structured accumulator a scan's raw attributes fold into.
#[derive(Debug, Default, Clone)]
pub struct ScanAttributes {
    /// The selected-ion target mass, as validated numeric text.
    pub selected_ion_mz: Option<String>,
    /// The activation energy, as validated numeric text.
    pub activation_energy: Option<String>,
    /// The summary attributes copied verbatim, with their units tagged.
    pub params: Vec<(MassLynxScanItem, String, ParamUnit)>,
    /// Attribute-scoped errors: values that failed the numeric grammar.
    pub unparsable: Vec<(MassLynxScanItem, String)>,
    /// Attribute kinds whose appearance is a defect to flag.
    pub flagged: Vec<MassLynxScanItem>,
}

impl ScanAttributes {
    /// The abstract contents of the record.
    pub open spec fn view_spec(&self) -> ScanAttributesView {
        ScanAttributesView {
            selected_ion_mz: match self.selected_ion_mz {
                Some(ref s) => Some(s@),
                None => None,
            },
            activation_energy: match self.activation_energy {
                Some(ref s) => Some(s@),
                None => None,
            },
            params: self.params@.map_values(|p: (MassLynxScanItem, String, ParamUnit)| (p.0, p.1@, p.2)),
            unparsable: self.unparsable@.map_values(|p: (MassLynxScanItem, String)| (p.0, p.1@)),
            flagged: self.flagged@,
        }
    }
}

/// Folds a scan's ordered raw attributes into the structured record.
pub fn translate_scan_attributes(items: &Vec<(MassLynxScanItem, String)>) -> (r: ScanAttributes)
    ensures
        r.view_spec() == spec_translate(scan_items_view(items)),
{
    let mut acc = ScanAttributes {
        selected_ion_mz: None,
        activation_energy: None,
        params: Vec::new(),
        unparsable: Vec::new(),
        flagged: Vec::new(),
    };
    let n = items.len();
    let mut i: usize = 0;
    proof {
        assert(scan_items_view(items).take(0) =~= Seq::<(MassLynxScanItem, Seq<char>)>::empty());
        assert(acc.view_spec().params =~= spec_translate_empty().params);
        assert(acc.view_spec().unparsable =~= spec_translate_empty().unparsable);
        assert(acc.view_spec().flagged =~= spec_translate_empty().flagged);
    }
    while i < n
        invariant
            i <= n == items@.len(),
            acc.view_spec() == spec_translate(scan_items_view(items).take(i as int)),
        decreases n - i,
    {
        let item = items[i].0;
        let value = items[i].1.clone();
        let ghost prev = acc.view_spec();
        proof {
            assert(scan_items_view(items).take(i + 1).drop_last()
                =~= scan_items_view(items).take(i as int));
            assert(scan_items_view(items).take(i + 1).last()
                == (items@[i as int].0, items@[i as int].1@));
        }
        match classify_attribute(item) {
            AttributeHandler::Activation => {
                if is_numeric_str(value.as_str()) {
                    acc.activation_energy = Some(value);
                } else {
                    acc.unparsable.push((item, value));
                }
            }
            AttributeHandler::SelectedIonMass => {
                if is_numeric_str(value.as_str()) {
                    acc.selected_ion_mz = Some(value);
                } else {
                    acc.unparsable.push((item, value));
                }
            }
            AttributeHandler::Summary(unit) => {
                acc.params.push((item, value, unit));
            }
            AttributeHandler::Flagged => {
                acc.flagged.push(item);
            }
            AttributeHandler::Ignored => {}
        }
        proof {
            let target = spec_translate_step(prev, items@[i as int].0, items@[i as int].1@);
            assert(acc.view_spec().params =~= target.params);
            assert(acc.view_spec().unparsable =~= target.unparsable);
            assert(acc.view_spec().flagged =~= target.flagged);
        }
        i += 1;
    }
    proof {
        assert(scan_items_view(items).take(n as int) =~= scan_items_view(items));
    }
    acc
}

/// The structured interpretation of one scan's acquisition metadata and
/// raw attributes: polarity, signal continuity, the translated attribute
/// record, and the precursor assembled from it.
#[derive(Debug, Clone)]
pub struct InterpretedScan {
    pub polarity: ScanPolarity,
    pub continuity: SignalContinuity,
    pub attributes: ScanAttributes,
    pub precursor: Option<Precursor>,
}

/// Interprets one scan's metadata and ordered raw attributes into the
/// structured record: the ion mode gives the polarity, the continuum flag
/// the continuity, the attribute fold the accumulators, and the populated
/// accumulators the precursor.
pub fn interpret_scan(
    ion_mode: MassLynxIonMode,
    is_continuum: bool,
    items: &Vec<(MassLynxScanItem, String)>,
) -> (r: InterpretedScan)
    ensures
        r.polarity == spec_polarity_of(ion_mode),
        r.continuity == spec_continuity_of(is_continuum),
        r.attributes.view_spec() == spec_translate(scan_items_view(items)),
        match r.precursor {
            Some(p) => (r.attributes.selected_ion_mz is Some || r.attributes.activation_energy is Some)
                && (match (p.ion, r.attributes.selected_ion_mz) {
                    (Some(ref ion), Some(ref mz)) => ion.mz@ == mz@,
                    (None, None) => true,
                    _ => false,
                })
                && (match (p.activation, r.attributes.activation_energy) {
                    (Some(ref act), Some(ref e)) => act.energy@ == e@,
                    (None, None) => true,
                    _ => false,
                }),
            None => r.attributes.selected_ion_mz is None && r.attributes.activation_energy is None,
        },
{
    let attributes = translate_scan_attributes(items);
    let precursor = build_precursor(&attributes);
    InterpretedScan {
        polarity: polarity_of(ion_mode),
        continuity: continuity_of(is_continuum),
        attributes,
        precursor,
    }
}

/// The semantic subtype of a chromatogram or analog trace.
#[derive(Debug, Clone, Copy, PartialEq, Eq, Structural)]
pub enum ChromatogramKind {
    TotalIonCurrent,
    BasePeak,
    Temperature,
    FlowRate,
    Pressure,
    Percent,
    Unknown,
}

pub open spec fn is_space_char(c: char) -> bool {
    c == ' ' || c == '\t' || c == '\r' || c == '\n'
}

pub open spec fn spec_trim_front(s: Seq<char>) -> Seq<char>
    decreases s.len(),
{
    if s.len() > 0 && is_space_char(s[0]) {
        spec_trim_front(s.skip(1))
    } else {
        s
    }
}

pub open spec fn spec_trim_back(s: Seq<char>) -> Seq<char>
    decreases s.len(),
{
    if s.len() > 0 && is_space_char(s.last()) {
        spec_trim_back(s.drop_last())
    } else {
        s
    }
}

/// A channel's unit string as the classifier sees it.  A string opening
/// with the replacement character of the driver's text decoding has that
/// marker dropped and the surrounding whitespace trimmed; any other string
/// is kept exactly as reported, so classification is an exact match on it.
pub open spec fn spec_normalize_unit(u: Seq<char>) -> Seq<char> {
    if u.len() >= 1 && u[0] == '\u{FFFD}' {
        spec_trim_back(spec_trim_front(u.skip(1)))
    } else {
        u
    }
}

/// The subtype an analog channel's unit string denotes, by exact match of
/// the normalized unit; anything else is `Unknown`.
pub open spec fn spec_classify_trace_unit(u: Seq<char>) -> ChromatogramKind {
    let t = spec_normalize_unit(u);
    if t == seq!['C'] {
        ChromatogramKind::Temperature
    } else if t == seq!['L', '/', 'm', 'i', 'n'] {
        ChromatogramKind::FlowRate
    } else if t == seq!['p', 's', 'i'] {
        ChromatogramKind::Pressure
    } else if t == seq!['%'] {
        ChromatogramKind::Percent
    } else {
        ChromatogramKind::Unknown
    }
}

/// When every character before `i` is whitespace and `i` is not, the trim
/// stops at `i`.
pub proof fn lemma_trim_front_at(s: Seq<char>, i: int)
    requires
        0 <= i <= s.len(),
        forall|j: int| 0 <= j < i ==> is_space_char(#[trigger] s[j]),
        i < s.len() ==> !is_space_char(s[i]),
    ensures
        spec_trim_front(s) == s.skip(i),
    decreases i,
{
    if i == 0 {
        if s.len() > 0 && is_space_char(s[0]) {
            assert(false);
        }
        assert(s.skip(0) =~= s);
    } else {
        assert(is_space_char(s[0]));
        assert forall|j: int| 0 <= j < i - 1 implies is_space_char(#[trigger] s.skip(1)[j]) by {
            assert(s.skip(1)[j] == s[j + 1]);
        }
        if i - 1 < s.skip(1).len() {
            assert(s.skip(1)[i - 1] == s[i]);
        }
        lemma_trim_front_at(s.skip(1), i - 1);
        assert(s.skip(1).skip(i - 1) =~= s.skip(i));
    }
}

/// When every character from `i` on is whitespace and the one before `i`
/// is not, the trim stops at `i`.
pub proof fn lemma_trim_back_at(s: Seq<char>, i: int)
    requires
        0 <= i <= s.len(),
        forall|j: int| i <= j < s.len() ==> is_space_char(#[trigger] s[j]),
        i > 0 ==> !is_space_char(s[i - 1]),
    ensures
        spec_trim_back(s) == s.take(i),
    decreases s.len(),
{
    if i == s.len() {
        if s.len() > 0 && is_space_char(s.last()) {
            assert(false);
        }
        assert(s.take(i) =~= s);
    } else {
        assert(is_space_char(s.last()));
        lemma_trim_back_at(s.drop_last(), i);
        assert(s.drop_last().take(i) =~= s.take(i));
    }
}

/// Normalizes a channel's unit string: only a string opening with the
/// replacement character has that marker dropped and the surrounding
/// whitespace trimmed; any other string comes back unchanged.
pub fn normalize_unit(u: &str) -> (r: String)
    ensures
        r@ == spec_normalize_unit(u@),
{
    let n = u.unicode_len();
    if n == 0 || u.get_char(0) != '\u{FFFD}' {
        return String::from_str(u);
    }
    let ghost t = u@.skip(1);
    proof {
        assert(t =~= u@.subrange(1, n as int));
    }
    let mut lo: usize = 1;
    while lo < n && is_space(u.get_char(lo))
        invariant
            1 <= lo <= n == u@.len(),
            forall|j: int| 1 <= j < lo ==> is_space_char(#[trigger] u@[j]),
        decreases n - lo,
    {
        lo += 1;
    }
    let mut hi: usize = n;
    while hi > lo && is_space(u.get_char(hi - 1))
        invariant
            lo <= hi <= n == u@.len(),
            forall|j: int| hi <= j < n ==> is_space_char(#[trigger] u@[j]),
        decreases hi,
    {
        hi -= 1;
    }
    let r = String::from_str(u.substring_char(lo, hi));
    proof {
        let a = lo - 1;
        assert forall|j: int| 0 <= j < a implies is_space_char(#[trigger] t[j]) by {
            assert(t[j] == u@[1 + j]);
        }
        if a < t.len() {
            assert(t[a] == u@[lo as int]);
        }
        lemma_trim_front_at(t, a);
        let s1 = t.skip(a);
        let b = hi - lo;
        assert forall|j: int| b <= j < s1.len() implies is_space_char(#[trigger] s1[j]) by {
            assert(s1[j] == u@[lo + j]);
        }
        if b > 0 {
            assert(s1[b - 1] == u@[hi - 1]);
        }
        lemma_trim_back_at(s1, b);
        assert(s1.take(b) =~= u@.subrange(lo as int, hi as int));
    }
    r
}

fn is_space(c: char) -> (b: bool)
    ensures
        b == is_space_char(c),
{
    c == ' ' || c == '\t' || c == '\r' || c == '\n'
}

/// Classifies an analog channel's unit string into its trace subtype.
pub fn classify_trace_unit(u: &str) -> (k: ChromatogramKind)
    ensures
        k == spec_classify_trace_unit(u@),
{
    let normalized = normalize_unit(u);
    proof {
        reveal_strlit("C");
        reveal_strlit("L/min");
        reveal_strlit("psi");
        reveal_strlit("%");
        assert("C"@ =~= seq!['C']);
        assert("L/min"@ =~= seq!['L', '/', 'm', 'i', 'n']);
        assert("psi"@ =~= seq!['p', 's', 'i']);
        assert("%"@ =~= seq!['%']);
    }
    if normalized == String::from_str("C") {
        ChromatogramKind::Temperature
    } else if normalized == String::from_str("L/min") {
        ChromatogramKind::FlowRate
    } else if normalized == String::from_str("psi") {
        ChromatogramKind::Pressure
    } else if normalized == String::from_str("%") {
        ChromatogramKind::Percent
    } else {
        ChromatogramKind::Unknown
    }
}

/// A selected (precursor) ion: its target mass as numeric text.
#[derive(Debug, Default, Clone)]
pub struct SelectedIon {
    pub mz: String,
}

/// A precursor activation: its energy as numeric text.
#[derive(Debug, Default, Clone)]
pub struct Activation {
    pub energy: String,
}

/// A precursor record: the selected ion and the activation attached to it.
#[derive(Debug, Default, Clone)]
pub struct Precursor {
    pub ion: Option<SelectedIon>,
    pub activation: Option<Activation>,
}

/// Attaches the populated accumulators to one precursor record: present
/// exactly when a selected ion or an activation energy was populated.
pub fn build_precursor(attrs: &ScanAttributes) -> (r: Option<Precursor>)
    ensures
        match r {
            Some(p) => (attrs.selected_ion_mz is Some || attrs.activation_energy is Some)
                && (match (p.ion, attrs.selected_ion_mz) {
                    (Some(ref ion), Some(ref mz)) => ion.mz@ == mz@,
                    (None, None) => true,
                    _ => false,
                })
                && (match (p.activation, attrs.activation_energy) {
                    (Some(ref act), Some(ref e)) => act.energy@ == e@,
                    (None, None) => true,
                    _ => false,
                }),
            None => attrs.selected_ion_mz is None && attrs.activation_energy is None,
        },
{
    if attrs.selected_ion_mz.is_none() && attrs.activation_energy.is_none() {
        return None;
    }
    let ion = match &attrs.selected_ion_mz {
        Some(mz) => Some(SelectedIon { mz: mz.clone() }),
        None => None,
    };
    let activation = match &attrs.activation_energy {
        Some(e) => Some(Activation { energy: e.clone() }),
        None => None,
    };
    Some(Precursor { ion, activation })
}

} // verus!
