//! Heater, a saturator: an input gain, a saturation intensity and an output gain.
use vstd::prelude::*;
use crate::descriptor::{
    DescriptorInfo, Feature, build_descriptor, descriptor_features, descriptor_texts, feature_text,
    no_nul,
};
use clack_plugin::plugin::PluginDescriptor;
use crate::params::{
    AfterParse, Digits, DisplayRule, EventKind, ParamFlags, ParseRule, Read, Shown, Store, Target,
    display_parse_agree, read_display_agree, store_read_inverse,
};
use crate::text::{Unit, number_part, number_text, utf8_len};

verus! {

/// The saturator.
pub struct Heater;

/// Heater's parameters, in the order the host lists them.
#[derive(Clone, Copy, Debug, PartialEq, Eq, Structural)]
pub enum HeaterParam {
    /// The gain before saturation, in decibels.
    Pregain,
    /// How strongly the signal is saturated, from 0 up to just below 1.
    Intensity,
    /// The gain after saturation, in decibels.
    Postgain,
}

/// The number of Heater's parameters.
pub open spec fn heater_param_count() -> u32 {
    3
}

/// The parameter at a position in the host's list, which is also its id.
pub open spec fn heater_param_at(index: u32) -> Option<HeaterParam> {
    if index == 0 {
        Some(HeaterParam::Pregain)
    } else if index == 1 {
        Some(HeaterParam::Intensity)
    } else if index == 2 {
        Some(HeaterParam::Postgain)
    } else {
        None
    }
}

/// The id the host knows a parameter by.
pub open spec fn heater_id(p: HeaterParam) -> u32 {
    match p {
        HeaterParam::Pregain => 0,
        HeaterParam::Intensity => 1,
        HeaterParam::Postgain => 2,
    }
}

/// The parameter an id names, if any.
pub open spec fn heater_param_of(id: u32) -> Option<HeaterParam> {
    heater_param_at(id)
}

/// The parameter saved at a position of the state: the parameters in list order.
pub open spec fn heater_state_at(slot: int) -> Option<HeaterParam> {
    if 0 <= slot < 3 {
        heater_param_at(slot as u32)
    } else {
        None
    }
}

/// How an event's number is stored: the gains arrive in decibels and are kept as
/// amplitude factors.
pub open spec fn heater_store(p: HeaterParam) -> Store {
    match p {
        HeaterParam::Intensity => Store::Identity,
        _ => Store::DbToAmp,
    }
}

/// How a stored value is given to the host.
pub open spec fn heater_read(p: HeaterParam) -> Read {
    match p {
        HeaterParam::Intensity => Read::Identity,
        _ => Read::AmpToDb,
    }
}

/// How a value is shown: the gains in decibels with one decimal, the intensity in
/// whole per cent.
pub open spec fn heater_display(p: HeaterParam) -> DisplayRule {
    match p {
        HeaterParam::Intensity => DisplayRule {
            shown: Shown::Hundredfold,
            digits: Digits::WholeNumber,
            unit: Unit::Percent,
        },
        _ => DisplayRule { shown: Shown::Identity, digits: Digits::OneDecimal, unit: Unit::Decibels },
    }
}

/// How a value is read from text.
pub open spec fn heater_parse(p: HeaterParam) -> ParseRule {
    match p {
        HeaterParam::Intensity => ParseRule { unit: Unit::Percent, after: AfterParse::Hundredth },
        _ => ParseRule { unit: Unit::Decibels, after: AfterParse::Identity },
    }
}

/// What an event sets: the parameter its id names, the value or the modulation as the
/// event's kind says, converted as the parameter stores it.
pub open spec fn heater_event(kind: EventKind, id: Option<u32>) -> Option<
    (HeaterParam, Target, Store),
> {
    match id {
        Some(i) => match heater_param_of(i) {
            Some(p) => match kind {
                EventKind::ParamValue => Some((p, Target::Value, heater_store(p))),
                EventKind::ParamMod => Some((p, Target::Modulation, heater_store(p))),
                EventKind::Other => None,
            },
            None => None,
        },
        None => None,
    }
}

/// The parameter whose value the host asks for by id, and how its stored value is
/// converted for the host.
pub open spec fn heater_value_source(id: u32) -> Option<(HeaterParam, Read)> {
    match heater_param_of(id) {
        Some(p) => Some((p, heater_read(p))),
        None => None,
    }
}

/// How the value of the parameter with an id is shown.
pub open spec fn heater_display_rule(id: u32) -> Option<DisplayRule> {
    match heater_param_of(id) {
        Some(p) => Some(heater_display(p)),
        None => None,
    }
}

/// How the text for the parameter with an id is read.
pub open spec fn heater_parse_rule(id: u32) -> Option<ParseRule> {
    match heater_param_of(id) {
        Some(p) => Some(heater_parse(p)),
        None => None,
    }
}

impl HeaterParam {
    /// The id the host knows this parameter by.
    pub fn id(&self) -> (r: u32)
        ensures
            r == heater_id(*self),
    {
        match self {
            HeaterParam::Pregain => 0,
            HeaterParam::Intensity => 1,
            HeaterParam::Postgain => 2,
        }
    }

    /// The parameter's name as the host shows it.
    pub fn name(&self) -> (r: &'static str)
        ensures
            r@ == (match *self {
                HeaterParam::Pregain => "pregain"@,
                HeaterParam::Intensity => "intensity"@,
                HeaterParam::Postgain => "postgain"@,
            }),
    {
        match self {
            HeaterParam::Pregain => "pregain",
            HeaterParam::Intensity => "intensity",
            HeaterParam::Postgain => "postgain",
        }
    }

    /// Every parameter can be automated and modulated.
    pub fn flags(&self) -> (r: ParamFlags)
        ensures
            r.automatable && r.modulatable,
    {
        ParamFlags { automatable: true, modulatable: true }
    }

    /// How an event's number for this parameter is stored.
    pub fn store(&self) -> (r: Store)
        ensures
            r == heater_store(*self),
    {
        match self {
            HeaterParam::Intensity => Store::Identity,
            _ => Store::DbToAmp,
        }
    }

    /// How this parameter's stored value is given to the host.
    pub fn read(&self) -> (r: Read)
        ensures
            r == heater_read(*self),
    {
        match self {
            HeaterParam::Intensity => Read::Identity,
            _ => Read::AmpToDb,
        }
    }

    /// How this parameter's value is shown.
    pub fn display(&self) -> (r: DisplayRule)
        ensures
            r == heater_display(*self),
    {
        match self {
            HeaterParam::Intensity => DisplayRule {
                shown: Shown::Hundredfold,
                digits: Digits::WholeNumber,
                unit: Unit::Percent,
            },
            _ => DisplayRule {
                shown: Shown::Identity,
                digits: Digits::OneDecimal,
                unit: Unit::Decibels,
            },
        }
    }

    /// How this parameter's value is read from text.
    pub fn parse(&self) -> (r: ParseRule)
        ensures
            r == heater_parse(*self),
    {
        match self {
            HeaterParam::Intensity => ParseRule { unit: Unit::Percent, after: AfterParse::Hundredth },
            _ => ParseRule { unit: Unit::Decibels, after: AfterParse::Identity },
        }
    }
}

impl Heater {
    /// The plugin's identifier.
    pub const ID: &'static str = "com.edwloef.heater";

    /// What the plugin's descriptor holds besides its version.
    pub fn descriptor_info() -> (r: DescriptorInfo)
        ensures
            r.id@ == "com.edwloef.heater"@,
            r.name@ == "Heater"@,
            r.vendor@ == "edwloef"@,
            r.features@ == seq![Feature::AudioEffect, Feature::Distortion, Feature::Stereo],
    {
        let mut features: Vec<Feature> = Vec::new();
        features.push(Feature::AudioEffect);
        features.push(Feature::Distortion);
        features.push(Feature::Stereo);
        proof {
            assert(features@ =~= seq![Feature::AudioEffect, Feature::Distortion, Feature::Stereo]);
        }
        DescriptorInfo { id: Heater::ID, name: "Heater", vendor: "edwloef", features }
    }

    /// The plugin's CLAP descriptor, for the given version: it holds the plugin's id,
    /// name and vendor, the version, and the plugin's features.
    pub fn descriptor(version: &str) -> (d: PluginDescriptor)
        requires
            no_nul(version@),
        ensures
            descriptor_texts(d) == seq!["com.edwloef.heater"@, "Heater"@, "edwloef"@, version@],
            descriptor_features(d) == seq!["audio-effect"@, "distortion"@, "stereo"@],
    {
        let info = Heater::descriptor_info();
        proof {
            reveal_strlit("com.edwloef.heater");
            reveal_strlit("Heater");
            reveal_strlit("edwloef");
        }
        let d = build_descriptor(&info, version);
        proof {
            assert(info.features@.map_values(|f: Feature| feature_text(f)) =~= seq!["audio-effect"@, "distortion"@, "stereo"@]);
        }
        d
    }

    /// The number of parameters the plugin declares.
    pub fn param_count() -> (r: u32)
        ensures
            r == heater_param_count(),
    {
        3
    }

    /// The parameter at a position in the host's list.
    pub fn param_at(index: u32) -> (r: Option<HeaterParam>)
        ensures
            r == heater_param_at(index),
    {
        if index == 0 {
            Some(HeaterParam::Pregain)
        } else if index == 1 {
            Some(HeaterParam::Intensity)
        } else if index == 2 {
            Some(HeaterParam::Postgain)
        } else {
            None
        }
    }

    /// The parameter an id names, if any.
    pub fn param_of(id: u32) -> (r: Option<HeaterParam>)
        ensures
            r == heater_param_of(id),
    {
        Heater::param_at(id)
    }

    /// What a host event sets, if anything: events of other kinds, events without a
    /// parameter id and events for an unknown id set nothing.
    pub fn event_target(kind: EventKind, id: Option<u32>) -> (r: Option<
        (HeaterParam, Target, Store),
    >)
        ensures
            r == heater_event(kind, id),
    {
        match id {
            Some(i) => match Heater::param_of(i) {
                Some(p) => match kind {
                    EventKind::ParamValue => Some((p, Target::Value, p.store())),
                    EventKind::ParamMod => Some((p, Target::Modulation, p.store())),
                    EventKind::Other => None,
                },
                None => None,
            },
            None => None,
        }
    }

    /// The parameter whose value the host asks for, and how its stored value is
    /// converted for the host; `None` for an unknown id.
    pub fn value_source(id: u32) -> (r: Option<(HeaterParam, Read)>)
        ensures
            r == heater_value_source(id),
    {
        match Heater::param_of(id) {
            Some(p) => Some((p, p.read())),
            None => None,
        }
    }

    /// How the value of the parameter with this id is shown; `None` for an unknown id,
    /// for which no text is written.
    pub fn display_rule(id: u32) -> (r: Option<DisplayRule>)
        ensures
            r == heater_display_rule(id),
    {
        match Heater::param_of(id) {
            Some(p) => Some(p.display()),
            None => None,
        }
    }

    /// The number to parse from a text the host gives for the parameter with this id,
    /// and the conversion to apply to it; `None` for an unknown id.
    pub fn text_number(id: u32, text: &Vec<char>) -> (r: Option<(Vec<char>, AfterParse)>)
        requires
            utf8_len(text@) <= usize::MAX,
        ensures
            heater_parse_rule(id) is None ==> r is None,
            heater_parse_rule(id) matches Some(rule) ==> r matches Some(x) && x.0@ == number_part(
                text@,
                rule.unit,
            ) && x.1 == rule.after,
    {
        match Heater::param_of(id) {
            Some(p) => {
                let rule = p.parse();
                Some((number_text(text, rule.unit), rule.after))
            },
            None => None,
        }
    }

    /// The number of parameter values in the saved state.
    pub fn state_len() -> (r: usize)
        ensures
            r == 3,
    {
        3
    }

    /// The parameter saved at a position of the state: the parameters in their list
    /// order.
    pub fn state_param(slot: usize) -> (r: Option<HeaterParam>)
        ensures
            r == heater_state_at(slot as int),
    {
        if slot < 3 {
            Heater::param_at(slot as u32)
        } else {
            None
        }
    }
}

/// The parameter list is complete and without repeats: the positions below the count
/// name parameters, none beyond it does, every parameter stands at the position given
/// by its id, and every id names its own parameter.
pub proof fn lemma_heater_params_listed(index: u32, p: HeaterParam)
    ensures
        heater_param_at(index) is Some <==> index < heater_param_count(),
        heater_param_at(heater_id(p)) == Some(p),
        heater_param_of(heater_id(p)) == Some(p),
        heater_id(p) < heater_param_count(),
{
}

/// Every declared parameter is served by every parameter callback: its value and
/// modulation events reach it, its value can be read, shown and parsed. An id the
/// plugin does not declare is refused by all of them.
pub proof fn lemma_heater_ids_served(id: u32, kind: EventKind)
    ensures
        heater_param_of(id) is Some <==> id < heater_param_count(),
        kind != EventKind::Other ==> (heater_event(kind, Some(id)) is Some <==> heater_param_of(id) is Some),
        heater_value_source(id) is Some <==> heater_param_of(id) is Some,
        heater_display_rule(id) is Some <==> heater_param_of(id) is Some,
        heater_parse_rule(id) is Some <==> heater_param_of(id) is Some,
        heater_event(kind, None) is None,
        heater_event(EventKind::Other, Some(id)) is None,
{
}

/// Reading a parameter undoes the conversion of storing it, and text shown for a
/// value is read back by the same parameter's parsing rule.
pub proof fn lemma_heater_conversions_agree(p: HeaterParam)
    ensures
        store_read_inverse(heater_store(p), heater_read(p)),
        display_parse_agree(heater_display(p), heater_parse(p)),
{
}

/// The saved state holds each parameter exactly once: every parameter has a position
/// in it, and distinct positions hold distinct parameters.
pub proof fn lemma_heater_state_covers(p: HeaterParam, i: int, j: int)
    ensures
        heater_state_at(heater_id(p) as int) == Some(p),
        0 <= i < 3 ==> heater_state_at(i) is Some,
        heater_state_at(i) is Some && heater_state_at(i) == heater_state_at(j) ==> i == j,
{
}

/// The parameter callbacks agree with one another on every id. An event reaches the
/// parameter the id names; it sets the value exactly when it is a value event; a
/// value event and a modulation event for one id convert their number the same way;
/// reading the parameter back for the host undoes that conversion; the value the
/// host reads is the one the display starts from; and what the display shows is read
/// back by the same id's parsing rule.
pub proof fn lemma_heater_callbacks_agree(id: u32, kind: EventKind)
    ensures
        heater_event(kind, Some(id)) matches Some((p, t, s)) ==> {
            &&& heater_param_at(id) == Some(p)
            &&& (t == Target::Value <==> kind == EventKind::ParamValue)
            &&& heater_value_source(id) matches Some((q, r)) && q == p && store_read_inverse(s, r)
        },
        heater_event(EventKind::ParamValue, Some(id)) matches Some((p, _t, s)) ==> heater_event(
            EventKind::ParamMod,
            Some(id),
        ) matches Some((q, _u, v)) && q == p && v == s,
        heater_value_source(id) matches Some((p, r)) ==> {
            &&& heater_param_at(id) == Some(p)
            &&& heater_display_rule(id) matches Some(d) && read_display_agree(r, d)
        },
        heater_display_rule(id) matches Some(d) ==> heater_parse_rule(id) matches Some(rule)
            && display_parse_agree(d, rule),
        heater_parse_rule(id) is Some ==> heater_event(EventKind::ParamValue, Some(id)) is Some,
{
}

} // verus!
