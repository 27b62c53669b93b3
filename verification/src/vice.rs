//! Vice, a compressor: ratio, threshold, knee, attack, release and an output gain.
use vstd::prelude::*;
use crate::descriptor::{
    DescriptorInfo, Feature, build_descriptor, descriptor_features, descriptor_texts, feature_text,
    no_nul,
};
use clack_plugin::plugin::PluginDescriptor;
use crate::params::{
    AfterParse, Digits, DisplayRule, EventKind, ParamFlags, ParseRule, Read, Shown, Store, Target,
    display_parse_agree, read_display_agree, store_read_inverse,
};
use crate::text::{Unit, number_part, number_text, utf8_len};

verus! {

/// The compressor.
pub struct Vice;

/// Vice's parameters, in the order the host lists them.
#[derive(Clone, Copy, Debug, PartialEq, Eq, Structural)]
pub enum ViceParam {
    /// The compression ratio; the host sees its cube root.
    Ratio,
    /// The level above which the signal is compressed, in decibels.
    Threshold,
    /// The width of the soft knee around the threshold, in decibels.
    Knee,
    /// The attack time in milliseconds; the host sees its cube root.
    Attack,
    /// The release time in milliseconds; the host sees its cube root.
    Release,
    /// The gain after compression, in decibels.
    Postgain,
}

/// The number of Vice's parameters.
pub open spec fn vice_param_count() -> u32 {
    6
}

/// The parameter at a position in the host's list, which is also its id.
pub open spec fn vice_param_at(index: u32) -> Option<ViceParam> {
    if index == 0 {
        Some(ViceParam::Ratio)
    } else if index == 1 {
        Some(ViceParam::Threshold)
    } else if index == 2 {
        Some(ViceParam::Knee)
    } else if index == 3 {
        Some(ViceParam::Attack)
    } else if index == 4 {
        Some(ViceParam::Release)
    } else if index == 5 {
        Some(ViceParam::Postgain)
    } else {
        None
    }
}

/// The id the host knows a parameter by.
pub open spec fn vice_id(p: ViceParam) -> u32 {
    match p {
        ViceParam::Ratio => 0,
        ViceParam::Threshold => 1,
        ViceParam::Knee => 2,
        ViceParam::Attack => 3,
        ViceParam::Release => 4,
        ViceParam::Postgain => 5,
    }
}

/// The parameter an id names, if any.
pub open spec fn vice_param_of(id: u32) -> Option<ViceParam> {
    vice_param_at(id)
}

/// The parameter saved at a position of the state: the parameters in list order.
pub open spec fn vice_state_at(slot: int) -> Option<ViceParam> {
    if 0 <= slot < 6 {
        vice_param_at(slot as u32)
    } else {
        None
    }
}

/// How an event's number is stored: ratio and times arrive as cube roots and are kept
/// as their cubes, the output gain arrives in decibels and is kept as an amplitude
/// factor.
pub open spec fn vice_store(p: ViceParam) -> Store {
    match p {
        ViceParam::Ratio | ViceParam::Attack | ViceParam::Release => Store::Cube,
        ViceParam::Threshold | ViceParam::Knee => Store::Identity,
        ViceParam::Postgain => Store::DbToAmp,
    }
}

/// How a stored value is given to the host.
pub open spec fn vice_read(p: ViceParam) -> Read {
    match p {
        ViceParam::Ratio | ViceParam::Attack | ViceParam::Release => Read::CubeRoot,
        ViceParam::Threshold | ViceParam::Knee => Read::Identity,
        ViceParam::Postgain => Read::AmpToDb,
    }
}

/// How a value is shown, always with one decimal: the ratio as a bare number, the
/// levels in decibels, the times in milliseconds.
pub open spec fn vice_display(p: ViceParam) -> DisplayRule {
    match p {
        ViceParam::Ratio => DisplayRule {
            shown: Shown::Cube,
            digits: Digits::OneDecimal,
            unit: Unit::Bare,
        },
        ViceParam::Attack | ViceParam::Release => DisplayRule {
            shown: Shown::Cube,
            digits: Digits::OneDecimal,
            unit: Unit::Millis,
        },
        _ => DisplayRule { shown: Shown::Identity, digits: Digits::OneDecimal, unit: Unit::Decibels },
    }
}

/// How a value is read from text.
pub open spec fn vice_parse(p: ViceParam) -> ParseRule {
    match p {
        ViceParam::Ratio => ParseRule { unit: Unit::Bare, after: AfterParse::CubeRoot },
        ViceParam::Attack | ViceParam::Release => ParseRule {
            unit: Unit::Millis,
            after: AfterParse::CubeRoot,
        },
        _ => ParseRule { unit: Unit::Decibels, after: AfterParse::Identity },
    }
}

/// What an event sets: the parameter its id names, the value or the modulation as the
/// event's kind says, converted as the parameter stores it.
pub open spec fn vice_event(kind: EventKind, id: Option<u32>) -> Option<(ViceParam, Target, Store)> {
    match id {
        Some(i) => match vice_param_of(i) {
            Some(p) => match kind {
                EventKind::ParamValue => Some((p, Target::Value, vice_store(p))),
                EventKind::ParamMod => Some((p, Target::Modulation, vice_store(p))),
                EventKind::Other => None,
            },
            None => None,
        },
        None => None,
    }
}

/// The parameter whose value the host asks for by id, and how its stored value is
/// converted for the host.
pub open spec fn vice_value_source(id: u32) -> Option<(ViceParam, Read)> {
    match vice_param_of(id) {
        Some(p) => Some((p, vice_read(p))),
        None => None,
    }
}

/// How the value of the parameter with an id is shown.
pub open spec fn vice_display_rule(id: u32) -> Option<DisplayRule> {
    match vice_param_of(id) {
        Some(p) => Some(vice_display(p)),
        None => None,
    }
}

/// How the text for the parameter with an id is read.
pub open spec fn vice_parse_rule(id: u32) -> Option<ParseRule> {
    match vice_param_of(id) {
        Some(p) => Some(vice_parse(p)),
        None => None,
    }
}

impl ViceParam {
    /// The id the host knows this parameter by.
    pub fn id(&self) -> (r: u32)
        ensures
            r == vice_id(*self),
    {
        match self {
            ViceParam::Ratio => 0,
            ViceParam::Threshold => 1,
            ViceParam::Knee => 2,
            ViceParam::Attack => 3,
            ViceParam::Release => 4,
            ViceParam::Postgain => 5,
        }
    }

    /// The parameter's name as the host shows it.
    pub fn name(&self) -> (r: &'static str)
        ensures
            r@ == (match *self {
                ViceParam::Ratio => "ratio"@,
                ViceParam::Threshold => "threshold"@,
                ViceParam::Knee => "knee"@,
                ViceParam::Attack => "attack"@,
                ViceParam::Release => "release"@,
                ViceParam::Postgain => "postgain"@,
            }),
    {
        match self {
            ViceParam::Ratio => "ratio",
            ViceParam::Threshold => "threshold",
            ViceParam::Knee => "knee",
            ViceParam::Attack => "attack",
            ViceParam::Release => "release",
            ViceParam::Postgain => "postgain",
        }
    }

    /// Every parameter can be automated and modulated.
    pub fn flags(&self) -> (r: ParamFlags)
        ensures
            r.automatable && r.modulatable,
    {
        ParamFlags { automatable: true, modulatable: true }
    }

    /// How an event's number for this parameter is stored.
    pub fn store(&self) -> (r: Store)
        ensures
            r == vice_store(*self),
    {
        match self {
            ViceParam::Ratio | ViceParam::Attack | ViceParam::Release => Store::Cube,
            ViceParam::Threshold | ViceParam::Knee => Store::Identity,
            ViceParam::Postgain => Store::DbToAmp,
        }
    }

    /// How this parameter's stored value is given to the host.
    pub fn read(&self) -> (r: Read)
        ensures
            r == vice_read(*self),
    {
        match self {
            ViceParam::Ratio | ViceParam::Attack | ViceParam::Release => Read::CubeRoot,
            ViceParam::Threshold | ViceParam::Knee => Read::Identity,
            ViceParam::Postgain => Read::AmpToDb,
        }
    }

    /// How this parameter's value is shown.
    pub fn display(&self) -> (r: DisplayRule)
        ensures
            r == vice_display(*self),
    {
        match self {
            ViceParam::Ratio => DisplayRule {
                shown: Shown::Cube,
                digits: Digits::OneDecimal,
                unit: Unit::Bare,
            },
            ViceParam::Attack | ViceParam::Release => DisplayRule {
                shown: Shown::Cube,
                digits: Digits::OneDecimal,
                unit: Unit::Millis,
            },
            _ => DisplayRule {
                shown: Shown::Identity,
                digits: Digits::OneDecimal,
                unit: Unit::Decibels,
            },
        }
    }

    /// How this parameter's value is read from text.
    pub fn parse(&self) -> (r: ParseRule)
        ensures
            r == vice_parse(*self),
    {
        match self {
            ViceParam::Ratio => ParseRule { unit: Unit::Bare, after: AfterParse::CubeRoot },
            ViceParam::Attack | ViceParam::Release => ParseRule {
                unit: Unit::Millis,
                after: AfterParse::CubeRoot,
            },
            _ => ParseRule { unit: Unit::Decibels, after: AfterParse::Identity },
        }
    }
}

impl Vice {
    /// The plugin's identifier.
    pub const ID: &'static str = "com.edwloef.vice";

    /// What the plugin's descriptor holds besides its version.
    pub fn descriptor_info() -> (r: DescriptorInfo)
        ensures
            r.id@ == "com.edwloef.vice"@,
            r.name@ == "Vice"@,
            r.vendor@ == "edwloef"@,
            r.features@ == seq![Feature::AudioEffect, Feature::Compressor, Feature::Stereo],
    {
        let mut features: Vec<Feature> = Vec::new();
        features.push(Feature::AudioEffect);
        features.push(Feature::Compressor);
        features.push(Feature::Stereo);
        proof {
            assert(features@ =~= seq![Feature::AudioEffect, Feature::Compressor, Feature::Stereo]);
        }
        DescriptorInfo { id: Vice::ID, name: "Vice", vendor: "edwloef", features }
    }

    /// The plugin's CLAP descriptor, for the given version: it holds the plugin's id,
    /// name and vendor, the version, and the plugin's features.
    pub fn descriptor(version: &str) -> (d: PluginDescriptor)
        requires
            no_nul(version@),
        ensures
            descriptor_texts(d) == seq!["com.edwloef.vice"@, "Vice"@, "edwloef"@, version@],
            descriptor_features(d) == seq!["audio-effect"@, "compressor"@, "stereo"@],
    {
        let info = Vice::descriptor_info();
        proof {
            reveal_strlit("com.edwloef.vice");
            reveal_strlit("Vice");
            reveal_strlit("edwloef");
        }
        let d = build_descriptor(&info, version);
        proof {
            assert(info.features@.map_values(|f: Feature| feature_text(f)) =~= seq!["audio-effect"@, "compressor"@, "stereo"@]);
        }
        d
    }

    /// The number of parameters the plugin declares.
    pub fn param_count() -> (r: u32)
        ensures
            r == vice_param_count(),
    {
        6
    }

    /// The parameter at a position in the host's list.
    pub fn param_at(index: u32) -> (r: Option<ViceParam>)
        ensures
            r == vice_param_at(index),
    {
        if index == 0 {
            Some(ViceParam::Ratio)
        } else if index == 1 {
            Some(ViceParam::Threshold)
        } else if index == 2 {
            Some(ViceParam::Knee)
        } else if index == 3 {
            Some(ViceParam::Attack)
        } else if index == 4 {
            Some(ViceParam::Release)
        } else if index == 5 {
            Some(ViceParam::Postgain)
        } else {
            None
        }
    }

    /// The parameter an id names, if any.
    pub fn param_of(id: u32) -> (r: Option<ViceParam>)
        ensures
            r == vice_param_of(id),
    {
        Vice::param_at(id)
    }

    /// What a host event sets, if anything: events of other kinds, events without a
    /// parameter id and events for an unknown id set nothing.
    pub fn event_target(kind: EventKind, id: Option<u32>) -> (r: Option<(ViceParam, Target, Store)>)
        ensures
            r == vice_event(kind, id),
    {
        match id {
            Some(i) => match Vice::param_of(i) {
                Some(p) => match kind {
                    EventKind::ParamValue => Some((p, Target::Value, p.store())),
                    EventKind::ParamMod => Some((p, Target::Modulation, p.store())),
                    EventKind::Other => None,
                },
                None => None,
            },
            None => None,
        }
    }

    /// The parameter whose value the host asks for, and how its stored value is
    /// converted for the host; `None` for an unknown id.
    pub fn value_source(id: u32) -> (r: Option<(ViceParam, Read)>)
        ensures
            r == vice_value_source(id),
    {
        match Vice::param_of(id) {
            Some(p) => Some((p, p.read())),
            None => None,
        }
    }

    /// How the value of the parameter with this id is shown; `None` for an unknown id,
    /// for which no text is written.
    pub fn display_rule(id: u32) -> (r: Option<DisplayRule>)
        ensures
            r == vice_display_rule(id),
    {
        match Vice::param_of(id) {
            Some(p) => Some(p.display()),
            None => None,
        }
    }

    /// The number to parse from a text the host gives for the parameter with this id,
    /// and the conversion to apply to it; `None` for an unknown id.
    pub fn text_number(id: u32, text: &Vec<char>) -> (r: Option<(Vec<char>, AfterParse)>)
        requires
            utf8_len(text@) <= usize::MAX,
        ensures
            vice_parse_rule(id) is None ==> r is None,
            vice_parse_rule(id) matches Some(rule) ==> r matches Some(x) && x.0@ == number_part(
                text@,
                rule.unit,
            ) && x.1 == rule.after,
    {
        match Vice::param_of(id) {
            Some(p) => {
                let rule = p.parse();
                Some((number_text(text, rule.unit), rule.after))
            },
            None => None,
        }
    }

    /// The number of parameter values in the saved state.
    pub fn state_len() -> (r: usize)
        ensures
            r == 6,
    {
        6
    }

    /// The parameter saved at a position of the state.
    pub fn state_param(slot: usize) -> (r: Option<ViceParam>)
        ensures
            r == vice_state_at(slot as int),
    {
        if slot < 6 {
            Vice::param_at(slot as u32)
        } else {
            None
        }
    }
}

/// The parameter list is complete and without repeats: the positions below the count
/// name parameters, none beyond it does, every parameter stands at the position given
/// by its id, and every id names its own parameter.
pub proof fn lemma_vice_params_listed(index: u32, p: ViceParam)
    ensures
        vice_param_at(index) is Some <==> index < vice_param_count(),
        vice_param_at(vice_id(p)) == Some(p),
        vice_param_of(vice_id(p)) == Some(p),
        vice_id(p) < vice_param_count(),
{
}

/// Every declared parameter is served by every parameter callback: its value and
/// modulation events reach it, its value can be read, shown and parsed. An id the
/// plugin does not declare is refused by all of them.
pub proof fn lemma_vice_ids_served(id: u32, kind: EventKind)
    ensures
        vice_param_of(id) is Some <==> id < vice_param_count(),
        kind != EventKind::Other ==> (vice_event(kind, Some(id)) is Some <==> vice_param_of(id) is Some),
        vice_value_source(id) is Some <==> vice_param_of(id) is Some,
        vice_display_rule(id) is Some <==> vice_param_of(id) is Some,
        vice_parse_rule(id) is Some <==> vice_param_of(id) is Some,
        vice_event(kind, None) is None,
        vice_event(EventKind::Other, Some(id)) is None,
{
}

/// Reading a parameter undoes the conversion of storing it, and text shown for a
/// value is read back by the same parameter's parsing rule.
pub proof fn lemma_vice_conversions_agree(p: ViceParam)
    ensures
        store_read_inverse(vice_store(p), vice_read(p)),
        display_parse_agree(vice_display(p), vice_parse(p)),
{
}

/// The saved state holds each parameter exactly once: every parameter has a position
/// in it, and distinct positions hold distinct parameters.
pub proof fn lemma_vice_state_covers(p: ViceParam, i: int, j: int)
    ensures
        vice_state_at(vice_id(p) as int) == Some(p),
        0 <= i < 6 ==> vice_state_at(i) is Some,
        vice_state_at(i) is Some && vice_state_at(i) == vice_state_at(j) ==> i == j,
{
}

/// The parameter callbacks agree with one another on every id. An event reaches the
/// parameter the id names; it sets the value exactly when it is a value event; a
/// value event and a modulation event for one id convert their number the same way;
/// reading the parameter back for the host undoes that conversion; the value the
/// host reads is the one the display starts from; and what the display shows is read
/// back by the same id's parsing rule.
pub proof fn lemma_vice_callbacks_agree(id: u32, kind: EventKind)
    ensures
        vice_event(kind, Some(id)) matches Some((p, t, s)) ==> {
            &&& vice_param_at(id) == Some(p)
            &&& (t == Target::Value <==> kind == EventKind::ParamValue)
            &&& vice_value_source(id) matches Some((q, r)) && q == p && store_read_inverse(s, r)
        },
        vice_event(EventKind::ParamValue, Some(id)) matches Some((p, _t, s)) ==> vice_event(
            EventKind::ParamMod,
            Some(id),
        ) matches Some((q, _u, v)) && q == p && v == s,
        vice_value_source(id) matches Some((p, r)) ==> {
            &&& vice_param_at(id) == Some(p)
            &&& vice_display_rule(id) matches Some(d) && read_display_agree(r, d)
        },
        vice_display_rule(id) matches Some(d) ==> vice_parse_rule(id) matches Some(rule)
            && display_parse_agree(d, rule),
        vice_parse_rule(id) is Some ==> vice_event(EventKind::ParamValue, Some(id)) is Some,
{
}

} // verus!
