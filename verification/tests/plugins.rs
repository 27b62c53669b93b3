use clack_plugin::plugin::features::{AUDIO_EFFECT, COMPRESSOR, DISTORTION, STEREO};
use edwloef_plugins::descriptor::Feature;
use edwloef_plugins::heater::{Heater, HeaterParam};
use edwloef_plugins::params::{
    AfterParse, Digits, DisplayRule, EventKind, ParseRule, Read, Shown, Store, Target,
};
use edwloef_plugins::text::Unit;
use edwloef_plugins::vice::{Vice, ViceParam};

fn chars(s: &str) -> Vec<char> {
    s.chars().collect()
}

#[test]
fn heater_lists_three_parameters() {
    assert_eq!(Heater::param_count(), 3);
    assert_eq!(Heater::param_at(0), Some(HeaterParam::Pregain));
    assert_eq!(Heater::param_at(1), Some(HeaterParam::Intensity));
    assert_eq!(Heater::param_at(2), Some(HeaterParam::Postgain));
    assert_eq!(Heater::param_at(3), None);
    assert_eq!(Heater::param_of(u32::MAX), None);
    for i in 0..3 {
        let p = Heater::param_at(i).unwrap();
        assert_eq!(p.id(), i);
        assert!(p.flags().automatable && p.flags().modulatable);
    }
    assert_eq!(HeaterParam::Pregain.name(), "pregain");
    assert_eq!(HeaterParam::Intensity.name(), "intensity");
    assert_eq!(HeaterParam::Postgain.name(), "postgain");
}

#[test]
fn heater_events_reach_their_parameter() {
    assert_eq!(
        Heater::event_target(EventKind::ParamValue, Some(0)),
        Some((HeaterParam::Pregain, Target::Value, Store::DbToAmp))
    );
    assert_eq!(
        Heater::event_target(EventKind::ParamMod, Some(1)),
        Some((HeaterParam::Intensity, Target::Modulation, Store::Identity))
    );
    assert_eq!(
        Heater::event_target(EventKind::ParamValue, Some(2)),
        Some((HeaterParam::Postgain, Target::Value, Store::DbToAmp))
    );
    assert_eq!(Heater::event_target(EventKind::Other, Some(0)), None);
    assert_eq!(Heater::event_target(EventKind::ParamValue, None), None);
    assert_eq!(Heater::event_target(EventKind::ParamMod, Some(3)), None);
}

#[test]
fn heater_values_read_shown_and_parsed() {
    assert_eq!(Heater::value_source(0), Some((HeaterParam::Pregain, Read::AmpToDb)));
    assert_eq!(Heater::value_source(1), Some((HeaterParam::Intensity, Read::Identity)));
    assert_eq!(Heater::value_source(5), None);
    assert_eq!(
        Heater::display_rule(2),
        Some(DisplayRule { shown: Shown::Identity, digits: Digits::OneDecimal, unit: Unit::Decibels })
    );
    assert_eq!(
        Heater::display_rule(1),
        Some(DisplayRule { shown: Shown::Hundredfold, digits: Digits::WholeNumber, unit: Unit::Percent })
    );
    assert_eq!(Heater::display_rule(3), None);
    assert_eq!(
        HeaterParam::Intensity.parse(),
        ParseRule { unit: Unit::Percent, after: AfterParse::Hundredth }
    );
    let (n, after) = Heater::text_number(0, &chars("3 dB")).unwrap();
    assert_eq!(n.into_iter().collect::<String>(), "3");
    assert_eq!(after, AfterParse::Identity);
    let (n, after) = Heater::text_number(1, &chars("50%")).unwrap();
    assert_eq!(n.into_iter().collect::<String>(), "50");
    assert_eq!(after, AfterParse::Hundredth);
    assert!(Heater::text_number(3, &chars("1")).is_none());
}

#[test]
fn heater_state_order() {
    assert_eq!(Heater::state_len(), 3);
    assert_eq!(Heater::state_param(0), Some(HeaterParam::Pregain));
    assert_eq!(Heater::state_param(1), Some(HeaterParam::Intensity));
    assert_eq!(Heater::state_param(2), Some(HeaterParam::Postgain));
    assert_eq!(Heater::state_param(3), None);
}

#[test]
fn heater_descriptor_fields() {
    assert_eq!(Heater::ID, "com.edwloef.heater");
    let info = Heater::descriptor_info();
    assert_eq!(info.id, "com.edwloef.heater");
    assert_eq!(info.name, "Heater");
    assert_eq!(info.vendor, "edwloef");
    assert_eq!(info.features, vec![Feature::AudioEffect, Feature::Distortion, Feature::Stereo]);
}

#[test]
fn heater_descriptor_built() {
    let d = Heater::descriptor("1.2.3");
    assert_eq!(d.id().unwrap().to_str().unwrap(), "com.edwloef.heater");
    assert_eq!(d.name().unwrap().to_str().unwrap(), "Heater");
    assert_eq!(d.vendor().unwrap().to_str().unwrap(), "edwloef");
    assert_eq!(d.version().unwrap().to_str().unwrap(), "1.2.3");
    let features: Vec<_> = d.features().collect();
    assert_eq!(features, vec![AUDIO_EFFECT, DISTORTION, STEREO]);
}

#[test]
fn vice_lists_six_parameters() {
    assert_eq!(Vice::param_count(), 6);
    let expected = [
        (ViceParam::Ratio, "ratio"),
        (ViceParam::Threshold, "threshold"),
        (ViceParam::Knee, "knee"),
        (ViceParam::Attack, "attack"),
        (ViceParam::Release, "release"),
        (ViceParam::Postgain, "postgain"),
    ];
    for (i, (p, name)) in expected.iter().enumerate() {
        assert_eq!(Vice::param_at(i as u32), Some(*p));
        assert_eq!(p.id(), i as u32);
        assert_eq!(p.name(), *name);
        assert_eq!(Vice::state_param(i), Some(*p));
    }
    assert_eq!(Vice::param_at(6), None);
    assert_eq!(Vice::state_param(6), None);
    assert_eq!(Vice::state_len(), 6);
}

#[test]
fn vice_events_reach_their_parameter() {
    assert_eq!(
        Vice::event_target(EventKind::ParamValue, Some(0)),
        Some((ViceParam::Ratio, Target::Value, Store::Cube))
    );
    assert_eq!(
        Vice::event_target(EventKind::ParamMod, Some(1)),
        Some((ViceParam::Threshold, Target::Modulation, Store::Identity))
    );
    assert_eq!(
        Vice::event_target(EventKind::ParamValue, Some(2)),
        Some((ViceParam::Knee, Target::Value, Store::Identity))
    );
    assert_eq!(
        Vice::event_target(EventKind::ParamMod, Some(3)),
        Some((ViceParam::Attack, Target::Modulation, Store::Cube))
    );
    assert_eq!(
        Vice::event_target(EventKind::ParamValue, Some(4)),
        Some((ViceParam::Release, Target::Value, Store::Cube))
    );
    assert_eq!(
        Vice::event_target(EventKind::ParamMod, Some(5)),
        Some((ViceParam::Postgain, Target::Modulation, Store::DbToAmp))
    );
    assert_eq!(Vice::event_target(EventKind::ParamValue, Some(6)), None);
    assert_eq!(Vice::event_target(EventKind::Other, Some(1)), None);
    assert_eq!(Vice::event_target(EventKind::ParamMod, None), None);
}

#[test]
fn vice_values_read_shown_and_parsed() {
    assert_eq!(Vice::value_source(0), Some((ViceParam::Ratio, Read::CubeRoot)));
    assert_eq!(Vice::value_source(2), Some((ViceParam::Knee, Read::Identity)));
    assert_eq!(Vice::value_source(5), Some((ViceParam::Postgain, Read::AmpToDb)));
    assert_eq!(Vice::value_source(9), None);
    assert_eq!(
        Vice::display_rule(0),
        Some(DisplayRule { shown: Shown::Cube, digits: Digits::OneDecimal, unit: Unit::Bare })
    );
    assert_eq!(
        Vice::display_rule(4),
        Some(DisplayRule { shown: Shown::Cube, digits: Digits::OneDecimal, unit: Unit::Millis })
    );
    assert_eq!(Vice::display_rule(6), None);
    let (n, after) = Vice::text_number(3, &chars("20 ms")).unwrap();
    assert_eq!(n.into_iter().collect::<String>(), "20");
    assert_eq!(after, AfterParse::CubeRoot);
    let (n, after) = Vice::text_number(0, &chars(" 4 ")).unwrap();
    assert_eq!(n.into_iter().collect::<String>(), "4");
    assert_eq!(after, AfterParse::CubeRoot);
    let (n, after) = Vice::text_number(1, &chars("-12 dB")).unwrap();
    assert_eq!(n.into_iter().collect::<String>(), "-12");
    assert_eq!(after, AfterParse::Identity);
    assert!(Vice::text_number(6, &chars("1")).is_none());
}

#[test]
fn vice_descriptor() {
    assert_eq!(Vice::ID, "com.edwloef.vice");
    let info = Vice::descriptor_info();
    assert_eq!(info.name, "Vice");
    assert_eq!(info.features, vec![Feature::AudioEffect, Feature::Compressor, Feature::Stereo]);
    let d = Vice::descriptor("0.1.0");
    assert_eq!(d.id().unwrap().to_str().unwrap(), "com.edwloef.vice");
    assert_eq!(d.name().unwrap().to_str().unwrap(), "Vice");
    assert_eq!(d.vendor().unwrap().to_str().unwrap(), "edwloef");
    assert_eq!(d.version().unwrap().to_str().unwrap(), "0.1.0");
    let features: Vec<_> = d.features().collect();
    assert_eq!(features, vec![AUDIO_EFFECT, COMPRESSOR, STEREO]);
}
