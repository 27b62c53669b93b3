//! A plugin's descriptor: its identifier, name, vendor, version and features, and
//! the CLAP descriptor built from them.
use vstd::prelude::*;
use clack_plugin::plugin::PluginDescriptor;
use clack_plugin::plugin::features::{AUDIO_EFFECT, COMPRESSOR, DISTORTION, STEREO};

verus! {

#[verifier::external_type_specification]
#[verifier::external_body]
pub struct ExPluginDescriptor(PluginDescriptor);

/// A feature a plugin announces to the host.
#[derive(Clone, Copy, Debug, PartialEq, Eq, Structural)]
pub enum Feature {
    AudioEffect,
    Distortion,
    Compressor,
    Stereo,
}

/// The fields of a descriptor that a plugin fixes.
pub struct DescriptorInfo {
    pub id: &'static str,
    pub name: &'static str,
    pub vendor: &'static str,
    pub features: Vec<Feature>,
}

/// The text of a feature as CLAP names it.
pub open spec fn feature_text(f: Feature) -> Seq<char> {
    match f {
        Feature::AudioEffect => "audio-effect"@,
        Feature::Distortion => "distortion"@,
        Feature::Compressor => "compressor"@,
        Feature::Stereo => "stereo"@,
    }
}

/// The texts a descriptor holds, in this order: its id, name, vendor and version,
/// each empty where it is unset.
pub uninterp spec fn descriptor_texts(d: PluginDescriptor) -> Seq<Seq<char>>;

/// The features a descriptor lists, in order.
pub uninterp spec fn descriptor_features(d: PluginDescriptor) -> Seq<Seq<char>>;

/// A text without NUL characters, which a C string can hold.
pub open spec fn no_nul(s: Seq<char>) -> bool {
    forall|i: int| 0 <= i < s.len() ==> s[i] != '\0'
}

/// `PluginDescriptor::new`: a descriptor that holds the given id and name, with
/// vendor, version and feature list unset. The crate panics on an empty id or name and
/// on one that holds a NUL character, so neither is admitted.
#[verifier::external_body]
fn descriptor_new(id: &str, name: &str) -> (d: PluginDescriptor)
    requires
        id@.len() > 0,
        name@.len() > 0,
        no_nul(id@),
        no_nul(name@),
    ensures
        descriptor_texts(d) == seq![id@, name@, Seq::<char>::empty(), Seq::<char>::empty()],
        descriptor_features(d) == Seq::<Seq<char>>::empty(),
{
    PluginDescriptor::new(id, name)
}

/// `PluginDescriptor::with_version`: the descriptor with its version set and all else
/// kept. The crate panics on a NUL character, which is not admitted.
#[verifier::external_body]
fn descriptor_with_version(d: PluginDescriptor, version: &str) -> (r: PluginDescriptor)
    requires
        no_nul(version@),
    ensures
        descriptor_texts(r) == seq![
            descriptor_texts(d)[0],
            descriptor_texts(d)[1],
            descriptor_texts(d)[2],
            version@,
        ],
        descriptor_features(r) == descriptor_features(d),
{
    d.with_version(version)
}

/// `PluginDescriptor::with_vendor`: the descriptor with its vendor set and all else
/// kept. The crate panics on a NUL character, which is not admitted.
#[verifier::external_body]
fn descriptor_with_vendor(d: PluginDescriptor, vendor: &str) -> (r: PluginDescriptor)
    requires
        no_nul(vendor@),
    ensures
        descriptor_texts(r) == seq![
            descriptor_texts(d)[0],
            descriptor_texts(d)[1],
            vendor@,
            descriptor_texts(d)[3],
        ],
        descriptor_features(r) == descriptor_features(d),
{
    d.with_vendor(vendor)
}

/// `PluginDescriptor::with_features`: the descriptor with its feature list set to the
/// crate's constants for the given features, in order, and all else kept.
#[verifier::external_body]
fn descriptor_with_features(d: PluginDescriptor, features: &Vec<Feature>) -> (r: PluginDescriptor)
    ensures
        descriptor_texts(r) == descriptor_texts(d),
        descriptor_features(r) == features@.map_values(|f: Feature| feature_text(f)),
{
    d.with_features(
        features.iter().map(
            |f| match f {
                Feature::AudioEffect => AUDIO_EFFECT,
                Feature::Distortion => DISTORTION,
                Feature::Compressor => COMPRESSOR,
                Feature::Stereo => STEREO,
            },
        ),
    )
}

/// The CLAP descriptor of a plugin: it holds the plugin's id, name and vendor, the
/// given version, and the texts of the plugin's features in order.
pub fn build_descriptor(info: &DescriptorInfo, version: &str) -> (d: PluginDescriptor)
    requires
        info.id@.len() > 0,
        info.name@.len() > 0,
        no_nul(info.id@),
        no_nul(info.name@),
        no_nul(info.vendor@),
        no_nul(version@),
    ensures
        descriptor_texts(d) == seq![info.id@, info.name@, info.vendor@, version@],
        descriptor_features(d) == info.features@.map_values(|f: Feature| feature_text(f)),
{
    let d = descriptor_new(info.id, info.name);
    let d = descriptor_with_version(d, version);
    let d = descriptor_with_vendor(d, info.vendor);
    descriptor_with_features(d, &info.features)
}

} // verus!
